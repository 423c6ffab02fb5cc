//! The kernel's state as the interface holds it: its log, its information
//! entries and its modules.

use vstd::prelude::*;
use crate::info::KernelInfo;
use crate::cmd::ModuleCommand;
use crate::log::KernelLogs;
use crate::log::head_line;
use crate::modules::{KernelModules, ParseError, listing_records, record_views, selected_name};
use crate::text::views;

verus! {

/// Kernel logs, information and modules.
pub struct Kernel {
    pub logs: KernelLogs,
    pub info: KernelInfo,
    pub modules: KernelModules,
}

impl Kernel {
    /// Each part is well formed.
    pub open spec fn wf(&self) -> bool {
        self.modules.wf() && self.info.wf()
    }

    /// The kernel state from its parts.
    pub fn new(logs: KernelLogs, info: KernelInfo, modules: KernelModules) -> (r: Kernel)
        ensures
            r.logs == logs,
            r.info == info,
            r.modules == modules,
    {
        Kernel { logs, info, modules }
    }

    /// Takes a fresh log text, fresh information entries and a fresh module
    /// listing.
    pub fn refresh(
        &mut self,
        log_text: String,
        entries: Vec<Vec<String>>,
        listing: &str,
    ) -> (r: Result<(), ParseError>)
        requires
            old(self).wf(),
            entries@.len() > 0,
        ensures
            final(self).wf(),
            final(self).logs.output@ == log_text@,
            final(self).logs.last_line@ == head_line(log_text@),
            final(self).logs.index == 0,
            final(self).logs.crop_offset == 0,
            final(self).info.entries@ == entries@,
            views(final(self).info.current_info@) == views(entries@[0]@),
            final(self).info.position == 1,
            !final(self).info.needs_refresh,
            r is Ok <==> listing_records(listing@) is Some,
            r is Err ==> final(self).modules == old(self).modules,
            r is Ok ==> {
                let recs = listing_records(listing@)->Some_0;
                let m = final(self).modules;
                &&& record_views(m.default_list@) == (if old(self).modules.args.reverse {
                    recs.reverse()
                } else {
                    recs
                })
                &&& record_views(m.list@) == record_views(m.default_list@)
                &&& m.index == 0
                &&& m.info_scroll_offset == 0
                &&& recs.len() > 0 ==> m.command == ModuleCommand::Idle && m.needs_info
                    && m.current_name@ == selected_name(m.list@[0].name@)
            },
    {
        self.logs.refresh(log_text);
        self.info.refresh(entries);
        self.modules.refresh(listing)
    }
}

} // verus!
