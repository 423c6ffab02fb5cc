//! The kernel and system information panel: labelled entries shown one at a
//! time, in turn.

use vstd::prelude::*;
use crate::text::views;

verus! {

/// The labels of the entries, in the order they are shown.
pub open spec fn info_labels() -> Seq<Seq<char>> {
    seq!["Kernel Release"@, "Kernel Version"@, "Kernel Platform"@]
}

/// Kernel information entries and the one shown.
pub struct KernelInfo {
    /// The entry shown: its label and its value.
    pub current_info: Vec<String>,
    /// The entries, each a label and a value.
    pub entries: Vec<Vec<String>>,
    /// The position of the entry that comes next.
    pub position: usize,
    /// Set when the entries went round once and are to be read again.
    pub needs_refresh: bool,
}

/// An entry: a label and a value.
fn entry(label: &str, value: String) -> (r: Vec<String>)
    ensures
        r@.len() == 2,
        r@[0]@ == label@,
        r@[1] == value,
{
    let mut v: Vec<String> = Vec::new();
    v.push(String::from_str(label));
    v.push(value);
    v
}

/// A copy of an entry.
fn copy_entry(e: &Vec<String>) -> (r: Vec<String>)
    ensures
        views(r@) == views(e@),
{
    let mut r: Vec<String> = Vec::new();
    let mut i: usize = 0;
    while i < e.len()
        invariant
            i <= e.len(),
            r@.len() == i,
            forall|j: int| 0 <= j < i ==> #[trigger] r@[j] == e@[j],
        decreases e.len() - i,
    {
        r.push(e[i].clone());
        i = i + 1;
    }
    assert(views(r@) =~= views(e@));
    r
}

/// A read value, or `?` where it could not be read.
fn value_or_unknown(v: Result<String, String>) -> (r: String)
    ensures
        r@ == (match v {
            Ok(t) => t@,
            Err(_) => "?"@,
        }),
{
    match v {
        Ok(t) => t,
        Err(_) => String::from_str("?"),
    }
}

impl KernelInfo {
    /// The entries from the read kernel release, version and platform;
    /// each that could not be read shows as `?`.
    pub fn get_infos(
        release: Result<String, String>,
        version: Result<String, String>,
        platform: Result<String, String>,
    ) -> (r: Vec<Vec<String>>)
        ensures
            r@.len() == 3,
            forall|i: int| 0 <= i < 3 ==> (#[trigger] r@[i])@.len() == 2 && r@[i]@[0]@ == info_labels()[i],
            r@[0]@[1]@ == (match release {
                Ok(t) => t@,
                Err(_) => "?"@,
            }),
            r@[1]@[1]@ == (match version {
                Ok(t) => t@,
                Err(_) => "?"@,
            }),
            r@[2]@[1]@ == (match platform {
                Ok(t) => t@,
                Err(_) => "?"@,
            }),
    {
        let mut r: Vec<Vec<String>> = Vec::new();
        r.push(entry("Kernel Release", value_or_unknown(release)));
        r.push(entry("Kernel Version", value_or_unknown(version)));
        r.push(entry("Kernel Platform", value_or_unknown(platform)));
        r
    }

    /// The panel over the given entries, showing the first.
    pub fn new(entries: Vec<Vec<String>>) -> (r: KernelInfo)
        requires
            entries@.len() > 0,
        ensures
            r.wf(),
            r.entries@ == entries@,
            views(r.current_info@) == views(entries@[0]@),
            r.position == 1,
            !r.needs_refresh,
    {
        let mut info = KernelInfo {
            current_info: Vec::new(),
            entries: Vec::new(),
            position: 0,
            needs_refresh: false,
        };
        info.refresh(entries);
        info
    }

    /// There are entries, and the position is within them or just past
    /// the last.
    pub open spec fn wf(&self) -> bool {
        self.entries@.len() > 0 && self.position <= self.entries@.len()
    }

    /// Takes newly read entries and shows the first.
    pub fn refresh(&mut self, entries: Vec<Vec<String>>)
        requires
            entries@.len() > 0,
        ensures
            final(self).wf(),
            final(self).entries@ == entries@,
            views(final(self).current_info@) == views(entries@[0]@),
            final(self).position == 1,
            !final(self).needs_refresh,
    {
        self.entries = entries;
        self.position = 0;
        self.needs_refresh = false;
        self.next();
    }

    /// Shows the next entry. After the last, the first is shown again and
    /// the entries are marked to be read anew.
    pub fn next(&mut self)
        requires
            old(self).entries@.len() > 0,
            old(self).position <= old(self).entries@.len(),
        ensures
            final(self).wf(),
            final(self).entries == old(self).entries,
            old(self).position < old(self).entries@.len() ==> views(final(self).current_info@)
                == views(old(self).entries@[old(self).position as int]@) && final(self).position
                == old(self).position + 1 && final(self).needs_refresh == old(self).needs_refresh,
            old(self).position == old(self).entries@.len() ==> views(final(self).current_info@)
                == views(old(self).entries@[0]@) && final(self).position == 1 && final(self).needs_refresh,
    {
        if self.position < self.entries.len() {
            self.current_info = copy_entry(&self.entries[self.position]);
            self.position = self.position + 1;
        } else {
            self.current_info = copy_entry(&self.entries[0]);
            self.position = 1;
            self.needs_refresh = true;
        }
    }
}

} // verus!
