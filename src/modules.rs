//! The registry of loaded kernel modules: the table parsed from the module
//! listing, the search-filtered list shown from it, the selection, and the
//! mutation command staged against the selected module.

use vstd::prelude::*;
use crate::app::ScrollDirection;
use crate::cmd::{Command, ModuleCommand, command_line, same_text};
use crate::size::{byte_size_text, human_size, parse_size, size_value};
use crate::style::{Symbol, Unicode, glyph};
use crate::text::{
    has_infix,
    lines,
    lines_of,
    lower_of,
    lowercase,
    split_at_char,
    split_on,
    views,
    replace_text,
    replaced,
    words,
    words_of,
};

verus! {

/// How the module listing is sorted before it is read.
#[derive(Clone, Copy, Debug, PartialEq, Eq, Structural)]
pub enum SortType {
    Unsorted,
    Size,
    Name,
    Dependent,
}

impl SortType {
    /// Every sort type, in declaration order.
    pub fn iter() -> (r: Vec<SortType>)
        ensures
            r@ == seq![SortType::Unsorted, SortType::Size, SortType::Name, SortType::Dependent],
    {
        let r = vec![SortType::Unsorted, SortType::Size, SortType::Name, SortType::Dependent];
        assert(r@ =~= seq![SortType::Unsorted, SortType::Size, SortType::Name, SortType::Dependent]);
        r
    }
}

/// How the module list is read: its sort and whether it is reversed.
#[derive(Clone, Copy, Debug)]
pub struct ListArgs {
    pub sort: SortType,
    pub reverse: bool,
}

/// The shell command that lists the loaded modules in the given order.
pub open spec fn listing_command(sort: SortType) -> Seq<char> {
    match sort {
        SortType::Unsorted => "cat /proc/modules"@,
        SortType::Size => "cat /proc/modules | sort -n -r -t ' ' -k2"@,
        SortType::Name => "cat /proc/modules | sort -t ' ' -k1"@,
        SortType::Dependent => "cat /proc/modules | sort -n -r -t ' ' -k3"@,
    }
}

impl ListArgs {
    /// Listing properties with the given sort and order.
    pub fn new(sort: SortType, reverse: bool) -> (r: ListArgs)
        ensures
            r.sort == sort,
            r.reverse == reverse,
    {
        ListArgs { sort, reverse }
    }

    /// The shell command that lists the loaded modules in this sort.
    pub fn read_command(&self) -> (r: String)
        ensures
            r@ == listing_command(self.sort),
    {
        let c = match self.sort {
            SortType::Unsorted => "cat /proc/modules",
            SortType::Size => "cat /proc/modules | sort -n -r -t ' ' -k2",
            SortType::Name => "cat /proc/modules | sort -t ' ' -k1",
            SortType::Dependent => "cat /proc/modules | sort -n -r -t ' ' -k3",
        };
        String::from_str(c)
    }
}

/// One loaded module as shown in the table.
#[derive(Debug)]
pub struct ModuleRecord {
    /// The module name, followed by its file name where the listing gives one.
    pub name: String,
    /// The size, human-readable.
    pub size: String,
    /// How many users the module has.
    pub use_count: String,
    /// The modules that use it, separated by commas; `-` when none.
    pub dependents: String,
}

/// What a module record holds.
pub struct RecordView {
    pub name: Seq<char>,
    pub size: Seq<char>,
    pub use_count: Seq<char>,
    pub dependents: Seq<char>,
}

impl View for ModuleRecord {
    type V = RecordView;

    open spec fn view(&self) -> RecordView {
        RecordView {
            name: self.name@,
            size: self.size@,
            use_count: self.use_count@,
            dependents: self.dependents@,
        }
    }
}

/// The views of a list of records.
pub open spec fn record_views(s: Seq<ModuleRecord>) -> Seq<RecordView> {
    s.map_values(|r: ModuleRecord| r@)
}

/// A text without one trailing comma.
pub open spec fn trim_comma(s: Seq<char>) -> Seq<char> {
    if s.len() > 0 && s.last() == ',' {
        s.drop_last()
    } else {
        s
    }
}

/// The shown name of a module from the columns of its line: the first
/// column, followed by a space and the seventh where there is one.
pub open spec fn display_name(cols: Seq<Seq<char>>) -> Seq<char> {
    if cols.len() >= 7 {
        cols[0] + " "@ + cols[6]
    } else {
        cols[0]
    }
}

/// The record read from the columns of a module line.
pub open spec fn record_of(cols: Seq<Seq<char>>) -> RecordView {
    RecordView {
        name: display_name(cols),
        size: byte_size_text(size_value(cols[1])),
        use_count: cols[2],
        dependents: trim_comma(cols[3]),
    }
}

/// Whether a line holds the four columns a module record needs.
pub open spec fn well_formed_line(line: Seq<char>) -> bool {
    words_of(line).len() >= 4
}

/// The dependent modules of a record, in order.
pub open spec fn dependents_of(r: RecordView) -> Seq<Seq<char>> {
    split_on(r.dependents, ',')
}

/// A line of the module listing that lacks columns.
#[derive(Clone, Copy, Debug, PartialEq, Eq, Structural)]
pub struct ParseError {
    /// The position of the line among the lines of the listing.
    pub line: usize,
}

impl ModuleRecord {
    /// A copy of the record.
    pub fn duplicate(&self) -> (r: ModuleRecord)
        ensures
            r@ == self@,
    {
        ModuleRecord {
            name: self.name.clone(),
            size: self.size.clone(),
            use_count: self.use_count.clone(),
            dependents: self.dependents.clone(),
        }
    }

    /// The dependent modules, in order.
    pub fn dependent_list(&self) -> (r: Vec<String>)
        ensures
            views(r@) == dependents_of(self@),
            r@.len() >= 1,
    {
        split_at_char(self.dependents.as_str(), ',')
    }
}

/// Joins three strings.
fn join3(a: &str, b: &str, c: &str) -> (r: String)
    ensures
        r@ == a@ + b@ + c@,
{
    String::from_str(a).concat(b).concat(c)
}

/// Reads one line of the module listing, whose columns are the name, the
/// size in bytes, the use count and the dependents; `None` when it has
/// fewer than four columns.
pub fn parse_module_line(line: &str) -> (r: Option<ModuleRecord>)
    ensures
        r is Some <==> well_formed_line(line@),
        r matches Some(rec) ==> rec@ == record_of(words_of(line@)),
{
    let cols = words(line);
    let ghost cv = views(cols@);
    if cols.len() < 4 {
        return None;
    }
    assert(cols@[0]@ == cv[0] && cols@[1]@ == cv[1] && cols@[2]@ == cv[2] && cols@[3]@ == cv[3]);
    let name = if cols.len() >= 7 {
        assert(cols@[6]@ == cv[6]);
        proof {
            reveal_strlit(" ");
        }
        join3(cols[0].as_str(), " ", cols[6].as_str())
    } else {
        cols[0].clone()
    };
    let size = human_size(parse_size(cols[1].as_str()));
    let use_count = cols[2].clone();
    let mut dependents = cols[3].clone();
    let n = crate::text::chars_of(dependents.as_str());
    if n.len() > 0 && n[n.len() - 1] == ',' {
        let k = n.len() - 1;
        dependents = dependents.as_str().substring_char(0, k).to_owned();
        assert(dependents@ =~= trim_comma(cv[3]));
    }
    let rec = ModuleRecord { name, size, use_count, dependents };
    assert(rec@.dependents == trim_comma(cv[3]));
    Some(rec)
}

/// The records read from a listing, in order; `None` when a line lacks
/// columns.
pub open spec fn listing_records(content: Seq<char>) -> Option<Seq<RecordView>> {
    if forall|i: int| 0 <= i < lines_of(content).len() ==> well_formed_line(
        #[trigger] lines_of(content)[i],
    ) {
        Some(lines_of(content).map_values(|l: Seq<char>| record_of(words_of(l))))
    } else {
        None
    }
}

/// Reads the module listing, one record per line, in order. A line with
/// fewer than four columns is refused with its position.
pub fn parse_module_list(content: &str) -> (r: Result<Vec<ModuleRecord>, ParseError>)
    ensures
        r is Ok <==> listing_records(content@) is Some,
        r matches Ok(v) ==> record_views(v@) == listing_records(content@)->Some_0,
        r matches Err(e) ==> e.line < lines_of(content@).len() && !well_formed_line(
            lines_of(content@)[e.line as int],
        ),
{
    let ls = lines(content);
    let ghost all = lines_of(content@);
    let mut out: Vec<ModuleRecord> = Vec::new();
    let mut i: usize = 0;
    while i < ls.len()
        invariant
            i <= ls.len(),
            views(ls@) == all,
            all == lines_of(content@),
            forall|j: int| 0 <= j < i ==> #[trigger] out@[j]@ == record_of(words_of(all[j])),
            forall|j: int| 0 <= j < i ==> well_formed_line(#[trigger] all[j]),
            out@.len() == i,
        decreases ls.len() - i,
    {
        assert(views(ls@)[i as int] == ls@[i as int]@);
        match parse_module_line(ls[i].as_str()) {
            Some(rec) => {
                let ghost prev = out@;
                assert(rec@ == record_of(words_of(all[i as int])));
                out.push(rec);
                assert forall|j: int| 0 <= j < i implies out@[j] == prev[j] by {}
                i = i + 1;
            },
            None => {
                return Err(ParseError { line: i });
            },
        }
    }
    assert(record_views(out@) =~= all.map_values(|l: Seq<char>| record_of(words_of(l))));
    Ok(out)
}

/// Whether a record's name holds the query, letter case aside.
pub open spec fn matches_query(r: RecordView, q: Seq<char>) -> bool {
    has_infix(lower_of(r.name), lower_of(q))
}

/// The records whose name holds the query, letter case aside, in order.
pub open spec fn matching(s: Seq<RecordView>, q: Seq<char>) -> Seq<RecordView>
    decreases s.len(),
{
    if s.len() == 0 {
        s
    } else {
        let rest = matching(s.drop_last(), q);
        if matches_query(s.last(), q) {
            rest.push(s.last())
        } else {
            rest
        }
    }
}

/// The list shown for a search query: all records for an empty query, else
/// those whose name holds it, letter case aside, in order.
pub open spec fn visible(s: Seq<RecordView>, q: Seq<char>) -> Seq<RecordView> {
    if q.len() == 0 {
        s
    } else {
        matching(s, q)
    }
}

/// The records shown for a search query: those whose name contains it,
/// letter case aside, in their order; all of them for an empty query.
pub fn filter_modules(list: &Vec<ModuleRecord>, query: &str) -> (r: Vec<ModuleRecord>)
    ensures
        record_views(r@) == visible(record_views(list@), query@),
{
    let ghost all = record_views(list@);
    let q = lowercase(query);
    let empty = query.unicode_len() == 0;
    let mut out: Vec<ModuleRecord> = Vec::new();
    let mut i: usize = 0;
    while i < list.len()
        invariant
            i <= list.len(),
            all == record_views(list@),
            q@ == lower_of(query@),
            empty == (query@.len() == 0),
            record_views(out@) == visible(all.take(i as int), query@),
        decreases list.len() - i,
    {
        let rec = &list[i];
        let keep = empty || {
            let name = lowercase(rec.name.as_str());
            crate::text::name_matches(name.as_str(), q.as_str())
        };
        proof {
            assert(all.take(i + 1).drop_last() =~= all.take(i as int));
            assert(all.take(i + 1).last() == rec@);
        }
        if keep {
            out.push(rec.duplicate());
        }
        i = i + 1;
        assert(record_views(out@) =~= visible(all.take(i as int), query@));
    }
    assert(all.take(i as int) =~= all);
    out
}

/// What the module information panel shows.
#[derive(Clone, Copy, Debug, PartialEq, Eq, Structural)]
pub enum InfoKind {
    /// The information about the selected module.
    ModuleInfo,
    /// A staged command awaiting confirmation.
    Confirm,
    /// The error that a command ended with.
    ExecError,
    /// The key bindings.
    Help,
    /// The modules that use the selected one.
    Dependents,
}

/// The text shown when no information about a module could be read.
pub const INFO_UNAVAILABLE: &'static str = "module information not available";

/// The prefix of a name that marks an informational page, not a module.
pub const PAGE_MARK: char = '!';

/// The loaded kernel modules and the selection among them.
pub struct KernelModules {
    /// The records as listed, sorted and reversed as configured.
    pub default_list: Vec<ModuleRecord>,
    /// The records shown: those of the default list that the search keeps.
    pub list: Vec<ModuleRecord>,
    /// The selected module's name, or the name of an informational page.
    pub current_name: String,
    /// The raw text of the information panel.
    pub current_info: String,
    /// What the information panel shows.
    pub info_kind: InfoKind,
    /// How many lines the information panel shows.
    pub info_lines: usize,
    /// The command staged against the current module.
    pub command: ModuleCommand,
    /// The selected position in the shown list.
    pub index: usize,
    /// How far the information panel is scrolled.
    pub info_scroll_offset: usize,
    /// Set when the selection moved and the information about the selected
    /// module is still to be read.
    pub needs_info: bool,
    pub args: ListArgs,
    pub unicode: Unicode,
}

/// The name that a shown name is selected by: its first word, or `?`.
pub open spec fn selected_name(shown: Seq<char>) -> Seq<char> {
    if words_of(shown).len() > 0 {
        words_of(shown)[0]
    } else {
        "?"@
    }
}

/// The position after `i` in a list of `n`, wrapping past the last to the
/// first; zero in an empty list.
pub open spec fn next_index(i: int, n: int) -> int {
    if n == 0 || i + 1 > n - 1 {
        0
    } else {
        i + 1
    }
}

/// The position before `i` in a list of `n`, wrapping before the first to
/// the last; zero in an empty list.
pub open spec fn previous_index(i: int, n: int) -> int {
    if n == 0 {
        0
    } else if i > 0 {
        i - 1
    } else {
        n - 1
    }
}

/// The selected position after scrolling a list of `n`.
pub open spec fn scrolled_index(i: int, n: int, direction: ScrollDirection) -> int {
    if n == 0 {
        0
    } else {
        match direction {
            ScrollDirection::Up => previous_index(i, n),
            ScrollDirection::Down => next_index(i, n),
            ScrollDirection::Top => 0,
            ScrollDirection::Bottom => n - 1,
            _ => i,
        }
    }
}

/// The first word of a text, or `?` when it has none.
fn first_word(s: &str) -> (r: String)
    ensures
        r@ == selected_name(s@),
{
    let ws = words(s);
    if ws.len() > 0 {
        assert(views(ws@)[0] == ws@[0]@);
        ws[0].clone()
    } else {
        String::from_str("?")
    }
}

impl KernelModules {
    /// The selection is a position in the shown list, or zero when it is
    /// empty.
    pub open spec fn wf(&self) -> bool {
        self.index < self.list.len() || (self.list.len() == 0 && self.index == 0)
    }

    /// The staging of a command, as `set_current_command` does it.
    pub open spec fn staged(
        a: &KernelModules,
        b: &KernelModules,
        kind: ModuleCommand,
        name: Seq<char>,
    ) -> bool {
        if !name.contains(' ') && !(a.current_name@.len() > 0 && a.current_name@[0] == PAGE_MARK) {
            &&& b.current_name@ == (if name.len() > 0 { name } else { a.current_name@ })
            &&& b.command == kind
            &&& b.current_info@ == command_line(kind, b.current_name@)
            &&& b.info_kind == InfoKind::Confirm
            &&& b.info_lines == 3
            &&& b.info_scroll_offset == 0
            &&& b.index == a.index
            &&& b.list == a.list
            &&& b.default_list == a.default_list
            &&& b.needs_info == a.needs_info
        } else {
            *b == *a
        }
    }

    /// The execution of the staged command with the given outcome, as
    /// `execute_command` does it; `r` is whether it ran successfully.
    pub open spec fn executed(
        a: &KernelModules,
        b: &KernelModules,
        outcome: Result<(), Seq<char>>,
        r: bool,
    ) -> bool {
        if a.command == ModuleCommand::Idle {
            !r && *b == *a
        } else {
            &&& b.command == ModuleCommand::Idle
            &&& b.index == a.index
            &&& b.list == a.list
            &&& b.default_list == a.default_list
            &&& match outcome {
                Ok(_) => r && b.current_name == a.current_name && b.current_info
                    == a.current_info && b.info_kind == a.info_kind,
                Err(e) => {
                    &&& !r
                    &&& b.current_name@ == "!Error"@ + glyph(Symbol::NoEntry, a.unicode.replace)
                    &&& b.current_info@ == "Execution Error\n'"@ + command_line(
                        a.command,
                        a.current_name@,
                    ) + "'\n"@ + e
                    &&& b.info_kind == InfoKind::ExecError
                },
            }
        }
    }

    /// The cancelling of the staged command, as `cancel_execution` does it;
    /// `r` is whether there was one.
    pub open spec fn cancelled(a: &KernelModules, b: &KernelModules, r: bool) -> bool {
        if a.command == ModuleCommand::Idle {
            !r && *b == *a
        } else {
            &&& r
            &&& b.command == ModuleCommand::Idle
            &&& b.index == a.index
            &&& b.list == a.list
            &&& b.default_list == a.default_list
            &&& b.info_scroll_offset == 0
            &&& (a.list.len() > 0 ==> b.needs_info && b.current_name@ == selected_name(
                a.list@[a.index as int].name@,
            ))
        }
    }

    /// An empty registry with the given listing properties and glyphs. The
    /// listing is read in with `refresh`.
    pub fn new(args: ListArgs, unicode: Unicode) -> (r: KernelModules)
        ensures
            r.wf(),
            r.default_list@.len() == 0,
            r.list@.len() == 0,
            r.command == ModuleCommand::Idle,
            r.index == 0,
            r.args == args,
            r.unicode == unicode,
    {
        KernelModules {
            default_list: Vec::new(),
            list: Vec::new(),
            current_name: String::new(),
            current_info: String::new(),
            info_kind: InfoKind::ModuleInfo,
            info_lines: 0,
            command: ModuleCommand::Idle,
            index: 0,
            info_scroll_offset: 0,
            needs_info: false,
            args,
            unicode,
        }
    }

    /// Reads the module listing in: the records, reversed where configured,
    /// become both lists and the first is selected. A listing with a line
    /// that lacks columns is refused and nothing changes.
    pub fn refresh(&mut self, content: &str) -> (r: Result<(), ParseError>)
        requires
            old(self).wf(),
        ensures
            final(self).wf(),
            r is Ok <==> listing_records(content@) is Some,
            r is Err ==> *final(self) == *old(self),
            r is Ok ==> {
                let recs = listing_records(content@)->Some_0;
                &&& record_views(final(self).default_list@) == (if old(self).args.reverse {
                    recs.reverse()
                } else {
                    recs
                })
                &&& record_views(final(self).list@) == record_views(final(self).default_list@)
                &&& final(self).index == 0
                &&& final(self).info_scroll_offset == 0
                &&& recs.len() > 0 ==> final(self).command == ModuleCommand::Idle
                    && final(self).needs_info && final(self).current_name@ == selected_name(
                    final(self).list@[0].name@,
                )
            },
    {
        let parsed = parse_module_list(content);
        match parsed {
            Err(e) => Err(e),
            Ok(recs) => {
                let ghost rv = record_views(recs@);
                let ghost want = if self.args.reverse { rv.reverse() } else { rv };
                let n = recs.len();
                let reverse = self.args.reverse;
                let mut ordered: Vec<ModuleRecord> = Vec::new();
                let mut copy: Vec<ModuleRecord> = Vec::new();
                let mut i: usize = 0;
                while i < n
                    invariant
                        i <= n,
                        n == recs.len(),
                        rv == record_views(recs@),
                        want == (if reverse { rv.reverse() } else { rv }),
                        record_views(ordered@) == want.take(i as int),
                        record_views(copy@) == want.take(i as int),
                        ordered@.len() == i,
                        copy@.len() == i,
                        want.len() == n,
                    decreases n - i,
                {
                    let k = if reverse { n - 1 - i } else { i };
                    assert(want[i as int] == recs@[k as int]@);
                    let ghost p1 = ordered@;
                    let ghost p2 = copy@;
                    ordered.push(recs[k].duplicate());
                    copy.push(recs[k].duplicate());
                    assert forall|j: int| 0 <= j < i implies record_views(ordered@)[j]
                        == record_views(p1)[j] && record_views(copy@)[j] == record_views(p2)[j] by {
                        assert(ordered@[j] == p1[j]);
                        assert(copy@[j] == p2[j]);
                    }
                    i = i + 1;
                    assert(record_views(ordered@) =~= want.take(i as int));
                    assert(record_views(copy@) =~= want.take(i as int));
                }
                assert(want.take(i as int) =~= want);
                self.default_list = ordered;
                self.list = copy;
                self.index = 0;
                self.scroll_list(ScrollDirection::Top);
                Ok(())
            },
        }
    }

    /// The staged command on the current module.
    pub fn get_current_command(&self) -> (r: Command)
        ensures
            r.cmd@ == command_line(self.command, self.current_name@),
    {
        self.command.get(self.current_name.as_str())
    }

    /// Stages a command and asks for confirmation. `command_name` names the
    /// module when it is not empty; nothing happens when it holds a space or
    /// while an informational page is shown.
    pub fn set_current_command(&mut self, module_command: ModuleCommand, command_name: String)
        ensures
            KernelModules::staged(old(self), final(self), module_command, command_name@),
            old(self).wf() ==> final(self).wf(),
    {
        let name_cs = crate::text::chars_of(command_name.as_str());
        let mut has_space = false;
        let mut i: usize = 0;
        while i < name_cs.len()
            invariant
                i <= name_cs.len(),
                name_cs@ == command_name@,
                has_space == exists|j: int| 0 <= j < i && name_cs@[j] == ' ',
            decreases name_cs.len() - i,
        {
            if name_cs[i] == ' ' {
                has_space = true;
            }
            i = i + 1;
        }
        proof {
            if command_name@.contains(' ') {
                let j = choose|j: int| 0 <= j < command_name@.len() && command_name@[j] == ' ';
                assert(name_cs@[j] == ' ');
            }
        }
        let cur = crate::text::chars_of(self.current_name.as_str());
        let on_page = cur.len() > 0 && cur[0] == PAGE_MARK;
        if !has_space && !on_page {
            if name_cs.len() > 0 {
                self.current_name = command_name;
            }
            self.command = module_command;
            self.current_info = self.get_current_command().cmd;
            self.info_kind = InfoKind::Confirm;
            self.info_lines = 3;
            self.info_scroll_offset = 0;
        }
    }

    /// Ends the staged command with the outcome of running its command
    /// line: `true` when it ran; on failure the error is shown. Either way
    /// nothing stays staged. Without a staged command nothing happens.
    pub fn execute_command(&mut self, outcome: Result<(), String>) -> (r: bool)
        ensures
            KernelModules::executed(
                old(self),
                final(self),
                match outcome {
                    Ok(_) => Ok(()),
                    Err(e) => Err(e@),
                },
                r,
            ),
            old(self).wf() ==> final(self).wf(),
    {
        if self.command.is_none() {
            return false;
        }
        let r = match outcome {
            Ok(_) => true,
            Err(e) => {
                let cmd = self.get_current_command().cmd;
                proof {
                    reveal_strlit("Execution Error\n'");
                    reveal_strlit("'\n");
                }
                let text = String::from_str("Execution Error\n'").concat(cmd.as_str()).concat(
                    "'\n",
                ).concat(e.as_str());
                self.current_info = text;
                self.info_kind = InfoKind::ExecError;
                self.info_lines = 3;
                self.current_name = String::from_str("!Error").concat(
                    self.unicode.get(Symbol::NoEntry),
                );
                false
            },
        };
        self.command = ModuleCommand::Idle;
        r
    }

    /// Drops the staged command without running it and selects the current
    /// module again; `false` when nothing was staged.
    pub fn cancel_execution(&mut self) -> (r: bool)
        requires
            old(self).wf(),
        ensures
            KernelModules::cancelled(old(self), final(self), r),
            final(self).wf(),
    {
        if !self.command.is_none() {
            self.command = ModuleCommand::Idle;
            let i = self.index;
            self.select_index(i);
            true
        } else {
            false
        }
    }

    /// Selects the module at `v` of the shown list: the name is taken, the
    /// information is to be read again, the panel scrolls to its top and a
    /// staged command is dropped.
    fn select_index(&mut self, v: usize)
        requires
            v < old(self).list.len() || (old(self).list.len() == 0 && v == 0),
        ensures
            final(self).wf(),
            final(self).index == v,
            final(self).info_scroll_offset == 0,
            final(self).list == old(self).list,
            final(self).default_list == old(self).default_list,
            final(self).unicode == old(self).unicode,
            final(self).args == old(self).args,
            old(self).list.len() > 0 ==> final(self).command == ModuleCommand::Idle
                && final(self).needs_info && final(self).current_name@ == selected_name(
                old(self).list@[v as int].name@,
            ),
            old(self).list.len() == 0 ==> final(self).command == old(self).command
                && final(self).current_name == old(self).current_name && final(self).needs_info
                == old(self).needs_info,
    {
        self.info_scroll_offset = 0;
        self.index = v;
        if self.list.len() > 0 {
            self.current_name = first_word(self.list[v].name.as_str());
            self.needs_info = true;
            self.command = ModuleCommand::Idle;
        }
    }

    /// Selects the module that uses the selected one at position
    /// `mod_index` of its dependents, where the shown list has it; else
    /// nothing happens.
    pub fn show_used_module(&mut self, mod_index: usize)
        requires
            old(self).wf(),
        ensures
            final(self).wf(),
            final(self).list == old(self).list,
            ({
                let n = old(self).list.len();
                let deps = if n > 0 {
                    dependents_of(old(self).list@[old(self).index as int]@)
                } else {
                    Seq::empty()
                };
                if n > 0 && mod_index < deps.len() && exists|k: int|
                    0 <= k < n && #[trigger] old(self).list@[k].name@ == deps[mod_index as int] {
                    let k = final(self).index as int;
                    &&& old(self).list@[k].name@ == deps[mod_index as int]
                    &&& forall|j: int| 0 <= j < k ==> #[trigger] old(self).list@[j].name@ != deps[mod_index as int]
                    &&& final(self).needs_info
                    &&& final(self).command == ModuleCommand::Idle
                    &&& final(self).info_scroll_offset == 0
                    &&& final(self).current_name@ == selected_name(old(self).list@[k].name@)
                } else {
                    *final(self) == *old(self)
                }
            }),
    {
        if self.list.len() == 0 {
            return;
        }
        let deps = self.list[self.index].dependent_list();
        if mod_index >= deps.len() {
            return;
        }
        assert(views(deps@)[mod_index as int] == deps@[mod_index as int]@);
        let target = &deps[mod_index];
        let ghost t = target@;
        let mut k: usize = 0;
        while k < self.list.len()
            invariant
                k <= self.list.len(),
                *self == *old(self),
                self.wf(),
                self.list.len() > 0,
                t == target@,
                mod_index < deps@.len(),
                views(deps@) == dependents_of(old(self).list@[old(self).index as int]@),
                t == views(deps@)[mod_index as int],
                forall|j: int| 0 <= j < k ==> #[trigger] self.list@[j].name@ != t,
            decreases self.list.len() - k,
        {
            if same_text(self.list[k].name.as_str(), target.as_str()) {
                self.select_index(k);
                return;
            }
            k = k + 1;
        }
    }

    /// Scrolls the shown list and selects the module there: up and down
    /// wrap around, top and bottom go to the ends. The information panel
    /// scrolls to its top, the information is to be read again and a staged
    /// command is dropped. In an empty list the selection is zero.
    pub fn scroll_list(&mut self, direction: ScrollDirection)
        requires
            old(self).wf(),
        ensures
            final(self).wf(),
            final(self).index == scrolled_index(
                old(self).index as int,
                old(self).list.len() as int,
                direction,
            ),
            final(self).info_scroll_offset == 0,
            final(self).list == old(self).list,
            final(self).default_list == old(self).default_list,
            final(self).args == old(self).args,
            final(self).unicode == old(self).unicode,
            old(self).list.len() > 0 ==> final(self).command == ModuleCommand::Idle
                && final(self).needs_info && final(self).current_name@ == selected_name(
                old(self).list@[final(self).index as int].name@,
            ),
            old(self).list.len() == 0 ==> final(self).command == old(self).command
                && final(self).current_name == old(self).current_name,
    {
        if self.list.len() == 0 {
            self.info_scroll_offset = 0;
            self.index = 0;
        } else {
            match direction {
                ScrollDirection::Up => self.previous_module(),
                ScrollDirection::Down => self.next_module(),
                ScrollDirection::Top => self.index = 0,
                ScrollDirection::Bottom => self.index = self.list.len() - 1,
                _ => {},
            }
            let i = self.index;
            self.select_index(i);
        }
    }

    /// Selects the next module, wrapping from the last to the first; the
    /// selection stays zero in an empty list.
    pub fn next_module(&mut self)
        ensures
            final(self).index == next_index(old(self).index as int, old(self).list.len() as int),
            final(self).list == old(self).list,
            final(self).default_list == old(self).default_list,
            final(self).current_name == old(self).current_name,
            final(self).command == old(self).command,
            final(self).info_scroll_offset == old(self).info_scroll_offset,
            final(self).needs_info == old(self).needs_info,
            final(self).args == old(self).args,
            final(self).unicode == old(self).unicode,
    {
        let n = self.list.len();
        if n == 0 || self.index >= n - 1 {
            self.index = 0;
        } else {
            self.index = self.index + 1;
        }
    }

    /// Selects the previous module, wrapping from the first to the last; the
    /// selection stays zero in an empty list.
    pub fn previous_module(&mut self)
        ensures
            final(self).index == previous_index(
                old(self).index as int,
                old(self).list.len() as int,
            ),
            final(self).list == old(self).list,
            final(self).default_list == old(self).default_list,
            final(self).current_name == old(self).current_name,
            final(self).command == old(self).command,
            final(self).info_scroll_offset == old(self).info_scroll_offset,
            final(self).needs_info == old(self).needs_info,
            final(self).args == old(self).args,
            final(self).unicode == old(self).unicode,
    {
        let n = self.list.len();
        if n == 0 {
            self.index = 0;
        } else if self.index > 0 {
            self.index = self.index - 1;
        } else {
            self.index = n - 1;
        }
    }

    /// Scrolls the information panel: up by one line when `smooth_scroll`,
    /// else two, stopping at the top; down by as much, wrapping at twice the
    /// number of lines shown.
    pub fn scroll_mod_info(&mut self, direction: ScrollDirection, smooth_scroll: bool)
        ensures
            ({
                let amount: int = if smooth_scroll { 1 } else { 2 };
                let o = old(self).info_scroll_offset as int;
                let n = old(self).info_lines as int;
                final(self).info_scroll_offset as int == match direction {
                    ScrollDirection::Up => if o >= amount { o - amount } else { o },
                    ScrollDirection::Down => if n > 0 && o + amount <= usize::MAX && 2 * n
                        <= usize::MAX {
                        (o + amount) % (2 * n)
                    } else {
                        o
                    },
                    _ => o,
                }
            }),
            final(self).index == old(self).index,
            final(self).list == old(self).list,
            final(self).default_list == old(self).default_list,
            final(self).current_name == old(self).current_name,
            final(self).command == old(self).command,
            final(self).needs_info == old(self).needs_info,
    {
        let amount: usize = if smooth_scroll { 1 } else { 2 };
        match direction {
            ScrollDirection::Up => {
                if self.info_scroll_offset >= amount {
                    self.info_scroll_offset = self.info_scroll_offset - amount;
                }
            },
            ScrollDirection::Down => {
                let n = self.info_lines;
                if n > 0 && self.info_scroll_offset <= usize::MAX - amount && n <= usize::MAX / 2 {
                    self.info_scroll_offset = (self.info_scroll_offset + amount) % (2 * n);
                }
            },
            _ => {},
        }
    }

    /// Shows what was read about the selected module, with the signature
    /// starting on a line of its own, or a notice where nothing could be
    /// read.
    pub fn show_module_info(&mut self, info: Result<String, String>)
        ensures
            final(self).current_info@ == (match info {
                Ok(t) => replaced(t@, "signature: "@, "signature: \n"@),
                Err(_) => INFO_UNAVAILABLE@,
            }),
            final(self).info_kind == InfoKind::ModuleInfo,
            final(self).info_lines == lines_of(final(self).current_info@).len(),
            !final(self).needs_info,
            final(self).index == old(self).index,
            final(self).list == old(self).list,
            final(self).default_list == old(self).default_list,
            final(self).current_name == old(self).current_name,
            final(self).command == old(self).command,
            final(self).info_scroll_offset == old(self).info_scroll_offset,
    {
        let text = match info {
            Ok(t) => {
                proof {
                    reveal_strlit("signature: ");
                }
                replace_text(t.as_str(), "signature: ", "signature: \n")
            },
            Err(_) => String::from_str(INFO_UNAVAILABLE),
        };
        self.info_lines = lines(text.as_str()).len();
        self.current_info = text;
        self.info_kind = InfoKind::ModuleInfo;
        self.needs_info = false;
    }

    /// Shows the records that the search query keeps; the selection goes to
    /// the top where it would fall outside them.
    pub fn apply_filter(&mut self, query: &str)
        ensures
            record_views(final(self).list@) == visible(
                record_views(old(self).default_list@),
                query@,
            ),
            final(self).wf(),
            final(self).index == (if old(self).index < final(self).list.len() {
                old(self).index
            } else {
                0
            }),
            final(self).default_list == old(self).default_list,
            final(self).current_name == old(self).current_name,
            final(self).command == old(self).command,
    {
        self.list = filter_modules(&self.default_list, query);
        if self.index >= self.list.len() {
            self.index = 0;
        }
    }
}

/// A module line with seven or more columns is shown by its first column, a
/// space and its seventh column.
pub proof fn name_joins_file_column(line: Seq<char>)
    requires
        words_of(line).len() >= 7,
    ensures
        record_of(words_of(line)).name == words_of(line)[0] + " "@ + words_of(line)[6],
{
}

/// In a listing that reads in, each line with seven or more columns gives a
/// record shown by its first column, a space and its seventh column.
pub proof fn listed_name_joins_file_column(content: Seq<char>, i: int)
    requires
        listing_records(content) is Some,
        0 <= i < lines_of(content).len(),
        words_of(lines_of(content)[i]).len() >= 7,
    ensures
        listing_records(content)->Some_0[i].name == words_of(lines_of(content)[i])[0] + " "@
            + words_of(lines_of(content)[i])[6],
{
}

/// Selection wraps around a list of `n`: before the first comes the last,
/// after the last the first; in an empty list it stays at zero.
pub proof fn selection_wraps(n: int)
    requires
        n >= 0,
    ensures
        n > 0 ==> previous_index(0, n) == n - 1,
        n > 0 ==> next_index(n - 1, n) == 0,
        n == 0 ==> previous_index(0, n) == 0 && next_index(0, n) == 0,
{
}

/// Staging a command and confirming it with a successful run leaves nothing
/// staged and asks for a refresh; staging and cancelling leaves nothing
/// staged, runs nothing and keeps the selected position.
pub proof fn confirm_and_cancel_clear_the_stage(
    s0: KernelModules,
    s1: KernelModules,
    s2: KernelModules,
    s3: KernelModules,
    kind: ModuleCommand,
    name: Seq<char>,
    r2: bool,
    r3: bool,
)
    requires
        s0.wf(),
        kind != ModuleCommand::Idle,
        !name.contains(' '),
        !(s0.current_name@.len() > 0 && s0.current_name@[0] == PAGE_MARK),
        KernelModules::staged(&s0, &s1, kind, name),
        KernelModules::executed(&s1, &s2, Ok(()), r2),
        KernelModules::cancelled(&s1, &s3, r3),
    ensures
        s2.command == ModuleCommand::Idle,
        r2,
        s3.command == ModuleCommand::Idle,
        r3,
        s3.index == s0.index,
{
}

} // verus!
