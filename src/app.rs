//! The application state machine: the selected panel, the input mode and its
//! text, the panel sizes, and the handling of each key.

use vstd::prelude::*;
use crate::cmd::{ModuleCommand, command_line, same_text};
use crate::event::Key;
use crate::kernel::Kernel;
use crate::modules::{InfoKind, KernelModules, dependents_of, visible, record_views};
use crate::style::{Symbol, Unicode, glyph};
use crate::text::{contains_text, lines_of, push_char, views};
use crate::widgets::StatefulList;

verus! {

/// Directions of scrolling.
#[derive(Clone, Copy, Debug, PartialEq, Eq, Structural)]
pub enum ScrollDirection {
    Up,
    Down,
    Left,
    Right,
    Top,
    Bottom,
}

impl ScrollDirection {
    /// Every direction, in declaration order.
    pub fn iter() -> (r: Vec<ScrollDirection>)
        ensures
            r@ == seq![
                ScrollDirection::Up,
                ScrollDirection::Down,
                ScrollDirection::Left,
                ScrollDirection::Right,
                ScrollDirection::Top,
                ScrollDirection::Bottom,
            ],
    {
        let r = vec![
            ScrollDirection::Up,
            ScrollDirection::Down,
            ScrollDirection::Left,
            ScrollDirection::Right,
            ScrollDirection::Top,
            ScrollDirection::Bottom,
        ];
        assert(r@ =~= seq![
            ScrollDirection::Up,
            ScrollDirection::Down,
            ScrollDirection::Left,
            ScrollDirection::Right,
            ScrollDirection::Top,
            ScrollDirection::Bottom,
        ]);
        r
    }
}


/// The panels of the interface.
#[derive(Clone, Copy, Debug, PartialEq, Eq, Structural)]
pub enum Block {
    UserInput,
    ModuleTable,
    ModuleInfo,
    Activities,
}

/// The panel after `b`, wrapping from the last to the first.
pub open spec fn block_after(b: Block) -> Block {
    match b {
        Block::UserInput => Block::ModuleTable,
        Block::ModuleTable => Block::ModuleInfo,
        Block::ModuleInfo => Block::Activities,
        Block::Activities => Block::UserInput,
    }
}

/// The panel before `b`, wrapping from the first to the last.
pub open spec fn block_before(b: Block) -> Block {
    match b {
        Block::UserInput => Block::Activities,
        Block::ModuleTable => Block::UserInput,
        Block::ModuleInfo => Block::ModuleTable,
        Block::Activities => Block::ModuleInfo,
    }
}

impl Block {
    /// The next panel, wrapping from the last to the first.
    pub fn next(self) -> (r: Block)
        ensures
            r == block_after(self),
    {
        match self {
            Block::UserInput => Block::ModuleTable,
            Block::ModuleTable => Block::ModuleInfo,
            Block::ModuleInfo => Block::Activities,
            Block::Activities => Block::UserInput,
        }
    }

    /// The previous panel, wrapping from the first to the last.
    pub fn previous(self) -> (r: Block)
        ensures
            r == block_before(self),
    {
        match self {
            Block::UserInput => Block::Activities,
            Block::ModuleTable => Block::UserInput,
            Block::ModuleInfo => Block::ModuleTable,
            Block::Activities => Block::ModuleInfo,
        }
    }
}

/// The sizes of the resizable panels, in percent.
#[derive(Clone, Copy, Debug, PartialEq, Eq, Structural)]
pub struct BlockSize {
    pub input: u16,
    pub info: u16,
    pub activities: u16,
}

impl BlockSize {
    /// Each size is a percentage.
    pub open spec fn wf(&self) -> bool {
        self.input <= 100 && self.info <= 100 && self.activities <= 100
    }
}

impl Default for BlockSize {
    fn default() -> (r: BlockSize)
        ensures
            r.input == 60 && r.info == 40 && r.activities == 25,
    {
        BlockSize { input: 60, info: 40, activities: 25 }
    }
}

/// The mode of the text input.
#[derive(Clone, Copy, Debug, PartialEq, Eq, Structural)]
pub enum InputMode {
    Idle,
    Search,
    Load,
}

impl InputMode {
    /// Whether no input is being taken.
    pub fn is_none(self) -> (r: bool)
        ensures
            r == (self == InputMode::Idle),
    {
        self == InputMode::Idle
    }

    /// The name the mode is shown by; with no input taken, the search's.
    pub fn label(self) -> (r: String)
        ensures
            r@ == (match self {
                InputMode::Load => "Load"@,
                _ => "Search"@,
            }),
    {
        match self {
            InputMode::Load => String::from_str("Load"),
            _ => String::from_str("Search"),
        }
    }
}

/// The other of the two input modes; the search when no input is taken.
pub open spec fn other_input_mode(m: InputMode) -> InputMode {
    match m {
        InputMode::Search => InputMode::Load,
        _ => InputMode::Search,
    }
}

/// How a panel's border is drawn.
#[derive(Clone, Copy, Debug, PartialEq, Eq, Structural)]
pub enum BlockTone {
    /// In the accent style: the selected panel.
    Accent,
    /// In the muted style.
    Muted,
}

/// Work that the state machine leaves to its caller.
#[derive(Debug)]
pub enum Effect {
    /// Leave the interface.
    Quit,
    /// Read the module listing, the kernel information and the log anew.
    Refresh,
    /// Run the command line; its outcome goes to `App::command_finished`.
    Execute(String),
    /// Put the text on the clipboard.
    Copy(String),
    /// Read the clipboard; its contents go to `App::paste_clipboard`.
    Paste,
    /// Read the kernel information entries anew.
    ReadKernelInfo,
    /// Queue a key as if it had been typed.
    Send(Key),
}

/// The options of the module menu: a name and what it does.
pub open spec fn option_names() -> Seq<Seq<char>> {
    seq!["unload"@, "reload"@, "blacklist"@, "dependent"@, "copy"@, "load"@, "clear"@]
}

/// The command an option of the module menu stands for, if any.
pub open spec fn option_command(name: Seq<char>) -> Option<ModuleCommand> {
    if name == "unload"@ {
        Some(ModuleCommand::Unload)
    } else if name == "reload"@ {
        Some(ModuleCommand::Reload)
    } else if name == "blacklist"@ {
        Some(ModuleCommand::Blacklist)
    } else if name == "load"@ {
        Some(ModuleCommand::Load)
    } else if name == "clear"@ {
        Some(ModuleCommand::Clear)
    } else {
        None
    }
}

/// The command an option of the module menu stands for, if any.
pub fn command_of_option(name: &str) -> (r: Option<ModuleCommand>)
    ensures
        r == option_command(name@),
{
    if same_text(name, "unload") {
        Some(ModuleCommand::Unload)
    } else if same_text(name, "reload") {
        Some(ModuleCommand::Reload)
    } else if same_text(name, "blacklist") {
        Some(ModuleCommand::Blacklist)
    } else if same_text(name, "load") {
        Some(ModuleCommand::Load)
    } else if same_text(name, "clear") {
        Some(ModuleCommand::Clear)
    } else {
        None
    }
}

/// Lines written one after the other with `\n` between them.
pub open spec fn newline_joined(ls: Seq<Seq<char>>) -> Seq<char>
    decreases ls.len(),
{
    if ls.len() == 0 {
        Seq::empty()
    } else if ls.len() == 1 {
        ls[0]
    } else {
        newline_joined(ls.drop_last()) + "\n"@ + ls.last()
    }
}

/// The key bindings, each a key and what it does.
pub open spec fn binding_table() -> Seq<(Seq<char>, Seq<char>)> {
    seq![
        ("'?', f1"@, "help"@),
        ("right/left, h/l"@, "switch between blocks"@),
        ("up/down, k/j, alt-k/j"@, "scroll up/down [selected block]"@),
        ("pgup/pgdown"@, "scroll up/down [kernel activities]"@),
        ("</>"@, "scroll up/down [module information]"@),
        ("alt-h/l"@, "scroll right/left [kernel activities]"@),
        ("ctrl-t/b, home/end"@, "scroll to top/bottom [module list]"@),
        ("alt-e/s"@, "expand/shrink the selected block"@),
        ("ctrl-x"@, "change the block position"@),
        ("ctrl-l/u, alt-c"@, "clear the kernel ring buffer"@),
        ("d, alt-d"@, "show the dependent modules"@),
        ("1..9"@, "jump to the dependent module"@),
        ("\\, tab, backtab"@, "show the next kernel information"@),
        ("/, s, enter"@, "search a kernel module"@),
        ("+, i, insert"@, "load a kernel module"@),
        ("-, u, backspace"@, "unload the kernel module"@),
        ("x, b, delete"@, "blacklist the kernel module"@),
        ("ctrl-r, alt-r"@, "reload the kernel module"@),
        ("m, o"@, "show the options menu"@),
        ("y/n"@, "execute/cancel the command"@),
        ("c/v"@, "copy/paste"@),
        ("r, f5"@, "refresh"@),
        ("q, ctrl-c/d, esc"@, "quit"@),
    ]
}

/// The help page: each binding as its key and a colon, then a line with a
/// space and what it does.
pub open spec fn help_text(bs: Seq<(Seq<char>, Seq<char>)>) -> Seq<char>
    decreases bs.len(),
{
    if bs.len() == 0 {
        Seq::empty()
    } else {
        let entry = bs.last().0 + ":\n "@ + bs.last().1;
        if bs.len() == 1 {
            entry
        } else {
            help_text(bs.drop_last()) + "\n"@ + entry
        }
    }
}

/// The key bindings, each a key and what it does.
pub fn key_bindings() -> (r: Vec<(&'static str, &'static str)>)
    ensures
        r@.len() == binding_table().len(),
        forall|i: int|
            0 <= i < r@.len() ==> (#[trigger] r@[i]).0@ == binding_table()[i].0 && r@[i].1@
                == binding_table()[i].1,
{
    vec![
        ("'?', f1", "help"),
        ("right/left, h/l", "switch between blocks"),
        ("up/down, k/j, alt-k/j", "scroll up/down [selected block]"),
        ("pgup/pgdown", "scroll up/down [kernel activities]"),
        ("</>", "scroll up/down [module information]"),
        ("alt-h/l", "scroll right/left [kernel activities]"),
        ("ctrl-t/b, home/end", "scroll to top/bottom [module list]"),
        ("alt-e/s", "expand/shrink the selected block"),
        ("ctrl-x", "change the block position"),
        ("ctrl-l/u, alt-c", "clear the kernel ring buffer"),
        ("d, alt-d", "show the dependent modules"),
        ("1..9", "jump to the dependent module"),
        ("\\, tab, backtab", "show the next kernel information"),
        ("/, s, enter", "search a kernel module"),
        ("+, i, insert", "load a kernel module"),
        ("-, u, backspace", "unload the kernel module"),
        ("x, b, delete", "blacklist the kernel module"),
        ("ctrl-r, alt-r", "reload the kernel module"),
        ("m, o", "show the options menu"),
        ("y/n", "execute/cancel the command"),
        ("c/v", "copy/paste"),
        ("r, f5", "refresh"),
        ("q, ctrl-c/d, esc", "quit"),
    ]
}

/// Whether a key leaves the interface from the default mode.
pub open spec fn is_quit_key(k: Key) -> bool {
    k == Key::Char('q') || k == Key::Char('Q') || k == Key::Ctrl('c') || k == Key::Ctrl('d')
        || k == Key::Esc
}

/// Whether a key moves to the next panel.
pub open spec fn is_next_block_key(k: Key) -> bool {
    k == Key::Right || k == Key::Char('l') || k == Key::Char('L')
}

/// Whether a key moves to the previous panel.
pub open spec fn is_previous_block_key(k: Key) -> bool {
    k == Key::Left || k == Key::Char('h') || k == Key::Char('H')
}

/// Whether a key opens the search from the default mode.
pub open spec fn is_search_key(k: Key) -> bool {
    k == Key::Char('s') || k == Key::Char('S') || k == Key::Char('/')
}

/// Whether a key opens the module loading input from the default mode.
pub open spec fn is_load_key(k: Key) -> bool {
    k == Key::Char('+') || k == Key::Char('i') || k == Key::Char('I') || k == Key::Insert
}

/// Whether a key ends the text input.
pub open spec fn is_input_exit_key(k: Key) -> bool {
    k == Key::Char('\n') || k == Key::Char('\t') || k == Key::Char('?') || k == Key::F(1)
        || k == Key::Right || k == Key::Left
}

/// Whether a key stages the given command from the default mode.
pub open spec fn stages(k: Key, c: ModuleCommand) -> bool {
    match c {
        ModuleCommand::Clear => k == Key::Ctrl('l') || k == Key::Ctrl('u') || k == Key::Alt('c')
            || k == Key::Alt('C'),
        ModuleCommand::Unload => k == Key::Char('u') || k == Key::Char('U') || k == Key::Char('-')
            || k == Key::Backspace || k == Key::Ctrl('h'),
        ModuleCommand::Blacklist => k == Key::Char('x') || k == Key::Char('X') || k == Key::Char(
            'b',
        ) || k == Key::Char('B') || k == Key::Delete,
        ModuleCommand::Reload => k == Key::Ctrl('r') || k == Key::Ctrl('R') || k == Key::Alt('r')
            || k == Key::Alt('R'),
        _ => false,
    }
}

/// Whether a key scrolls, resizes or moves between panels in the default
/// mode.
pub open spec fn is_navigation_key(k: Key) -> bool {
    ||| k == Key::Up || k == Key::Char('k') || k == Key::Char('K') || k == Key::Alt('k') || k
        == Key::Alt('K')
    ||| k == Key::Down || k == Key::Char('j') || k == Key::Char('J') || k == Key::Alt('j') || k
        == Key::Alt('J')
    ||| is_next_block_key(k) || is_previous_block_key(k)
    ||| k == Key::Alt('e') || k == Key::Alt('s') || k == Key::Ctrl('x')
    ||| k == Key::Ctrl('t') || k == Key::Home || k == Key::Ctrl('b') || k == Key::End
    ||| k == Key::PageUp || k == Key::PageDown
    ||| k == Key::Alt('h') || k == Key::Alt('H') || k == Key::Alt('l') || k == Key::Alt('L')
    ||| k == Key::Char('<') || k == Key::Alt(' ') || k == Key::Char('>') || k == Key::Char(' ')
}

/// The size of the selected panel: the information panel's, the
/// activities', or else the input's.
pub open spec fn size_of(sizes: BlockSize, b: Block) -> u16 {
    match b {
        Block::ModuleInfo => sizes.info,
        Block::Activities => sizes.activities,
        _ => sizes.input,
    }
}

/// A text without its last character, if any.
fn without_last_char(s: &String) -> (r: String)
    ensures
        r@ == (if s@.len() > 0 {
            s@.drop_last()
        } else {
            s@
        }),
{
    let n = s.as_str().unicode_len();
    if n > 0 {
        s.as_str().substring_char(0, n - 1).to_owned()
    } else {
        s.clone()
    }
}

/// The state of the interface.
pub struct App {
    pub selected_block: Block,
    pub default_block: Block,
    pub block_size: BlockSize,
    /// Which of the three switching panels the shared region shows next.
    pub block_index: u8,
    pub input_mode: InputMode,
    pub input_query: String,
    pub options: StatefulList<(String, String)>,
    pub show_options: bool,
    pub unicode: Unicode,
}

impl App {
    /// The panel sizes are percentages and the switching pointer is one of
    /// three.
    pub open spec fn wf(&self) -> bool {
        self.block_size.wf() && self.block_index < 3
    }

    /// The interface with `block` selected and nothing typed.
    pub fn new(block: Block, unicode: Unicode) -> (r: App)
        ensures
            r.wf(),
            r.selected_block == block,
            r.default_block == block,
            r.block_size == (BlockSize { input: 60, info: 40, activities: 25 }),
            r.block_index == 0,
            r.input_mode == InputMode::Idle,
            r.input_query@.len() == 0,
            r.options.items@.len() == 7,
            forall|i: int| 0 <= i < 7 ==> (#[trigger] r.options.items@[i]).0@ == option_names()[i],
            r.options.state.selection == Some(0usize),
            !r.show_options,
            r.unicode == unicode,
    {
        let items = vec![
            (String::from_str("unload"), String::from_str("Unload the module")),
            (String::from_str("reload"), String::from_str("Reload the module")),
            (String::from_str("blacklist"), String::from_str("Blacklist the module")),
            (String::from_str("dependent"), String::from_str("Show the dependent modules")),
            (String::from_str("copy"), String::from_str("Copy the module name")),
            (String::from_str("load"), String::from_str("Load a kernel module")),
            (String::from_str("clear"), String::from_str("Clear the ring buffer")),
        ];
        App {
            selected_block: block,
            default_block: block,
            block_size: BlockSize::default(),
            block_index: 0,
            input_mode: InputMode::Idle,
            input_query: String::new(),
            options: StatefulList::with_items(items),
            show_options: false,
            unicode,
        }
    }

    /// Resets the interface: the default panel, sizes and pointer, no
    /// input, and the menu closed on its first option.
    pub fn refresh(&mut self)
        ensures
            final(self).wf(),
            final(self).selected_block == old(self).default_block,
            final(self).default_block == old(self).default_block,
            final(self).block_size == (BlockSize { input: 60, info: 40, activities: 25 }),
            final(self).block_index == 0,
            final(self).input_mode == InputMode::Idle,
            final(self).input_query@.len() == 0,
            final(self).options.items == old(self).options.items,
            final(self).options.state.selection == Some(0usize),
            !final(self).show_options,
            final(self).unicode == old(self).unicode,
    {
        self.selected_block = self.default_block;
        self.block_size = BlockSize::default();
        self.block_index = 0;
        self.input_mode = InputMode::Idle;
        self.input_query = String::new();
        self.options.state.select(Some(0));
        self.show_options = false;
    }

    /// How a panel's border is drawn: in the accent style when it is the
    /// selected panel and the menu is closed.
    pub fn block_style(&self, block: Block) -> (r: BlockTone)
        ensures
            r == (if !self.show_options && block == self.selected_block {
                BlockTone::Accent
            } else {
                BlockTone::Muted
            }),
    {
        if self.show_options {
            BlockTone::Muted
        } else if block == self.selected_block {
            BlockTone::Accent
        } else {
            BlockTone::Muted
        }
    }

    /// The size of the selected panel.
    pub fn block_size(&self) -> (r: u16)
        ensures
            r == size_of(self.block_size, self.selected_block),
    {
        match self.selected_block {
            Block::ModuleInfo => self.block_size.info,
            Block::Activities => self.block_size.activities,
            _ => self.block_size.input,
        }
    }

    /// Sets the size of the selected panel.
    fn set_block_size(&mut self, v: u16)
        ensures
            size_of(final(self).block_size, old(self).selected_block) == v,
            final(self).selected_block == old(self).selected_block,
            final(self).block_index == old(self).block_index,
            final(self).input_mode == old(self).input_mode,
            final(self).input_query == old(self).input_query,
            final(self).show_options == old(self).show_options,
            final(self).default_block == old(self).default_block,
            (old(self).selected_block == Block::ModuleInfo ==> final(self).block_size
                == BlockSize { info: v, ..old(self).block_size }),
            (old(self).selected_block == Block::Activities ==> final(self).block_size
                == BlockSize { activities: v, ..old(self).block_size }),
            (old(self).selected_block != Block::ModuleInfo && old(self).selected_block
                != Block::Activities ==> final(self).block_size == BlockSize {
                input: v,
                ..old(self).block_size
            }),
    {
        match self.selected_block {
            Block::ModuleInfo => self.block_size.info = v,
            Block::Activities => self.block_size.activities = v,
            _ => self.block_size.input = v,
        }
    }

    /// The search query that filters the module list: the typed text, but
    /// not while a module name to load is typed.
    pub open spec fn filter_query(&self) -> Seq<char> {
        if self.input_mode == InputMode::Load {
            Seq::empty()
        } else {
            self.input_query@
        }
    }

    /// Shows in the module list the records that the search keeps.
    pub fn filter_modules(&self, modules: &mut KernelModules)
        ensures
            record_views(final(modules).list@) == visible(
                record_views(old(modules).default_list@),
                self.filter_query(),
            ),
            final(modules).wf(),
            final(modules).default_list == old(modules).default_list,
            final(modules).command == old(modules).command,
            final(modules).current_name == old(modules).current_name,
    {
        if self.input_mode == InputMode::Load {
            proof {
                reveal_strlit("");
            }
            modules.apply_filter("");
        } else {
            modules.apply_filter(self.input_query.as_str());
        }
    }

    /// Which of the three switching panels to draw now; the pointer moves
    /// on to the next.
    pub fn next_dynamic_block(&mut self) -> (r: u8)
        requires
            old(self).wf(),
        ensures
            final(self).wf(),
            r == old(self).block_index,
            final(self).block_index == (old(self).block_index + 1) % 3,
    {
        let r = self.block_index;
        if self.block_index < 2 {
            self.block_index = self.block_index + 1;
        } else {
            self.block_index = 0;
        }
        r
    }

    /// Whether the input panel is selected while no input is taken, in
    /// which case an Enter is to be queued to start taking it.
    pub fn wants_input(&self) -> (r: bool)
        ensures
            r == (self.selected_block == Block::UserInput && self.input_mode == InputMode::Idle),
    {
        self.selected_block == Block::UserInput && self.input_mode.is_none()
    }

    /// Shows the key bindings in the information panel.
    pub fn show_help_message(&self, modules: &mut KernelModules)
        ensures
            final(modules).current_name@ == "!Help"@ + glyph(Symbol::Helmet, self.unicode.replace),
            final(modules).info_kind == InfoKind::Help,
            final(modules).current_info@ == help_text(binding_table()),
            final(modules).info_lines == 46,
            final(modules).info_scroll_offset == 0,
            final(modules).command == ModuleCommand::Idle,
            final(modules).index == old(modules).index,
            final(modules).list == old(modules).list,
            final(modules).default_list == old(modules).default_list,
            final(modules).needs_info == old(modules).needs_info,
    {
        let bindings = key_bindings();
        let mut text = String::new();
        let mut i: usize = 0;
        while i < bindings.len()
            invariant
                i <= bindings.len(),
                bindings@.len() == binding_table().len(),
                forall|j: int|
                    0 <= j < bindings@.len() ==> (#[trigger] bindings@[j]).0@ == binding_table()[j].0
                        && bindings@[j].1@ == binding_table()[j].1,
                text@ == help_text(binding_table().take(i as int)),
            decreases bindings.len() - i,
        {
            let (key, desc) = bindings[i];
            let ghost before = text@;
            if i > 0 {
                text.append("\n");
            }
            text.append(key);
            text.append(":\n ");
            text.append(desc);
            proof {
                let t = binding_table().take(i + 1);
                assert(t.drop_last() =~= binding_table().take(i as int));
                assert(t.last() == binding_table()[i as int]);
                if i > 0 {
                    assert(text@ =~= before + "\n"@ + (key@ + ":\n "@ + desc@));
                } else {
                    assert(before =~= Seq::<char>::empty());
                    assert(text@ =~= key@ + ":\n "@ + desc@);
                }
            }
            i = i + 1;
        }
        assert(binding_table().take(i as int) =~= binding_table());
        modules.info_scroll_offset = 0;
        modules.command = ModuleCommand::Idle;
        modules.current_name = String::from_str("!Help").concat(self.unicode.get(Symbol::Helmet));
        modules.current_info = text;
        modules.info_kind = InfoKind::Help;
        modules.info_lines = 46;
    }

    /// Shows the modules that use the selected one, unless it has none or
    /// they are shown already.
    pub fn show_dependent_modules(&self, modules: &mut KernelModules)
        requires
            old(modules).wf(),
        ensures
            final(modules).wf(),
            final(modules).index == old(modules).index,
            final(modules).list == old(modules).list,
            final(modules).default_list == old(modules).default_list,
            final(modules).needs_info == old(modules).needs_info,
            ({
                let shown = old(modules).list.len() > 0 && dependents_of(
                    old(modules).list@[old(modules).index as int]@,
                )[0] != "-"@ && !crate::text::has_infix(
                    old(modules).current_name@,
                    "Dependent modules"@,
                );
                &&& shown ==> final(modules).current_name@ == "!Dependent modules of "@ + old(
                    modules,
                ).current_name@ + glyph(Symbol::HistoricSite, self.unicode.replace)
                    && final(modules).info_kind == InfoKind::Dependents
                    && final(modules).current_info@ == newline_joined(
                    dependents_of(old(modules).list@[old(modules).index as int]@),
                )
                    && final(modules).command == ModuleCommand::Idle
                    && final(modules).info_scroll_offset == 0 && final(modules).info_lines
                    == dependents_of(old(modules).list@[old(modules).index as int]@).len()
                &&& !shown ==> *final(modules) == *old(modules)
            }),
    {
        if modules.list.len() == 0 {
            return;
        }
        let deps = modules.list[modules.index].dependent_list();
        assert(views(deps@)[0] == deps@[0]@);
        let none = same_text(deps[0].as_str(), "-");
        let already = contains_text(modules.current_name.as_str(), "Dependent modules");
        if none || already {
            return;
        }
        let mut text = String::new();
        let mut i: usize = 0;
        let ghost dv = views(deps@);
        while i < deps.len()
            invariant
                i <= deps.len(),
                dv == views(deps@),
                text@ == newline_joined(dv.take(i as int)),
            decreases deps.len() - i,
        {
            let ghost before = text@;
            if i > 0 {
                text.append("\n");
            }
            text.append(deps[i].as_str());
            proof {
                let t = dv.take(i + 1);
                assert(t.drop_last() =~= dv.take(i as int));
                assert(t.last() == deps@[i as int]@);
                if i == 0 {
                    assert(text@ =~= t[0]);
                }
            }
            i = i + 1;
        }
        assert(dv.take(i as int) =~= dv);
        modules.info_scroll_offset = 0;
        modules.command = ModuleCommand::Idle;
        modules.current_name = String::from_str("!Dependent modules of ").concat(
            modules.current_name.as_str(),
        ).concat(self.unicode.get(Symbol::HistoricSite));
        modules.current_info = text;
        modules.info_kind = InfoKind::Dependents;
        modules.info_lines = deps.len();
    }


    /// What a key does in the default mode, as far as the contract of
    /// `handle_key` states it; `r` is what is left to the caller.
    pub open spec fn default_key_done(
        a: &App,
        b: &App,
        ka: &Kernel,
        kb: &Kernel,
        key: Key,
        r: Seq<Effect>,
    ) -> bool {
        &&& is_quit_key(key) ==> (a.show_options ==> r.len() == 0 && !b.show_options) && (
        !a.show_options ==> r == seq![Effect::Quit])
        &&& (key == Key::Char('r') || key == Key::Char('R') || key == Key::F(5)) ==> r
            == seq![Effect::Refresh] && b.input_mode == InputMode::Idle && b.selected_block
            == a.default_block
        &&& is_next_block_key(key) ==> b.selected_block == block_after(a.selected_block)
        &&& is_previous_block_key(key) ==> b.selected_block == block_before(a.selected_block)
        &&& key == Key::Alt('e') ==> size_of(b.block_size, a.selected_block) == (if size_of(
            a.block_size,
            a.selected_block,
        ) < 95 {
            size_of(a.block_size, a.selected_block) + 5
        } else {
            100
        })
        &&& key == Key::Alt('s') ==> size_of(b.block_size, a.selected_block) == (if size_of(
            a.block_size,
            a.selected_block,
        ) >= 5 {
            size_of(a.block_size, a.selected_block) - 5
        } else {
            0
        })
        &&& (key == Key::Alt('e') || key == Key::Alt('s')) ==> (a.selected_block
            != Block::ModuleInfo ==> b.block_size.info == a.block_size.info) && (a.selected_block
            != Block::Activities ==> b.block_size.activities == a.block_size.activities) && ((
        a.selected_block == Block::ModuleInfo || a.selected_block == Block::Activities)
            ==> b.block_size.input == a.block_size.input)
        &&& key == Key::Ctrl('x') ==> b.block_index == (a.block_index + 1) % 3
        &&& (key == Key::Char('m') || key == Key::Char('o')) ==> b.show_options
        &&& is_search_key(key) ==> b.input_mode == InputMode::Search && b.selected_block
            == Block::UserInput && b.input_query@.len() == 0
        &&& is_load_key(key) ==> b.input_mode == InputMode::Load && b.selected_block
            == Block::UserInput && b.input_query@.len() == 0
        &&& (key == Key::Char('\n') && !a.show_options) ==> b.input_mode == InputMode::Search
            && b.selected_block == Block::UserInput && b.input_query == a.input_query
        &&& forall|c: ModuleCommand|
            #[trigger] stages(key, c) ==> KernelModules::staged(
                &ka.modules,
                &kb.modules,
                c,
                Seq::empty(),
            )
        &&& (key == Key::Char('y') || key == Key::Char('Y')) ==> (if ka.modules.command
            == ModuleCommand::Idle {
            r.len() == 0
        } else {
            r.len() == 1 && r[0] is Execute && r[0]->Execute_0@ == command_line(
                ka.modules.command,
                ka.modules.current_name@,
            )
        })
        &&& (key == Key::Char('y') || key == Key::Char('Y')) ==> *kb == *ka && b.input_mode
            == a.input_mode && b.input_query == a.input_query && b.selected_block
            == a.selected_block && b.block_size == a.block_size && b.block_index == a.block_index
        &&& (key == Key::Char('n') || key == Key::Char('N')) ==> KernelModules::cancelled(
            &ka.modules,
            &kb.modules,
            ka.modules.command != ModuleCommand::Idle,
        ) && r.len() == 0
        &&& ((key == Key::Up || key == Key::Char('k')) && !a.show_options && a.selected_block
            == Block::ModuleTable) ==> kb.modules.index == crate::modules::scrolled_index(
            ka.modules.index as int,
            ka.modules.list.len() as int,
            ScrollDirection::Up,
        )
        &&& ((key == Key::Down || key == Key::Char('j')) && !a.show_options && a.selected_block
            == Block::ModuleTable) ==> kb.modules.index == crate::modules::scrolled_index(
            ka.modules.index as int,
            ka.modules.list.len() as int,
            ScrollDirection::Down,
        )
        &&& ((key == Key::Up || key == Key::Down) && a.show_options) ==> b.show_options
            && r.len() == 0
        &&& (key == Key::Up && !a.show_options && a.selected_block == Block::Activities)
            ==> kb.logs.index == (if ka.logs.index + 3 <= lines_of(ka.logs.output@).len() {
            ka.logs.index + 3
        } else {
            ka.logs.index as int
        })
        &&& (key == Key::Down && !a.show_options && a.selected_block == Block::Activities)
            ==> kb.logs.index == (if ka.logs.index >= 3 {
            ka.logs.index - 3
        } else {
            0
        })
        &&& (key == Key::Up && !a.show_options && a.selected_block == Block::ModuleInfo)
            ==> kb.modules.info_scroll_offset == (if ka.modules.info_scroll_offset >= 2 {
            ka.modules.info_scroll_offset - 2
        } else {
            ka.modules.info_scroll_offset as int
        })
        &&& key == Key::Alt('h') ==> kb.logs.crop_offset == (if ka.logs.crop_offset >= 10 {
            ka.logs.crop_offset - 10
        } else {
            0
        })
        &&& key == Key::Alt('l') ==> kb.logs.crop_offset == (if ka.logs.crop_offset + 10
            <= usize::MAX {
            ka.logs.crop_offset + 10
        } else {
            0
        })
        &&& (key == Key::Home || key == Key::Ctrl('t')) ==> b.selected_block == Block::ModuleTable
            && kb.modules.index == 0
        &&& (key == Key::End || key == Key::Ctrl('b')) ==> b.selected_block == Block::ModuleTable
            && (ka.modules.list.len() > 0 ==> kb.modules.index == ka.modules.list.len() - 1)
        &&& (key == Key::PageUp || key == Key::PageDown || key == Key::Alt('h') || key == Key::Alt(
            'l',
        )) ==> b.selected_block == Block::Activities
        &&& key == Key::PageUp ==> kb.logs.index >= ka.logs.index
        &&& key == Key::PageDown ==> kb.logs.index <= ka.logs.index
        &&& (key == Key::Char('<') || key == Key::Char('>')) ==> b.selected_block
            == Block::ModuleInfo
        &&& (key == Key::Char('c') && a.selected_block == Block::ModuleTable) ==> r.len() == 1
            && r[0] is Copy && r[0]->Copy_0 == ka.modules.current_name
        &&& (key == Key::Char('c') && a.selected_block == Block::Activities) ==> r.len() == 1
            && r[0] is Copy && r[0]->Copy_0@ == crate::text::trimmed(ka.logs.selected_output@)
        &&& (key == Key::Char('v') || key == Key::Ctrl('v')) ==> r == seq![Effect::Paste]
        &&& (key is Char && '1' <= key->Char_0 <= '9' && ka.modules.list.len() > 0) ==> b.selected_block
            == Block::ModuleTable && kb.modules.list == ka.modules.list
        &&& is_navigation_key(key) ==> r.len() == 0
    }

    /// What a key does while input is taken, as far as the contract of
    /// `handle_key` states it; `r` is what is left to the caller.
    pub open spec fn input_key_done(
        a: &App,
        b: &App,
        ka: &Kernel,
        kb: &Kernel,
        key: Key,
        r: Seq<Effect>,
    ) -> bool {
        &&& key == Key::Ctrl('d') ==> r == seq![Effect::Quit]
        &&& key == Key::Esc ==> r == seq![Effect::Send(Key::Delete), Effect::Send(Key::Char('\n'))]
            && b.input_mode == a.input_mode && b.input_query == a.input_query && *kb == *ka
        &&& (key == Key::Up || key == Key::Down) ==> b.input_mode == other_input_mode(a.input_mode)
            && b.input_query@.len() == 0
        &&& is_input_exit_key(key) ==> b.input_mode == InputMode::Idle
        &&& (key == Key::Char('\n') && a.input_mode == InputMode::Load && a.input_query@.len()
            > 0) ==> KernelModules::staged(
            &ka.modules,
            &kb.modules,
            ModuleCommand::Load,
            a.input_query@,
        ) && b.input_query@.len() == 0 && b.selected_block == Block::ModuleInfo
        &&& (key is Char && !is_input_exit_key(key)) ==> b.input_query@ == a.input_query@.push(
            key->Char_0,
        ) && kb.modules.index == 0 && b.input_mode == a.input_mode
        &&& (key == Key::Backspace || key == Key::Ctrl('h')) ==> b.input_query@ == (if a.input_query@.len() > 0 {
            a.input_query@.drop_last()
        } else {
            a.input_query@
        }) && kb.modules.index == 0 && b.input_mode == a.input_mode
        &&& (key == Key::Delete || key == Key::Ctrl('l')) ==> b.input_query@.len() == 0
            && kb.modules.index == 0 && b.input_mode == a.input_mode && r.len() == 0
        &&& (key == Key::Char('\n') && a.input_mode == InputMode::Search && ka.modules.index
            == 0) ==> kb.modules.index == 0 && b.input_query == a.input_query && b.selected_block
            == Block::ModuleTable && (ka.modules.list.len() > 0 ==> kb.modules.needs_info)
        &&& key == Key::Ctrl('c') ==> r.len() == 1 && r[0] is Copy && r[0]->Copy_0
            == a.input_query
        &&& key == Key::Ctrl('v') ==> r == seq![Effect::Paste]
    }

    /// Handles a navigation key of the default mode; the result says whether
    /// the menu closes afterwards.
    #[verifier::rlimit(100)]
    #[verifier::spinoff_prover]
    fn navigation_key(&mut self, key: Key, kernel: &mut Kernel) -> (close_menu: bool)
        requires
            old(self).wf(),
            old(kernel).wf(),
            old(self).input_mode == InputMode::Idle,
            is_navigation_key(key),
        ensures
            final(self).wf(),
            final(kernel).wf(),
            App::default_key_done(old(self), final(self), old(kernel), final(kernel), key, seq![]),
            old(self).input_mode == final(self).input_mode,
            ((key == Key::Up || key == Key::Down) && old(self).show_options) ==> !close_menu,
    {
        let mut close_menu = true;
        match key {
            Key::Up | Key::Char('k') | Key::Char('K') | Key::Alt('k') | Key::Alt('K') => {
                if self.show_options {
                    self.options.previous();
                    close_menu = false;
                } else {
                    self.options.state.select(Some(0));
                    let smooth = key == Key::Alt('k') || key == Key::Alt('K');
                    match self.selected_block {
                        Block::ModuleTable => kernel.modules.scroll_list(ScrollDirection::Up),
                        Block::ModuleInfo => kernel.modules.scroll_mod_info(
                            ScrollDirection::Up,
                            smooth,
                        ),
                        Block::Activities => kernel.logs.scroll(ScrollDirection::Up, smooth),
                        _ => {},
                    }
                }
            },
            Key::Down | Key::Char('j') | Key::Char('J') | Key::Alt('j') | Key::Alt('J') => {
                if self.show_options {
                    self.options.next();
                    close_menu = false;
                } else {
                    self.options.state.select(Some(0));
                    let smooth = key == Key::Alt('j') || key == Key::Alt('J');
                    match self.selected_block {
                        Block::ModuleTable => kernel.modules.scroll_list(ScrollDirection::Down),
                        Block::ModuleInfo => kernel.modules.scroll_mod_info(
                            ScrollDirection::Down,
                            smooth,
                        ),
                        Block::Activities => kernel.logs.scroll(ScrollDirection::Down, smooth),
                        _ => {},
                    }
                }
            },
            Key::Left | Key::Char('h') | Key::Char('H') => {
                self.selected_block = self.selected_block.previous();
            },
            Key::Right | Key::Char('l') | Key::Char('L') => {
                self.selected_block = self.selected_block.next();
            },
            Key::Alt('e') => {
                let size = self.block_size();
                if size < 95 {
                    self.set_block_size(size + 5);
                } else {
                    self.set_block_size(100);
                }
            },
            Key::Alt('s') => {
                let size = self.block_size();
                if size >= 5 {
                    self.set_block_size(size - 5);
                } else {
                    self.set_block_size(0);
                }
            },
            Key::Ctrl('x') => {
                if self.block_index == 2 {
                    self.block_index = 0;
                } else {
                    self.block_index = self.block_index + 1;
                }
            },
            Key::Ctrl('t') | Key::Home => {
                self.options.state.select(Some(0));
                self.selected_block = Block::ModuleTable;
                kernel.modules.scroll_list(ScrollDirection::Top);
            },
            Key::Ctrl('b') | Key::End => {
                self.options.state.select(Some(0));
                self.selected_block = Block::ModuleTable;
                kernel.modules.scroll_list(ScrollDirection::Bottom);
            },
            Key::PageUp => {
                self.selected_block = Block::Activities;
                kernel.logs.scroll(ScrollDirection::Up, false);
            },
            Key::PageDown => {
                self.selected_block = Block::Activities;
                kernel.logs.scroll(ScrollDirection::Down, false);
            },
            Key::Alt('h') | Key::Alt('H') => {
                self.selected_block = Block::Activities;
                kernel.logs.scroll(ScrollDirection::Left, false);
            },
            Key::Alt('l') | Key::Alt('L') => {
                self.selected_block = Block::Activities;
                kernel.logs.scroll(ScrollDirection::Right, false);
            },
            Key::Char('<') | Key::Alt(' ') => {
                self.selected_block = Block::ModuleInfo;
                kernel.modules.scroll_mod_info(ScrollDirection::Up, false);
            },
            Key::Char('>') | Key::Char(' ') => {
                self.selected_block = Block::ModuleInfo;
                kernel.modules.scroll_mod_info(ScrollDirection::Down, false);
            },
            _ => {},
        }
        close_menu
    }

    /// Whether a key is a navigation key.
    fn navigation(key: Key) -> (r: bool)
        ensures
            r == is_navigation_key(key),
    {
        match key {
            Key::Up | Key::Char('k') | Key::Char('K') | Key::Alt('k') | Key::Alt('K') => true,
            Key::Down | Key::Char('j') | Key::Char('J') | Key::Alt('j') | Key::Alt('J') => true,
            Key::Left | Key::Char('h') | Key::Char('H') | Key::Right | Key::Char('l')
            | Key::Char('L') => true,
            Key::Alt('e') | Key::Alt('s') | Key::Ctrl('x') => true,
            Key::Ctrl('t') | Key::Home | Key::Ctrl('b') | Key::End => true,
            Key::PageUp | Key::PageDown => true,
            Key::Alt('h') | Key::Alt('H') | Key::Alt('l') | Key::Alt('L') => true,
            Key::Char('<') | Key::Alt(' ') | Key::Char('>') | Key::Char(' ') => true,
            _ => false,
        }
    }

    /// Handles a key in the default mode; the flag says whether the menu
    /// closes afterwards.
    fn default_key(&mut self, key: Key, kernel: &mut Kernel) -> (r: (Vec<Effect>, bool))
        requires
            old(self).wf(),
            old(kernel).wf(),
            old(self).input_mode == InputMode::Idle,
        ensures
            final(self).wf(),
            final(kernel).wf(),
            App::default_key_done(old(self), final(self), old(kernel), final(kernel), key, r.0@),
            (key == Key::Char('m') || key == Key::Char('o')) ==> !r.1,
            (key == Key::Char('r') || key == Key::Char('R') || key == Key::F(5)) ==> r.1,
            (is_search_key(key) || is_load_key(key) || key == Key::Char('\n')) ==> r.1,
            ((key == Key::Up || key == Key::Down) && old(self).show_options) ==> !r.1,
    {
        if App::navigation(key) {
            let close_menu = self.navigation_key(key, kernel);
            (Vec::new(), close_menu)
        } else {
            self.command_key(key, kernel)
        }
    }

    /// Handles a key of the default mode other than the navigation keys;
    /// the flag says whether the menu closes afterwards.
    #[verifier::rlimit(100)]
    #[verifier::spinoff_prover]
    fn command_key(&mut self, key: Key, kernel: &mut Kernel) -> (r: (Vec<Effect>, bool))
        requires
            old(self).wf(),
            old(kernel).wf(),
            old(self).input_mode == InputMode::Idle,
            !is_navigation_key(key),
        ensures
            final(self).wf(),
            final(kernel).wf(),
            App::default_key_done(old(self), final(self), old(kernel), final(kernel), key, r.0@),
            (key == Key::Char('m') || key == Key::Char('o')) ==> !r.1,
            (key == Key::Char('r') || key == Key::Char('R') || key == Key::F(5)) ==> r.1,
            (is_search_key(key) || is_load_key(key) || key == Key::Char('\n')) ==> r.1,
    {
        let mut effects: Vec<Effect> = Vec::new();
        let mut close_menu = true;
        match key {
            Key::Char('q') | Key::Char('Q') | Key::Ctrl('c') | Key::Ctrl('d') | Key::Esc => {
                if self.show_options {
                    self.show_options = false;
                } else {
                    effects.push(Effect::Quit);
                }
            },
            Key::Char('r') | Key::Char('R') | Key::F(5) => {
                self.refresh();
                effects.push(Effect::Refresh);
            },
            Key::Char('?') | Key::F(1) => {
                self.show_help_message(&mut kernel.modules);
            },
            Key::Char('m') | Key::Char('o') => {
                self.show_options = true;
                close_menu = false;
            },
            Key::Char('\\') | Key::Char('\t') | Key::BackTab => {
                kernel.info.next();
                if kernel.info.needs_refresh {
                    effects.push(Effect::ReadKernelInfo);
                }
            },
            Key::Char('d') | Key::Alt('d') => {
                self.show_dependent_modules(&mut kernel.modules);
            },
            Key::Ctrl('l') | Key::Ctrl('u') | Key::Alt('c') | Key::Alt('C') => {
                kernel.modules.set_current_command(ModuleCommand::Clear, String::new());
            },
            Key::Char('u') | Key::Char('U') | Key::Char('-') | Key::Backspace | Key::Ctrl('h') => {
                kernel.modules.set_current_command(ModuleCommand::Unload, String::new());
            },
            Key::Char('x') | Key::Char('X') | Key::Char('b') | Key::Char('B') | Key::Delete => {
                kernel.modules.set_current_command(ModuleCommand::Blacklist, String::new());
            },
            Key::Ctrl('r') | Key::Ctrl('R') | Key::Alt('r') | Key::Alt('R') => {
                kernel.modules.set_current_command(ModuleCommand::Reload, String::new());
            },
            Key::Char('y') | Key::Char('Y') => {
                if !kernel.modules.command.is_none() {
                    effects.push(Effect::Execute(kernel.modules.get_current_command().cmd));
                }
            },
            Key::Char('n') | Key::Char('N') => {
                if kernel.modules.cancel_execution() {
                    self.selected_block = Block::ModuleTable;
                }
            },
            Key::Char('c') | Key::Char('C') => {
                let text = match self.selected_block {
                    Block::ModuleTable => kernel.modules.current_name.clone(),
                    Block::ModuleInfo => kernel.modules.current_info.clone(),
                    Block::Activities => crate::text::trim(kernel.logs.selected_output.as_str()),
                    _ => String::new(),
                };
                effects.push(Effect::Copy(text));
            },
            Key::Char('v') | Key::Ctrl('V') | Key::Ctrl('v') => {
                effects.push(Effect::Paste);
            },
            Key::Char('\n') | Key::Char('s') | Key::Char('S') | Key::Char('i') | Key::Char('I')
            | Key::Char('+') | Key::Char('/') | Key::Insert => {
                if key == Key::Char('\n') && self.show_options {
                    let chosen = match self.options.selected() {
                        Some(item) => Some(item.0.clone()),
                        None => None,
                    };
                    if let Some(name) = chosen {
                        match command_of_option(name.as_str()) {
                            Some(ModuleCommand::Load) => {
                                effects.push(Effect::Send(Key::Char('+')));
                            },
                            Some(command) => {
                                kernel.modules.set_current_command(command, String::new());
                            },
                            None => {
                                if same_text(name.as_str(), "dependent") {
                                    self.show_dependent_modules(&mut kernel.modules);
                                } else if same_text(name.as_str(), "copy") {
                                    effects.push(Effect::Copy(kernel.modules.current_name.clone()));
                                }
                            },
                        }
                    }
                } else {
                    self.selected_block = Block::UserInput;
                    self.input_mode = match key {
                        Key::Char('+') | Key::Char('i') | Key::Char('I') | Key::Insert => {
                            InputMode::Load
                        },
                        _ => InputMode::Search,
                    };
                    if key != Key::Char('\n') {
                        self.input_query = String::new();
                    }
                }
            },
            Key::Char(v) => {
                if '1' <= v && v <= '9' && kernel.modules.list.len() > 0 {
                    let index = (v as u32 - '1' as u32) as usize;
                    self.selected_block = Block::ModuleTable;
                    kernel.modules.show_used_module(index);
                }
            },
            _ => {},
        }
        (effects, close_menu)
    }

    /// Handles a key while input is taken.
    fn input_key(&mut self, key: Key, kernel: &mut Kernel) -> (r: Vec<Effect>)
        requires
            old(self).wf(),
            old(kernel).wf(),
            old(self).input_mode != InputMode::Idle,
        ensures
            final(self).wf(),
            final(kernel).wf(),
            App::input_key_done(old(self), final(self), old(kernel), final(kernel), key, r@),
    {
        let mut effects: Vec<Effect> = Vec::new();
        match key {
            Key::Ctrl('d') => {
                effects.push(Effect::Quit);
            },
            Key::Up | Key::Down => {
                self.input_mode = match self.input_mode {
                    InputMode::Search => InputMode::Load,
                    _ => InputMode::Search,
                };
                self.input_query = String::new();
            },
            Key::Ctrl('c') => {
                effects.push(Effect::Copy(self.input_query.clone()));
            },
            Key::Ctrl('v') => {
                effects.push(Effect::Paste);
            },
            Key::Char('\n') | Key::Char('\t') | Key::Char('?') | Key::F(1) | Key::Right
            | Key::Left => {
                let load_named = self.input_mode == InputMode::Load && self.input_query.as_str().unicode_len() > 0;
                self.selected_block = match key {
                    Key::Left => self.selected_block.previous(),
                    Key::Char('\n') => if load_named {
                        Block::ModuleInfo
                    } else {
                        Block::ModuleTable
                    },
                    Key::Char('?') | Key::F(1) => {
                        self.show_help_message(&mut kernel.modules);
                        self.input_mode = InputMode::Idle;
                        Block::ModuleTable
                    },
                    _ => Block::ModuleTable,
                };
                if self.input_mode == InputMode::Search && kernel.modules.index == 0 {
                    kernel.modules.scroll_list(ScrollDirection::Top);
                } else if self.input_mode == InputMode::Load && load_named {
                    kernel.modules.set_current_command(
                        ModuleCommand::Load,
                        self.input_query.clone(),
                    );
                    self.input_query = String::new();
                }
                self.input_mode = InputMode::Idle;
            },
            Key::Char(c) => {
                push_char(&mut self.input_query, c);
                kernel.modules.index = 0;
            },
            Key::Backspace | Key::Ctrl('h') => {
                self.input_query = without_last_char(&self.input_query);
                kernel.modules.index = 0;
            },
            Key::Delete | Key::Ctrl('l') => {
                self.input_query = String::new();
                kernel.modules.index = 0;
            },
            Key::Esc => {
                effects.push(Effect::Send(Key::Delete));
                effects.push(Effect::Send(Key::Char('\n')));
                assert(effects@ =~= seq![Effect::Send(Key::Delete), Effect::Send(Key::Char('\n'))]);
            },
            _ => {},
        }
        effects
    }

    /// Handles a key: in the default mode keys switch and resize panels,
    /// scroll, stage, confirm or cancel commands and open the input; while
    /// input is taken they edit it, switch between search and load, or end
    /// it. The menu closes afterwards unless the key opened it or moved in
    /// it. What the caller is left to do comes back in order.
    pub fn handle_key(&mut self, key: Key, kernel: &mut Kernel) -> (r: Vec<Effect>)
        requires
            old(self).wf(),
            old(kernel).wf(),
        ensures
            final(self).wf(),
            final(kernel).wf(),
            old(self).input_mode == InputMode::Idle ==> App::default_key_done(
                old(self),
                final(self),
                old(kernel),
                final(kernel),
                key,
                r@,
            ),
            old(self).input_mode != InputMode::Idle ==> App::input_key_done(
                old(self),
                final(self),
                old(kernel),
                final(kernel),
                key,
                r@,
            ) && !final(self).show_options,
    {
        if self.input_mode.is_none() {
            let (effects, close_menu) = self.default_key(key, kernel);
            if close_menu {
                self.show_options = false;
            }
            effects
        } else {
            let effects = self.input_key(key, kernel);
            self.show_options = false;
            effects
        }
    }

    /// Takes the clipboard's contents: appended to the query; with no input
    /// taken, the search then opens on it from the top of the list.
    pub fn paste_clipboard(&mut self, contents: &str, modules: &mut KernelModules) -> (r: Vec<
        Effect,
    >)
        requires
            old(modules).wf(),
        ensures
            final(self).input_query@ == old(self).input_query@ + contents@,
            final(modules).wf(),
            final(self).input_mode == old(self).input_mode,
            old(self).input_mode == InputMode::Idle ==> r@ == seq![Effect::Send(Key::Char('\n'))]
                && final(modules).index == 0,
            old(self).input_mode != InputMode::Idle ==> r@.len() == 0 && *final(modules) == *old(
                modules,
            ),
            final(self).selected_block == old(self).selected_block,
            final(self).block_size == old(self).block_size,
            final(self).block_index == old(self).block_index,
    {
        self.input_query.append(contents);
        if self.input_mode.is_none() {
            modules.index = 0;
            vec![Effect::Send(Key::Char('\n'))]
        } else {
            Vec::new()
        }
    }

    /// Takes the outcome of running the staged command: on success a
    /// refresh key is queued; on failure the error is shown.
    pub fn command_finished(&mut self, modules: &mut KernelModules, outcome: Result<(), String>) -> (r:
        Vec<Effect>)
        requires
            old(modules).wf(),
        ensures
            final(modules).wf(),
            *final(self) == *old(self),
            ({
                let ok = old(modules).command != ModuleCommand::Idle && outcome is Ok;
                &&& KernelModules::executed(
                    old(modules),
                    final(modules),
                    match outcome {
                        Ok(_) => Ok(()),
                        Err(e) => Err(e@),
                    },
                    ok,
                )
                &&& ok ==> r@ == seq![Effect::Send(Key::Char('r'))]
                &&& !ok ==> r@.len() == 0
            }),
    {
        if modules.execute_command(outcome) {
            vec![Effect::Send(Key::Char('r'))]
        } else {
            Vec::new()
        }
    }
}

} // verus!
