//! The module mutation commands: each kind, applied to a module name, gives
//! the shell command line to run, a description and a title.

use vstd::prelude::*;
use crate::style::Symbol;
use crate::text::{split_at_char, split_on, views};

verus! {

/// A shell command with what is shown about it.
#[derive(Debug)]
pub struct Command {
    pub cmd: String,
    pub desc: &'static str,
    pub title: String,
    pub symbol: Symbol,
}

/// A title as shown: the part after its last `!`, or the whole title when it
/// has none.
pub open spec fn shown_title(t: Seq<char>) -> Seq<char> {
    split_on(t, '!').last()
}

impl Command {
    /// A command whose title is cut after its last `!`.
    pub fn new(cmd: String, desc: &'static str, title: String, symbol: Symbol) -> (r: Command)
        ensures
            r.cmd@ == cmd@,
            r.desc == desc,
            r.title@ == shown_title(title@),
            r.symbol == symbol,
    {
        let pieces = split_at_char(title.as_str(), '!');
        let n = pieces.len();
        assert(views(pieces@)[n - 1] == pieces@[n - 1]@);
        let title = pieces[n - 1].clone();
        Command { cmd, desc, title, symbol }
    }
}

/// The kinds of module management commands.
#[derive(Clone, Copy, Debug, PartialEq, Eq, Structural)]
pub enum ModuleCommand {
    Idle,
    Load,
    Unload,
    Reload,
    Blacklist,
    Clear,
}

/// Whether a module name is a file name: its last `.`-separated piece is
/// `ko`.
pub open spec fn is_ko_file(name: Seq<char>) -> bool {
    split_on(name, '.').last() == "ko"@
}

/// The command line that loads a module: by file with `insmod`, else with
/// `modprobe` and `insmod` of the `.ko` file as the fallback.
pub open spec fn load_line(m: Seq<char>) -> Seq<char> {
    if is_ko_file(m) {
        "insmod "@ + m
    } else {
        "modprobe "@ + m + " || insmod "@ + m + ".ko"@
    }
}

/// The command line that unloads a module.
pub open spec fn unload_line(m: Seq<char>) -> Seq<char> {
    "modprobe -r "@ + m + " || rmmod "@ + m
}

/// The shell command line of a command kind on a module.
pub open spec fn command_line(kind: ModuleCommand, m: Seq<char>) -> Seq<char> {
    match kind {
        ModuleCommand::Idle => ""@,
        ModuleCommand::Load => load_line(m),
        ModuleCommand::Unload => unload_line(m),
        ModuleCommand::Reload => unload_line(m) + " && "@ + load_line(m),
        ModuleCommand::Blacklist => "if ! grep -q "@ + m + " /etc/modprobe.d/blacklist.conf; then\n  echo 'blacklist "@ + m
            + "' >> /etc/modprobe.d/blacklist.conf\n  echo 'install "@ + m
            + " /bin/false' >> /etc/modprobe.d/blacklist.conf\nfi"@,
        ModuleCommand::Clear => "dmesg --clear"@,
    }
}

/// The title of a command kind on a module, before it is cut at `!`.
pub open spec fn raw_title(kind: ModuleCommand, m: Seq<char>) -> Seq<char> {
    match kind {
        ModuleCommand::Idle => "Module: "@ + m,
        ModuleCommand::Load => "Load: "@ + m,
        ModuleCommand::Unload => "Remove: "@ + m,
        ModuleCommand::Reload => "Reload: "@ + m,
        ModuleCommand::Blacklist => "Blacklist: "@ + m,
        ModuleCommand::Clear => "Clear"@,
    }
}

/// The symbol shown beside the title of a command kind.
pub open spec fn kind_symbol(kind: ModuleCommand) -> Symbol {
    match kind {
        ModuleCommand::Idle => Symbol::Empty,
        ModuleCommand::Load => Symbol::Anchor,
        ModuleCommand::Unload => Symbol::CircleX,
        ModuleCommand::Reload => Symbol::FuelPump,
        ModuleCommand::Blacklist => Symbol::SquareX,
        ModuleCommand::Clear => Symbol::Cloud,
    }
}

/// The description of a command kind.
pub open spec fn description(kind: ModuleCommand) -> Seq<char> {
    match kind {
        ModuleCommand::Idle => ""@,
        ModuleCommand::Load => LOAD_DESC@,
        ModuleCommand::Unload => UNLOAD_DESC@,
        ModuleCommand::Reload => RELOAD_DESC@,
        ModuleCommand::Blacklist => BLACKLIST_DESC@,
        ModuleCommand::Clear => CLEAR_DESC@,
    }
}

pub const LOAD_DESC: &'static str = "Add and remove modules from the Linux Kernel\n\nThis command inserts a module to the kernel.";

pub const UNLOAD_DESC: &'static str = "modprobe/rmmod: Add and remove modules from the Linux Kernel\nmodprobe -r, --remove or rmmod\n\nThis option causes modprobe to remove rather than insert a module. If the modules it depends on are also unused, modprobe will try to remove them too. For modules loaded with insmod rmmod will be used instead. There is usually no reason to remove modules, but some buggy modules require it. Your distribution kernel may not have been built to support removal of modules at all.";

pub const RELOAD_DESC: &'static str = "modprobe/insmod/rmmod: Add and remove modules from the Linux Kernel\n\nThis command reloads a module, removes and inserts to the kernel.";

pub const BLACKLIST_DESC: &'static str = "This command blacklists a module and any other module that depends on it.\n\nBlacklisting is a mechanism to prevent the kernel module from loading. This could be useful if, for example, the associated hardware is not needed, or if loading that module causes problems.\nThe blacklist command will blacklist a module so that it will not be loaded automatically, but the module may be loaded if another non-blacklisted module depends on it or if it is loaded manually. However, there is a workaround for this behaviour; the install command instructs modprobe to run a custom command instead of inserting the module in the kernel as normal, so the module will always fail to load.";

pub const CLEAR_DESC: &'static str = "dmesg: Print or control the kernel ring buffer\noption: -C, --clear\n\nClear the ring buffer.";

/// Joins two strings.
fn join(a: &str, b: &str) -> (r: String)
    ensures
        r@ == a@ + b@,
{
    String::from_str(a).concat(b)
}

/// Whether two strings hold the same characters.
pub fn same_text(a: &str, b: &str) -> (r: bool)
    ensures
        r == (a@ == b@),
{
    let x = crate::text::chars_of(a);
    let y = crate::text::chars_of(b);
    if x.len() != y.len() {
        return false;
    }
    let mut i: usize = 0;
    while i < x.len()
        invariant
            i <= x.len(),
            x.len() == y.len(),
            x@ == a@,
            y@ == b@,
            forall|j: int| 0 <= j < i ==> x@[j] == y@[j],
        decreases x.len() - i,
    {
        if x[i] != y[i] {
            assert(x@[i as int] != y@[i as int]);
            return false;
        }
        i = i + 1;
    }
    assert(x@ =~= y@);
    true
}

/// The command line that loads `m`.
fn load_command(m: &str) -> (r: String)
    ensures
        r@ == load_line(m@),
{
    if ModuleCommand::is_module_filename(m) {
        join("insmod ", m)
    } else {
        join(join(join(join("modprobe ", m).as_str(), " || insmod ").as_str(), m).as_str(), ".ko")
    }
}

/// The command line that unloads `m`.
fn unload_command(m: &str) -> (r: String)
    ensures
        r@ == unload_line(m@),
{
    join(join(join("modprobe -r ", m).as_str(), " || rmmod ").as_str(), m)
}

impl ModuleCommand {
    /// The command of this kind on the module `module_name`.
    pub fn get(self, module_name: &str) -> (r: Command)
        ensures
            r.cmd@ == command_line(self, module_name@),
            r.desc@ == description(self),
            r.title@ == shown_title(raw_title(self, module_name@)),
            r.symbol == kind_symbol(self),
    {
        let m = module_name;
        match self {
            ModuleCommand::Idle => {
                proof {
                    reveal_strlit("");
                }
                Command::new(String::new(), "", join("Module: ", m), Symbol::Empty)
            },
            ModuleCommand::Load => {
                Command::new(load_command(m), LOAD_DESC, join("Load: ", m), Symbol::Anchor)
            },
            ModuleCommand::Unload => {
                Command::new(unload_command(m), UNLOAD_DESC, join("Remove: ", m), Symbol::CircleX)
            },
            ModuleCommand::Reload => {
                let unload = unload_command(m);
                let load = load_command(m);
                let cmd = join(join(unload.as_str(), " && ").as_str(), load.as_str());
                Command::new(cmd, RELOAD_DESC, join("Reload: ", m), Symbol::FuelPump)
            },
            ModuleCommand::Blacklist => {
                let a = join(join("if ! grep -q ", m).as_str(),
                    " /etc/modprobe.d/blacklist.conf; then\n  echo 'blacklist ");
                let b = join(join(a.as_str(), m).as_str(),
                    "' >> /etc/modprobe.d/blacklist.conf\n  echo 'install ");
                let cmd = join(join(b.as_str(), m).as_str(),
                    " /bin/false' >> /etc/modprobe.d/blacklist.conf\nfi");
                Command::new(cmd, BLACKLIST_DESC, join("Blacklist: ", m), Symbol::SquareX)
            },
            ModuleCommand::Clear => Command::new(
                String::from_str("dmesg --clear"),
                CLEAR_DESC,
                String::from_str("Clear"),
                Symbol::Cloud,
            ),
        }
    }

    /// Whether no command is set.
    pub fn is_none(self) -> (r: bool)
        ensures
            r == (self == ModuleCommand::Idle),
    {
        self == ModuleCommand::Idle
    }

    /// Whether a module name is a file name with the suffix `ko`.
    pub fn is_module_filename(module_name: &str) -> (r: bool)
        ensures
            r == is_ko_file(module_name@),
    {
        let pieces = split_at_char(module_name, '.');
        let n = pieces.len();
        assert(views(pieces@)[n - 1] == pieces@[n - 1]@);
        same_text(pieces[n - 1].as_str(), "ko")
    }
}

/// A reload runs the unload command line, then the load command line, joined
/// by `&&`.
pub proof fn reload_is_unload_then_load(m: Seq<char>)
    ensures
        command_line(ModuleCommand::Reload, m) == command_line(ModuleCommand::Unload, m)
            + " && "@ + command_line(ModuleCommand::Load, m),
{
}

} // verus!
