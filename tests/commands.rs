use kmon::app::InputMode;
use kmon::cmd::ModuleCommand;
use kmon::style::{Symbol, Unicode};

#[test]
fn test_module_command() {
    let module_command = ModuleCommand::Idle;
    assert_eq!(true, module_command == ModuleCommand::Idle);

    assert_ne!("", ModuleCommand::Idle.get("test").title);
    assert_ne!("", ModuleCommand::Load.get("module").desc);
    assert_ne!("", ModuleCommand::Unload.get("!command").cmd);
    assert_ne!("", ModuleCommand::Blacklist.get("~").cmd);

    assert_eq!(
        "modprobe test-module || insmod test-module.ko",
        ModuleCommand::Load.get("test-module").cmd
    );
    assert_eq!(
        "insmod test-module.ko",
        ModuleCommand::Load.get("test-module.ko").cmd
    );

    assert_eq!(
        "modprobe -r test-module || rmmod test-module",
        ModuleCommand::Unload.get("test-module").cmd
    );
    assert_eq!(
        "modprobe -r test-module.ko || rmmod test-module.ko",
        ModuleCommand::Unload.get("test-module.ko").cmd
    );

    assert_eq!(
        format!(
            "{} && {}",
            ModuleCommand::Unload.get("test-module").cmd,
            ModuleCommand::Load.get("test-module").cmd
        ),
        ModuleCommand::Reload.get("test-module").cmd,
    );

    assert_eq!(
        format!(
            "{} && {}",
            ModuleCommand::Unload.get("test-module.ko").cmd,
            ModuleCommand::Load.get("test-module.ko").cmd
        ),
        ModuleCommand::Reload.get("test-module.ko").cmd,
    );
}

#[test]
fn test_input_mode() {
    let mut input_mode = InputMode::Load;
    assert!(!input_mode.is_none());
    assert!(input_mode.label().contains("Load"));
    input_mode = InputMode::Idle;
    assert!(input_mode.label().contains("Search"));
}

#[test]
fn test_unicode() {
    let mut unicode = Unicode::new(true);
    for symbol in Symbol::all() {
        if symbol != Symbol::Blank {
            assert!(unicode.get(symbol).len() < 2)
        }
    }
    unicode.replace = false;
    for symbol in Symbol::all() {
        if symbol != Symbol::Empty {
            assert_ne!("", unicode.get(symbol));
        }
    }
}

#[test]
fn reload_command_is_unload_then_load() {
    for name in ["abc", "snd_hda_intel", "x.ko", "", "!page"] {
        assert_eq!(
            format!(
                "{} && {}",
                ModuleCommand::Unload.get(name).cmd,
                ModuleCommand::Load.get(name).cmd
            ),
            ModuleCommand::Reload.get(name).cmd
        );
    }
}

#[test]
fn command_titles_and_symbols() {
    let c = ModuleCommand::Idle.get("abc");
    assert_eq!("Module: abc", c.title);
    assert_eq!("", c.cmd);
    assert_eq!(Symbol::Empty, c.symbol);
    assert_eq!("command", ModuleCommand::Idle.get("!command").title);
    assert_eq!("Remove: abc", ModuleCommand::Unload.get("abc").title);
    assert_eq!("Reload: abc", ModuleCommand::Reload.get("abc").title);
    assert_eq!("Blacklist: abc", ModuleCommand::Blacklist.get("abc").title);
    assert_eq!("Clear", ModuleCommand::Clear.get("abc").title);
    assert_eq!("dmesg --clear", ModuleCommand::Clear.get("abc").cmd);
    assert_eq!(Symbol::Cloud, ModuleCommand::Clear.get("abc").symbol);
    assert!(ModuleCommand::Blacklist
        .get("abc")
        .cmd
        .starts_with("if ! grep -q abc /etc/modprobe.d/blacklist.conf; then"));
}

#[test]
fn module_filename_detection() {
    assert!(ModuleCommand::is_module_filename("a.ko"));
    assert!(ModuleCommand::is_module_filename("ko"));
    assert!(!ModuleCommand::is_module_filename("a.ko.xz"));
    assert!(!ModuleCommand::is_module_filename("kobj"));
    assert!(!ModuleCommand::is_module_filename(""));
    assert!(ModuleCommand::Idle.is_none());
    assert!(!ModuleCommand::Clear.is_none());
}

#[test]
fn glyph_replacements() {
    let plain = Unicode::new(true);
    assert_eq!("(", plain.get(Symbol::LeftBracket));
    assert_eq!(")", plain.get(Symbol::RightBracket));
    assert_eq!("", plain.get(Symbol::Gear));
    let fancy = Unicode::new(false);
    assert_eq!(" \u{2699} ", fancy.get(Symbol::Gear));
    assert_eq!("\u{2997}", fancy.get(Symbol::LeftBracket));
    assert_eq!(15, Symbol::all().len());
}
