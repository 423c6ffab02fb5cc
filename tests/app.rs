use kmon::app::{App, Block, BlockTone, Effect, InputMode};
use kmon::cmd::ModuleCommand;
use kmon::event::Key;
use kmon::info::KernelInfo;
use kmon::kernel::Kernel;
use kmon::log::KernelLogs;
use kmon::modules::{InfoKind, KernelModules, ListArgs, SortType};
use kmon::style::Unicode;
use kmon::widgets::StatefulList;

const LISTING: &str = "abc 1024 2 xyz,def, Live 0x0000000000000000\n\
def 2048 0 - Live 0x0000000000000000\n\
xyz 512 1 abc, Live 0x0000000000000000";

fn infos() -> Vec<Vec<String>> {
    KernelInfo::get_infos(
        Ok(String::from("Linux host 6.1.0")),
        Ok(String::from("#1 SMP")),
        Err(String::from("uname failed")),
    )
}

fn setup() -> (App, Kernel) {
    let unicode = Unicode::new(true);
    let mut modules = KernelModules::new(ListArgs::new(SortType::Unsorted, false), unicode);
    modules.refresh(LISTING).unwrap();
    let kernel = Kernel::new(KernelLogs::new(), KernelInfo::new(infos()), modules);
    (App::new(Block::ModuleTable, unicode), kernel)
}

fn is_send(e: &Effect, k: Key) -> bool {
    matches!(e, Effect::Send(x) if *x == k)
}

#[test]
fn test_app() {
    let (app, _kernel) = setup();
    assert_eq!(BlockTone::Accent, app.block_style(Block::ModuleTable));
    assert_eq!(BlockTone::Muted, app.block_style(Block::Activities));
}

#[test]
fn test_stateful_list() {
    let mut list = StatefulList::with_items(vec!["data1", "data2", "data3"]);
    list.state.select(Some(1));
    assert_eq!(Some(&"data2"), list.selected());
    list.next();
    assert_eq!(Some(2), list.state.selected());
    list.previous();
    assert_eq!(Some(1), list.state.selected());
}

#[test]
fn stateful_list_wraps() {
    let mut list = StatefulList::with_items(vec![1, 2, 3]);
    list.previous();
    assert_eq!(Some(2), list.state.selected());
    list.next();
    assert_eq!(Some(0), list.state.selected());
}

#[test]
fn test_info() {
    let mut kernel_info = KernelInfo::new(infos());
    for _x in 0..kernel_info.entries.len() - kernel_info.position + 1 {
        kernel_info.next();
    }
    assert_eq!("Kernel Release", kernel_info.current_info[0]);
    assert_eq!("Linux host 6.1.0", kernel_info.current_info[1]);
    assert!(kernel_info.needs_refresh);
}

#[test]
fn info_entries_fall_back_to_unknown() {
    let e = infos();
    assert_eq!(vec!["Kernel Release", "Linux host 6.1.0"], e[0]);
    assert_eq!(vec!["Kernel Version", "#1 SMP"], e[1]);
    assert_eq!(vec!["Kernel Platform", "?"], e[2]);
}

#[test]
fn quit_closes_the_menu_first() {
    let (mut app, mut kernel) = setup();
    assert!(app.handle_key(Key::Char('m'), &mut kernel).is_empty());
    assert!(app.show_options);
    assert!(app.handle_key(Key::Char('q'), &mut kernel).is_empty());
    assert!(!app.show_options);
    let r = app.handle_key(Key::Esc, &mut kernel);
    assert!(matches!(r[..], [Effect::Quit]));
}

#[test]
fn panels_cycle_and_resize() {
    let (mut app, mut kernel) = setup();
    app.handle_key(Key::Right, &mut kernel);
    assert_eq!(Block::ModuleInfo, app.selected_block);
    app.handle_key(Key::Right, &mut kernel);
    app.handle_key(Key::Right, &mut kernel);
    assert_eq!(Block::UserInput, app.selected_block);
    app.handle_key(Key::Left, &mut kernel);
    assert_eq!(Block::Activities, app.selected_block);
    app.handle_key(Key::Alt('e'), &mut kernel);
    assert_eq!(30, app.block_size.activities);
    for _ in 0..30 {
        app.handle_key(Key::Alt('e'), &mut kernel);
    }
    assert_eq!(100, app.block_size.activities);
    for _ in 0..30 {
        app.handle_key(Key::Alt('s'), &mut kernel);
    }
    assert_eq!(0, app.block_size.activities);
    app.handle_key(Key::Ctrl('x'), &mut kernel);
    app.handle_key(Key::Ctrl('x'), &mut kernel);
    assert_eq!(2, app.block_index);
    app.handle_key(Key::Ctrl('x'), &mut kernel);
    assert_eq!(0, app.block_index);
    assert_eq!(0, app.next_dynamic_block());
    assert_eq!(1, app.next_dynamic_block());
}

#[test]
fn confirm_runs_then_refreshes() {
    let (mut app, mut kernel) = setup();
    app.handle_key(Key::Char('u'), &mut kernel);
    assert_eq!(ModuleCommand::Unload, kernel.modules.command);
    let r = app.handle_key(Key::Char('y'), &mut kernel);
    assert_eq!(1, r.len());
    match &r[0] {
        Effect::Execute(cmd) => assert_eq!("modprobe -r abc || rmmod abc", cmd),
        _ => panic!("expected a command to run"),
    }
    let after = app.command_finished(&mut kernel.modules, Ok(()));
    assert_eq!(ModuleCommand::Idle, kernel.modules.command);
    assert_eq!(1, after.len());
    assert!(is_send(&after[0], Key::Char('r')));
    let r = app.handle_key(Key::Char('r'), &mut kernel);
    assert!(matches!(r[..], [Effect::Refresh]));
}

#[test]
fn cancel_keeps_selection_and_runs_nothing() {
    let (mut app, mut kernel) = setup();
    app.handle_key(Key::Down, &mut kernel);
    assert_eq!(1, kernel.modules.index);
    app.handle_key(Key::Ctrl('r'), &mut kernel);
    assert_eq!(ModuleCommand::Reload, kernel.modules.command);
    let r = app.handle_key(Key::Char('n'), &mut kernel);
    assert!(r.is_empty());
    assert_eq!(ModuleCommand::Idle, kernel.modules.command);
    assert_eq!(1, kernel.modules.index);
    assert_eq!(Block::ModuleTable, app.selected_block);
}

#[test]
fn failed_unload_end_to_end() {
    let (mut app, mut kernel) = setup();
    assert_eq!("abc", kernel.modules.current_name);
    app.handle_key(Key::Char('-'), &mut kernel);
    let r = app.handle_key(Key::Char('y'), &mut kernel);
    assert!(matches!(r[..], [Effect::Execute(_)]));
    let after = app.command_finished(&mut kernel.modules, Err(String::from("permission denied")));
    assert!(after.is_empty());
    assert!(kernel.modules.current_name.starts_with("!Error"));
    assert!(kernel.modules.current_info.contains("permission denied"));
    assert_eq!(ModuleCommand::Idle, kernel.modules.command);
}

#[test]
fn search_input_filters_the_table() {
    let (mut app, mut kernel) = setup();
    app.handle_key(Key::Char('/'), &mut kernel);
    assert_eq!(InputMode::Search, app.input_mode);
    assert_eq!(Block::UserInput, app.selected_block);
    app.handle_key(Key::Char('X'), &mut kernel);
    app.handle_key(Key::Char('Y'), &mut kernel);
    assert_eq!("XY", app.input_query);
    app.filter_modules(&mut kernel.modules);
    assert_eq!(1, kernel.modules.list.len());
    assert_eq!("xyz", kernel.modules.list[0].name);
    app.handle_key(Key::Backspace, &mut kernel);
    assert_eq!("X", app.input_query);
    app.handle_key(Key::Char('\n'), &mut kernel);
    assert_eq!(InputMode::Idle, app.input_mode);
    assert_eq!(Block::ModuleTable, app.selected_block);
}

#[test]
fn load_input_stages_a_load() {
    let (mut app, mut kernel) = setup();
    app.handle_key(Key::Char('+'), &mut kernel);
    assert_eq!(InputMode::Load, app.input_mode);
    for c in "vfat".chars() {
        app.handle_key(Key::Char(c), &mut kernel);
    }
    app.filter_modules(&mut kernel.modules);
    assert_eq!(3, kernel.modules.list.len());
    app.handle_key(Key::Char('\n'), &mut kernel);
    assert_eq!(InputMode::Idle, app.input_mode);
    assert_eq!("", app.input_query);
    assert_eq!(Block::ModuleInfo, app.selected_block);
    assert_eq!(ModuleCommand::Load, kernel.modules.command);
    assert_eq!("vfat", kernel.modules.current_name);
    assert_eq!("modprobe vfat || insmod vfat.ko", kernel.modules.current_info);
}

#[test]
fn input_mode_switching_and_escape() {
    let (mut app, mut kernel) = setup();
    app.handle_key(Key::Char('s'), &mut kernel);
    app.handle_key(Key::Up, &mut kernel);
    assert_eq!(InputMode::Load, app.input_mode);
    app.handle_key(Key::Down, &mut kernel);
    assert_eq!(InputMode::Search, app.input_mode);
    app.handle_key(Key::Char('a'), &mut kernel);
    let r = app.handle_key(Key::Esc, &mut kernel);
    assert_eq!(2, r.len());
    assert!(is_send(&r[0], Key::Delete));
    assert!(is_send(&r[1], Key::Char('\n')));
    app.handle_key(Key::Delete, &mut kernel);
    assert_eq!("", app.input_query);
    app.handle_key(Key::Char('\n'), &mut kernel);
    assert_eq!(InputMode::Idle, app.input_mode);
    let r = app.handle_key(Key::Char('s'), &mut kernel);
    assert!(r.is_empty());
    let r = app.handle_key(Key::Ctrl('d'), &mut kernel);
    assert!(matches!(r[..], [Effect::Quit]));
}

#[test]
fn paste_opens_the_search() {
    let (mut app, mut kernel) = setup();
    let r = app.handle_key(Key::Char('v'), &mut kernel);
    assert!(matches!(r[..], [Effect::Paste]));
    let r = app.paste_clipboard("de", &mut kernel.modules);
    assert_eq!("de", app.input_query);
    assert!(is_send(&r[0], Key::Char('\n')));
    app.handle_key(Key::Char('\n'), &mut kernel);
    assert_eq!(InputMode::Search, app.input_mode);
    assert_eq!("de", app.input_query);
}

#[test]
fn help_and_dependents_pages() {
    let (mut app, mut kernel) = setup();
    app.handle_key(Key::Char('d'), &mut kernel);
    assert_eq!(InfoKind::Dependents, kernel.modules.info_kind);
    assert_eq!("!Dependent modules of abc", kernel.modules.current_name);
    assert_eq!("xyz\ndef", kernel.modules.current_info);
    app.handle_key(Key::Char('u'), &mut kernel);
    assert_eq!(ModuleCommand::Idle, kernel.modules.command);
    app.handle_key(Key::Char('?'), &mut kernel);
    assert_eq!(InfoKind::Help, kernel.modules.info_kind);
    assert!(kernel.modules.current_name.starts_with("!Help"));
    assert!(kernel.modules.current_info.starts_with("'?', f1:\n help"));
}

#[test]
fn digit_jumps_to_dependent() {
    let (mut app, mut kernel) = setup();
    app.handle_key(Key::Char('1'), &mut kernel);
    assert_eq!(2, kernel.modules.index);
    assert_eq!("xyz", kernel.modules.current_name);
}

#[test]
fn options_menu_stages_commands() {
    let (mut app, mut kernel) = setup();
    app.handle_key(Key::Char('o'), &mut kernel);
    app.handle_key(Key::Down, &mut kernel);
    assert!(app.show_options);
    assert_eq!(Some(1), app.options.state.selected());
    app.handle_key(Key::Char('\n'), &mut kernel);
    assert!(!app.show_options);
    assert_eq!(ModuleCommand::Reload, kernel.modules.command);
    app.handle_key(Key::Char('o'), &mut kernel);
    app.handle_key(Key::Up, &mut kernel);
    app.handle_key(Key::Up, &mut kernel);
    app.handle_key(Key::Up, &mut kernel);
    assert_eq!(Some(5), app.options.state.selected());
    let r = app.handle_key(Key::Char('\n'), &mut kernel);
    assert!(is_send(&r[0], Key::Char('+')));
}

#[test]
fn kernel_info_cycles() {
    let (mut app, mut kernel) = setup();
    app.handle_key(Key::Char('\t'), &mut kernel);
    assert_eq!("Kernel Version", kernel.info.current_info[0]);
    app.handle_key(Key::Char('\t'), &mut kernel);
    let r = app.handle_key(Key::Char('\t'), &mut kernel);
    assert!(matches!(r[..], [Effect::ReadKernelInfo]));
    assert_eq!("Kernel Release", kernel.info.current_info[0]);
}

#[test]
fn log_panel_keys() {
    let (mut app, mut kernel) = setup();
    kernel.logs.update(String::from("l1\nl2\nl3\nl4\nl5"));
    app.handle_key(Key::PageUp, &mut kernel);
    assert_eq!(Block::Activities, app.selected_block);
    assert_eq!(3, kernel.logs.index);
    app.handle_key(Key::Down, &mut kernel);
    assert_eq!(0, kernel.logs.index);
    app.handle_key(Key::Alt('k'), &mut kernel);
    assert_eq!(1, kernel.logs.index);
    app.handle_key(Key::Alt('l'), &mut kernel);
    assert_eq!(10, kernel.logs.crop_offset);
    app.handle_key(Key::Alt('h'), &mut kernel);
    assert_eq!(0, kernel.logs.crop_offset);
    app.handle_key(Key::PageDown, &mut kernel);
    assert_eq!(0, kernel.logs.index);
    app.handle_key(Key::Char('c'), &mut kernel);
}

#[test]
fn info_panel_keys() {
    let (mut app, mut kernel) = setup();
    kernel.modules.show_module_info(Ok(String::from("a: 1\nb: 2\nc: 3\nd: 4")));
    app.handle_key(Key::Char('>'), &mut kernel);
    assert_eq!(Block::ModuleInfo, app.selected_block);
    assert_eq!(2, kernel.modules.info_scroll_offset);
    app.handle_key(Key::Alt('j'), &mut kernel);
    assert_eq!(3, kernel.modules.info_scroll_offset);
    app.handle_key(Key::Up, &mut kernel);
    assert_eq!(1, kernel.modules.info_scroll_offset);
    app.handle_key(Key::Up, &mut kernel);
    assert_eq!(1, kernel.modules.info_scroll_offset);
    app.handle_key(Key::Char('<'), &mut kernel);
    assert_eq!(1, kernel.modules.info_scroll_offset);
    app.handle_key(Key::End, &mut kernel);
    assert_eq!(Block::ModuleTable, app.selected_block);
    assert_eq!(2, kernel.modules.index);
    app.handle_key(Key::Home, &mut kernel);
    assert_eq!(0, kernel.modules.index);
}
