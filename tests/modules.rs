use kmon::app::ScrollDirection;
use kmon::cmd::ModuleCommand;
use kmon::modules::{
    filter_modules, parse_module_line, parse_module_list, InfoKind, KernelModules, ListArgs,
    ModuleRecord, ParseError, SortType,
};
use kmon::size::{human_size, parse_size};
use kmon::style::Unicode;

const LISTING: &str = "abc 1024 2 xyz,def, Live 0x0000000000000000\n\
def 2048 0 - Live 0x0000000000000000\n\
xyz 512 1 abc, Live 0x0000000000000000";

fn registry(reverse: bool) -> KernelModules {
    let mut m = KernelModules::new(ListArgs::new(SortType::Unsorted, reverse), Unicode::new(true));
    m.refresh(LISTING).unwrap();
    m
}

fn names(list: &[ModuleRecord]) -> Vec<String> {
    list.iter().map(|r| r.name.clone()).collect()
}

fn record(name: &str) -> ModuleRecord {
    ModuleRecord {
        name: name.to_string(),
        size: String::from("1 B"),
        use_count: String::from("0"),
        dependents: String::from("-"),
    }
}

#[test]
fn test_kernel_modules() {
    let mut kernel_modules = registry(true);
    for sort_type in SortType::iter().iter().rev().chain(SortType::iter().iter()) {
        kernel_modules.args.sort = *sort_type;
        kernel_modules.refresh(LISTING).unwrap();
    }
    for direction in ScrollDirection::iter()
        .iter()
        .rev()
        .chain(ScrollDirection::iter().iter())
    {
        kernel_modules.show_used_module(0);
        kernel_modules.scroll_list(*direction);
        kernel_modules.scroll_mod_info(*direction, *direction == ScrollDirection::Up);
    }
    kernel_modules.scroll_list(ScrollDirection::Down);
    assert_eq!(0, kernel_modules.index);
    kernel_modules.scroll_list(ScrollDirection::Up);
    assert_eq!(kernel_modules.default_list.len() - 1, kernel_modules.index);
    assert_ne!(0, kernel_modules.default_list.len());
    assert_ne!(0, kernel_modules.current_name.len());
    kernel_modules.show_module_info(Ok(String::from("filename: /lib/abc.ko\nlicense: GPL")));
    assert_ne!(0, kernel_modules.info_lines);
    kernel_modules.set_current_command(ModuleCommand::Load, String::from("test"));
    assert_eq!("test", kernel_modules.current_name);
    assert_eq!(false, kernel_modules.execute_command(Err(String::from("not found"))));
    kernel_modules.set_current_command(ModuleCommand::Load, String::new());
    kernel_modules.scroll_list(ScrollDirection::Top);
    for command in vec![
        ModuleCommand::Unload,
        ModuleCommand::Blacklist,
        ModuleCommand::Idle,
    ] {
        kernel_modules.set_current_command(command, String::new());
        assert_eq!(!command.is_none(), kernel_modules.cancel_execution());
    }
}

#[test]
fn parse_display_name_with_file_column() {
    let r = parse_module_line("abc 1024 2 xyz,def, Live 0x0 [file]").unwrap();
    assert_eq!("abc [file]", r.name);
    let r = parse_module_line("abc 1024 2 xyz,def, Live 0x0").unwrap();
    assert_eq!("abc", r.name);
    assert_eq!("1.0 KB", r.size);
    assert_eq!("2", r.use_count);
    assert_eq!("xyz,def", r.dependents);
    assert_eq!(vec!["xyz", "def"], r.dependent_list());
}

#[test]
fn parse_short_line_is_refused() {
    assert!(parse_module_line("abc 1024 2").is_none());
    assert!(parse_module_line("").is_none());
    assert_eq!(
        Err(ParseError { line: 1 }),
        parse_module_list("abc 1 0 -\nbroken line\nxyz 2 0 -").map(|v| v.len())
    );
    assert_eq!(Ok(0), parse_module_list("").map(|v| v.len()));
}

#[test]
fn sizes_are_human_readable() {
    assert_eq!("512 B", human_size(512));
    assert_eq!("1.0 KB", human_size(1024));
    assert_eq!("2.0 KB", human_size(2048));
    assert_eq!(1024, parse_size("1024"));
    assert_eq!(7, parse_size("+7"));
    assert_eq!(0, parse_size("12a"));
    assert_eq!(0, parse_size(""));
    assert_eq!(0, parse_size("+"));
    assert_eq!(u64::MAX, parse_size("18446744073709551615"));
    assert_eq!(0, parse_size("18446744073709551616"));
}

#[test]
fn refresh_reads_and_reverses() {
    let m = registry(false);
    assert_eq!(vec!["abc", "def", "xyz"], names(&m.default_list));
    assert_eq!(vec!["abc", "def", "xyz"], names(&m.list));
    assert_eq!(vec!["1.0 KB", "2.0 KB", "512 B"], m.default_list.iter().map(|r| r.size.clone()).collect::<Vec<_>>());
    assert_eq!(0, m.index);
    assert_eq!("abc", m.current_name);
    assert!(m.needs_info);
    let r = registry(true);
    assert_eq!(vec!["xyz", "def", "abc"], names(&r.default_list));
    assert_eq!("xyz", r.current_name);
}

#[test]
fn refresh_refuses_a_short_line() {
    let mut m = registry(false);
    assert_eq!(Err(ParseError { line: 0 }), m.refresh("short"));
    assert_eq!(3, m.default_list.len());
}

#[test]
fn listing_command_per_sort() {
    assert_eq!("cat /proc/modules", ListArgs::new(SortType::Unsorted, false).read_command());
    assert_eq!(
        "cat /proc/modules | sort -n -r -t ' ' -k2",
        ListArgs::new(SortType::Size, false).read_command()
    );
    assert_eq!(
        "cat /proc/modules | sort -t ' ' -k1",
        ListArgs::new(SortType::Name, true).read_command()
    );
    assert_eq!(
        "cat /proc/modules | sort -n -r -t ' ' -k3",
        ListArgs::new(SortType::Dependent, false).read_command()
    );
}

#[test]
fn search_is_case_insensitive_substring() {
    let list = vec![record("abc"), record("ABD"), record("xyz")];
    assert_eq!(vec!["abc", "ABD"], names(&filter_modules(&list, "ab")));
    assert_eq!(vec!["abc", "ABD"], names(&filter_modules(&list, "AB")));
    assert_eq!(vec!["abc", "ABD", "xyz"], names(&filter_modules(&list, "")));
    assert!(filter_modules(&list, "q").is_empty());
}

#[test]
fn next_and_previous_wrap() {
    let mut m = registry(false);
    m.index = 0;
    m.previous_module();
    assert_eq!(2, m.index);
    m.next_module();
    assert_eq!(0, m.index);
    m.next_module();
    assert_eq!(1, m.index);
    let mut empty = KernelModules::new(ListArgs::new(SortType::Unsorted, false), Unicode::new(true));
    empty.next_module();
    assert_eq!(0, empty.index);
    empty.previous_module();
    assert_eq!(0, empty.index);
    empty.scroll_list(ScrollDirection::Up);
    assert_eq!(0, empty.index);
}

#[test]
fn scroll_list_top_bottom_and_selection() {
    let mut m = registry(false);
    m.scroll_list(ScrollDirection::Bottom);
    assert_eq!(2, m.index);
    assert_eq!("xyz", m.current_name);
    m.scroll_list(ScrollDirection::Down);
    assert_eq!(0, m.index);
    m.scroll_list(ScrollDirection::Top);
    assert_eq!(0, m.index);
    m.show_module_info(Err(String::from("gone")));
    assert_eq!("module information not available", m.current_info);
    assert_eq!(InfoKind::ModuleInfo, m.info_kind);
    assert!(!m.needs_info);
}

#[test]
fn jump_to_dependent_module() {
    let mut m = registry(false);
    m.show_used_module(0);
    assert_eq!(2, m.index);
    assert_eq!("xyz", m.current_name);
    m.show_used_module(0);
    assert_eq!(0, m.index);
    m.show_used_module(1);
    assert_eq!(1, m.index);
    m.show_used_module(0);
    assert_eq!(1, m.index);
    m.scroll_list(ScrollDirection::Top);
    m.show_used_module(5);
    assert_eq!(0, m.index);
}

#[test]
fn staging_then_confirming_clears_the_stage() {
    let mut m = registry(false);
    m.set_current_command(ModuleCommand::Unload, String::new());
    assert_eq!(ModuleCommand::Unload, m.command);
    assert_eq!(InfoKind::Confirm, m.info_kind);
    assert_eq!("modprobe -r abc || rmmod abc", m.current_info);
    assert!(m.execute_command(Ok(())));
    assert_eq!(ModuleCommand::Idle, m.command);
    assert!(!m.execute_command(Ok(())));
}

#[test]
fn staging_then_cancelling_keeps_the_selection() {
    let mut m = registry(false);
    m.scroll_list(ScrollDirection::Down);
    m.show_module_info(Ok(String::from("x")));
    m.set_current_command(ModuleCommand::Blacklist, String::new());
    assert!(m.cancel_execution());
    assert_eq!(ModuleCommand::Idle, m.command);
    assert_eq!(1, m.index);
    assert_eq!("def", m.current_name);
    assert!(!m.cancel_execution());
}

#[test]
fn staging_is_refused_on_a_page_or_with_a_space() {
    let mut m = registry(false);
    m.set_current_command(ModuleCommand::Load, String::from("two words"));
    assert_eq!(ModuleCommand::Idle, m.command);
    m.current_name = String::from("!Help");
    m.set_current_command(ModuleCommand::Unload, String::new());
    assert_eq!(ModuleCommand::Idle, m.command);
    assert_eq!("!Help", m.current_name);
}

#[test]
fn failed_execution_shows_the_error() {
    let mut m = registry(false);
    m.set_current_command(ModuleCommand::Unload, String::from("abc"));
    assert!(!m.execute_command(Err(String::from("permission denied"))));
    assert_eq!("!Error", m.current_name);
    assert_eq!(
        "Execution Error\n'modprobe -r abc || rmmod abc'\npermission denied",
        m.current_info
    );
    assert_eq!(InfoKind::ExecError, m.info_kind);
    assert_eq!(ModuleCommand::Idle, m.command);
}

#[test]
fn module_info_scrolling() {
    let mut m = registry(false);
    m.show_module_info(Ok(String::from("a: 1\nb: 2\nc: 3")));
    assert_eq!(3, m.info_lines);
    m.scroll_mod_info(ScrollDirection::Down, false);
    assert_eq!(2, m.info_scroll_offset);
    m.scroll_mod_info(ScrollDirection::Down, false);
    m.scroll_mod_info(ScrollDirection::Down, false);
    assert_eq!(0, m.info_scroll_offset);
    m.scroll_mod_info(ScrollDirection::Down, true);
    m.scroll_mod_info(ScrollDirection::Up, false);
    assert_eq!(1, m.info_scroll_offset);
    m.scroll_mod_info(ScrollDirection::Up, true);
    assert_eq!(0, m.info_scroll_offset);
}

#[test]
fn filter_clamps_selection() {
    let mut m = registry(false);
    m.scroll_list(ScrollDirection::Bottom);
    m.apply_filter("AB");
    assert_eq!(vec!["abc"], names(&m.list));
    assert_eq!(0, m.index);
    m.apply_filter("");
    assert_eq!(3, m.list.len());
}

#[test]
fn module_info_breaks_signature_line() {
    let mut m = registry(false);
    m.show_module_info(Ok(String::from("name: abc\nsignature: 01:02")));
    assert_eq!("name: abc\nsignature: \n01:02", m.current_info);
    assert_eq!(3, m.info_lines);
}
