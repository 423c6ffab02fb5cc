use kmon::app::ScrollDirection;
use kmon::log::{crop_line, first_line, KernelLogs};

fn sample_log() -> String {
    let mut s = String::new();
    for i in 0..20 {
        s.push_str(&format!("[    {i}.000000] line number {i}\n"));
    }
    s
}

#[test]
fn test_kernel_logs() {
    let mut kernel_logs = KernelLogs::new();
    for direction in ScrollDirection::iter()
        .iter()
        .rev()
        .chain(ScrollDirection::iter().iter())
    {
        kernel_logs.scroll(*direction, *direction == ScrollDirection::Top);
    }
    assert!(kernel_logs.update(sample_log()));
    assert_ne!(0, kernel_logs.output.lines().count());
    assert_ne!(0, kernel_logs.select(10, 2).len());
}

#[test]
fn update_only_on_new_head_line() {
    let mut logs = KernelLogs::new();
    assert!(logs.update(String::from("first\nsecond")));
    assert_eq!("first\nsecond", logs.output);
    assert!(!logs.update(String::from("first\nsecond\nthird")));
    assert_eq!("first\nsecond", logs.output);
    assert!(logs.update(String::from("other\nsecond")));
    assert_eq!("other\nsecond", logs.output);
    assert!(!logs.update(String::from("other")));
    assert_eq!("other\nsecond", logs.output);
}

#[test]
fn update_of_empty_text_on_empty_log() {
    let mut logs = KernelLogs::new();
    assert!(!logs.update(String::new()));
    assert_eq!("", logs.output);
}

#[test]
fn refresh_resets_offsets() {
    let mut logs = KernelLogs::new();
    logs.update(sample_log());
    logs.scroll(ScrollDirection::Up, true);
    logs.scroll(ScrollDirection::Right, false);
    logs.refresh(String::from("fresh\nlog"));
    assert_eq!(0, logs.index);
    assert_eq!(0, logs.crop_offset);
    assert_eq!("fresh\nlog", logs.output);
    assert_eq!("fresh", logs.last_line);
}

#[test]
fn select_keeps_viewport_at_end() {
    let mut logs = KernelLogs::new();
    logs.update(String::from("a\nb\nc\nd\ne"));
    assert_eq!("c\nd\ne\n", logs.select(5, 2));
    logs.scroll(ScrollDirection::Up, true);
    assert_eq!("b\nc\nd\ne\n", logs.select(5, 2));
    assert_eq!("a\nb\nc\nd\ne\n", logs.select(1, 2));
    assert_eq!(logs.selected_output, "a\nb\nc\nd\ne\n");
}

#[test]
fn select_crops_by_characters() {
    let mut logs = KernelLogs::new();
    logs.update(String::from("0123456789abcdef\nshort"));
    logs.scroll(ScrollDirection::Right, false);
    assert_eq!("abcdef\n\n", logs.select(10, 2));
    logs.scroll(ScrollDirection::Left, false);
    logs.scroll(ScrollDirection::Left, false);
    assert_eq!(0, logs.crop_offset);
}

#[test]
fn scroll_steps_and_bounds() {
    let mut logs = KernelLogs::new();
    logs.update(String::from("1\n2\n3\n4"));
    logs.scroll(ScrollDirection::Up, false);
    assert_eq!(3, logs.index);
    logs.scroll(ScrollDirection::Up, false);
    assert_eq!(3, logs.index);
    logs.scroll(ScrollDirection::Up, true);
    assert_eq!(4, logs.index);
    logs.scroll(ScrollDirection::Up, true);
    assert_eq!(4, logs.index);
    logs.scroll(ScrollDirection::Down, false);
    assert_eq!(1, logs.index);
    logs.scroll(ScrollDirection::Down, false);
    assert_eq!(0, logs.index);
    logs.crop_offset = usize::MAX - 5;
    logs.scroll(ScrollDirection::Right, false);
    assert_eq!(0, logs.crop_offset);
    logs.scroll(ScrollDirection::Right, false);
    assert_eq!(10, logs.crop_offset);
}

#[test]
fn crop_multibyte_lines() {
    let line = "héllo wörld ⚡ kernel";
    let n = line.chars().count();
    for k in 0..=n + 2 {
        let cropped = crop_line(line, k);
        let expected: String = line.chars().skip(k).collect();
        assert_eq!(expected, cropped);
    }
    assert_eq!("ö⚡", crop_line("ä ö⚡", 2));
    assert_eq!("", crop_line("⚡", 1));
}

#[test]
fn first_line_of_text() {
    assert_eq!("a", first_line("a\r\nb"));
    assert_eq!("", first_line(""));
    assert_eq!("", first_line("\nx"));
}

#[test]
fn refresh_takes_an_empty_log() {
    let mut logs = KernelLogs::new();
    logs.update(sample_log());
    logs.refresh(String::new());
    assert_eq!("", logs.output);
    assert_eq!("", logs.last_line);
    logs.refresh(String::from("\nsecond"));
    assert_eq!("\nsecond", logs.output);
    assert_eq!("", logs.last_line);
}
