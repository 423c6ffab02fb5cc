use kmon::color::{get_color, Color};
use kmon::view::{list_position, popup_percent, table_offset, used_by_column};
use kmon::text::{
    chars_of, contains_text, lines, name_matches, replace_text, split_at_char, split_label, string_of,
    trim, words,
};

#[test]
fn label_split_at_first_delimiter() {
    assert_eq!(
        Some((String::from("filename:"), String::from("       /lib/x.ko"))),
        split_label("filename:       /lib/x.ko", ":")
    );
    assert_eq!(
        Some((String::from("sig:"), String::from(" a:b"))),
        split_label("sig: a:b", ":")
    );
    assert_eq!(
        Some((String::from("[   12.3] "), String::from("usb 1-1: new device"))),
        split_label("[   12.3] usb 1-1: new device", "] ")
    );
}

#[test]
fn label_split_needs_a_long_label() {
    assert_eq!(None, split_label("ab: x", ":"));
    assert_eq!(None, split_label("   ab   : x", ":"));
    assert_eq!(None, split_label("no delimiter here", ":"));
    assert_eq!(None, split_label("é: x", ":"));
    assert_eq!(
        Some((String::from("éé:"), String::from(" x"))),
        split_label("éé: x", ":")
    );
}

#[test]
fn lines_follow_std() {
    for text in ["", "a", "a\n", "a\r\nb", "a\n\nb\n", "x\r", "\n\n", "é\nü"] {
        let expected: Vec<String> = text.lines().map(String::from).collect();
        assert_eq!(expected, lines(text));
    }
}

#[test]
fn words_follow_std() {
    for text in ["", "  a  b\tc\n", "abc", "a\u{3000}b", "  "] {
        let expected: Vec<String> = text.split_whitespace().map(String::from).collect();
        assert_eq!(expected, words(text));
    }
}

#[test]
fn split_keeps_empty_pieces() {
    assert_eq!(vec!["a", "b", ""], split_at_char("a,b,", ','));
    assert_eq!(vec![""], split_at_char("", ','));
    assert_eq!(vec!["-"], split_at_char("-", ','));
}

#[test]
fn chars_round_trip() {
    let s = "kmon ⚡ é";
    assert_eq!(s, string_of(&chars_of(s)));
}

#[test]
fn colors_by_name_or_hex() {
    assert_eq!(Color::Red, get_color(Some("RED"), Color::White));
    assert_eq!(Color::LightCyan, get_color(Some("lightcyan"), Color::White));
    assert_eq!(Color::Rgb(255, 0, 16), get_color(Some("ff0010"), Color::White));
    assert_eq!(Color::Rgb(255, 255, 255), get_color(Some("fff"), Color::Black));
    assert_eq!(Color::DarkGray, get_color(Some("not-a-color"), Color::DarkGray));
    assert_eq!(Color::White, get_color(None, Color::White));
}

#[test]
fn trim_both_ends() {
    assert_eq!("a b", trim("  a b \n\t"));
    assert_eq!("", trim("   "));
    assert_eq!("x", trim("x"));
}

#[test]
fn table_figures() {
    assert_eq!(0, table_offset(10, 4));
    assert_eq!(0, table_offset(10, 5));
    assert_eq!(3, table_offset(10, 8));
    assert_eq!(0, table_offset(3, 8));
    assert_eq!("2 xyz,def", used_by_column("2", "xyz,def", 20));
    assert_eq!("2 xyz...", used_by_column("2", "xyz,def", 5));
    assert_eq!((0, 0), list_position(0, 0));
    assert_eq!((1, 33), list_position(0, 3));
    assert_eq!((3, 100), list_position(2, 3));
    assert_eq!(40, popup_percent(10, 5, 10, 40));
    assert_eq!(25, popup_percent(40, 5, 10, 40));
    assert_eq!(60, popup_percent(0, 2, 3, 60));
}

#[test]
fn search_name_test() {
    let names = ["abc", "ABD", "xyz"];
    let kept: Vec<&str> = names
        .iter()
        .copied()
        .filter(|n| name_matches(&n.to_lowercase(), &"ab".to_lowercase()))
        .collect();
    assert_eq!(vec!["abc", "ABD"], kept);
    assert!(name_matches("abc", ""));
    assert!(!name_matches("ab", "abc"));
    assert!(contains_text("xx Dependent modules of y", "Dependent modules"));
}

#[test]
fn replace_signature_field() {
    assert_eq!(
        "sig\nsignature: \nAB:CD\nsignature: \nEF",
        replace_text("sig\nsignature: AB:CD\nsignature: EF", "signature: ", "signature: \n")
    );
    assert_eq!("aaa", replace_text("aaa", "b", "c"));
    assert_eq!("xa", replace_text("aaa", "aa", "x"));
}

#[test]
fn used_by_column_counts_bytes() {
    assert_eq!("1 é...", used_by_column("1", "éé", 4));
    assert_eq!("1 ...", used_by_column("1", "éé", 3));
    assert_eq!("1 éé", used_by_column("1", "éé", 6));
}
