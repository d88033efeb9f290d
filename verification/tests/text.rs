use bath::text::{
    chars_of, concat_str, contains_ignoring_case, contains_text, decimal, filter_accepts,
    find_with_prefix, join, lines, order_by_name, pad_left, pad_right, split, starts_with_text,
    string_of, strip_prefixes, take_first, text_before, trim, trim_all_nonempty, trim_start,
};

fn strings(items: &[&str]) -> Vec<String> {
    items.iter().map(|s| s.to_string()).collect()
}

#[test]
fn join_puts_the_separator_between_parts_only() {
    assert_eq!(join(&strings(&[]), ":"), "");
    assert_eq!(join(&strings(&["a"]), ":"), "a");
    assert_eq!(join(&strings(&["a", "b"]), ":"), "a:b");
    assert_eq!(join(&strings(&["a", "b", "c"]), ", "), "a, b, c");
    assert_eq!(join(&strings(&["a", "", "c"]), ":"), "a::c");
    assert_eq!(join(&strings(&["", ""]), ":"), ":");
    assert_eq!(join(&strings(&["a", "b"]), ""), "ab");
}

#[test]
fn join_agrees_with_the_standard_join() {
    let cases: [&[&str]; 5] = [&[], &["x"], &["x", "y"], &["", "y", ""], &["a b", "c"]];
    for parts in cases {
        for sep in ["", " ", ":", "::", "\n"] {
            let owned = strings(parts);
            assert_eq!(join(&owned, sep), owned.join(sep));
        }
    }
}

#[test]
fn chars_and_back() {
    assert_eq!(chars_of(""), Vec::<char>::new());
    assert_eq!(chars_of("a\u{e9}\u{1f600}"), vec!['a', '\u{e9}', '\u{1f600}']);
    let chars = chars_of("hello world");
    assert_eq!(string_of(&chars, 0, 5), "hello");
    assert_eq!(string_of(&chars, 6, 11), "world");
    assert_eq!(string_of(&chars, 3, 3), "");
}

#[test]
fn contains_text_finds_a_text_anywhere() {
    assert!(contains_text("", ""));
    assert!(contains_text("abc", ""));
    assert!(contains_text("abc", "a"));
    assert!(contains_text("abc", "bc"));
    assert!(contains_text("abc", "abc"));
    assert!(!contains_text("abc", "abcd"));
    assert!(!contains_text("abc", "ac"));
    assert!(!contains_text("", "a"));
    assert!(contains_text("aab", "ab"));
    assert!(contains_text("caf\u{e9} au lait", "\u{e9} au"));
    assert!(!contains_text("abc", "B"));
}

#[test]
fn starts_with_text_looks_at_the_beginning_only() {
    assert!(starts_with_text("", ""));
    assert!(starts_with_text("use x", "use "));
    assert!(starts_with_text("use ", "use "));
    assert!(!starts_with_text("use", "use "));
    assert!(!starts_with_text(" use x", "use "));
    assert!(!starts_with_text("xuse ", "use "));
}

#[test]
fn contains_ignoring_case_lowers_both_sides() {
    assert!(contains_ignoring_case("CFLAGS", "flag"));
    assert!(contains_ignoring_case("cflags", "FLAG"));
    assert!(contains_ignoring_case("LD_LIBRARY_PATH", "library"));
    assert!(!contains_ignoring_case("CFLAGS", "path"));
    assert!(contains_ignoring_case("\u{c9}cole", "\u{e9}c"));
    assert!(contains_ignoring_case("anything", ""));
}

#[test]
fn filter_accepts_everything_for_an_empty_query() {
    assert!(filter_accepts("PATH", ""));
    assert!(filter_accepts("", ""));
    assert!(filter_accepts("PATH", "pa"));
    assert!(filter_accepts("path", "PA"));
    assert!(!filter_accepts("PATH", "x"));
}

#[test]
fn text_before_is_the_order_of_strings() {
    let words = [
        "", "A", "AR", "B", "CC", "CFLAGS", "CPATH", "CXX", "a", "ab", "abc", "b", "\u{e9}",
        "\u{1f600}",
    ];
    for a in words {
        for b in words {
            assert_eq!(text_before(a, b), a < b, "{a:?} < {b:?}");
        }
    }
}

#[test]
fn order_by_name_is_a_stable_sort() {
    let names = strings(&["b", "a", "c", "a", "B", ""]);
    let order = order_by_name(&names);
    assert_eq!(order, vec![5, 4, 1, 3, 0, 2]);
    let mut expected: Vec<usize> = (0..names.len()).collect();
    expected.sort_by(|x, y| names[*x].cmp(&names[*y]));
    assert_eq!(order, expected);
    assert_eq!(order_by_name(&strings(&[])), Vec::<usize>::new());
    assert_eq!(order_by_name(&strings(&["only"])), vec![0]);
}

#[test]
fn trim_takes_white_space_off_both_ends() {
    assert_eq!(trim(""), "");
    assert_eq!(trim("   "), "");
    assert_eq!(trim("  a b  "), "a b");
    assert_eq!(trim("\t\na\r\n"), "a");
    assert_eq!(trim("\u{a0}x\u{3000}"), "x");
    assert_eq!(trim("x"), "x");
    for s in ["", " ", " a", "a ", " a b \t", "\u{2003}wide\u{2003}"] {
        assert_eq!(trim(s), s.trim());
        assert_eq!(trim_start(s), s.trim_start());
    }
}

#[test]
fn trim_start_keeps_the_end() {
    assert_eq!(trim_start("  a  "), "a  ");
    assert_eq!(trim_start("a  "), "a  ");
    assert_eq!(trim_start("   "), "");
}

#[test]
fn strip_prefixes_takes_every_leading_copy() {
    assert_eq!(strip_prefixes("use x", "use "), "x");
    assert_eq!(strip_prefixes("use use x", "use "), "x");
    assert_eq!(strip_prefixes("use ", "use "), "");
    assert_eq!(strip_prefixes("user", "use "), "user");
    assert_eq!(strip_prefixes("x use ", "use "), "x use ");
    assert_eq!(strip_prefixes("abc", ""), "abc");
    assert_eq!(strip_prefixes("aaa", "a"), "");
    for s in ["use x", "use use  y", "theme use ", ""] {
        assert_eq!(strip_prefixes(s, "use "), s.trim_start_matches("use "));
    }
}

#[test]
fn concat_writes_one_text_after_the_other() {
    assert_eq!(concat_str("", ""), "");
    assert_eq!(concat_str("a", ""), "a");
    assert_eq!(concat_str("", "b"), "b");
    assert_eq!(concat_str("profile: ", "work"), "profile: work");
}

#[test]
fn decimal_writes_numbers_without_leading_zeros() {
    assert_eq!(decimal(0), "0");
    assert_eq!(decimal(7), "7");
    assert_eq!(decimal(10), "10");
    assert_eq!(decimal(42), "42");
    assert_eq!(decimal(100), "100");
    assert_eq!(decimal(1234567890), "1234567890");
    assert_eq!(decimal(usize::MAX), usize::MAX.to_string());
}

#[test]
fn split_keeps_empty_pieces() {
    assert_eq!(split("", ','), strings(&[""]));
    assert_eq!(split("a", ','), strings(&["a"]));
    assert_eq!(split("a,b", ','), strings(&["a", "b"]));
    assert_eq!(split(",a,,b,", ','), strings(&["", "a", "", "b", ""]));
    for s in ["", ",", "a,b,c", " a , b ", ",,"] {
        let expected: Vec<String> = s.split(',').map(|p| p.to_string()).collect();
        assert_eq!(split(s, ','), expected);
    }
}

#[test]
fn trim_all_nonempty_drops_what_is_blank() {
    assert_eq!(
        trim_all_nonempty(&strings(&[" a ", "", "  ", "b", "\tc d\n"])),
        strings(&["a", "b", "c d"])
    );
    assert_eq!(trim_all_nonempty(&strings(&[])), Vec::<String>::new());
}

#[test]
fn padding_fills_up_with_spaces() {
    assert_eq!(pad_right("ab", 5), "ab   ");
    assert_eq!(pad_right("abcde", 5), "abcde");
    assert_eq!(pad_right("abcdef", 5), "abcdef");
    assert_eq!(pad_right("", 0), "");
    assert_eq!(pad_left("7", 3), "  7");
    assert_eq!(pad_left("1234", 3), "1234");
    assert_eq!(pad_left("\u{e9}", 3), "  \u{e9}");
    assert_eq!(pad_right("PATH", 18), format!("{:<18}", "PATH"));
    assert_eq!(pad_left("12", 3), format!("{:>3}", "12"));
}

#[test]
fn lines_end_at_line_feeds() {
    assert_eq!(lines(""), Vec::<String>::new());
    assert_eq!(lines("a"), strings(&["a"]));
    assert_eq!(lines("a\n"), strings(&["a"]));
    assert_eq!(lines("a\nb"), strings(&["a", "b"]));
    assert_eq!(lines("a\r\nb\r\n"), strings(&["a", "b"]));
    assert_eq!(lines("\n\na"), strings(&["", "", "a"]));
    assert_eq!(lines("a\n\n"), strings(&["a", ""]));
    for s in ["", "\n", "x\ny\nz", "x\r\ny", "one\n\ntwo\n", "\r\n"] {
        let expected: Vec<String> = s.lines().map(|l| l.to_string()).collect();
        assert_eq!(lines(s), expected, "{s:?}");
    }
}

#[test]
fn find_with_prefix_gives_the_first_match_or_nothing() {
    let all = strings(&["export A=\"1\";", "export PATH=\"x\";", "export PATH=\"y\";"]);
    assert_eq!(find_with_prefix(&all, "export PATH="), "export PATH=\"x\";");
    assert_eq!(find_with_prefix(&all, "export A="), "export A=\"1\";");
    assert_eq!(find_with_prefix(&all, "export B="), "");
    assert_eq!(find_with_prefix(&strings(&[]), "x"), "");
}

#[test]
fn take_first_stops_at_the_end() {
    let all = strings(&["a", "b", "c"]);
    assert_eq!(take_first(&all, 0), Vec::<String>::new());
    assert_eq!(take_first(&all, 2), strings(&["a", "b"]));
    assert_eq!(take_first(&all, 3), all);
    assert_eq!(take_first(&all, 12), all);
}
