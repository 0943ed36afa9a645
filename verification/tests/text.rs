use kolloquy::text::{
    clone_strings, contains_string, decimal, drop_prefix, join, remove_all, split, split_list,
    strip_at,
};

fn strings(v: &[&str]) -> Vec<String> {
    v.iter().map(|s| s.to_string()).collect()
}

#[test]
fn decimal_writes_as_std_does() {
    for n in [0i64, 1, 9, 10, 11, 99, 100, 12345, -1, -10, -987, i64::MAX, i64::MIN] {
        assert_eq!(decimal(n), n.to_string());
    }
    assert_eq!(decimal(i64::MIN), "-9223372036854775808");
    assert_eq!(decimal(360), "360");
}

#[test]
fn join_puts_the_separator_between() {
    assert_eq!(join(&strings(&[]), ","), "");
    assert_eq!(join(&strings(&["a"]), ","), "a");
    assert_eq!(join(&strings(&["a", "b", "c"]), ","), "a,b,c");
    assert_eq!(join(&strings(&["", ""]), ","), ",");
    assert_eq!(join(&strings(&["x", "y"]), ", "), "x, y");
}

#[test]
fn split_gives_one_piece_more_than_separators() {
    assert_eq!(split("", ','), strings(&[""]));
    assert_eq!(split("a", ','), strings(&["a"]));
    assert_eq!(split("a,b", ','), strings(&["a", "b"]));
    assert_eq!(split(",a,,b,", ','), strings(&["", "a", "", "b", ""]));
    assert_eq!(split("é,ü", ','), strings(&["é", "ü"]));
    for text in ["", ",", "r1,r2,r3", "a,,b", ",,"] {
        let want: Vec<String> = text.split(',').map(|s| s.to_string()).collect();
        assert_eq!(split(text, ','), want);
    }
}

#[test]
fn remove_all_keeps_the_order_of_the_rest() {
    assert_eq!(remove_all(&strings(&["a", "b", "a", "c"]), "a"), strings(&["b", "c"]));
    assert_eq!(remove_all(&strings(&["a", "b"]), "z"), strings(&["a", "b"]));
    assert_eq!(remove_all(&strings(&[]), "z"), strings(&[]));
    assert_eq!(remove_all(&strings(&["z", "z"]), "z"), strings(&[]));
}

#[test]
fn contains_and_clone() {
    let v = strings(&["r1", "r2"]);
    assert!(contains_string(&v, "r2"));
    assert!(!contains_string(&v, "r"));
    assert!(!contains_string(&strings(&[]), ""));
    assert_eq!(clone_strings(&v), v);
}

#[test]
fn prefixes_and_handles() {
    assert_eq!(drop_prefix("SSID=abc", 5), Some("abc".to_string()));
    assert_eq!(drop_prefix("SSID=", 5), Some(String::new()));
    assert_eq!(drop_prefix("SSI", 5), None);
    assert_eq!(strip_at("@name"), "name");
    assert_eq!(strip_at("name"), "name");
    assert_eq!(strip_at("@@name"), "@name");
    assert_eq!(strip_at(""), "");
    assert_eq!(strip_at("@"), "");
}

#[test]
fn a_list_is_read_as_it_was_written() {
    assert_eq!(split_list("", ','), strings(&[]));
    assert_eq!(split_list("a", ','), strings(&["a"]));
    assert_eq!(split_list("a,b", ','), strings(&["a", "b"]));
    assert_eq!(split_list(",", ','), strings(&["", ""]));
    for items in [vec![], vec!["r1"], vec!["r1", "r2", "r3"], vec!["é", "ab12cde"]] {
        let written = join(&strings(&items), ",");
        assert_eq!(split_list(&written, ','), strings(&items));
    }
}
