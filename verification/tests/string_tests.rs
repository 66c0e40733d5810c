use rustmix::string::{StringEx, SPECIAL_CHARS};

fn trim(s: &str, c: char) -> &str {
    <str as StringEx>::trim(s, &c)
}

fn trim_start(s: &str, c: char) -> &str {
    <str as StringEx>::trim_start(s, &c)
}

fn trim_end(s: &str, c: char) -> &str {
    <str as StringEx>::trim_end(s, &c)
}

#[test]
fn trim_removes_both_runs() {
    assert_eq!(trim("xxabcxx", 'x'), "abc");
    assert_eq!(trim("abc", 'x'), "abc");
    assert_eq!(trim("xa", 'x'), "a");
    assert_eq!(trim("axbx", 'x'), "axb");
}

#[test]
fn trim_keeps_string_of_only_trim_chars() {
    assert_eq!(trim("xxx", 'x'), "xxx");
    assert_eq!(trim_start("xxx", 'x'), "xxx");
    assert_eq!(trim_end("xxx", 'x'), "xxx");
    assert_eq!(trim("", 'x'), "");
}

#[test]
fn trim_start_and_end() {
    assert_eq!(trim_start("//a/b//", '/'), "a/b//");
    assert_eq!(trim_end("//a/b//", '/'), "//a/b");
    assert_eq!(trim_start("a", '/'), "a");
    assert_eq!(trim_end("", '/'), "");
}

#[test]
fn trim_non_ascii_characters_cuts_at_byte_counts() {
    // The runs are counted in characters and cut as byte positions.
    assert_eq!(trim("aéé", 'é'), "aé");
    assert_eq!(trim_start("ééabc", 'é'), "éabc");
    assert_eq!(trim_end("abcéé", 'é'), "abcé");
    assert_eq!(trim("aéb", 'é'), "aéb");
    assert_eq!(trim("ééé", 'é'), "ééé");
    assert_eq!(trim("xéx", 'x'), "é");
}

#[test]
fn trim_many_removes_any_listed_char() {
    let set = ['x', 'y'];
    assert_eq!(<str as StringEx>::trim_many("xyaxbyx", &set), "axb");
    assert_eq!(<str as StringEx>::trim_start_many("yxab", &set), "ab");
    assert_eq!(<str as StringEx>::trim_end_many("abyyx", &set), "ab");
    assert_eq!(<str as StringEx>::trim_many("xyyx", &set), "xyyx");
    assert_eq!(<str as StringEx>::trim_many("abc", &[]), "abc");
    assert_eq!(<str as StringEx>::trim_many("!!hi!!", &SPECIAL_CHARS), "hi");
}

#[test]
fn trim_law_composition_and_idempotence() {
    for s in ["", "a", "xx", "xaxbx", "xxaxx", "axa", "abc"] {
        let both = trim(s, 'x');
        assert_eq!(both, trim_start(trim_end(s, 'x'), 'x'));
        assert_eq!(both, trim_end(trim_start(s, 'x'), 'x'));
        assert_eq!(trim(both, 'x'), both);
        assert_eq!(<str as StringEx>::trim_many(s, &['x']), both);
    }
}

#[test]
fn prefix_and_suffix() {
    assert_eq!(<str as StringEx>::prefix("abc", '/'), "/abc");
    assert_eq!(<str as StringEx>::prefix("/abc", '/'), "/abc");
    assert_eq!(<str as StringEx>::prefix("", '/'), "/");
    assert_eq!(<str as StringEx>::suffix("abc", '/'), "abc/");
    assert_eq!(<str as StringEx>::suffix("abc/", '/'), "abc/");
    assert_eq!(<str as StringEx>::suffix("", '/'), "/");
}

#[test]
fn prefix_and_suffix_are_idempotent() {
    for s in ["", "a", "/a", "a/", "é"] {
        let p = <str as StringEx>::prefix(s, '/');
        assert!(p.starts_with('/'));
        assert_eq!(<str as StringEx>::prefix(p.as_str(), '/'), p);
        let q = <str as StringEx>::suffix(s, '/');
        assert!(q.ends_with('/'));
        assert_eq!(<str as StringEx>::suffix(q.as_str(), '/'), q);
    }
}
