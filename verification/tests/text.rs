use vmize::order;
use vmize::path::{
    components, extension, file_name, has_cur_dir, has_parent_dir, is_absolute, join, parent,
    with_file_name, Component, PathKind,
};
use vmize::shell::shell_quote;
use vmize::text;

fn strings(list: &[&str]) -> Vec<String> {
    list.iter().map(|s| s.to_string()).collect()
}

/// Texts with every kind of character that the functions tell apart.
fn samples() -> Vec<&'static str> {
    vec![
        "",
        " ",
        "a",
        "  a b\t",
        "\u{85}x\u{a0}",
        "\u{3000}한글\u{2009}",
        "a=b=c",
        "one\ntwo\r\nthree\r",
        "\n\n",
        "A1_b-C",
        "a\u{200b}",
    ]
}

#[test]
fn texts_are_trimmed_and_cut_as_std_does() {
    for s in samples() {
        assert_eq!(text::trim(s), s.trim());
        assert_eq!(text::trim_left(s), s.trim_start());
        assert_eq!(text::is_blank(s), s.trim().is_empty());
        assert_eq!(text::lines(s), s.lines().collect::<Vec<_>>());
        assert_eq!(text::split(s, '\n'), s.split('\n').collect::<Vec<_>>());
        let cut = s.split_once('=').map(|(a, b)| (a.to_string(), b.to_string()));
        assert_eq!(text::split_once(s, '='), cut);
        assert_eq!(text::to_ascii_lowercase(s), s.to_ascii_lowercase());
        assert_eq!(text::replace(s, 'a', "xy"), s.replace('a', "xy"));
        for t in samples() {
            assert_eq!(text::starts_with(s, t), s.starts_with(t));
            assert_eq!(text::ends_with(s, t), s.ends_with(t));
            assert_eq!(text::contains(s, t), s.contains(t));
            assert_eq!(text::strip_prefix(s, t).as_deref(), s.strip_prefix(t));
            assert_eq!(text::strip_suffix(s, t).as_deref(), s.strip_suffix(t));
            assert_eq!(text::same(s, t), s == t);
        }
    }
}

#[test]
fn every_character_is_classified_as_std_does() {
    for n in 0..0x11000u32 {
        if let Some(c) = char::from_u32(n) {
            assert_eq!(text::is_whitespace(c), c.is_whitespace());
        }
    }
}

#[test]
fn numbers_are_written_and_read() {
    for n in [0, 7, 10, 255, 256, 65535, u64::MAX] {
        assert_eq!(text::number(n), n.to_string());
        assert_eq!(text::hex(n), format!("{n:x}"));
        assert_eq!(text::parse_unsigned(&n.to_string(), u64::MAX), Some(n));
    }
    assert_eq!(text::large_number(u128::MAX), u128::MAX.to_string());
    for s in ["", "+", "-1", "+5", "007", "1 ", "65536", "4294967295", "4294967296", "0x1"] {
        assert_eq!(text::parse_unsigned(s, u32::MAX as u64), s.parse::<u32>().ok().map(u64::from));
    }
    assert!(text::is_all_digits("0129"));
    assert!(!text::is_all_digits("1a"));
    assert_eq!(text::pad("ab", 4), format!("{:<4}", "ab"));
    assert_eq!(text::pad("abcde", 4), format!("{:<4}", "abcde"));
    assert_eq!(text::join(&strings(&["a", "b", ""]), ", "), "a, b, ");
}

#[test]
fn paths_are_taken_apart_as_std_does() {
    for p in [
        "", "/", "//", ".", "./a", "a/.", "a/./b", "..", "../a", "/a/b/", "a//b", "a.b", ".a",
        "a.", "a/b.c.d", "/..", "a/..", "dir.d/file", "...", "/a/./", "a/b/.",
    ] {
        let std_path = std::path::Path::new(p);
        let ours: Vec<String> = components(p)
            .into_iter()
            .map(|c| match c {
                Component::RootDir => "/".to_string(),
                Component::CurDir => ".".to_string(),
                Component::ParentDir => "..".to_string(),
                Component::Normal(name) => name,
            })
            .collect();
        let theirs: Vec<String> =
            std_path.components().map(|c| c.as_os_str().to_string_lossy().to_string()).collect();
        assert_eq!(ours, theirs, "{p}");
        assert_eq!(is_absolute(p), std_path.is_absolute(), "{p}");
        assert_eq!(
            file_name(p),
            std_path.file_name().map(|n| n.to_string_lossy().to_string()),
            "{p}"
        );
        assert_eq!(
            extension(p),
            std_path.extension().map(|n| n.to_string_lossy().to_string()),
            "{p}"
        );
        assert_eq!(parent(p), std_path.parent().map(|n| n.to_string_lossy().to_string()), "{p}");
        assert_eq!(
            with_file_name(p, "new"),
            std_path.with_file_name("new").to_string_lossy().to_string(),
            "{p}"
        );
        for q in ["", "x", "/x", "x/y"] {
            assert_eq!(join(p, q), std_path.join(q).to_string_lossy().to_string(), "{p} {q}");
        }
    }
    assert!(has_cur_dir("./a") && !has_cur_dir("a/./b"));
    assert!(has_parent_dir("a/../b") && !has_parent_dir("a..b"));
}

#[test]
fn path_kinds_are_told_apart() {
    assert!(!PathKind::Missing.is_found());
    assert!(PathKind::Other.is_found() && !PathKind::Other.is_file());
    assert!(PathKind::File.is_file() && !PathKind::File.is_dir());
    assert!(PathKind::Directory.is_dir());
}

#[test]
fn lists_are_sorted_as_std_does() {
    let list = strings(&["b", "", "a", "Z", "ab", "a", "é", "한글", "\u{10000}", "\u{ffff}"]);
    let mut expected = list.clone();
    expected.sort();
    assert_eq!(order::sort(list), expected);
    assert!(order::is_not_after("a", "ab"));
    assert!(order::is_not_after("a", "a"));
    assert!(!order::is_not_after("b", "ab"));
}

#[test]
fn a_shell_reads_quoted_text_back() {
    for value in ["", "plain", "it's", "a 'b' \"c\" $d `e` \\f", "''"] {
        let quoted = shell_quote(value);
        let mut read = String::new();
        let mut quote = ' ';
        for c in quoted.chars() {
            if quote == ' ' && (c == '\'' || c == '"') {
                quote = c;
            } else if c == quote {
                quote = ' ';
            } else {
                read.push(c);
            }
        }
        assert_eq!(quote, ' ');
        assert_eq!(read, value);
    }
}
