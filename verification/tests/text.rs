use zap_rs::text::{
    chars_of, contains_chars, ends_with_chars, file_stem, find_char, find_extension, find_from,
    has_extension, is_space_char, last_part, line_ranges, matches_at, rfind_char, same_text,
    trim_range,
};

fn lines_of(text: &str) -> Vec<String> {
    let chars = chars_of(text);
    line_ranges(&chars)
        .iter()
        .map(|r| chars[r.0..r.1].iter().collect::<String>())
        .collect()
}

fn trimmed(text: &str) -> String {
    let chars = chars_of(text);
    let r = trim_range(&chars);
    chars[r.0..r.1].iter().collect()
}

#[test]
fn chars_of_counts_characters_not_bytes() {
    assert_eq!(chars_of("aé").len(), 2);
    assert_eq!(chars_of(""), Vec::<char>::new());
    assert_eq!(chars_of("a/b"), vec!['a', '/', 'b']);
}

#[test]
fn find_char_gives_the_first_position() {
    let v = chars_of("a=b=c");
    assert_eq!(find_char(&v, '='), Some(1));
    assert_eq!(find_char(&v, 'x'), None);
    assert_eq!(find_from(&v, '=', 2), Some(3));
    assert_eq!(find_from(&v, '=', 4), None);
    assert_eq!(find_from(&v, '=', 5), None);
    assert_eq!(find_from(&v, '=', 6), None);
}

#[test]
fn rfind_char_gives_the_last_position() {
    let v = chars_of("a/b/c");
    assert_eq!(rfind_char(&v, '/'), Some(3));
    assert_eq!(rfind_char(&v, 'a'), Some(0));
    assert_eq!(rfind_char(&v, 'x'), None);
    assert_eq!(rfind_char(&chars_of(""), '/'), None);
}

#[test]
fn contains_chars_agrees_with_std() {
    let cases = [
        ("Exec=foo", "Exec=", true),
        ("TryExec=foo", "Exec=", true),
        ("Exec", "Exec=", false),
        ("", "Exec=", false),
        ("abc", "", true),
        ("", "", true),
        ("xxExec", "Exec=", false),
        ("Exe=Exec=", "Exec=", true),
    ];
    for (text, pat, expected) in cases {
        assert_eq!(contains_chars(&chars_of(text), &chars_of(pat)), expected, "{text:?} {pat:?}");
        assert_eq!(text.contains(pat), expected);
    }
}

#[test]
fn matches_at_checks_one_position() {
    let v = chars_of("abcabc");
    let p = chars_of("bc");
    assert!(matches_at(&v, &p, 1));
    assert!(matches_at(&v, &p, 4));
    assert!(!matches_at(&v, &p, 0));
    assert!(!matches_at(&v, &p, 5));
    assert!(!matches_at(&v, &p, 100));
}

#[test]
fn ends_with_chars_agrees_with_std() {
    let cases = [
        ("app.appimage", ".appimage", true),
        (".appimage", ".appimage", true),
        ("appimage", ".appimage", false),
        ("app.appimage.zip", ".appimage", false),
        ("", ".appimage", false),
        ("abc", "", true),
    ];
    for (text, suffix, expected) in cases {
        assert_eq!(ends_with_chars(&chars_of(text), &chars_of(suffix)), expected);
        assert_eq!(text.ends_with(suffix), expected);
    }
}

#[test]
fn same_text_compares_characters() {
    assert!(same_text("abc", "abc"));
    assert!(!same_text("abc", "abd"));
    assert!(!same_text("abc", "ab"));
    assert!(same_text("", ""));
}

#[test]
fn line_ranges_agree_with_std_lines() {
    let cases = [
        "",
        "a",
        "a\n",
        "a\nb",
        "a\n\nb",
        "\n",
        "\n\n",
        "a\r\nb\r\n",
        "a\r",
        "a\r\n",
        "\r\n",
        "a\rb\nc",
        "a\r\r\nb",
        "[Desktop Entry]\nName=App\nExec=app %U\nIcon=app\n",
    ];
    for text in cases {
        let expected: Vec<String> = text.lines().map(|l| l.to_string()).collect();
        assert_eq!(lines_of(text), expected, "{text:?}");
    }
}

#[test]
fn is_space_char_agrees_with_std_on_every_character() {
    let mut c = 0u32;
    while c <= 0x10ffff {
        if let Some(ch) = char::from_u32(c) {
            assert_eq!(is_space_char(ch), ch.is_whitespace(), "U+{c:04X}");
        }
        c += 1;
    }
}

#[test]
fn trim_range_agrees_with_std_trim() {
    let cases = ["", " ", "  \n", "y", " y", "y\n", "  yes \r\n", "a b", "\u{3000}x\u{a0}", " a  b  "];
    for text in cases {
        assert_eq!(trimmed(text), text.trim(), "{text:?}");
    }
}

#[test]
fn has_extension_agrees_with_std_path() {
    let names = ["app.png", "app.PNG", "app", ".png", "a.b.png", "png", "app.png.bak", "..", "a.", "", "x.desktop", ".hidden.desktop"];
    for name in names {
        for ending in ["png", "desktop", ""] {
            let expected = std::path::Path::new(name).extension() == Some(ending.as_ref());
            assert_eq!(has_extension(name, ending), expected, "{name:?} {ending:?}");
        }
    }
}

#[test]
fn file_stem_agrees_with_std_path() {
    let names = ["myapp.json", "myapp", ".json", "a.b.json", "a.", "x.y.z"];
    for name in names {
        let expected = std::path::Path::new(name).file_stem().unwrap().to_str().unwrap().to_string();
        assert_eq!(file_stem(name), expected, "{name:?}");
    }
    assert_eq!(file_stem(""), "");
    assert_eq!(file_stem(".."), "..");
}

#[test]
fn find_extension_gives_the_first_match_from_a_position() {
    let names: Vec<String> = ["a.txt", "b.png", "c.desktop", "d.png"].iter().map(|s| s.to_string()).collect();
    assert_eq!(find_extension(&names, 0, "png"), 1);
    assert_eq!(find_extension(&names, 2, "png"), 3);
    assert_eq!(find_extension(&names, 0, "desktop"), 2);
    assert_eq!(find_extension(&names, 3, "desktop"), 4);
    assert_eq!(find_extension(&names, 0, "svg"), 4);
    assert_eq!(find_extension(&names, 9, "png"), 4);
    assert_eq!(find_extension(&Vec::new(), 0, "png"), 0);
}

#[test]
fn last_part_is_what_follows_the_last_separator() {
    assert_eq!(last_part("a/b/c", '/'), "c");
    assert_eq!(last_part("abc", '/'), "abc");
    assert_eq!(last_part("a/", '/'), "");
    assert_eq!(last_part("", '/'), "");
    assert_eq!(last_part("/", '/'), "");
    assert_eq!(last_part("https://example.com/App.AppImage", '/'), "App.AppImage");
}
