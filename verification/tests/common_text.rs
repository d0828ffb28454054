use rust_pets::text::{
    emphasis_pieces, position_in, same_text, sorted_texts, text_le, trim_end_matches_char,
};

#[test]
fn same_text_compares_characters() {
    assert!(same_text("idle", "idle"));
    assert!(!same_text("idle", "idle "));
    assert!(same_text("", ""));
    assert!(same_text("놀아줘", "놀아줘"));
}

#[test]
fn position_in_finds_first_entry() {
    let entries = vec![
        ("wave".to_string(), 1u32),
        ("idle".to_string(), 2u32),
        ("wave".to_string(), 3u32),
    ];
    assert_eq!(position_in(&entries, "wave"), Some(0));
    assert_eq!(position_in(&entries, "idle"), Some(1));
    assert_eq!(position_in(&entries, "sleep"), None);
}

#[test]
fn trim_end_matches_char_removes_only_trailing_copies() {
    assert_eq!(trim_end_matches_char("hello\n\n", '\n'), "hello");
    assert_eq!(trim_end_matches_char("\nhello", '\n'), "\nhello");
    assert_eq!(trim_end_matches_char("////", '/'), "");
    assert_eq!(trim_end_matches_char("", '/'), "");
    assert_eq!(trim_end_matches_char("a/b/", '/'), "a/b");
}

#[test]
fn text_le_follows_string_order() {
    let samples = ["", "a", "ab", "b", "wave", "walk", "idle", "가", "Z", "zz"];
    for a in samples.iter() {
        for b in samples.iter() {
            assert_eq!(text_le(a, b), a.to_string() <= b.to_string(), "{} vs {}", a, b);
        }
    }
}

#[test]
fn sorted_texts_sorts_and_keeps_every_name() {
    let names: Vec<String> = ["walk", "idle", "wave", "bonk", "idle", "agi_box"]
        .iter()
        .map(|s| s.to_string())
        .collect();
    let sorted = sorted_texts(&names);
    let mut expected = names.clone();
    expected.sort();
    assert_eq!(sorted, expected);
    assert!(sorted_texts(&Vec::new()).is_empty());
}

#[test]
fn emphasis_pieces_split_at_double_stars() {
    let pieces = emphasis_pieces("hello **world** and **you**!");
    let expected = vec![
        ("hello ".to_string(), false),
        ("world".to_string(), true),
        (" and ".to_string(), false),
        ("you".to_string(), true),
        ("!".to_string(), false),
    ];
    assert_eq!(pieces, expected);
    assert_eq!(emphasis_pieces(""), vec![(String::new(), false)]);
    assert_eq!(
        emphasis_pieces("***"),
        vec![(String::new(), false), ("*".to_string(), true)]
    );
    for text in ["a**b", "**", "x", "**a****b**", "별**표**"] {
        let got: Vec<String> = emphasis_pieces(text).into_iter().map(|p| p.0).collect();
        let want: Vec<String> = text.split("**").map(|s| s.to_string()).collect();
        assert_eq!(got, want, "{}", text);
    }
}

#[test]
fn trimming_twice_is_trimming_once() {
    for s in ["a//", "//", "", "x/y", "/a/"] {
        let once = trim_end_matches_char(s, '/');
        assert_eq!(trim_end_matches_char(&once, '/'), once);
        assert_eq!(once, s.trim_end_matches('/'));
        assert!(s.starts_with(once.as_str()));
    }
}
