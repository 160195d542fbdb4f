//! Texts: characters, trimming, the byte offsets of a cursor, commands and encodings.
use vulnclaw_tui::clipboard::{base64_encode, clipboard_sequence, set_clipboard_command};
use vulnclaw_tui::command::{
    leading_word, normalize_backend_command, split_slash_command, strip_prompt_prefix,
    truncate_text,
};
use vulnclaw_tui::order::{comes_before, insert_sorted, sort_unique};
use vulnclaw_tui::text::{
    byte_length, caret_at, char_width, contains_text, next_char_boundary, numeral,
    previous_char_boundary, same_text, starts_with, to_ascii_lower, trim, trim_end, trim_start,
    white_space,
};

#[test]
fn white_space_is_what_unicode_says() {
    for c in char::MIN..=char::MAX {
        assert_eq!(white_space(c), c.is_whitespace(), "{c:?}");
        assert_eq!(char_width(c), c.len_utf8(), "{c:?}");
    }
}

#[test]
fn trimming_takes_white_space_off_the_ends() {
    for s in ["", " ", "a", " a ", "\u{3000}x y\u{a0}\n", "\t/run  a\r\n", "\u{200b}z"] {
        assert_eq!(trim(s), s.trim());
        assert_eq!(trim_start(s), s.trim_start());
        assert_eq!(trim_end(s), s.trim_end());
        assert_eq!(byte_length(s), s.len());
        assert_eq!(to_ascii_lower(s), s.to_ascii_lowercase());
    }
    assert_eq!(to_ascii_lower("/RuN Ä"), "/run Ä");
}

#[test]
fn texts_are_compared_by_their_characters() {
    assert!(same_text("é", "é"));
    assert!(!same_text("a", "ab"));
    assert!(starts_with("/run ", "/ru"));
    assert!(starts_with("x", ""));
    assert!(!starts_with("/r", "/ru"));
    let list = vec!["a".to_owned(), "b".to_owned()];
    assert!(contains_text(&list, "b"));
    assert!(!contains_text(&list, "c"));
}

#[test]
fn the_cursor_stands_between_characters() {
    let s = "aé漢😀";
    let offsets: Vec<usize> = s.char_indices().map(|(i, _)| i).chain([s.len()]).collect();
    for (k, offset) in offsets.iter().enumerate() {
        assert_eq!(caret_at(s, *offset), k);
        let previous = if k == 0 { 0 } else { offsets[k - 1] };
        let next = if k + 1 == offsets.len() { *offset } else { offsets[k + 1] };
        assert_eq!(previous_char_boundary(s, *offset), previous);
        assert_eq!(next_char_boundary(s, *offset), next);
    }
}

#[test]
fn numerals_are_decimal() {
    for n in [0, 7, 9, 10, 99, 100, 1234567890, u64::MAX] {
        assert_eq!(numeral(n), n.to_string());
    }
}

#[test]
fn previews_are_cut_with_an_ellipsis() {
    assert_eq!(truncate_text("abc", 3), "abc");
    assert_eq!(truncate_text("abcd", 3), "abc…");
    assert_eq!(truncate_text("漢字漢", 2), "漢字…");
    assert_eq!(truncate_text("a", 0), "…");
    assert_eq!(truncate_text("", 0), "");
}

#[test]
fn prompts_are_stripped_up_to_the_last_command() {
    assert_eq!(strip_prompt_prefix("  /help"), "  /help");
    assert_eq!(strip_prompt_prefix("a > b"), "a > b");
    assert_eq!(strip_prompt_prefix("  a > b"), "a > b");
    assert_eq!(strip_prompt_prefix("> /run a > b"), "/run a > b");
    assert_eq!(strip_prompt_prefix(">\t/x"), "/x");
    assert_eq!(strip_prompt_prefix(""), "");
    for s in ["> /run a > b", "  a > b", "x > /y > z", ">>", "/a"] {
        let once = strip_prompt_prefix(s);
        assert_eq!(strip_prompt_prefix(&once), once);
    }
}

#[test]
fn slash_commands_are_split_at_white_space() {
    let split = |s: &str| split_slash_command(s);
    let pair = |a: &str, b: &str| Some((a.to_owned(), b.to_owned()));
    assert_eq!(split("/run  host --x"), pair("run", "host --x"));
    assert_eq!(split("/run"), pair("run", ""));
    assert_eq!(split("/run\u{3000}h "), pair("run", "h "));
    assert_eq!(split("/ run"), None);
    assert_eq!(split("/"), None);
    assert_eq!(split("run"), None);
    assert_eq!(leading_word("host --x"), "host");
    assert_eq!(leading_word(""), "");
}

#[test]
fn advertised_commands_are_normalized() {
    let normalized = |s: &str| normalize_backend_command(s.to_owned());
    assert_eq!(normalized(" //run "), Some("run".to_owned()));
    assert_eq!(normalized("deep-scan_2"), Some("deep-scan_2".to_owned()));
    assert_eq!(normalized("/"), None);
    assert_eq!(normalized(""), None);
    assert_eq!(normalized("run now"), None);
    assert_eq!(normalized("rün"), None);
}

#[test]
fn lists_are_sorted_without_repetitions() {
    let owned = |list: &[&str]| list.iter().map(|s| s.to_string()).collect::<Vec<String>>();
    let list = ["scan", "run", "é", "", "run", "scanner", "Run", "e", "😀", "\u{ffff}"];
    let mut expected = owned(&list);
    expected.sort();
    expected.dedup();
    assert_eq!(sort_unique(owned(&list)), expected);
    assert!(comes_before("run", "runner"));
    assert!(!comes_before("run", "run"));
    assert!(comes_before("", "a"));
    let mut sorted = owned(&["a", "c"]);
    insert_sorted(&mut sorted, "b".to_owned());
    insert_sorted(&mut sorted, "a".to_owned());
    assert_eq!(sorted, ["a", "b", "c"]);
}

fn decode(encoded: &str) -> Vec<u8> {
    let alphabet = "ABCDEFGHIJKLMNOPQRSTUVWXYZabcdefghijklmnopqrstuvwxyz0123456789+/";
    let mut bytes = Vec::new();
    let symbols: Vec<char> = encoded.chars().collect();
    for quad in symbols.chunks(4) {
        let n = quad
            .iter()
            .fold(0, |n, c| n * 64 + alphabet.find(*c).unwrap_or(0));
        let keep = 3 - quad.iter().filter(|c| **c == '=').count();
        bytes.extend([(n >> 16) as u8, (n >> 8) as u8, n as u8][..keep].iter());
    }
    bytes
}

#[test]
fn base64_follows_the_standard_vectors() {
    for (data, encoded) in [
        ("", ""),
        ("f", "Zg=="),
        ("fo", "Zm8="),
        ("foo", "Zm9v"),
        ("foob", "Zm9vYg=="),
        ("fooba", "Zm9vYmE="),
        ("foobar", "Zm9vYmFy"),
    ] {
        assert_eq!(base64_encode(data.as_bytes()), encoded);
    }
    let all: Vec<u8> = (0..=255).collect();
    assert_eq!(decode(&base64_encode(&all)), all);
}

#[test]
fn the_clipboard_is_asked_by_an_escape_sequence() {
    assert_eq!(clipboard_sequence("é"), "\u{1b}]52;c;w6k=\u{7}");
}

#[test]
fn quotes_in_a_clipboard_path_are_doubled() {
    assert_eq!(
        set_clipboard_command("C:\\it's ''here'.txt"),
        "Set-Clipboard -LiteralPath 'C:\\it''s ''''here''.txt'"
    );
    assert_eq!(
        set_clipboard_command(""),
        "Set-Clipboard -LiteralPath ''"
    );
}
