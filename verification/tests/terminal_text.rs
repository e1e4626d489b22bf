use gcloud_ssh::center_text;
use gcloud_ssh::terminal::color_support;
use gcloud_ssh::terminal::terminal_size_from_probes;
use gcloud_ssh::text::parse_usize;
use gcloud_ssh::text::split_words;
use gcloud_ssh::text::trim;
use gcloud_ssh::text::usize_to_string;
use gcloud_ssh::wrap_text;
use gcloud_ssh::TerminalSize;

#[test]
fn centering_pads_half_the_leftover_width() {
    assert_eq!(center_text("abcd", 10), "   abcd");
    assert_eq!(center_text("abcd", 11), "   abcd");
    assert_eq!(center_text("abcd", 4), "abcd");
    assert_eq!(center_text("abcd", 2), "abcd");
}

#[test]
fn centering_with_zero_width_uses_the_fallback() {
    assert_eq!(center_text("ab", 0), format!("{}ab", " ".repeat(39)));
}

#[test]
fn wrapping_fills_lines_greedily() {
    assert_eq!(
        wrap_text("the quick brown fox jumps", 10),
        vec!["the quick", "brown fox", "jumps"]
    );
}

#[test]
fn wrapping_collapses_white_space() {
    assert_eq!(wrap_text("  a   b \n c  ", 20), vec!["a b c"]);
}

#[test]
fn wrapping_cuts_a_word_longer_than_the_width() {
    assert_eq!(wrap_text("abcdefgh", 3), vec!["abc", "defgh"]);
}

#[test]
fn wrapping_a_word_exactly_as_wide_as_the_width() {
    assert_eq!(wrap_text("abc", 3), vec!["abc"]);
    assert_eq!(wrap_text("ab abcd", 2), vec!["ab", "ab", "cd"]);
}

#[test]
fn wrapping_empty_text_yields_no_lines() {
    assert_eq!(wrap_text("", 10), Vec::<String>::new());
    assert_eq!(wrap_text("   ", 10), Vec::<String>::new());
}

#[test]
fn trim_strips_both_ends_only() {
    assert_eq!(trim("  a b \n"), "a b");
    assert_eq!(trim("ab"), "ab");
    assert_eq!(trim(" \t "), "");
}

#[test]
fn split_words_keeps_order() {
    assert_eq!(split_words(" 24  80 "), vec!["24", "80"]);
    assert_eq!(split_words(""), Vec::<String>::new());
}

#[test]
fn decimal_rendering_is_exact() {
    assert_eq!(usize_to_string(0), "0");
    assert_eq!(usize_to_string(7), "7");
    assert_eq!(usize_to_string(40), "40");
    assert_eq!(usize_to_string(12345), "12345");
}

#[test]
fn parsing_accepts_the_standard_grammar() {
    assert_eq!(parse_usize("0"), Some(0));
    assert_eq!(parse_usize("123"), Some(123));
    assert_eq!(parse_usize("+123"), Some(123));
    assert_eq!(parse_usize(""), None);
    assert_eq!(parse_usize("+"), None);
    assert_eq!(parse_usize("12a"), None);
    assert_eq!(parse_usize(" 12"), None);
    assert_eq!(parse_usize("-3"), None);
    assert_eq!(parse_usize(&usize::MAX.to_string()), Some(usize::MAX));
    assert_eq!(parse_usize(&format!("{}9", usize::MAX)), None);
}

#[test]
fn size_probe_prefers_the_two_number_output() {
    let r = terminal_size_from_probes(
        Some("24 80\n".to_string()),
        Some("999".to_string()),
        Some("999".to_string()),
    );
    assert_eq!(r, Some(TerminalSize { width: 80, height: 24 }));
}

#[test]
fn size_probe_falls_back_to_single_number_outputs() {
    let r = terminal_size_from_probes(None, Some("80\n".to_string()), Some("24\n".to_string()));
    assert_eq!(r, Some(TerminalSize { width: 80, height: 24 }));
    let r = terminal_size_from_probes(
        Some("garbage".to_string()),
        Some("80".to_string()),
        Some("24".to_string()),
    );
    assert_eq!(r, Some(TerminalSize { width: 80, height: 24 }));
}

#[test]
fn size_probe_with_two_fields_that_do_not_parse_fails() {
    let r = terminal_size_from_probes(
        Some("aa bb".to_string()),
        Some("80".to_string()),
        Some("24".to_string()),
    );
    assert_eq!(r, None);
}

#[test]
fn size_probe_without_any_output_fails() {
    assert_eq!(terminal_size_from_probes(None, None, None), None);
    assert_eq!(terminal_size_from_probes(None, Some("80".to_string()), None), None);
}

#[test]
fn color_support_follows_the_term_value_when_set() {
    assert!(color_support(Some("xterm-256color".to_string()), None));
    assert!(!color_support(Some("dumb".to_string()), None));
    assert!(!color_support(Some("".to_string()), Some("256".to_string())));
}

#[test]
fn color_support_falls_back_to_the_color_count_probe() {
    assert!(color_support(None, Some("256\n".to_string())));
    assert!(!color_support(None, Some("0".to_string())));
    assert!(!color_support(None, Some("-2".to_string())));
    assert!(!color_support(None, Some("lots".to_string())));
    assert!(!color_support(None, None));
}
