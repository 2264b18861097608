use badge_net::shared_state::get_frequency;
use badge_net::shared_state::get_text;
use badge_net::shared_state::set_frequency;
use badge_net::shared_state::set_text;
use badge_net::shared_state::SharedState;
use badge_net::text::format_text_for_badge;
use badge_net::text::TEXT_LIMIT;

#[test]
fn short_ascii_text_is_kept() {
    assert_eq!(format_text_for_badge("Hello, World!"), "Hello, World!");
    assert_eq!(format_text_for_badge(""), "");
    assert_eq!(format_text_for_badge("Embassy\nMy name\nJohn"), "Embassy\nMy name\nJohn");
    assert_eq!(format_text_for_badge("\u{0}\u{7f}"), "\u{0}\u{7f}");
}

#[test]
fn text_is_cut_at_the_limit() {
    assert_eq!(TEXT_LIMIT, 65);
    let long = "abcdefghij".repeat(10);
    let shown = format_text_for_badge(&long);
    assert_eq!(shown.len(), 65);
    assert_eq!(shown, long[..65]);
    let exact = "x".repeat(65);
    assert_eq!(format_text_for_badge(&exact), exact);
    let one_more = "x".repeat(66);
    assert_eq!(format_text_for_badge(&one_more), exact);
}

#[test]
fn other_characters_are_dropped() {
    assert_eq!(format_text_for_badge("gr\u{fc}\u{df}e"), "gre");
    assert_eq!(format_text_for_badge("\u{2603}"), "");
    assert_eq!(format_text_for_badge("a\u{80}b"), "ab");
    assert_eq!(format_text_for_badge("\u{1f980} crab"), " crab");
}

#[test]
fn limit_counts_characters_before_filtering() {
    let text = format!("{}{}", "\u{e9}".repeat(60), "abcdefghij");
    assert_eq!(format_text_for_badge(&text), "abcde");
    let text = format!("{}{}", "\u{e9}".repeat(65), "abc");
    assert_eq!(format_text_for_badge(&text), "");
}

#[test]
fn formatting_twice_changes_nothing_more() {
    for text in ["", "plain", "gr\u{fc}\u{df}e \u{2603}", &"long text ".repeat(20)] {
        let once = format_text_for_badge(text);
        assert_eq!(format_text_for_badge(&once), once);
        assert!(once.is_ascii());
        assert!(once.chars().count() <= TEXT_LIMIT);
    }
}

#[test]
fn store_starts_unset() {
    let state = SharedState::new();
    assert_eq!(get_text(&state), None);
    assert_eq!(get_frequency(&state), None);
}

#[test]
fn store_reads_take_nothing_away() {
    let mut state = SharedState::new();
    set_frequency(&mut state, 500);
    set_text(&mut state, "HELLO");
    assert_eq!(get_frequency(&state), Some(500));
    assert_eq!(get_frequency(&state), Some(500));
    assert_eq!(get_text(&state), Some("HELLO".to_string()));
    assert_eq!(get_text(&state), Some("HELLO".to_string()));
}

#[test]
fn store_writes_replace() {
    let mut state = SharedState::new();
    set_frequency(&mut state, 100);
    assert_eq!(get_text(&state), None);
    set_frequency(&mut state, 250);
    assert_eq!(get_frequency(&state), Some(250));
    set_text(&mut state, "one");
    set_text(&mut state, "two");
    assert_eq!(get_text(&state), Some("two".to_string()));
    assert_eq!(get_frequency(&state), Some(250));
}

#[test]
fn store_keeps_what_a_badge_can_show() {
    let mut state = SharedState::new();
    set_text(&mut state, &"gr\u{fc}\u{df}e ".repeat(20));
    let text = get_text(&state).unwrap();
    assert!(text.is_ascii());
    assert_eq!(text.len(), 43);
    assert_eq!(text, format!("{}gre", "gre ".repeat(10)));
    set_text(&mut state, &String::from("owned"));
    assert_eq!(get_text(&state), Some("owned".to_string()));
}
