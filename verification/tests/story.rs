use pookie_homecoming::state::GameState;
use pookie_homecoming::story::StorySequence;

fn chars(s: &str) -> Vec<char> {
    s.chars().collect()
}

fn text(seq: &StorySequence) -> String {
    seq.visible_text().into_iter().collect()
}

fn story(lines: &[&str]) -> StorySequence {
    StorySequence::new(lines.iter().map(|l| chars(l)).collect(), GameState::Playing)
}

#[test]
fn timer_types_one_character_at_a_time() {
    let mut seq = story(&["ab", "c"]);
    assert_eq!(text(&seq), "");
    seq.type_next_char();
    assert_eq!(text(&seq), "a");
    seq.type_next_char();
    assert_eq!(text(&seq), "ab");
    seq.type_next_char();
    assert_eq!(text(&seq), "ab");
}

#[test]
fn space_completes_then_advances() {
    let mut seq = story(&["hello", "world"]);
    seq.type_next_char();
    assert_eq!(seq.handle_keys(false, true), None);
    assert_eq!(text(&seq), "hello");
    assert_eq!(seq.handle_keys(false, true), None);
    assert_eq!(text(&seq), "hello\n\n");
    seq.type_next_char();
    assert_eq!(text(&seq), "hello\n\nw");
}

#[test]
fn space_after_last_line_ends_story() {
    let mut seq = story(&["x"]);
    assert_eq!(seq.handle_keys(false, true), None);
    assert_eq!(seq.handle_keys(false, true), None);
    assert!(!seq.is_typing());
    assert_eq!(seq.handle_keys(false, true), Some(GameState::Playing));
    assert_eq!(text(&seq), "x\n\n");
}

#[test]
fn escape_skips_at_any_point() {
    let mut seq = StorySequence::new(vec![chars("abc")], GameState::Win);
    assert_eq!(seq.handle_keys(true, true), Some(GameState::Win));
    assert_eq!(text(&seq), "");
    assert!(seq.is_typing());
}

#[test]
fn no_keys_change_nothing() {
    let mut seq = story(&["abc"]);
    seq.type_next_char();
    assert_eq!(seq.handle_keys(false, false), None);
    assert_eq!(text(&seq), "a");
}

#[test]
fn only_last_five_lines_are_shown() {
    let mut seq = story(&["1", "2", "3", "4", "5", "6", "7"]);
    for _ in 0..12 {
        assert_eq!(seq.handle_keys(false, true), None);
    }
    // Lines 1..6 are done, line 7 is current and nothing of it is typed.
    assert_eq!(text(&seq), "3\n\n4\n\n5\n\n6\n\n");
    seq.type_next_char();
    assert_eq!(text(&seq), "3\n\n4\n\n5\n\n6\n\n7");
}

#[test]
fn story_finishes_within_two_presses_per_line() {
    let lines = ["You are a proud citizen!", "", "Good luck, Commander :3"];
    let mut seq = story(&lines);
    let mut presses: usize = 0;
    while seq.handle_keys(false, true).is_none() {
        presses += 1;
        assert!(presses <= 2 * lines.len());
    }
}

#[test]
fn empty_story_ends_on_first_space() {
    let mut seq = StorySequence::new(Vec::new(), GameState::Win);
    assert!(!seq.is_typing());
    assert_eq!(text(&seq), "");
    seq.type_next_char();
    assert_eq!(seq.handle_keys(false, true), Some(GameState::Win));
}

#[test]
fn multibyte_characters_are_typed_whole() {
    let mut seq = story(&["é✓"]);
    seq.type_next_char();
    assert_eq!(text(&seq), "é");
}
