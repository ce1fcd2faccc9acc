use term_chat::scroll::ScrollState;
use term_chat::scroll::MAX_MANUAL_OFFSET;

#[test]
fn follow_pins_to_bottom() {
    // 50 content lines in a 20-line viewport: the bottom offset is 30.
    let mut s = ScrollState::new();
    s.clamp_to(50, 20);
    assert_eq!(s.offset, 30);
    assert!(s.auto_follow);
}

#[test]
fn scroll_up_leaves_follow_and_floors_at_zero() {
    let mut s = ScrollState::new();
    s.clamp_to(50, 20);
    s.scroll_up();
    assert!(!s.auto_follow);
    assert_eq!(s.offset, 29);
    for _ in 0..29 {
        s.scroll_up();
    }
    assert_eq!(s.offset, 0);
    s.scroll_up();
    assert_eq!(s.offset, 0);
    assert!(!s.auto_follow);
}

#[test]
fn shrunk_content_resets_and_reengages_follow() {
    let mut s = ScrollState { offset: 40, auto_follow: false };
    s.clamp_to(15, 20);
    assert_eq!(s.offset, 0);
    assert!(s.auto_follow);
}

#[test]
fn clamp_past_bottom_reengages_follow() {
    let mut s = ScrollState { offset: 45, auto_follow: false };
    s.clamp_to(50, 20);
    assert_eq!(s.offset, 30);
    assert!(s.auto_follow);
}

#[test]
fn sitting_exactly_at_bottom_stays_manual() {
    // The clamp re-engages follow only when it had to reduce the offset.
    let mut s = ScrollState { offset: 30, auto_follow: false };
    s.clamp_to(50, 20);
    assert_eq!(s.offset, 30);
    assert!(!s.auto_follow);
}

#[test]
fn scroll_down_is_capped_at_the_sentinel() {
    let mut s = ScrollState { offset: MAX_MANUAL_OFFSET, auto_follow: false };
    s.scroll_down();
    assert_eq!(s.offset, MAX_MANUAL_OFFSET);
    let mut t = ScrollState { offset: 3, auto_follow: false };
    t.scroll_down();
    assert_eq!(t.offset, 4);
    assert!(!t.auto_follow);
}
