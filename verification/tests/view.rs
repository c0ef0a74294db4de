use actor_counter::view::{
    App, AppEffect, AppMessage, AppState, KeyCode, KeyEvent, KeyEventKind,
};

fn press(code: KeyCode) -> KeyEvent {
    KeyEvent { code, kind: KeyEventKind::Press }
}

#[test]
fn fresh_state_is_zero_and_running() {
    let s = App::pre_start();
    assert_eq!(s.counter, 0);
    assert!(!s.exit);
    assert!(!s.should_exit());
}

#[test]
fn quit_sets_exit_and_keeps_counter() {
    let mut s = AppState { counter: 7, exit: false };
    let eff = s.handle_key_event(press(KeyCode::Char('q')));
    assert!(matches!(eff, AppEffect::Nothing));
    assert!(s.exit);
    assert_eq!(s.counter, 7);
}

#[test]
fn decrement_wraps_below_zero() {
    let mut s = AppState { counter: 0, exit: false };
    s.handle_key_event(press(KeyCode::Left));
    assert_eq!(s.counter, 255);
    assert!(!s.exit);
}

#[test]
fn decrement_takes_one_off() {
    let mut s = AppState { counter: 200, exit: false };
    let eff = s.handle_key_event(press(KeyCode::Left));
    assert!(matches!(eff, AppEffect::Nothing));
    assert_eq!(s.counter, 199);
}

#[test]
fn increment_key_only_emits_a_request() {
    let mut s = AppState { counter: 3, exit: false };
    let eff = s.handle_key_event(press(KeyCode::Right));
    assert!(matches!(eff, AppEffect::SendIncrement(3)));
    assert_eq!(s.counter, 3, "the counter moves only via a delivered update");
    assert!(!s.exit);
}

#[test]
fn other_keys_are_ignored() {
    let mut s = AppState { counter: 9, exit: false };
    let eff = s.handle_key_event(press(KeyCode::Char('x')));
    assert!(matches!(eff, AppEffect::Nothing));
    let eff = s.handle_key_event(press(KeyCode::Other));
    assert!(matches!(eff, AppEffect::Nothing));
    assert_eq!(s.counter, 9);
    assert!(!s.exit);
}

#[test]
fn increment_counter_wraps_above_255() {
    let mut s = AppState { counter: 255, exit: false };
    s.increment_counter();
    assert_eq!(s.counter, 0);
}

#[test]
fn draw_message_renders_current_counter() {
    let mut s = AppState { counter: 42, exit: false };
    let eff = App::handle(&mut s, AppMessage::Draw);
    assert!(matches!(eff, AppEffect::Render(42)));
    assert_eq!(s.counter, 42);
}

#[test]
fn update_count_overwrites_and_requests_redraw() {
    let mut s = AppState { counter: 1, exit: false };
    let eff = App::handle(&mut s, AppMessage::UpdateCount(9));
    assert!(matches!(eff, AppEffect::RequestDraw));
    assert_eq!(s.counter, 9);
}

#[test]
fn exit_query_replies_with_the_flag() {
    let mut s = AppState { counter: 0, exit: false };
    let eff = App::handle(&mut s, AppMessage::Exit);
    assert!(matches!(eff, AppEffect::ReplyExit(false)));
    s.handle_key_event(press(KeyCode::Char('q')));
    let eff = App::handle(&mut s, AppMessage::Exit);
    assert!(matches!(eff, AppEffect::ReplyExit(true)));
}
