use actor_counter::counter::TICKS;
use actor_counter::render::value_line;
use actor_counter::session::{route_event, InputEvent, Session};
use actor_counter::view::{App, AppEffect, AppMessage, KeyCode, KeyEvent, KeyEventKind};

fn press(code: KeyCode) -> KeyEvent {
    KeyEvent { code, kind: KeyEventKind::Press }
}

fn run_ticks(s: &mut Session, n: u8) -> Vec<u8> {
    let mut drawn = Vec::new();
    for _ in 0..n {
        if let Some(c) = s.on_tick() {
            drawn.push(c);
        }
    }
    drawn
}

#[test]
fn decrement_scenario_redraws_four() {
    let mut s = Session::start();
    App::handle(&mut s.app, AppMessage::UpdateCount(5));
    s.on_key(press(KeyCode::Left));
    assert_eq!(s.app.counter, 4);
    let eff = App::handle(&mut s.app, AppMessage::Draw);
    match eff {
        AppEffect::Render(c) => assert_eq!(value_line(c), "Value: 4"),
        _ => panic!("a draw must render"),
    }
}

#[test]
fn increment_scenario_delivers_one() {
    let mut s = Session::start();
    assert_eq!(s.app.counter, 0);
    s.on_key(press(KeyCode::Right));
    let drawn = run_ticks(&mut s, TICKS);
    assert_eq!(drawn, vec![1], "the full tick window delivers UpdateCount(1) once");
    assert_eq!(s.app.counter, 1);
}

#[test]
fn double_increment_scenario_shows_only_the_second() {
    let mut s = Session::start();
    App::handle(&mut s.app, AppMessage::UpdateCount(3));
    s.on_key(press(KeyCode::Right));
    assert!(run_ticks(&mut s, 1).is_empty());
    s.on_key(press(KeyCode::Right));
    let drawn = run_ticks(&mut s, 2 * TICKS);
    assert_eq!(drawn, vec![4], "the first request is cancelled, the second delivers 4");
    assert_eq!(s.app.counter, 4);
}

#[test]
fn second_request_carries_its_own_counter() {
    let mut s = Session::start();
    App::handle(&mut s.app, AppMessage::UpdateCount(3));
    s.on_key(press(KeyCode::Right)); // requests 3 + 1
    assert!(run_ticks(&mut s, 1).is_empty());
    s.on_key(press(KeyCode::Left)); // counter is now 2
    s.on_key(press(KeyCode::Right)); // requests 2 + 1
    let drawn = run_ticks(&mut s, 2 * TICKS);
    assert_eq!(drawn, vec![3], "the delivery carries the second request's value plus one");
    assert_eq!(s.app.counter, 3);
}

#[test]
fn quit_key_only_raises_the_exit_flag() {
    let mut s = Session::start();
    App::handle(&mut s.app, AppMessage::UpdateCount(11));
    assert!(!s.should_exit());
    s.on_key(press(KeyCode::Char('q')));
    assert!(s.should_exit());
    assert_eq!(s.app.counter, 11);
}

#[test]
fn stop_while_in_flight_resolves_the_computation() {
    let mut s = Session::start();
    s.on_key(press(KeyCode::Right));
    assert!(run_ticks(&mut s, 3).is_empty());
    let drained = s.stop().expect("a computation was in flight");
    assert!(drained.finished);
    assert!(!drained.delivered);
    assert!(s.counter.prev.is_none());
    assert_eq!(s.app.counter, 0, "no update from a cancelled computation");
}

#[test]
fn only_key_presses_are_forwarded() {
    let fwd = route_event(&InputEvent::Key(press(KeyCode::Left)));
    assert!(matches!(
        fwd,
        Some(AppMessage::HandleKey(KeyEvent { code: KeyCode::Left, kind: KeyEventKind::Press }))
    ));
    let rel = KeyEvent { code: KeyCode::Left, kind: KeyEventKind::Release };
    assert!(route_event(&InputEvent::Key(rel)).is_none());
    let rep = KeyEvent { code: KeyCode::Char('q'), kind: KeyEventKind::Repeat };
    assert!(route_event(&InputEvent::Key(rep)).is_none());
    assert!(route_event(&InputEvent::Other).is_none());
}
