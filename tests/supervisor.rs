use wpopup::backoff::Backoff;
use wpopup::classifier::MILLISECOND;
use wpopup::proto::{Kind, ProtoGesture, TapDist};
use wpopup::supervisor::{Control, Input, Supervisor};
use wpopup::{KeyAction, KeyCode};

const KEY_A: KeyCode = KeyCode(30);

fn ms(n: u64) -> u64 {
    n * MILLISECOND
}

fn press(at: u64) -> Input {
    Input::Key { code: KEY_A, action: KeyAction::Press, at }
}

#[test]
fn standard_backoff_doubles_then_gives_up() {
    let mut b = Backoff::standard();
    let expected = [50, 100, 200, 400, 800, 1600, 3200];
    for d in expected {
        assert_eq!(b.next_delay(), Some(ms(d)));
    }
    assert_eq!(b.next_delay(), None);
    // After giving up it starts over.
    assert_eq!(b.next_delay(), Some(ms(50)));
}

#[test]
fn backoff_is_capped() {
    let mut b = Backoff::new(3, 10, 250, 1000);
    assert_eq!(b.next_delay(), Some(3));
    assert_eq!(b.next_delay(), Some(30));
    assert_eq!(b.next_delay(), Some(250));
    assert_eq!(b.next_delay(), Some(250));
    b.reset();
    assert_eq!(b.next_delay(), Some(3));
}

#[test]
fn backoff_growth_does_not_overflow() {
    let mut b = Backoff::new(u64::MAX / 2 + 1, 4, u64::MAX, u64::MAX);
    assert_eq!(b.next_delay(), Some(u64::MAX / 2 + 1));
    assert_eq!(b.next_delay(), Some(u64::MAX));
}

#[test]
fn read_error_keeps_the_tap_burst() {
    let mut s = Supervisor::new(Backoff::standard());
    assert!(s.handle(press(ms(0))).gestures.is_empty());
    let step = s.handle(Input::ReadError);
    assert_eq!(step.control, Control::Sleep(ms(50)));
    assert!(step.gestures.is_empty());
    let step = s.handle(press(ms(300)));
    assert_eq!(step.control, Control::Continue);
    assert_eq!(
        step.gestures[0],
        ProtoGesture { kind: Kind::Taps(TapDist::First(ms(300))), key: KEY_A }
    );
}

#[test]
fn successful_read_resets_backoff() {
    let mut s = Supervisor::new(Backoff::standard());
    assert_eq!(s.handle(Input::ReadError).control, Control::Sleep(ms(50)));
    assert_eq!(s.handle(Input::ReadError).control, Control::Sleep(ms(100)));
    assert_eq!(s.handle(Input::Other).control, Control::Continue);
    assert_eq!(s.handle(Input::ReadError).control, Control::Sleep(ms(50)));
}

#[test]
fn persistent_errors_lead_to_restart_with_state_kept() {
    let mut s = Supervisor::new(Backoff::standard());
    s.handle(press(ms(0)));
    for _ in 0..7 {
        assert!(matches!(s.handle(Input::ReadError).control, Control::Sleep(_)));
    }
    assert_eq!(s.handle(Input::ReadError).control, Control::Restart);
    let step = s.handle(press(ms(500)));
    assert_eq!(
        step.gestures[0],
        ProtoGesture { kind: Kind::Taps(TapDist::First(ms(500))), key: KEY_A }
    );
}

#[test]
fn stream_end_and_signal_restart() {
    let mut s = Supervisor::new(Backoff::standard());
    assert_eq!(s.handle(Input::StreamEnded).control, Control::Restart);
    assert_eq!(s.handle(Input::RestartSignal).control, Control::Restart);
}

#[test]
fn timer_input_reports_long_press() {
    let mut s = Supervisor::new(Backoff::standard());
    s.handle(press(ms(0)));
    let step = s.handle(Input::Timer { code: KEY_A, at: ms(1000) });
    assert_eq!(step.control, Control::Continue);
    assert_eq!(step.gestures, vec![ProtoGesture { kind: Kind::LongPress, key: KEY_A }]);
    let step = s.handle(Input::Timer { code: KEY_A, at: ms(1000) });
    assert!(step.gestures.is_empty());
}

#[test]
fn release_input_emits_nothing() {
    let mut s = Supervisor::new(Backoff::standard());
    s.handle(press(ms(0)));
    let step = s.handle(Input::Key { code: KEY_A, action: KeyAction::Release, at: ms(100) });
    assert!(step.gestures.is_empty());
    assert!(s.handle(Input::Timer { code: KEY_A, at: ms(1000) }).gestures.is_empty());
}

#[test]
fn press_arms_its_long_press_timer() {
    let mut s = Supervisor::new(Backoff::standard());
    assert_eq!(s.handle(press(ms(0))).arm, Some(KEY_A));
    let release = Input::Key { code: KEY_A, action: KeyAction::Release, at: ms(10) };
    assert_eq!(s.handle(release).arm, None);
    assert_eq!(s.handle(Input::Timer { code: KEY_A, at: ms(1000) }).arm, None);
    assert_eq!(s.handle(Input::ReadError).arm, None);
}
