use lk::decoder::{poll_timeout, step, DecoderState, Event, RawKey, ESCAPE_TIMEOUT_MS};

#[test]
fn arrow_sequence_within_timeout_yields_one_navigate_up() {
    let (s1, e1) = step(DecoderState::Idle, RawKey::Esc, 1000);
    assert_eq!(e1, None);
    // A timeout check before the threshold changes nothing.
    let (s1, none) = poll_timeout(s1, 1000 + ESCAPE_TIMEOUT_MS);
    assert_eq!(none, None);
    let (s2, e2) = step(s1, RawKey::Char('['), 1010);
    assert_eq!(e2, None);
    let (s3, e3) = step(s2, RawKey::Char('A'), 1020);
    assert_eq!(e3, Some(Event::NavigateUp));
    assert_eq!(s3, DecoderState::Idle);
}

#[test]
fn arrow_down_sequence_yields_navigate_down() {
    let (s1, _) = step(DecoderState::Idle, RawKey::Esc, 0);
    let (s2, _) = step(s1, RawKey::Char('['), 1);
    let (s3, e3) = step(s2, RawKey::Char('B'), 2);
    assert_eq!(e3, Some(Event::NavigateDown));
    assert_eq!(s3, DecoderState::Idle);
}

#[test]
fn lone_escape_times_out_to_exactly_one_cancel() {
    let (s1, e1) = step(DecoderState::Idle, RawKey::Esc, 1000);
    assert_eq!(e1, None);
    let (s2, e2) = poll_timeout(s1, 1000 + ESCAPE_TIMEOUT_MS + 1);
    assert_eq!(e2, Some(Event::Cancel));
    assert_eq!(s2, DecoderState::Idle);
    let (_, e3) = poll_timeout(s2, 2000);
    assert_eq!(e3, None);
}

#[test]
fn abandoned_escape_redispatches_the_stray_key() {
    let (s1, _) = step(DecoderState::Idle, RawKey::Esc, 0);
    let (s2, e2) = step(s1, RawKey::Char('x'), 1);
    assert_eq!(e2, Some(Event::Insert('x')));
    assert_eq!(s2, DecoderState::Idle);
}

#[test]
fn unrecognized_sequence_tail_is_discarded() {
    let (s1, _) = step(DecoderState::Idle, RawKey::Esc, 0);
    let (s2, _) = step(s1, RawKey::Char('['), 1);
    let (s3, e3) = step(s2, RawKey::Char('C'), 2);
    assert_eq!(e3, None);
    assert_eq!(s3, DecoderState::Idle);
}

#[test]
fn idle_keys_map_to_events() {
    assert_eq!(
        step(DecoderState::Idle, RawKey::Char('\n'), 0).1,
        Some(Event::Confirm)
    );
    assert_eq!(
        step(DecoderState::Idle, RawKey::Char('q'), 0).1,
        Some(Event::Insert('q'))
    );
    assert_eq!(
        step(DecoderState::Idle, RawKey::Backspace, 0).1,
        Some(Event::Backspace)
    );
    assert_eq!(
        step(DecoderState::Idle, RawKey::CtrlC, 0).1,
        Some(Event::Cancel)
    );
    assert_eq!(
        step(DecoderState::Idle, RawKey::CtrlD, 0).1,
        Some(Event::Cancel)
    );
}

#[test]
fn ctrl_c_cancels_even_mid_sequence() {
    let (s1, _) = step(DecoderState::Idle, RawKey::Esc, 0);
    let (s2, e2) = step(s1, RawKey::CtrlC, 1);
    assert_eq!(e2, Some(Event::Cancel));
    assert_eq!(s2, DecoderState::Idle);
    let (s3, _) = step(DecoderState::Idle, RawKey::Esc, 0);
    let (s4, _) = step(s3, RawKey::Char('['), 1);
    let (s5, e5) = step(s4, RawKey::CtrlD, 2);
    assert_eq!(e5, Some(Event::Cancel));
    assert_eq!(s5, DecoderState::Idle);
}
