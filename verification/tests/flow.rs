use muxcore::error::ErrorCode;
use muxcore::flow::{FlowControl, MAX_WINDOW};

#[test]
fn zero_increment_fails_and_changes_nothing() {
    let mut w = FlowControl::new(100);
    let r = w.apply_increment(0);
    assert_eq!(r, Err(ErrorCode::ProtocolError));
    assert_eq!(w.window, 100);
}

#[test]
fn overflowing_increment_fails_and_changes_nothing() {
    let mut w = FlowControl::new(MAX_WINDOW as u32);
    let r = w.apply_increment(1);
    assert_eq!(r, Err(ErrorCode::FlowControlError));
    assert_eq!(w.window, MAX_WINDOW);
    // One octet short of the maximum admits exactly one more.
    let mut w = FlowControl::new((MAX_WINDOW - 1) as u32);
    assert_eq!(w.apply_increment(1), Ok(()));
    assert_eq!(w.window, MAX_WINDOW);
    assert_eq!(w.apply_increment(1), Err(ErrorCode::FlowControlError));
    assert_eq!(w.window, MAX_WINDOW);
}

#[test]
fn increments_accumulate() {
    let mut w = FlowControl::new(0);
    assert_eq!(w.apply_increment(16), Ok(()));
    assert_eq!(w.apply_increment(100), Ok(()));
    assert_eq!(w.window, 116);
    assert_eq!(w.available(), 116);
}

#[test]
fn consume_spends_capacity() {
    let mut w = FlowControl::new(100);
    w.consume(40);
    assert_eq!(w.window, 60);
    assert_eq!(w.available(), 60);
}

#[test]
fn initial_window_change_can_go_negative() {
    let mut w = FlowControl::new(100);
    // The peer shrinks its initial window from 65535 to 0: this stream has
    // already spent more than the new allowance.
    assert_eq!(w.adjust_initial(65_535, 0), Ok(()));
    assert_eq!(w.window, 100 - 65_535);
    assert_eq!(w.available(), 0);
    // Raising it again restores the difference.
    assert_eq!(w.adjust_initial(0, 65_535), Ok(()));
    assert_eq!(w.window, 100);
}
