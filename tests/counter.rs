use iced_exercises::counter::{Counter, Message};

#[test]
fn counter_starts_at_zero() {
    assert_eq!(Counter::new().value, 0);
}

#[test]
fn counter_value_is_net_sum() {
    let mut c = Counter::new();
    let msgs = [
        Message::Increment,
        Message::Increment,
        Message::Decrement,
        Message::Increment,
        Message::Increment,
        Message::Decrement,
        Message::Decrement,
        Message::Decrement,
        Message::Decrement,
    ];
    for m in msgs {
        c.update(m);
    }
    assert_eq!(c.value, -1);
}

#[test]
fn counter_reset_returns_to_zero() {
    let mut c = Counter::new();
    for _ in 0..7 {
        c.update(Message::Increment);
    }
    assert_eq!(c.value, 7);
    c.update(Message::Reset);
    assert_eq!(c.value, 0);
    let mut d = Counter { value: -123456 };
    d.update(Message::Reset);
    assert_eq!(d.value, 0);
}

#[test]
fn counter_wraps_at_bounds() {
    let mut c = Counter { value: i32::MAX };
    c.update(Message::Increment);
    assert_eq!(c.value, i32::MIN);
    c.update(Message::Decrement);
    assert_eq!(c.value, i32::MAX);
}
