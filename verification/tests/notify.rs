use tood::notify::{display_millis, FlashMsg, MsgType, Notification, EVENT_TIMEOUT_MS};

#[test]
fn a_newer_message_survives_the_older_timer() {
    let mut n = Notification::new();
    n.set(FlashMsg::info("first"));
    let t_first = n.take_timer_request().unwrap();
    n.set(FlashMsg::info("second"));
    let t_second = n.take_timer_request().unwrap();
    assert_ne!(t_first.token, t_second.token);
    n.expire(t_first.token);
    assert_eq!(n.msg.as_ref().unwrap().message, "second");
    n.expire(t_second.token);
    assert!(n.msg.is_none());
}

#[test]
fn expiry_with_the_right_token_clears() {
    let mut n = Notification::new();
    n.set(FlashMsg::warn("heads up"));
    let t = n.take_timer_request().unwrap();
    assert_eq!(n.msg.as_ref().unwrap().message, "heads up");
    n.expire(t.token);
    assert!(n.msg.is_none());
}

#[test]
fn error_messages_stay_twice_as_long() {
    assert_eq!(display_millis(MsgType::Error), 2 * EVENT_TIMEOUT_MS);
    assert_eq!(display_millis(MsgType::Warn), EVENT_TIMEOUT_MS);
    assert_eq!(display_millis(MsgType::Info), EVENT_TIMEOUT_MS);
    let mut n = Notification::new();
    n.set(FlashMsg::err("bad"));
    let t = n.take_timer_request().unwrap();
    assert_eq!(t.millis, 2 * EVENT_TIMEOUT_MS);
    n.set(FlashMsg::info("fine"));
    let t = n.take_timer_request().unwrap();
    assert_eq!(t.millis, EVENT_TIMEOUT_MS);
}

#[test]
fn each_set_arms_exactly_one_timer() {
    let mut n = Notification::new();
    assert!(n.take_timer_request().is_none());
    n.set(FlashMsg::info("one"));
    assert!(n.take_timer_request().is_some());
    assert!(n.take_timer_request().is_none());
}

#[test]
fn clear_drops_the_message_at_once() {
    let mut n = Notification::new();
    n.set(FlashMsg::info("something"));
    n.clear();
    assert!(n.msg.is_none());
}

#[test]
fn message_constructors_carry_their_severity() {
    assert_eq!(FlashMsg::warn("w").level, MsgType::Warn);
    assert_eq!(FlashMsg::err("e").level, MsgType::Error);
    assert_eq!(FlashMsg::info("i").level, MsgType::Info);
    assert_eq!(FlashMsg::info("hello").message, "hello");
}
