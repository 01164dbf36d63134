use std::cell::RefCell;

use rust_play::quota::{_ref_cell_messenger, quota_alert, LimitTracker, Messenger, QuotaAlert};

struct MockMessenger {
    sent_messages: RefCell<Vec<String>>,
}

impl MockMessenger {
    fn new() -> Self {
        MockMessenger { sent_messages: RefCell::new(vec![]) }
    }
}

impl Messenger for MockMessenger {
    fn send(&self, msg: &str) {
        self.sent_messages.borrow_mut().push(String::from(msg));
    }
}

#[test]
fn tracker_sends_one_message_per_alert() {
    let mock_messanger = MockMessenger::new();
    let mut limit_tracker = LimitTracker::new(&mock_messanger, 100);
    limit_tracker.set_value(75);
    assert_eq!(mock_messanger.sent_messages.borrow().len(), 1);
    limit_tracker.set_value(95);
    assert_eq!(mock_messanger.sent_messages.borrow().len(), 2);
}

#[test]
fn ref_cell_messenger_sends_warning_then_urgent() {
    let mock = MockMessenger::new();
    let _tracker = _ref_cell_messenger(&mock);
    let sent = mock.sent_messages.borrow();
    assert_eq!(
        *sent,
        vec![
            "Warning: You used over 75% of your quota".to_string(),
            "Urgent Warning: You used over 90% of your quota".to_string(),
        ]
    );
}

#[test]
fn tracker_is_silent_below_three_quarters() {
    let mock = MockMessenger::new();
    let mut tracker = LimitTracker::new(&mock, 100);
    tracker.set_value(0);
    tracker.set_value(74);
    assert!(mock.sent_messages.borrow().is_empty());
    tracker.set_value(100);
    assert_eq!(mock.sent_messages.borrow()[0], "Error: You are over your quota");
}

#[test]
fn alert_thresholds() {
    assert_eq!(quota_alert(74, 100), None);
    assert_eq!(quota_alert(75, 100), Some(QuotaAlert::Warning));
    assert_eq!(quota_alert(89, 100), Some(QuotaAlert::Warning));
    assert_eq!(quota_alert(90, 100), Some(QuotaAlert::Urgent));
    assert_eq!(quota_alert(99, 100), Some(QuotaAlert::Urgent));
    assert_eq!(quota_alert(100, 100), Some(QuotaAlert::OverQuota));
    assert_eq!(quota_alert(150, 100), Some(QuotaAlert::OverQuota));
    assert_eq!(quota_alert(3, 4), Some(QuotaAlert::Warning));
    assert_eq!(quota_alert(2, 4), None);
}

#[test]
fn alert_with_zero_maximum() {
    assert_eq!(quota_alert(0, 0), None);
    assert_eq!(quota_alert(1, 0), Some(QuotaAlert::OverQuota));
}

#[test]
fn alert_with_large_values() {
    assert_eq!(quota_alert(usize::MAX, usize::MAX), Some(QuotaAlert::OverQuota));
    assert_eq!(quota_alert(usize::MAX / 2, usize::MAX), None);
}

#[test]
fn alert_is_monotone_in_value() {
    let severity = |a: Option<QuotaAlert>| match a {
        None => 0,
        Some(QuotaAlert::Warning) => 1,
        Some(QuotaAlert::Urgent) => 2,
        Some(QuotaAlert::OverQuota) => 3,
    };
    let mut last = 0;
    for v in 0..200usize {
        let s = severity(quota_alert(v, 100));
        assert!(s >= last);
        last = s;
    }
}

#[test]
fn alert_messages() {
    assert_eq!(QuotaAlert::OverQuota.message(), "Error: You are over your quota");
    assert_eq!(QuotaAlert::Urgent.message(), "Urgent Warning: You used over 90% of your quota");
    assert_eq!(QuotaAlert::Warning.message(), "Warning: You used over 75% of your quota");
}
