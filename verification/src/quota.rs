//! Quota tracking: a `LimitTracker` tells a `Messenger` when a value gets
//! close to, or over, its maximum.
use vstd::prelude::*;

verus! {

/// Something that can be handed alert messages.
pub trait Messenger {
    fn send(&self, msg: &str);
}

/// The alerts that a `LimitTracker` raises, from the mildest to the worst.
#[derive(Debug, Clone, Copy, PartialEq, Eq, Structural)]
pub enum QuotaAlert {
    /// At least 75% of the maximum.
    Warning,
    /// At least 90% of the maximum.
    Urgent,
    /// At or over the maximum.
    OverQuota,
}

impl QuotaAlert {
    /// The text that is sent for this alert.
    pub open spec fn text(self) -> Seq<char> {
        match self {
            QuotaAlert::Warning => "Warning: You used over 75% of your quota"@,
            QuotaAlert::Urgent => "Urgent Warning: You used over 90% of your quota"@,
            QuotaAlert::OverQuota => "Error: You are over your quota"@,
        }
    }

    pub fn message(&self) -> (msg: &'static str)
        ensures
            msg@ == self.text(),
    {
        match self {
            QuotaAlert::Warning => "Warning: You used over 75% of your quota",
            QuotaAlert::Urgent => "Urgent Warning: You used over 90% of your quota",
            QuotaAlert::OverQuota => "Error: You are over your quota",
        }
    }
}

/// The alert for `value` out of `max`, judged by the ratio `value / max`:
/// at least 1 is over quota, at least 0.9 urgent, at least 0.75 a warning.
/// With `max == 0` any positive value is over quota and zero raises nothing.
pub open spec fn alert_for(value: int, max: int) -> Option<QuotaAlert> {
    if max == 0 {
        if value > 0 {
            Some(QuotaAlert::OverQuota)
        } else {
            None
        }
    } else if value >= max {
        Some(QuotaAlert::OverQuota)
    } else if 10 * value >= 9 * max {
        Some(QuotaAlert::Urgent)
    } else if 4 * value >= 3 * max {
        Some(QuotaAlert::Warning)
    } else {
        None
    }
}

/// How serious an alert (or its absence) is: 0 for none, up to 3 for over quota.
pub open spec fn severity(alert: Option<QuotaAlert>) -> nat {
    match alert {
        None => 0,
        Some(QuotaAlert::Warning) => 1,
        Some(QuotaAlert::Urgent) => 2,
        Some(QuotaAlert::OverQuota) => 3,
    }
}

/// The messages that setting a value sends: the alert's text, if any.
pub open spec fn messages_for(value: int, max: int) -> Seq<Seq<char>> {
    match alert_for(value, max) {
        Some(a) => seq![a.text()],
        None => seq![],
    }
}

/// Decides which alert, if any, `value` out of `max` raises.
pub fn quota_alert(value: usize, max: usize) -> (alert: Option<QuotaAlert>)
    ensures
        alert == alert_for(value as int, max as int),
{
    let v: u128 = value as u128;
    let m: u128 = max as u128;
    if m == 0 {
        if v > 0 {
            Some(QuotaAlert::OverQuota)
        } else {
            None
        }
    } else if v >= m {
        Some(QuotaAlert::OverQuota)
    } else if v * 10 >= m * 9 {
        Some(QuotaAlert::Urgent)
    } else if v * 4 >= m * 3 {
        Some(QuotaAlert::Warning)
    } else {
        None
    }
}

/// For a fixed maximum, a larger value never raises a milder alert.
pub proof fn lemma_alert_monotone(v1: int, v2: int, max: int)
    requires
        0 <= v1 <= v2,
        0 <= max,
    ensures
        severity(alert_for(v1, max)) <= severity(alert_for(v2, max)),
{
}

/// Below three quarters of a positive maximum no alert is raised, and from
/// the maximum on the alert is always "over quota".
pub proof fn lemma_alert_bounds(value: int, max: int)
    requires
        0 <= value,
        0 < max,
    ensures
        4 * value < 3 * max ==> alert_for(value, max) is None,
        value >= max ==> alert_for(value, max) == Some(QuotaAlert::OverQuota),
{
}

/// Tracks a value against a maximum and alerts its messenger.
pub struct LimitTracker<'a, T: Messenger> {
    messenger: &'a T,
    value: usize,
    max: usize,
    sent: Ghost<Seq<Seq<char>>>,
}

impl<'a, T: Messenger> LimitTracker<'a, T> {
    pub closed spec fn messenger(&self) -> &'a T {
        self.messenger
    }

    pub closed spec fn value(&self) -> usize {
        self.value
    }

    pub closed spec fn max(&self) -> usize {
        self.max
    }

    /// The messages handed to the messenger so far, oldest first.
    pub closed spec fn sent(&self) -> Seq<Seq<char>> {
        self.sent@
    }

    pub fn new(messenger: &'a T, max: usize) -> (tracker: Self)
        ensures
            tracker.messenger() == messenger,
            tracker.value() == 0,
            tracker.max() == max,
            tracker.sent() == Seq::<Seq<char>>::empty(),
    {
        LimitTracker { messenger, value: 0, max, sent: Ghost(Seq::empty()) }
    }

    /// Records `value` and sends the alert that it raises, if any: the
    /// messenger's `send` is called with a message whose text is the alert's
    /// (`call_ensures` of `send` holds for that message).
    pub fn set_value(&mut self, value: usize)
        ensures
            final(self).value() == value,
            final(self).max() == old(self).max(),
            final(self).messenger() == old(self).messenger(),
            final(self).sent() == old(self).sent() + messages_for(value as int, old(self).max() as int),
            alert_for(value as int, old(self).max() as int) matches Some(a)
                ==> exists|m: &str| m@ == a.text() && call_ensures(T::send, (old(self).messenger(), m), ()),
    {
        self.value = value;
        match quota_alert(self.value, self.max) {
            Some(alert) => {
                self.messenger.send(alert.message());
                self.sent = Ghost(self.sent@.push(alert.text()));
            },
            None => {},
        }
    }
}

/// Tracks a quota of 100 with `messenger`, sets 75 and then 95: the
/// messenger is sent a warning and then an urgent warning.
pub fn _ref_cell_messenger<'a, T: Messenger>(messenger: &'a T) -> (tracker: LimitTracker<'a, T>)
    ensures
        tracker.messenger() == messenger,
        tracker.max() == 100,
        tracker.value() == 95,
        tracker.sent() == seq![QuotaAlert::Warning.text(), QuotaAlert::Urgent.text()],
        exists|m: &str| m@ == QuotaAlert::Warning.text() && call_ensures(T::send, (messenger, m), ()),
        exists|m: &str| m@ == QuotaAlert::Urgent.text() && call_ensures(T::send, (messenger, m), ()),
{
    let mut limit_tracker = LimitTracker::new(messenger, 100);
    limit_tracker.set_value(75);
    limit_tracker.set_value(95);
    assert(messages_for(75, 100) == seq![QuotaAlert::Warning.text()]);
    assert(messages_for(95, 100) == seq![QuotaAlert::Urgent.text()]);
    limit_tracker
}

} // verus!
