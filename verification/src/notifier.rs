use std::sync::mpsc::{Receiver, Sender};
use vstd::prelude::*;
use vstd::string::StringExecFns;

verus! {

/// A notification as a record: title, body, and seconds on screen.
#[derive(Debug, Clone)]
pub struct NotificationRecord {
    pub title: String,
    pub body: String,
    pub timeout_secs: u32,
}

impl NotificationRecord {
    /// The record of a notification with this title, body and time on
    /// screen.
    pub fn new(title: &str, body: &str, timeout_secs: u32) -> (r: NotificationRecord)
        ensures
            r.title@ == title@,
            r.body@ == body@,
            r.timeout_secs == timeout_secs,
    {
        NotificationRecord { title: String::from_str(title), body: String::from_str(body), timeout_secs }
    }
}

/// How long a desktop notification stays.
#[derive(Debug, Clone, Copy, PartialEq, Eq, Structural)]
pub enum NotifyTimeout {
    Never,
    Milliseconds(u32),
}

/// The timeout for a notification of `timeout_secs` seconds: zero means it
/// stays until dismissed.
pub fn notification_timeout(timeout_secs: u32) -> (r: NotifyTimeout)
    requires
        timeout_secs * 1000 <= u32::MAX,
    ensures
        timeout_secs == 0 ==> r == NotifyTimeout::Never,
        timeout_secs > 0 ==> r == NotifyTimeout::Milliseconds((timeout_secs * 1000) as u32),
{
    if timeout_secs == 0 {
        NotifyTimeout::Never
    } else {
        NotifyTimeout::Milliseconds(timeout_secs * 1000)
    }
}

/// The log line written for a notification that was shown.
pub fn shown_log_line(title: &str, body: &str, timeout_secs: u32) -> (r: String)
    ensures
        r@ == "[INFO] 通知: "@ + title@ + " - "@ + body@ + " (超时: "@ + crate::text::decimal(
            timeout_secs as nat,
        ) + "s)"@,
{
    let mut r = String::from_str("[INFO] 通知: ");
    r.append(title);
    r.append(" - ");
    r.append(body);
    r.append(" (超时: ");
    r.append(crate::text::decimal_text(timeout_secs as u64).as_str());
    r.append("s)");
    r
}

/// Desktop notifications over D-Bus.
pub struct NotifyRustNotifier;

impl NotifyRustNotifier {
    /// The desktop notifier.
    pub fn new() -> Self {
        NotifyRustNotifier
    }
}

impl Default for NotifyRustNotifier {
    fn default() -> Self {
        NotifyRustNotifier::new()
    }
}

#[verifier::external_type_specification]
#[verifier::external_body]
#[verifier::reject_recursive_types(T)]
pub struct ExSender<T>(Sender<T>);

#[verifier::external_type_specification]
#[verifier::external_body]
#[verifier::reject_recursive_types(T)]
pub struct ExReceiver<T>(Receiver<T>);

/// A new channel for notification records.
///
/// Trusted: calls `std::sync::mpsc::channel`; nothing is stated of the
/// (empty) channel it makes.
#[verifier::external_body]
fn record_channel() -> (r: (Sender<NotificationRecord>, Receiver<NotificationRecord>)) {
    std::sync::mpsc::channel()
}

/// Sends a record down the channel.
///
/// Trusted: calls `Sender::send`, which fails only when the receiver is
/// gone, and then hands the record back in its error. Which of the two
/// happens is not stated, nor that a sent record reaches the receiver
/// after those sent before it: the channel's contents change behind shared
/// handles whose values stay the same, so no function of those values can
/// describe them.
#[verifier::external_body]
fn send_record(sender: &Sender<NotificationRecord>, record: NotificationRecord) -> (r: Result<(), NotificationRecord>)
    ensures
        r matches Err(back) ==> back == record,
{
    sender.send(record).map_err(|e| e.0)
}

/// A notifier for tests: it passes every notification down a channel.
pub struct TestNotifier {
    sender: Sender<NotificationRecord>,
}

impl TestNotifier {
    /// The notifier and the receiving end of its channel.
    pub fn new() -> (Self, Receiver<NotificationRecord>) {
        let (sender, receiver) = record_channel();
        (TestNotifier { sender }, receiver)
    }

    /// Passes a notification on; when the receiving end is gone, the
    /// record comes back as the error.
    pub fn record(&self, title: &str, body: &str, timeout_secs: u32) -> (r: Result<(), NotificationRecord>)
        ensures
            r matches Err(rec) ==> rec.title@ == title@ && rec.body@ == body@ && rec.timeout_secs
                == timeout_secs,
    {
        send_record(&self.sender, NotificationRecord::new(title, body, timeout_secs))
    }
}

} // verus!
