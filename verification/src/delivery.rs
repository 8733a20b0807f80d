//! The receipt e-mail queue: the states of a delivery and the decisions of
//! a queue flush.

use vstd::prelude::*;
use crate::text::same_text;

verus! {

/// The state of one queued receipt e-mail.
#[derive(Debug, Clone, Copy, PartialEq, Eq)]
pub enum DeliveryStatus {
    /// Waiting for the configured sender.
    Queued,
    /// Recorded while no sender was configured; kept for a later flush.
    SenderNotConfigured,
    /// A send was attempted and failed; retried by the next flush.
    RetryNeeded,
    /// Handed to the mail server.
    Sent,
    /// The message could not be built; never retried.
    InvalidMessage,
}

/// The stored text of each status.
pub open spec fn status_text(s: DeliveryStatus) -> Seq<char> {
    match s {
        DeliveryStatus::Queued => "queued"@,
        DeliveryStatus::SenderNotConfigured => "sender_not_configured"@,
        DeliveryStatus::RetryNeeded => "retry_needed"@,
        DeliveryStatus::Sent => "sent"@,
        DeliveryStatus::InvalidMessage => "invalid_message"@,
    }
}

/// The statuses that a flush picks up again.
pub open spec fn awaits_sending(s: DeliveryStatus) -> bool {
    s is Queued || s is SenderNotConfigured || s is RetryNeeded
}

/// The status whose stored text is `t`, if any.
pub open spec fn status_named(t: Seq<char>) -> Option<DeliveryStatus> {
    if t == "queued"@ {
        Some(DeliveryStatus::Queued)
    } else if t == "sender_not_configured"@ {
        Some(DeliveryStatus::SenderNotConfigured)
    } else if t == "retry_needed"@ {
        Some(DeliveryStatus::RetryNeeded)
    } else if t == "sent"@ {
        Some(DeliveryStatus::Sent)
    } else if t == "invalid_message"@ {
        Some(DeliveryStatus::InvalidMessage)
    } else {
        None
    }
}

impl DeliveryStatus {
    /// Reads a stored status text.
    pub fn from_text(t: &str) -> (s: Option<DeliveryStatus>)
        ensures
            s == status_named(t@),
    {
        if same_text(t, "queued") {
            Some(DeliveryStatus::Queued)
        } else if same_text(t, "sender_not_configured") {
            Some(DeliveryStatus::SenderNotConfigured)
        } else if same_text(t, "retry_needed") {
            Some(DeliveryStatus::RetryNeeded)
        } else if same_text(t, "sent") {
            Some(DeliveryStatus::Sent)
        } else if same_text(t, "invalid_message") {
            Some(DeliveryStatus::InvalidMessage)
        } else {
            None
        }
    }

    /// The stored text of the status.
    pub fn as_str(&self) -> (t: &'static str)
        ensures
            t@ == status_text(*self),
    {
        match self {
            DeliveryStatus::Queued => "queued",
            DeliveryStatus::SenderNotConfigured => "sender_not_configured",
            DeliveryStatus::RetryNeeded => "retry_needed",
            DeliveryStatus::Sent => "sent",
            DeliveryStatus::InvalidMessage => "invalid_message",
        }
    }

    /// Whether a flush sends this delivery (again).
    pub fn is_pending(&self) -> (r: bool)
        ensures
            r == awaits_sending(*self),
    {
        match self {
            DeliveryStatus::Queued | DeliveryStatus::SenderNotConfigured
            | DeliveryStatus::RetryNeeded => true,
            _ => false,
        }
    }
}

/// What a flush does with one pending delivery, given whether the sender
/// address and the recipient address parse.
#[derive(Debug, Clone, Copy, PartialEq, Eq)]
pub enum FlushStep {
    /// The configured sender is unusable: stop the whole flush.
    Stop,
    /// This recipient is unusable: leave the row as it is and go on.
    Skip,
    /// Build and send the message.
    Send,
}

/// The step for one delivery: an unusable sender stops the flush, an
/// unusable recipient skips the row, otherwise the message is sent.
pub open spec fn step_for(sender_ok: bool, recipient_ok: bool) -> FlushStep {
    if !sender_ok {
        FlushStep::Stop
    } else if !recipient_ok {
        FlushStep::Skip
    } else {
        FlushStep::Send
    }
}

/// Decides the step for one delivery.
pub fn flush_step(sender_ok: bool, recipient_ok: bool) -> (s: FlushStep)
    ensures
        s == step_for(sender_ok, recipient_ok),
{
    if !sender_ok {
        FlushStep::Stop
    } else if !recipient_ok {
        FlushStep::Skip
    } else {
        FlushStep::Send
    }
}

/// The status recorded after an attempt: sent when the message was built
/// and accepted, retried when it was built and refused, invalid when it
/// could not be built.
pub open spec fn status_after(built: bool, accepted: bool) -> DeliveryStatus {
    if !built {
        DeliveryStatus::InvalidMessage
    } else if accepted {
        DeliveryStatus::Sent
    } else {
        DeliveryStatus::RetryNeeded
    }
}

/// Decides the status recorded after one send attempt.
pub fn attempt_status(built: bool, accepted: bool) -> (s: DeliveryStatus)
    ensures
        s == status_after(built, accepted),
{
    if !built {
        DeliveryStatus::InvalidMessage
    } else if accepted {
        DeliveryStatus::Sent
    } else {
        DeliveryStatus::RetryNeeded
    }
}

} // verus!
