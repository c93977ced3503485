//! What becomes of an update that is offered to the bounded output channel.
use crate::text::push_decimal;
use crate::updates::UpdateType;
use vstd::prelude::*;

verus! {

/// Why the output channel did not take an update.
#[derive(Debug, Clone, Copy, PartialEq, Eq, Structural)]
pub enum SendFailure {
    /// The channel holds as many updates as it can.
    Full,
    /// Nobody reads the channel any more.
    Closed,
}

/// An update was lost, so that the stream has to be subscribed to anew.
#[derive(Debug, Clone, Copy, PartialEq, Eq, Structural)]
pub enum AuthoritativeOutputError {
    Full { update_type: UpdateType, slot: u64 },
    Closed { update_type: UpdateType, slot: u64 },
}

impl AuthoritativeOutputError {
    /// The text of the error.
    pub open spec fn text(&self) -> Seq<char> {
        let (state, update_type, slot) = match self {
            AuthoritativeOutputError::Full { update_type, slot } => ("full"@, *update_type, *slot),
            AuthoritativeOutputError::Closed { update_type, slot } => ("closed"@, *update_type, *slot),
        };
        "authoritative output channel "@ + state + " for "@ + update_type.name_text() + " at slot "@
            + crate::text::decimal_digits(slot as nat)
    }

    /// The state of the channel, as a label: one of two.
    pub open spec fn state_label(&self) -> &'static str {
        match self {
            AuthoritativeOutputError::Full { .. } => "full",
            AuthoritativeOutputError::Closed { .. } => "closed",
        }
    }

    /// The kind of the update that was lost.
    pub open spec fn lost_type(&self) -> UpdateType {
        match self {
            AuthoritativeOutputError::Full { update_type, .. } => *update_type,
            AuthoritativeOutputError::Closed { update_type, .. } => *update_type,
        }
    }

    /// The state of the channel, as a label.
    pub fn as_label(&self) -> (r: &'static str)
        ensures
            r == self.state_label(),
    {
        match self {
            AuthoritativeOutputError::Full { update_type: _, slot: _ } => "full",
            AuthoritativeOutputError::Closed { update_type: _, slot: _ } => "closed",
        }
    }

    /// The kind of the update that was lost.
    pub fn update_type(&self) -> (r: UpdateType)
        ensures
            r == self.lost_type(),
    {
        match self {
            AuthoritativeOutputError::Full { update_type, slot: _ } => *update_type,
            AuthoritativeOutputError::Closed { update_type, slot: _ } => *update_type,
        }
    }

    /// The text of the error.
    pub fn describe(&self) -> (r: String)
        ensures
            r@ == self.text(),
    {
        let (state, update_type, slot): (&'static str, UpdateType, u64) = match self {
            AuthoritativeOutputError::Full { update_type, slot } => ("full", *update_type, *slot),
            AuthoritativeOutputError::Closed { update_type, slot } => ("closed", *update_type, *slot),
        };
        let mut text = "authoritative output channel ".to_owned();
        text.append(state);
        text.append(" for ");
        text.append(update_type.name());
        text.append(" at slot ");
        push_decimal(&mut text, slot);
        text
    }
}

/// Whether a failed send is part of an orderly shutdown: the datasource was cancelled, and
/// the channel is closed.
pub fn expected_closed_send_after_cancellation(error: SendFailure, cancelled: bool) -> (r: bool)
    ensures
        r == (cancelled && error == SendFailure::Closed),
{
    cancelled && match error {
        SendFailure::Closed => true,
        SendFailure::Full => false,
    }
}

/// What a send of an update comes to: it was taken (`true`), or it was dropped in an
/// orderly shutdown (`false`), or it was lost.
pub open spec fn send_outcome(
    update_type: UpdateType,
    slot: u64,
    sent: Result<(), SendFailure>,
    cancelled: bool,
) -> Result<bool, AuthoritativeOutputError> {
    match sent {
        Ok(()) => Ok(true),
        Err(SendFailure::Closed) => if cancelled {
            Ok(false)
        } else {
            Err(AuthoritativeOutputError::Closed { update_type, slot })
        },
        Err(SendFailure::Full) => Err(AuthoritativeOutputError::Full { update_type, slot }),
    }
}

/// What a send of an update comes to, given the answer of the channel.
pub fn try_send_authoritative_update(
    update_type: UpdateType,
    slot: u64,
    sent: Result<(), SendFailure>,
    cancelled: bool,
) -> (r: Result<bool, AuthoritativeOutputError>)
    ensures
        r == send_outcome(update_type, slot, sent, cancelled),
{
    match sent {
        Ok(()) => Ok(true),
        Err(error) => if expected_closed_send_after_cancellation(error, cancelled) {
            Ok(false)
        } else {
            match error {
                SendFailure::Full => Err(AuthoritativeOutputError::Full { update_type, slot }),
                SendFailure::Closed => Err(AuthoritativeOutputError::Closed { update_type, slot }),
            }
        },
    }
}

/// No update is lost in silence: a send that fails is an error that names the update and
/// its slot, except where the datasource was cancelled and the channel is closed.
pub proof fn law_no_silent_loss(
    update_type: UpdateType,
    slot: u64,
    sent: Result<(), SendFailure>,
    cancelled: bool,
)
    ensures
        sent is Ok <==> send_outcome(update_type, slot, sent, cancelled) == Ok::<bool, AuthoritativeOutputError>(true),
        send_outcome(update_type, slot, sent, cancelled) == Ok::<bool, AuthoritativeOutputError>(false) <==> sent
            == Err::<(), SendFailure>(SendFailure::Closed) && cancelled,
        sent is Err && !cancelled ==> send_outcome(update_type, slot, sent, cancelled) is Err,
        sent == Err::<(), SendFailure>(SendFailure::Full) ==> send_outcome(update_type, slot, sent, cancelled) == Err::<
            bool,
            AuthoritativeOutputError,
        >(AuthoritativeOutputError::Full { update_type, slot }),
{
}

} // verus!
