//! The protocol state of one channel and its transitions.
use vstd::prelude::*;

verus! {

/// Correlates an outstanding request with its asynchronous reply.
pub type RequestId = u64;

/// What a content delivery answers: a pending request, or a consumer's tag.
#[derive(Debug, PartialEq, Eq)]
pub enum Correlation {
    Request(RequestId),
    ConsumerTag(String),
}

impl Clone for Correlation {
    fn clone(&self) -> (r: Self)
        ensures
            r == *self,
    {
        match self {
            Correlation::Request(id) => Correlation::Request(*id),
            Correlation::ConsumerTag(tag) => Correlation::ConsumerTag(tag.clone()),
        }
    }
}

/// The protocol state of one channel; exactly one is active at a time.
#[derive(Debug, PartialEq, Eq)]
pub enum ChannelState {
    Initial,
    Connected,
    Closing,
    Closed,
    Error,
    /// Sending a multi-frame content; the count of frames still to send.
    SendingContent(usize),
    /// A method announcing content arrived; its header frame comes next.
    WillReceiveContent(Option<String>, Correlation),
    /// The header arrived; the count of body bytes still to receive.
    ReceivingContent(Option<String>, Correlation, usize),
}

fn clone_exchange(e: &Option<String>) -> (r: Option<String>)
    ensures
        r == *e,
{
    match e {
        Some(name) => Some(name.clone()),
        None => None,
    }
}

impl Clone for ChannelState {
    fn clone(&self) -> (r: Self)
        ensures
            r == *self,
    {
        match self {
            ChannelState::Initial => ChannelState::Initial,
            ChannelState::Connected => ChannelState::Connected,
            ChannelState::Closing => ChannelState::Closing,
            ChannelState::Closed => ChannelState::Closed,
            ChannelState::Error => ChannelState::Error,
            ChannelState::SendingContent(n) => ChannelState::SendingContent(*n),
            ChannelState::WillReceiveContent(e, c) => ChannelState::WillReceiveContent(
                clone_exchange(e),
                c.clone(),
            ),
            ChannelState::ReceivingContent(e, c, n) => ChannelState::ReceivingContent(
                clone_exchange(e),
                c.clone(),
                *n,
            ),
        }
    }
}

impl Default for ChannelState {
    fn default() -> (r: Self)
        ensures
            r == ChannelState::Initial,
    {
        ChannelState::Initial
    }
}

/// The channel has not been opened yet.
pub open spec fn is_initializing_state(s: ChannelState) -> bool {
    s is Initial
}

/// The channel is live: open, or in the middle of a content transfer.
pub open spec fn is_connected_state(s: ChannelState) -> bool {
    !(s is Initial || s is Closing || s is Closed || s is Error)
}

/// No further I/O may happen on a channel in this state.
pub open spec fn is_terminal_state(s: ChannelState) -> bool {
    s is Closed || s is Error
}

impl ChannelState {
    pub fn is_initializing(&self) -> (r: bool)
        ensures
            r == is_initializing_state(*self),
    {
        match self {
            ChannelState::Initial => true,
            _ => false,
        }
    }

    pub fn is_connected(&self) -> (r: bool)
        ensures
            r == is_connected_state(*self),
    {
        match self {
            ChannelState::Initial | ChannelState::Closing | ChannelState::Closed
            | ChannelState::Error => false,
            _ => true,
        }
    }
}

/// Something that happens on a channel and may move it to another state.
#[derive(Debug, PartialEq, Eq)]
pub enum ChannelEvent {
    /// The broker acknowledged the opening of the channel.
    Opened,
    /// The channel is about to send a content made of this many frames.
    StartSending(usize),
    /// One frame of the content being sent went out.
    FrameSent,
    /// A method announcing incoming content arrived.
    ContentAnnounced(Option<String>, Correlation),
    /// The content header arrived, giving the body size in bytes.
    HeaderReceived(usize),
    /// A body frame of this many bytes arrived.
    BodyReceived(usize),
    /// A close was requested.
    CloseRequested,
    /// The broker acknowledged the close.
    CloseAcknowledged,
    /// A protocol or transport error occurred, or a transfer was interrupted.
    Failed,
}

/// Why an event was refused.
#[derive(Debug, PartialEq, Eq, Clone, Copy)]
pub enum TransitionError {
    /// The channel is closed or failed: no operation may proceed on it.
    Terminal,
    /// The event does not fit the current state.
    Unexpected,
}

/// The state after `s` once `e` happens, or why `e` is refused there.
pub open spec fn next_state(s: ChannelState, e: ChannelEvent) -> Result<ChannelState, TransitionError> {
    if is_terminal_state(s) {
        Err(TransitionError::Terminal)
    } else {
        match e {
            ChannelEvent::Failed => Ok(ChannelState::Error),
            ChannelEvent::Opened => if s is Initial {
                Ok(ChannelState::Connected)
            } else {
                Err(TransitionError::Unexpected)
            },
            ChannelEvent::CloseRequested => if s is Connected {
                Ok(ChannelState::Closing)
            } else {
                Err(TransitionError::Unexpected)
            },
            ChannelEvent::CloseAcknowledged => if s is Closing {
                Ok(ChannelState::Closed)
            } else {
                Err(TransitionError::Unexpected)
            },
            ChannelEvent::StartSending(n) => if s is Connected {
                if n == 0 {
                    Ok(ChannelState::Connected)
                } else {
                    Ok(ChannelState::SendingContent(n))
                }
            } else {
                Err(TransitionError::Unexpected)
            },
            ChannelEvent::FrameSent => match s {
                ChannelState::SendingContent(n) => if n <= 1 {
                    Ok(ChannelState::Connected)
                } else {
                    Ok(ChannelState::SendingContent((n - 1) as usize))
                },
                _ => Err(TransitionError::Unexpected),
            },
            ChannelEvent::ContentAnnounced(x, c) => if s is Connected {
                Ok(ChannelState::WillReceiveContent(x, c))
            } else {
                Err(TransitionError::Unexpected)
            },
            ChannelEvent::HeaderReceived(size) => match s {
                ChannelState::WillReceiveContent(x, c) => Ok(ChannelState::ReceivingContent(x, c, size)),
                _ => Err(TransitionError::Unexpected),
            },
            ChannelEvent::BodyReceived(len) => match s {
                ChannelState::ReceivingContent(x, c, left) => if len > left {
                    Err(TransitionError::Unexpected)
                } else if len == left {
                    Ok(ChannelState::Connected)
                } else {
                    Ok(ChannelState::ReceivingContent(x, c, (left - len) as usize))
                },
                _ => Err(TransitionError::Unexpected),
            },
        }
    }
}

impl ChannelState {
    /// The state that follows `event`, or the reason it is refused.
    pub fn next(&self, event: ChannelEvent) -> (r: Result<ChannelState, TransitionError>)
        ensures
            r == next_state(*self, event),
    {
        if matches!(self, ChannelState::Closed | ChannelState::Error) {
            return Err(TransitionError::Terminal);
        }
        match event {
            ChannelEvent::Failed => Ok(ChannelState::Error),
            ChannelEvent::Opened => match self {
                ChannelState::Initial => Ok(ChannelState::Connected),
                _ => Err(TransitionError::Unexpected),
            },
            ChannelEvent::CloseRequested => match self {
                ChannelState::Connected => Ok(ChannelState::Closing),
                _ => Err(TransitionError::Unexpected),
            },
            ChannelEvent::CloseAcknowledged => match self {
                ChannelState::Closing => Ok(ChannelState::Closed),
                _ => Err(TransitionError::Unexpected),
            },
            ChannelEvent::StartSending(n) => match self {
                ChannelState::Connected => if n == 0 {
                    Ok(ChannelState::Connected)
                } else {
                    Ok(ChannelState::SendingContent(n))
                },
                _ => Err(TransitionError::Unexpected),
            },
            ChannelEvent::FrameSent => match self {
                ChannelState::SendingContent(n) => if *n <= 1 {
                    Ok(ChannelState::Connected)
                } else {
                    Ok(ChannelState::SendingContent(*n - 1))
                },
                _ => Err(TransitionError::Unexpected),
            },
            ChannelEvent::ContentAnnounced(x, c) => match self {
                ChannelState::Connected => Ok(ChannelState::WillReceiveContent(x, c)),
                _ => Err(TransitionError::Unexpected),
            },
            ChannelEvent::HeaderReceived(size) => match self {
                ChannelState::WillReceiveContent(x, c) => Ok(
                    ChannelState::ReceivingContent(clone_exchange(x), c.clone(), size),
                ),
                _ => Err(TransitionError::Unexpected),
            },
            ChannelEvent::BodyReceived(len) => match self {
                ChannelState::ReceivingContent(x, c, left) => if len > *left {
                    Err(TransitionError::Unexpected)
                } else if len == *left {
                    Ok(ChannelState::Connected)
                } else {
                    Ok(ChannelState::ReceivingContent(clone_exchange(x), c.clone(), *left - len))
                },
                _ => Err(TransitionError::Unexpected),
            },
        }
    }
}

/// An announced content is never skipped: whatever happens to a channel that
/// awaits a content header, it does not come back to `Connected` at once.
pub proof fn lemma_announced_content_not_skipped(
    x: Option<String>,
    c: Correlation,
    e: ChannelEvent,
)
    ensures
        next_state(ChannelState::WillReceiveContent(x, c), e) != Ok::<ChannelState, TransitionError>(
            ChannelState::Connected,
        ),
{
}

/// A received header of `size` bytes leads to `ReceivingContent` with that
/// count, and a body of exactly `size` bytes then leads back to `Connected`.
pub proof fn lemma_content_received_in_full(x: Option<String>, c: Correlation, size: usize)
    ensures
        next_state(ChannelState::WillReceiveContent(x, c), ChannelEvent::HeaderReceived(size))
            == Ok::<ChannelState, TransitionError>(ChannelState::ReceivingContent(x, c, size)),
        next_state(ChannelState::ReceivingContent(x, c, size), ChannelEvent::BodyReceived(size))
            == Ok::<ChannelState, TransitionError>(ChannelState::Connected),
{
}

/// A closed or failed channel refuses every event, without changing state.
pub proof fn lemma_terminal_refuses(s: ChannelState, e: ChannelEvent)
    requires
        is_terminal_state(s),
    ensures
        next_state(s, e) == Err::<ChannelState, TransitionError>(TransitionError::Terminal),
{
}

} // verus!
