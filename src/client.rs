//! The client: the negotiated configuration, the shared transport handle,
//! and the channels made over it.
use vstd::prelude::*;
use crate::channel_state::{ChannelEvent, ChannelState};
use crate::channel_status::{
    ChannelStatus, StatusError, StatusOp, StatusView, apply_event, apply_op, initial_status,
};
use crate::heartbeat::{PulseState, initial_phase};

verus! {

/// The connection parameters settled with the broker during the handshake.
#[derive(Debug, Clone, Copy, PartialEq, Eq, Structural)]
pub struct Configuration {
    pub channel_max: u16,
    pub frame_max: u32,
    /// Heartbeat interval in seconds; 0 disables heartbeats.
    pub heartbeat: u16,
}

/// One logical channel over the shared transport handle `T`.
pub struct Channel<T> {
    id: u16,
    status: ChannelStatus,
    transport: T,
}

impl<T> Channel<T> {
    pub closed spec fn id_spec(&self) -> u16 {
        self.id
    }

    pub closed spec fn status_spec(&self) -> StatusView {
        self.status@
    }

    pub closed spec fn transport_spec(&self) -> T {
        self.transport
    }

    /// A channel numbered `id`, not opened yet.
    pub fn new(id: u16, transport: T) -> (r: Channel<T>)
        ensures
            r.id_spec() == id,
            r.status_spec() == initial_status(),
            r.transport_spec() == transport,
    {
        Channel { id, status: ChannelStatus::new(), transport }
    }

    pub fn id(&self) -> (r: u16)
        ensures
            r == self.id_spec(),
    {
        self.id
    }

    pub fn status(&self) -> (r: &ChannelStatus)
        ensures
            r@ == self.status_spec(),
    {
        &self.status
    }

    pub fn transport(&self) -> (r: &T)
        ensures
            *r == self.transport_spec(),
    {
        &self.transport
    }

    /// Applies an event to the channel's status, as `ChannelStatus::apply`.
    pub fn apply(&mut self, event: ChannelEvent) -> (r: Result<(), StatusError>)
        ensures
            final(self).id_spec() == old(self).id_spec(),
            final(self).transport_spec() == old(self).transport_spec(),
            match apply_event(old(self).status_spec(), event) {
                Ok(v) => r is Ok && final(self).status_spec() == v,
                Err(e) => r == Err::<(), StatusError>(e) && final(self).status_spec()
                    == old(self).status_spec(),
            },
    {
        self.status.apply(event)
    }

    /// Records that the broker accepted confirm mode on this channel.
    pub fn set_confirm(&mut self)
        ensures
            final(self).id_spec() == old(self).id_spec(),
            final(self).transport_spec() == old(self).transport_spec(),
            final(self).status_spec() == apply_op(old(self).status_spec(), StatusOp::SetConfirm),
    {
        self.status.set_confirm();
    }
}

/// Completes the opening of a channel once the broker has answered: an
/// acknowledged open leaves the channel `Connected`, a failed one hands
/// back the error and no channel.
pub fn finish_open<T, E>(channel: Channel<T>, opened: Result<(), E>) -> (r: Result<
    Channel<T>,
    OpenError<E>,
>)
    requires
        channel.status_spec() == initial_status(),
    ensures
        match opened {
            Ok(()) => r is Ok && r->Ok_0.id_spec() == channel.id_spec()
                && r->Ok_0.transport_spec() == channel.transport_spec()
                && r->Ok_0.status_spec() == (StatusView {
                state: ChannelState::Connected,
                ..initial_status()
            }),
            Err(e) => r == Err::<Channel<T>, OpenError<E>>(OpenError::Io(e)),
        },
{
    match opened {
        Ok(()) => {
            let mut channel = channel;
            match channel.apply(ChannelEvent::Opened) {
                Ok(()) => Ok(channel),
                Err(e) => Err(OpenError::Refused(e)),
            }
        },
        Err(e) => Err(OpenError::Io(e)),
    }
}

/// Why a channel could not be opened.
pub enum OpenError<E> {
    /// The handshake with the broker failed.
    Io(E),
    /// The channel's state refused the opening.
    Refused(StatusError),
}

/// Completes a confirm channel once the broker has answered the request for
/// confirm mode: the channel comes back with confirms on, or the error comes
/// back and the channel does not.
pub fn finish_confirm_channel<T, E>(channel: Channel<T>, confirm_select: Result<(), E>) -> (r:
    Result<Channel<T>, E>)
    ensures
        match confirm_select {
            Ok(()) => r is Ok && r->Ok_0.id_spec() == channel.id_spec()
                && r->Ok_0.transport_spec() == channel.transport_spec()
                && r->Ok_0.status_spec() == apply_op(channel.status_spec(), StatusOp::SetConfirm),
            Err(e) => r == Err::<Channel<T>, E>(e),
        },
        r is Ok ==> r->Ok_0.status_spec().confirm,
{
    match confirm_select {
        Ok(()) => {
            let mut channel = channel;
            channel.set_confirm();
            Ok(channel)
        },
        Err(e) => Err(e),
    }
}

/// The top-level handle: the shared transport handle and the configuration
/// settled with the broker.
pub struct Client<T> {
    transport: T,
    configuration: Configuration,
}

impl<T> Client<T> {
    pub closed spec fn transport_spec(&self) -> T {
        self.transport
    }

    /// The client made from a completed handshake, with the heartbeat
    /// decisions for the interval settled there.
    pub fn from_handshake(transport: T, configuration: Configuration) -> (r: (Client<T>, PulseState))
        ensures
            r.0.transport_spec() == transport,
            r.0.configuration_spec() == configuration,
            r.1.interval_spec() == configuration.heartbeat,
            r.1.phase_spec() == initial_phase(configuration.heartbeat),
    {
        let pulse = PulseState::new(configuration.heartbeat);
        (Client { transport, configuration }, pulse)
    }

    pub closed spec fn configuration_spec(&self) -> Configuration {
        self.configuration
    }

    pub fn transport(&self) -> (r: &T)
        ensures
            *r == self.transport_spec(),
    {
        &self.transport
    }

    pub fn configuration(&self) -> (r: Configuration)
        ensures
            r == self.configuration_spec(),
    {
        self.configuration
    }

    /// A new channel numbered `id` over this client's transport handle.
    pub fn new_channel(&self, id: u16) -> (r: Channel<T>) where T: Clone
        ensures
            r.id_spec() == id,
            r.status_spec() == initial_status(),
            cloned(self.transport_spec(), r.transport_spec()),
    {
        Channel::new(id, self.transport.clone())
    }
}

impl<T: Clone> Clone for Client<T> {
    /// Shares the transport handle and copies the configuration.
    fn clone(&self) -> (r: Self)
        ensures
            r.configuration_spec() == self.configuration_spec(),
            cloned(self.transport_spec(), r.transport_spec()),
    {
        Client { transport: self.transport.clone(), configuration: self.configuration }
    }
}

} // verus!
