//! The status record of one channel: its protocol state and two flags.
use vstd::prelude::*;
use crate::channel_state::{
    ChannelEvent, ChannelState, TransitionError, is_connected_state, is_initializing_state,
    next_state,
};

verus! {

/// What a `ChannelStatus` holds.
pub struct StatusView {
    /// Publisher confirms are enabled.
    pub confirm: bool,
    /// The broker allows content to be sent.
    pub send_flow: bool,
    pub state: ChannelState,
}

/// The status a new channel starts with.
pub open spec fn initial_status() -> StatusView {
    StatusView { confirm: false, send_flow: true, state: ChannelState::Initial }
}

/// A write to a channel's status.
pub enum StatusOp {
    SetState(ChannelState),
    SetConfirm,
    SetSendFlow(bool),
}

/// The status after one write.
pub open spec fn apply_op(v: StatusView, op: StatusOp) -> StatusView {
    match op {
        StatusOp::SetState(s) => StatusView { state: s, ..v },
        StatusOp::SetConfirm => StatusView { confirm: true, ..v },
        StatusOp::SetSendFlow(f) => StatusView { send_flow: f, ..v },
    }
}

/// The status after a sequence of writes, in order.
pub open spec fn apply_ops(v: StatusView, ops: Seq<StatusOp>) -> StatusView
    decreases ops.len(),
{
    if ops.len() == 0 {
        v
    } else {
        apply_op(apply_ops(v, ops.drop_last()), ops.last())
    }
}

/// The protocol state and flags of one channel.
pub struct ChannelStatus {
    confirm: bool,
    send_flow: bool,
    state: ChannelState,
}

impl View for ChannelStatus {
    type V = StatusView;

    closed spec fn view(&self) -> StatusView {
        StatusView { confirm: self.confirm, send_flow: self.send_flow, state: self.state }
    }
}

impl Clone for ChannelStatus {
    fn clone(&self) -> (r: Self)
        ensures
            r@ == self@,
    {
        ChannelStatus { confirm: self.confirm, send_flow: self.send_flow, state: self.state.clone() }
    }
}

impl Default for ChannelStatus {
    fn default() -> (r: Self)
        ensures
            r@ == initial_status(),
    {
        ChannelStatus::new()
    }
}

impl ChannelStatus {
    /// Not yet opened, confirms off, sending allowed.
    pub fn new() -> (r: Self)
        ensures
            r@ == initial_status(),
    {
        ChannelStatus { confirm: false, send_flow: true, state: ChannelState::Initial }
    }

    pub fn is_initializing(&self) -> (r: bool)
        ensures
            r == is_initializing_state(self@.state),
    {
        self.state.is_initializing()
    }

    pub fn is_connected(&self) -> (r: bool)
        ensures
            r == is_connected_state(self@.state),
    {
        self.state.is_connected()
    }

    pub fn confirm(&self) -> (r: bool)
        ensures
            r == self@.confirm,
    {
        self.confirm
    }

    /// Turns publisher confirms on; nothing here turns them off again.
    pub fn set_confirm(&mut self)
        ensures
            final(self)@ == apply_op(old(self)@, StatusOp::SetConfirm),
    {
        self.confirm = true;
    }

    pub fn state(&self) -> (r: ChannelState)
        ensures
            r == self@.state,
    {
        self.state.clone()
    }

    /// Replaces the state as it is; the caller keeps to the legal transitions.
    pub fn set_state(&mut self, state: ChannelState)
        ensures
            final(self)@ == apply_op(old(self)@, StatusOp::SetState(state)),
    {
        self.state = state;
    }

    /// Records the broker's flow-control signal.
    pub fn set_send_flow(&mut self, flow: bool)
        ensures
            final(self)@ == apply_op(old(self)@, StatusOp::SetSendFlow(flow)),
    {
        self.send_flow = flow;
    }

    pub fn send_flow(&self) -> (r: bool)
        ensures
            r == self@.send_flow,
    {
        self.send_flow
    }

    /// Applies `event` to the state when the state machine allows it; a
    /// content send is refused while the broker has stopped the flow.
    /// On refusal the status is left as it was.
    pub fn apply(&mut self, event: ChannelEvent) -> (r: Result<(), StatusError>)
        ensures
            match apply_event(old(self)@, event) {
                Ok(v) => r is Ok && final(self)@ == v,
                Err(e) => r == Err::<(), StatusError>(e) && final(self)@ == old(self)@,
            },
    {
        if !self.send_flow && matches!(event, ChannelEvent::StartSending(_)) {
            return Err(StatusError::FlowStopped);
        }
        match self.state.next(event) {
            Ok(s) => {
                self.state = s;
                Ok(())
            },
            Err(e) => Err(StatusError::Refused(e)),
        }
    }
}

/// The status after `event`, or why it is refused: a content send while the
/// broker has stopped the flow, or an event the state machine refuses.
pub open spec fn apply_event(v: StatusView, event: ChannelEvent) -> Result<StatusView, StatusError> {
    if event is StartSending && !v.send_flow {
        Err(StatusError::FlowStopped)
    } else {
        match next_state(v.state, event) {
            Ok(s) => Ok(apply_op(v, StatusOp::SetState(s))),
            Err(e) => Err(StatusError::Refused(e)),
        }
    }
}

/// Why `ChannelStatus::apply` refused an event.
#[derive(Debug, PartialEq, Eq, Clone, Copy)]
pub enum StatusError {
    /// The broker has stopped the flow of content from this channel.
    FlowStopped,
    /// The state machine refused the event.
    Refused(TransitionError),
}

/// Read-after-write: after any sequence of writes, the state read back is
/// the one written by the last `SetState`, whatever came after it.
pub proof fn lemma_last_state_wins(v: StatusView, ops: Seq<StatusOp>, i: int, s: ChannelState)
    requires
        0 <= i < ops.len(),
        ops[i] == StatusOp::SetState(s),
        forall|j: int| i < j < ops.len() ==> !(#[trigger] ops[j] is SetState),
    ensures
        apply_ops(v, ops).state == s,
    decreases ops.len(),
{
    if i < ops.len() - 1 {
        lemma_last_state_wins(v, ops.drop_last(), i, s);
        assert(!(ops[ops.len() - 1] is SetState));
    }
}

/// With no `SetState` among the writes, the state is the one started from.
pub proof fn lemma_state_kept(v: StatusView, ops: Seq<StatusOp>)
    requires
        forall|j: int| 0 <= j < ops.len() ==> !(#[trigger] ops[j] is SetState),
    ensures
        apply_ops(v, ops).state == v.state,
    decreases ops.len(),
{
    if ops.len() > 0 {
        lemma_state_kept(v, ops.drop_last());
        assert(!(ops[ops.len() - 1] is SetState));
    }
}

/// Confirms stay on: once set, every later sequence of writes keeps them.
pub proof fn lemma_confirm_sticky(v: StatusView, ops: Seq<StatusOp>)
    requires
        v.confirm,
    ensures
        apply_ops(v, ops).confirm,
    decreases ops.len(),
{
    if ops.len() > 0 {
        lemma_confirm_sticky(v, ops.drop_last());
    }
}

/// Confirms are off by default, and on after any sequence of writes that
/// holds a `SetConfirm`, exactly.
pub proof fn lemma_confirm_iff_set(ops: Seq<StatusOp>)
    ensures
        !initial_status().confirm,
        apply_ops(initial_status(), ops).confirm <==> exists|j: int|
            0 <= j < ops.len() && #[trigger] ops[j] is SetConfirm,
    decreases ops.len(),
{
    if ops.len() > 0 {
        let pre = ops.drop_last();
        lemma_confirm_iff_set(pre);
        if ops.last() is SetConfirm {
            assert(ops[ops.len() - 1] is SetConfirm);
        } else {
            if exists|j: int| 0 <= j < ops.len() && #[trigger] ops[j] is SetConfirm {
                let j = choose|j: int| 0 <= j < ops.len() && #[trigger] ops[j] is SetConfirm;
                assert(pre[j] is SetConfirm);
            }
            assert forall|j: int| 0 <= j < pre.len() && #[trigger] pre[j] is SetConfirm implies
                ops[j] is SetConfirm by {}
        }
    }
}

} // verus!
