//! The session manager's state machine. A session exposes a synchronous
//! connect/close contract over an event-driven transport: the unverified
//! shell spawns the transport loop, performs the ordered actions, and feeds
//! the notifications that the protocol handler published back into the
//! machine. Each public method here is one decision point of that round
//! trip; the shell blocks between the begin and finish steps.

use vstd::prelude::*;

verus! {

/// The lifecycle of one session. At rest only `Disconnected` and `Connected`
/// are observable; `Connecting` and `Closing` exist while a caller is blocked
/// inside a connect or close round trip.
#[derive(Clone, Copy, Debug, PartialEq, Eq, Structural)]
pub enum SessionState {
    Disconnected,
    Connecting,
    Connected,
    Closing,
}

/// What the protocol handler publishes on the notification channel: the
/// connection opened (the shell pairs this with the transport's connection
/// handle) or it closed. Crossing from the transport's callback context to
/// the blocked caller is its only purpose.
#[derive(Clone, Copy, Debug, PartialEq, Eq, Structural)]
pub enum Notification {
    Connect,
    Disconnect,
}

/// What the shell must do after the begin step of a connect round trip:
/// install a fresh notification channel and spawn the transport loop, or
/// nothing, because a connection attempt or connection already exists.
#[derive(Clone, Copy, Debug, PartialEq, Eq, Structural)]
pub enum ConnectStep {
    Begin,
    AlreadyActive,
}

/// What the shell must do after the begin step of a close round trip:
/// request a normal-closure shutdown through the stored handle and wait for
/// the disconnect notification, or nothing, because no handle is held --
/// closing a session that never connected succeeds at once, without waiting
/// on a channel that would never deliver.
#[derive(Clone, Copy, Debug, PartialEq, Eq, Structural)]
pub enum CloseStep {
    RequestShutdown,
    NoHandle,
}

/// A session holds a connection exactly in the `Connected` state.
pub open spec fn session_open(st: SessionState) -> bool {
    st is Connected
}

/// The begin step of a connect round trip: only an idle session starts a
/// transport; any other state leaves the machine unchanged.
pub open spec fn connect_begin_step(st: SessionState) -> (SessionState, ConnectStep) {
    if st is Disconnected {
        (SessionState::Connecting, ConnectStep::Begin)
    } else {
        (st, ConnectStep::AlreadyActive)
    }
}

/// The finish step of a connect round trip: the connect notification opens
/// the session; anything else (a disconnect, or a channel that went dead)
/// returns it to idle.
pub open spec fn connect_finish_step(n: Option<Notification>) -> SessionState {
    if n == Some(Notification::Connect) {
        SessionState::Connected
    } else {
        SessionState::Disconnected
    }
}

/// The begin step of a close round trip: only an open session has a handle
/// to shut down; any other state reports that there is nothing to wait for.
pub open spec fn close_begin_step(st: SessionState) -> (SessionState, CloseStep) {
    if st is Connected {
        (SessionState::Closing, CloseStep::RequestShutdown)
    } else {
        (st, CloseStep::NoHandle)
    }
}

/// The finish step of a close round trip: whatever the channel delivered,
/// the handle is dropped and the session is idle again.
pub open spec fn close_finish_step(n: Option<Notification>) -> SessionState {
    SessionState::Disconnected
}

/// A streaming session bound to one instrument, reusable across connect and
/// close cycles. The connection handle itself is owned by the shell; the
/// machine records only whether one is held.
pub struct Session {
    state: SessionState,
    product: String,
}

impl Session {
    /// The current lifecycle state.
    pub closed spec fn state_spec(&self) -> SessionState {
        self.state
    }

    /// The instrument identifier the session subscribes to, fixed at
    /// construction.
    pub closed spec fn product_spec(&self) -> Seq<char> {
        self.product@
    }

    /// Constructs an idle session bound to one instrument. It is not open.
    pub fn new(product: String) -> (s: Session)
        ensures
            s.state_spec() is Disconnected,
            !session_open(s.state_spec()),
            s.product_spec() == product@,
    {
        Session { state: SessionState::Disconnected, product }
    }

    /// The instrument identifier the session subscribes to.
    pub fn product(&self) -> (r: &str)
        ensures
            r@ == self.product_spec(),
    {
        self.product.as_str()
    }

    /// True exactly when a connection handle is held. Never blocks.
    pub fn is_open(&self) -> (r: bool)
        ensures
            r == session_open(self.state_spec()),
    {
        matches!(self.state, SessionState::Connected)
    }

    /// Begin a connect round trip. On `Begin` the shell installs a fresh
    /// notification channel, spawns the transport loop with a protocol
    /// handler bound to the new sender, blocks on the receiver, and reports
    /// the outcome to `connect_finish`. On `AlreadyActive` nothing happens:
    /// a redundant connect spawns no second transport and re-sends nothing.
    pub fn connect_begin(&mut self) -> (r: ConnectStep)
        ensures
            (final(self).state_spec(), r) == connect_begin_step(old(self).state_spec()),
            final(self).product_spec() == old(self).product_spec(),
    {
        match self.state {
            SessionState::Disconnected => {
                self.state = SessionState::Connecting;
                ConnectStep::Begin
            },
            _ => ConnectStep::AlreadyActive,
        }
    }

    /// Finish a connect round trip with what the channel delivered; `None`
    /// stands for a channel whose sender was dropped before sending.
    pub fn connect_finish(&mut self, n: Option<Notification>)
        requires
            old(self).state_spec() is Connecting,
        ensures
            final(self).state_spec() == connect_finish_step(n),
            final(self).product_spec() == old(self).product_spec(),
    {
        match n {
            Some(Notification::Connect) => {
                self.state = SessionState::Connected;
            },
            _ => {
                self.state = SessionState::Disconnected;
            },
        }
    }

    /// Begin a close round trip. On `RequestShutdown` the shell asks the
    /// handle for a normal closure, blocks on the receiver, and reports the
    /// outcome to `close_finish`. On `NoHandle` the close is already
    /// complete: the caller returns success without blocking.
    pub fn close_begin(&mut self) -> (r: CloseStep)
        ensures
            (final(self).state_spec(), r) == close_begin_step(old(self).state_spec()),
            final(self).product_spec() == old(self).product_spec(),
    {
        match self.state {
            SessionState::Connected => {
                self.state = SessionState::Closing;
                CloseStep::RequestShutdown
            },
            _ => CloseStep::NoHandle,
        }
    }

    /// Finish a close round trip: the handle is dropped whatever the channel
    /// delivered, and the session is idle again.
    pub fn close_finish(&mut self, n: Option<Notification>)
        requires
            old(self).state_spec() is Closing,
        ensures
            final(self).state_spec() == close_finish_step(n),
            !session_open(final(self).state_spec()),
            final(self).product_spec() == old(self).product_spec(),
    {
        self.state = SessionState::Disconnected;
    }
}

/// A session is never open immediately after construction: construction
/// yields the idle state, and the idle state holds no connection.
pub proof fn lemma_new_session_not_open(s: Session)
    requires
        s.state_spec() is Disconnected,
    ensures
        !session_open(s.state_spec()),
{
}

/// A redundant connect is a no-op: from any state other than idle, the begin
/// step changes nothing and orders no new transport, so no second transport
/// loop is spawned and no handshake frame is re-sent.
pub proof fn lemma_connect_idempotent(st: SessionState)
    requires
        !(st is Disconnected),
    ensures
        connect_begin_step(st) == (st, ConnectStep::AlreadyActive),
{
}

/// Closing a session that holds no connection is an immediate success: the
/// begin step reports that there is nothing to shut down and leaves the
/// state unchanged, so the caller never waits on the channel.
pub proof fn lemma_close_never_connected()
    ensures
        close_begin_step(SessionState::Disconnected) == (
            SessionState::Disconnected,
            CloseStep::NoHandle,
        ),
{
}

/// A full close round trip from an open session leaves it not open, and a
/// subsequent connect begins a fresh transport exactly as on a new session:
/// no state leaks from the closed connection into the next attempt.
pub proof fn lemma_close_round_trip(st: SessionState, n: Option<Notification>)
    requires
        st is Connected,
    ensures
        ({
            let (closing, step) = close_begin_step(st);
            let after = close_finish_step(n);
            &&& step == CloseStep::RequestShutdown
            &&& closing is Closing
            &&& !session_open(after)
            &&& connect_begin_step(after) == (SessionState::Connecting, ConnectStep::Begin)
        }),
{
}

} // verus!
