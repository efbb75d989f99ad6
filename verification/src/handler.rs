//! The protocol handler: bridges transport lifecycle callbacks to the
//! session's notification channel and performs the one-time handshake. Each
//! callback returns the ordered list of its observable effects -- frames to
//! queue, notifications to publish, lines for the observability sink -- and
//! the unverified shell carries them out.

use vstd::prelude::*;

use crate::frames::{heartbeat_frame, heartbeat_frame_spec, subscribe_frame, subscribe_frame_spec};
use crate::numeric::{dec_of_u64, dec_str};
use crate::session::{
    connect_begin_step, connect_finish_step, session_open, ConnectStep, Notification, SessionState,
};

verus! {

/// One observable outcome of a transport callback: a text frame queued for
/// sending, a notification published on the session's channel, or a line
/// handed to the observability sink.
#[derive(Debug)]
pub enum Effect {
    Send(String),
    Publish(Notification),
    Log(String),
}

/// The mathematical shape of an `Effect`, with text as character sequences.
pub enum EffectModel {
    Send(Seq<char>),
    Publish(Notification),
    Log(Seq<char>),
}

impl View for Effect {
    type V = EffectModel;

    open spec fn view(&self) -> EffectModel {
        match self {
            Effect::Send(s) => EffectModel::Send(s@),
            Effect::Publish(n) => EffectModel::Publish(*n),
            Effect::Log(s) => EffectModel::Log(s@),
        }
    }
}

/// The models of a list of effects, in order.
pub open spec fn effects_view(es: Seq<Effect>) -> Seq<EffectModel> {
    es.map_values(|e: Effect| e@)
}

/// The frames that a list of effects queues for sending, in order.
pub open spec fn sent_frames(es: Seq<EffectModel>) -> Seq<Seq<char>>
    decreases es.len(),
{
    if es.len() == 0 {
        Seq::empty()
    } else {
        (match es[0] {
            EffectModel::Send(f) => seq![f],
            _ => Seq::<Seq<char>>::empty(),
        }) + sent_frames(es.drop_first())
    }
}

/// The notifications that a list of effects publishes, in order.
pub open spec fn published(es: Seq<EffectModel>) -> Seq<Notification>
    decreases es.len(),
{
    if es.len() == 0 {
        Seq::empty()
    } else {
        (match es[0] {
            EffectModel::Publish(n) => seq![n],
            _ => Seq::<Notification>::empty(),
        }) + published(es.drop_first())
    }
}

/// Effects of the open callback: the subscribe frame, the heartbeat-enable
/// frame, then the connect notification.
pub open spec fn on_open_model(product: Seq<char>) -> Seq<EffectModel> {
    seq![
        EffectModel::Send(subscribe_frame_spec(product)),
        EffectModel::Send(heartbeat_frame_spec()),
        EffectModel::Publish(Notification::Connect),
    ]
}

/// Effects of the close callback: a log line carrying the reason when one is
/// given, otherwise the numeric close code, then the disconnect notification.
pub open spec fn on_close_model(code: nat, reason: Seq<char>) -> Seq<EffectModel> {
    seq![
        EffectModel::Log(
            if reason.len() == 0 {
                dec_str(code)
            } else {
                reason
            },
        ),
        EffectModel::Publish(Notification::Disconnect),
    ]
}

/// Reacts to the transport's lifecycle callbacks for one instrument. It holds
/// nothing but the instrument identifier; the connection handle and the
/// notification sender stay with the shell, which pairs the published
/// `Connect` with the handle it owns.
pub struct ProtocolHandler {
    product: String,
}

impl ProtocolHandler {
    /// The instrument identifier named in the subscribe frame.
    pub closed spec fn product_spec(&self) -> Seq<char> {
        self.product@
    }

    pub fn new(product: String) -> (h: ProtocolHandler)
        ensures
            h.product_spec() == product@,
    {
        ProtocolHandler { product }
    }

    /// The open callback: queues the subscribe frame, then the
    /// heartbeat-enable frame, then publishes the connect notification.
    /// Exactly two frames, in that order, and nothing else.
    pub fn on_open(&self) -> (r: Vec<Effect>)
        ensures
            effects_view(r@) == on_open_model(self.product_spec()),
    {
        let sub = subscribe_frame(self.product.as_str());
        let hb = heartbeat_frame();
        let mut v: Vec<Effect> = Vec::new();
        v.push(Effect::Send(sub));
        v.push(Effect::Send(hb));
        v.push(Effect::Publish(Notification::Connect));
        proof {
            assert(effects_view(v@) =~= on_open_model(self.product_spec()));
        }
        v
    }

    /// The message callback: the raw payload goes to the observability sink
    /// unchanged; no frame is sent and no notification is published.
    pub fn on_message(&self, msg: String) -> (r: Vec<Effect>)
        ensures
            effects_view(r@) == seq![EffectModel::Log(msg@)],
    {
        let mut v: Vec<Effect> = Vec::new();
        v.push(Effect::Log(msg));
        proof {
            assert(effects_view(v@) =~= seq![EffectModel::Log(v@[0]->Log_0@)]);
        }
        v
    }

    /// The close callback: logs the reason when one is given, otherwise the
    /// numeric close code, then publishes the disconnect notification.
    pub fn on_close(&self, code: u64, reason: &str) -> (r: Vec<Effect>)
        ensures
            effects_view(r@) == on_close_model(code as nat, reason@),
    {
        let line = if reason.unicode_len() == 0 {
            dec_of_u64(code)
        } else {
            reason.to_owned()
        };
        let mut v: Vec<Effect> = Vec::new();
        v.push(Effect::Log(line));
        v.push(Effect::Publish(Notification::Disconnect));
        proof {
            assert(effects_view(v@) =~= on_close_model(code as nat, reason@));
        }
        v
    }

    /// The error callback: the error text is logged and nothing else happens;
    /// in particular no notification is published, so an error does not by
    /// itself resolve a pending connect or close.
    pub fn on_error(&self, err: String) -> (r: Vec<Effect>)
        ensures
            effects_view(r@) == seq![EffectModel::Log(err@)],
    {
        let mut v: Vec<Effect> = Vec::new();
        v.push(Effect::Log(err));
        proof {
            assert(effects_view(v@) =~= seq![EffectModel::Log(v@[0]->Log_0@)]);
        }
        v
    }
}

/// A successful connect round trip from the idle state: the begin step
/// orders a transport to be started, the open callback queues exactly two
/// control frames -- the subscribe frame for the instrument, then the
/// heartbeat-enable frame -- and publishes exactly the connect notification,
/// and absorbing that notification leaves the session open.
pub proof fn lemma_connect_round_trip(product: Seq<char>)
    ensures
        connect_begin_step(SessionState::Disconnected) == (
            SessionState::Connecting,
            ConnectStep::Begin,
        ),
        session_open(connect_finish_step(Some(Notification::Connect))),
        sent_frames(on_open_model(product)) =~= seq![
            subscribe_frame_spec(product),
            heartbeat_frame_spec(),
        ],
        published(on_open_model(product)) =~= seq![Notification::Connect],
{
    reveal_with_fuel(sent_frames, 5);
    reveal_with_fuel(published, 5);
    assert(sent_frames(on_open_model(product)) =~= seq![
        subscribe_frame_spec(product),
        heartbeat_frame_spec(),
    ]);
    assert(published(on_open_model(product)) =~= seq![Notification::Connect]);
}

} // verus!
