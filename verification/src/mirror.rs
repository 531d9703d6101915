//! The handling of one message, as decisions.
//!
//! Sending is the caller's work. This module decides what is to be sent: for
//! a message from a mirrored channel first its payload, once; if there is no
//! payload, or if sending it failed, a short notice in its place, once; after
//! that nothing, whatever became of the notice. The caller performs each step
//! and reports how it went.

use vstd::prelude::*;
use vstd::string::*;
use crate::model::{
    error_text, InboundMessage, InboundMessageView, OutboundPayload, OutboundPayloadView,
};
use crate::routes::RouteTable;
use crate::text::{append_decimal, decimal};
use crate::transform::{transform, transformed};

verus! {

/// Where the handling of a message stands.
#[derive(Clone, Debug, PartialEq, Eq)]
pub enum Mirror {
    /// The payload is being sent. `id` and `author` name the message, should
    /// a notice be needed.
    Sending { id: u64, author: String },
    /// The notice is being sent.
    Notifying,
    /// Nothing is left to do.
    Finished,
}

pub enum MirrorView {
    Sending { id: u64, author: Seq<char> },
    Notifying,
    Finished,
}

impl View for Mirror {
    type V = MirrorView;

    open spec fn view(&self) -> MirrorView {
        match self {
            Mirror::Sending { id, author } => MirrorView::Sending { id: *id, author: author@ },
            Mirror::Notifying => MirrorView::Notifying,
            Mirror::Finished => MirrorView::Finished,
        }
    }
}

/// What the caller is to do next.
#[derive(Clone, Debug, PartialEq, Eq)]
pub enum Step<E> {
    /// Send this payload, in one call, and report how it went.
    Send(OutboundPayload<E>),
    /// Record the failure, send this text alone, and report how it went.
    Notify(String),
    /// Stop.
    Finish,
}

pub enum StepView<E> {
    Send(OutboundPayloadView<E>),
    Notify(Seq<char>),
    Finish,
}

impl<E> View for Step<E> {
    type V = StepView<E>;

    open spec fn view(&self) -> StepView<E> {
        match self {
            Step::Send(p) => StepView::Send(p@),
            Step::Notify(t) => StepView::Notify(t@),
            Step::Finish => StepView::Finish,
        }
    }
}

/// How a send went. A failure carries the sender's account of it.
#[derive(Clone, Debug, PartialEq, Eq)]
pub enum Delivery {
    Delivered,
    Failed(String),
}

pub enum DeliveryView {
    Delivered,
    Failed(Seq<char>),
}

impl View for Delivery {
    type V = DeliveryView;

    open spec fn view(&self) -> DeliveryView {
        match self {
            Delivery::Delivered => DeliveryView::Delivered,
            Delivery::Failed(why) => DeliveryView::Failed(why@),
        }
    }
}

/// The text of a notice: which message failed, whose it was, and why.
pub open spec fn notice_text(id: u64, author: Seq<char>, why: Seq<char>) -> Seq<char> {
    "failed to plagiarize message #"@ + decimal(id as nat) + " from "@ + author + " ("@ + why
        + ")"@
}

/// The line that records the arrival of a message from a mirrored channel.
pub open spec fn trace_text(id: u64, channel: u64, author: Seq<char>) -> Seq<char> {
    "plagiarizing message #"@ + decimal(id as nat) + " in channel #"@ + decimal(channel as nat)
        + " from "@ + author
}

/// The first state and step for a message from a mirrored channel.
pub open spec fn opened<E>(m: InboundMessageView<E>) -> (MirrorView, StepView<E>) {
    match transformed(m) {
        Ok(p) => (MirrorView::Sending { id: m.id, author: m.author.name }, StepView::Send(p)),
        Err(e) => (
            MirrorView::Notifying,
            StepView::Notify(notice_text(m.id, m.author.name, error_text(e))),
        ),
    }
}

/// The state and step that follow when a send has gone as `d` says.
pub open spec fn advanced<E>(s: MirrorView, d: DeliveryView) -> (MirrorView, StepView<E>) {
    match s {
        MirrorView::Sending { id, author } => match d {
            DeliveryView::Delivered => (MirrorView::Finished, StepView::Finish),
            DeliveryView::Failed(why) => (
                MirrorView::Notifying,
                StepView::Notify(notice_text(id, author, why)),
            ),
        },
        MirrorView::Notifying => (MirrorView::Finished, StepView::Finish),
        MirrorView::Finished => (MirrorView::Finished, StepView::Finish),
    }
}

/// Writes the notice for message `id` of `author`, which failed because of
/// `why`.
pub fn notice(id: u64, author: &str, why: &str) -> (text: String)
    ensures
        text@ == notice_text(id, author@, why@),
{
    let mut text = String::from_str("failed to plagiarize message #");
    append_decimal(&mut text, id);
    text.append(" from ");
    text.append(author);
    text.append(" (");
    text.append(why);
    text.append(")");
    text
}

/// Writes the line that records the arrival of message `id` of `author` in
/// `channel`.
pub fn trace(id: u64, channel: u64, author: &str) -> (text: String)
    ensures
        text@ == trace_text(id, channel, author@),
{
    let mut text = String::from_str("plagiarizing message #");
    append_decimal(&mut text, id);
    text.append(" in channel #");
    append_decimal(&mut text, channel);
    text.append(" from ");
    text.append(author);
    text
}

impl Mirror {
    /// Begins the handling of a message from a mirrored channel: transforms
    /// it, and asks for the payload to be sent or, where there is none, for
    /// the notice.
    pub fn open<E>(msg: InboundMessage<E>) -> (r: (Mirror, Step<E>))
        ensures
            (r.0@, r.1@) == opened(msg@),
    {
        let id = msg.id;
        let author = msg.author.name.clone();
        match transform(msg) {
            Ok(payload) => (Mirror::Sending { id, author }, Step::Send(payload)),
            Err(e) => {
                let why = e.message();
                (Mirror::Notifying, Step::Notify(notice(id, author.as_str(), why.as_str())))
            },
        }
    }

    /// Takes the report of the last step and decides the next one.
    pub fn advance<E>(self, outcome: Delivery) -> (r: (Mirror, Step<E>))
        ensures
            (r.0@, r.1@) == advanced::<E>(self@, outcome@),
    {
        match self {
            Mirror::Sending { id, author } => match outcome {
                Delivery::Delivered => (Mirror::Finished, Step::Finish),
                Delivery::Failed(why) => (
                    Mirror::Notifying,
                    Step::Notify(notice(id, author.as_str(), why.as_str())),
                ),
            },
            Mirror::Notifying => (Mirror::Finished, Step::Finish),
            Mirror::Finished => (Mirror::Finished, Step::Finish),
        }
    }
}

/// A message on its way to a destination.
pub struct Routed<'a, H, E> {
    /// Where it goes.
    pub handle: &'a H,
    /// The line to record before anything is sent.
    pub trace: String,
    /// Where its handling stands.
    pub mirror: Mirror,
    /// What is to be done first.
    pub step: Step<E>,
}

/// Receives a message. One from a channel that is not mirrored is dropped:
/// nothing is transformed, and there is nothing to send or to record. For any
/// other, the arrival is to be recorded and the handling begins, towards the
/// channel's destination.
pub fn on_message<'a, H, E>(routes: &'a RouteTable<H>, msg: InboundMessage<E>) -> (r: Option<
    Routed<'a, H, E>,
>)
    ensures
        match r {
            None => !routes@.contains_key(msg.channel),
            Some(routed) => {
                &&& routes@.contains_key(msg.channel)
                &&& *routed.handle == routes@[msg.channel]
                &&& routed.trace@ == trace_text(msg.id, msg.channel, msg.author.name@)
                &&& (routed.mirror@, routed.step@) == opened(msg@)
            },
        },
{
    match routes.lookup(msg.channel) {
        None => None,
        Some(handle) => {
            let trace = trace(msg.id, msg.channel, msg.author.name.as_str());
            let (mirror, step) = Mirror::open(msg);
            Some(Routed { handle, trace, mirror, step })
        },
    }
}

/// A payload is asked for at the opening only: no report brings another.
pub proof fn lemma_payload_sent_at_most_once<E>(s: MirrorView, d: DeliveryView)
    ensures
        !(advanced::<E>(s, d).1 is Send),
{
}

/// A notice is asked for at most once: after one, the next report ends the
/// handling, whatever it says.
pub proof fn lemma_notice_sent_at_most_once<E>(s: MirrorView, d: DeliveryView)
    requires
        s is Notifying,
    ensures
        advanced::<E>(s, d) == (MirrorView::Finished, StepView::<E>::Finish),
{
}

/// A notice follows a report exactly where the payload was being sent and the
/// report is a failure; it then names the message, its author and the failure.
pub proof fn lemma_notice_follows_failure<E>(s: MirrorView, d: DeliveryView)
    ensures
        advanced::<E>(s, d).1 is Notify <==> s is Sending && d is Failed,
        s is Sending && d is Failed ==> advanced::<E>(s, d) == (
            MirrorView::Notifying,
            StepView::<E>::Notify(notice_text(s->id, s->author, d->Failed_0)),
        ),
{
}

/// The handling of a message ends after two reports at the latest.
pub proof fn lemma_ends_after_two_reports<E>(s: MirrorView, first: DeliveryView, second: DeliveryView)
    ensures
        advanced::<E>(advanced::<E>(s, first).0, second) == (
            MirrorView::Finished,
            StepView::<E>::Finish,
        ),
{
}

/// The opening asks for the payload exactly where the message can be
/// transformed, and for a notice that names the error where it cannot.
pub proof fn lemma_opening<E>(m: InboundMessageView<E>)
    ensures
        opened(m).1 is Send <==> transformed(m) is Ok,
        opened(m).1 is Notify <==> transformed(m) is Err,
        transformed(m) is Ok ==> opened(m) == (
            MirrorView::Sending { id: m.id, author: m.author.name },
            StepView::Send(transformed(m)->Ok_0),
        ),
        transformed(m) is Err ==> opened(m) == (
            MirrorView::Notifying,
            StepView::<E>::Notify(
                notice_text(m.id, m.author.name, error_text(transformed(m)->Err_0)),
            ),
        ),
{
}

} // verus!
