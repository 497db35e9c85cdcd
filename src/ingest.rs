//! The producer side of ingestion, once the handshake has completed: every
//! inbound frame is decoded and its responses handed on in arrival order until
//! the stream ends or fails; a frame that does not decode is skipped and
//! reported, and the stream goes on.
use vstd::prelude::*;
use crate::models::{Response, ResponseView, decoded_frame, response_views};
use crate::session::{Inbound, InboundView, SessionError};
use crate::wire::DecodeError;

verus! {

/// The event ends ingestion: the stream ended or failed.
pub open spec fn stops(ev: InboundView) -> bool {
    ev is End || ev is Failed
}

/// Some event of `events` ends ingestion.
pub open spec fn has_stopped(events: Seq<InboundView>) -> bool {
    exists|i: int| 0 <= i < events.len() && stops(#[trigger] events[i])
}

/// The batches of responses handed on after `events`: those of each frame that
/// decodes, in order, up to the first event that ends ingestion.
pub open spec fn forwarded(events: Seq<InboundView>) -> Seq<Seq<ResponseView>>
    decreases events.len(),
{
    if events.len() == 0 {
        Seq::empty()
    } else if has_stopped(events.drop_last()) {
        forwarded(events.drop_last())
    } else {
        match events.last() {
            InboundView::Frame(t) => match decoded_frame(t) {
                Ok(rs) => forwarded(events.drop_last()).push(rs),
                Err(_) => forwarded(events.drop_last()),
            },
            _ => forwarded(events.drop_last()),
        }
    }
}

/// How ingestion ended on `event`: `None` for a clean end of stream.
pub open spec fn ending(ev: InboundView) -> Option<SessionError> {
    match ev {
        InboundView::Failed(e) => Some(SessionError::Transport(e)),
        _ => None,
    }
}

/// How ingestion ended after `events`: `None` while it goes on.
pub open spec fn outcome(events: Seq<InboundView>) -> Option<Option<SessionError>>
    decreases events.len(),
{
    if events.len() == 0 {
        None
    } else if has_stopped(events.drop_last()) {
        outcome(events.drop_last())
    } else if stops(events.last()) {
        Some(ending(events.last()))
    } else {
        None
    }
}

/// What the producer does with one inbound event.
#[derive(Clone, Debug, PartialEq, Eq)]
pub enum Forward {
    /// Put the responses of this frame on the hand-off queue.
    Deliver(Vec<Response>),
    /// Report that this frame did not decode, and go on with the next one.
    Skip(DecodeError),
    /// Close the hand-off queue: ingestion is over, cleanly (`None`) or not.
    Finish(Option<SessionError>),
}

/// A producer's answer as mathematical values.
pub enum ForwardView {
    Deliver(Seq<ResponseView>),
    Skip(DecodeError),
    Finish(Option<SessionError>),
}

impl View for Forward {
    type V = ForwardView;

    open spec fn view(&self) -> ForwardView {
        match self {
            Forward::Deliver(rs) => ForwardView::Deliver(response_views(rs@)),
            Forward::Skip(e) => ForwardView::Skip(*e),
            Forward::Finish(o) => ForwardView::Finish(*o),
        }
    }
}

/// The producer's answer to `ev` after `events`.
pub open spec fn forward_of(events: Seq<InboundView>, ev: InboundView) -> ForwardView {
    if has_stopped(events) {
        ForwardView::Finish(outcome(events)->Some_0)
    } else {
        match ev {
            InboundView::Frame(t) => match decoded_frame(t) {
                Ok(rs) => ForwardView::Deliver(rs),
                Err(e) => ForwardView::Skip(e),
            },
            InboundView::Invalid => ForwardView::Skip(DecodeError::MalformedFrame),
            _ => ForwardView::Finish(ending(ev)),
        }
    }
}

/// The reader of the transport during ingestion.
pub struct Producer {
    open: bool,
    ending: Option<SessionError>,
    seen: Ghost<Seq<InboundView>>,
}

/// What a producer holds, as mathematical values.
pub struct ProducerView {
    /// Every inbound event handed to the producer, in order.
    pub seen: Seq<InboundView>,
}

impl View for Producer {
    type V = ProducerView;

    closed spec fn view(&self) -> ProducerView {
        ProducerView { seen: self.seen@ }
    }
}

proof fn lemma_push_stopped(events: Seq<InboundView>, ev: InboundView)
    ensures
        events.push(ev).drop_last() == events,
        has_stopped(events.push(ev)) == (has_stopped(events) || stops(ev)),
{
    let all = events.push(ev);
    assert(all.drop_last() =~= events);
    if has_stopped(events) {
        let i = choose|i: int| 0 <= i < events.len() && stops(#[trigger] events[i]);
        assert(stops(all[i]));
    }
    if stops(ev) {
        assert(stops(all[events.len() as int]));
    }
    if has_stopped(all) {
        let i = choose|i: int| 0 <= i < all.len() && stops(#[trigger] all[i]);
        if i < events.len() {
            assert(stops(events[i]));
        }
    }
}

/// Frames that arrive one after the other and all decode have their responses
/// handed on, one batch per frame, in the order in which the frames arrived.
pub proof fn lemma_frames_keep_order(frames: Seq<Seq<char>>)
    requires
        forall|i: int| 0 <= i < frames.len() ==> (#[trigger] decoded_frame(frames[i])) is Ok,
    ensures
        forwarded(frames.map_values(|t: Seq<char>| InboundView::Frame(t)))
            == frames.map_values(|t: Seq<char>| decoded_frame(t)->Ok_0),
        !has_stopped(frames.map_values(|t: Seq<char>| InboundView::Frame(t))),
    decreases frames.len(),
{
    let events = frames.map_values(|t: Seq<char>| InboundView::Frame(t));
    if frames.len() > 0 {
        let prefix = frames.drop_last();
        assert forall|i: int| 0 <= i < prefix.len() implies (#[trigger] decoded_frame(prefix[i])) is Ok by {
            assert(prefix[i] == frames[i]);
        }
        lemma_frames_keep_order(prefix);
        assert(events.drop_last() =~= prefix.map_values(|t: Seq<char>| InboundView::Frame(t)));
        lemma_push_stopped(events.drop_last(), events.last());
        assert(events.drop_last().push(events.last()) =~= events);
        assert(decoded_frame(frames[frames.len() - 1]) is Ok);
        assert(frames.map_values(|t: Seq<char>| decoded_frame(t)->Ok_0) =~= prefix.map_values(
            |t: Seq<char>| decoded_frame(t)->Ok_0,
        ).push(decoded_frame(frames.last())->Ok_0));
    } else {
        assert(events.len() == 0);
        assert(frames.map_values(|t: Seq<char>| decoded_frame(t)->Ok_0) =~= Seq::<Seq<ResponseView>>::empty());
    }
}

/// A frame that does not decode is skipped: ingestion goes on, and nothing is
/// handed on for it.
pub proof fn lemma_undecodable_frame_is_skipped(events: Seq<InboundView>, t: Seq<char>)
    requires
        !has_stopped(events),
        decoded_frame(t) is Err,
    ensures
        forward_of(events, InboundView::Frame(t)) == ForwardView::Skip(decoded_frame(t)->Err_0),
        !has_stopped(events.push(InboundView::Frame(t))),
        forwarded(events.push(InboundView::Frame(t))) == forwarded(events),
{
    lemma_push_stopped(events, InboundView::Frame(t));
}

/// A transport failure ends ingestion: every frame handed on before it stays
/// handed on, no event after it hands on a frame, and the failure is the
/// outcome.
pub proof fn lemma_failure_keeps_earlier_frames(
    before: Seq<InboundView>,
    e: crate::session::TransportError,
    after: Seq<InboundView>,
)
    requires
        !has_stopped(before),
    ensures
        forwarded(before.push(InboundView::Failed(e)) + after) == forwarded(before),
        outcome(before.push(InboundView::Failed(e)) + after) == Some(Some(SessionError::Transport(e))),
    decreases after.len(),
{
    let failed = before.push(InboundView::Failed(e));
    lemma_push_stopped(before, InboundView::Failed(e));
    if after.len() == 0 {
        assert(failed + after =~= failed);
    } else {
        lemma_failure_keeps_earlier_frames(before, e, after.drop_last());
        let all = failed + after;
        assert(all.drop_last() =~= failed + after.drop_last());
        assert(stops(all[before.len() as int]));
        assert(has_stopped(all.drop_last())) by {
            assert(all.drop_last()[before.len() as int] == all[before.len() as int]);
        }
    }
}

impl Producer {
    #[verifier::type_invariant]
    spec fn inv(self) -> bool {
        &&& self.open == !has_stopped(self.seen@)
        &&& !self.open ==> outcome(self.seen@) == Some(self.ending)
    }

    /// A producer that has seen nothing yet.
    pub fn new() -> (r: Producer)
        ensures
            r@.seen == Seq::<InboundView>::empty(),
    {
        Producer { open: true, ending: None, seen: Ghost(Seq::empty()) }
    }

    /// Ingestion goes on.
    pub fn is_open(&self) -> (r: bool)
        ensures
            r == !has_stopped(self@.seen),
    {
        proof {
            use_type_invariant(self);
        }
        self.open
    }

    /// Takes one inbound event: while ingestion goes on, a frame is decoded and
    /// its responses put on the hand-off queue, or, where it does not decode,
    /// skipped with the reason; the end or failure of the stream closes the
    /// queue, and from then on every event gets the same outcome.
    pub fn on_inbound(&mut self, ev: Inbound) -> (f: Forward)
        ensures
            final(self)@.seen == old(self)@.seen.push(ev@),
            f@ == forward_of(old(self)@.seen, ev@),
            forwarded(final(self)@.seen) == (match f@ {
                ForwardView::Deliver(rs) => forwarded(old(self)@.seen).push(rs),
                _ => forwarded(old(self)@.seen),
            }),
    {
        proof {
            use_type_invariant(&*self);
            lemma_push_stopped(self.seen@, ev@);
        }
        let ghost seen = self.seen@.push(ev@);
        if !self.open {
            let ending = self.ending;
            *self = Producer { open: false, ending, seen: Ghost(seen) };
            return Forward::Finish(ending);
        }
        match ev {
            Inbound::Frame(t) => {
                *self = Producer { open: true, ending: None, seen: Ghost(seen) };
                match Response::decode_frame(t.as_str()) {
                    Ok(rs) => Forward::Deliver(rs),
                    Err(e) => Forward::Skip(e),
                }
            },
            Inbound::Invalid => {
                *self = Producer { open: true, ending: None, seen: Ghost(seen) };
                Forward::Skip(DecodeError::MalformedFrame)
            },
            Inbound::End => {
                *self = Producer { open: false, ending: None, seen: Ghost(seen) };
                Forward::Finish(None)
            },
            Inbound::Failed(e) => {
                let ending = Some(SessionError::Transport(e));
                *self = Producer { open: false, ending, seen: Ghost(seen) };
                Forward::Finish(ending)
            },
        }
    }
}

} // verus!
