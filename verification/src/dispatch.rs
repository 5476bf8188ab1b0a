//! The connection dispatcher: the biased multiplexing loop that a session
//! runs between the synthetic `Open` and the synthetic `Close`.
//!
//! The surrounding runtime owns the transport and the channels; the library
//! owns every decision. Each time the runtime's select yields an item, it
//! hands the item to [`dispatcher_step`] as a [`DispatchEvent`] and performs
//! the outputs: frames pushed into the transport sink, messages published on
//! the receiver channel, results delivered into ack slots, and the shutdown
//! acknowledgment.

use vstd::prelude::*;

use crate::error::Error;
use crate::message::{Frame, FrameView, Message, MessageView};

verus! {

/// An ack slot is identified by a number unique to the session.
pub type AckId = u64;

/// The three event sources of the dispatch loop, in their biased priority
/// order: outbound before inbound, inbound before shutdown.
#[derive(Clone, Copy, Debug, PartialEq, Eq, Structural)]
pub enum Source {
    /// The sender channel: outbound `(message, ack)` pairs.
    Outbound,
    /// The transport source: inbound frames.
    Inbound,
    /// The internal shutdown request slot.
    Shutdown,
}

/// The source a strictly biased select services, given which sources are
/// ready: outbound first, then inbound, then shutdown.
pub open spec fn biased_choice(
    outbound_ready: bool,
    inbound_ready: bool,
    shutdown_ready: bool,
) -> Option<Source> {
    if outbound_ready {
        Some(Source::Outbound)
    } else if inbound_ready {
        Some(Source::Inbound)
    } else if shutdown_ready {
        Some(Source::Shutdown)
    } else {
        None
    }
}

/// Picks the source to service, given which sources are ready. Selection is
/// strictly biased: an outbound item is always drained before an inbound
/// one, and an inbound one before a shutdown request.
pub fn select_source(outbound_ready: bool, inbound_ready: bool, shutdown_ready: bool) -> (r:
    Option<Source>)
    ensures
        r == biased_choice(outbound_ready, inbound_ready, shutdown_ready),
{
    if outbound_ready {
        Some(Source::Outbound)
    } else if inbound_ready {
        Some(Source::Inbound)
    } else if shutdown_ready {
        Some(Source::Shutdown)
    } else {
        None
    }
}

/// Biased dispatch: whenever an outbound item and an inbound item are ready
/// at the same time, the outbound item is processed first; shutdown is only
/// serviced once both are quiet.
pub proof fn lemma_biased_dispatch(outbound_ready: bool, inbound_ready: bool, shutdown_ready: bool)
    ensures
        outbound_ready ==> biased_choice(outbound_ready, inbound_ready, shutdown_ready) == Some(
            Source::Outbound,
        ),
        !outbound_ready && inbound_ready ==> biased_choice(
            outbound_ready,
            inbound_ready,
            shutdown_ready,
        ) == Some(Source::Inbound),
        biased_choice(outbound_ready, inbound_ready, shutdown_ready) == Some(Source::Shutdown)
            ==> !outbound_ready && !inbound_ready,
{
}

/// What the transport sink reported when a frame was pushed into it; also
/// the value delivered into an ack slot.
#[derive(Clone, Copy, Debug, PartialEq, Eq, Structural)]
pub enum SendOutcome {
    /// The frame was accepted by the sink.
    Sent,
    /// The push failed with this error.
    Failed(Error),
}

impl DeepView for SendOutcome {
    type V = SendOutcome;

    open spec fn deep_view(&self) -> SendOutcome {
        *self
    }
}

/// One result delivered into one ack slot.
#[derive(Clone, Copy, Debug, PartialEq, Eq, Structural)]
pub struct AckResolution {
    /// The slot the result went into.
    pub id: AckId,
    /// The delivered result.
    pub outcome: SendOutcome,
}

impl DeepView for AckResolution {
    type V = AckResolution;

    open spec fn deep_view(&self) -> AckResolution {
        *self
    }
}

/// An outbound item dequeued from the sender channel: a message and an
/// optional ack slot.
#[derive(Clone, Debug, PartialEq, Eq)]
pub struct OutboundItem {
    /// The message to push onto the wire.
    pub msg: Message,
    /// The ack slot awaiting the send result, if any.
    pub ack: Option<AckId>,
}

/// The mathematical value of an [`OutboundItem`].
pub struct OutboundItemView {
    /// The message.
    pub msg: MessageView,
    /// The ack slot, if any.
    pub ack: Option<AckId>,
}

impl View for OutboundItem {
    type V = OutboundItemView;

    open spec fn view(&self) -> OutboundItemView {
        OutboundItemView { msg: self.msg@, ack: self.ack }
    }
}

impl DeepView for OutboundItem {
    type V = OutboundItemView;

    open spec fn deep_view(&self) -> OutboundItemView {
        self.view()
    }
}

/// What the transport source yielded.
#[derive(Clone, Debug, PartialEq, Eq)]
pub enum InboundEvent {
    /// A frame arrived.
    Frame(Frame),
    /// The transport failed with this read error.
    Failed(Error),
    /// End of stream: the transport is gone.
    Eos,
}

/// The mathematical value of an [`InboundEvent`].
pub enum InboundEventView {
    /// A frame arrived.
    Frame(FrameView),
    /// A transport read error.
    Failed(Error),
    /// End of stream.
    Eos,
}

impl View for InboundEvent {
    type V = InboundEventView;

    open spec fn view(&self) -> InboundEventView {
        match self {
            InboundEvent::Frame(f) => InboundEventView::Frame(f@),
            InboundEvent::Failed(e) => InboundEventView::Failed(*e),
            InboundEvent::Eos => InboundEventView::Eos,
        }
    }
}

impl DeepView for InboundEvent {
    type V = InboundEventView;

    open spec fn deep_view(&self) -> InboundEventView {
        self.view()
    }
}

/// One item the runtime's biased select yielded to the dispatch loop.
#[derive(Clone, Debug, PartialEq, Eq)]
pub enum DispatchEvent {
    /// An outbound item was dequeued, its frame was pushed into the sink,
    /// and the sink reported this outcome.
    Outbound {
        /// The dequeued item.
        item: OutboundItem,
        /// What the sink reported for the push.
        sink: SendOutcome,
    },
    /// The transport source yielded this.
    Inbound(InboundEvent),
    /// A shutdown request arrived on the internal duplex.
    Shutdown,
}

/// The mathematical value of a [`DispatchEvent`].
pub enum DispatchEventView {
    /// An outbound item and its sink outcome.
    Outbound {
        /// The dequeued item.
        item: OutboundItemView,
        /// What the sink reported.
        sink: SendOutcome,
    },
    /// An inbound transport event.
    Inbound(InboundEventView),
    /// A shutdown request.
    Shutdown,
}

impl View for DispatchEvent {
    type V = DispatchEventView;

    open spec fn view(&self) -> DispatchEventView {
        match self {
            DispatchEvent::Outbound { item, sink } => DispatchEventView::Outbound {
                item: item@,
                sink: *sink,
            },
            DispatchEvent::Inbound(ev) => DispatchEventView::Inbound(ev@),
            DispatchEvent::Shutdown => DispatchEventView::Shutdown,
        }
    }
}

impl DeepView for DispatchEvent {
    type V = DispatchEventView;

    open spec fn deep_view(&self) -> DispatchEventView {
        self.view()
    }
}

/// An event is well formed when an outbound message has a wire
/// representation. The application can only violate this by pushing a
/// synthetic `Open` or `Close` into the sender channel, which is a
/// programmer error; the runtime rejects such an item before it reaches the
/// dispatcher.
pub open spec fn event_wf(ev: DispatchEventView) -> bool {
    match ev {
        DispatchEventView::Outbound { item, .. } => item.msg.is_wire(),
        _ => true,
    }
}

/// The frames one step pushes into the transport sink: the frame of an
/// outbound message, or the pong answering an inbound ping.
pub open spec fn step_sent(ev: DispatchEventView) -> Seq<FrameView> {
    match ev {
        DispatchEventView::Outbound { item, .. } => seq![item.msg.wire_frame()],
        DispatchEventView::Inbound(InboundEventView::Frame(f)) => match f {
            FrameView::Ping(payload) => seq![FrameView::Pong(payload)],
            _ => Seq::empty(),
        },
        _ => Seq::empty(),
    }
}

/// The messages one step publishes on the receiver channel: surfaced inbound
/// frames, and the synthetic `Close` on transport failure, end of stream, a
/// peer close frame, or shutdown.
pub open spec fn step_emitted(ev: DispatchEventView) -> Seq<MessageView> {
    match ev {
        DispatchEventView::Outbound { .. } => Seq::empty(),
        DispatchEventView::Inbound(InboundEventView::Frame(f)) => if f.is_surfaced() {
            seq![f.surface()]
        } else {
            Seq::empty()
        },
        DispatchEventView::Inbound(_) => seq![MessageView::Close],
        DispatchEventView::Shutdown => seq![MessageView::Close],
    }
}

/// The results one step delivers into ack slots: exactly one per outbound
/// item that carries an ack, holding the sink outcome of its send.
pub open spec fn step_acks(ev: DispatchEventView) -> Seq<AckResolution> {
    match ev {
        DispatchEventView::Outbound { item, sink } => match item.ack {
            Some(id) => seq![AckResolution { id, outcome: sink }],
            None => Seq::empty(),
        },
        _ => Seq::empty(),
    }
}

/// Whether one step acknowledges the shutdown duplex: only the shutdown
/// request does.
pub open spec fn step_acks_shutdown(ev: DispatchEventView) -> bool {
    ev is Shutdown
}

/// Whether one step ends the loop: a peer close frame, a transport failure,
/// end of stream, or a shutdown request.
pub open spec fn step_exits(ev: DispatchEventView) -> bool {
    match ev {
        DispatchEventView::Outbound { .. } => false,
        DispatchEventView::Inbound(InboundEventView::Frame(f)) => f is Close,
        DispatchEventView::Inbound(_) => true,
        DispatchEventView::Shutdown => true,
    }
}

/// Everything one dispatch step asks the runtime to do.
pub struct StepOutput {
    /// Frames to push into the transport sink, in order.
    pub sent: Vec<Frame>,
    /// Messages to publish on the receiver channel, in order.
    pub emitted: Vec<Message>,
    /// Results to deliver into ack slots, in order.
    pub acks: Vec<AckResolution>,
    /// Whether to acknowledge the shutdown duplex.
    pub shutdown_ack: bool,
    /// Whether the loop ends after this step.
    pub exit: bool,
}

/// Processes one dispatch event.
///
/// Outbound: the message's frame goes to the sink, and if an ack slot is
/// present it receives exactly the sink outcome; a failed ack-free send is
/// best effort and does not end the loop. Inbound: text, binary and peer
/// close frames surface on the receiver channel, a ping is answered by a
/// pong with the identical payload, pongs and intermediate frames are
/// dropped; a peer close, a transport failure, or end of stream emits
/// `Close` and ends the loop. Shutdown: emits `Close`, acknowledges the
/// duplex, and ends the loop.
pub fn dispatcher_step(ev: &DispatchEvent) -> (out: StepOutput)
    requires
        event_wf(ev@),
    ensures
        out.sent.deep_view() == step_sent(ev@),
        out.emitted.deep_view() == step_emitted(ev@),
        out.acks.deep_view() == step_acks(ev@),
        out.shutdown_ack == step_acks_shutdown(ev@),
        out.exit == step_exits(ev@),
{
    let mut sent: Vec<Frame> = Vec::new();
    let mut emitted: Vec<Message> = Vec::new();
    let mut acks: Vec<AckResolution> = Vec::new();
    let mut shutdown_ack = false;
    let mut exit = false;
    match ev {
        DispatchEvent::Outbound { item, sink } => {
            let frame = item.msg.to_frame();
            sent.push(frame);
            match item.ack {
                Some(id) => {
                    acks.push(AckResolution { id, outcome: *sink });
                },
                None => {},
            }
        },
        DispatchEvent::Inbound(InboundEvent::Frame(frame)) => {
            if frame.is_surfaced() {
                let is_close = match frame {
                    Frame::Close => true,
                    _ => false,
                };
                let message = frame.clone_surfaced();
                emitted.push(message);
                if is_close {
                    exit = true;
                }
            } else {
                match frame {
                    Frame::Ping(payload) => {
                        sent.push(Frame::Pong(crate::message::clone_bytes(payload)));
                    },
                    _ => {},
                }
            }
        },
        DispatchEvent::Inbound(_) => {
            emitted.push(Message::Close);
            exit = true;
        },
        DispatchEvent::Shutdown => {
            emitted.push(Message::Close);
            shutdown_ack = true;
            exit = true;
        },
    }
    proof {
        assert(sent.deep_view() =~= step_sent(ev@));
        assert(emitted.deep_view() =~= step_emitted(ev@));
        assert(acks.deep_view() =~= step_acks(ev@));
    }
    StepOutput { sent, emitted, acks, shutdown_ack, exit }
}

/// Every event of the sequence is well formed.
pub open spec fn events_wf(evs: Seq<DispatchEventView>) -> bool {
    forall|i: int| 0 <= i < evs.len() ==> event_wf(#[trigger] evs[i])
}

/// How many events the loop consumes: everything up to and including the
/// first event whose step ends the loop.
pub open spec fn run_consumed(evs: Seq<DispatchEventView>) -> nat
    decreases evs.len(),
{
    if evs.len() == 0 {
        0
    } else if step_exits(evs[0]) {
        1
    } else {
        1 + run_consumed(evs.skip(1))
    }
}

/// Whether the loop ends within the sequence.
pub open spec fn run_exited(evs: Seq<DispatchEventView>) -> bool
    decreases evs.len(),
{
    if evs.len() == 0 {
        false
    } else {
        step_exits(evs[0]) || run_exited(evs.skip(1))
    }
}

/// Whether the loop ends by acknowledging a shutdown request.
pub open spec fn run_shutdown_acked(evs: Seq<DispatchEventView>) -> bool
    decreases evs.len(),
{
    if evs.len() == 0 {
        false
    } else if step_exits(evs[0]) {
        step_acks_shutdown(evs[0])
    } else {
        run_shutdown_acked(evs.skip(1))
    }
}

/// All frames the loop pushes into the transport sink, in order.
pub open spec fn run_sent(evs: Seq<DispatchEventView>) -> Seq<FrameView>
    decreases evs.len(),
{
    if evs.len() == 0 {
        Seq::empty()
    } else if step_exits(evs[0]) {
        step_sent(evs[0])
    } else {
        step_sent(evs[0]) + run_sent(evs.skip(1))
    }
}

/// All messages the loop publishes on the receiver channel, in order.
pub open spec fn run_emitted(evs: Seq<DispatchEventView>) -> Seq<MessageView>
    decreases evs.len(),
{
    if evs.len() == 0 {
        Seq::empty()
    } else if step_exits(evs[0]) {
        step_emitted(evs[0])
    } else {
        step_emitted(evs[0]) + run_emitted(evs.skip(1))
    }
}

/// All results the loop delivers into ack slots, in order.
pub open spec fn run_acks(evs: Seq<DispatchEventView>) -> Seq<AckResolution>
    decreases evs.len(),
{
    if evs.len() == 0 {
        Seq::empty()
    } else if step_exits(evs[0]) {
        step_acks(evs[0])
    } else {
        step_acks(evs[0]) + run_acks(evs.skip(1))
    }
}

/// What a whole dispatch loop did.
pub struct DispatcherRun {
    /// Frames pushed into the transport sink, in order.
    pub sent: Vec<Frame>,
    /// Messages published on the receiver channel, in order.
    pub emitted: Vec<Message>,
    /// Results delivered into ack slots, in order.
    pub acks: Vec<AckResolution>,
    /// Whether the loop ended by acknowledging a shutdown request.
    pub shutdown_acked: bool,
    /// How many events were consumed.
    pub consumed: usize,
    /// Whether the loop ended within the event sequence.
    pub exited: bool,
}

/// Runs the dispatch loop over a sequence of events, stopping at the first
/// event that ends the loop.
pub fn run_dispatcher(events: &Vec<DispatchEvent>) -> (r: DispatcherRun)
    requires
        events_wf(events.deep_view()),
    ensures
        r.sent.deep_view() == run_sent(events.deep_view()),
        r.emitted.deep_view() == run_emitted(events.deep_view()),
        r.acks.deep_view() == run_acks(events.deep_view()),
        r.shutdown_acked == run_shutdown_acked(events.deep_view()),
        r.consumed == run_consumed(events.deep_view()),
        r.exited == run_exited(events.deep_view()),
{
    let ghost evs = events.deep_view();
    let n = events.len();
    let mut sent: Vec<Frame> = Vec::new();
    let mut emitted: Vec<Message> = Vec::new();
    let mut acks: Vec<AckResolution> = Vec::new();
    let mut shutdown_acked = false;
    let mut exited = false;
    let mut i: usize = 0;
    proof {
        assert(evs.skip(0) =~= evs);
        assert(sent.deep_view() =~= Seq::<FrameView>::empty());
        assert(emitted.deep_view() =~= Seq::<MessageView>::empty());
        assert(acks.deep_view() =~= Seq::<AckResolution>::empty());
        assert(Seq::<FrameView>::empty() + run_sent(evs) =~= run_sent(evs));
        assert(Seq::<MessageView>::empty() + run_emitted(evs) =~= run_emitted(evs));
        assert(Seq::<AckResolution>::empty() + run_acks(evs) =~= run_acks(evs));
    }
    while i < n && !exited
        invariant
            evs == events.deep_view(),
            n == events@.len(),
            0 <= i <= n,
            events_wf(evs),
            !exited ==> {
                &&& run_sent(evs) == sent.deep_view() + run_sent(evs.skip(i as int))
                &&& run_emitted(evs) == emitted.deep_view() + run_emitted(evs.skip(i as int))
                &&& run_acks(evs) == acks.deep_view() + run_acks(evs.skip(i as int))
                &&& run_exited(evs) == run_exited(evs.skip(i as int))
                &&& run_shutdown_acked(evs) == run_shutdown_acked(evs.skip(i as int))
                &&& run_consumed(evs) == i + run_consumed(evs.skip(i as int))
                &&& !shutdown_acked
            },
            exited ==> {
                &&& run_exited(evs)
                &&& run_consumed(evs) == i
                &&& run_sent(evs) == sent.deep_view()
                &&& run_emitted(evs) == emitted.deep_view()
                &&& run_acks(evs) == acks.deep_view()
                &&& run_shutdown_acked(evs) == shutdown_acked
            },
        decreases n - i,
    {
        proof {
            assert(evs.skip(i as int).len() == n - i);
            assert(evs.skip(i as int)[0] == evs[i as int]);
            assert(evs.skip(i as int).skip(1) =~= evs.skip(i as int + 1));
        }
        let ghost sent0 = sent.deep_view();
        let ghost emitted0 = emitted.deep_view();
        let ghost acks0 = acks.deep_view();
        let mut out = dispatcher_step(&events[i]);
        sent.append(&mut out.sent);
        emitted.append(&mut out.emitted);
        acks.append(&mut out.acks);
        proof {
            assert(sent.deep_view() =~= sent0 + step_sent(evs[i as int]));
            assert(emitted.deep_view() =~= emitted0 + step_emitted(evs[i as int]));
            assert(acks.deep_view() =~= acks0 + step_acks(evs[i as int]));
            assert(sent0 + step_sent(evs[i as int]) + run_sent(evs.skip(i as int + 1)) =~= sent0 + (
            step_sent(evs[i as int]) + run_sent(evs.skip(i as int + 1))));
            assert(emitted0 + step_emitted(evs[i as int]) + run_emitted(evs.skip(i as int + 1))
                =~= emitted0 + (step_emitted(evs[i as int]) + run_emitted(evs.skip(i as int + 1))));
            assert(acks0 + step_acks(evs[i as int]) + run_acks(evs.skip(i as int + 1)) =~= acks0 + (
            step_acks(evs[i as int]) + run_acks(evs.skip(i as int + 1))));
        }
        if out.exit {
            shutdown_acked = out.shutdown_ack;
            exited = true;
            proof {
                assert(run_sent(evs.skip(i as int)) == step_sent(evs[i as int]));
            }
        }
        i = i + 1;
    }
    proof {
        if !exited {
            assert(evs.skip(n as int) =~= Seq::<DispatchEventView>::empty());
            assert(sent.deep_view() + Seq::<FrameView>::empty() =~= sent.deep_view());
            assert(emitted.deep_view() + Seq::<MessageView>::empty() =~= emitted.deep_view());
            assert(acks.deep_view() + Seq::<AckResolution>::empty() =~= acks.deep_view());
        }
    }
    DispatcherRun { sent, emitted, acks, shutdown_acked, consumed: i, exited }
}

/// The results draining a pending queue delivers: for each queued item that
/// carries an ack, exactly one resolution with the shutdown error, in queue
/// order.
pub open spec fn drain_resolutions(items: Seq<OutboundItemView>) -> Seq<AckResolution>
    decreases items.len(),
{
    if items.len() == 0 {
        Seq::empty()
    } else {
        (match items[0].ack {
            Some(id) => seq![AckResolution { id, outcome: SendOutcome::Failed(Error::Shutdown) }],
            None => Seq::empty(),
        }) + drain_resolutions(items.skip(1))
    }
}

/// Resolves the acks of the items still queued on the sender channel when
/// the loop exits: every queued ack receives the shutdown error, exactly
/// once.
pub fn drain_pending(pending: &Vec<OutboundItem>) -> (r: Vec<AckResolution>)
    ensures
        r.deep_view() == drain_resolutions(pending.deep_view()),
{
    let ghost items = pending.deep_view();
    let n = pending.len();
    let mut acks: Vec<AckResolution> = Vec::new();
    let mut i: usize = 0;
    proof {
        assert(items.skip(0) =~= items);
        assert(acks.deep_view() =~= Seq::<AckResolution>::empty());
        assert(Seq::<AckResolution>::empty() + drain_resolutions(items) =~= drain_resolutions(
            items,
        ));
    }
    while i < n
        invariant
            items == pending.deep_view(),
            n == pending@.len(),
            0 <= i <= n,
            drain_resolutions(items) == acks.deep_view() + drain_resolutions(items.skip(i as int)),
        decreases n - i,
    {
        proof {
            assert(items.skip(i as int)[0] == items[i as int]);
            assert(items.skip(i as int).skip(1) =~= items.skip(i as int + 1));
        }
        let ghost acks0 = acks.deep_view();
        match &pending[i].ack {
            Some(id) => {
                acks.push(AckResolution { id: *id, outcome: SendOutcome::Failed(Error::Shutdown) });
            },
            None => {},
        }
        proof {
            let head = match items[i as int].ack {
                Some(id) => seq![
                    AckResolution { id, outcome: SendOutcome::Failed(Error::Shutdown) },
                ],
                None => Seq::<AckResolution>::empty(),
            };
            assert(acks.deep_view() =~= acks0 + head);
            assert(acks0 + head + drain_resolutions(items.skip(i as int + 1)) =~= acks0 + (head
                + drain_resolutions(items.skip(i as int + 1))));
        }
        i = i + 1;
    }
    proof {
        assert(items.skip(n as int) =~= Seq::<OutboundItemView>::empty());
        assert(acks.deep_view() + Seq::<AckResolution>::empty() =~= acks.deep_view());
    }
    acks
}

/// The messages a whole session publishes on the receiver channel: the
/// synthetic `Open` that announces the session, then everything the dispatch
/// loop publishes.
pub open spec fn session_emitted(evs: Seq<DispatchEventView>) -> Seq<MessageView> {
    seq![MessageView::Open] + run_emitted(evs)
}

/// The results a whole session delivers into ack slots: what the loop
/// delivers, then — if the loop exited — the shutdown resolutions of the
/// items still queued at exit.
pub open spec fn session_acks(
    evs: Seq<DispatchEventView>,
    residual: Seq<OutboundItemView>,
) -> Seq<AckResolution> {
    run_acks(evs) + if run_exited(evs) {
        drain_resolutions(residual)
    } else {
        Seq::empty()
    }
}

/// What a whole session did.
pub struct SessionRun {
    /// Frames pushed into the transport sink, in order.
    pub sent: Vec<Frame>,
    /// Messages published on the receiver channel, in order, starting with
    /// the synthetic `Open`.
    pub emitted: Vec<Message>,
    /// Results delivered into ack slots, in order.
    pub acks: Vec<AckResolution>,
    /// Whether the loop ended by acknowledging a shutdown request.
    pub shutdown_acked: bool,
    /// How many events were consumed.
    pub consumed: usize,
    /// Whether the loop ended within the event sequence.
    pub exited: bool,
}

/// Runs a whole session: publishes `Open`, runs the dispatch loop over the
/// events, and — if the loop exited — drains the acks of the items still
/// queued on the sender channel (`residual`) with the shutdown error.
pub fn run_session(events: &Vec<DispatchEvent>, residual: &Vec<OutboundItem>) -> (r: SessionRun)
    requires
        events_wf(events.deep_view()),
    ensures
        r.sent.deep_view() == run_sent(events.deep_view()),
        r.emitted.deep_view() == session_emitted(events.deep_view()),
        r.acks.deep_view() == session_acks(events.deep_view(), residual.deep_view()),
        r.shutdown_acked == run_shutdown_acked(events.deep_view()),
        r.consumed == run_consumed(events.deep_view()),
        r.exited == run_exited(events.deep_view()),
{
    let run = run_dispatcher(events);
    let mut emitted: Vec<Message> = Vec::new();
    emitted.push(Message::Open);
    let ghost open_only = emitted.deep_view();
    let mut loop_emitted = run.emitted;
    emitted.append(&mut loop_emitted);
    let mut acks = run.acks;
    if run.exited {
        let mut drained = drain_pending(residual);
        let ghost acks0 = acks.deep_view();
        acks.append(&mut drained);
        proof {
            assert(acks.deep_view() =~= acks0 + drain_resolutions(residual.deep_view()));
        }
    } else {
        proof {
            assert(acks.deep_view() + Seq::<AckResolution>::empty() =~= acks.deep_view());
        }
    }
    proof {
        assert(open_only =~= seq![MessageView::Open]);
        assert(emitted.deep_view() =~= open_only + run_emitted(events.deep_view()));
    }
    SessionRun {
        sent: run.sent,
        emitted,
        acks,
        shutdown_acked: run.shutdown_acked,
        consumed: run.consumed,
        exited: run.exited,
    }
}

/// A ping received on the transport yields exactly one pong with the
/// identical payload on the transport, surfaces nothing to the application,
/// resolves no ack, and does not end the loop.
pub proof fn lemma_ping_pong(payload: Seq<u8>)
    ensures
        step_sent(DispatchEventView::Inbound(InboundEventView::Frame(FrameView::Ping(payload))))
            =~= seq![FrameView::Pong(payload)],
        step_emitted(DispatchEventView::Inbound(InboundEventView::Frame(FrameView::Ping(payload))))
            =~= Seq::<MessageView>::empty(),
        step_acks(DispatchEventView::Inbound(InboundEventView::Frame(FrameView::Ping(payload))))
            =~= Seq::<AckResolution>::empty(),
        !step_exits(DispatchEventView::Inbound(InboundEventView::Frame(FrameView::Ping(payload)))),
{
}

/// How many `Open` messages a message sequence holds.
pub open spec fn count_open(msgs: Seq<MessageView>) -> nat
    decreases msgs.len(),
{
    if msgs.len() == 0 {
        0
    } else {
        (if msgs[0] is Open {
            1nat
        } else {
            0nat
        }) + count_open(msgs.skip(1))
    }
}

/// How many `Close` messages a message sequence holds.
pub open spec fn count_close(msgs: Seq<MessageView>) -> nat
    decreases msgs.len(),
{
    if msgs.len() == 0 {
        0
    } else {
        (if msgs[0] is Close {
            1nat
        } else {
            0nat
        }) + count_close(msgs.skip(1))
    }
}

/// The dispatch loop itself never publishes `Open`, and publishes exactly
/// one `Close` — as its last message — when and only when it exits.
pub proof fn lemma_run_emits_one_close(evs: Seq<DispatchEventView>)
    ensures
        count_open(run_emitted(evs)) == 0,
        count_close(run_emitted(evs)) == (if run_exited(evs) {
            1nat
        } else {
            0nat
        }),
        run_exited(evs) ==> run_emitted(evs).len() > 0 && run_emitted(evs).last() is Close,
    decreases evs.len(),
{
    if evs.len() == 0 {
    } else {
        let head = evs[0];
        let rest = evs.skip(1);
        if step_exits(head) {
            assert(step_emitted(head) =~= seq![MessageView::Close]);
            assert(count_close(seq![MessageView::Close].skip(1)) == 0) by {
                assert(seq![MessageView::Close].skip(1) =~= Seq::<MessageView>::empty());
            }
            assert(count_open(seq![MessageView::Close].skip(1)) == 0) by {
                assert(seq![MessageView::Close].skip(1) =~= Seq::<MessageView>::empty());
            }
        } else {
            lemma_run_emits_one_close(rest);
            let step = step_emitted(head);
            let all = step + run_emitted(rest);
            assert(run_emitted(evs) == all);
            match head {
                DispatchEventView::Inbound(InboundEventView::Frame(f)) => {
                    if f.is_surfaced() {
                        assert(!(f.surface() is Open) && !(f.surface() is Close));
                        assert(all[0] == f.surface());
                        assert(all.skip(1) =~= run_emitted(rest));
                    } else {
                        assert(all =~= run_emitted(rest));
                    }
                },
                _ => {
                    assert(all =~= run_emitted(rest));
                },
            }
        }
    }
}

/// For every session, the receiver channel carries exactly one `Open` — the
/// first message — and, once the session ends, exactly one subsequent
/// `Close` — the last message. A session that has not yet ended has emitted
/// its `Open` and no `Close`.
pub proof fn lemma_open_close_paired(evs: Seq<DispatchEventView>)
    ensures
        count_open(session_emitted(evs)) == 1,
        session_emitted(evs)[0] is Open,
        run_exited(evs) ==> count_close(session_emitted(evs)) == 1 && session_emitted(
            evs,
        ).last() is Close,
        !run_exited(evs) ==> count_close(session_emitted(evs)) == 0,
{
    lemma_run_emits_one_close(evs);
    let all = session_emitted(evs);
    assert(all[0] is Open);
    assert(all.skip(1) =~= run_emitted(evs));
}

/// The ack identifiers of a resolution sequence, in order.
pub open spec fn ack_ids(resolutions: Seq<AckResolution>) -> Seq<AckId> {
    resolutions.map_values(|r: AckResolution| r.id)
}

/// The ack identifiers an event sequence carries on its outbound items, in
/// order, with no regard to where the loop exits.
pub open spec fn event_ack_ids(evs: Seq<DispatchEventView>) -> Seq<AckId>
    decreases evs.len(),
{
    if evs.len() == 0 {
        Seq::empty()
    } else {
        (match evs[0] {
            DispatchEventView::Outbound { item, .. } => match item.ack {
                Some(id) => seq![id],
                None => Seq::<AckId>::empty(),
            },
            _ => Seq::<AckId>::empty(),
        }) + event_ack_ids(evs.skip(1))
    }
}

/// The ack identifiers a queue of outbound items carries, in order.
pub open spec fn item_ack_ids(items: Seq<OutboundItemView>) -> Seq<AckId>
    decreases items.len(),
{
    if items.len() == 0 {
        Seq::empty()
    } else {
        (match items[0].ack {
            Some(id) => seq![id],
            None => Seq::<AckId>::empty(),
        }) + item_ack_ids(items.skip(1))
    }
}

/// The loop consumes at most the whole event sequence.
pub proof fn lemma_run_consumed_bound(evs: Seq<DispatchEventView>)
    ensures
        run_consumed(evs) <= evs.len(),
    decreases evs.len(),
{
    if evs.len() == 0 {
    } else if step_exits(evs[0]) {
    } else {
        lemma_run_consumed_bound(evs.skip(1));
    }
}

/// The loop resolves exactly the acks of the events it consumed, in order.
pub proof fn lemma_run_acks_ids(evs: Seq<DispatchEventView>)
    ensures
        ack_ids(run_acks(evs)) =~= event_ack_ids(evs.take(run_consumed(evs) as int)),
    decreases evs.len(),
{
    if evs.len() == 0 {
        assert(evs.take(0) =~= Seq::<DispatchEventView>::empty());
    } else {
        let head = evs[0];
        let rest = evs.skip(1);
        if step_exits(head) {
            let consumed = evs.take(1);
            assert(consumed.len() == 1);
            assert(consumed[0] == head);
            assert(consumed.skip(1) =~= Seq::<DispatchEventView>::empty());
            assert(step_acks(head) =~= Seq::<AckResolution>::empty());
            assert(event_ack_ids(consumed.skip(1)) =~= Seq::<AckId>::empty());
            assert(event_ack_ids(consumed) =~= Seq::<AckId>::empty());
            assert(ack_ids(run_acks(evs)) =~= Seq::<AckId>::empty());
        } else {
            lemma_run_acks_ids(rest);
            lemma_run_consumed_bound(rest);
            let c = run_consumed(rest) as int;
            let consumed = evs.take(1 + c);
            assert(consumed[0] == head);
            assert(consumed.skip(1) =~= rest.take(c));
            assert(ack_ids(step_acks(head) + run_acks(rest)) =~= ack_ids(step_acks(head))
                + ack_ids(run_acks(rest)));
            match head {
                DispatchEventView::Outbound { item, .. } => {
                    match item.ack {
                        Some(id) => {
                            assert(ack_ids(step_acks(head)) =~= seq![id]);
                        },
                        None => {
                            assert(ack_ids(step_acks(head)) =~= Seq::<AckId>::empty());
                        },
                    }
                },
                _ => {
                    assert(ack_ids(step_acks(head)) =~= Seq::<AckId>::empty());
                },
            }
        }
    }
}

/// The resolutions an event sequence owes: for each outbound item carrying
/// an ack, exactly one resolution holding that send's sink outcome, in
/// order, with no regard to where the loop exits.
pub open spec fn event_resolutions(evs: Seq<DispatchEventView>) -> Seq<AckResolution>
    decreases evs.len(),
{
    if evs.len() == 0 {
        Seq::empty()
    } else {
        (match evs[0] {
            DispatchEventView::Outbound { item, sink } => match item.ack {
                Some(id) => seq![AckResolution { id, outcome: sink }],
                None => Seq::<AckResolution>::empty(),
            },
            _ => Seq::<AckResolution>::empty(),
        }) + event_resolutions(evs.skip(1))
    }
}

/// The loop delivers exactly the resolutions the consumed events owe: one
/// per consumed acked outbound item, in order, each holding its own sink
/// outcome.
pub proof fn lemma_run_acks_exact(evs: Seq<DispatchEventView>)
    ensures
        run_acks(evs) =~= event_resolutions(evs.take(run_consumed(evs) as int)),
    decreases evs.len(),
{
    if evs.len() == 0 {
        assert(evs.take(0) =~= Seq::<DispatchEventView>::empty());
    } else {
        let head = evs[0];
        let rest = evs.skip(1);
        if step_exits(head) {
            let consumed = evs.take(1);
            assert(consumed.len() == 1);
            assert(consumed[0] == head);
            assert(consumed.skip(1) =~= Seq::<DispatchEventView>::empty());
            assert(step_acks(head) =~= Seq::<AckResolution>::empty());
            assert(event_resolutions(consumed.skip(1)) =~= Seq::<AckResolution>::empty());
            assert(event_resolutions(consumed) =~= Seq::<AckResolution>::empty());
        } else {
            lemma_run_acks_exact(rest);
            lemma_run_consumed_bound(rest);
            let c = run_consumed(rest) as int;
            let consumed = evs.take(1 + c);
            assert(consumed[0] == head);
            assert(consumed.skip(1) =~= rest.take(c));
        }
    }
}

/// Draining resolves exactly the acks of the queued items, in order, each
/// with the shutdown error.
pub proof fn lemma_drain_ids(items: Seq<OutboundItemView>)
    ensures
        ack_ids(drain_resolutions(items)) =~= item_ack_ids(items),
        forall|j: int|
            0 <= j < drain_resolutions(items).len() ==> (#[trigger] drain_resolutions(
                items,
            )[j]).outcome == SendOutcome::Failed(Error::Shutdown),
    decreases items.len(),
{
    if items.len() == 0 {
    } else {
        lemma_drain_ids(items.skip(1));
        let head = match items[0].ack {
            Some(id) => seq![AckResolution { id, outcome: SendOutcome::Failed(Error::Shutdown) }],
            None => Seq::<AckResolution>::empty(),
        };
        assert(drain_resolutions(items) == head + drain_resolutions(items.skip(1)));
        assert(ack_ids(head + drain_resolutions(items.skip(1))) =~= ack_ids(head) + ack_ids(
            drain_resolutions(items.skip(1)),
        ));
        match items[0].ack {
            Some(id) => {
                assert(ack_ids(head) =~= seq![id]);
            },
            None => {
                assert(ack_ids(head) =~= Seq::<AckId>::empty());
            },
        }
    }
}

/// Every outbound ack is resolved exactly once per session: the session's
/// resolutions carry, in order, exactly the ack identifiers of the consumed
/// outbound items, followed — when the session ended — by exactly the ack
/// identifiers still queued on the sender channel at exit; each of the
/// latter holds the shutdown error. This holds whether each send succeeded,
/// the transport failed, or the session was shut down mid-flight.
pub proof fn lemma_every_ack_resolved_once(
    evs: Seq<DispatchEventView>,
    residual: Seq<OutboundItemView>,
)
    ensures
        ack_ids(session_acks(evs, residual)) =~= event_ack_ids(
            evs.take(run_consumed(evs) as int),
        ) + (if run_exited(evs) {
            item_ack_ids(residual)
        } else {
            Seq::<AckId>::empty()
        }),
        session_acks(evs, residual) =~= event_resolutions(evs.take(run_consumed(evs) as int)) + (
        if run_exited(evs) {
            drain_resolutions(residual)
        } else {
            Seq::<AckResolution>::empty()
        }),
{
    lemma_run_acks_exact(evs);
    lemma_run_acks_ids(evs);
    lemma_drain_ids(residual);
    if run_exited(evs) {
        assert(ack_ids(run_acks(evs) + drain_resolutions(residual)) =~= ack_ids(run_acks(evs))
            + ack_ids(drain_resolutions(residual)));
    } else {
        assert(run_acks(evs) + Seq::<AckResolution>::empty() =~= run_acks(evs));
        assert(ack_ids(session_acks(evs, residual)) =~= ack_ids(run_acks(evs)));
    }
}

} // verus!
