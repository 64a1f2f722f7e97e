//! The background log writer, as a state machine: the thread that owns the log file
//! asks which channel operation to perform next, performs it, and hands the outcome
//! back; the writer answers with the writes to make to the file.
use vstd::prelude::*;

use crate::message::LogMessage;
use vstd::string::StringSliceAdditionalSpecFns;

verus! {

/// Where the writer is in its life.
#[derive(PartialEq, Eq, Structural, Clone, Copy, Debug)]
pub enum Phase {
    /// The log file is open but the start banner has not been written.
    Starting,
    /// The next step is to take a message from the channel without blocking.
    Polling,
    /// The channel was found empty; the next step is to block until a message arrives.
    Waiting,
    /// The channel is closed and the log is finished.
    Finished,
}

/// The two banner lines that frame a session in the log.
#[derive(PartialEq, Eq, Structural, Clone, Copy, Debug)]
pub enum Banner {
    Startup,
    Shutdown,
}

/// The channel operation to perform next.
#[derive(PartialEq, Eq, Structural, Clone, Copy, Debug)]
pub enum Request {
    /// Call `start`.
    Start,
    /// Take a message without blocking (`try_recv`).
    TryReceive,
    /// Block until a message arrives or the channel closes (`recv`).
    Receive,
    /// The writer is done.
    Stop,
}

/// The outcome of a channel operation.
pub enum ChannelEvent {
    /// A message was received.
    Message(LogMessage),
    /// `try_recv` found no message waiting.
    Empty,
    /// The sending side is gone.
    Disconnected,
}

/// A write to the log file.
pub enum WriteAction {
    /// Write the banner line of this kind (see `banner_line`).
    Banner(Banner),
    /// Write these bytes.
    Bytes(Vec<u8>),
    /// Flush the file.
    Flush,
}

/// A channel event as the specification sees it: a message is its payload.
pub enum EventView {
    Message(Seq<u8>),
    Empty,
    Disconnected,
}

/// A write as the specification sees it.
pub enum ActionView {
    Banner(Banner),
    Bytes(Seq<u8>),
    Flush,
}

impl View for ChannelEvent {
    type V = EventView;

    open spec fn view(&self) -> EventView {
        match self {
            ChannelEvent::Message(m) => EventView::Message(m.payload_view()),
            ChannelEvent::Empty => EventView::Empty,
            ChannelEvent::Disconnected => EventView::Disconnected,
        }
    }
}

impl View for WriteAction {
    type V = ActionView;

    open spec fn view(&self) -> ActionView {
        match self {
            WriteAction::Banner(b) => ActionView::Banner(*b),
            WriteAction::Bytes(v) => ActionView::Bytes(v@),
            WriteAction::Flush => ActionView::Flush,
        }
    }
}

/// The writes, seen through their views.
pub open spec fn actions_view(actions: Seq<WriteAction>) -> Seq<ActionView> {
    actions.map_values(|a: WriteAction| a@)
}

/// The channel operation that a writer in `phase` asks for.
pub open spec fn request_for(phase: Phase) -> Request {
    match phase {
        Phase::Starting => Request::Start,
        Phase::Polling => Request::TryReceive,
        Phase::Waiting => Request::Receive,
        Phase::Finished => Request::Stop,
    }
}

/// Events that can be the outcome of the operation a writer in `phase` asks for:
/// `try_recv` gives any of the three, a blocking `recv` never reports an empty channel.
pub open spec fn accepts(phase: Phase, ev: EventView) -> bool {
    match phase {
        Phase::Polling => true,
        Phase::Waiting => !(ev is Empty),
        _ => false,
    }
}

/// One step of the writer: the next phase and the writes for an event.
/// A message is written as soon as it arrives; an empty channel makes the writer flush
/// and then block; a closed channel seen by `try_recv` ends the log with the shutdown
/// banner and a flush; a closed channel seen by a blocking `recv` sends the writer back
/// to `try_recv`, which sees it closed too.
pub open spec fn step_spec(phase: Phase, ev: EventView) -> (Phase, Seq<ActionView>) {
    match (phase, ev) {
        (Phase::Polling, EventView::Message(p)) => (Phase::Polling, seq![ActionView::Bytes(p)]),
        (Phase::Polling, EventView::Empty) => (Phase::Waiting, seq![ActionView::Flush]),
        (Phase::Polling, EventView::Disconnected) => (
            Phase::Finished,
            seq![ActionView::Banner(Banner::Shutdown), ActionView::Flush],
        ),
        (Phase::Waiting, EventView::Message(p)) => (Phase::Polling, seq![ActionView::Bytes(p)]),
        (Phase::Waiting, EventView::Disconnected) => (Phase::Polling, seq![]),
        _ => (phase, seq![]),
    }
}

/// Events that each fit the phase the writer is in when they arrive.
pub open spec fn valid_run(phase: Phase, evs: Seq<EventView>) -> bool
    decreases evs.len(),
{
    if evs.len() == 0 {
        true
    } else {
        accepts(phase, evs[0]) && valid_run(step_spec(phase, evs[0]).0, evs.drop_first())
    }
}

/// The phase and the writes after a run of events.
pub open spec fn run(phase: Phase, evs: Seq<EventView>) -> (Phase, Seq<ActionView>)
    decreases evs.len(),
{
    if evs.len() == 0 {
        (phase, seq![])
    } else {
        let (p1, out1) = step_spec(phase, evs[0]);
        let (p2, out2) = run(p1, evs.drop_first());
        (p2, out1 + out2)
    }
}

/// The payloads of the messages among `evs`, in order.
pub open spec fn messages(evs: Seq<EventView>) -> Seq<Seq<u8>>
    decreases evs.len(),
{
    if evs.len() == 0 {
        seq![]
    } else {
        let rest = messages(evs.drop_first());
        match evs[0] {
            EventView::Message(p) => seq![p] + rest,
            _ => rest,
        }
    }
}

/// The byte blocks among `outs`, in order.
pub open spec fn written(outs: Seq<ActionView>) -> Seq<Seq<u8>>
    decreases outs.len(),
{
    if outs.len() == 0 {
        seq![]
    } else {
        let rest = written(outs.drop_first());
        match outs[0] {
            ActionView::Bytes(b) => seq![b] + rest,
            _ => rest,
        }
    }
}

proof fn lemma_written_concat(a: Seq<ActionView>, b: Seq<ActionView>)
    ensures
        written(a + b) == written(a) + written(b),
    decreases a.len(),
{
    if a.len() == 0 {
        assert(a + b =~= b);
        assert(written(a) + written(b) =~= written(b));
    } else {
        assert((a + b).drop_first() =~= a.drop_first() + b);
        lemma_written_concat(a.drop_first(), b);
        assert(written(a + b) =~= written(a) + written(b));
    }
}

proof fn lemma_written_step(phase: Phase, ev: EventView)
    requires
        accepts(phase, ev),
    ensures
        written(step_spec(phase, ev).1) == match ev {
            EventView::Message(p) => seq![p],
            _ => Seq::<Seq<u8>>::empty(),
        },
{
    let out = step_spec(phase, ev).1;
    reveal_with_fuel(written, 3);
    match ev {
        EventView::Message(p) => {
            assert(out.drop_first() =~= seq![]);
            assert(written(out) =~= seq![p]);
        },
        EventView::Empty => {
            assert(out.drop_first() =~= seq![]);
        },
        EventView::Disconnected => {
            if phase == Phase::Polling {
                assert(out.drop_first().drop_first() =~= seq![]);
                assert(written(out.drop_first()) =~= seq![]);
            }
        },
    }
}

/// Every message the writer receives is written to the log exactly once, in the order
/// received, and nothing else is written as message bytes.
pub proof fn law_messages_written_in_order(phase: Phase, evs: Seq<EventView>)
    requires
        valid_run(phase, evs),
    ensures
        written(run(phase, evs).1) == messages(evs),
    decreases evs.len(),
{
    if evs.len() > 0 {
        let (p1, out1) = step_spec(phase, evs[0]);
        law_messages_written_in_order(p1, evs.drop_first());
        lemma_written_concat(out1, run(p1, evs.drop_first()).1);
        lemma_written_step(phase, evs[0]);
        assert(written(run(phase, evs).1) =~= messages(evs));
    }
}

/// Whenever the writer is about to block on the channel, or has finished, the last
/// thing it did to the file was a flush: no output sits unflushed while it waits.
pub proof fn law_flushed_when_idle(phase: Phase, evs: Seq<EventView>)
    requires
        valid_run(phase, evs),
        evs.len() > 0,
        run(phase, evs).0 == Phase::Waiting || run(phase, evs).0 == Phase::Finished,
    ensures
        run(phase, evs).1.len() > 0,
        run(phase, evs).1.last() == ActionView::Flush,
    decreases evs.len(),
{
    let (p1, out1) = step_spec(phase, evs[0]);
    let rest = evs.drop_first();
    if rest.len() == 0 {
        assert(out1 + seq![] =~= out1);
    } else {
        law_flushed_when_idle(p1, rest);
        let out2 = run(p1, rest).1;
        assert((out1 + out2).last() == out2.last());
    }
}

/// A finished log ends with the shutdown banner and a flush, and the writer only
/// finishes on seeing the channel closed by a non-blocking receive.
pub proof fn law_shutdown_banner_last(phase: Phase, evs: Seq<EventView>)
    requires
        valid_run(phase, evs),
        phase != Phase::Finished,
        run(phase, evs).0 == Phase::Finished,
    ensures
        evs.len() > 0,
        evs.last() is Disconnected,
        run(phase, evs).1.len() >= 2,
        run(phase, evs).1[run(phase, evs).1.len() - 2] == ActionView::Banner(Banner::Shutdown),
        run(phase, evs).1.last() == ActionView::Flush,
    decreases evs.len(),
{
    let (p1, out1) = step_spec(phase, evs[0]);
    let rest = evs.drop_first();
    if rest.len() == 0 {
        assert(run(p1, rest).1 =~= Seq::<ActionView>::empty());
        assert(out1 + Seq::<ActionView>::empty() =~= out1);
        assert(evs.last() == evs[0]);
        assert(p1 == Phase::Finished);
        assert(phase == Phase::Polling);
        assert(evs[0] is Disconnected);
    } else {
        if p1 == Phase::Finished {
            assert(!accepts(p1, rest[0]));
        }
        law_shutdown_banner_last(p1, rest);
        let out2 = run(p1, rest).1;
        let all = out1 + out2;
        assert(all[all.len() - 2] == out2[out2.len() - 2]);
        assert(all.last() == out2.last());
        assert(rest.last() == evs.last());
    }
}

/// A finished writer accepts nothing more: no write can follow the shutdown banner.
pub proof fn law_nothing_after_finish(evs: Seq<EventView>)
    requires
        valid_run(Phase::Finished, evs),
    ensures
        evs.len() == 0,
        run(Phase::Finished, evs).1.len() == 0,
{
}

/// The writes that reach the file's contents: every write but the flushes.
pub open spec fn file_writes(outs: Seq<ActionView>) -> Seq<ActionView>
    decreases outs.len(),
{
    if outs.len() == 0 {
        seq![]
    } else {
        let rest = file_writes(outs.drop_first());
        match outs[0] {
            ActionView::Flush => rest,
            a => seq![a] + rest,
        }
    }
}

/// The payloads of the messages among `evs`, in order, each as a write of its bytes.
pub open spec fn message_writes(evs: Seq<EventView>) -> Seq<ActionView>
    decreases evs.len(),
{
    if evs.len() == 0 {
        seq![]
    } else {
        let rest = message_writes(evs.drop_first());
        match evs[0] {
            EventView::Message(p) => seq![ActionView::Bytes(p)] + rest,
            _ => rest,
        }
    }
}

/// What a writer does when it starts: the startup banner, then a flush.
pub open spec fn start_spec() -> Seq<ActionView> {
    seq![ActionView::Banner(Banner::Startup), ActionView::Flush]
}

proof fn lemma_file_writes_concat(a: Seq<ActionView>, b: Seq<ActionView>)
    ensures
        file_writes(a + b) == file_writes(a) + file_writes(b),
    decreases a.len(),
{
    if a.len() == 0 {
        assert(a + b =~= b);
        assert(file_writes(a) + file_writes(b) =~= file_writes(b));
    } else {
        assert((a + b).drop_first() =~= a.drop_first() + b);
        lemma_file_writes_concat(a.drop_first(), b);
        assert(file_writes(a + b) =~= file_writes(a) + file_writes(b));
    }
}

proof fn lemma_file_writes_step(phase: Phase, ev: EventView)
    requires
        accepts(phase, ev),
    ensures
        file_writes(step_spec(phase, ev).1) == match ev {
            EventView::Message(p) => seq![ActionView::Bytes(p)],
            EventView::Disconnected => if phase == Phase::Polling {
                seq![ActionView::Banner(Banner::Shutdown)]
            } else {
                Seq::<ActionView>::empty()
            },
            EventView::Empty => Seq::<ActionView>::empty(),
        },
{
    reveal_with_fuel(file_writes, 3);
    let out = step_spec(phase, ev).1;
    match ev {
        EventView::Message(p) => {
            assert(out.drop_first() =~= seq![]);
            assert(file_writes(out) =~= seq![ActionView::Bytes(p)]);
        },
        EventView::Empty => {
            assert(out.drop_first() =~= seq![]);
        },
        EventView::Disconnected => {
            if phase == Phase::Polling {
                assert(out.drop_first().drop_first() =~= seq![]);
                assert(file_writes(out) =~= seq![ActionView::Banner(Banner::Shutdown)]);
            }
        },
    }
}

proof fn lemma_file_writes_run(phase: Phase, evs: Seq<EventView>)
    requires
        valid_run(phase, evs),
    ensures
        file_writes(run(phase, evs).1) == message_writes(evs) + if run(phase, evs).0
            == Phase::Finished && phase != Phase::Finished {
            seq![ActionView::Banner(Banner::Shutdown)]
        } else {
            Seq::<ActionView>::empty()
        },
    decreases evs.len(),
{
    if evs.len() == 0 {
        assert(message_writes(evs) + Seq::<ActionView>::empty() =~= Seq::<ActionView>::empty());
    } else {
        let (p1, out1) = step_spec(phase, evs[0]);
        let rest = evs.drop_first();
        lemma_file_writes_run(p1, rest);
        lemma_file_writes_concat(out1, run(p1, rest).1);
        lemma_file_writes_step(phase, evs[0]);
        if p1 == Phase::Finished {
            if rest.len() > 0 {
                assert(valid_run(p1, rest));
                assert(!accepts(p1, rest[0]));
                assert(false);
            }
            assert(rest =~= Seq::<EventView>::empty());
            assert(run(p1, rest).1 =~= Seq::<ActionView>::empty());
            assert(file_writes(run(phase, evs).1) =~= message_writes(evs) + seq![
                ActionView::Banner(Banner::Shutdown),
            ]);
        } else {
            assert(file_writes(run(phase, evs).1) =~= message_writes(evs) + if run(phase, evs).0
                == Phase::Finished && phase != Phase::Finished {
                seq![ActionView::Banner(Banner::Shutdown)]
            } else {
                Seq::<ActionView>::empty()
            });
        }
    }
}

/// The log of a whole session: a writer that starts and then receives events until it
/// finishes writes the startup banner, then the payload of every received message, in
/// order, each once, then the shutdown banner, and nothing else; its last action is a
/// flush.
pub proof fn law_session_log(evs: Seq<EventView>)
    requires
        valid_run(Phase::Polling, evs),
        run(Phase::Polling, evs).0 == Phase::Finished,
    ensures
        file_writes(start_spec() + run(Phase::Polling, evs).1) == seq![
            ActionView::Banner(Banner::Startup),
        ] + message_writes(evs) + seq![ActionView::Banner(Banner::Shutdown)],
        (start_spec() + run(Phase::Polling, evs).1).last() == ActionView::Flush,
{
    let outs = run(Phase::Polling, evs).1;
    lemma_file_writes_run(Phase::Polling, evs);
    lemma_file_writes_concat(start_spec(), outs);
    reveal_with_fuel(file_writes, 3);
    assert(start_spec().drop_first().drop_first() =~= seq![]);
    assert(start_spec().drop_first() =~= seq![ActionView::Flush]);
    assert(file_writes(start_spec()) =~= seq![ActionView::Banner(Banner::Startup)]);
    assert(file_writes(start_spec() + outs) =~= seq![ActionView::Banner(Banner::Startup)]
        + message_writes(evs) + seq![ActionView::Banner(Banner::Shutdown)]);
    law_shutdown_banner_last(Phase::Polling, evs);
    assert((start_spec() + outs).last() == outs.last());
}

/// The text that opens a banner line of kind `kind`.
pub open spec fn banner_prefix(kind: Banner) -> &'static str {
    match kind {
        Banner::Startup => "====== gmsv_async_stdout ",
        Banner::Shutdown => "====== SERVER SHUTTING DOWN ",
    }
}

/// The text that closes every banner line, newline included.
pub open spec fn banner_suffix() -> &'static str {
    " ======\n"
}

/// The bytes of a banner line of kind `kind` stamped with `timestamp`.
pub open spec fn banner_line_spec(kind: Banner, timestamp: &str) -> Seq<u8> {
    banner_prefix(kind).spec_bytes() + timestamp.spec_bytes() + banner_suffix().spec_bytes()
}

/// The banner lines of the log: for every timestamp, the startup line is
/// `====== gmsv_async_stdout <timestamp> ======` and the shutdown line is
/// `====== SERVER SHUTTING DOWN <timestamp> ======`, each ending in a newline; the
/// kind alone picks the text around the timestamp.
pub proof fn law_banner_lines(timestamp: &str)
    ensures
        banner_line_spec(Banner::Startup, timestamp) == "====== gmsv_async_stdout ".spec_bytes()
            + timestamp.spec_bytes() + " ======\n".spec_bytes(),
        banner_line_spec(Banner::Shutdown, timestamp) == "====== SERVER SHUTTING DOWN ".spec_bytes()
            + timestamp.spec_bytes() + " ======\n".spec_bytes(),
{
}

fn append_bytes(out: &mut Vec<u8>, src: &[u8])
    ensures
        final(out)@ == old(out)@ + src@,
{
    let mut i: usize = 0;
    while i < src.len()
        invariant
            i <= src@.len(),
            out@ =~= old(out)@ + src@.take(i as int),
        decreases src@.len() - i,
    {
        out.push(src[i]);
        i = i + 1;
    }
    assert(src@.take(src@.len() as int) =~= src@);
}

/// The banner line of kind `kind` stamped with `timestamp`, as written to the log:
/// `====== gmsv_async_stdout <timestamp> ======` when the log opens and
/// `====== SERVER SHUTTING DOWN <timestamp> ======` when it closes, each with a newline.
pub fn banner_line(kind: Banner, timestamp: &str) -> (line: Vec<u8>)
    ensures
        line@ == banner_line_spec(kind, timestamp),
        kind == Banner::Startup ==> line@ == "====== gmsv_async_stdout ".spec_bytes()
            + timestamp.spec_bytes() + " ======\n".spec_bytes(),
        kind == Banner::Shutdown ==> line@ == "====== SERVER SHUTTING DOWN ".spec_bytes()
            + timestamp.spec_bytes() + " ======\n".spec_bytes(),
{
    let prefix: &str = match kind {
        Banner::Startup => "====== gmsv_async_stdout ",
        Banner::Shutdown => "====== SERVER SHUTTING DOWN ",
    };
    let mut line: Vec<u8> = Vec::new();
    append_bytes(&mut line, prefix.as_bytes());
    append_bytes(&mut line, timestamp.as_bytes());
    append_bytes(&mut line, " ======\n".as_bytes());
    assert(line@ =~= banner_line_spec(kind, timestamp));
    line
}

/// The background writer of the log file.
pub struct LogWriter {
    phase: Phase,
}

impl LogWriter {
    /// The writer's phase.
    pub closed spec fn phase_view(&self) -> Phase {
        self.phase
    }

    /// A writer for a freshly opened log file.
    pub fn new() -> (w: LogWriter)
        ensures
            w.phase_view() == Phase::Starting,
    {
        LogWriter { phase: Phase::Starting }
    }

    /// The writer's phase.
    pub fn phase(&self) -> (p: Phase)
        ensures
            p == self.phase_view(),
    {
        self.phase
    }

    /// The channel operation to perform next.
    pub fn next_request(&self) -> (r: Request)
        ensures
            r == request_for(self.phase_view()),
    {
        match self.phase {
            Phase::Starting => Request::Start,
            Phase::Polling => Request::TryReceive,
            Phase::Waiting => Request::Receive,
            Phase::Finished => Request::Stop,
        }
    }

    /// Opens the log: the startup banner, then a flush.
    pub fn start(&mut self) -> (actions: Vec<WriteAction>)
        requires
            old(self).phase_view() == Phase::Starting,
        ensures
            final(self).phase_view() == Phase::Polling,
            actions@.len() == 2,
            actions_view(actions@) == start_spec(),
    {
        self.phase = Phase::Polling;
        let mut actions: Vec<WriteAction> = Vec::new();
        actions.push(WriteAction::Banner(Banner::Startup));
        actions.push(WriteAction::Flush);
        assert(actions_view(actions@) =~= seq![
            ActionView::Banner(Banner::Startup),
            ActionView::Flush,
        ]);
        actions
    }

    /// Takes the outcome of the operation `next_request` asked for and answers with
    /// the writes to make, in order.
    pub fn handle(&mut self, ev: ChannelEvent) -> (actions: Vec<WriteAction>)
        requires
            accepts(old(self).phase_view(), ev@),
        ensures
            (final(self).phase_view(), actions_view(actions@)) == step_spec(
                old(self).phase_view(),
                ev@,
            ),
            actions@.len() == step_spec(old(self).phase_view(), ev@).1.len(),
    {
        let ghost ev_view = ev@;
        let mut actions: Vec<WriteAction> = Vec::new();
        match ev {
            ChannelEvent::Message(m) => {
                let bytes = m.payload();
                actions.push(WriteAction::Bytes(bytes));
                self.phase = Phase::Polling;
            },
            ChannelEvent::Empty => {
                actions.push(WriteAction::Flush);
                self.phase = Phase::Waiting;
            },
            ChannelEvent::Disconnected => {
                if self.phase == Phase::Polling {
                    actions.push(WriteAction::Banner(Banner::Shutdown));
                    actions.push(WriteAction::Flush);
                    self.phase = Phase::Finished;
                } else {
                    self.phase = Phase::Polling;
                }
            },
        }
        assert(actions_view(actions@) =~= step_spec(old(self).phase_view(), ev_view).1);
        actions
    }
}

} // verus!
