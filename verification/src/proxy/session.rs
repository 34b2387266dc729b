//! One client session of the proxy: the query a client registers with, and
//! the loop that pumps bytes between the client and the cluster.

use vstd::prelude::*;

verus! {

/// The query of a client's registration: the cluster address it wants,
/// where it names one.
pub struct RegisterQuery {
    pub addr: Option<String>,
}

/// The port the proxy listens on (on the loopback address).
pub const WS_PORT: u16 = 8000;

/// The path websocket clients register on.
pub fn register_path() -> (r: &'static str)
    ensures
        r@ == "/ws/"@,
{
    "/ws/"
}

/// How many client frames may wait for the cluster.
pub const WRITE_QUEUE_CAPACITY: usize = 100;

/// How many bytes one read from the cluster takes at most.
pub const READ_BUFFER_SIZE: usize = 10000;

/// How many seconds of quiet pass before the proxy pings the client.
pub const PING_INTERVAL_SECS: u64 = 50;

/// What woke the session's pump.
pub enum PumpEvent {
    /// The client queue gave a frame, or failed to.
    Outgoing(Result<Vec<u8>, String>),
    /// A read from the cluster filled this many bytes of the buffer, or failed.
    Incoming(Result<usize, String>),
    /// The ping interval passed without either.
    Heartbeat,
}

/// What the pump does next.
pub enum PumpAction {
    /// Write these bytes to the cluster (a failed write is only logged).
    WriteToCluster(Vec<u8>),
    /// Log that the client queue failed, and go on.
    LogQueueError(String),
    /// Send these bytes to the client.
    Reply(Vec<u8>),
    /// Ping the client.
    Ping,
    /// End the session: the cluster connection failed.
    Stop,
}

/// A zeroed read buffer of `READ_BUFFER_SIZE` bytes.
pub fn read_buffer() -> (r: Vec<u8>)
    ensures
        r@ == Seq::new(READ_BUFFER_SIZE as nat, |i: int| 0u8),
{
    let mut buf: Vec<u8> = Vec::new();
    let mut i: usize = 0;
    while i < READ_BUFFER_SIZE
        invariant
            i <= READ_BUFFER_SIZE,
            buf@ == Seq::new(i as nat, |k: int| 0u8),
        decreases READ_BUFFER_SIZE - i,
    {
        buf.push(0u8);
        i = i + 1;
        assert(buf@ =~= Seq::new(i as nat, |k: int| 0u8));
    }
    buf
}

/// The first `n` bytes of `buf`.
fn prefix(buf: &[u8], n: usize) -> (r: Vec<u8>)
    requires
        n <= buf@.len(),
    ensures
        r@ == buf@.subrange(0, n as int),
{
    let mut out: Vec<u8> = Vec::new();
    let mut i: usize = 0;
    while i < n
        invariant
            i <= n,
            n <= buf@.len(),
            out@ == buf@.subrange(0, i as int),
        decreases n - i,
    {
        out.push(buf[i]);
        i = i + 1;
        assert(out@ =~= buf@.subrange(0, i as int));
    }
    out
}

/// The abstract form of a `PumpEvent`.
pub enum PumpEventView {
    Outgoing(Result<Seq<u8>, Seq<char>>),
    Incoming(Result<usize, Seq<char>>),
    Heartbeat,
}

impl View for PumpEvent {
    type V = PumpEventView;

    open spec fn view(&self) -> PumpEventView {
        match self {
            PumpEvent::Outgoing(Ok(b)) => PumpEventView::Outgoing(Ok(b@)),
            PumpEvent::Outgoing(Err(e)) => PumpEventView::Outgoing(Err(e@)),
            PumpEvent::Incoming(Ok(n)) => PumpEventView::Incoming(Ok(*n)),
            PumpEvent::Incoming(Err(e)) => PumpEventView::Incoming(Err(e@)),
            PumpEvent::Heartbeat => PumpEventView::Heartbeat,
        }
    }
}

/// The abstract form of a `PumpAction`.
pub enum PumpOutcome {
    Write(Seq<u8>),
    LogQueueError(Seq<char>),
    Reply(Seq<u8>),
    Ping,
    Stop,
}

impl View for PumpAction {
    type V = PumpOutcome;

    open spec fn view(&self) -> PumpOutcome {
        match self {
            PumpAction::WriteToCluster(b) => PumpOutcome::Write(b@),
            PumpAction::LogQueueError(e) => PumpOutcome::LogQueueError(e@),
            PumpAction::Reply(b) => PumpOutcome::Reply(b@),
            PumpAction::Ping => PumpOutcome::Ping,
            PumpAction::Stop => PumpOutcome::Stop,
        }
    }
}

/// One turn of the pump: a client frame is written to the cluster, a failed
/// client queue is logged, the bytes a read filled (the first `n` of the
/// buffer) are sent to the client, a failed read ends the session, and a
/// quiet interval pings the client.
pub open spec fn pump_spec(event: PumpEventView, buf: Seq<u8>) -> PumpOutcome {
    match event {
        PumpEventView::Outgoing(Ok(b)) => PumpOutcome::Write(b),
        PumpEventView::Outgoing(Err(e)) => PumpOutcome::LogQueueError(e),
        PumpEventView::Incoming(Ok(n)) => PumpOutcome::Reply(buf.subrange(0, n as int)),
        PumpEventView::Incoming(Err(_)) => PumpOutcome::Stop,
        PumpEventView::Heartbeat => PumpOutcome::Ping,
    }
}

/// One turn of the session's pump, given what woke it and the read buffer.
/// A read reports at most the buffer's length.
pub fn pump_step(event: PumpEvent, buf: &[u8]) -> (r: PumpAction)
    requires
        event matches PumpEvent::Incoming(Ok(n)) ==> n <= buf@.len(),
    ensures
        r@ == pump_spec(event@, buf@),
{
    match event {
        PumpEvent::Outgoing(Ok(b)) => PumpAction::WriteToCluster(b),
        PumpEvent::Outgoing(Err(e)) => PumpAction::LogQueueError(e),
        PumpEvent::Incoming(Ok(n)) => PumpAction::Reply(prefix(buf, n)),
        PumpEvent::Incoming(Err(_)) => PumpAction::Stop,
        PumpEvent::Heartbeat => PumpAction::Ping,
    }
}

/// A whole session: what the pump does on each turn (an event and the read
/// buffer at that turn), in order, up to and including the stop that the
/// first failed read causes; later turns are never taken.
pub open spec fn session_run(turns: Seq<(PumpEventView, Seq<u8>)>) -> Seq<PumpOutcome>
    decreases turns.len(),
{
    if turns.len() == 0 {
        Seq::empty()
    } else {
        let out = pump_spec(turns[0].0, turns[0].1);
        if out is Stop {
            seq![out]
        } else {
            seq![out] + session_run(turns.drop_first())
        }
    }
}

/// Whether a turn is a failed read from the cluster.
pub open spec fn is_read_failure(event: PumpEventView) -> bool {
    event matches PumpEventView::Incoming(Err(_))
}

/// The turns before the first failed read.
pub open spec fn live_turns(turns: Seq<(PumpEventView, Seq<u8>)>) -> Seq<(PumpEventView, Seq<u8>)>
    decreases turns.len(),
{
    if turns.len() == 0 || is_read_failure(turns[0].0) {
        Seq::empty()
    } else {
        seq![turns[0]] + live_turns(turns.drop_first())
    }
}

/// Whether some turn is a failed read.
pub open spec fn has_read_failure(turns: Seq<(PumpEventView, Seq<u8>)>) -> bool
    decreases turns.len(),
{
    turns.len() > 0 && (is_read_failure(turns[0].0) || has_read_failure(turns.drop_first()))
}

/// The frames the client's queue delivered, in order.
pub open spec fn client_frames(turns: Seq<(PumpEventView, Seq<u8>)>) -> Seq<Seq<u8>>
    decreases turns.len(),
{
    if turns.len() == 0 {
        Seq::empty()
    } else {
        (match turns[0].0 {
            PumpEventView::Outgoing(Ok(b)) => seq![b],
            _ => Seq::empty(),
        }) + client_frames(turns.drop_first())
    }
}

/// The bytes each successful cluster read filled, in read order.
pub open spec fn cluster_reads(turns: Seq<(PumpEventView, Seq<u8>)>) -> Seq<Seq<u8>>
    decreases turns.len(),
{
    if turns.len() == 0 {
        Seq::empty()
    } else {
        (match turns[0].0 {
            PumpEventView::Incoming(Ok(n)) => seq![turns[0].1.subrange(0, n as int)],
            _ => Seq::empty(),
        }) + cluster_reads(turns.drop_first())
    }
}

/// How many quiet intervals passed.
pub open spec fn heartbeats(turns: Seq<(PumpEventView, Seq<u8>)>) -> nat
    decreases turns.len(),
{
    if turns.len() == 0 {
        0
    } else {
        (if turns[0].0 is Heartbeat { 1nat } else { 0nat }) + heartbeats(turns.drop_first())
    }
}

/// The bytes written to the cluster, in order.
pub open spec fn written(outs: Seq<PumpOutcome>) -> Seq<Seq<u8>>
    decreases outs.len(),
{
    if outs.len() == 0 {
        Seq::empty()
    } else {
        (match outs[0] {
            PumpOutcome::Write(b) => seq![b],
            _ => Seq::empty(),
        }) + written(outs.drop_first())
    }
}

/// The frames sent to the client, in order.
pub open spec fn replied(outs: Seq<PumpOutcome>) -> Seq<Seq<u8>>
    decreases outs.len(),
{
    if outs.len() == 0 {
        Seq::empty()
    } else {
        (match outs[0] {
            PumpOutcome::Reply(b) => seq![b],
            _ => Seq::empty(),
        }) + replied(outs.drop_first())
    }
}

/// How many pings the client was sent.
pub open spec fn pings(outs: Seq<PumpOutcome>) -> nat
    decreases outs.len(),
{
    if outs.len() == 0 {
        0
    } else {
        (if outs[0] is Ping { 1nat } else { 0nat }) + pings(outs.drop_first())
    }
}

/// The session's outcomes, turn by turn: each live turn gives one outcome,
/// and a failed read gives one final stop.
proof fn lemma_session_shape(turns: Seq<(PumpEventView, Seq<u8>)>)
    ensures
        session_run(turns).len() == live_turns(turns).len() + if has_read_failure(turns) {
            1int
        } else {
            0int
        },
        forall|i: int|
            0 <= i < live_turns(turns).len() ==> #[trigger] session_run(turns)[i] == pump_spec(
                live_turns(turns)[i].0,
                live_turns(turns)[i].1,
            ),
        forall|i: int| 0 <= i < live_turns(turns).len() ==> !(#[trigger] session_run(turns)[i] is Stop),
        has_read_failure(turns) ==> session_run(turns).last() is Stop,
    decreases turns.len(),
{
    if turns.len() > 0 {
        let rest = turns.drop_first();
        lemma_session_shape(rest);
        let out = pump_spec(turns[0].0, turns[0].1);
        if !(out is Stop) {
            assert(!is_read_failure(turns[0].0));
            let lt = live_turns(turns);
            assert(lt =~= seq![turns[0]] + live_turns(rest));
            assert(session_run(turns) =~= seq![out] + session_run(rest));
            assert forall|i: int| 0 <= i < lt.len() implies #[trigger] session_run(turns)[i]
                == pump_spec(lt[i].0, lt[i].1) && !(session_run(turns)[i] is Stop) by {
                if i > 0 {
                    assert(session_run(turns)[i] == session_run(rest)[i - 1]);
                    assert(lt[i] == live_turns(rest)[i - 1]);
                }
            }
        } else {
            assert(is_read_failure(turns[0].0));
            assert(live_turns(turns) =~= Seq::<(PumpEventView, Seq<u8>)>::empty());
        }
    }
}

proof fn lemma_session_traffic(turns: Seq<(PumpEventView, Seq<u8>)>)
    ensures
        written(session_run(turns)) == client_frames(live_turns(turns)),
        replied(session_run(turns)) == cluster_reads(live_turns(turns)),
        pings(session_run(turns)) == heartbeats(live_turns(turns)),
    decreases turns.len(),
{
    if turns.len() == 0 {
        assert(written(Seq::<PumpOutcome>::empty()) =~= Seq::<Seq<u8>>::empty());
        assert(replied(Seq::<PumpOutcome>::empty()) =~= Seq::<Seq<u8>>::empty());
    } else {
        let rest = turns.drop_first();
        lemma_session_traffic(rest);
        let out = pump_spec(turns[0].0, turns[0].1);
        if out is Stop {
            let run = session_run(turns);
            assert(run =~= seq![out]);
            assert(run.drop_first() =~= Seq::<PumpOutcome>::empty());
            assert(live_turns(turns) =~= Seq::<(PumpEventView, Seq<u8>)>::empty());
            assert(run[0] == out);
            assert(written(run.drop_first()) =~= Seq::<Seq<u8>>::empty());
            assert(replied(run.drop_first()) =~= Seq::<Seq<u8>>::empty());
            assert(written(run) =~= Seq::<Seq<u8>>::empty());
            assert(replied(run) =~= Seq::<Seq<u8>>::empty());
            assert(pings(run.drop_first()) == 0);
            assert(pings(run) == 0);
            assert(heartbeats(live_turns(turns)) == 0);
        } else {
            let run = session_run(turns);
            let lt = live_turns(turns);
            assert(run =~= seq![out] + session_run(rest));
            assert(run.drop_first() =~= session_run(rest));
            assert(lt =~= seq![turns[0]] + live_turns(rest));
            assert(lt.drop_first() =~= live_turns(rest));
            assert(run[0] == out);
            assert(lt[0] == turns[0]);
            assert(pings(run) == (if out is Ping { 1nat } else { 0nat }) + pings(session_run(rest)));
            assert(heartbeats(lt) == (if turns[0].0 is Heartbeat { 1nat } else { 0nat }) + heartbeats(
                live_turns(rest),
            ));
            match turns[0].0 {
                PumpEventView::Outgoing(Ok(b)) => {
                    assert(written(run) =~= seq![b] + written(session_run(rest)));
                    assert(client_frames(lt) =~= seq![b] + client_frames(live_turns(rest)));
                    assert(replied(run) =~= replied(session_run(rest)));
                    assert(cluster_reads(lt) =~= cluster_reads(live_turns(rest)));
                },
                PumpEventView::Incoming(Ok(n)) => {
                    let r = turns[0].1.subrange(0, n as int);
                    assert(replied(run) =~= seq![r] + replied(session_run(rest)));
                    assert(cluster_reads(lt) =~= seq![r] + cluster_reads(live_turns(rest)));
                    assert(written(run) =~= written(session_run(rest)));
                    assert(client_frames(lt) =~= client_frames(live_turns(rest)));
                },
                _ => {
                    assert(written(run) =~= written(session_run(rest)));
                    assert(client_frames(lt) =~= client_frames(live_turns(rest)));
                    assert(replied(run) =~= replied(session_run(rest)));
                    assert(cluster_reads(lt) =~= cluster_reads(live_turns(rest)));
                },
            }
        }
    }
}

/// Frames a client sends reach the cluster byte for byte and in the order
/// sent, every one of them until the cluster connection fails; a failed
/// write or a failed queue receive ends nothing.
pub proof fn law_frames_forwarded_in_order(turns: Seq<(PumpEventView, Seq<u8>)>)
    ensures
        written(session_run(turns)) == client_frames(live_turns(turns)),
        !has_read_failure(turns) ==> live_turns(turns) == turns,
{
    lemma_session_traffic(turns);
    lemma_no_failure_all_live(turns);
}

/// Each successful cluster read is sent to the client as one frame holding
/// exactly the bytes read, in read order; a quiet interval pings the client;
/// the session stops at the first failed read and takes no turn after it.
pub proof fn law_reads_replied_in_order(turns: Seq<(PumpEventView, Seq<u8>)>)
    ensures
        replied(session_run(turns)) == cluster_reads(live_turns(turns)),
        pings(session_run(turns)) == heartbeats(live_turns(turns)),
        session_run(turns).len() == live_turns(turns).len() + if has_read_failure(turns) {
            1int
        } else {
            0int
        },
        has_read_failure(turns) ==> session_run(turns).last() is Stop,
        forall|i: int| 0 <= i < live_turns(turns).len() ==> !(#[trigger] session_run(turns)[i] is Stop),
{
    lemma_session_traffic(turns);
    lemma_session_shape(turns);
}

proof fn lemma_no_failure_all_live(turns: Seq<(PumpEventView, Seq<u8>)>)
    ensures
        !has_read_failure(turns) ==> live_turns(turns) == turns,
    decreases turns.len(),
{
    if turns.len() > 0 {
        lemma_no_failure_all_live(turns.drop_first());
        if !has_read_failure(turns) {
            assert(live_turns(turns) =~= seq![turns[0]] + turns.drop_first());
            assert(turns =~= seq![turns[0]] + turns.drop_first());
        }
    } else {
        assert(live_turns(turns) =~= turns);
    }
}

} // verus!
