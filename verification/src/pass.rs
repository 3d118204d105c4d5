//! One delivery pass over the connections of a fan-out destination.
//!
//! The pass is a state machine. It names the next operation to perform on the
//! transport ([`DeliveryPass::pending`]) and takes in what the operation came
//! back with ([`DeliveryPass::handle`]). The connections are visited in
//! collection order, each one once; when the pass is over it knows which of
//! them stay ([`DeliveryPass::settle`]).

use vstd::prelude::*;
use crate::fanout::{
    probe_verdict, probe_verdict_of, write_verdict, write_verdict_of, DropReason, FatalError,
    ProbeSignal, ProbeVerdict, WriteSignal, WriteVerdict,
};

verus! {

/// What the transport reported back to the pass.
#[derive(Clone, Copy, Debug, PartialEq, Eq, Structural)]
pub enum Event {
    /// The outcome of the liveness probe that the pass asked for.
    Probed(ProbeSignal),
    /// The outcome of the write that the pass asked for.
    Written(WriteSignal),
}

/// What the pass asks for next. Connections are named by their position in
/// the collection as it was when the pass began.
#[derive(Clone, Copy, Debug, PartialEq, Eq, Structural)]
pub enum Step {
    /// Probe this connection with a non-blocking read.
    Probe { connection: usize },
    /// Write the message to this connection.
    Write { connection: usize },
    /// Every connection has been visited.
    Finish,
    /// The relay stops, on account of this connection.
    Abort { connection: usize, error: FatalError },
}

/// Where the pass stands with the connection under visit.
#[derive(Clone, Copy, Debug, PartialEq, Eq, Structural)]
pub enum Phase {
    /// Its probe is awaited.
    Probing,
    /// It survived the probe; the outcome of the write is awaited.
    Writing,
    /// The pass has met a fatal condition.
    Aborted(FatalError),
}

/// The state of a pass: how many connections the collection held when the
/// pass began, the phase of the connection under visit, and for every
/// connection visited so far whether it stays.
#[verifier::ext_equal]
pub struct PassView {
    pub total: usize,
    pub phase: Phase,
    pub kept: Seq<bool>,
}

/// What the transport answers for one connection: the outcome of its probe,
/// and the outcome of the write, which is consulted only where the probe
/// lets the write go ahead.
pub struct Visit {
    pub probe: ProbeSignal,
    pub write: WriteSignal,
}

impl Visit {
    /// The connection is written to.
    pub open spec fn attempted(self) -> bool {
        probe_verdict_of(self.probe) is Proceed
    }

    /// The connection stays in the collection.
    pub open spec fn keeps(self) -> bool {
        self.attempted() && write_verdict_of(self.write) is Keep
    }

    /// The visit stops the relay.
    pub open spec fn fatal(self) -> bool {
        probe_verdict_of(self.probe) is Fatal || (self.attempted() && write_verdict_of(
            self.write,
        ) is Fatal)
    }
}

impl PassView {
    /// The state in which a pass over `count` connections begins.
    pub open spec fn start(count: usize) -> PassView {
        PassView { total: count, phase: Phase::Probing, kept: Seq::empty() }
    }

    /// The position of the connection under visit.
    pub open spec fn cursor(self) -> usize {
        self.kept.len() as usize
    }

    /// The operation that the pass waits for.
    pub open spec fn pending(self) -> Step {
        match self.phase {
            Phase::Aborted(error) => Step::Abort { connection: self.cursor(), error },
            Phase::Probing => if self.kept.len() >= self.total {
                Step::Finish
            } else {
                Step::Probe { connection: self.cursor() }
            },
            Phase::Writing => if self.kept.len() >= self.total {
                Step::Finish
            } else {
                Step::Write { connection: self.cursor() }
            },
        }
    }

    /// The state after `event`. An event that does not answer the pending
    /// operation changes nothing.
    pub open spec fn after(self, event: Event) -> PassView {
        match (self.pending(), event) {
            (Step::Probe { .. }, Event::Probed(signal)) => match probe_verdict_of(signal) {
                ProbeVerdict::Proceed => PassView { phase: Phase::Writing, ..self },
                ProbeVerdict::Drop(_) => PassView { kept: self.kept.push(false), ..self },
                ProbeVerdict::Fatal(error) => PassView { phase: Phase::Aborted(error), ..self },
            },
            (Step::Write { .. }, Event::Written(signal)) => match write_verdict_of(signal) {
                WriteVerdict::Keep => PassView {
                    phase: Phase::Probing,
                    kept: self.kept.push(true),
                    ..self
                },
                WriteVerdict::Drop(_) => PassView {
                    phase: Phase::Probing,
                    kept: self.kept.push(false),
                    ..self
                },
                WriteVerdict::Fatal(error) => PassView { phase: Phase::Aborted(error), ..self },
            },
            _ => self,
        }
    }

    /// Why `event` removes the connection under visit, if it does.
    pub open spec fn dropped_by(self, event: Event) -> Option<DropReason> {
        match (self.pending(), event) {
            (Step::Probe { .. }, Event::Probed(signal)) => match probe_verdict_of(signal) {
                ProbeVerdict::Drop(reason) => Some(reason),
                _ => None,
            },
            (Step::Write { .. }, Event::Written(signal)) => match write_verdict_of(signal) {
                WriteVerdict::Drop(reason) => Some(reason),
                _ => None,
            },
            _ => None,
        }
    }

    /// The state after the visit of one connection: its probe, and the write
    /// if the pass then asks for one.
    pub open spec fn visit(self, visit: Visit) -> PassView {
        let probed = self.after(Event::Probed(visit.probe));
        if probed.pending() is Write {
            probed.after(Event::Written(visit.write))
        } else {
            probed
        }
    }

    /// The state after the visits of `visits`, in order.
    pub open spec fn visited(self, visits: Seq<Visit>) -> PassView
        decreases visits.len(),
    {
        if visits.len() == 0 {
            self
        } else {
            self.visited(visits.drop_last()).visit(visits.last())
        }
    }

    /// The connections that the pass asks to write to in the course of
    /// `visits`, in the order in which it asks.
    pub open spec fn attempts(self, visits: Seq<Visit>) -> Seq<usize>
        decreases visits.len(),
    {
        if visits.len() == 0 {
            Seq::empty()
        } else {
            let earlier = self.attempts(visits.drop_last());
            let probed = self.visited(visits.drop_last()).after(
                Event::Probed(visits.last().probe),
            );
            match probed.pending() {
                Step::Write { connection } => earlier.push(connection),
                _ => earlier,
            }
        }
    }
}

/// What is left of `connections` when the connections that a pass marked as
/// dead are taken out. A connection that the pass did not visit stays.
pub open spec fn retained<T>(connections: Seq<T>, kept: Seq<bool>) -> Seq<T>
    decreases connections.len(),
{
    if connections.len() == 0 {
        Seq::empty()
    } else {
        let last = connections.len() - 1;
        let before = retained(connections.drop_last(), kept);
        if last < kept.len() && !kept[last] {
            before
        } else {
            before.push(connections.last())
        }
    }
}

/// A delivery pass in progress.
pub struct DeliveryPass {
    total: usize,
    phase: Phase,
    kept: Vec<bool>,
}

impl View for DeliveryPass {
    type V = PassView;

    closed spec fn view(&self) -> PassView {
        PassView { total: self.total, phase: self.phase, kept: self.kept@ }
    }
}

impl DeliveryPass {
    /// Begins a pass over a collection of `count` connections.
    pub fn new(count: usize) -> (pass: DeliveryPass)
        ensures
            pass@ == PassView::start(count),
    {
        DeliveryPass { total: count, phase: Phase::Probing, kept: Vec::new() }
    }

    /// The operation that the pass waits for.
    pub fn pending(&self) -> (step: Step)
        ensures
            step == self@.pending(),
    {
        let cursor: usize = self.kept.len();
        match self.phase {
            Phase::Aborted(error) => Step::Abort { connection: cursor, error },
            Phase::Probing => {
                if cursor >= self.total {
                    Step::Finish
                } else {
                    Step::Probe { connection: cursor }
                }
            },
            Phase::Writing => {
                if cursor >= self.total {
                    Step::Finish
                } else {
                    Step::Write { connection: cursor }
                }
            },
        }
    }

    /// Takes in what the transport reported, and tells why the connection
    /// under visit leaves the collection, if it does.
    pub fn handle(&mut self, event: Event) -> (dropped: Option<DropReason>)
        ensures
            final(self)@ == old(self)@.after(event),
            dropped == old(self)@.dropped_by(event),
    {
        match (self.pending(), event) {
            (Step::Probe { .. }, Event::Probed(signal)) => match probe_verdict(signal) {
                ProbeVerdict::Proceed => {
                    self.phase = Phase::Writing;
                    None
                },
                ProbeVerdict::Drop(reason) => {
                    self.kept.push(false);
                    Some(reason)
                },
                ProbeVerdict::Fatal(error) => {
                    self.phase = Phase::Aborted(error);
                    None
                },
            },
            (Step::Write { .. }, Event::Written(signal)) => match write_verdict(signal) {
                WriteVerdict::Keep => {
                    self.phase = Phase::Probing;
                    self.kept.push(true);
                    None
                },
                WriteVerdict::Drop(reason) => {
                    self.phase = Phase::Probing;
                    self.kept.push(false);
                    Some(reason)
                },
                WriteVerdict::Fatal(error) => {
                    self.phase = Phase::Aborted(error);
                    None
                },
            },
            _ => None,
        }
    }

    /// Whether the connection at `position` stays in the collection. One that
    /// the pass has not visited stays.
    pub fn keeps(&self, position: usize) -> (stays: bool)
        ensures
            stays == (position >= self@.kept.len() || self@.kept[position as int]),
    {
        if position < self.kept.len() {
            self.kept[position]
        } else {
            true
        }
    }

    /// Takes the connections that the pass found dead out of `connections`,
    /// and leaves the others in their order.
    pub fn settle<T>(&self, connections: &mut Vec<T>)
        ensures
            final(connections)@ == retained(old(connections)@, self@.kept),
    {
        let ghost before = connections@;
        let count: usize = connections.len();
        let mut reversed: Vec<T> = Vec::new();
        while connections.len() > 0
            invariant
                connections.len() + reversed.len() == count,
                count == before.len(),
                connections@ == before.subrange(0, connections.len() as int),
                forall|k: int|
                    0 <= k < reversed.len() ==> reversed@[k] == before[count - 1 - k],
            decreases connections.len(),
        {
            let last = connections.pop();
            match last {
                Some(connection) => {
                    reversed.push(connection);
                },
                None => {},
            }
        }
        assert(connections@ =~= Seq::<T>::empty());
        let mut position: usize = 0;
        while position < count
            invariant
                position <= count,
                count == before.len(),
                reversed.len() == count - position,
                forall|k: int|
                    0 <= k < reversed.len() ==> reversed@[k] == before[count - 1 - k],
                connections@ == retained(before.subrange(0, position as int), self@.kept),
            decreases count - position,
        {
            let next = reversed.pop();
            proof {
                let upto = before.subrange(0, position + 1);
                assert(upto.drop_last() =~= before.subrange(0, position as int));
                assert(upto.last() == before[position as int]);
            }
            match next {
                Some(connection) => {
                    if self.keeps(position) {
                        connections.push(connection);
                    }
                },
                None => {},
            }
            position += 1;
        }
        assert(before.subrange(0, count as int) =~= before);
    }
}

/// The positions of the connections among `visits` that survive their probe,
/// in increasing order.
pub open spec fn live_positions(visits: Seq<Visit>) -> Seq<usize>
    decreases visits.len(),
{
    if visits.len() == 0 {
        Seq::empty()
    } else {
        let earlier = live_positions(visits.drop_last());
        if visits.last().attempted() {
            earlier.push((visits.len() - 1) as usize)
        } else {
            earlier
        }
    }
}

/// A pass that meets no fatal condition visits every connection once. After
/// the visits of the first connections it awaits the probe of the next one,
/// it has recorded of each visited connection whether it stays, and it has
/// asked for a write to exactly the connections that survived their probe,
/// once each and in collection order. When all have been visited, it is over.
pub proof fn lemma_pass_outcome(count: usize, visits: Seq<Visit>)
    requires
        visits.len() <= count,
        forall|i: int| 0 <= i < visits.len() ==> !visits[i].fatal(),
    ensures
        PassView::start(count).visited(visits) == (PassView {
            total: count,
            phase: Phase::Probing,
            kept: Seq::new(visits.len(), |i: int| visits[i].keeps()),
        }),
        PassView::start(count).attempts(visits) == live_positions(visits),
        visits.len() == count ==> PassView::start(count).visited(visits).pending() == Step::Finish,
        visits.len() < count ==> PassView::start(count).visited(visits).pending() == (Step::Probe {
            connection: visits.len() as usize,
        }),
    decreases visits.len(),
{
    let start = PassView::start(count);
    if visits.len() == 0 {
        assert(start.kept =~= Seq::new(0, |i: int| visits[i].keeps()));
    } else {
        let earlier = visits.drop_last();
        let visit = visits.last();
        lemma_pass_outcome(count, earlier);
        let before = start.visited(earlier);
        assert(before.pending() == Step::Probe { connection: earlier.len() as usize });
        assert(!visit.fatal());
        let after = before.visit(visit);
        assert(after.kept =~= Seq::new(visits.len(), |i: int| visits[i].keeps()));
    }
}

/// Where every connection is alive, a pass asks for exactly one write to
/// each of them, in collection order.
pub proof fn lemma_one_attempt_per_live_connection(count: usize, visits: Seq<Visit>)
    requires
        visits.len() == count,
        forall|i: int| 0 <= i < visits.len() ==> visits[i].attempted() && !visits[i].fatal(),
    ensures
        PassView::start(count).attempts(visits) == Seq::new(count as nat, |i: int| i as usize),
{
    lemma_pass_outcome(count, visits);
    lemma_live_positions_skipping(visits, visits.len() as int);
}

/// Where one connection answers its probe with a close frame and the others
/// are alive and stay, the pass writes to each of the others once and never
/// to the closed one, and the closed one, and no other, leaves the collection.
pub proof fn lemma_closed_connection_leaves<T>(
    connections: Seq<T>,
    visits: Seq<Visit>,
    closed: int,
)
    requires
        connections.len() == visits.len() <= usize::MAX,
        0 <= closed < visits.len(),
        visits[closed].probe == ProbeSignal::Close,
        forall|i: int| 0 <= i < visits.len() && i != closed ==> visits[i].keeps(),
    ensures
        PassView::start(visits.len() as usize).attempts(visits) == Seq::new(
            (visits.len() - 1) as nat,
            |i: int| skipping(closed, i),
        ),
        retained(connections, PassView::start(visits.len() as usize).visited(visits).kept)
            == connections.remove(closed),
{
    let count = visits.len() as usize;
    assert forall|i: int| 0 <= i < visits.len() implies !visits[i].fatal() by {
        if i != closed {
            assert(visits[i].keeps());
        }
    }
    lemma_pass_outcome(count, visits);
    lemma_live_positions_skipping(visits, closed);
    let kept = PassView::start(count).visited(visits).kept;
    lemma_retained_skipping(connections, kept, closed);
}

/// The position in a collection of the connection that stands at `position`
/// once the connection at `gap` has been taken out.
pub open spec fn skipping(gap: int, position: int) -> usize {
    if position < gap {
        position as usize
    } else {
        (position + 1) as usize
    }
}

/// Where every connection but the one at `gap` survives its probe, the live
/// positions are all positions but `gap`.
proof fn lemma_live_positions_skipping(visits: Seq<Visit>, gap: int)
    requires
        0 <= gap,
        forall|i: int| 0 <= i < visits.len() && i != gap ==> visits[i].attempted(),
        gap < visits.len() ==> !visits[gap].attempted(),
    ensures
        gap < visits.len() ==> live_positions(visits) == Seq::new(
            (visits.len() - 1) as nat,
            |i: int| skipping(gap, i),
        ),
        gap >= visits.len() ==> live_positions(visits) == Seq::new(
            visits.len(),
            |i: int| i as usize,
        ),
    decreases visits.len(),
{
    if visits.len() == 0 {
        assert(live_positions(visits) =~= Seq::new(0, |i: int| i as usize));
    } else {
        let earlier = visits.drop_last();
        lemma_live_positions_skipping(earlier, gap);
        if gap < earlier.len() {
            assert(live_positions(visits) =~= Seq::new(
                (visits.len() - 1) as nat,
                |i: int| skipping(gap, i),
            ));
        } else if gap == earlier.len() {
            assert(live_positions(visits) =~= Seq::new(
                (visits.len() - 1) as nat,
                |i: int| skipping(gap, i),
            ));
        } else {
            assert(live_positions(visits) =~= Seq::new(visits.len(), |i: int| i as usize));
        }
    }
}

/// Where a pass marked the connection at `gap` as dead and every other as
/// staying, what is retained is the collection without that connection.
proof fn lemma_retained_skipping<T>(connections: Seq<T>, kept: Seq<bool>, gap: int)
    requires
        0 <= gap,
        connections.len() <= kept.len(),
        forall|i: int| 0 <= i < connections.len() && i != gap ==> kept[i],
        gap < connections.len() ==> !kept[gap],
    ensures
        gap < connections.len() ==> retained(connections, kept) == connections.remove(gap),
        gap >= connections.len() ==> retained(connections, kept) == connections,
    decreases connections.len(),
{
    if connections.len() == 0 {
        assert(retained(connections, kept) =~= connections);
    } else {
        let earlier = connections.drop_last();
        lemma_retained_skipping(earlier, kept, gap);
        if gap < earlier.len() {
            assert(retained(connections, kept) =~= connections.remove(gap));
        } else if gap == earlier.len() {
            assert(retained(connections, kept) =~= connections.remove(gap));
        } else {
            assert(retained(connections, kept) =~= connections);
        }
    }
}

/// A pass never adds a connection: what is retained is no longer than the
/// collection, and where the pass found every visited connection alive, it
/// is the collection itself.
pub proof fn lemma_retained_bounds<T>(connections: Seq<T>, kept: Seq<bool>)
    ensures
        retained(connections, kept).len() <= connections.len(),
        (forall|i: int| 0 <= i < connections.len() && i < kept.len() ==> kept[i]) ==> retained(
            connections,
            kept,
        ) == connections,
    decreases connections.len(),
{
    if connections.len() == 0 {
        assert(retained(connections, kept) =~= connections);
    } else {
        lemma_retained_bounds(connections.drop_last(), kept);
        if forall|i: int| 0 <= i < connections.len() && i < kept.len() ==> kept[i] {
            assert(retained(connections, kept) =~= connections);
        }
    }
}

} // verus!
