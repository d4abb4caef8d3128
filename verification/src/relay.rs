//! The connection relay: one accepted inbound socket paired with one dialed
//! outbound socket, carrying bytes both ways until each side ends.
//!
//! The surrounding program reads a chunk from one peer and calls
//! [`Relay::forward`], which accounts for the chunk and hands back exactly the
//! bytes to write to the other peer; end-of-stream and read or write errors
//! are reported through [`Relay::source_closed`] and
//! [`Relay::direction_failed`].  The relay is finished only once both
//! directions have ended, so a half-closed connection keeps flowing the other
//! way.

use vstd::prelude::*;

verus! {

/// One of the two directions of a relayed connection.
#[derive(Clone, Copy, PartialEq, Eq, Structural)]
pub enum Direction {
    /// From the accepted inbound socket towards the dialed backend socket.
    InboundToOutbound,
    /// From the dialed backend socket towards the accepted inbound socket.
    OutboundToInbound,
}

impl Direction {
    /// The other direction of the same connection.
    pub open spec fn spec_opposite(self) -> Direction {
        match self {
            Direction::InboundToOutbound => Direction::OutboundToInbound,
            Direction::OutboundToInbound => Direction::InboundToOutbound,
        }
    }

    #[verifier::when_used_as_spec(spec_opposite)]
    pub fn opposite(self) -> (d: Direction)
        ensures
            d == self.spec_opposite(),
    {
        match self {
            Direction::InboundToOutbound => Direction::OutboundToInbound,
            Direction::OutboundToInbound => Direction::InboundToOutbound,
        }
    }
}

/// Why one direction of the relay has stopped carrying bytes, if it has.
#[derive(Clone, Copy, PartialEq, Eq, Structural)]
pub enum DirectionStatus {
    /// The source may still produce bytes.
    Open,
    /// The source reached end-of-stream; a half-close, not a failure.
    SourceClosed,
    /// A read or write on this direction failed.
    Failed,
}

/// Progress of one direction: every byte carried so far, the running count
/// that is later reported, and whether the direction has ended.
pub struct DirectionProgress {
    /// The bytes carried in order, for the specification only.
    pub carried: Ghost<Seq<u8>>,
    /// Number of bytes carried.
    pub count: u64,
    pub status: DirectionStatus,
}

impl DirectionProgress {
    /// The count always matches the carried bytes.
    pub open spec fn wf(self) -> bool {
        self.count == self.carried@.len()
    }

    /// Whether this direction has stopped carrying bytes.
    pub open spec fn ended(self) -> bool {
        self.status != DirectionStatus::Open
    }
}

/// Both directions of one relayed connection.
pub struct Relay {
    pub inbound_to_outbound: DirectionProgress,
    pub outbound_to_inbound: DirectionProgress,
}

/// What one finished relay reports: the bytes carried each way and whether
/// both directions drained without a failure.
pub struct RelayReport {
    pub bytes_to_outbound: u64,
    pub bytes_to_inbound: u64,
    pub success: bool,
}

/// A fresh direction: open, with nothing carried.
pub open spec fn initial_direction() -> DirectionProgress {
    DirectionProgress { carried: Ghost(Seq::empty()), count: 0, status: DirectionStatus::Open }
}

/// The state after `chunk` was carried on direction `d`.
pub open spec fn spec_forward(r: Relay, d: Direction, chunk: Seq<u8>) -> Relay {
    let p = r.dir(d);
    let moved = DirectionProgress {
        carried: Ghost(p.carried@ + chunk),
        count: (p.count + chunk.len()) as u64,
        status: p.status,
    };
    r.with_dir(d, moved)
}

/// The state after direction `d`'s source reached end-of-stream.
pub open spec fn spec_source_closed(r: Relay, d: Direction) -> Relay {
    let p = r.dir(d);
    r.with_dir(d, DirectionProgress { status: DirectionStatus::SourceClosed, ..p })
}

/// The state after a read or write on direction `d` failed.
pub open spec fn spec_direction_failed(r: Relay, d: Direction) -> Relay {
    let p = r.dir(d);
    r.with_dir(d, DirectionProgress { status: DirectionStatus::Failed, ..p })
}

impl Relay {
    /// The progress of direction `d`.
    pub open spec fn dir(self, d: Direction) -> DirectionProgress {
        match d {
            Direction::InboundToOutbound => self.inbound_to_outbound,
            Direction::OutboundToInbound => self.outbound_to_inbound,
        }
    }

    /// `self` with direction `d` replaced by `p`.
    pub open spec fn with_dir(self, d: Direction, p: DirectionProgress) -> Relay {
        match d {
            Direction::InboundToOutbound => Relay { inbound_to_outbound: p, ..self },
            Direction::OutboundToInbound => Relay { outbound_to_inbound: p, ..self },
        }
    }

    /// Both counts match the carried bytes.
    pub open spec fn wf(self) -> bool {
        self.inbound_to_outbound.wf() && self.outbound_to_inbound.wf()
    }

    /// The relay is finished only once both directions have ended.
    pub open spec fn finished(self) -> bool {
        self.inbound_to_outbound.ended() && self.outbound_to_inbound.ended()
    }

    /// Whether either direction failed; the pair is then reported as failed,
    /// with the byte counts known up to that point.
    pub open spec fn failed(self) -> bool {
        self.inbound_to_outbound.status == DirectionStatus::Failed
            || self.outbound_to_inbound.status == DirectionStatus::Failed
    }

    /// A fresh relay for a newly accepted and dialed pair of sockets: both
    /// directions open, nothing carried yet.
    pub fn new() -> (r: Relay)
        ensures
            r.wf(),
            r.inbound_to_outbound == initial_direction(),
            r.outbound_to_inbound == initial_direction(),
    {
        Relay {
            inbound_to_outbound: DirectionProgress {
                carried: Ghost(Seq::empty()),
                count: 0,
                status: DirectionStatus::Open,
            },
            outbound_to_inbound: DirectionProgress {
                carried: Ghost(Seq::empty()),
                count: 0,
                status: DirectionStatus::Open,
            },
        }
    }

    /// Accounts for one chunk read from direction `d`'s source and returns
    /// exactly the bytes to write to the opposite peer: bytes pass through
    /// unchanged and in order, and the other direction is untouched.
    pub fn forward(&mut self, d: Direction, chunk: &Vec<u8>) -> (out: Vec<u8>)
        requires
            old(self).wf(),
            !old(self).dir(d).ended(),
            old(self).dir(d).count + chunk@.len() <= u64::MAX,
        ensures
            *final(self) == spec_forward(*old(self), d, chunk@),
            final(self).wf(),
            out@ == chunk@,
            final(self).dir(d.opposite()) == old(self).dir(d.opposite()),
            !final(self).dir(d).ended(),
    {
        let out = chunk.clone();
        let count: u64 = chunk.len() as u64;
        match d {
            Direction::InboundToOutbound => {
                self.inbound_to_outbound.carried = Ghost(
                    self.inbound_to_outbound.carried@ + chunk@,
                );
                self.inbound_to_outbound.count = self.inbound_to_outbound.count + count;
            },
            Direction::OutboundToInbound => {
                self.outbound_to_inbound.carried = Ghost(
                    self.outbound_to_inbound.carried@ + chunk@,
                );
                self.outbound_to_inbound.count = self.outbound_to_inbound.count + count;
            },
        }
        out
    }

    /// Records that direction `d`'s source reached end-of-stream.  The other
    /// direction is untouched: a half-closed connection stays valid.
    pub fn source_closed(&mut self, d: Direction)
        requires
            !old(self).dir(d).ended(),
        ensures
            *final(self) == spec_source_closed(*old(self), d),
            final(self).dir(d).status == DirectionStatus::SourceClosed,
            final(self).dir(d.opposite()) == old(self).dir(d.opposite()),
            old(self).wf() ==> final(self).wf(),
    {
        match d {
            Direction::InboundToOutbound => {
                self.inbound_to_outbound.status = DirectionStatus::SourceClosed;
            },
            Direction::OutboundToInbound => {
                self.outbound_to_inbound.status = DirectionStatus::SourceClosed;
            },
        }
    }

    /// Records that a read or write on direction `d` failed.  Only this
    /// connection is affected, and the counts stay known.
    pub fn direction_failed(&mut self, d: Direction)
        requires
            !old(self).dir(d).ended(),
        ensures
            *final(self) == spec_direction_failed(*old(self), d),
            final(self).dir(d).status == DirectionStatus::Failed,
            final(self).dir(d.opposite()) == old(self).dir(d.opposite()),
            old(self).wf() ==> final(self).wf(),
    {
        match d {
            Direction::InboundToOutbound => {
                self.inbound_to_outbound.status = DirectionStatus::Failed;
            },
            Direction::OutboundToInbound => {
                self.outbound_to_inbound.status = DirectionStatus::Failed;
            },
        }
    }

    /// The report for a finished relay: the exact byte counts each way, and
    /// success exactly when neither direction failed.
    pub fn report(&self) -> (rep: RelayReport)
        requires
            self.wf(),
            self.finished(),
        ensures
            rep.bytes_to_outbound == self.inbound_to_outbound.carried@.len(),
            rep.bytes_to_inbound == self.outbound_to_inbound.carried@.len(),
            rep.success <==> !self.failed(),
    {
        let success = match (self.inbound_to_outbound.status, self.outbound_to_inbound.status) {
            (DirectionStatus::Failed, _) => false,
            (_, DirectionStatus::Failed) => false,
            _ => true,
        };
        RelayReport {
            bytes_to_outbound: self.inbound_to_outbound.count,
            bytes_to_inbound: self.outbound_to_inbound.count,
            success,
        }
    }
}

/// All the bytes of `chunks`, in order.
pub open spec fn flatten_chunks(chunks: Seq<Seq<u8>>) -> Seq<u8>
    decreases chunks.len(),
{
    if chunks.len() == 0 {
        Seq::empty()
    } else {
        flatten_chunks(chunks.drop_last()) + chunks.last()
    }
}

/// The relay after every chunk of `chunks` was carried on direction `d`, in
/// order.
pub open spec fn spec_forward_all(r: Relay, d: Direction, chunks: Seq<Seq<u8>>) -> Relay
    decreases chunks.len(),
{
    if chunks.len() == 0 {
        r
    } else {
        spec_forward(spec_forward_all(r, d, chunks.drop_last()), d, chunks.last())
    }
}

/// Relay correctness: whatever chunks a peer sends, the very same bytes are
/// handed to the other peer, in order — the stream carried on a direction is
/// exactly the concatenation of the chunks read from its source — and the
/// count later reported for that direction is exactly that stream's length.
/// The opposite direction is untouched throughout.
pub proof fn lemma_relay_correctness(r: Relay, d: Direction, chunks: Seq<Seq<u8>>)
    requires
        r.wf(),
        r.dir(d).count + flatten_chunks(chunks).len() <= u64::MAX,
    ensures
        spec_forward_all(r, d, chunks).wf(),
        spec_forward_all(r, d, chunks).dir(d).carried@ == r.dir(d).carried@ + flatten_chunks(
            chunks,
        ),
        spec_forward_all(r, d, chunks).dir(d).count == r.dir(d).count + flatten_chunks(
            chunks,
        ).len(),
        spec_forward_all(r, d, chunks).dir(d).status == r.dir(d).status,
        spec_forward_all(r, d, chunks).dir(d.spec_opposite()) == r.dir(d.spec_opposite()),
    decreases chunks.len(),
{
    if chunks.len() == 0 {
        assert(r.dir(d).carried@ + flatten_chunks(chunks) =~= r.dir(d).carried@);
    } else {
        let rest = chunks.drop_last();
        lemma_relay_correctness(r, d, rest);
        assert(r.dir(d).carried@ + flatten_chunks(rest) + chunks.last() =~= r.dir(d).carried@
            + flatten_chunks(chunks));
    }
}

/// Half-close tolerance: when one direction's source closes, the relay is
/// not finished while the other direction is still open; the other direction
/// is untouched and still carries further bytes unchanged.
pub proof fn lemma_half_close_tolerance(r: Relay, d: Direction, chunk: Seq<u8>)
    requires
        r.wf(),
        !r.dir(d.spec_opposite()).ended(),
        r.dir(d.spec_opposite()).count + chunk.len() <= u64::MAX,
    ensures
        !spec_source_closed(r, d).finished(),
        spec_source_closed(r, d).dir(d).status == DirectionStatus::SourceClosed,
        spec_source_closed(r, d).dir(d.spec_opposite()) == r.dir(d.spec_opposite()),
        spec_forward(spec_source_closed(r, d), d.spec_opposite(), chunk).dir(
            d.spec_opposite(),
        ).carried@ == r.dir(d.spec_opposite()).carried@ + chunk,
        !spec_forward(spec_source_closed(r, d), d.spec_opposite(), chunk).finished(),
{
}

} // verus!
