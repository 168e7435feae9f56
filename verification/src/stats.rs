//! The aggregation state and the recorder facade.
//!
//! `Stats` holds one cell per identifier in the catalog, grouped by category
//! for organizational clarity only. The facade methods resolve an identifier
//! by exact name match and apply the event to the matching cell; an unknown
//! name is reported through the returned [`Outcome`] and dropped, leaving
//! every cell unchanged, so instrumentation can never perturb a caller.

use vstd::prelude::*;

use crate::cells::{Counter, Gauge};
use crate::fixed::Fixed;
use crate::ids::{id_of, lookup, MetricId};

verus! {

/// Counts of messages received by the node, by message kind.
#[derive(Clone, Copy, PartialEq, Eq, Structural, Debug)]
pub struct InboundStats {
    /// The number of successfully processed inbound messages.
    pub all_successes: Counter,
    /// The number of inbound messages that could not be processed.
    pub all_failures: Counter,
    /// The number of all received `Block` messages.
    pub blocks: Counter,
    /// The number of all received `GetBlocks` messages.
    pub getblocks: Counter,
    /// The number of all received `GetMemoryPool` messages.
    pub getmemorypool: Counter,
    /// The number of all received `GetPeers` messages.
    pub getpeers: Counter,
    /// The number of all received `GetSync` messages.
    pub getsync: Counter,
    /// The number of all received `MemoryPool` messages.
    pub memorypool: Counter,
    /// The number of all received `Peers` messages.
    pub peers: Counter,
    /// The number of all received `Ping` messages.
    pub pings: Counter,
    /// The number of all received `Pong` messages.
    pub pongs: Counter,
    /// The number of all received `Sync` messages.
    pub syncs: Counter,
    /// The number of all received `SyncBlock` messages.
    pub syncblocks: Counter,
    /// The number of all received `Transaction` messages.
    pub transactions: Counter,
    /// The number of all received `Unknown` messages.
    pub unknown: Counter,
}

impl InboundStats {
    /// Every cell of the group is at its initial value.
    pub open spec fn is_zeroed(self) -> bool {
        self.all_successes.value == 0
            && self.all_failures.value == 0
            && self.blocks.value == 0
            && self.getblocks.value == 0
            && self.getmemorypool.value == 0
            && self.getpeers.value == 0
            && self.getsync.value == 0
            && self.memorypool.value == 0
            && self.peers.value == 0
            && self.pings.value == 0
            && self.pongs.value == 0
            && self.syncs.value == 0
            && self.syncblocks.value == 0
            && self.transactions.value == 0
            && self.unknown.value == 0
    }

    /// A fresh group with every cell at its initial value.
    pub fn new() -> (r: InboundStats)
        ensures
            r.is_zeroed(),
    {
        InboundStats {
            all_successes: Counter::new(),
            all_failures: Counter::new(),
            blocks: Counter::new(),
            getblocks: Counter::new(),
            getmemorypool: Counter::new(),
            getpeers: Counter::new(),
            getsync: Counter::new(),
            memorypool: Counter::new(),
            peers: Counter::new(),
            pings: Counter::new(),
            pongs: Counter::new(),
            syncs: Counter::new(),
            syncblocks: Counter::new(),
            transactions: Counter::new(),
            unknown: Counter::new(),
        }
    }
}

/// Counts of messages sent by the node.
#[derive(Clone, Copy, PartialEq, Eq, Structural, Debug)]
pub struct OutboundStats {
    /// The number of messages successfully sent by the node.
    pub all_successes: Counter,
    /// The number of messages that failed to be sent to peers.
    pub all_failures: Counter,
}

impl OutboundStats {
    /// Every cell of the group is at its initial value.
    pub open spec fn is_zeroed(self) -> bool {
        self.all_successes.value == 0
            && self.all_failures.value == 0
    }

    /// A fresh group with every cell at its initial value.
    pub fn new() -> (r: OutboundStats)
        ensures
            r.is_zeroed(),
    {
        OutboundStats {
            all_successes: Counter::new(),
            all_failures: Counter::new(),
        }
    }
}

/// Counts related to the node's connections.
#[derive(Clone, Copy, PartialEq, Eq, Structural, Debug)]
pub struct ConnectionStats {
    /// The number of all connections the node has accepted.
    pub all_accepted: Counter,
    /// The number of all connections the node has initiated.
    pub all_initiated: Counter,
    /// The number of rejected inbound connection requests.
    pub all_rejected: Counter,
}

impl ConnectionStats {
    /// Every cell of the group is at its initial value.
    pub open spec fn is_zeroed(self) -> bool {
        self.all_accepted.value == 0
            && self.all_initiated.value == 0
            && self.all_rejected.value == 0
    }

    /// A fresh group with every cell at its initial value.
    pub fn new() -> (r: ConnectionStats)
        ensures
            r.is_zeroed(),
    {
        ConnectionStats {
            all_accepted: Counter::new(),
            all_initiated: Counter::new(),
            all_rejected: Counter::new(),
        }
    }
}

/// Counts related to the node's handshakes.
#[derive(Clone, Copy, PartialEq, Eq, Structural, Debug)]
pub struct HandshakeStats {
    /// The number of failed handshakes as the initiator.
    pub failures_init: Counter,
    /// The number of failed handshakes as the responder.
    pub failures_resp: Counter,
    /// The number of successful handshakes as the initiator.
    pub successes_init: Counter,
    /// The number of successful handshakes as the responder.
    pub successes_resp: Counter,
    /// The number of handshake timeouts as the initiator.
    pub timeouts_init: Counter,
    /// The number of handshake timeouts as the responder.
    pub timeouts_resp: Counter,
}

impl HandshakeStats {
    /// Every cell of the group is at its initial value.
    pub open spec fn is_zeroed(self) -> bool {
        self.failures_init.value == 0
            && self.failures_resp.value == 0
            && self.successes_init.value == 0
            && self.successes_resp.value == 0
            && self.timeouts_init.value == 0
            && self.timeouts_resp.value == 0
    }

    /// A fresh group with every cell at its initial value.
    pub fn new() -> (r: HandshakeStats)
        ensures
            r.is_zeroed(),
    {
        HandshakeStats {
            failures_init: Counter::new(),
            failures_resp: Counter::new(),
            successes_init: Counter::new(),
            successes_resp: Counter::new(),
            timeouts_init: Counter::new(),
            timeouts_resp: Counter::new(),
        }
    }
}

/// Point-in-time sizes of the node's message queues.
#[derive(Clone, Copy, PartialEq, Eq, Structural, Debug)]
pub struct QueueStats {
    /// The number of messages queued in the common inbound channel.
    pub inbound: Gauge,
    /// The number of messages queued in the individual outbound channels.
    pub outbound: Gauge,
}

impl QueueStats {
    /// Every cell of the group is at its initial value.
    pub open spec fn is_zeroed(self) -> bool {
        self.inbound.value.units == 0
            && self.outbound.value.units == 0
    }

    /// A fresh group with every cell at its initial value.
    pub fn new() -> (r: QueueStats)
        ensures
            r.is_zeroed(),
    {
        QueueStats {
            inbound: Gauge::new(),
            outbound: Gauge::new(),
        }
    }
}

/// Miscellaneous cells related to the node.
#[derive(Clone, Copy, PartialEq, Eq, Structural, Debug)]
pub struct MiscStats {
    /// The current block height of the node's canon chain.
    pub block_height: Gauge,
    /// The number of mined blocks.
    pub blocks_mined: Counter,
    /// The number of duplicate blocks received.
    pub duplicate_blocks: Counter,
    /// The number of duplicate sync blocks received.
    pub duplicate_sync_blocks: Counter,
    /// The number of RPC requests received.
    pub rpc_requests: Counter,
}

impl MiscStats {
    /// Every cell of the group is at its initial value.
    pub open spec fn is_zeroed(self) -> bool {
        self.block_height.value.units == 0
            && self.blocks_mined.value == 0
            && self.duplicate_blocks.value == 0
            && self.duplicate_sync_blocks.value == 0
            && self.rpc_requests.value == 0
    }

    /// A fresh group with every cell at its initial value.
    pub fn new() -> (r: MiscStats)
        ensures
            r.is_zeroed(),
    {
        MiscStats {
            block_height: Gauge::new(),
            blocks_mined: Counter::new(),
            duplicate_blocks: Counter::new(),
            duplicate_sync_blocks: Counter::new(),
            rpc_requests: Counter::new(),
        }
    }
}

/// A gauge event: move the stored quantity relatively or overwrite it.
#[derive(Clone, Copy, PartialEq, Eq, Structural, Debug)]
pub enum GaugeOp {
    /// Add the carried amount to the stored quantity.
    Increment(Fixed),
    /// Subtract the carried amount from the stored quantity.
    Decrement(Fixed),
    /// Overwrite the stored quantity with the carried value.
    Absolute(Fixed),
}

/// What became of a dispatched event.
#[derive(Clone, Copy, PartialEq, Eq, Structural, Debug)]
pub enum Outcome {
    /// The identifier resolved to a cell and the event was applied to it.
    Applied,
    /// The identifier has no cell assigned; the event was dropped.
    Unrecognized,
    /// The identifier is recognized but its storage is deliberately
    /// deferred; the event was dropped.
    Unimplemented,
}

/// The quantity a gauge holds after one event is applied to it.
pub open spec fn apply_op(v: Fixed, op: GaugeOp) -> Fixed {
    match op {
        GaugeOp::Increment(d) => (Fixed { units: v.units.wrapping_add(d.units) }),
        GaugeOp::Decrement(d) => (Fixed { units: v.units.wrapping_sub(d.units) }),
        GaugeOp::Absolute(a) => a,
    }
}

/// Applies one gauge event to a cell.
fn apply_to(g: &mut Gauge, op: GaugeOp)
    ensures
        final(g).value == apply_op(old(g).value, op),
{
    match op {
        GaugeOp::Increment(d) => g.increase(d),
        GaugeOp::Decrement(d) => g.decrease(d),
        GaugeOp::Absolute(a) => g.set(a),
    }
}

/// The aggregation state: one instance of each category group.
#[derive(Clone, Copy, PartialEq, Eq, Structural, Debug)]
pub struct Stats {
    /// Cells related to messages received by the node.
    pub inbound: InboundStats,
    /// Cells related to messages sent by the node.
    pub outbound: OutboundStats,
    /// Cells related to the node's connections.
    pub connections: ConnectionStats,
    /// Cells related to the node's handshakes.
    pub handshakes: HandshakeStats,
    /// Cells related to the node's queues.
    pub queues: QueueStats,
    /// Miscellaneous cells related to the node.
    pub misc: MiscStats,
}

impl Stats {
    /// Every cell is at its initial value.
    pub open spec fn is_zeroed(self) -> bool {
        self.inbound.is_zeroed() && self.outbound.is_zeroed() && self.connections.is_zeroed()
            && self.handshakes.is_zeroed() && self.queues.is_zeroed() && self.misc.is_zeroed()
    }

    /// The running total of the counter cell that `id` names; 0 for an
    /// identifier that names no counter.
    pub open spec fn counter_value(self, id: MetricId) -> u64 {
        match id {
            MetricId::InboundAllSuccesses => self.inbound.all_successes.value,
            MetricId::InboundAllFailures => self.inbound.all_failures.value,
            MetricId::InboundBlocks => self.inbound.blocks.value,
            MetricId::InboundGetBlocks => self.inbound.getblocks.value,
            MetricId::InboundGetMemoryPool => self.inbound.getmemorypool.value,
            MetricId::InboundGetPeers => self.inbound.getpeers.value,
            MetricId::InboundGetSync => self.inbound.getsync.value,
            MetricId::InboundMemoryPool => self.inbound.memorypool.value,
            MetricId::InboundPeers => self.inbound.peers.value,
            MetricId::InboundPings => self.inbound.pings.value,
            MetricId::InboundPongs => self.inbound.pongs.value,
            MetricId::InboundSyncs => self.inbound.syncs.value,
            MetricId::InboundSyncBlocks => self.inbound.syncblocks.value,
            MetricId::InboundTransactions => self.inbound.transactions.value,
            MetricId::InboundUnknown => self.inbound.unknown.value,
            MetricId::OutboundAllSuccesses => self.outbound.all_successes.value,
            MetricId::OutboundAllFailures => self.outbound.all_failures.value,
            MetricId::ConnectionsAllAccepted => self.connections.all_accepted.value,
            MetricId::ConnectionsAllInitiated => self.connections.all_initiated.value,
            MetricId::ConnectionsAllRejected => self.connections.all_rejected.value,
            MetricId::HandshakesFailuresInit => self.handshakes.failures_init.value,
            MetricId::HandshakesFailuresResp => self.handshakes.failures_resp.value,
            MetricId::HandshakesSuccessesInit => self.handshakes.successes_init.value,
            MetricId::HandshakesSuccessesResp => self.handshakes.successes_resp.value,
            MetricId::HandshakesTimeoutsInit => self.handshakes.timeouts_init.value,
            MetricId::HandshakesTimeoutsResp => self.handshakes.timeouts_resp.value,
            MetricId::MiscBlocksMined => self.misc.blocks_mined.value,
            MetricId::MiscDuplicateBlocks => self.misc.duplicate_blocks.value,
            MetricId::MiscDuplicateSyncBlocks => self.misc.duplicate_sync_blocks.value,
            MetricId::MiscRpcRequests => self.misc.rpc_requests.value,
            _ => 0,
        }
    }

    /// The quantity of the gauge cell that `id` names; 0.0 for an
    /// identifier that names no gauge.
    pub open spec fn gauge_value(self, id: MetricId) -> Fixed {
        match id {
            MetricId::QueuesInbound => self.queues.inbound.value,
            MetricId::QueuesOutbound => self.queues.outbound.value,
            MetricId::MiscBlockHeight => self.misc.block_height.value,
            _ => (Fixed { units: 0 }),
        }
    }

    /// The state after the counter cell that `id` names takes `v` more,
    /// every other cell untouched; the state itself if `id` names no counter.
    pub open spec fn with_counter_incremented(self, id: MetricId, v: u64) -> Stats {
        match id {
            MetricId::InboundAllSuccesses => (Stats {
                inbound: (InboundStats {
                    all_successes: (Counter { value: self.inbound.all_successes.value.wrapping_add(v) }),
                    ..self.inbound
                }),
                ..self
            }),
            MetricId::InboundAllFailures => (Stats {
                inbound: (InboundStats {
                    all_failures: (Counter { value: self.inbound.all_failures.value.wrapping_add(v) }),
                    ..self.inbound
                }),
                ..self
            }),
            MetricId::InboundBlocks => (Stats {
                inbound: (InboundStats {
                    blocks: (Counter { value: self.inbound.blocks.value.wrapping_add(v) }),
                    ..self.inbound
                }),
                ..self
            }),
            MetricId::InboundGetBlocks => (Stats {
                inbound: (InboundStats {
                    getblocks: (Counter { value: self.inbound.getblocks.value.wrapping_add(v) }),
                    ..self.inbound
                }),
                ..self
            }),
            MetricId::InboundGetMemoryPool => (Stats {
                inbound: (InboundStats {
                    getmemorypool: (Counter { value: self.inbound.getmemorypool.value.wrapping_add(v) }),
                    ..self.inbound
                }),
                ..self
            }),
            MetricId::InboundGetPeers => (Stats {
                inbound: (InboundStats {
                    getpeers: (Counter { value: self.inbound.getpeers.value.wrapping_add(v) }),
                    ..self.inbound
                }),
                ..self
            }),
            MetricId::InboundGetSync => (Stats {
                inbound: (InboundStats {
                    getsync: (Counter { value: self.inbound.getsync.value.wrapping_add(v) }),
                    ..self.inbound
                }),
                ..self
            }),
            MetricId::InboundMemoryPool => (Stats {
                inbound: (InboundStats {
                    memorypool: (Counter { value: self.inbound.memorypool.value.wrapping_add(v) }),
                    ..self.inbound
                }),
                ..self
            }),
            MetricId::InboundPeers => (Stats {
                inbound: (InboundStats {
                    peers: (Counter { value: self.inbound.peers.value.wrapping_add(v) }),
                    ..self.inbound
                }),
                ..self
            }),
            MetricId::InboundPings => (Stats {
                inbound: (InboundStats {
                    pings: (Counter { value: self.inbound.pings.value.wrapping_add(v) }),
                    ..self.inbound
                }),
                ..self
            }),
            MetricId::InboundPongs => (Stats {
                inbound: (InboundStats {
                    pongs: (Counter { value: self.inbound.pongs.value.wrapping_add(v) }),
                    ..self.inbound
                }),
                ..self
            }),
            MetricId::InboundSyncs => (Stats {
                inbound: (InboundStats {
                    syncs: (Counter { value: self.inbound.syncs.value.wrapping_add(v) }),
                    ..self.inbound
                }),
                ..self
            }),
            MetricId::InboundSyncBlocks => (Stats {
                inbound: (InboundStats {
                    syncblocks: (Counter { value: self.inbound.syncblocks.value.wrapping_add(v) }),
                    ..self.inbound
                }),
                ..self
            }),
            MetricId::InboundTransactions => (Stats {
                inbound: (InboundStats {
                    transactions: (Counter { value: self.inbound.transactions.value.wrapping_add(v) }),
                    ..self.inbound
                }),
                ..self
            }),
            MetricId::InboundUnknown => (Stats {
                inbound: (InboundStats {
                    unknown: (Counter { value: self.inbound.unknown.value.wrapping_add(v) }),
                    ..self.inbound
                }),
                ..self
            }),
            MetricId::OutboundAllSuccesses => (Stats {
                outbound: (OutboundStats {
                    all_successes: (Counter { value: self.outbound.all_successes.value.wrapping_add(v) }),
                    ..self.outbound
                }),
                ..self
            }),
            MetricId::OutboundAllFailures => (Stats {
                outbound: (OutboundStats {
                    all_failures: (Counter { value: self.outbound.all_failures.value.wrapping_add(v) }),
                    ..self.outbound
                }),
                ..self
            }),
            MetricId::ConnectionsAllAccepted => (Stats {
                connections: (ConnectionStats {
                    all_accepted: (Counter { value: self.connections.all_accepted.value.wrapping_add(v) }),
                    ..self.connections
                }),
                ..self
            }),
            MetricId::ConnectionsAllInitiated => (Stats {
                connections: (ConnectionStats {
                    all_initiated: (Counter { value: self.connections.all_initiated.value.wrapping_add(v) }),
                    ..self.connections
                }),
                ..self
            }),
            MetricId::ConnectionsAllRejected => (Stats {
                connections: (ConnectionStats {
                    all_rejected: (Counter { value: self.connections.all_rejected.value.wrapping_add(v) }),
                    ..self.connections
                }),
                ..self
            }),
            MetricId::HandshakesFailuresInit => (Stats {
                handshakes: (HandshakeStats {
                    failures_init: (Counter { value: self.handshakes.failures_init.value.wrapping_add(v) }),
                    ..self.handshakes
                }),
                ..self
            }),
            MetricId::HandshakesFailuresResp => (Stats {
                handshakes: (HandshakeStats {
                    failures_resp: (Counter { value: self.handshakes.failures_resp.value.wrapping_add(v) }),
                    ..self.handshakes
                }),
                ..self
            }),
            MetricId::HandshakesSuccessesInit => (Stats {
                handshakes: (HandshakeStats {
                    successes_init: (Counter { value: self.handshakes.successes_init.value.wrapping_add(v) }),
                    ..self.handshakes
                }),
                ..self
            }),
            MetricId::HandshakesSuccessesResp => (Stats {
                handshakes: (HandshakeStats {
                    successes_resp: (Counter { value: self.handshakes.successes_resp.value.wrapping_add(v) }),
                    ..self.handshakes
                }),
                ..self
            }),
            MetricId::HandshakesTimeoutsInit => (Stats {
                handshakes: (HandshakeStats {
                    timeouts_init: (Counter { value: self.handshakes.timeouts_init.value.wrapping_add(v) }),
                    ..self.handshakes
                }),
                ..self
            }),
            MetricId::HandshakesTimeoutsResp => (Stats {
                handshakes: (HandshakeStats {
                    timeouts_resp: (Counter { value: self.handshakes.timeouts_resp.value.wrapping_add(v) }),
                    ..self.handshakes
                }),
                ..self
            }),
            MetricId::MiscBlocksMined => (Stats {
                misc: (MiscStats {
                    blocks_mined: (Counter { value: self.misc.blocks_mined.value.wrapping_add(v) }),
                    ..self.misc
                }),
                ..self
            }),
            MetricId::MiscDuplicateBlocks => (Stats {
                misc: (MiscStats {
                    duplicate_blocks: (Counter { value: self.misc.duplicate_blocks.value.wrapping_add(v) }),
                    ..self.misc
                }),
                ..self
            }),
            MetricId::MiscDuplicateSyncBlocks => (Stats {
                misc: (MiscStats {
                    duplicate_sync_blocks: (Counter { value: self.misc.duplicate_sync_blocks.value.wrapping_add(v) }),
                    ..self.misc
                }),
                ..self
            }),
            MetricId::MiscRpcRequests => (Stats {
                misc: (MiscStats {
                    rpc_requests: (Counter { value: self.misc.rpc_requests.value.wrapping_add(v) }),
                    ..self.misc
                }),
                ..self
            }),
            _ => self,
        }
    }

    /// The state after one gauge event lands on the cell that `id` names,
    /// every other cell untouched; the state itself if `id` names no gauge.
    pub open spec fn with_gauge_applied(self, id: MetricId, op: GaugeOp) -> Stats {
        match id {
            MetricId::QueuesInbound => (Stats {
                queues: (QueueStats {
                    inbound: (Gauge { value: apply_op(self.queues.inbound.value, op) }),
                    ..self.queues
                }),
                ..self
            }),
            MetricId::QueuesOutbound => (Stats {
                queues: (QueueStats {
                    outbound: (Gauge { value: apply_op(self.queues.outbound.value, op) }),
                    ..self.queues
                }),
                ..self
            }),
            MetricId::MiscBlockHeight => (Stats {
                misc: (MiscStats {
                    block_height: (Gauge { value: apply_op(self.misc.block_height.value, op) }),
                    ..self.misc
                }),
                ..self
            }),
            _ => self,
        }
    }

    /// A fresh aggregation state with every cell at its initial value.
    pub fn new() -> (r: Stats)
        ensures
            r.is_zeroed(),
    {
        Stats {
            inbound: InboundStats::new(),
            outbound: OutboundStats::new(),
            connections: ConnectionStats::new(),
            handshakes: HandshakeStats::new(),
            queues: QueueStats::new(),
            misc: MiscStats::new(),
        }
    }

    /// Accepts a counter registration; the core keeps no registration
    /// metadata, so this is a no-op and can touch no cell.
    pub fn register_counter(&self, _name: &str, _unit: Option<&str>, _description: Option<&str>) {
    }

    /// Accepts a gauge registration; a no-op, as for counters.
    pub fn register_gauge(&self, _name: &str, _unit: Option<&str>, _description: Option<&str>) {
    }

    /// Accepts a histogram registration; a no-op, as for counters.
    pub fn register_histogram(&self, _name: &str, _unit: Option<&str>, _description: Option<&str>) {
    }

    /// Accepts a histogram sample; histograms are a non-goal of this core,
    /// so the sample is dropped without touching any cell.
    pub fn record_histogram(&self, _name: &str, _value: Fixed) {
    }

    /// Resolves `name` to its counter cell and adds `value` to it, wrapping
    /// around modulo 2^64. A name that resolves to no counter cell is
    /// reported through the outcome and the event is dropped, leaving every
    /// cell unchanged.
    pub fn increment_counter(&mut self, name: &str, value: u64) -> (r: Outcome)
        ensures
            match id_of(name@) {
                Some(id) => {
                    if id.is_counter() {
                        r == Outcome::Applied && *final(self) == old(self).with_counter_incremented(
                            id,
                            value,
                        )
                    } else {
                        r == Outcome::Unrecognized && *final(self) == *old(self)
                    }
                },
                None => r == Outcome::Unrecognized && *final(self) == *old(self),
            },
    {
        match lookup(name) {
            Some(MetricId::InboundAllSuccesses) => {
                self.inbound.all_successes.increment(value);
                Outcome::Applied
            },
            Some(MetricId::InboundAllFailures) => {
                self.inbound.all_failures.increment(value);
                Outcome::Applied
            },
            Some(MetricId::InboundBlocks) => {
                self.inbound.blocks.increment(value);
                Outcome::Applied
            },
            Some(MetricId::InboundGetBlocks) => {
                self.inbound.getblocks.increment(value);
                Outcome::Applied
            },
            Some(MetricId::InboundGetMemoryPool) => {
                self.inbound.getmemorypool.increment(value);
                Outcome::Applied
            },
            Some(MetricId::InboundGetPeers) => {
                self.inbound.getpeers.increment(value);
                Outcome::Applied
            },
            Some(MetricId::InboundGetSync) => {
                self.inbound.getsync.increment(value);
                Outcome::Applied
            },
            Some(MetricId::InboundMemoryPool) => {
                self.inbound.memorypool.increment(value);
                Outcome::Applied
            },
            Some(MetricId::InboundPeers) => {
                self.inbound.peers.increment(value);
                Outcome::Applied
            },
            Some(MetricId::InboundPings) => {
                self.inbound.pings.increment(value);
                Outcome::Applied
            },
            Some(MetricId::InboundPongs) => {
                self.inbound.pongs.increment(value);
                Outcome::Applied
            },
            Some(MetricId::InboundSyncs) => {
                self.inbound.syncs.increment(value);
                Outcome::Applied
            },
            Some(MetricId::InboundSyncBlocks) => {
                self.inbound.syncblocks.increment(value);
                Outcome::Applied
            },
            Some(MetricId::InboundTransactions) => {
                self.inbound.transactions.increment(value);
                Outcome::Applied
            },
            Some(MetricId::InboundUnknown) => {
                self.inbound.unknown.increment(value);
                Outcome::Applied
            },
            Some(MetricId::OutboundAllSuccesses) => {
                self.outbound.all_successes.increment(value);
                Outcome::Applied
            },
            Some(MetricId::OutboundAllFailures) => {
                self.outbound.all_failures.increment(value);
                Outcome::Applied
            },
            Some(MetricId::ConnectionsAllAccepted) => {
                self.connections.all_accepted.increment(value);
                Outcome::Applied
            },
            Some(MetricId::ConnectionsAllInitiated) => {
                self.connections.all_initiated.increment(value);
                Outcome::Applied
            },
            Some(MetricId::ConnectionsAllRejected) => {
                self.connections.all_rejected.increment(value);
                Outcome::Applied
            },
            Some(MetricId::HandshakesFailuresInit) => {
                self.handshakes.failures_init.increment(value);
                Outcome::Applied
            },
            Some(MetricId::HandshakesFailuresResp) => {
                self.handshakes.failures_resp.increment(value);
                Outcome::Applied
            },
            Some(MetricId::HandshakesSuccessesInit) => {
                self.handshakes.successes_init.increment(value);
                Outcome::Applied
            },
            Some(MetricId::HandshakesSuccessesResp) => {
                self.handshakes.successes_resp.increment(value);
                Outcome::Applied
            },
            Some(MetricId::HandshakesTimeoutsInit) => {
                self.handshakes.timeouts_init.increment(value);
                Outcome::Applied
            },
            Some(MetricId::HandshakesTimeoutsResp) => {
                self.handshakes.timeouts_resp.increment(value);
                Outcome::Applied
            },
            Some(MetricId::MiscBlocksMined) => {
                self.misc.blocks_mined.increment(value);
                Outcome::Applied
            },
            Some(MetricId::MiscDuplicateBlocks) => {
                self.misc.duplicate_blocks.increment(value);
                Outcome::Applied
            },
            Some(MetricId::MiscDuplicateSyncBlocks) => {
                self.misc.duplicate_sync_blocks.increment(value);
                Outcome::Applied
            },
            Some(MetricId::MiscRpcRequests) => {
                self.misc.rpc_requests.increment(value);
                Outcome::Applied
            },
            Some(_) => Outcome::Unrecognized,
            None => Outcome::Unrecognized,
        }
    }

    /// Resolves `name` to its gauge cell and applies `op` to it. A
    /// connection-lifecycle name is recognized but has no storage yet and is
    /// reported as such; any other name without a gauge cell is reported as
    /// unrecognized. In both cases the event is dropped and every cell is
    /// left unchanged.
    pub fn update_gauge(&mut self, name: &str, op: GaugeOp) -> (r: Outcome)
        ensures
            match id_of(name@) {
                Some(id) => {
                    if id.is_gauge() {
                        r == Outcome::Applied && *final(self) == old(self).with_gauge_applied(id, op)
                    } else if id.is_lifecycle() {
                        r == Outcome::Unimplemented && *final(self) == *old(self)
                    } else {
                        r == Outcome::Unrecognized && *final(self) == *old(self)
                    }
                },
                None => r == Outcome::Unrecognized && *final(self) == *old(self),
            },
    {
        match lookup(name) {
            Some(MetricId::QueuesInbound) => {
                apply_to(&mut self.queues.inbound, op);
                Outcome::Applied
            },
            Some(MetricId::QueuesOutbound) => {
                apply_to(&mut self.queues.outbound, op);
                Outcome::Applied
            },
            Some(MetricId::MiscBlockHeight) => {
                apply_to(&mut self.misc.block_height, op);
                Outcome::Applied
            },
            Some(MetricId::ConnectionsConnecting)
            | Some(MetricId::ConnectionsConnected)
            | Some(MetricId::ConnectionsDisconnected) => Outcome::Unimplemented,
            Some(_) => Outcome::Unrecognized,
            None => Outcome::Unrecognized,
        }
    }
}

} // verus!
