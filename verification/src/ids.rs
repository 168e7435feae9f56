//! The closed catalog of metric identifiers and the exact-match lookup.
//!
//! Identifiers are opaque string tokens drawn from a fixed, externally
//! defined enumeration. Each one maps to exactly one storage cell for the
//! lifetime of the process; any other string is, by definition, unknown.

use vstd::prelude::*;
use vstd::string::StringSliceAdditionalSpecFns;
use vstd::utf8::encode_utf8_decode_utf8;

verus! {

pub const INBOUND_ALL_SUCCESSES: &'static str = "snarkos_inbound_all_successes_total";

pub const INBOUND_ALL_FAILURES: &'static str = "snarkos_inbound_all_failures_total";

pub const INBOUND_BLOCKS: &'static str = "snarkos_inbound_blocks_total";

pub const INBOUND_GETBLOCKS: &'static str = "snarkos_inbound_getblocks_total";

pub const INBOUND_GETMEMORYPOOL: &'static str = "snarkos_inbound_getmemorypool_total";

pub const INBOUND_GETPEERS: &'static str = "snarkos_inbound_getpeers_total";

pub const INBOUND_GETSYNC: &'static str = "snarkos_inbound_getsync_total";

pub const INBOUND_MEMORYPOOL: &'static str = "snarkos_inbound_memorypool_total";

pub const INBOUND_PEERS: &'static str = "snarkos_inbound_peers_total";

pub const INBOUND_PINGS: &'static str = "snarkos_inbound_pings_total";

pub const INBOUND_PONGS: &'static str = "snarkos_inbound_pongs_total";

pub const INBOUND_SYNCS: &'static str = "snarkos_inbound_syncs_total";

pub const INBOUND_SYNCBLOCKS: &'static str = "snarkos_inbound_syncblocks_total";

pub const INBOUND_TRANSACTIONS: &'static str = "snarkos_inbound_transactions_total";

pub const INBOUND_UNKNOWN: &'static str = "snarkos_inbound_unknown_total";

pub const OUTBOUND_ALL_SUCCESSES: &'static str = "snarkos_outbound_all_successes_total";

pub const OUTBOUND_ALL_FAILURES: &'static str = "snarkos_outbound_all_failures_total";

pub const CONNECTIONS_ALL_ACCEPTED: &'static str = "snarkos_connections_all_accepted_total";

pub const CONNECTIONS_ALL_INITIATED: &'static str = "snarkos_connections_all_initiated_total";

pub const CONNECTIONS_ALL_REJECTED: &'static str = "snarkos_connections_all_rejected_total";

pub const CONNECTIONS_CONNECTING: &'static str = "snarkos_connections_connecting_total";

pub const CONNECTIONS_CONNECTED: &'static str = "snarkos_connections_connected_total";

pub const CONNECTIONS_DISCONNECTED: &'static str = "snarkos_connections_disconnected_total";

pub const HANDSHAKES_FAILURES_INIT: &'static str = "snarkos_handshakes_failures_init_total";

pub const HANDSHAKES_FAILURES_RESP: &'static str = "snarkos_handshakes_failures_resp_total";

pub const HANDSHAKES_SUCCESSES_INIT: &'static str = "snarkos_handshakes_successes_init_total";

pub const HANDSHAKES_SUCCESSES_RESP: &'static str = "snarkos_handshakes_successes_resp_total";

pub const HANDSHAKES_TIMEOUTS_INIT: &'static str = "snarkos_handshakes_timeouts_init_total";

pub const HANDSHAKES_TIMEOUTS_RESP: &'static str = "snarkos_handshakes_timeouts_resp_total";

pub const QUEUES_INBOUND: &'static str = "snarkos_queues_inbound_total";

pub const QUEUES_OUTBOUND: &'static str = "snarkos_queues_outbound_total";

pub const MISC_BLOCK_HEIGHT: &'static str = "snarkos_misc_block_height_total";

pub const MISC_BLOCKS_MINED: &'static str = "snarkos_misc_blocks_mined_total";

pub const MISC_DUPLICATE_BLOCKS: &'static str = "snarkos_misc_duplicate_blocks_total";

pub const MISC_DUPLICATE_SYNC_BLOCKS: &'static str = "snarkos_misc_duplicate_sync_blocks_total";

pub const MISC_RPC_REQUESTS: &'static str = "snarkos_misc_rpc_requests_total";

/// One tag per identifier in the catalog.
#[derive(Clone, Copy, PartialEq, Eq, Structural, Debug)]
pub enum MetricId {
    InboundAllSuccesses,
    InboundAllFailures,
    InboundBlocks,
    InboundGetBlocks,
    InboundGetMemoryPool,
    InboundGetPeers,
    InboundGetSync,
    InboundMemoryPool,
    InboundPeers,
    InboundPings,
    InboundPongs,
    InboundSyncs,
    InboundSyncBlocks,
    InboundTransactions,
    InboundUnknown,
    OutboundAllSuccesses,
    OutboundAllFailures,
    ConnectionsAllAccepted,
    ConnectionsAllInitiated,
    ConnectionsAllRejected,
    ConnectionsConnecting,
    ConnectionsConnected,
    ConnectionsDisconnected,
    HandshakesFailuresInit,
    HandshakesFailuresResp,
    HandshakesSuccessesInit,
    HandshakesSuccessesResp,
    HandshakesTimeoutsInit,
    HandshakesTimeoutsResp,
    QueuesInbound,
    QueuesOutbound,
    MiscBlockHeight,
    MiscBlocksMined,
    MiscDuplicateBlocks,
    MiscDuplicateSyncBlocks,
    MiscRpcRequests,
}

/// Whether two string slices hold the same characters.
pub fn str_eq(a: &str, b: &str) -> (r: bool)
    ensures
        r <==> a@ == b@,
{
    let ab: &[u8] = a.as_bytes();
    let bb: &[u8] = b.as_bytes();
    if ab.len() != bb.len() {
        return false;
    }
    let n: usize = ab.len();
    let mut i: usize = 0;
    while i < n
        invariant
            i <= n,
            n == ab@.len(),
            ab@.len() == bb@.len(),
            ab@ == a.spec_bytes(),
            bb@ == b.spec_bytes(),
            forall|j: int| 0 <= j < i ==> ab@[j] == bb@[j],
        decreases n - i,
    {
        if ab[i] != bb[i] {
            return false;
        }
        i += 1;
    }
    proof {
        assert(ab@ =~= bb@);
        encode_utf8_decode_utf8(a@);
        encode_utf8_decode_utf8(b@);
    }
    true
}

impl MetricId {
    /// Whether this identifier names a counter cell.
    pub open spec fn is_counter(self) -> bool {
        !self.is_gauge() && !self.is_lifecycle()
    }

    /// Whether this identifier names a gauge cell.
    pub open spec fn is_gauge(self) -> bool {
        self == MetricId::QueuesInbound || self == MetricId::QueuesOutbound
            || self == MetricId::MiscBlockHeight
    }

    /// Whether this identifier is recognized but has no storage cell yet:
    /// the connection-lifecycle gauges, deliberately deferred.
    pub open spec fn is_lifecycle(self) -> bool {
        self == MetricId::ConnectionsConnecting || self == MetricId::ConnectionsConnected
            || self == MetricId::ConnectionsDisconnected
    }
}

/// The fixed dispatch table: which identifier, if any, a name denotes.
pub open spec fn id_of(s: Seq<char>) -> Option<MetricId> {
    if s == INBOUND_ALL_SUCCESSES@ {
        Some(MetricId::InboundAllSuccesses)
    } else if s == INBOUND_ALL_FAILURES@ {
        Some(MetricId::InboundAllFailures)
    } else if s == INBOUND_BLOCKS@ {
        Some(MetricId::InboundBlocks)
    } else if s == INBOUND_GETBLOCKS@ {
        Some(MetricId::InboundGetBlocks)
    } else if s == INBOUND_GETMEMORYPOOL@ {
        Some(MetricId::InboundGetMemoryPool)
    } else if s == INBOUND_GETPEERS@ {
        Some(MetricId::InboundGetPeers)
    } else if s == INBOUND_GETSYNC@ {
        Some(MetricId::InboundGetSync)
    } else if s == INBOUND_MEMORYPOOL@ {
        Some(MetricId::InboundMemoryPool)
    } else if s == INBOUND_PEERS@ {
        Some(MetricId::InboundPeers)
    } else if s == INBOUND_PINGS@ {
        Some(MetricId::InboundPings)
    } else if s == INBOUND_PONGS@ {
        Some(MetricId::InboundPongs)
    } else if s == INBOUND_SYNCS@ {
        Some(MetricId::InboundSyncs)
    } else if s == INBOUND_SYNCBLOCKS@ {
        Some(MetricId::InboundSyncBlocks)
    } else if s == INBOUND_TRANSACTIONS@ {
        Some(MetricId::InboundTransactions)
    } else if s == INBOUND_UNKNOWN@ {
        Some(MetricId::InboundUnknown)
    } else if s == OUTBOUND_ALL_SUCCESSES@ {
        Some(MetricId::OutboundAllSuccesses)
    } else if s == OUTBOUND_ALL_FAILURES@ {
        Some(MetricId::OutboundAllFailures)
    } else if s == CONNECTIONS_ALL_ACCEPTED@ {
        Some(MetricId::ConnectionsAllAccepted)
    } else if s == CONNECTIONS_ALL_INITIATED@ {
        Some(MetricId::ConnectionsAllInitiated)
    } else if s == CONNECTIONS_ALL_REJECTED@ {
        Some(MetricId::ConnectionsAllRejected)
    } else if s == CONNECTIONS_CONNECTING@ {
        Some(MetricId::ConnectionsConnecting)
    } else if s == CONNECTIONS_CONNECTED@ {
        Some(MetricId::ConnectionsConnected)
    } else if s == CONNECTIONS_DISCONNECTED@ {
        Some(MetricId::ConnectionsDisconnected)
    } else if s == HANDSHAKES_FAILURES_INIT@ {
        Some(MetricId::HandshakesFailuresInit)
    } else if s == HANDSHAKES_FAILURES_RESP@ {
        Some(MetricId::HandshakesFailuresResp)
    } else if s == HANDSHAKES_SUCCESSES_INIT@ {
        Some(MetricId::HandshakesSuccessesInit)
    } else if s == HANDSHAKES_SUCCESSES_RESP@ {
        Some(MetricId::HandshakesSuccessesResp)
    } else if s == HANDSHAKES_TIMEOUTS_INIT@ {
        Some(MetricId::HandshakesTimeoutsInit)
    } else if s == HANDSHAKES_TIMEOUTS_RESP@ {
        Some(MetricId::HandshakesTimeoutsResp)
    } else if s == QUEUES_INBOUND@ {
        Some(MetricId::QueuesInbound)
    } else if s == QUEUES_OUTBOUND@ {
        Some(MetricId::QueuesOutbound)
    } else if s == MISC_BLOCK_HEIGHT@ {
        Some(MetricId::MiscBlockHeight)
    } else if s == MISC_BLOCKS_MINED@ {
        Some(MetricId::MiscBlocksMined)
    } else if s == MISC_DUPLICATE_BLOCKS@ {
        Some(MetricId::MiscDuplicateBlocks)
    } else if s == MISC_DUPLICATE_SYNC_BLOCKS@ {
        Some(MetricId::MiscDuplicateSyncBlocks)
    } else if s == MISC_RPC_REQUESTS@ {
        Some(MetricId::MiscRpcRequests)
    } else {
        None
    }
}

/// Resolves a name against the fixed dispatch table by exact match.
pub fn lookup(name: &str) -> (r: Option<MetricId>)
    ensures
        r == id_of(name@),
{
    if str_eq(name, INBOUND_ALL_SUCCESSES) {
        Some(MetricId::InboundAllSuccesses)
    } else if str_eq(name, INBOUND_ALL_FAILURES) {
        Some(MetricId::InboundAllFailures)
    } else if str_eq(name, INBOUND_BLOCKS) {
        Some(MetricId::InboundBlocks)
    } else if str_eq(name, INBOUND_GETBLOCKS) {
        Some(MetricId::InboundGetBlocks)
    } else if str_eq(name, INBOUND_GETMEMORYPOOL) {
        Some(MetricId::InboundGetMemoryPool)
    } else if str_eq(name, INBOUND_GETPEERS) {
        Some(MetricId::InboundGetPeers)
    } else if str_eq(name, INBOUND_GETSYNC) {
        Some(MetricId::InboundGetSync)
    } else if str_eq(name, INBOUND_MEMORYPOOL) {
        Some(MetricId::InboundMemoryPool)
    } else if str_eq(name, INBOUND_PEERS) {
        Some(MetricId::InboundPeers)
    } else if str_eq(name, INBOUND_PINGS) {
        Some(MetricId::InboundPings)
    } else if str_eq(name, INBOUND_PONGS) {
        Some(MetricId::InboundPongs)
    } else if str_eq(name, INBOUND_SYNCS) {
        Some(MetricId::InboundSyncs)
    } else if str_eq(name, INBOUND_SYNCBLOCKS) {
        Some(MetricId::InboundSyncBlocks)
    } else if str_eq(name, INBOUND_TRANSACTIONS) {
        Some(MetricId::InboundTransactions)
    } else if str_eq(name, INBOUND_UNKNOWN) {
        Some(MetricId::InboundUnknown)
    } else if str_eq(name, OUTBOUND_ALL_SUCCESSES) {
        Some(MetricId::OutboundAllSuccesses)
    } else if str_eq(name, OUTBOUND_ALL_FAILURES) {
        Some(MetricId::OutboundAllFailures)
    } else if str_eq(name, CONNECTIONS_ALL_ACCEPTED) {
        Some(MetricId::ConnectionsAllAccepted)
    } else if str_eq(name, CONNECTIONS_ALL_INITIATED) {
        Some(MetricId::ConnectionsAllInitiated)
    } else if str_eq(name, CONNECTIONS_ALL_REJECTED) {
        Some(MetricId::ConnectionsAllRejected)
    } else if str_eq(name, CONNECTIONS_CONNECTING) {
        Some(MetricId::ConnectionsConnecting)
    } else if str_eq(name, CONNECTIONS_CONNECTED) {
        Some(MetricId::ConnectionsConnected)
    } else if str_eq(name, CONNECTIONS_DISCONNECTED) {
        Some(MetricId::ConnectionsDisconnected)
    } else if str_eq(name, HANDSHAKES_FAILURES_INIT) {
        Some(MetricId::HandshakesFailuresInit)
    } else if str_eq(name, HANDSHAKES_FAILURES_RESP) {
        Some(MetricId::HandshakesFailuresResp)
    } else if str_eq(name, HANDSHAKES_SUCCESSES_INIT) {
        Some(MetricId::HandshakesSuccessesInit)
    } else if str_eq(name, HANDSHAKES_SUCCESSES_RESP) {
        Some(MetricId::HandshakesSuccessesResp)
    } else if str_eq(name, HANDSHAKES_TIMEOUTS_INIT) {
        Some(MetricId::HandshakesTimeoutsInit)
    } else if str_eq(name, HANDSHAKES_TIMEOUTS_RESP) {
        Some(MetricId::HandshakesTimeoutsResp)
    } else if str_eq(name, QUEUES_INBOUND) {
        Some(MetricId::QueuesInbound)
    } else if str_eq(name, QUEUES_OUTBOUND) {
        Some(MetricId::QueuesOutbound)
    } else if str_eq(name, MISC_BLOCK_HEIGHT) {
        Some(MetricId::MiscBlockHeight)
    } else if str_eq(name, MISC_BLOCKS_MINED) {
        Some(MetricId::MiscBlocksMined)
    } else if str_eq(name, MISC_DUPLICATE_BLOCKS) {
        Some(MetricId::MiscDuplicateBlocks)
    } else if str_eq(name, MISC_DUPLICATE_SYNC_BLOCKS) {
        Some(MetricId::MiscDuplicateSyncBlocks)
    } else if str_eq(name, MISC_RPC_REQUESTS) {
        Some(MetricId::MiscRpcRequests)
    } else {
        None
    }
}

} // verus!
