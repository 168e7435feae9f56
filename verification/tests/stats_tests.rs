use node_stats::fixed::Fixed;
use node_stats::ids;
use node_stats::ids::{lookup, str_eq, MetricId};
use node_stats::stats::{GaugeOp, Outcome, Stats};

/// The fixed-point value closest to the given binary-fraction float.
fn fx(x: f64) -> Fixed {
    Fixed::from_units((x * 4294967296.0) as i64)
}

/// The float the given fixed-point value represents.
fn as_f64(v: Fixed) -> f64 {
    (v.units as f64) / 4294967296.0
}

#[test]
fn str_eq_matches_exactly() {
    assert!(str_eq("snarkos_inbound_blocks_total", ids::INBOUND_BLOCKS));
    assert!(!str_eq("snarkos_inbound_blocks", ids::INBOUND_BLOCKS));
    assert!(!str_eq("snarkos_inbound_blocks_total_x", ids::INBOUND_BLOCKS));
    assert!(!str_eq("", ids::INBOUND_BLOCKS));
    assert!(str_eq("", ""));
}

#[test]
fn lookup_resolves_known_names() {
    assert_eq!(lookup(ids::INBOUND_ALL_SUCCESSES), Some(MetricId::InboundAllSuccesses));
    assert_eq!(lookup(ids::INBOUND_BLOCKS), Some(MetricId::InboundBlocks));
    assert_eq!(lookup(ids::OUTBOUND_ALL_FAILURES), Some(MetricId::OutboundAllFailures));
    assert_eq!(lookup(ids::CONNECTIONS_ALL_REJECTED), Some(MetricId::ConnectionsAllRejected));
    assert_eq!(lookup(ids::CONNECTIONS_CONNECTING), Some(MetricId::ConnectionsConnecting));
    assert_eq!(lookup(ids::HANDSHAKES_TIMEOUTS_RESP), Some(MetricId::HandshakesTimeoutsResp));
    assert_eq!(lookup(ids::QUEUES_INBOUND), Some(MetricId::QueuesInbound));
    assert_eq!(lookup(ids::MISC_BLOCK_HEIGHT), Some(MetricId::MiscBlockHeight));
    assert_eq!(lookup(ids::MISC_RPC_REQUESTS), Some(MetricId::MiscRpcRequests));
    assert_eq!(lookup("snarkos_misc_rpc_requests"), None);
    assert_eq!(lookup("nonexistent_metric"), None);
}

#[test]
fn fresh_state_has_every_cell_at_zero() {
    let s = Stats::new();
    assert_eq!(s.inbound.all_successes.value, 0);
    assert_eq!(s.inbound.unknown.value, 0);
    assert_eq!(s.outbound.all_failures.value, 0);
    assert_eq!(s.connections.all_rejected.value, 0);
    assert_eq!(s.handshakes.timeouts_resp.value, 0);
    assert_eq!(s.queues.inbound.value.units, 0);
    assert_eq!(s.queues.outbound.value.units, 0);
    assert_eq!(s.misc.block_height.value.units, 0);
    assert_eq!(s.misc.rpc_requests.value, 0);
}

#[test]
fn increment_counter_reaches_the_matching_cell() {
    let mut s = Stats::new();
    assert_eq!(s.increment_counter(ids::INBOUND_PINGS, 3), Outcome::Applied);
    assert_eq!(s.inbound.pings.value, 3);
    assert_eq!(s.increment_counter(ids::OUTBOUND_ALL_SUCCESSES, 2), Outcome::Applied);
    assert_eq!(s.outbound.all_successes.value, 2);
    assert_eq!(s.increment_counter(ids::CONNECTIONS_ALL_ACCEPTED, 1), Outcome::Applied);
    assert_eq!(s.connections.all_accepted.value, 1);
    assert_eq!(s.increment_counter(ids::HANDSHAKES_SUCCESSES_INIT, 4), Outcome::Applied);
    assert_eq!(s.handshakes.successes_init.value, 4);
    assert_eq!(s.increment_counter(ids::MISC_BLOCKS_MINED, 6), Outcome::Applied);
    assert_eq!(s.misc.blocks_mined.value, 6);
    assert_eq!(s.inbound.pings.value, 3);
}

#[test]
fn every_counter_name_is_accepted() {
    let names = [
        ids::INBOUND_ALL_SUCCESSES,
        ids::INBOUND_ALL_FAILURES,
        ids::INBOUND_BLOCKS,
        ids::INBOUND_GETBLOCKS,
        ids::INBOUND_GETMEMORYPOOL,
        ids::INBOUND_GETPEERS,
        ids::INBOUND_GETSYNC,
        ids::INBOUND_MEMORYPOOL,
        ids::INBOUND_PEERS,
        ids::INBOUND_PINGS,
        ids::INBOUND_PONGS,
        ids::INBOUND_SYNCS,
        ids::INBOUND_SYNCBLOCKS,
        ids::INBOUND_TRANSACTIONS,
        ids::INBOUND_UNKNOWN,
        ids::OUTBOUND_ALL_SUCCESSES,
        ids::OUTBOUND_ALL_FAILURES,
        ids::CONNECTIONS_ALL_ACCEPTED,
        ids::CONNECTIONS_ALL_INITIATED,
        ids::CONNECTIONS_ALL_REJECTED,
        ids::HANDSHAKES_FAILURES_INIT,
        ids::HANDSHAKES_FAILURES_RESP,
        ids::HANDSHAKES_SUCCESSES_INIT,
        ids::HANDSHAKES_SUCCESSES_RESP,
        ids::HANDSHAKES_TIMEOUTS_INIT,
        ids::HANDSHAKES_TIMEOUTS_RESP,
        ids::MISC_BLOCKS_MINED,
        ids::MISC_DUPLICATE_BLOCKS,
        ids::MISC_DUPLICATE_SYNC_BLOCKS,
        ids::MISC_RPC_REQUESTS,
    ];
    let mut s = Stats::new();
    for name in names {
        assert_eq!(s.increment_counter(name, 1), Outcome::Applied);
    }
    assert_eq!(s.inbound.getmemorypool.value, 1);
    assert_eq!(s.handshakes.failures_resp.value, 1);
    assert_eq!(s.misc.duplicate_sync_blocks.value, 1);
}

#[test]
fn unknown_counter_name_changes_nothing() {
    let mut s = Stats::new();
    s.increment_counter(ids::INBOUND_BLOCKS, 7);
    let before = s;
    assert_eq!(s.increment_counter("nonexistent_metric", 1), Outcome::Unrecognized);
    assert_eq!(s.increment_counter("", 1), Outcome::Unrecognized);
    assert_eq!(s, before);
}

#[test]
fn gauge_name_is_not_a_counter() {
    let mut s = Stats::new();
    let before = s;
    assert_eq!(s.increment_counter(ids::QUEUES_INBOUND, 1), Outcome::Unrecognized);
    assert_eq!(s.increment_counter(ids::MISC_BLOCK_HEIGHT, 1), Outcome::Unrecognized);
    assert_eq!(s, before);
}

#[test]
fn registrations_touch_no_cell() {
    let mut s = Stats::new();
    s.increment_counter(ids::INBOUND_BLOCKS, 5);
    s.update_gauge(ids::QUEUES_INBOUND, GaugeOp::Absolute(fx(2.5)));
    let before = s;
    s.register_counter(ids::INBOUND_BLOCKS, Some("count"), Some("inbound blocks"));
    s.register_gauge(ids::QUEUES_INBOUND, None, None);
    s.register_histogram("snarkos_some_histogram", None, None);
    s.record_histogram("snarkos_some_histogram", fx(1.25));
    assert_eq!(s, before);
}

#[test]
fn gauge_set_then_increment_adds_exactly() {
    let mut s = Stats::new();
    assert_eq!(s.update_gauge(ids::QUEUES_INBOUND, GaugeOp::Absolute(fx(5.0))), Outcome::Applied);
    assert_eq!(s.update_gauge(ids::QUEUES_INBOUND, GaugeOp::Increment(fx(3.0))), Outcome::Applied);
    assert_eq!(as_f64(s.queues.inbound.value), 8.0);
}

#[test]
fn gauge_preserves_fractional_precision() {
    let mut s = Stats::new();
    s.update_gauge(ids::MISC_BLOCK_HEIGHT, GaugeOp::Absolute(fx(5.5)));
    s.update_gauge(ids::MISC_BLOCK_HEIGHT, GaugeOp::Increment(fx(0.25)));
    assert_eq!(as_f64(s.misc.block_height.value), 5.75);
}

#[test]
fn gauge_decrement_subtracts() {
    let mut s = Stats::new();
    s.update_gauge(ids::QUEUES_OUTBOUND, GaugeOp::Absolute(fx(2.0)));
    s.update_gauge(ids::QUEUES_OUTBOUND, GaugeOp::Decrement(fx(3.5)));
    assert_eq!(as_f64(s.queues.outbound.value), -1.5);
}

#[test]
fn lifecycle_names_are_reported_unimplemented() {
    let mut s = Stats::new();
    let before = s;
    assert_eq!(
        s.update_gauge(ids::CONNECTIONS_CONNECTING, GaugeOp::Absolute(fx(1.0))),
        Outcome::Unimplemented
    );
    assert_eq!(
        s.update_gauge(ids::CONNECTIONS_CONNECTED, GaugeOp::Increment(fx(1.0))),
        Outcome::Unimplemented
    );
    assert_eq!(
        s.update_gauge(ids::CONNECTIONS_DISCONNECTED, GaugeOp::Decrement(fx(1.0))),
        Outcome::Unimplemented
    );
    assert_eq!(s, before);
}

#[test]
fn unknown_gauge_name_changes_nothing() {
    let mut s = Stats::new();
    let before = s;
    assert_eq!(
        s.update_gauge("nonexistent_metric", GaugeOp::Absolute(fx(1.0))),
        Outcome::Unrecognized
    );
    assert_eq!(s.update_gauge(ids::INBOUND_BLOCKS, GaugeOp::Increment(fx(1.0))), Outcome::Unrecognized);
    assert_eq!(s, before);
}

#[test]
fn two_batches_of_unit_increments_count_exactly() {
    let mut s = Stats::new();
    for _ in 0..500 {
        s.increment_counter(ids::INBOUND_BLOCKS, 1);
        s.increment_counter(ids::INBOUND_BLOCKS, 1);
    }
    assert_eq!(s.inbound.blocks.value, 1000);
}

#[test]
fn queue_gauge_scenario_balances() {
    let mut s = Stats::new();
    s.update_gauge(ids::QUEUES_INBOUND, GaugeOp::Absolute(fx(0.0)));
    for _ in 0..10 {
        s.update_gauge(ids::QUEUES_INBOUND, GaugeOp::Increment(fx(1.0)));
    }
    s.update_gauge(ids::QUEUES_INBOUND, GaugeOp::Decrement(fx(4.0)));
    assert_eq!(as_f64(s.queues.inbound.value), 6.0);
}

#[test]
fn counter_batches_commute() {
    let mut a = Stats::new();
    let mut b = Stats::new();
    for d in [3u64, 5, 7, 11] {
        a.increment_counter(ids::MISC_RPC_REQUESTS, d);
    }
    for d in [11u64, 3, 7, 5] {
        b.increment_counter(ids::MISC_RPC_REQUESTS, d);
    }
    assert_eq!(a.misc.rpc_requests.value, 26);
    assert_eq!(a, b);
}

#[test]
fn gauge_batches_commute() {
    let mut a = Stats::new();
    let mut b = Stats::new();
    let ops = [
        GaugeOp::Increment(fx(1.5)),
        GaugeOp::Decrement(fx(0.25)),
        GaugeOp::Increment(fx(2.0)),
    ];
    for op in ops {
        a.update_gauge(ids::QUEUES_OUTBOUND, op);
    }
    let reversed = [
        GaugeOp::Increment(fx(2.0)),
        GaugeOp::Decrement(fx(0.25)),
        GaugeOp::Increment(fx(1.5)),
    ];
    for op in reversed {
        b.update_gauge(ids::QUEUES_OUTBOUND, op);
    }
    assert_eq!(as_f64(a.queues.outbound.value), 3.25);
    assert_eq!(a, b);
}
