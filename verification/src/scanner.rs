//! Connector hot-plug scanning: each enumeration of a device's connectors is
//! compared with what the scan before it saw.

use crate::connector::{Connection, ConnectorInfo};
use std::collections::HashMap;
use vstd::prelude::*;

verus! {

broadcast use vstd::std_specs::hash::group_hash_axioms;

/// How a connector's state differs from what was last seen of it.
#[derive(Clone, Copy, Debug, PartialEq, Eq, Structural)]
pub enum Change {
    /// A display was attached since the last scan.
    Plugged,
    /// The display was detached since the last scan.
    Unplugged,
    /// Nothing to report.
    Unchanged,
}

/// The change that a connector's state makes against its last-seen state.
pub open spec fn change(before: Option<Connection>, now: Connection) -> Change {
    match (before, now) {
        (None, Connection::Connected) => Change::Plugged,
        (Some(Connection::Disconnected), Connection::Connected) => Change::Plugged,
        (Some(Connection::Unknown), Connection::Connected) => Change::Plugged,
        (Some(Connection::Connected), Connection::Disconnected) => Change::Unplugged,
        _ => Change::Unchanged,
    }
}

/// What is remembered after an enumeration has been scanned.
pub open spec fn seen_after(seen: Map<u32, Connection>, probes: Seq<ConnectorInfo>) -> Map<
    u32,
    Connection,
>
    decreases probes.len(),
{
    if probes.len() == 0 {
        seen
    } else {
        seen_after(seen, probes.drop_last()).insert(
            probes.last().handle,
            probes.last().connection,
        )
    }
}

/// The change that entry `i` of an enumeration makes when it is reached.
pub open spec fn change_at(
    seen: Map<u32, Connection>,
    probes: Seq<ConnectorInfo>,
    i: int,
) -> Change {
    change(seen_after(seen, probes.take(i)).get(probes[i].handle), probes[i].connection)
}

/// The positions before `n` that make the given change, in rising order.
pub open spec fn positions(
    seen: Map<u32, Connection>,
    probes: Seq<ConnectorInfo>,
    which: Change,
    n: int,
) -> Seq<usize>
    decreases n,
{
    if n <= 0 {
        Seq::empty()
    } else if change_at(seen, probes, n - 1) == which {
        positions(seen, probes, which, n - 1).push((n - 1) as usize)
    } else {
        positions(seen, probes, which, n - 1)
    }
}

/// An enumeration is consistent when it does not report one connector in two
/// different states.
pub open spec fn consistent(probes: Seq<ConnectorInfo>) -> bool {
    forall|i: int, j: int|
        0 <= i < probes.len() && 0 <= j < probes.len() && #[trigger] probes[i].handle
            == #[trigger] probes[j].handle ==> probes[i].connection == probes[j].connection
}

/// What a scan found: positions, in the enumeration that was scanned, of the
/// connectors that were plugged and of those that were unplugged.
pub struct ScanResult {
    pub connected: Vec<usize>,
    pub disconnected: Vec<usize>,
}

/// Remembers the state in which each connector of a device was last seen.
pub struct ConnectorScanner {
    pub seen: HashMap<u32, Connection>,
}

impl View for ConnectorScanner {
    type V = Map<u32, Connection>;

    open spec fn view(&self) -> Map<u32, Connection> {
        self.seen@
    }
}

fn classify(before: Option<Connection>, now: Connection) -> (c: Change)
    ensures
        c == change(before, now),
{
    match now {
        Connection::Connected => match before {
            Some(Connection::Connected) => Change::Unchanged,
            _ => Change::Plugged,
        },
        Connection::Disconnected => match before {
            Some(Connection::Connected) => Change::Unplugged,
            _ => Change::Unchanged,
        },
        Connection::Unknown => Change::Unchanged,
    }
}

impl ConnectorScanner {
    /// A scanner that has seen nothing yet.
    pub fn new() -> (scanner: ConnectorScanner)
        ensures
            scanner@ == Map::<u32, Connection>::empty(),
    {
        ConnectorScanner { seen: HashMap::new() }
    }

    /// The state in which a connector was last seen, if it was seen at all.
    pub fn last_seen(&self, handle: u32) -> (state: Option<Connection>)
        ensures
            state == self@.get(handle),
    {
        match self.seen.get(&handle) {
            Some(c) => Some(*c),
            None => None,
        }
    }

    /// Scans one enumeration of the device's connectors and reports what
    /// changed since the scan before: a connector counts as plugged when it is
    /// connected now and was not before, as unplugged when it was connected
    /// and is disconnected now. Every connector's state is remembered for the
    /// next scan.
    pub fn scan(&mut self, probes: &Vec<ConnectorInfo>) -> (found: ScanResult)
        ensures
            final(self)@ == seen_after(old(self)@, probes@),
            found.connected@ == positions(
                old(self)@,
                probes@,
                Change::Plugged,
                probes@.len() as int,
            ),
            found.disconnected@ == positions(
                old(self)@,
                probes@,
                Change::Unplugged,
                probes@.len() as int,
            ),
    {
        let mut connected: Vec<usize> = Vec::new();
        let mut disconnected: Vec<usize> = Vec::new();
        let mut i: usize = 0;
        assert(probes@.take(0) =~= Seq::<ConnectorInfo>::empty());
        while i < probes.len()
            invariant
                0 <= i <= probes@.len(),
                self@ == seen_after(old(self)@, probes@.take(i as int)),
                connected@ == positions(old(self)@, probes@, Change::Plugged, i as int),
                disconnected@ == positions(old(self)@, probes@, Change::Unplugged, i as int),
            decreases probes@.len() - i,
        {
            let handle: u32 = probes[i].handle;
            let now = probes[i].connection;
            let before = self.last_seen(handle);
            let what = classify(before, now);
            self.seen.insert(handle, now);
            proof {
                let longer = probes@.take(i + 1);
                assert(longer.drop_last() =~= probes@.take(i as int));
                assert(longer.last() == probes@[i as int]);
            }
            match what {
                Change::Plugged => {
                    connected.push(i);
                },
                Change::Unplugged => {
                    disconnected.push(i);
                },
                Change::Unchanged => {},
            }
            i += 1;
        }
        assert(probes@.take(probes@.len() as int) =~= probes@);
        ScanResult { connected, disconnected }
    }
}

/// After a consistent enumeration has been scanned, every connector in it is
/// remembered in the state the enumeration reports.
pub proof fn lemma_scan_remembers(seen: Map<u32, Connection>, probes: Seq<ConnectorInfo>, k: int)
    requires
        consistent(probes),
        0 <= k < probes.len(),
    ensures
        seen_after(seen, probes).get(probes[k].handle) == Some(probes[k].connection),
    decreases probes.len(),
{
    let shorter = probes.drop_last();
    if k < probes.len() - 1 {
        assert(consistent(shorter)) by {
            assert forall|i: int, j: int|
                0 <= i < shorter.len() && 0 <= j < shorter.len() && #[trigger] shorter[i].handle
                    == #[trigger] shorter[j].handle implies shorter[i].connection
                == shorter[j].connection by {
                assert(probes[i].handle == probes[j].handle);
            }
        }
        lemma_scan_remembers(seen, shorter, k);
        assert(shorter[k] == probes[k]);
        if probes.last().handle == probes[k].handle {
            assert(probes[probes.len() - 1].handle == probes[k].handle);
        }
    }
}

/// Scanning any part of an enumeration again changes nothing in a memory that
/// already holds every connector of it in its reported state.
pub proof fn lemma_rescan_keeps_memory(
    seen: Map<u32, Connection>,
    probes: Seq<ConnectorInfo>,
    n: int,
)
    requires
        0 <= n <= probes.len(),
        forall|k: int|
            0 <= k < probes.len() ==> seen.get(#[trigger] probes[k].handle) == Some(
                probes[k].connection,
            ),
    ensures
        seen_after(seen, probes.take(n)) == seen,
    decreases n,
{
    if n > 0 {
        lemma_rescan_keeps_memory(seen, probes, n - 1);
        let part = probes.take(n);
        assert(part.drop_last() =~= probes.take(n - 1));
        assert(part.last() == probes[n - 1]);
        assert(seen.insert(probes[n - 1].handle, probes[n - 1].connection) =~= seen);
    }
}

/// No position of an enumeration reports a change against a memory that
/// already holds every connector of it in its reported state.
pub proof fn lemma_rescan_finds_nothing(
    seen: Map<u32, Connection>,
    probes: Seq<ConnectorInfo>,
    which: Change,
    n: int,
)
    requires
        0 <= n <= probes.len(),
        which != Change::Unchanged,
        forall|k: int|
            0 <= k < probes.len() ==> seen.get(#[trigger] probes[k].handle) == Some(
                probes[k].connection,
            ),
    ensures
        positions(seen, probes, which, n) == Seq::<usize>::empty(),
    decreases n,
{
    if n > 0 {
        lemma_rescan_finds_nothing(seen, probes, which, n - 1);
        lemma_rescan_keeps_memory(seen, probes, n - 1);
    }
}

/// Scanning is idempotent: once an enumeration has been scanned, scanning the
/// same enumeration again reports no connector as plugged or unplugged and
/// leaves the scanner's memory as it is, so every further scan of it is quiet
/// as well.
pub proof fn lemma_scan_idempotent(seen: Map<u32, Connection>, probes: Seq<ConnectorInfo>)
    requires
        consistent(probes),
    ensures
        ({
            let settled = seen_after(seen, probes);
            &&& positions(settled, probes, Change::Plugged, probes.len() as int) == Seq::<
                usize,
            >::empty()
            &&& positions(settled, probes, Change::Unplugged, probes.len() as int) == Seq::<
                usize,
            >::empty()
            &&& seen_after(settled, probes) == settled
        }),
{
    let settled = seen_after(seen, probes);
    assert forall|k: int| 0 <= k < probes.len() implies settled.get(#[trigger] probes[k].handle)
        == Some(probes[k].connection) by {
        lemma_scan_remembers(seen, probes, k);
    }
    lemma_rescan_finds_nothing(settled, probes, Change::Plugged, probes.len() as int);
    lemma_rescan_finds_nothing(settled, probes, Change::Unplugged, probes.len() as int);
    lemma_rescan_keeps_memory(settled, probes, probes.len() as int);
    assert(probes.take(probes.len() as int) =~= probes);
}

} // verus!
