use vstd::prelude::*;

use crate::target::{is_target_name, name_matches, name_view};

verus! {

/// What became of one enumerated peripheral whose name matched the target
/// during a scan.
#[derive(PartialEq, Eq, Structural, Clone, Copy, Debug)]
pub enum Attempt {
    /// It was not connected and connecting to it failed: it was skipped.
    ConnectFailed,
    /// Its handle was stored in the slot; `connected` is the connection flag
    /// read after the (possible) connection attempt.
    Adopted { connected: bool },
}

/// What one poll cycle observed.
pub enum Check {
    /// While bound: the live connection flag of the bound peripheral.
    Liveness(bool),
    /// While unbound: one entry per enumerated peripheral whose name matched,
    /// in enumeration order.
    Scan(Seq<Attempt>),
}

/// The events a scan emits as it goes: one `true` for each matching
/// peripheral adopted while connected.
pub open spec fn adoption_events(attempts: Seq<Attempt>) -> Seq<bool>
    decreases attempts.len(),
{
    if attempts.len() == 0 {
        seq![]
    } else {
        let earlier = adoption_events(attempts.drop_last());
        if attempts.last() == (Attempt::Adopted { connected: true }) {
            earlier.push(true)
        } else {
            earlier
        }
    }
}

/// Whether a scan left a handle in the slot.
pub open spec fn scan_binds(attempts: Seq<Attempt>) -> bool {
    exists|i: int| 0 <= i < attempts.len() && attempts[i] is Adopted
}

/// Whether the slot holds a handle after a cycle.
pub open spec fn cycle_binds(check: Check) -> bool {
    match check {
        Check::Liveness(connected) => connected,
        Check::Scan(attempts) => scan_binds(attempts),
    }
}

/// The connectivity events a cycle emits, in order. A scan in which no
/// peripheral matched ends with a single `false`.
pub open spec fn cycle_events(check: Check) -> Seq<bool> {
    match check {
        Check::Liveness(connected) => seq![connected],
        Check::Scan(attempts) => if attempts.len() == 0 {
            seq![false]
        } else {
            adoption_events(attempts)
        },
    }
}

/// Whether a cycle's check found the target peripheral connected.
pub open spec fn found_connected(check: Check) -> bool {
    match check {
        Check::Liveness(connected) => connected,
        Check::Scan(attempts) => exists|i: int|
            0 <= i < attempts.len() && attempts[i] == (Attempt::Adopted { connected: true }),
    }
}

/// Whether every handle a cycle adopted reported itself connected.
pub open spec fn adopts_only_connected(check: Check) -> bool {
    match check {
        Check::Liveness(_) => true,
        Check::Scan(attempts) => forall|i: int|
            0 <= i < attempts.len() && attempts[i] is Adopted ==> attempts[i]
                == (Attempt::Adopted { connected: true }),
    }
}

/// The events of a run of cycles, one cycle after the other.
pub open spec fn trace_events(checks: Seq<Check>) -> Seq<bool>
    decreases checks.len(),
{
    if checks.len() == 0 {
        seq![]
    } else {
        trace_events(checks.drop_last()) + cycle_events(checks.last())
    }
}

/// What the host does next with a peripheral the scan enumerated.
#[derive(PartialEq, Eq, Structural, Clone, Copy, Debug)]
pub enum Probe {
    /// Not the target: leave it alone.
    Skip,
    /// The target, not connected: try to connect to it.
    Connect,
    /// The target, connected: read its connection flag and adopt it.
    Adopt,
}

/// The decision for a peripheral with the given advertised name and
/// connection flag.
pub open spec fn probe_spec(name: Option<Seq<char>>, connected: bool) -> Probe {
    if !name_matches(name) {
        Probe::Skip
    } else if connected {
        Probe::Adopt
    } else {
        Probe::Connect
    }
}

/// Decides what to do with an enumerated peripheral.
pub fn probe(name: &Option<String>, connected: bool) -> (p: Probe)
    ensures
        p == probe_spec(name_view(name), connected),
{
    if !is_target_name(name) {
        Probe::Skip
    } else if connected {
        Probe::Adopt
    } else {
        Probe::Connect
    }
}

/// What to do with the target after a connection attempt: adopt it when the
/// attempt succeeded, skip it otherwise.
pub fn after_connect(succeeded: bool) -> (p: Probe)
    ensures
        p == (if succeeded { Probe::Adopt } else { Probe::Skip }),
{
    if succeeded {
        Probe::Adopt
    } else {
        Probe::Skip
    }
}

/// The connectivity monitor: the Bound Peripheral Slot and the decisions of
/// each poll cycle. A cycle is either a liveness check (while bound) or a
/// scan (while unbound): `begin_scan`, then `connect_failed` or `adopt` for
/// each matching peripheral, then `finish_scan`.
pub struct Monitor<H> {
    slot: Option<H>,
    scanning: bool,
    found: bool,
    attempts: Ghost<Seq<Attempt>>,
    emitted: Ghost<Seq<bool>>,
}

impl<H> Monitor<H> {
    /// The handle in the Bound Peripheral Slot, if any.
    pub closed spec fn slot(&self) -> Option<H> {
        self.slot
    }

    /// Whether a scan is in progress.
    pub closed spec fn scanning(&self) -> bool {
        self.scanning
    }

    /// What the scan in progress (or the last scan) has seen so far.
    pub closed spec fn attempts(&self) -> Seq<Attempt> {
        self.attempts@
    }

    /// The events emitted in the current (or last) cycle.
    pub closed spec fn emitted(&self) -> Seq<bool> {
        self.emitted@
    }

    /// During a scan, the slot, the `found` flag and the events emitted so far
    /// agree with what the scan has seen.
    pub closed spec fn wf(&self) -> bool {
        self.scanning ==> {
            &&& self.found == (self.attempts@.len() > 0)
            &&& self.slot.is_some() == scan_binds(self.attempts@)
            &&& self.emitted@ == adoption_events(self.attempts@)
        }
    }

    /// A monitor with an empty slot, between cycles.
    pub fn new() -> (m: Self)
        ensures
            m.wf(),
            m.slot() is None,
            !m.scanning(),
            m.emitted() == Seq::<bool>::empty(),
    {
        Monitor {
            slot: None,
            scanning: false,
            found: false,
            attempts: Ghost(Seq::empty()),
            emitted: Ghost(Seq::empty()),
        }
    }

    /// Whether the slot holds a handle.
    pub fn is_bound(&self) -> (r: bool)
        ensures
            r == self.slot().is_some(),
    {
        self.slot.is_some()
    }

    /// Whether a scan is in progress.
    pub fn is_scanning(&self) -> (r: bool)
        ensures
            r == self.scanning(),
    {
        self.scanning
    }

    /// The bound handle, if any.
    pub fn bound(&self) -> (r: Option<&H>)
        ensures
            r.is_some() == self.slot().is_some(),
            r.is_some() ==> *r.unwrap() == self.slot().unwrap(),
    {
        self.slot.as_ref()
    }

    /// A cycle while bound: given the live connection flag of the bound
    /// handle, keeps the handle if it is still connected and clears the slot
    /// otherwise. Returns the event to emit, which is the flag itself.
    pub fn check_liveness(&mut self, connected: bool) -> (event: bool)
        requires
            old(self).wf(),
            !old(self).scanning(),
            old(self).slot().is_some(),
        ensures
            final(self).wf(),
            !final(self).scanning(),
            event == connected,
            final(self).slot() == (if connected { old(self).slot() } else { None }),
            final(self).slot().is_some() == cycle_binds(Check::Liveness(connected)),
            final(self).emitted() == cycle_events(Check::Liveness(connected)),
    {
        if !connected {
            self.slot = None;
        }
        self.emitted = Ghost(Seq::empty().push(connected));
        connected
    }

    /// Starts a cycle while unbound, once the scan results are in.
    pub fn begin_scan(&mut self)
        requires
            old(self).wf(),
            !old(self).scanning(),
            old(self).slot().is_none(),
        ensures
            final(self).wf(),
            final(self).scanning(),
            final(self).slot().is_none(),
            final(self).attempts() == Seq::<Attempt>::empty(),
            final(self).emitted() == Seq::<bool>::empty(),
    {
        self.scanning = true;
        self.found = false;
        self.attempts = Ghost(Seq::empty());
        self.emitted = Ghost(Seq::empty());
    }

    /// Records that connecting to a matching peripheral failed; the scan goes
    /// on with the next peripheral.
    pub fn connect_failed(&mut self)
        requires
            old(self).wf(),
            old(self).scanning(),
        ensures
            final(self).wf(),
            final(self).scanning(),
            final(self).slot() == old(self).slot(),
            final(self).attempts() == old(self).attempts().push(Attempt::ConnectFailed),
            final(self).emitted() == old(self).emitted(),
    {
        self.found = true;
        self.attempts = Ghost(self.attempts@.push(Attempt::ConnectFailed));
        proof {
            lemma_scan_binds_push(old(self).attempts@, Attempt::ConnectFailed);
            assert(self.attempts@.drop_last() =~= old(self).attempts@);
        }
    }

    /// Stores a matching peripheral's handle in the slot, given its connection
    /// flag read after the attempt. Returns `Some(true)`, the event to emit,
    /// when it is connected, and `None` otherwise.
    pub fn adopt(&mut self, handle: H, connected: bool) -> (event: Option<bool>)
        requires
            old(self).wf(),
            old(self).scanning(),
        ensures
            final(self).wf(),
            final(self).scanning(),
            final(self).slot() == Some(handle),
            final(self).attempts() == old(self).attempts().push(
                Attempt::Adopted { connected },
            ),
            event == (if connected { Some(true) } else { None::<bool> }),
            final(self).emitted() == (if connected {
                old(self).emitted().push(true)
            } else {
                old(self).emitted()
            }),
    {
        let ghost a = Attempt::Adopted { connected };
        self.slot = Some(handle);
        self.found = true;
        self.attempts = Ghost(self.attempts@.push(a));
        proof {
            lemma_scan_binds_push(old(self).attempts@, a);
            assert(self.attempts@.drop_last() =~= old(self).attempts@);
        }
        if connected {
            self.emitted = Ghost(self.emitted@.push(true));
            Some(true)
        } else {
            None
        }
    }

    /// Ends a scan cycle. When no peripheral matched, the slot is cleared and
    /// `Some(false)` is the event to emit; otherwise nothing more is emitted.
    pub fn finish_scan(&mut self) -> (event: Option<bool>)
        requires
            old(self).wf(),
            old(self).scanning(),
        ensures
            final(self).wf(),
            !final(self).scanning(),
            final(self).attempts() == old(self).attempts(),
            event == (if old(self).attempts().len() == 0 { Some(false) } else { None::<bool> }),
            old(self).attempts().len() != 0 ==> final(self).slot() == old(self).slot(),
            final(self).slot().is_some() == cycle_binds(Check::Scan(old(self).attempts())),
            final(self).emitted() == cycle_events(Check::Scan(old(self).attempts())),
    {
        self.scanning = false;
        if !self.found {
            self.slot = None;
            self.emitted = Ghost(Seq::empty().push(false));
            Some(false)
        } else {
            None
        }
    }
}

proof fn lemma_scan_binds_push(attempts: Seq<Attempt>, a: Attempt)
    ensures
        scan_binds(attempts.push(a)) == (scan_binds(attempts) || a is Adopted),
{
    let pushed = attempts.push(a);
    if scan_binds(attempts) {
        let i = choose|i: int| 0 <= i < attempts.len() && attempts[i] is Adopted;
        assert(pushed[i] == attempts[i]);
    }
    if a is Adopted {
        assert(pushed[attempts.len() as int] == a);
    }
    if scan_binds(pushed) {
        let i = choose|i: int| 0 <= i < pushed.len() && pushed[i] is Adopted;
        if i < attempts.len() {
            assert(pushed[i] == attempts[i]);
        }
    }
}

/// After any cycle, the slot holds a handle exactly when that cycle's check
/// found the target peripheral connected. This holds of every cycle in which
/// no handle was adopted while reporting itself disconnected.
pub proof fn lemma_slot_tracks_last_check(check: Check)
    requires
        adopts_only_connected(check),
    ensures
        cycle_binds(check) == found_connected(check),
{
    if let Check::Scan(attempts) = check {
        if scan_binds(attempts) {
            let i = choose|i: int| 0 <= i < attempts.len() && attempts[i] is Adopted;
            assert(attempts[i] == (Attempt::Adopted { connected: true }));
        }
    }
}

/// Bound cycles that keep finding the peripheral connected keep it bound and
/// emit the same event, a single `true`, every time.
pub proof fn lemma_connected_cycles_repeat(checks: Seq<Check>)
    requires
        forall|i: int| 0 <= i < checks.len() ==> checks[i] == Check::Liveness(true),
    ensures
        trace_events(checks) == Seq::new(checks.len(), |i: int| true),
        forall|i: int| 0 <= i < checks.len() ==> cycle_binds(#[trigger] checks[i]),
    decreases checks.len(),
{
    if checks.len() > 0 {
        let earlier = checks.drop_last();
        lemma_connected_cycles_repeat(earlier);
        assert(checks.last() == Check::Liveness(true));
        assert(trace_events(checks) =~= Seq::new(checks.len(), |i: int| true));
    }
}

/// Scans in which no peripheral matches leave the slot empty and emit
/// `false` once per cycle.
pub proof fn lemma_unmatched_scans(checks: Seq<Check>)
    requires
        forall|i: int| 0 <= i < checks.len() ==> checks[i] == Check::Scan(Seq::empty()),
    ensures
        trace_events(checks) == Seq::new(checks.len(), |i: int| false),
        forall|i: int| 0 <= i < checks.len() ==> !cycle_binds(#[trigger] checks[i]),
    decreases checks.len(),
{
    if checks.len() > 0 {
        let earlier = checks.drop_last();
        lemma_unmatched_scans(earlier);
        assert(checks.last() == Check::Scan(Seq::empty()));
        assert(trace_events(checks) =~= Seq::new(checks.len(), |i: int| false));
    }
}

} // verus!
