use vstd::prelude::*;
use crate::records::IpamEntry;
use crate::BACKEND_PORT;

verus! {

/// Where a connection attempt stands.
#[derive(Clone, Copy, Debug, PartialEq, Eq, Structural)]
pub enum AttemptPhase {
    /// The candidate under the cursor is to be tried next.
    Trying,
    /// The candidate under the cursor accepted the connection.
    Connected,
    /// Every candidate was tried and none accepted.
    Exhausted,
}

/// The abstract state of a connection attempt.
pub ghost struct AttemptState {
    pub cursor: int,
    pub phase: AttemptPhase,
}

/// The state of a fresh attempt over `n` candidates.
pub open spec fn initial_state(n: int) -> AttemptState {
    AttemptState {
        cursor: 0,
        phase: if n == 0 {
            AttemptPhase::Exhausted
        } else {
            AttemptPhase::Trying
        },
    }
}

/// The state after the connect to the candidate under the cursor came back
/// (`ok` when it succeeded), with `n` candidates in all. Outside `Trying`
/// nothing changes.
pub open spec fn after_connect(s: AttemptState, n: int, ok: bool) -> AttemptState {
    if s.phase != AttemptPhase::Trying {
        s
    } else if ok {
        AttemptState { cursor: s.cursor, phase: AttemptPhase::Connected }
    } else if s.cursor + 1 < n {
        AttemptState { cursor: s.cursor + 1, phase: AttemptPhase::Trying }
    } else {
        AttemptState { cursor: s.cursor + 1, phase: AttemptPhase::Exhausted }
    }
}

/// The indices of the candidates that were asked to connect, in order.
pub open spec fn attempted(s: AttemptState) -> Seq<int> {
    let n = if s.phase == AttemptPhase::Connected {
        s.cursor + 1
    } else {
        s.cursor
    };
    Seq::new(n as nat, |i: int| i)
}

/// The state after `steps` connects, where `live[i]` tells whether candidate
/// `i` accepts.
pub open spec fn drive(live: Seq<bool>, steps: nat) -> AttemptState
    decreases steps,
{
    if steps == 0 {
        initial_state(live.len() as int)
    } else {
        let s = drive(live, (steps - 1) as nat);
        let ok = if 0 <= s.cursor < live.len() {
            live[s.cursor]
        } else {
            false
        };
        after_connect(s, live.len() as int, ok)
    }
}

proof fn lemma_drive_invariant(live: Seq<bool>, t: nat)
    requires
        t <= live.len(),
    ensures
        ({
            let s = drive(live, t);
            &&& 0 <= s.cursor <= live.len()
            &&& forall|j: int| 0 <= j < s.cursor ==> !live[j]
            &&& s.phase == AttemptPhase::Trying ==> s.cursor == t && s.cursor < live.len()
            &&& s.phase == AttemptPhase::Connected ==> s.cursor < live.len() && live[s.cursor]
            &&& s.phase == AttemptPhase::Exhausted ==> s.cursor == live.len()
        }),
    decreases t,
{
    if t > 0 {
        lemma_drive_invariant(live, (t - 1) as nat);
    }
}

/// Failover is linear: driven over candidates whose connects succeed as
/// `live` says, an attempt ends connected to the first candidate that
/// accepts, having asked exactly the candidates before it and that one; when
/// none accepts it ends exhausted, having asked each candidate once, in order.
pub proof fn lemma_failover_order(live: Seq<bool>)
    ensures
        ({
            let s = drive(live, live.len());
            &&& (exists|k: int| 0 <= k < live.len() && live[k]) ==> {
                &&& s.phase == AttemptPhase::Connected
                &&& 0 <= s.cursor < live.len()
                &&& live[s.cursor]
                &&& forall|j: int| 0 <= j < s.cursor ==> !live[j]
                &&& attempted(s) == Seq::new((s.cursor + 1) as nat, |i: int| i)
            }
            &&& (forall|k: int| 0 <= k < live.len() ==> !live[k]) ==> {
                &&& s.phase == AttemptPhase::Exhausted
                &&& s.cursor == live.len()
                &&& attempted(s) == Seq::new(live.len(), |i: int| i)
            }
        }),
{
    lemma_drive_invariant(live, live.len());
    let s = drive(live, live.len());
    if exists|k: int| 0 <= k < live.len() && live[k] {
        let k = choose|k: int| 0 <= k < live.len() && live[k];
        assert(s.phase != AttemptPhase::Exhausted) by {
            if s.phase == AttemptPhase::Exhausted {
                assert(!live[k]);
            }
        }
    }
}

/// What the relay task is to do next.
#[derive(Debug)]
pub enum AttemptStep {
    /// Open a connection to this backend.
    Connect { address: String, port: u16 },
    /// Relay bytes over the connection to the candidate at `index`.
    Relay { index: usize },
    /// No candidate accepted: close the inbound connection.
    Close,
}

/// One inbound connection's search for a live backend, over the snapshot
/// taken when the connection arrived.
pub struct ConnectionAttempt {
    candidates: Vec<IpamEntry>,
    cursor: usize,
    phase: AttemptPhase,
}

impl ConnectionAttempt {
    /// The candidates, fixed for the life of the attempt.
    pub closed spec fn candidates(&self) -> Seq<IpamEntry> {
        self.candidates@
    }

    pub closed spec fn state(&self) -> AttemptState {
        AttemptState { cursor: self.cursor as int, phase: self.phase }
    }

    pub closed spec fn wf(&self) -> bool {
        &&& self.cursor <= self.candidates@.len()
        &&& self.phase == AttemptPhase::Trying ==> self.cursor < self.candidates@.len()
        &&& self.phase == AttemptPhase::Connected ==> self.cursor < self.candidates@.len()
        &&& self.phase == AttemptPhase::Exhausted ==> self.cursor == self.candidates@.len()
    }

    /// An attempt over `snapshot`, starting at its first candidate.
    pub fn new(snapshot: Vec<IpamEntry>) -> (a: ConnectionAttempt)
        ensures
            a.wf(),
            a.candidates() == snapshot@,
            a.state() == initial_state(snapshot@.len() as int),
    {
        let phase = if snapshot.len() == 0 {
            AttemptPhase::Exhausted
        } else {
            AttemptPhase::Trying
        };
        ConnectionAttempt { candidates: snapshot, cursor: 0, phase }
    }

    /// Where the attempt stands.
    pub fn phase(&self) -> (r: AttemptPhase)
        ensures
            r == self.state().phase,
    {
        self.phase
    }

    /// The next thing to do: connect to the candidate under the cursor, relay
    /// over the one that accepted, or close when none did.
    pub fn next_step(&self) -> (r: AttemptStep)
        requires
            self.wf(),
        ensures
            match r {
                AttemptStep::Connect { address, port } => {
                    &&& self.state().phase == AttemptPhase::Trying
                    &&& address@ == self.candidates()[self.state().cursor].ip@
                    &&& port == BACKEND_PORT
                },
                AttemptStep::Relay { index } => {
                    &&& self.state().phase == AttemptPhase::Connected
                    &&& index == self.state().cursor
                },
                AttemptStep::Close => self.state().phase == AttemptPhase::Exhausted,
            },
    {
        match self.phase {
            AttemptPhase::Trying => AttemptStep::Connect {
                address: self.candidates[self.cursor].ip.clone(),
                port: BACKEND_PORT,
            },
            AttemptPhase::Connected => AttemptStep::Relay { index: self.cursor },
            AttemptPhase::Exhausted => AttemptStep::Close,
        }
    }

    /// Takes in the outcome of the connect to the candidate under the cursor.
    pub fn record_outcome(&mut self, connected: bool)
        requires
            old(self).wf(),
        ensures
            final(self).wf(),
            final(self).candidates() == old(self).candidates(),
            final(self).state() == after_connect(
                old(self).state(),
                old(self).candidates().len() as int,
                connected,
            ),
    {
        let n = self.candidates.len();
        match self.phase {
            AttemptPhase::Trying => {
                if connected {
                    self.phase = AttemptPhase::Connected;
                } else {
                    self.cursor = self.cursor + 1;
                    if self.cursor == n {
                        self.phase = AttemptPhase::Exhausted;
                    }
                }
            },
            _ => {},
        }
    }
}

} // verus!
