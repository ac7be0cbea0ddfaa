use vstd::prelude::*;

verus! {

/// What happened on one of the two legs of a relay.
#[derive(Clone, Copy, Debug, PartialEq, Eq, Structural)]
pub enum RelayEvent {
    /// The client sent this many bytes.
    FromClient(u64),
    /// The backend sent this many bytes.
    FromServer(u64),
    /// The client closed its side.
    ClientClosed,
    /// The backend closed its side.
    ServerClosed,
    /// A transport error on either leg.
    Failed,
}

/// What the relay task is to do after an event.
#[derive(Clone, Copy, Debug, PartialEq, Eq, Structural)]
pub enum RelayAction {
    /// Write the bytes just read from the client to the backend.
    ToServer(u64),
    /// Write the bytes just read from the backend to the client.
    ToClient(u64),
    /// One side closed: close both and report the totals.
    Finish { from_client: u64, from_server: u64 },
    /// A transport error: close both, report the error and the totals.
    Abort { from_client: u64, from_server: u64 },
    /// The relay is already over.
    Ignore,
}

/// The abstract state of a relay: bytes relayed each way, and whether it is over.
pub ghost struct RelayState {
    pub from_client: int,
    pub from_server: int,
    pub done: bool,
}

/// A relay that has moved nothing yet.
pub open spec fn relay_start() -> RelayState {
    RelayState { from_client: 0, from_server: 0, done: false }
}

/// Whether `ev` ends a relay.
pub open spec fn is_closing(ev: RelayEvent) -> bool {
    match ev {
        RelayEvent::FromClient(_) | RelayEvent::FromServer(_) => false,
        _ => true,
    }
}

/// The state after one event; once a relay is over, events change nothing.
pub open spec fn relay_step(s: RelayState, ev: RelayEvent) -> RelayState {
    if s.done {
        s
    } else {
        match ev {
            RelayEvent::FromClient(n) => RelayState { from_client: s.from_client + n, ..s },
            RelayEvent::FromServer(n) => RelayState { from_server: s.from_server + n, ..s },
            _ => RelayState { done: true, ..s },
        }
    }
}

/// The state after a sequence of events, first to last.
pub open spec fn relay_run(s: RelayState, evs: Seq<RelayEvent>) -> RelayState
    decreases evs.len(),
{
    if evs.len() == 0 {
        s
    } else {
        relay_run(relay_step(s, evs[0]), evs.skip(1))
    }
}

/// Bytes the client sent before the first closing event.
pub open spec fn client_total(evs: Seq<RelayEvent>) -> int
    decreases evs.len(),
{
    if evs.len() == 0 {
        0
    } else {
        match evs[0] {
            RelayEvent::FromClient(n) => n + client_total(evs.skip(1)),
            RelayEvent::FromServer(_) => client_total(evs.skip(1)),
            _ => 0,
        }
    }
}

/// Bytes the backend sent before the first closing event.
pub open spec fn server_total(evs: Seq<RelayEvent>) -> int
    decreases evs.len(),
{
    if evs.len() == 0 {
        0
    } else {
        match evs[0] {
            RelayEvent::FromServer(n) => n + server_total(evs.skip(1)),
            RelayEvent::FromClient(_) => server_total(evs.skip(1)),
            _ => 0,
        }
    }
}

/// Some event of `evs` ends the relay.
pub open spec fn has_closing(evs: Seq<RelayEvent>) -> bool {
    exists|i: int| 0 <= i < evs.len() && is_closing(#[trigger] evs[i])
}

/// Relay accounting is exact: from a fresh relay, the counts are the bytes
/// each side sent before the first close or error, and the relay is over
/// exactly when such an event came. Nothing after it is counted.
pub proof fn lemma_relay_accounting(evs: Seq<RelayEvent>)
    ensures
        relay_run(relay_start(), evs) == (RelayState {
            from_client: client_total(evs),
            from_server: server_total(evs),
            done: has_closing(evs),
        }),
{
    lemma_run_from(relay_start(), evs);
}

proof fn lemma_run_from(s: RelayState, evs: Seq<RelayEvent>)
    ensures
        s.done ==> relay_run(s, evs) == s,
        !s.done ==> relay_run(s, evs) == (RelayState {
            from_client: s.from_client + client_total(evs),
            from_server: s.from_server + server_total(evs),
            done: has_closing(evs),
        }),
    decreases evs.len(),
{
    if evs.len() > 0 {
        let rest = evs.skip(1);
        lemma_run_from(relay_step(s, evs[0]), rest);
        if !s.done {
            if is_closing(evs[0]) {
                assert(has_closing(evs));
            } else {
                assert(has_closing(evs) == has_closing(rest)) by {
                    if has_closing(evs) {
                        let i = choose|i: int| 0 <= i < evs.len() && is_closing(#[trigger] evs[i]);
                        assert(rest[i - 1] == evs[i]);
                    }
                    if has_closing(rest) {
                        let i = choose|i: int| 0 <= i < rest.len() && is_closing(#[trigger] rest[i]);
                        assert(evs[i + 1] == rest[i]);
                    }
                }
            }
        }
    }
}

/// The byte accounting of one relay between a client and its backend.
pub struct RelaySession {
    from_client: u64,
    from_server: u64,
    done: bool,
}

impl RelaySession {
    pub closed spec fn state(&self) -> RelayState {
        RelayState {
            from_client: self.from_client as int,
            from_server: self.from_server as int,
            done: self.done,
        }
    }

    /// Whether `ev` can be counted without the totals leaving `u64`.
    pub open spec fn fits(&self, ev: RelayEvent) -> bool {
        let t = relay_step(self.state(), ev);
        t.from_client <= u64::MAX && t.from_server <= u64::MAX
    }

    /// A relay that has moved nothing yet.
    pub fn new() -> (r: RelaySession)
        ensures
            r.state() == relay_start(),
    {
        RelaySession { from_client: 0, from_server: 0, done: false }
    }

    /// Bytes relayed from the client so far.
    pub fn from_client(&self) -> (r: u64)
        ensures
            r == self.state().from_client,
    {
        self.from_client
    }

    /// Bytes relayed from the backend so far.
    pub fn from_server(&self) -> (r: u64)
        ensures
            r == self.state().from_server,
    {
        self.from_server
    }

    /// Whether the relay is over.
    pub fn is_done(&self) -> (r: bool)
        ensures
            r == self.state().done,
    {
        self.done
    }

    /// Whether `ev` can be counted without the totals leaving `u64`.
    pub fn can_take(&self, ev: RelayEvent) -> (r: bool)
        ensures
            r == self.fits(ev),
    {
        if self.done {
            return true;
        }
        match ev {
            RelayEvent::FromClient(n) => n <= u64::MAX - self.from_client,
            RelayEvent::FromServer(n) => n <= u64::MAX - self.from_server,
            _ => true,
        }
    }

    /// Counts `ev` and says what to do about it.
    pub fn on_event(&mut self, ev: RelayEvent) -> (a: RelayAction)
        requires
            old(self).fits(ev),
        ensures
            final(self).state() == relay_step(old(self).state(), ev),
            old(self).state().done ==> a == RelayAction::Ignore,
            !old(self).state().done ==> a == match ev {
                RelayEvent::FromClient(n) => RelayAction::ToServer(n),
                RelayEvent::FromServer(n) => RelayAction::ToClient(n),
                RelayEvent::Failed => RelayAction::Abort {
                    from_client: old(self).state().from_client as u64,
                    from_server: old(self).state().from_server as u64,
                },
                _ => RelayAction::Finish {
                    from_client: old(self).state().from_client as u64,
                    from_server: old(self).state().from_server as u64,
                },
            },
    {
        if self.done {
            return RelayAction::Ignore;
        }
        match ev {
            RelayEvent::FromClient(n) => {
                self.from_client = self.from_client + n;
                RelayAction::ToServer(n)
            },
            RelayEvent::FromServer(n) => {
                self.from_server = self.from_server + n;
                RelayAction::ToClient(n)
            },
            RelayEvent::Failed => {
                self.done = true;
                RelayAction::Abort { from_client: self.from_client, from_server: self.from_server }
            },
            _ => {
                self.done = true;
                RelayAction::Finish { from_client: self.from_client, from_server: self.from_server }
            },
        }
    }
}

} // verus!
