use vstd::prelude::*;
use crate::records::IpamEntry;

verus! {

/// Copies a list of records, record by record.
pub fn copy_entries(entries: &Vec<IpamEntry>) -> (r: Vec<IpamEntry>)
    ensures
        r@ == entries@,
{
    let mut out: Vec<IpamEntry> = Vec::new();
    let mut i: usize = 0;
    while i < entries.len()
        invariant
            i <= entries@.len(),
            out@ == entries@.subrange(0, i as int),
        decreases entries@.len() - i,
    {
        out.push(entries[i].duplicate());
        i = i + 1;
    }
    assert(out@ =~= entries@);
    out
}

/// The single-slot holder of the current membership snapshot.
///
/// A snapshot is published whole and read whole: the cell keeps, as ghost
/// state, every snapshot ever published, and what a reader gets is always the
/// last of them.
pub struct MembershipCell {
    current: Vec<IpamEntry>,
    history: Ghost<Seq<Seq<IpamEntry>>>,
}

impl MembershipCell {
    /// Every snapshot published so far, the empty start-up snapshot first.
    pub closed spec fn published(&self) -> Seq<Seq<IpamEntry>> {
        self.history@
    }

    /// The snapshot in effect.
    pub closed spec fn latest(&self) -> Seq<IpamEntry> {
        self.current@
    }

    pub closed spec fn wf(&self) -> bool {
        &&& self.history@.len() > 0
        &&& self.history@.last() == self.current@
    }

    /// A cell holding the empty snapshot that exists before the first poll.
    pub fn new() -> (c: MembershipCell)
        ensures
            c.wf(),
            c.latest() == Seq::<IpamEntry>::empty(),
            c.published() == seq![Seq::<IpamEntry>::empty()],
    {
        let ghost first: Seq<Seq<IpamEntry>> = seq![Seq::<IpamEntry>::empty()];
        MembershipCell { current: Vec::new(), history: Ghost(first) }
    }

    /// Replaces the snapshot in effect by `snapshot`, as a whole.
    pub fn publish(&mut self, snapshot: Vec<IpamEntry>)
        requires
            old(self).wf(),
        ensures
            final(self).wf(),
            final(self).latest() == snapshot@,
            final(self).published() == old(self).published().push(snapshot@),
    {
        let ghost next = self.history@.push(snapshot@);
        self.history = Ghost(next);
        self.current = snapshot;
    }

    /// An independently owned copy of the snapshot in effect.
    pub fn read(&self) -> (r: Vec<IpamEntry>)
        requires
            self.wf(),
        ensures
            r@ == self.latest(),
            r@ == self.published().last(),
    {
        copy_entries(&self.current)
    }

    /// Whether the snapshot in effect holds no member.
    pub fn is_empty(&self) -> (r: bool)
        ensures
            r == (self.latest().len() == 0),
    {
        self.current.len() == 0
    }
}

/// A reader never sees a torn snapshot: what is in effect in a well-formed
/// cell, and so what `read` returns, is one of the snapshots that were
/// published whole, namely the last one.
pub proof fn lemma_snapshot_is_whole(c: MembershipCell)
    requires
        c.wf(),
    ensures
        c.published().contains(c.latest()),
        c.latest() == c.published().last(),
{
    assert(c.published()[c.published().len() - 1] == c.latest());
}

} // verus!
