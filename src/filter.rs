use vstd::prelude::*;
use crate::records::{IpamEntry, NodeRecords, VirtualMachineEntry, decimal, decimal_string};

verus! {

/// `vm` is a running workload, not a template, whose id reads as `id`.
pub open spec fn vouches_for(vm: VirtualMachineEntry, id: Seq<char>) -> bool {
    &&& decimal(vm.vmid as int) == id
    &&& vm.template is None
    &&& vm.status@ == "running"@
}

/// Some record of `vms` vouches for the identity `id`.
pub open spec fn has_live_workload(vms: Seq<VirtualMachineEntry>, id: Seq<char>) -> bool {
    exists|i: int| 0 <= i < vms.len() && vouches_for(#[trigger] vms[i], id)
}

/// The view of an optional string.
pub open spec fn opt_view(o: Option<String>) -> Option<Seq<char>> {
    match o {
        Some(s) => Some(s@),
        None => None,
    }
}

/// An address record is an eligible member: it lies in `segment`, carries a
/// non-empty identity backed by a running non-template workload, and is not
/// the `excluded` address.
pub open spec fn is_eligible(
    e: IpamEntry,
    vms: Seq<VirtualMachineEntry>,
    segment: Seq<char>,
    excluded: Option<Seq<char>>,
) -> bool {
    &&& e.vnet@ == segment
    &&& e.vmid is Some
    &&& e.vmid->0@.len() > 0
    &&& has_live_workload(vms, e.vmid->0@)
    &&& match excluded {
        Some(x) => e.ip@ != x,
        None => true,
    }
}

/// The eligible records of `entries`, in their order.
pub open spec fn eligible_members(
    entries: Seq<IpamEntry>,
    vms: Seq<VirtualMachineEntry>,
    segment: Seq<char>,
    excluded: Option<Seq<char>>,
) -> Seq<IpamEntry>
    decreases entries.len(),
{
    if entries.len() == 0 {
        Seq::empty()
    } else {
        let rest = eligible_members(entries.drop_last(), vms, segment, excluded);
        if is_eligible(entries.last(), vms, segment, excluded) {
            rest.push(entries.last())
        } else {
            rest
        }
    }
}

/// The members of a whole poll: each node's eligible records, nodes in order.
pub open spec fn snapshot_of(nodes: Seq<NodeRecords>, segment: Seq<char>) -> Seq<IpamEntry>
    decreases nodes.len(),
{
    if nodes.len() == 0 {
        Seq::empty()
    } else {
        snapshot_of(nodes.drop_last(), segment) + eligible_members(
            nodes.last().ipams@,
            nodes.last().vms@,
            segment,
            None,
        )
    }
}

/// The filter keeps exactly the eligible records: a record is in the output
/// if and only if it is in the input and eligible, and the output is never
/// longer than the input.
pub proof fn lemma_filter_exact(
    entries: Seq<IpamEntry>,
    vms: Seq<VirtualMachineEntry>,
    segment: Seq<char>,
    excluded: Option<Seq<char>>,
)
    ensures
        forall|e: IpamEntry|
            #[trigger] eligible_members(entries, vms, segment, excluded).contains(e) <==> (
            entries.contains(e) && is_eligible(e, vms, segment, excluded)),
        eligible_members(entries, vms, segment, excluded).len() <= entries.len(),
    decreases entries.len(),
{
    if entries.len() > 0 {
        let init = entries.drop_last();
        lemma_filter_exact(init, vms, segment, excluded);
        assert(entries =~= init.push(entries.last()));
        let rest = eligible_members(init, vms, segment, excluded);
        assert forall|e: IpamEntry|
            #[trigger] eligible_members(entries, vms, segment, excluded).contains(e) <==> (
            entries.contains(e) && is_eligible(e, vms, segment, excluded)) by {
            if entries.contains(e) {
                let k = choose|k: int| 0 <= k < entries.len() && entries[k] == e;
                if k < entries.len() - 1 {
                    assert(init[k] == e);
                }
            }
            if init.contains(e) {
                let k = choose|k: int| 0 <= k < init.len() && init[k] == e;
                assert(entries[k] == e);
            }
            if is_eligible(entries.last(), vms, segment, excluded) {
                assert(rest.push(entries.last())[rest.len() as int] == entries.last());
                if rest.push(entries.last()).contains(e) {
                    let k = choose|k: int| 0 <= k < rest.len() + 1 && rest.push(entries.last())[k] == e;
                    if k < rest.len() {
                        assert(rest[k] == e);
                    }
                }
                if rest.contains(e) {
                    let k = choose|k: int| 0 <= k < rest.len() && rest[k] == e;
                    assert(rest.push(entries.last())[k] == e);
                }
            }
        }
    }
}

/// Whether some record of `vms` is a running, non-template workload with id `id`.
pub fn find_live_workload(vms: &Vec<VirtualMachineEntry>, id: &String) -> (r: bool)
    ensures
        r == has_live_workload(vms@, id@),
{
    let running = String::from_str("running");
    let mut i: usize = 0;
    while i < vms.len()
        invariant
            i <= vms@.len(),
            running@ == "running"@,
            forall|j: int| 0 <= j < i ==> !vouches_for(#[trigger] vms@[j], id@),
        decreases vms@.len() - i,
    {
        let vm = &vms[i];
        let shown = decimal_string(vm.vmid);
        if shown == *id && vm.template.is_none() && vm.status == running {
            assert(vouches_for(vms@[i as int], id@));
            return true;
        }
        i = i + 1;
    }
    false
}

/// Whether one address record is an eligible member (see `is_eligible`).
pub fn is_member(
    entry: &IpamEntry,
    vms: &Vec<VirtualMachineEntry>,
    segment: &String,
    excluded: &Option<String>,
) -> (r: bool)
    ensures
        r == is_eligible(*entry, vms@, segment@, opt_view(*excluded)),
{
    if entry.vnet != *segment {
        return false;
    }
    let id = match &entry.vmid {
        Some(id) => id,
        None => {
            return false;
        },
    };
    if id.as_str().is_empty() {
        return false;
    }
    if let Some(x) = excluded {
        if entry.ip == *x {
            return false;
        }
    }
    find_live_workload(vms, id)
}

/// The membership filter: the eligible records of `entries`, in their order.
pub fn filter_members(
    entries: &Vec<IpamEntry>,
    vms: &Vec<VirtualMachineEntry>,
    segment: &String,
    excluded: &Option<String>,
) -> (r: Vec<IpamEntry>)
    ensures
        r@ == eligible_members(entries@, vms@, segment@, opt_view(*excluded)),
{
    let ghost ex = opt_view(*excluded);
    let mut out: Vec<IpamEntry> = Vec::new();
    let mut i: usize = 0;
    while i < entries.len()
        invariant
            i <= entries@.len(),
            ex == opt_view(*excluded),
            out@ == eligible_members(entries@.subrange(0, i as int), vms@, segment@, ex),
        decreases entries@.len() - i,
    {
        let ghost prefix = entries@.subrange(0, i as int + 1);
        assert(prefix.drop_last() =~= entries@.subrange(0, i as int));
        assert(prefix.last() == entries@[i as int]);
        if is_member(&entries[i], vms, segment, excluded) {
            out.push(entries[i].duplicate());
        }
        i = i + 1;
    }
    assert(entries@.subrange(0, entries@.len() as int) =~= entries@);
    out
}

/// One poll's snapshot: the eligible records of every node, concatenated in
/// node order, each node's records in their own order.
pub fn assemble_snapshot(nodes: &Vec<NodeRecords>, segment: &String) -> (r: Vec<IpamEntry>)
    ensures
        r@ == snapshot_of(nodes@, segment@),
{
    let mut out: Vec<IpamEntry> = Vec::new();
    let mut i: usize = 0;
    while i < nodes.len()
        invariant
            i <= nodes@.len(),
            out@ == snapshot_of(nodes@.subrange(0, i as int), segment@),
        decreases nodes@.len() - i,
    {
        let ghost prefix = nodes@.subrange(0, i as int + 1);
        assert(prefix.drop_last() =~= nodes@.subrange(0, i as int));
        assert(prefix.last() == nodes@[i as int]);
        let mut kept = filter_members(&nodes[i].ipams, &nodes[i].vms, segment, &None);
        out.append(&mut kept);
        i = i + 1;
    }
    assert(nodes@.subrange(0, nodes@.len() as int) =~= nodes@);
    out
}

} // verus!
