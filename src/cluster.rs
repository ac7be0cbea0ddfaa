use vstd::prelude::*;
use crate::records::IpamEntry;

verus! {

/// The failures the proxy distinguishes.
#[derive(Clone, Copy, Debug, PartialEq, Eq, Structural)]
pub enum ProxyError {
    /// The inventory or credential service could not be reached.
    RemoteUnavailable,
    /// The inventory or credential service answered with a non-success status.
    RemoteRejected,
    /// No candidate of a connection's snapshot accepted a connection.
    NoReachableBackend,
    /// A transport error while relaying bytes.
    RelayIo,
    /// An admin lookup found no matching member.
    MemberNotFound,
}

/// `e` names a member at address `ip`.
pub open spec fn identifies(e: IpamEntry, ip: Seq<char>) -> bool {
    e.vmid is Some && e.ip@ == ip
}

/// `e` is the record of the member with identity `id`.
pub open spec fn belongs_to(e: IpamEntry, id: Seq<char>) -> bool {
    e.vmid is Some && e.vmid->0@ == id
}

/// The identity of the caller at address `client_ip`: that of the first
/// record that carries an identity and has this address.
pub fn current_member_id(entries: &Vec<IpamEntry>, client_ip: &String) -> (r: Result<String, ProxyError>)
    ensures
        match r {
            Ok(id) => exists|k: int|
                0 <= k < entries@.len() && identifies(#[trigger] entries@[k], client_ip@) && id@
                    == entries@[k].vmid->0@ && forall|j: int|
                    0 <= j < k ==> !identifies(#[trigger] entries@[j], client_ip@),
            Err(e) => e == ProxyError::MemberNotFound && forall|k: int|
                0 <= k < entries@.len() ==> !identifies(#[trigger] entries@[k], client_ip@),
        },
{
    let mut i: usize = 0;
    while i < entries.len()
        invariant
            i <= entries@.len(),
            forall|j: int| 0 <= j < i ==> !identifies(#[trigger] entries@[j], client_ip@),
        decreases entries@.len() - i,
    {
        let e = &entries[i];
        if let Some(id) = &e.vmid {
            if e.ip == *client_ip {
                assert(identifies(entries@[i as int], client_ip@));
                return Ok(id.clone());
            }
        }
        i = i + 1;
    }
    Err(ProxyError::MemberNotFound)
}

/// The address of the member with identity `id`: that of the first record
/// that carries this identity.
pub fn member_address(entries: &Vec<IpamEntry>, id: &String) -> (r: Result<String, ProxyError>)
    ensures
        match r {
            Ok(ip) => exists|k: int|
                0 <= k < entries@.len() && belongs_to(#[trigger] entries@[k], id@) && ip@
                    == entries@[k].ip@ && forall|j: int|
                    0 <= j < k ==> !belongs_to(#[trigger] entries@[j], id@),
            Err(e) => e == ProxyError::MemberNotFound && forall|k: int|
                0 <= k < entries@.len() ==> !belongs_to(#[trigger] entries@[k], id@),
        },
{
    let mut i: usize = 0;
    while i < entries.len()
        invariant
            i <= entries@.len(),
            forall|j: int| 0 <= j < i ==> !belongs_to(#[trigger] entries@[j], id@),
        decreases entries@.len() - i,
    {
        let e = &entries[i];
        if let Some(v) = &e.vmid {
            if *v == *id {
                assert(belongs_to(entries@[i as int], id@));
                return Ok(e.ip.clone());
            }
        }
        i = i + 1;
    }
    Err(ProxyError::MemberNotFound)
}

} // verus!
