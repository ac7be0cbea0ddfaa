use vstd::prelude::*;

verus! {

/// One address record of the inventory's IP address management, as listed for a cluster node.
#[derive(Clone, Debug)]
pub struct IpamEntry {
    pub zone: String,
    pub hostname: Option<String>,
    pub vmid: Option<String>,
    pub vnet: String,
    pub ip: String,
    pub mac: Option<String>,
    pub subnet: String,
}

/// One workload-status record of a cluster node.
#[derive(Clone, Debug)]
pub struct VirtualMachineEntry {
    pub status: String,
    pub vmid: i64,
    pub name: String,
    pub template: Option<u8>,
}

/// The address and workload-status records fetched for one cluster node.
#[derive(Clone, Debug)]
pub struct NodeRecords {
    pub ipams: Vec<IpamEntry>,
    pub vms: Vec<VirtualMachineEntry>,
}

fn copy_opt_string(s: &Option<String>) -> (r: Option<String>)
    ensures
        r == *s,
{
    match s {
        Some(v) => Some(v.clone()),
        None => None,
    }
}

impl IpamEntry {
    /// A field-for-field copy of the record.
    pub fn duplicate(&self) -> (r: IpamEntry)
        ensures
            r == *self,
    {
        IpamEntry {
            zone: self.zone.clone(),
            hostname: copy_opt_string(&self.hostname),
            vmid: copy_opt_string(&self.vmid),
            vnet: self.vnet.clone(),
            ip: self.ip.clone(),
            mac: copy_opt_string(&self.mac),
            subnet: self.subnet.clone(),
        }
    }
}

/// The digit character for `d < 10`.
pub open spec fn digit_char(d: nat) -> char {
    seq!['0', '1', '2', '3', '4', '5', '6', '7', '8', '9'][d as int]
}

/// Decimal digits of a natural number, most significant first, without leading zeros.
pub open spec fn digits(n: nat) -> Seq<char>
    decreases n,
{
    if n < 10 {
        seq![digit_char(n)]
    } else {
        digits(n / 10).push(digit_char(n % 10))
    }
}

/// Decimal text of an integer: its digits, after a `-` when it is negative.
pub open spec fn decimal(n: int) -> Seq<char> {
    if n < 0 {
        seq!['-'] + digits((-n) as nat)
    } else {
        digits(n as nat)
    }
}

/// Relies on the `Display` impl of `i64` (through `to_string`): it writes the
/// decimal digits of the value, after a `-` for a negative one.
#[verifier::external_body]
pub(crate) fn decimal_string(n: i64) -> (r: String)
    ensures
        r@ == decimal(n as int),
{
    n.to_string()
}

} // verus!
