use vstd::prelude::*;

verus! {

/// One address of a network interface.
#[derive(Clone, Debug)]
pub struct InterfaceAddress {
    pub ip: String,
    pub is_ipv4: bool,
}

/// A network interface with its addresses, in the order the system lists them.
#[derive(Clone, Debug)]
pub struct InterfaceInfo {
    pub name: String,
    pub addresses: Vec<InterfaceAddress>,
}

/// Why no address to listen on was found.
#[derive(Clone, Copy, Debug, PartialEq, Eq, Structural)]
pub enum ListenError {
    /// No interface has the configured name.
    InterfaceNotFound,
    /// The first interface of that name has no IPv4 address.
    NoIpv4Address,
}

/// The index of the first interface named `name` in `ifs`, if any.
pub open spec fn first_named(ifs: Seq<InterfaceInfo>, name: Seq<char>, k: int) -> bool {
    &&& 0 <= k < ifs.len()
    &&& ifs[k].name@ == name
    &&& forall|j: int| 0 <= j < k ==> (#[trigger] ifs[j]).name@ != name
}

/// `k` is the first IPv4 address of `addrs`.
pub open spec fn first_ipv4(addrs: Seq<InterfaceAddress>, k: int) -> bool {
    &&& 0 <= k < addrs.len()
    &&& addrs[k].is_ipv4
    &&& forall|j: int| 0 <= j < k ==> !(#[trigger] addrs[j]).is_ipv4
}

fn find_ipv4(addrs: &Vec<InterfaceAddress>) -> (r: Option<usize>)
    ensures
        match r {
            Some(k) => first_ipv4(addrs@, k as int),
            None => forall|j: int| 0 <= j < addrs@.len() ==> !(#[trigger] addrs@[j]).is_ipv4,
        },
{
    let mut i: usize = 0;
    while i < addrs.len()
        invariant
            i <= addrs@.len(),
            forall|j: int| 0 <= j < i ==> !(#[trigger] addrs@[j]).is_ipv4,
        decreases addrs@.len() - i,
    {
        if addrs[i].is_ipv4 {
            return Some(i);
        }
        i = i + 1;
    }
    None
}

/// The address the admin surface listens on: the first IPv4 address of the
/// first interface named `name`, with `port`.
pub fn exposed_address(ifs: &Vec<InterfaceInfo>, name: &String, port: u16) -> (r: Result<
    (String, u16),
    ListenError,
>)
    ensures
        match r {
            Ok((ip, p)) => p == port && exists|k: int, a: int|
                first_named(ifs@, name@, k) && first_ipv4(ifs@[k].addresses@, a) && ip@
                    == (#[trigger] ifs@[k].addresses@[a]).ip@,
            Err(ListenError::InterfaceNotFound) => forall|k: int|
                0 <= k < ifs@.len() ==> (#[trigger] ifs@[k]).name@ != name@,
            Err(ListenError::NoIpv4Address) => exists|k: int|
                first_named(ifs@, name@, k) && forall|a: int|
                    0 <= a < ifs@[k].addresses@.len() ==> !(
                    #[trigger] ifs@[k].addresses@[a]).is_ipv4,
        },
{
    let mut i: usize = 0;
    while i < ifs.len()
        invariant
            i <= ifs@.len(),
            forall|j: int| 0 <= j < i ==> (#[trigger] ifs@[j]).name@ != name@,
        decreases ifs@.len() - i,
    {
        if ifs[i].name == *name {
            assert(first_named(ifs@, name@, i as int));
            return match find_ipv4(&ifs[i].addresses) {
                Some(a) => {
                    let ghost ai = a as int;
                    assert(first_ipv4(ifs@[i as int].addresses@, ai));
                    Ok((ifs[i].addresses[a].ip.clone(), port))
                },
                None => Err(ListenError::NoIpv4Address),
            };
        }
        i = i + 1;
    }
    Err(ListenError::InterfaceNotFound)
}

} // verus!
