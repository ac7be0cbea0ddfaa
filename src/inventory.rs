use vstd::prelude::*;
use crate::cluster::ProxyError;

verus! {

/// The address of the inventory's list of cluster nodes.
pub fn nodes_url(base: &str) -> (r: String)
    ensures
        r@ == base@ + "/api2/json/nodes"@,
{
    let mut s = String::from_str(base);
    s.append("/api2/json/nodes");
    s
}

/// The address of the inventory's address records for `node`.
pub fn ipams_url(base: &str, node: &str) -> (r: String)
    ensures
        r@ == base@ + "/api2/json/cluster/sdn/ipams/"@ + node@ + "/status"@,
{
    let mut s = String::from_str(base);
    s.append("/api2/json/cluster/sdn/ipams/");
    s.append(node);
    s.append("/status");
    s
}

/// The address of the inventory's workload-status records for `node`.
pub fn vms_url(base: &str, node: &str) -> (r: String)
    ensures
        r@ == base@ + "/api2/json/nodes/"@ + node@ + "/qemu"@,
{
    let mut s = String::from_str(base);
    s.append("/api2/json/nodes/");
    s.append(node);
    s.append("/qemu");
    s
}

/// The address where a session credential is obtained or renewed.
pub fn ticket_url(base: &str) -> (r: String)
    ensures
        r@ == base@ + "/api2/json/access/ticket"@,
{
    let mut s = String::from_str(base);
    s.append("/api2/json/access/ticket");
    s
}

/// The cookie that carries the session credential `ticket`.
pub fn auth_cookie(ticket: &str) -> (r: String)
    ensures
        r@ == "PVEAuthCookie="@ + ticket@,
{
    let mut s = String::from_str("PVEAuthCookie=");
    s.append(ticket);
    s
}

/// Whether an HTTP status of the inventory is a success.
pub open spec fn is_success(code: u16) -> bool {
    200 <= code < 300
}

/// Maps an inventory answer's HTTP status to success, or to `RemoteRejected`.
pub fn check_status(code: u16) -> (r: Result<(), ProxyError>)
    ensures
        is_success(code) ==> r == Ok::<(), ProxyError>(()),
        !is_success(code) ==> r == Err::<(), ProxyError>(ProxyError::RemoteRejected),
{
    if 200 <= code && code < 300 {
        Ok(())
    } else {
        Err(ProxyError::RemoteRejected)
    }
}

} // verus!
