use cluster_proxy::attempt::{AttemptStep, ConnectionAttempt};
use cluster_proxy::cell::MembershipCell;
use cluster_proxy::certificates::{certificate_chain, certificate_subject, dashed};
use cluster_proxy::cluster::{current_member_id, member_address, ProxyError};
use cluster_proxy::filter::assemble_snapshot;
use cluster_proxy::inventory::{auth_cookie, check_status, ipams_url, nodes_url, ticket_url, vms_url};
use cluster_proxy::listen::{exposed_address, InterfaceAddress, InterfaceInfo, ListenError};
use cluster_proxy::records::{IpamEntry, NodeRecords, VirtualMachineEntry};

fn ipam(vmid: Option<&str>, ip: &str) -> IpamEntry {
    IpamEntry {
        zone: "zone1".to_string(),
        hostname: Some("k3s-server-1".to_string()),
        vmid: vmid.map(|v| v.to_string()),
        vnet: "vnet1".to_string(),
        ip: ip.to_string(),
        mac: Some("aa:bb:cc:dd:ee:ff".to_string()),
        subnet: "10.0.0.0/24".to_string(),
    }
}

#[test]
fn end_to_end_poll_connect_and_identify() {
    let nodes = vec![NodeRecords {
        ipams: vec![ipam(Some("101"), "10.0.0.5")],
        vms: vec![VirtualMachineEntry {
            status: "running".to_string(),
            vmid: 101,
            name: "k3s-server-1".to_string(),
            template: None,
        }],
    }];
    let snapshot = assemble_snapshot(&nodes, &"vnet1".to_string());
    assert_eq!(snapshot.len(), 1);
    assert_eq!(snapshot[0].vmid, Some("101".to_string()));
    assert_eq!(snapshot[0].ip, "10.0.0.5");
    let mut cell = MembershipCell::new();
    cell.publish(snapshot);
    let attempt = ConnectionAttempt::new(cell.read());
    match attempt.next_step() {
        AttemptStep::Connect { address, port } => {
            assert_eq!(address, "10.0.0.5");
            assert_eq!(port, 6443);
        }
        other => panic!("expected a connect, got {other:?}"),
    }
    assert_eq!(current_member_id(&nodes[0].ipams, &"10.0.0.5".to_string()), Ok("101".to_string()));
}

#[test]
fn current_member_id_takes_first_record_with_identity() {
    let entries = vec![ipam(None, "10.0.0.5"), ipam(Some("7"), "10.0.0.6"), ipam(Some("8"), "10.0.0.5"), ipam(Some("9"), "10.0.0.5")];
    assert_eq!(current_member_id(&entries, &"10.0.0.5".to_string()), Ok("8".to_string()));
    assert_eq!(current_member_id(&entries, &"10.0.0.9".to_string()), Err(ProxyError::MemberNotFound));
    assert_eq!(current_member_id(&Vec::new(), &"10.0.0.5".to_string()), Err(ProxyError::MemberNotFound));
}

#[test]
fn member_address_finds_first_record_of_identity() {
    let entries = vec![ipam(None, "10.0.0.1"), ipam(Some("12"), "10.0.0.2"), ipam(Some("12"), "10.0.0.3")];
    assert_eq!(member_address(&entries, &"12".to_string()), Ok("10.0.0.2".to_string()));
    assert_eq!(member_address(&entries, &"1".to_string()), Err(ProxyError::MemberNotFound));
}

#[test]
fn inventory_addresses() {
    let base = "https://localhost:8006";
    assert_eq!(nodes_url(base), "https://localhost:8006/api2/json/nodes");
    assert_eq!(ipams_url(base, "pve1"), "https://localhost:8006/api2/json/cluster/sdn/ipams/pve1/status");
    assert_eq!(vms_url(base, "pve1"), "https://localhost:8006/api2/json/nodes/pve1/qemu");
    assert_eq!(ticket_url(base), "https://localhost:8006/api2/json/access/ticket");
    assert_eq!(auth_cookie("PVE:root@pam:ABC"), "PVEAuthCookie=PVE:root@pam:ABC");
}

#[test]
fn status_codes_map_to_rejection() {
    assert_eq!(check_status(200), Ok(()));
    assert_eq!(check_status(204), Ok(()));
    assert_eq!(check_status(299), Ok(()));
    assert_eq!(check_status(199), Err(ProxyError::RemoteRejected));
    assert_eq!(check_status(300), Err(ProxyError::RemoteRejected));
    assert_eq!(check_status(401), Err(ProxyError::RemoteRejected));
    assert_eq!(check_status(503), Err(ProxyError::RemoteRejected));
}

fn iface(name: &str, addrs: &[(&str, bool)]) -> InterfaceInfo {
    InterfaceInfo {
        name: name.to_string(),
        addresses: addrs
            .iter()
            .map(|(ip, v4)| InterfaceAddress { ip: ip.to_string(), is_ipv4: *v4 })
            .collect(),
    }
}

#[test]
fn exposed_address_picks_first_ipv4_of_named_interface() {
    let ifs = vec![
        iface("lo", &[("127.0.0.1", true)]),
        iface("vnet1", &[("fe80::1", false), ("10.0.0.2", true), ("10.0.0.3", true)]),
        iface("vnet1", &[("10.0.0.9", true)]),
        iface("eth1", &[("fe80::2", false)]),
    ];
    assert_eq!(exposed_address(&ifs, &"vnet1".to_string(), 3000), Ok(("10.0.0.2".to_string(), 3000)));
    assert_eq!(exposed_address(&ifs, &"eth9".to_string(), 3000), Err(ListenError::InterfaceNotFound));
    assert_eq!(exposed_address(&ifs, &"eth1".to_string(), 3000), Err(ListenError::NoIpv4Address));
}

#[test]
fn certificate_subject_and_chain() {
    assert_eq!(dashed("server/ca"), "server-ca");
    assert_eq!(dashed(""), "");
    assert_eq!(certificate_subject("client/admin", 1700000000), "/CN=k3s-client-admin@1700000000");
    assert_eq!(certificate_subject("x", -5), "/CN=k3s-x@-5");
    assert_eq!(certificate_chain("C\n", "I\n", "R\n"), "C\nI\nR\n");
}
