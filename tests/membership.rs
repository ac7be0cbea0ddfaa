use cluster_proxy::cell::MembershipCell;
use cluster_proxy::filter::{assemble_snapshot, filter_members, find_live_workload, is_member};
use cluster_proxy::records::{IpamEntry, NodeRecords, VirtualMachineEntry};

fn ipam(vnet: &str, vmid: Option<&str>, ip: &str) -> IpamEntry {
    IpamEntry {
        zone: "zone1".to_string(),
        hostname: Some(format!("host-{ip}")),
        vmid: vmid.map(|v| v.to_string()),
        vnet: vnet.to_string(),
        ip: ip.to_string(),
        mac: None,
        subnet: "10.0.0.0/24".to_string(),
    }
}

fn vm(vmid: i64, status: &str, template: Option<u8>) -> VirtualMachineEntry {
    VirtualMachineEntry {
        status: status.to_string(),
        vmid,
        name: format!("vm-{vmid}"),
        template,
    }
}

fn ips(entries: &[IpamEntry]) -> Vec<String> {
    entries.iter().map(|e| e.ip.clone()).collect()
}

#[test]
fn filter_keeps_exactly_eligible_combinations() {
    // Every combination of segment match, template flag and status.
    let mut entries = Vec::new();
    let mut vms = Vec::new();
    let mut expected = Vec::new();
    let mut id: i64 = 100;
    for in_segment in [true, false] {
        for template in [None, Some(1u8)] {
            for status in ["running", "stopped"] {
                let ip = format!("10.0.0.{id}");
                let vnet = if in_segment { "vnet1" } else { "vnet2" };
                entries.push(ipam(vnet, Some(&id.to_string()), &ip));
                vms.push(vm(id, status, template));
                if in_segment && template.is_none() && status == "running" {
                    expected.push(ip);
                }
                id += 1;
            }
        }
    }
    let kept = filter_members(&entries, &vms, &"vnet1".to_string(), &None);
    assert_eq!(ips(&kept), expected);
    assert_eq!(ips(&kept), vec!["10.0.0.100".to_string()]);
}

#[test]
fn filter_drops_records_without_identity_or_workload() {
    let entries = vec![
        ipam("vnet1", None, "10.0.0.1"),
        ipam("vnet1", Some(""), "10.0.0.2"),
        ipam("vnet1", Some("200"), "10.0.0.3"),
        ipam("vnet1", Some("101"), "10.0.0.4"),
        ipam("vnet1", Some("0101"), "10.0.0.5"),
    ];
    let vms = vec![vm(101, "running", None)];
    let kept = filter_members(&entries, &vms, &"vnet1".to_string(), &None);
    assert_eq!(ips(&kept), vec!["10.0.0.4".to_string()]);
}

#[test]
fn filter_keeps_input_order_and_duplicates() {
    let entries = vec![
        ipam("vnet1", Some("102"), "10.0.0.9"),
        ipam("vnet1", Some("101"), "10.0.0.2"),
        ipam("vnet1", Some("102"), "10.0.0.7"),
    ];
    let vms = vec![vm(101, "running", None), vm(102, "running", None)];
    let kept = filter_members(&entries, &vms, &"vnet1".to_string(), &None);
    assert_eq!(
        ips(&kept),
        vec!["10.0.0.9".to_string(), "10.0.0.2".to_string(), "10.0.0.7".to_string()]
    );
}

#[test]
fn filter_excludes_the_callers_own_address() {
    let entries = vec![ipam("vnet1", Some("101"), "10.0.0.5"), ipam("vnet1", Some("102"), "10.0.0.6")];
    let vms = vec![vm(101, "running", None), vm(102, "running", None)];
    let kept = filter_members(&entries, &vms, &"vnet1".to_string(), &Some("10.0.0.5".to_string()));
    assert_eq!(ips(&kept), vec!["10.0.0.6".to_string()]);
    assert!(!is_member(&entries[0], &vms, &"vnet1".to_string(), &Some("10.0.0.5".to_string())));
    assert!(is_member(&entries[0], &vms, &"vnet1".to_string(), &None));
}

#[test]
fn filter_of_empty_input_is_empty() {
    let kept = filter_members(&Vec::new(), &vec![vm(1, "running", None)], &"vnet1".to_string(), &None);
    assert!(kept.is_empty());
}

#[test]
fn workload_ids_are_compared_as_decimal_text() {
    let vms = vec![vm(-7, "running", None), vm(1010, "running", None), vm(101, "stopped", None)];
    assert!(find_live_workload(&vms, &"-7".to_string()));
    assert!(find_live_workload(&vms, &"1010".to_string()));
    assert!(!find_live_workload(&vms, &"101".to_string()));
    assert!(!find_live_workload(&vms, &"7".to_string()));
    assert!(!find_live_workload(&Vec::new(), &"7".to_string()));
}

#[test]
fn snapshot_concatenates_nodes_in_order() {
    let nodes = vec![
        NodeRecords {
            ipams: vec![ipam("vnet1", Some("101"), "10.0.0.5"), ipam("vnet2", Some("101"), "10.1.0.5")],
            vms: vec![vm(101, "running", None)],
        },
        NodeRecords { ipams: vec![ipam("vnet1", Some("101"), "10.0.0.8")], vms: vec![] },
        NodeRecords {
            ipams: vec![ipam("vnet1", Some("300"), "10.0.0.3"), ipam("vnet1", Some("301"), "10.0.0.1")],
            vms: vec![vm(300, "running", None), vm(301, "running", None)],
        },
    ];
    let snap = assemble_snapshot(&nodes, &"vnet1".to_string());
    assert_eq!(
        ips(&snap),
        vec!["10.0.0.5".to_string(), "10.0.0.3".to_string(), "10.0.0.1".to_string()]
    );
    assert!(assemble_snapshot(&Vec::new(), &"vnet1".to_string()).is_empty());
}

#[test]
fn cell_starts_empty_and_reads_the_last_publish() {
    let mut cell = MembershipCell::new();
    assert!(cell.is_empty());
    assert!(cell.read().is_empty());
    cell.publish(vec![ipam("vnet1", Some("1"), "10.0.0.1"), ipam("vnet1", Some("2"), "10.0.0.2")]);
    let first = cell.read();
    cell.publish(vec![ipam("vnet1", Some("3"), "10.0.0.3")]);
    assert_eq!(ips(&first), vec!["10.0.0.1".to_string(), "10.0.0.2".to_string()]);
    assert_eq!(ips(&cell.read()), vec!["10.0.0.3".to_string()]);
    assert!(!cell.is_empty());
}
