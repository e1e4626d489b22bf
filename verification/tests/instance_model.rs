use gcloud_ssh::AccessConfig;
use gcloud_ssh::Instance;
use gcloud_ssh::NetworkInterface;

fn instance(name: &str, zone_url: &str, interfaces: Vec<NetworkInterface>) -> Instance {
    Instance {
        name: name.to_string(),
        zone_url: zone_url.to_string(),
        network_interfaces: interfaces,
    }
}

fn interface(ips: Vec<Option<&str>>) -> NetworkInterface {
    NetworkInterface {
        access_configs: ips
            .into_iter()
            .map(|ip| AccessConfig {
                nat_ip: ip.map(|s| s.to_string()),
            })
            .collect(),
    }
}

#[test]
fn zone_takes_suffix_after_last_slash() {
    let inst = instance(
        "vm-a",
        "https://www.googleapis.com/compute/v1/projects/p/zones/us-central1-a",
        vec![],
    );
    assert_eq!(inst.zone(), "us-central1-a");
}

#[test]
fn zone_without_slash_is_the_whole_reference() {
    let inst = instance("vm-a", "europe-west1-b", vec![]);
    assert_eq!(inst.zone(), "europe-west1-b");
}

#[test]
fn zone_of_empty_reference_is_empty() {
    let inst = instance("vm-a", "", vec![]);
    assert_eq!(inst.zone(), "");
}

#[test]
fn zone_with_trailing_slash_is_empty() {
    let inst = instance("vm-a", "a/b/", vec![]);
    assert_eq!(inst.zone(), "");
}

#[test]
fn external_ip_takes_first_configured_address() {
    let inst = instance(
        "vm-a",
        "zones/z",
        vec![interface(vec![Some("34.1.2.3"), Some("34.9.9.9")])],
    );
    assert_eq!(inst.external_ip(), Some("34.1.2.3".to_string()));
}

#[test]
fn external_ip_scans_interfaces_in_order() {
    let inst = instance(
        "vm-a",
        "zones/z",
        vec![interface(vec![None]), interface(vec![Some("10.0.0.5")])],
    );
    assert_eq!(inst.external_ip(), Some("10.0.0.5".to_string()));
}

#[test]
fn external_ip_skips_empty_configs_within_an_interface() {
    let inst = instance(
        "vm-a",
        "zones/z",
        vec![
            interface(vec![None, Some("34.1.2.3")]),
            interface(vec![Some("34.4.4.4")]),
        ],
    );
    assert_eq!(inst.external_ip(), Some("34.1.2.3".to_string()));
}

#[test]
fn external_ip_is_none_when_no_config_carries_one() {
    let inst = instance(
        "vm-a",
        "zones/z",
        vec![interface(vec![None, None]), interface(vec![])],
    );
    assert_eq!(inst.external_ip(), None);
}

#[test]
fn external_ip_is_none_without_interfaces() {
    let inst = instance("vm-a", "zones/z", vec![]);
    assert_eq!(inst.external_ip(), None);
}

#[test]
fn clone_is_a_deep_copy() {
    let inst = instance(
        "vm-a",
        "zones/us-east1-c",
        vec![interface(vec![Some("34.1.2.3")])],
    );
    let copy = inst.clone();
    assert_eq!(copy.name, inst.name);
    assert_eq!(copy.zone_url, inst.zone_url);
    assert_eq!(copy.external_ip(), inst.external_ip());
    assert_eq!(copy.zone(), inst.zone());
}
