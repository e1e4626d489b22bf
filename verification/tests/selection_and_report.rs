use gcloud_ssh::format_vm_list_item;
use gcloud_ssh::report::report_connection;
use gcloud_ssh::report::report_connection_for_current_user;
use gcloud_ssh::select::select_instance;
use gcloud_ssh::select::selection_lines;
use gcloud_ssh::AccessConfig;
use gcloud_ssh::Instance;
use gcloud_ssh::NetworkInterface;
use gcloud_ssh::ProvisionError;

fn with_ip(name: &str, ip: Option<&str>) -> Instance {
    Instance {
        name: name.to_string(),
        zone_url: "projects/p/zones/us-central1-a".to_string(),
        network_interfaces: vec![NetworkInterface {
            access_configs: vec![AccessConfig {
                nat_ip: ip.map(|s| s.to_string()),
            }],
        }],
    }
}

#[test]
fn selecting_a_valid_index_copies_the_record() {
    let catalog = vec![with_ip("a", Some("34.1.1.1")), with_ip("b", None)];
    let chosen = select_instance(&catalog, Some(1)).unwrap();
    assert_eq!(chosen.name, "b");
    assert_eq!(chosen.external_ip(), None);
}

#[test]
fn selecting_out_of_range_is_rejected() {
    let catalog = vec![with_ip("a", Some("34.1.1.1"))];
    let r = select_instance(&catalog, Some(1));
    assert!(matches!(r, Err(ProvisionError::SelectionAborted)));
    let r = select_instance(&catalog, Some(usize::MAX));
    assert!(matches!(r, Err(ProvisionError::SelectionAborted)));
}

#[test]
fn cancelled_selection_is_aborted() {
    let catalog = vec![with_ip("a", Some("34.1.1.1"))];
    let r = select_instance(&catalog, None);
    assert!(matches!(r, Err(ProvisionError::SelectionAborted)));
}

#[test]
fn list_item_shows_index_name_zone_and_ip() {
    let line = format_vm_list_item(0, "worker-1", "us-central1-a", Some("34.1.2.3"));
    assert_eq!(line, "[1] worker-1 (us-central1-a) 34.1.2.3");
}

#[test]
fn list_item_marks_a_missing_ip() {
    let line = format_vm_list_item(2, "worker-3", "us-east1-b", None);
    assert_eq!(line, "[3] worker-3 (us-east1-b) no external IP");
}

#[test]
fn selection_lines_keep_catalog_order() {
    let catalog = vec![with_ip("a", Some("34.1.1.1")), with_ip("b", None)];
    let lines = selection_lines(&catalog);
    assert_eq!(
        lines,
        vec![
            "[1] a (us-central1-a) 34.1.1.1".to_string(),
            "[2] b (us-central1-a) no external IP".to_string(),
        ]
    );
}

#[test]
fn report_builds_the_connection_command() {
    let info = report_connection(&with_ip("worker-1", Some("34.1.2.3")), "ops").unwrap();
    assert_eq!(info.command, "ssh ops@34.1.2.3");
    assert_eq!(info.vm_name, "worker-1");
    assert_eq!(info.zone, "us-central1-a");
    assert_eq!(info.external_ip, "34.1.2.3");
    assert_eq!(info.username, "ops");
}

#[test]
fn report_without_external_ip_is_its_own_error() {
    let r = report_connection(&with_ip("worker-1", None), "ops");
    assert!(matches!(r, Err(ProvisionError::NoExternalIp)));
}

#[test]
fn report_for_current_user_uses_the_local_username() {
    let info = report_connection_for_current_user(&with_ip("worker-1", Some("34.1.2.3"))).unwrap();
    assert_eq!(info.command, format!("ssh {}@34.1.2.3", info.username));
}

#[test]
fn end_to_end_from_listing_to_command() {
    let payload = br#"[
      {
        "name": "worker-1",
        "zone": "https://www.googleapis.com/compute/v1/projects/p/zones/us-central1-a",
        "networkInterfaces": [
          { "accessConfigs": [ { "natIP": "34.1.2.3" } ] }
        ]
      }
    ]"#;
    let catalog = gcloud_ssh::catalog::decode_listing_output(payload).unwrap();
    let chosen = select_instance(&catalog, Some(0)).unwrap();
    assert_eq!(chosen.name, "worker-1");
    let info = report_connection(&chosen, "ops").unwrap();
    assert_eq!(info.command, "ssh ops@34.1.2.3");
    assert_eq!(info.zone, "us-central1-a");
}
