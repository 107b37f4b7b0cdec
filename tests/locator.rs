use tpi_rs::error::FwUpdateError;
use tpi_rs::locator::{
    exclude_partitions, locate_root_device, select_root_device, target_prefixes,
    vendor_matches, BY_ID_DIR,
};

fn names(v: &[&str]) -> Vec<String> {
    v.iter().map(|s| s.to_string()).collect()
}

#[test]
fn prefixes_follow_namespace_convention() {
    assert_eq!(
        target_prefixes(&["RPi", "Vendor"]),
        vec!["usb-RPi_".to_string(), "usb-Vendor_".to_string()]
    );
}

#[test]
fn vendor_matches_keep_each_entry_once() {
    let listing = names(&["usb-Vendor_ABC", "ata-Disk_1", "usb-Other_X", "usb-Vendor_ABC-part1"]);
    assert_eq!(
        vendor_matches(&listing, &["Vendor", "Vendor"]),
        names(&["usb-Vendor_ABC", "usb-Vendor_ABC-part1"])
    );
    assert!(vendor_matches(&listing, &["Vend"]).is_empty());
}

#[test]
fn partitions_collapse_into_roots() {
    let listing = names(&["x-part2", "x-part1", "x", "y-part2", "y-part1", "y"]);
    assert_eq!(exclude_partitions(&listing), names(&["x", "y"]));
}

#[test]
fn partition_exclusion_ignores_order() {
    let listing = names(&["y-part1", "x", "y", "x-part2", "x-part1", "y-part2"]);
    let mut roots = exclude_partitions(&listing);
    roots.sort();
    assert_eq!(roots, names(&["x", "y"]));
}

#[test]
fn literal_prefix_name_is_dropped_too() {
    let listing = names(&["x", "x2"]);
    assert_eq!(exclude_partitions(&listing), names(&["x"]));
}

#[test]
fn single_vendor_root_is_selected() {
    let listing = names(&["usb-Vendor_ABC", "usb-Vendor_ABC-part1"]);
    assert_eq!(select_root_device(&listing, &["Vendor"]).unwrap(), "usb-Vendor_ABC");
    assert_eq!(
        locate_root_device(Ok(listing), &["Vendor"]).unwrap(),
        format!("{}/usb-Vendor_ABC", BY_ID_DIR)
    );
    assert_eq!(BY_ID_DIR, "/dev/disk/by-id");
}

#[test]
fn empty_listing_is_no_msd_devices() {
    assert!(matches!(
        locate_root_device(Ok(vec![]), &["Vendor"]),
        Err(FwUpdateError::NoMsdDevices)
    ));
}

#[test]
fn unmatched_listing_is_no_msd_devices() {
    let listing = names(&["ata-Disk_1", "usb-Other_X", "usb-Other_X-part1"]);
    assert!(matches!(
        locate_root_device(Ok(listing), &["Vendor"]),
        Err(FwUpdateError::NoMsdDevices)
    ));
}

#[test]
fn two_roots_are_ambiguous() {
    let listing = names(&["usb-A_1", "usb-A_1-part1", "usb-B_2", "usb-B_2-part1"]);
    assert!(matches!(
        locate_root_device(Ok(listing), &["A", "B"]),
        Err(FwUpdateError::MultipleDevicesFound(2))
    ));
}

#[test]
fn listing_failure_is_io_error() {
    let err = std::io::Error::new(std::io::ErrorKind::PermissionDenied, "denied");
    match locate_root_device(Err(err), &["Vendor"]) {
        Err(FwUpdateError::IoError(e)) => {
            assert_eq!(e.kind(), std::io::ErrorKind::PermissionDenied)
        }
        other => panic!("unexpected outcome: {:?}", other),
    }
}

#[test]
fn repeated_resolution_is_stable() {
    let listing = names(&["usb-Vendor_ABC-part1", "usb-Vendor_ABC", "usb-Other_Q"]);
    let first = locate_root_device(Ok(listing.clone()), &["Vendor"]).unwrap();
    let second = locate_root_device(Ok(listing), &["Vendor"]).unwrap();
    assert_eq!(first, second);
}
