use tpi_rs::error::FwUpdateError;
use tpi_rs::matcher::filter_by_ids;
use tpi_rs::resolver::extract_one_device;

#[test]
fn one_candidate_is_resolved() {
    let devices = vec!["only"];
    assert_eq!(extract_one_device(&devices).unwrap(), &"only");
}

#[test]
fn no_candidate_is_no_devices() {
    let devices: Vec<u32> = vec![];
    assert!(matches!(extract_one_device(&devices), Err(FwUpdateError::NoDevices)));
}

#[test]
fn three_candidates_carry_their_count() {
    let devices = vec![1, 2, 3];
    assert!(matches!(
        extract_one_device(&devices),
        Err(FwUpdateError::MultipleDevicesFound(3))
    ));
}

#[test]
fn filter_keeps_allowed_in_enumeration_order() {
    let cands = vec![
        ("a", Some((0x0a5c, 0x2711))),
        ("b", Some((0x1234, 0x0001))),
        ("c", None),
        ("d", Some((0x0955, 0x7c18))),
        ("e", Some((0x0a5c, 0x2711))),
    ];
    let allow = [(0x0a5c, 0x2711), (0x0955, 0x7c18)];
    assert_eq!(filter_by_ids(cands, &allow), vec!["a", "d", "e"]);
}

#[test]
fn unreadable_descriptor_is_skipped() {
    let cands = vec![("a", None), ("b", None)];
    let allow = [(0x0a5c, 0x2711)];
    assert!(filter_by_ids(cands, &allow).is_empty());
}

#[test]
fn single_match_pipeline_returns_that_device() {
    let cands = vec![
        ("rpi", Some((0x0a5c, 0x2711))),
        ("keyboard", Some((0x046d, 0xc31c))),
        ("broken", None),
    ];
    let matched = filter_by_ids(cands, &[(0x0a5c, 0x2711)]);
    assert_eq!(extract_one_device(&matched).unwrap(), &"rpi");
}

#[test]
fn zero_matches_pipeline_is_no_devices() {
    let cands = vec![("keyboard", Some((0x046d, 0xc31c)))];
    let matched = filter_by_ids(cands, &[(0x0a5c, 0x2711)]);
    assert!(matches!(extract_one_device(&matched), Err(FwUpdateError::NoDevices)));
}

#[test]
fn ambiguous_matches_pipeline_carries_count() {
    let cands = vec![
        ("n1", Some((0x0a5c, 0x2711))),
        ("n2", Some((0x0a5c, 0x2711))),
        ("n3", Some((0x0a5c, 0x2712))),
    ];
    let matched = filter_by_ids(cands, &[(0x0a5c, 0x2711), (0x0a5c, 0x2712)]);
    assert!(matches!(
        extract_one_device(&matched),
        Err(FwUpdateError::MultipleDevicesFound(3))
    ));
}
