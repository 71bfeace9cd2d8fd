use yalmp::devices::select_devices;

#[test]
fn selects_every_device_with_the_name_in_order() {
    let names: Vec<String> = ["Speakers", "HDMI", "Speakers", "USB"].iter().map(|s| s.to_string()).collect();
    assert_eq!(select_devices(&names, &"Speakers".to_string()), vec![0, 2]);
    assert_eq!(select_devices(&names, &"USB".to_string()), vec![3]);
}

#[test]
fn selects_nothing_when_no_name_matches() {
    let names: Vec<String> = vec!["HDMI".to_string()];
    assert!(select_devices(&names, &"hdmi".to_string()).is_empty());
    assert!(select_devices(&Vec::new(), &"HDMI".to_string()).is_empty());
}
