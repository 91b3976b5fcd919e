use nvidia_init::get_devices::get_gpu_devices;
use nvidia_init::get_devices::PciDeviceInfo;

fn device(bus_address: &str, vendor: &str, class: &str, device_id: &str) -> PciDeviceInfo {
    PciDeviceInfo {
        bus_address: bus_address.to_string(),
        vendor: vendor.to_string(),
        class: class.to_string(),
        device_id: device_id.to_string(),
    }
}

#[test]
fn enumeration_keeps_exactly_the_matching_devices() {
    let devices = vec![
        device("0000:01:00.0", "0x10de", "0x030000", "1234"),
        device("0000:02:00.0", "0x10de", "0x030200", "5678"),
        device("0000:03:00.0", "0x1234", "0x567800", "abcd"),
    ];
    let (gpu_bdfs, gpu_device_ids) = get_gpu_devices(&devices);

    assert_eq!(gpu_bdfs.len(), 2);
    assert!(gpu_bdfs.contains(&"0000:01:00.0".to_string()));
    assert!(gpu_bdfs.contains(&"0000:02:00.0".to_string()));

    assert_eq!(gpu_device_ids.len(), 2);
    assert!(gpu_device_ids.contains(&"1234".to_string()));
    assert!(gpu_device_ids.contains(&"5678".to_string()));
}

#[test]
fn enumeration_is_index_aligned_and_ordered() {
    let devices = vec![
        device("0000:41:00.0", "0x10de", "0x030200", "0x2330"),
        device("0000:03:00.0", "0x8086", "0x060000", "0x1237"),
        device("0000:61:00.0", "0x10de", "0x030200", "0x2331"),
    ];
    let (gpu_bdfs, gpu_device_ids) = get_gpu_devices(&devices);
    assert_eq!(gpu_bdfs, vec!["0000:41:00.0".to_string(), "0000:61:00.0".to_string()]);
    assert_eq!(gpu_device_ids, vec!["0x2330".to_string(), "0x2331".to_string()]);
}

#[test]
fn descriptor_values_are_trimmed() {
    let devices = vec![device("0000:01:00.0", "0x10de\n", "  0x030000\n", "\t0x2330\n")];
    let (gpu_bdfs, gpu_device_ids) = get_gpu_devices(&devices);
    assert_eq!(gpu_bdfs, vec!["0000:01:00.0".to_string()]);
    assert_eq!(gpu_device_ids, vec!["0x2330".to_string()]);
}

#[test]
fn wrong_vendor_or_class_is_excluded() {
    let devices = vec![
        device("0000:01:00.0", "0x10df", "0x030000", "1111"),
        device("0000:02:00.0", "0x10de", "0x020000", "2222"),
        device("0000:03:00.0", "", "", ""),
    ];
    let (gpu_bdfs, gpu_device_ids) = get_gpu_devices(&devices);
    assert!(gpu_bdfs.is_empty());
    assert!(gpu_device_ids.is_empty());
}

#[test]
fn no_devices_is_a_valid_result() {
    let devices: Vec<PciDeviceInfo> = Vec::new();
    let (gpu_bdfs, gpu_device_ids) = get_gpu_devices(&devices);
    assert!(gpu_bdfs.is_empty());
    assert!(gpu_device_ids.is_empty());
}
