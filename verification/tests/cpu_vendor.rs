use nvidia_init::cpu_vendor::query_cpu_vendor;

fn strings(values: &[&str]) -> Vec<String> {
    values.iter().map(|v| v.to_string()).collect()
}

#[test]
fn amd_vendor_string_detected() {
    let lines = strings(&["processor\t: 0", "vendor_id\t: AuthenticAMD", "model name\t: x"]);
    assert_eq!(query_cpu_vendor(&lines).unwrap(), "amd");
}

#[test]
fn intel_vendor_string_detected() {
    let lines = strings(&["processor\t: 0", "vendor_id\t: GenuineIntel"]);
    assert_eq!(query_cpu_vendor(&lines).unwrap(), "intel");
}

#[test]
fn arm_implementer_code_detected() {
    let lines = strings(&["processor\t: 0", "CPU implementer\t: 0x41"]);
    assert_eq!(query_cpu_vendor(&lines).unwrap(), "arm");
}

#[test]
fn implementer_line_needs_the_arm_code() {
    let lines = strings(&["CPU implementer\t: 0x46"]);
    assert!(query_cpu_vendor(&lines).is_err());
}

#[test]
fn unknown_vendor_is_an_error() {
    let lines = strings(&["processor\t: 0", "model name\t: mystery"]);
    assert!(query_cpu_vendor(&lines).is_err());
    let empty: Vec<String> = Vec::new();
    assert!(query_cpu_vendor(&empty).is_err());
}

#[test]
fn first_matching_line_decides() {
    let lines = strings(&["vendor_id\t: GenuineIntel", "vendor_id\t: AuthenticAMD"]);
    assert_eq!(query_cpu_vendor(&lines).unwrap(), "intel");
}
