use nvidia_init::check_supported::check_gpu_supported;

fn strings(values: &[&str]) -> Vec<String> {
    values.iter().map(|v| v.to_string()).collect()
}

#[test]
fn all_ids_on_the_list_pass() {
    let ids = strings(&["0x2330", "0x2331"]);
    let allow = strings(&["0x2330", "0x2331", "0x2335"]);
    assert_eq!(check_gpu_supported(&ids, Some(&allow)), true);
}

#[test]
fn one_unlisted_id_fails() {
    let ids = strings(&["1234", "5678"]);
    let allow = strings(&["1234"]);
    assert_eq!(check_gpu_supported(&ids, Some(&allow)), false);
}

#[test]
fn empty_discovery_passes_vacuously() {
    let ids: Vec<String> = Vec::new();
    let allow = strings(&["0x2330"]);
    assert_eq!(check_gpu_supported(&ids, Some(&allow)), true);
    let empty_allow: Vec<String> = Vec::new();
    assert_eq!(check_gpu_supported(&ids, Some(&empty_allow)), true);
}

#[test]
fn missing_allow_list_fails_without_error() {
    let ids = strings(&["0x2330"]);
    assert_eq!(check_gpu_supported(&ids, None), false);
    let no_ids: Vec<String> = Vec::new();
    assert_eq!(check_gpu_supported(&no_ids, None), false);
}

#[test]
fn ids_must_match_lines_verbatim() {
    let ids = strings(&["0x2330"]);
    let allow = strings(&["0x2330 "]);
    assert_eq!(check_gpu_supported(&ids, Some(&allow)), false);
    let allow_exact = strings(&["0x2330"]);
    assert_eq!(check_gpu_supported(&ids, Some(&allow_exact)), true);
}
