use mod_installer::title::{
    collect_installed, detect_region, filter_installed, is_candidate, region_of_upper, title_ids,
    InstallStorage, EUR_TITLE_ID,
};

fn strings(v: &[&str]) -> Vec<String> {
    v.iter().map(|s| s.to_string()).collect()
}

#[test]
fn storage_roots_and_labels() {
    assert_eq!(InstallStorage::MLC.path(), "storage_mlc/usr/title/0005000e");
    assert_eq!(InstallStorage::USB.path(), "storage_usb/usr/title/0005000e");
    assert_eq!(InstallStorage::MLC.label(), "Console's Storage");
    assert_eq!(InstallStorage::USB.label(), "USB Storage");
    assert_eq!(
        InstallStorage::USB.install_root(EUR_TITLE_ID),
        "storage_usb/usr/title/0005000e/10176A00"
    );
}

#[test]
fn regions_of_known_titles() {
    assert_eq!(region_of_upper("10176A00"), Some("EUR".to_string()));
    assert_eq!(region_of_upper("10176900"), Some("USA".to_string()));
    assert_eq!(region_of_upper("10162B00"), Some("JPN".to_string()));
    assert_eq!(region_of_upper("10176a00"), None);
    assert_eq!(region_of_upper("00000000"), None);
}

#[test]
fn detect_region_ignores_case() {
    assert_eq!(detect_region("10176a00"), Some("EUR".to_string()));
    assert_eq!(detect_region("10162b00"), Some("JPN".to_string()));
    assert_eq!(detect_region("10176900"), Some("USA".to_string()));
    assert_eq!(detect_region("1017690"), None);
}

#[test]
fn candidate_membership() {
    let ids = title_ids();
    assert_eq!(ids, strings(&["10176A00", "10176900", "10162B00"]));
    assert!(is_candidate("10162B00", &ids));
    assert!(!is_candidate("10162b00", &ids));
    assert!(!is_candidate("", &ids));
}

#[test]
fn probe_keeps_matching_entries_in_any_case() {
    let ids = title_ids();
    let listing = strings(&["10176a00", "0005000E", "10162B00", "abc", "10176900", "10176A0"]);
    assert_eq!(filter_installed(&listing, &ids), strings(&["10176a00", "10162B00", "10176900"]));
}

#[test]
fn probe_without_matches_is_empty() {
    let ids = title_ids();
    assert!(filter_installed(&strings(&["x", "10176A01"]), &ids).is_empty());
    assert!(filter_installed(&Vec::new(), &ids).is_empty());
}

#[test]
fn installed_titles_from_both_devices() {
    let mlc = strings(&["10176a00", "zzz"]);
    let usb = strings(&["10162B00"]);
    let titles = collect_installed(&mlc, &usb);
    assert_eq!(titles.len(), 2);
    assert_eq!(titles[0].storage, InstallStorage::MLC);
    assert_eq!(titles[0].title_id, "10176a00");
    assert_eq!(titles[1].storage, InstallStorage::USB);
    assert_eq!(titles[1].title_id, "10162B00");
    assert!(collect_installed(&Vec::new(), &Vec::new()).is_empty());
}
