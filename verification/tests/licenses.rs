use nearsend::licenses::{
    get_third_party_libs, license_file_names, merge_license, ExpandedRows, ThirdPartyLib,
    LICENSE_FILE_COUNT,
};

#[test]
fn merged_licenses_are_separated_by_a_blank_line() {
    assert_eq!(merge_license(&["MIT text \n\n", "Apache text\n"]), "MIT text\n\nApache text");
    assert_eq!(merge_license(&["only  "]), "only");
    assert_eq!(merge_license(&[]), "");
}

#[test]
fn libraries_carry_their_data() {
    let l = ThirdPartyLib::new("a", "https://x", "MIT", "text".to_string());
    assert_eq!(l.name, "a");
    assert_eq!(l.repository, "https://x");
    assert_eq!(l.license, "MIT");
    assert_eq!(l.license_text, "text");
}

#[test]
fn the_catalog() {
    let names = license_file_names();
    assert_eq!(names.len(), LICENSE_FILE_COUNT);
    assert_eq!(names[0], "gpui-LICENSE-APACHE.txt");
    let texts: Vec<String> = names.iter().map(|n| format!("{}\n", n)).collect();
    let libs = get_third_party_libs(&texts);
    assert_eq!(libs.len(), 35);
    assert_eq!(libs[0].name, "gpui");
    assert_eq!(libs[0].license_text, "gpui-LICENSE-APACHE.txt\n");
    let log = libs.iter().find(|l| l.name == "log").unwrap();
    assert_eq!(log.license, "MIT OR Apache-2.0");
    assert_eq!(log.license_text, "log-LICENSE-MIT.txt\n\nlog-LICENSE-APACHE.txt");
    let rustls = libs.iter().find(|l| l.name == "rustls").unwrap();
    assert_eq!(
        rustls.license_text,
        "rustls-LICENSE-MIT.txt\n\nrustls-LICENSE-APACHE.txt\n\nrustls-LICENSE-ISC.txt"
    );
    assert_eq!(libs[34].name, "rust-embed");
}

#[test]
fn rows_fold_and_unfold() {
    let mut rows = ExpandedRows::new();
    assert!(!rows.is_expanded("serde"));
    rows.toggle_expanded("serde");
    rows.toggle_expanded("tokio");
    assert!(rows.is_expanded("serde"));
    assert!(rows.is_expanded("tokio"));
    rows.toggle_expanded("serde");
    assert!(!rows.is_expanded("serde"));
    assert!(rows.is_expanded("tokio"));
}

#[test]
fn license_files_come_in_catalog_order() {
    let names = license_file_names();
    assert_eq!(names[1], "gpui-component-LICENSE-APACHE.txt");
    assert_eq!(names[2], "gpui-router-LICENSE-MIT.txt");
    assert_eq!(names[45], "rust-embed-LICENSE.txt");
}
