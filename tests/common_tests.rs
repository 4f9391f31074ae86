use maec::common::{
    extract_type_from_id, generate_maec_id, is_valid_maec_id, is_valid_ref_for_type,
    CommonProperties, ExternalReference, MaecObject,
};
use maec::Timestamp;

#[test]
fn test_generate_maec_id() {
    let id = generate_maec_id("malware-family");
    assert!(id.starts_with("malware-family--"));
    assert!(is_valid_maec_id(&id));
}

#[test]
fn test_is_valid_maec_id() {
    assert!(is_valid_maec_id(
        "malware-family--550e8400-e29b-41d4-a716-446655440000"
    ));
    assert!(is_valid_maec_id(
        "package--12345678-1234-1234-1234-123456789abc"
    ));
    assert!(!is_valid_maec_id("invalid"));
    assert!(!is_valid_maec_id("malware-family"));
    assert!(!is_valid_maec_id("malware-family-no-uuid"));
}

#[test]
fn test_extract_type_from_id() {
    assert_eq!(
        extract_type_from_id("malware-family--550e8400-e29b-41d4-a716-446655440000"),
        Some("malware-family")
    );
    assert_eq!(
        extract_type_from_id("package--12345678-1234-1234-1234-123456789abc"),
        Some("package")
    );
    assert_eq!(extract_type_from_id("invalid"), None);
}

#[test]
fn test_is_valid_ref_for_type() {
    assert!(is_valid_ref_for_type(
        "malware-family--550e8400-e29b-41d4-a716-446655440000",
        "malware-family"
    ));
    assert!(!is_valid_ref_for_type(
        "package--550e8400-e29b-41d4-a716-446655440000",
        "malware-family"
    ));
}

#[test]
fn test_common_properties_new() {
    let common = CommonProperties::new("malware-family", None);
    assert_eq!(common.type_, "malware-family");
    assert_eq!(common.schema_version, Some("5.0".to_string()));
    assert!(common.id.starts_with("malware-family--"));
}

#[test]
fn test_new_version() {
    let mut common = CommonProperties::new("malware-family", None);
    let created_before = common.created;
    let modified_before = common.modified;

    // wait until the clock has moved on
    let mut later = common.modified;
    let mut spins: u64 = 0;
    while later == modified_before && spins < 100_000_000 {
        let probe = CommonProperties::new("clock", None);
        later = probe.created;
        spins += 1;
    }
    common.new_version();

    assert_eq!(common.created, created_before);
    assert!(
        (common.modified.secs, common.modified.nanos)
            > (modified_before.secs, modified_before.nanos)
    );
}

#[test]
fn test_external_reference_attack() {
    let ref_obj = ExternalReference::attack_technique("T1055", "Process Injection");
    assert_eq!(ref_obj.source_name, "mitre-attack");
    assert_eq!(ref_obj.external_id, Some("T1055".to_string()));
    assert!(ref_obj.url.unwrap().contains("T1055"));
}

#[test]
fn attack_technique_fills_every_field() {
    let r = ExternalReference::attack_technique("T1055", "Process Injection");
    assert_eq!(r.description, Some("Process Injection".to_string()));
    assert_eq!(
        r.url,
        Some("https://attack.mitre.org/techniques/T1055".to_string())
    );
}

#[test]
fn external_reference_new_holds_only_source() {
    let r = ExternalReference::new("cve");
    assert_eq!(r.source_name, "cve");
    assert!(r.description.is_none() && r.url.is_none() && r.external_id.is_none());
}

#[test]
fn generated_ids_validate_and_give_back_their_kind() {
    for kind in ["package", "malware-family", "behavior", "x", "a-b-c", "-lead"] {
        let id = generate_maec_id(kind);
        assert!(is_valid_maec_id(&id), "{}", id);
        assert_eq!(extract_type_from_id(&id), Some(kind));
        assert_eq!(id.chars().count(), kind.chars().count() + 2 + 36);
    }
}

#[test]
fn generated_ids_differ() {
    let a = generate_maec_id("package");
    let b = generate_maec_id("package");
    assert_ne!(a, b);
}

#[test]
fn kind_ending_in_hyphen_does_not_round_trip() {
    let id = generate_maec_id("trailing-");
    assert!(!is_valid_maec_id(&id));
    assert_eq!(extract_type_from_id(&id), None);
}

#[test]
fn malformed_ids_are_rejected() {
    assert!(!is_valid_maec_id("invalid"));
    assert!(!is_valid_maec_id("malware-family"));
    assert!(!is_valid_maec_id("malware-family--not-a-uuid"));
    assert!(!is_valid_maec_id("--550e8400-e29b-41d4-a716-446655440000"));
    assert!(!is_valid_maec_id("a--b--550e8400-e29b-41d4-a716-446655440000"));
    assert!(!is_valid_maec_id("a---550e8400-e29b-41d4-a716-446655440000"));
    assert!(!is_valid_maec_id("package--550e8400-e29b-41d4-a716-44665544000"));
    assert!(!is_valid_maec_id("package--550e8400-e29b-41d4-a716-44665544000g"));
    assert!(!is_valid_maec_id(""));
}

#[test]
fn every_uuid_form_is_accepted() {
    assert!(is_valid_maec_id("package--550E8400-E29B-41D4-A716-446655440000"));
    assert!(is_valid_maec_id("package--550e8400e29b41d4a716446655440000"));
    assert!(is_valid_maec_id("package--{550e8400-e29b-41d4-a716-446655440000}"));
    assert!(is_valid_maec_id("package--urn:uuid:550e8400-e29b-41d4-a716-446655440000"));
    assert!(is_valid_maec_id("package--URN:UUID:550e8400-e29b-41d4-a716-446655440000"));
    assert!(is_valid_maec_id("a-b--550e8400-e29b-41d4-a716-446655440000"));
}

#[test]
fn generated_reference_matches_only_its_kind() {
    let id = generate_maec_id("package");
    assert!(is_valid_ref_for_type(&id, "package"));
    assert!(!is_valid_ref_for_type(&id, "malware-family"));
    assert!(!is_valid_ref_for_type("invalid", "invalid"));
}

#[test]
fn fresh_header_has_one_clock_reading() {
    let common = CommonProperties::new("behavior", Some("identity--x".to_string()));
    assert_eq!(common.created, common.modified);
    assert!(common.created.nanos < 1_000_000_000);
    assert!(common.created.secs > 1_600_000_000);
    assert_eq!(common.created_by_ref, Some("identity--x".to_string()));
    assert!(common.custom_properties.is_empty());
    assert_eq!(common.id(), common.id.as_str());
    assert_eq!(common.type_(), "behavior");
    assert_eq!(MaecObject::created(&common), common.created);
}

#[test]
fn default_header_has_empty_kind() {
    let common = CommonProperties::default();
    assert_eq!(common.type_, "");
    assert!(common.id.starts_with("object--"));
    assert!(is_valid_maec_id(&common.id));
    assert_eq!(common.schema_version, Some("5.0".to_string()));
}

#[test]
fn versions_keep_identity_and_advance() {
    let mut common = CommonProperties::new("malware-family", None);
    let id = common.id.clone();
    let created = common.created;
    let t1 = Timestamp::from_unix(created.secs + 10, 0);
    let t2 = Timestamp::from_unix(created.secs + 10, 5);
    common.new_version_at(t1);
    assert_eq!(common.modified, t1);
    common.new_version_at(t2);
    assert_eq!(common.modified, t2);
    assert_eq!(common.id, id);
    assert_eq!(common.created, created);
    assert_eq!(common.type_, "malware-family");
}
