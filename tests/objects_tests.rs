use maec::objects::package::resolve_object_kind;
use maec::vocab_large::Behavior as BehaviorName;
use maec::{
    Behavior, Capability, Collection, CommonProperties, DeliveryVector, ExternalReference,
    FieldData, MaecError, MaecObject, MaecObjectType, MalwareAction, MalwareFamily,
    MalwareInstance, MalwareLabel, Name, ObjectKind, Package, ProcessorArchitecture,
    Relationship, ShapeMatches, Timestamp,
};

const UUID: &str = "550e8400-e29b-41d4-a716-446655440000";

#[test]
fn test_package_new() {
    let package = Package::new();
    assert_eq!(package.common.type_, "package");
    assert_eq!(package.common.schema_version, Some("5.0".to_string()));
    assert!(package.common.id.starts_with("package--"));
}

#[test]
fn test_package_builder() {
    let package = Package::builder().schema_version("5.0").build().unwrap();
    assert_eq!(package.common.type_, "package");
    assert_eq!(package.common.schema_version, Some("5.0".to_string()));
}

#[test]
fn test_name_new() {
    let name = Name::new("WannaCry");
    assert_eq!(name.value, "WannaCry");
    assert!(name.source.is_none());
    assert!(name.confidence.is_none());
}

#[test]
fn test_name_from_string() {
    let name: Name = "Emotet".into();
    assert_eq!(name.value, "Emotet");
}

#[test]
fn test_field_data_builder() {
    let field_data = FieldData::builder()
        .add_delivery_vector("email")
        .first_seen(Timestamp::from_unix(1_700_000_000, 0))
        .build()
        .unwrap();

    assert!(field_data.delivery_vectors.is_some());
    assert!(field_data.first_seen.is_some());
}

#[test]
fn test_field_data_validation() {
    let result = FieldData::builder().build();
    assert!(result.is_err());

    let valid = FieldData::builder().add_delivery_vector("email").build();
    assert!(valid.is_ok());
}

#[test]
fn empty_field_data_is_a_validation_error() {
    match FieldData::builder().build() {
        Err(MaecError::ValidationError(m)) => assert_eq!(
            m,
            "FieldData must have at least one of: delivery_vectors, first_seen, or last_seen"
        ),
        other => panic!("unexpected {:?}", other),
    }
}

#[test]
fn field_data_builder_keeps_parts_in_order() {
    let t = Timestamp::from_unix(1_600_000_000, 7);
    let f = FieldData::builder()
        .add_delivery_vector("email")
        .add_delivery_vector("usb")
        .last_seen(t)
        .build()
        .unwrap();
    assert_eq!(
        f.delivery_vectors,
        Some(vec!["email".to_string(), "usb".to_string()])
    );
    assert_eq!(f.first_seen, None);
    assert_eq!(f.last_seen, Some(t));
    let g = FieldData::builder().delivery_vectors(vec!["x".to_string()]).build().unwrap();
    assert_eq!(g, FieldData::with_delivery_vectors(vec!["x".to_string()]));
    let h = FieldData::with_timestamps(t, None);
    assert_eq!(h.first_seen, Some(t));
    assert!(h.delivery_vectors.is_none() && h.last_seen.is_none());
}

#[test]
fn name_constructors_fill_source_and_confidence() {
    let src = ExternalReference::new("vendor");
    let a = Name::with_source("Zeus", src.clone());
    assert_eq!(a.source, Some(src.clone()));
    assert!(a.confidence.is_none());
    let b = Name::with_confidence("Zeus", src.clone(), "high");
    assert_eq!(b.confidence, Some("high".to_string()));
    let c: Name = String::from("Zeus").into();
    assert_eq!(c, Name::new("Zeus"));
}

#[test]
fn package_holds_family_and_behavior() {
    let behavior = Behavior::builder()
        .name(BehaviorName::CheckForPayload)
        .description("Test behavior")
        .build()
        .unwrap();
    let family = MalwareFamily::builder()
        .name(Name::new("TestMalware"))
        .description("Test malware family")
        .build()
        .unwrap();
    let pkg = Package::builder()
        .add_malware_family(family)
        .add_behavior(behavior)
        .build()
        .unwrap();
    assert_eq!(pkg.behaviors().len(), 1);
    assert_eq!(pkg.malware_families().len(), 1);
    assert_eq!(pkg.malware_instances().len(), 0);
    assert_eq!(pkg.malware_actions().len(), 0);
    assert_eq!(pkg.malware_families()[0].name.value, "TestMalware");
    assert_eq!(pkg.behaviors()[0].description, Some("Test behavior".to_string()));
    assert!(pkg.validate().is_ok());
}

#[test]
fn views_keep_order_and_skip_other_kinds() {
    let f1 = MalwareFamily::builder().name(Name::new("one")).build().unwrap();
    let f2 = MalwareFamily::builder().name(Name::new("two")).build().unwrap();
    let inst = MalwareInstance::builder()
        .add_instance_object_ref("file--1")
        .add_architecture(ProcessorArchitecture::X8664)
        .build()
        .unwrap();
    let pkg = Package::builder()
        .add_malware_family(f1)
        .add_object(MaecObjectType::Collection(Collection::new()))
        .add_malware_instance(inst)
        .add_malware_action(MalwareAction::new("create-file"))
        .add_malware_family(f2)
        .build()
        .unwrap();
    let fams = pkg.malware_families();
    assert_eq!(fams.len(), 2);
    assert_eq!(fams[0].name.value, "one");
    assert_eq!(fams[1].name.value, "two");
    assert_eq!(pkg.malware_instances().len(), 1);
    assert_eq!(pkg.malware_actions()[0].name, "create-file");
    assert_eq!(pkg.maec_objects.len(), 5);
    assert!(matches!(pkg.maec_objects[1], MaecObjectType::Collection(_)));
}

#[test]
fn package_with_malformed_id_fails() {
    let r = Package::builder().id("package-notauuid").build();
    assert_eq!(r, Err(MaecError::InvalidId("package-notauuid".to_string())));
}

#[test]
fn package_with_given_valid_id_keeps_it() {
    let id = format!("package--{}", UUID);
    let p = Package::builder().id(&id).build().unwrap();
    assert_eq!(p.common.id, id);
    assert_eq!(p.id(), id.as_str());
}

#[test]
fn package_with_other_schema_version_fails() {
    let r = Package::builder().schema_version("4.1").id("bad").build();
    assert_eq!(
        r,
        Err(MaecError::ValidationError(
            "schema_version must be '5.0', got '4.1'".to_string()
        ))
    );
}

#[test]
fn package_validate_checks_kind_then_version_then_id() {
    let mut p = Package::new();
    p.common.schema_version = None;
    assert_eq!(
        p.validate(),
        Err(MaecError::ValidationError(
            "schema_version must be '5.0', got none".to_string()
        ))
    );
    p.common.type_ = "bundle".to_string();
    assert_eq!(
        p.validate(),
        Err(MaecError::ValidationError(
            "type must be 'package', got 'bundle'".to_string()
        ))
    );
    let mut q = Package::default();
    q.common.id = "nope".to_string();
    assert_eq!(q.validate(), Err(MaecError::InvalidId("nope".to_string())));
}

#[test]
fn relationship_without_kind_check_builds() {
    let source = format!("behavior--{}", UUID);
    let target = format!("malware-family--{}", UUID);
    let r = Relationship::builder()
        .source_ref(&source)
        .target_ref(&target)
        .relationship_type("derived-from")
        .build()
        .unwrap();
    assert_eq!(r.source_ref, source);
    assert_eq!(r.target_ref, target);
    assert_eq!(r.relationship_type, "derived-from");
    assert_eq!(r.common.type_, "relationship");
    assert!(r.validate().is_ok());
}

#[test]
fn relationship_missing_fields_in_order() {
    assert_eq!(
        Relationship::builder().build().unwrap_err(),
        MaecError::MissingField("source_ref")
    );
    assert_eq!(
        Relationship::builder().source_ref("a").build().unwrap_err(),
        MaecError::MissingField("target_ref")
    );
    assert_eq!(
        Relationship::builder().source_ref("a").target_ref("b").build().unwrap_err(),
        MaecError::MissingField("relationship_type")
    );
}

#[test]
fn relationship_references_must_be_identifiers() {
    let good = format!("behavior--{}", UUID);
    let r = Relationship::builder()
        .source_ref("not-an-id")
        .target_ref(&good)
        .relationship_type("uses")
        .build();
    assert_eq!(r.unwrap_err(), MaecError::InvalidId("not-an-id".to_string()));
    let r = Relationship::builder()
        .source_ref(&good)
        .target_ref("nope")
        .relationship_type("uses")
        .description("d")
        .build();
    assert_eq!(r.unwrap_err(), MaecError::InvalidId("nope".to_string()));
    let r = Relationship::builder()
        .id("rel")
        .source_ref(&good)
        .target_ref(&good)
        .relationship_type("uses")
        .build();
    assert_eq!(r.unwrap_err(), MaecError::InvalidId("rel".to_string()));
    let plain = Relationship::new("a", "uses", "b");
    assert_eq!(plain.validate(), Err(MaecError::InvalidId("a".to_string())));
}

#[test]
fn behavior_builder_needs_a_name_and_a_valid_id() {
    assert_eq!(
        Behavior::builder().build().unwrap_err(),
        MaecError::MissingField("name")
    );
    assert_eq!(
        Behavior::builder().name(BehaviorName::CaptureScreen).id("x").build().unwrap_err(),
        MaecError::InvalidId("x".to_string())
    );
    let b = Behavior::builder()
        .name(BehaviorName::CaptureScreen)
        .add_action_ref("malware-action--1")
        .add_technique_ref(ExternalReference::attack_technique("T1113", "Screen Capture"))
        .timestamp(Timestamp::from_unix(5, 6))
        .build()
        .unwrap();
    assert_eq!(b.action_refs, vec!["malware-action--1".to_string()]);
    assert_eq!(b.technique_refs.len(), 1);
    assert_eq!(b.timestamp, Some(Timestamp::from_unix(5, 6)));
    assert!(b.common.id.starts_with("behavior--"));
}

#[test]
fn behavior_validate_reports_wrong_kind() {
    let mut b = Behavior::new(BehaviorName::DetectDebugging);
    assert!(b.validate().is_ok());
    b.common.type_ = "action".to_string();
    assert_eq!(
        b.validate(),
        Err(MaecError::ValidationError(
            "type must be 'behavior', got 'action'".to_string()
        ))
    );
}

#[test]
fn collection_builder_and_validation() {
    let c = Collection::builder().name("set").description("d").build().unwrap();
    assert_eq!(c.name, Some("set".to_string()));
    assert_eq!(c.common.type_, "collection");
    assert_eq!(
        Collection::builder().id("c").build().unwrap_err(),
        MaecError::InvalidId("c".to_string())
    );
    let id = format!("collection--{}", UUID);
    assert_eq!(Collection::builder().id(&id).build().unwrap().common.id, id);
    assert!(Collection::default().validate().is_ok());
}

#[test]
fn capability_builder_needs_a_name() {
    assert_eq!(
        Capability::builder().build().unwrap_err(),
        MaecError::MissingField("name")
    );
    let c = Capability::builder()
        .name("persistence")
        .description("stays")
        .add_refined_capability(Capability::new("autorun"))
        .add_behavior_ref("behavior--1")
        .add_reference(ExternalReference::new("mitre-attack"))
        .build()
        .unwrap();
    assert_eq!(c.name, "persistence");
    assert_eq!(c.refined_capabilities[0].name, "autorun");
    assert_eq!(c.behavior_refs, vec!["behavior--1".to_string()]);
}

#[test]
fn family_and_instance_builders() {
    assert_eq!(
        MalwareFamily::builder().build().unwrap_err(),
        MaecError::MissingField("name")
    );
    assert_eq!(
        MalwareFamily::builder().name(Name::new("x")).id("y").build().unwrap_err(),
        MaecError::InvalidId("y".to_string())
    );
    let f = MalwareFamily::builder()
        .name(Name::new("WannaCry"))
        .add_label("ransomware")
        .add_alias(Name::new("WCry"))
        .add_common_behavior_ref("behavior--1")
        .add_common_capability(Capability::new("encrypt"))
        .add_reference(ExternalReference::new("vendor"))
        .field_data(FieldData::with_delivery_vectors(vec!["email".to_string()]))
        .build()
        .unwrap();
    assert_eq!(f.labels, vec!["ransomware".to_string()]);
    assert_eq!(f.aliases[0].value, "WCry");
    assert_eq!(f.common.type_(), "malware-family");
    assert_eq!(
        MalwareInstance::builder().name(Name::new("x")).build().unwrap_err(),
        MaecError::MissingField("instance_object_refs")
    );
    let i = MalwareInstance::builder()
        .add_instance_object_ref("file--1")
        .name(Name::new("sample"))
        .add_label("bot")
        .add_alias(Name::new("s"))
        .description("d")
        .add_capability(Capability::new("c"))
        .build()
        .unwrap();
    assert_eq!(i.instance_object_refs, vec!["file--1".to_string()]);
    assert_eq!(i.common.type_, "malware-instance");
}

#[test]
fn malware_action_header() {
    let a = MalwareAction::new("create-file");
    assert_eq!(a.common.type_, "malware-action");
    assert!(a.validate().is_ok());
    assert!(a.is_successful.is_none());
}

#[test]
fn record_accessors_report_header() {
    let c = Collection::new();
    assert_eq!(c.id(), c.common.id.as_str());
    assert_eq!(c.type_(), "collection");
    assert_eq!(MaecObject::created(&c), c.common.created);
    let h = CommonProperties::new("x", None);
    assert_eq!(h.type_(), "x");
}

#[test]
fn resolver_takes_first_fitting_kind() {
    let none = ShapeMatches {
        behavior: false,
        collection: false,
        malware_action: false,
        malware_family: false,
        malware_instance: false,
    };
    assert_eq!(resolve_object_kind(&none), None);
    let m = ShapeMatches { collection: true, malware_family: true, ..none };
    assert_eq!(resolve_object_kind(&m), Some(ObjectKind::Collection));
    let m = ShapeMatches { malware_instance: true, ..none };
    assert_eq!(resolve_object_kind(&m), Some(ObjectKind::MalwareInstance));
    let all = ShapeMatches {
        behavior: true,
        collection: true,
        malware_action: true,
        malware_family: true,
        malware_instance: true,
    };
    assert_eq!(resolve_object_kind(&all), Some(ObjectKind::Behavior));
}

#[test]
fn vocabulary_wire_names() {
    assert_eq!(DeliveryVector::EmailAttachment.as_ref(), "email-attachment");
    assert_eq!(MalwareLabel::Ransomware.as_ref(), "ransomware");
    assert_eq!(MalwareLabel::TrojanHorse.as_ref(), "trojan-horse");
    assert_eq!(BehaviorName::CheckForPayload.as_str(), "check-for-payload");
}
