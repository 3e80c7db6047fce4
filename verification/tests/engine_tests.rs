//! End-to-end exercises of the engine over a real database file.

use econfmanager::interface::InterfaceInstance;
use econfmanager::schema::{
    EnumeratorDescriptor, FieldDescriptor, GroupDescriptor, ValidationKind,
};
use econfmanager::value::{ParameterValue, ParameterValueType};
use econfmanager::database_utils::Status;
use econfmanager::interface::JsonScalar;
use econfmanager::EconfError;

fn field(name: &str, vt: ParameterValueType) -> FieldDescriptor {
    FieldDescriptor {
        name: name.to_string(),
        value_type: vt,
        enumerators: Vec::new(),
        default_value: None,
        validation: ValidationKind::KindNone,
        min: None,
        max: None,
        allowed_values: None,
        title: None,
        comment: None,
        is_const: false,
        runtime: false,
        readonly: false,
        internal: false,
        tags: Vec::new(),
    }
}

/// The demonstration schema: a rate-limited integer, an enum source, a
/// constant version string, a hostname, a blob with a path default and a
/// volatile temperature.
fn demo_schema() -> Vec<GroupDescriptor> {
    let mut max_rate = field("max_rate", ParameterValueType::TypeI32);
    max_rate.default_value = Some(ParameterValue::ValI32(10));
    max_rate.validation = ValidationKind::KindRange;
    max_rate.min = Some(ParameterValue::ValI32(0));
    max_rate.max = Some(ParameterValue::ValI32(100));

    let mut source = field("source", ParameterValueType::TypeEnum("CameraSource".to_string()));
    source.default_value = Some(ParameterValue::ValEnum(0));
    source.enumerators = vec![
        EnumeratorDescriptor { name: "SIMULATOR".to_string(), number: 0 },
        EnumeratorDescriptor { name: "CANON".to_string(), number: 1 },
        EnumeratorDescriptor { name: "NIKON".to_string(), number: 2 },
    ];

    let mut firmware_version = field("firmware_version", ParameterValueType::TypeString);
    firmware_version.default_value = Some(ParameterValue::ValString("1.2.3".to_string()));
    firmware_version.is_const = true;

    let mut hostname = field("hostname", ParameterValueType::TypeString);
    hostname.default_value = Some(ParameterValue::ValString("localhost".to_string()));

    let mut root_bundle = field("root_bundle", ParameterValueType::TypeBlob);
    root_bundle.default_value = Some(ParameterValue::ValPath("certs/roots.pem".to_string()));

    let mut temperature = field("temperature", ParameterValueType::TypeF64);
    temperature.default_value = Some(ParameterValue::ValF64(20.0f64.to_bits()));
    temperature.runtime = true;

    vec![
        GroupDescriptor {
            name: "device".to_string(),
            title: None,
            comment: None,
            fields: vec![max_rate],
        },
        GroupDescriptor {
            name: "camera".to_string(),
            title: None,
            comment: None,
            fields: vec![source],
        },
        GroupDescriptor {
            name: "build".to_string(),
            title: None,
            comment: None,
            fields: vec![firmware_version],
        },
        GroupDescriptor {
            name: "net".to_string(),
            title: None,
            comment: None,
            fields: vec![hostname],
        },
        GroupDescriptor {
            name: "tls".to_string(),
            title: None,
            comment: None,
            fields: vec![root_bundle],
        },
        GroupDescriptor {
            name: "sensor".to_string(),
            title: None,
            comment: None,
            fields: vec![temperature],
        },
    ]
}

fn demo_blob_data() -> Vec<(String, Vec<u8>)> {
    vec![("certs/roots.pem".to_string(), b"demo root certificates".to_vec())]
}

fn open_engine(tag: &str) -> InterfaceInstance {
    let db = format!("/tmp/econf_test_{}.db", tag);
    let saved = format!("/tmp/econf_test_{}_saved.db", tag);
    InterfaceInstance::new(demo_schema(), &db, &saved, &".".to_string(), demo_blob_data())
        .expect("engine must open")
}

fn fresh_engine(tag: &str) -> InterfaceInstance {
    let mut engine = open_engine(tag);
    engine.factory_reset().expect("factory reset must succeed");
    engine
}

const MAX_RATE: usize = 0;
const SOURCE: usize = 1;
const FIRMWARE: usize = 2;
const HOSTNAME: usize = 3;
const ROOT_BUNDLE: usize = 4;
const TEMPERATURE: usize = 5;

#[test]
fn basic_i32_scenario() {
    let mut engine = fresh_engine("basic_i32");
    assert!(matches!(engine.get(MAX_RATE, false), Ok(ParameterValue::ValI32(10))));
    assert_eq!(
        engine.set(MAX_RATE, ParameterValue::ValI32(150)),
        Err(EconfError::ErrValidation)
    );
    assert!(matches!(engine.set(MAX_RATE, ParameterValue::ValI32(42)), Ok(ParameterValue::ValI32(42))));
    assert!(matches!(engine.get(MAX_RATE, false), Ok(ParameterValue::ValI32(42))));

    // a second engine opened on the same files observes the write
    let mut second = open_engine("basic_i32");
    assert!(matches!(second.get(MAX_RATE, false), Ok(ParameterValue::ValI32(42))));
}

#[test]
fn range_edges_accepted() {
    let mut engine = fresh_engine("range_edges");
    assert!(engine.set(MAX_RATE, ParameterValue::ValI32(0)).is_ok());
    assert!(engine.set(MAX_RATE, ParameterValue::ValI32(100)).is_ok());
    assert_eq!(
        engine.set(MAX_RATE, ParameterValue::ValI32(-1)),
        Err(EconfError::ErrValidation)
    );
    assert_eq!(
        engine.set(MAX_RATE, ParameterValue::ValI32(101)),
        Err(EconfError::ErrValidation)
    );
}

#[test]
fn type_mismatch_refused() {
    let mut engine = fresh_engine("type_mismatch");
    assert_eq!(
        engine.set(MAX_RATE, ParameterValue::ValU32(5)),
        Err(EconfError::ErrTypeMismatch)
    );
    assert_eq!(
        engine.set(HOSTNAME, ParameterValue::ValI32(5)),
        Err(EconfError::ErrTypeMismatch)
    );
    assert_eq!(engine.set(99, ParameterValue::ValI32(5)), Err(EconfError::ErrInvalidId));
}

#[test]
fn enum_round_trip_scenario() {
    let mut engine = fresh_engine("enum_round_trip");
    assert!(matches!(engine.get(SOURCE, false), Ok(ParameterValue::ValEnum(0))));
    assert!(engine.set(SOURCE, ParameterValue::ValEnum(1)).is_ok());
    engine.save().expect("save");
    engine.factory_reset().expect("factory reset");
    assert!(matches!(engine.get(SOURCE, false), Ok(ParameterValue::ValEnum(0))));
    engine.load().expect("load");
    assert!(matches!(engine.get(SOURCE, false), Ok(ParameterValue::ValEnum(1))));
}

#[test]
fn enum_membership_validated() {
    let mut engine = fresh_engine("enum_membership");
    assert_eq!(
        engine.set(SOURCE, ParameterValue::ValEnum(7)),
        Err(EconfError::ErrValidation)
    );
    assert!(engine.set(SOURCE, ParameterValue::ValEnum(2)).is_ok());
}

#[test]
fn const_refused_scenario() {
    let mut engine = fresh_engine("const_refused");
    assert_eq!(
        engine.set(FIRMWARE, ParameterValue::ValString("1.2.4".to_string())),
        Err(EconfError::ErrConst)
    );
    match engine.get(FIRMWARE, false) {
        Ok(ParameterValue::ValString(s)) => assert_eq!(s, "1.2.3"),
        other => panic!("unexpected firmware value: {:?}", other),
    }
}

#[test]
fn blob_default_from_path_scenario() {
    let mut engine = fresh_engine("blob_default");
    match engine.get(ROOT_BUNDLE, false) {
        Ok(ParameterValue::ValBlob(bytes)) => {
            assert_eq!(bytes, b"demo root certificates".to_vec())
        },
        other => panic!("unexpected blob value: {:?}", other),
    }
    let random: Vec<u8> = (0..64u8).map(|b| b.wrapping_mul(37).wrapping_add(11)).collect();
    assert!(engine.set(ROOT_BUNDLE, ParameterValue::ValBlob(random.clone())).is_ok());
    match engine.get(ROOT_BUNDLE, false) {
        Ok(ParameterValue::ValBlob(bytes)) => assert_eq!(bytes, random),
        other => panic!("unexpected blob value: {:?}", other),
    }
}

#[test]
fn runtime_filter_scenario() {
    let mut engine = fresh_engine("runtime_filter");
    let written = 37.5f64.to_bits();
    assert!(engine.set(TEMPERATURE, ParameterValue::ValF64(written)).is_ok());
    // a non-runtime neighbour for contrast
    assert!(engine.set(MAX_RATE, ParameterValue::ValI32(55)).is_ok());
    engine.save().expect("save");
    engine.factory_reset().expect("factory reset");
    engine.load().expect("load");
    match engine.get(TEMPERATURE, false) {
        Ok(ParameterValue::ValF64(bits)) => assert_eq!(f64::from_bits(bits), 20.0),
        other => panic!("unexpected temperature: {:?}", other),
    }
    assert!(matches!(engine.get(MAX_RATE, false), Ok(ParameterValue::ValI32(55))));
}

#[test]
fn float_range_ordered_by_value() {
    let mut temperature = field("level", ParameterValueType::TypeF64);
    temperature.default_value = Some(ParameterValue::ValF64(1.0f64.to_bits()));
    temperature.validation = ValidationKind::KindRange;
    temperature.min = Some(ParameterValue::ValF64(0.0f64.to_bits()));
    temperature.max = Some(ParameterValue::ValF64(100.0f64.to_bits()));
    let schema = vec![GroupDescriptor {
        name: "tank".to_string(),
        title: None,
        comment: None,
        fields: vec![temperature],
    }];
    let db = "/tmp/econf_test_float_range.db".to_string();
    let saved = "/tmp/econf_test_float_range_saved.db".to_string();
    let mut engine =
        InterfaceInstance::new(schema, &db, &saved, &".".to_string(), Vec::new()).unwrap();
    engine.factory_reset().unwrap();
    assert!(engine.set(0, ParameterValue::ValF64(37.5f64.to_bits())).is_ok());
    assert_eq!(
        engine.set(0, ParameterValue::ValF64((-1.0f64).to_bits())),
        Err(EconfError::ErrValidation)
    );
    assert_eq!(
        engine.set(0, ParameterValue::ValF64(100.5f64.to_bits())),
        Err(EconfError::ErrValidation)
    );
}

#[test]
fn name_lookup_is_bijective() {
    let engine = fresh_engine("bijective");
    let count = engine.get_parameters_number();
    assert_eq!(count, 6);
    for id in 0..count {
        let name = engine.get_name(id);
        assert_eq!(engine.get_parameter_id_from_name(name), Some(id));
    }
    assert_eq!(engine.get_parameter_id_from_name("device@max_rate".to_string()), Some(0));
    assert_eq!(engine.get_parameter_id_from_name("nowhere@nothing".to_string()), None);
}

#[test]
fn idempotent_set_writes_once() {
    let mut engine = fresh_engine("idempotent");
    // the factory reset owed a notification for every id; drain them
    let _ = engine.take_pending_notifications();
    let value = ParameterValue::ValI32(42);
    assert!(engine.set(MAX_RATE, value).is_ok());
    // the second identical write reports the row unchanged
    let table_entry = &engine.table[MAX_RATE];
    let status = engine
        .database
        .write(table_entry, ParameterValue::ValI32(42), false)
        .expect("write");
    assert!(matches!(status, Status::StatusOkNotChanged(_)));
    // and only the first write owed a notification
    let pending = engine.take_pending_notifications();
    assert_eq!(pending, vec![MAX_RATE]);
}

#[test]
fn callbacks_fire_on_poll() {
    // process A and process B on the same files
    let mut a = fresh_engine("callbacks");
    let mut b = open_engine("callbacks");
    a.add_callback(HOSTNAME, 71).expect("add callback");
    // prime A's view of the store so the poll has something to beat
    let _ = a.update().expect("first update");
    assert!(b.set(HOSTNAME, ParameterValue::ValString("alpha".to_string())).is_ok());
    let changed = a.update().expect("update");
    assert!(changed.contains(&HOSTNAME), "poll must report the changed id: {:?}", changed);
    assert_eq!(a.callback_token(HOSTNAME), Some(71));
    match a.get(HOSTNAME, false) {
        Ok(ParameterValue::ValString(s)) => assert_eq!(s, "alpha"),
        other => panic!("unexpected hostname: {:?}", other),
    }
    a.delete_callback(HOSTNAME).expect("delete callback");
    assert_eq!(a.callback_token(HOSTNAME), None);
}

#[test]
fn notification_invalidates_cache() {
    let mut a = fresh_engine("notify_cache");
    let mut b = open_engine("notify_cache");
    // A caches the default
    assert!(matches!(a.get(MAX_RATE, false), Ok(ParameterValue::ValI32(10))));
    // B writes and its engine queues the datagram A would receive
    assert!(b.set(MAX_RATE, ParameterValue::ValI32(77)).is_ok());
    let pending = b.take_pending_notifications();
    assert_eq!(pending, vec![MAX_RATE]);
    let datagram = econfmanager::notifier::Notifier::new()
        .unwrap()
        .notification_payload(MAX_RATE as u32);
    // without the datagram, A still serves its cache
    assert!(matches!(a.get(MAX_RATE, false), Ok(ParameterValue::ValI32(10))));
    let (id, token) = a.handle_notification(&datagram).expect("well-formed datagram");
    assert_eq!(id, MAX_RATE);
    assert_eq!(token, None);
    assert!(matches!(a.get(MAX_RATE, false), Ok(ParameterValue::ValI32(77))));
}

#[test]
fn malformed_notification_discarded() {
    let mut engine = fresh_engine("malformed");
    let junk = vec![0x99u8, 0x01, 0x02];
    assert_eq!(engine.handle_notification(&junk), Err(EconfError::ErrMalformed));
    // a well-formed datagram for an unknown id is discarded too
    let datagram = econfmanager::notifier::Notifier::new().unwrap().notification_payload(4000);
    assert_eq!(engine.handle_notification(&datagram), Err(EconfError::ErrMalformed));
}

#[test]
fn set_from_string_converts_each_type() {
    let mut engine = fresh_engine("from_string");
    assert!(matches!(
        engine.set_from_string(MAX_RATE, "42"),
        Ok(ParameterValue::ValI32(42))
    ));
    assert!(matches!(
        engine.set_from_string(SOURCE, "2"),
        Ok(ParameterValue::ValEnum(2))
    ));
    assert!(matches!(
        engine.set_from_string(HOSTNAME, "beta"),
        Ok(ParameterValue::ValString(s)) if s == "beta"
    ));
    assert!(matches!(
        engine.set_from_string(ROOT_BUNDLE, "aGVsbG8="),
        Ok(ParameterValue::ValBlob(b)) if b == b"hello".to_vec()
    ));
    assert_eq!(
        engine.set_from_string(MAX_RATE, "not a number"),
        Err(EconfError::ErrTypeMismatch)
    );
    assert_eq!(
        engine.set_from_string(TEMPERATURE, "37.5"),
        Err(EconfError::ErrUnsupported)
    );
    // the converted value flows into set as the write surfaces do it
    let converted = engine.set_from_string(MAX_RATE, "55").unwrap();
    assert!(matches!(engine.set(MAX_RATE, converted), Ok(ParameterValue::ValI32(55))));
}

#[test]
fn set_from_json_converts_each_type() {
    let engine = fresh_engine("from_json");
    let n42 = JsonScalar::JsNumber {
        int_val: Some(42),
        uint_val: Some(42),
        float_bits: Some(42.0f64.to_bits()),
    };
    assert!(matches!(engine.set_from_json(MAX_RATE, &n42), Ok(ParameterValue::ValI32(42))));
    assert!(matches!(
        engine.set_from_json(HOSTNAME, &JsonScalar::JsText("gamma".to_string())),
        Ok(ParameterValue::ValString(s)) if s == "gamma"
    ));
    assert!(matches!(
        engine.set_from_json(TEMPERATURE, &n42),
        Ok(ParameterValue::ValF64(bits)) if f64::from_bits(bits) == 42.0
    ));
    assert_eq!(
        engine.set_from_json(MAX_RATE, &JsonScalar::JsBool(true)),
        Err(EconfError::ErrTypeMismatch)
    );
}

#[test]
fn metadata_getters_report_the_schema() {
    let engine = fresh_engine("metadata");
    assert_eq!(engine.get_name(MAX_RATE), "device@max_rate");
    assert_eq!(engine.get_group(MAX_RATE), "device");
    assert_eq!(engine.get_type_string(MAX_RATE), "I32");
    assert_eq!(engine.get_type_string(SOURCE), "I32");
    assert_eq!(engine.get_type_string(ROOT_BUNDLE), "Blob");
    assert!(engine.is_const(FIRMWARE));
    assert!(!engine.is_const(MAX_RATE));
    assert!(engine.is_runtime(TEMPERATURE));
    assert!(!engine.is_readonly(MAX_RATE));
    assert!(!engine.is_internal(MAX_RATE));
    // titles default to the field name, comments to empty
    assert_eq!(engine.get_title(MAX_RATE), "max_rate");
    assert_eq!(engine.get_comment(MAX_RATE), "");
    let names = engine.get_parameter_names();
    assert_eq!(names[SOURCE], "camera@source");
    let groups = engine.get_groups();
    assert_eq!(groups.len(), 6);
    assert_eq!(groups[0].0, "device");
    assert_eq!(groups[0].1, "device");
}

#[test]
fn validation_json_renders_rules() {
    let engine = fresh_engine("validation_json");
    assert_eq!(
        engine.get_validation_json(MAX_RATE).unwrap(),
        "{\"range\":{\"min\":\"0\",\"max\":\"100\"}}"
    );
    assert_eq!(engine.get_validation_json(HOSTNAME).unwrap(), "\"none\"");
    assert_eq!(
        engine.get_validation_json(SOURCE).unwrap(),
        "{\"allowed_values\":[{\"value\":\"0\",\"name\":\"SIMULATOR\"},{\"value\":\"1\",\"name\":\"CANON\"},{\"value\":\"2\",\"name\":\"NIKON\"}]}"
    );
}

#[test]
fn engine_open_fails_on_unusable_paths() {
    let schema = demo_schema();
    let db = "/tmp/econf_test_no_dir/impossible/x.db".to_string();
    let saved = "/tmp/econf_test_no_dir/impossible/y.db".to_string();
    let engine = InterfaceInstance::new(schema, &db, &saved, &".".to_string(), demo_blob_data());
    assert!(engine.is_err());
}

#[test]
fn save_twice_then_load_keeps_latest() {
    let mut engine = fresh_engine("save_twice");
    assert!(engine.set(MAX_RATE, ParameterValue::ValI32(11)).is_ok());
    engine.save().expect("first save");
    assert!(engine.set(MAX_RATE, ParameterValue::ValI32(22)).is_ok());
    // the second save starts from a freshly emptied snapshot
    engine.save().expect("second save");
    engine.factory_reset().expect("factory reset");
    engine.load().expect("load");
    assert!(matches!(engine.get(MAX_RATE, false), Ok(ParameterValue::ValI32(22))));
}

#[test]
fn force_refresh_rereads_the_store() {
    let mut a = fresh_engine("force_refresh");
    let mut b = open_engine("force_refresh");
    assert!(matches!(a.get(MAX_RATE, false), Ok(ParameterValue::ValI32(10))));
    assert!(b.set(MAX_RATE, ParameterValue::ValI32(33)).is_ok());
    // the plain read serves the stale cache; the forced one goes to disk
    assert!(matches!(a.get(MAX_RATE, false), Ok(ParameterValue::ValI32(10))));
    assert!(matches!(a.get(MAX_RATE, true), Ok(ParameterValue::ValI32(33))));
}
