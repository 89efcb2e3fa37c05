use config_stack::decode::{extensions, is_supported_extension};
use config_stack::docs::{FieldDoc, TypeDocs};
use config_stack::error::ConfigError;
use config_stack::registry::{Registry, RegistryError};
use config_stack::vehicle::{decode_vehicle, vehicle_from_fields, VehicleConfig};

#[test]
fn decode_full_map() {
    let bytes = b"{\"max_speed\": 130, \"acceleration\": 7, \"turn_speed\": 3}";
    let decoded = decode_vehicle(bytes).expect("well-formed payload");
    assert_eq!(
        decoded,
        VehicleConfig { max_speed: 130, acceleration: 7, turn_speed: 3 }
    );
}

#[test]
fn decode_twice_same_bytes() {
    let bytes = b"{\"max_speed\": 42, \"acceleration\": 1, \"turn_speed\": 2}";
    let first = decode_vehicle(bytes);
    let second = decode_vehicle(bytes);
    assert_eq!(first.unwrap(), second.unwrap());

    let bad = b"{\"max_speed\": ";
    assert!(decode_vehicle(bad).is_err());
    assert!(decode_vehicle(bad).is_err());
}

#[test]
fn decode_missing_field() {
    let bytes = b"{\"max_speed\": 130, \"acceleration\": 7}";
    let err = decode_vehicle(bytes).expect_err("turn_speed is missing");
    assert_eq!(err.line, 0);
    assert_eq!(err.col, 0);
    assert_eq!(
        err.message,
        "expected fields max_speed, acceleration and turn_speed"
    );
}

#[test]
fn decode_syntax_error_has_position() {
    let bytes = b"{\"max_speed\": what}";
    let err = decode_vehicle(bytes).expect_err("not a map of integers");
    assert!(err.line >= 1);
    assert!(!err.message.is_empty());
}

#[test]
fn first_field_occurrence_wins() {
    let fields = vec![
        ("max_speed".to_string(), 11),
        ("acceleration".to_string(), 2),
        ("max_speed".to_string(), 99),
        ("turn_speed".to_string(), 3),
    ];
    let v = vehicle_from_fields(&fields).expect("all fields present");
    assert_eq!(v.max_speed, 11);
}

#[test]
fn extension_allow_list() {
    assert!(is_supported_extension("ron"));
    assert!(is_supported_extension("config"));
    assert!(is_supported_extension("cfg"));
    assert!(!is_supported_extension("txt"));
    assert!(!is_supported_extension(""));
    let exts = extensions();
    assert_eq!(exts, vec!["ron".to_string(), "config".to_string(), "cfg".to_string()]);
}

#[test]
fn duplicate_registration_rejected() {
    let mut registry = Registry::new();
    assert!(registry.register(1, "cfg/vehicle.ron".to_string()).is_ok());
    assert_eq!(
        registry.register(1, "cfg/other.ron".to_string()),
        Err(RegistryError::DuplicateType)
    );
    assert!(registry.register(2, "cfg/other.ron".to_string()).is_ok());
    assert_eq!(registry.location_of(1), Some(&"cfg/vehicle.ron".to_string()));
    assert_eq!(registry.location_of(2), Some(&"cfg/other.ron".to_string()));
    assert_eq!(registry.location_of(3), None);
}

#[test]
fn render_docs_for_asset_type() {
    let docs = TypeDocs {
        name: "VehicleConfig".to_string(),
        doc_lines: vec!["Vehicle tuning values.".to_string()],
        path: "cfg/vehicle.ron".to_string(),
        fields: vec![
            FieldDoc {
                name: "max_speed".to_string(),
                type_text: "i64".to_string(),
                doc_lines: vec!["Top speed.".to_string()],
                default_text: "100".to_string(),
            },
            FieldDoc {
                name: "turn_speed".to_string(),
                type_text: "i64".to_string(),
                doc_lines: vec![],
                default_text: "10".to_string(),
            },
        ],
    };
    let rendered = config_stack::docs::render_docs(&docs);
    let expected = vec![
        "/// Vehicle tuning values.",
        "/// - type: Asset",
        "/// - path: cfg/vehicle.ron",
        "VehicleConfig (",
        "  /// Top speed.",
        "  /// - type: i64",
        "  max_speed: 100,",
        "",
        "  /// - type: i64",
        "  turn_speed: 10,",
        ")",
    ]
    .join("\n")
        + "\n";
    assert_eq!(rendered, expected);
}

#[test]
fn render_docs_for_nested_type() {
    let docs = TypeDocs {
        name: "WheelConfig".to_string(),
        doc_lines: vec![],
        path: String::new(),
        fields: vec![FieldDoc {
            name: "radius".to_string(),
            type_text: "i64".to_string(),
            doc_lines: vec![],
            default_text: "1".to_string(),
        }],
    };
    let rendered = config_stack::docs::render_docs(&docs);
    assert_eq!(rendered, "/// - type: Nested\nWheelConfig (\n  /// - type: i64\n  radius: 1,\n)\n");
}

#[test]
fn error_descriptions() {
    let io = ConfigError::Io { message: "disk on fire".to_string() };
    assert_eq!(io.describe(), "disk on fire");
    let err = decode_vehicle(b"nonsense").expect_err("does not parse");
    let decode = ConfigError::Decode(err);
    assert!(!decode.describe().is_empty());
}
