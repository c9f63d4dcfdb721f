use astropose::meta::extract_pose_inputs;
use astropose::meta::get_scalar;
use astropose::meta::get_text;
use astropose::meta::get_vector3;
use astropose::meta::Field;
use astropose::meta::MetaError;
use astropose::meta::MetaValue;
use astropose::meta::ObservationRecord;

fn scalar_field(value: f64) -> MetaValue {
    MetaValue::List(vec![
        MetaValue::Number(value.to_bits()),
        MetaValue::Text("DEGREES".to_string()),
    ])
}

fn vector_field(x: f64, y: f64, z: f64) -> MetaValue {
    MetaValue::List(vec![scalar_field(x), scalar_field(y), scalar_field(z)])
}

fn field(name: &str, value: MetaValue) -> Field {
    Field { name: name.to_string(), value }
}

fn sample_record() -> ObservationRecord {
    ObservationRecord {
        fields: vec![
            field("PRODUCT_ID", MetaValue::Text("N20140801T154547".to_string())),
            field("SC_TARGET_POSITION_VECTOR", vector_field(-10.0, 0.0, 0.0)),
            field("SUB_SPACECRAFT_LONGITUDE", scalar_field(0.0)),
            field("SUB_SPACECRAFT_LATITUDE", scalar_field(0.0)),
            field("DECLINATION", scalar_field(0.0)),
            field("RIGHT_ASCENSION", scalar_field(0.0)),
            field("CELESTIAL_NORTH_CLOCK_ANGLE", scalar_field(0.0)),
        ],
    }
}

#[test]
fn missing_target_yields_field_missing() {
    let mut rec = sample_record();
    rec.fields.retain(|f| f.name != "SC_TARGET_POSITION_VECTOR");
    match extract_pose_inputs(&rec) {
        Err(MetaError::FieldMissing(n)) => assert_eq!(n, "SC_TARGET_POSITION_VECTOR"),
        other => panic!("expected FieldMissing, got {:?}", other),
    }
}

#[test]
fn bare_number_scalar_is_malformed() {
    let mut rec = sample_record();
    for f in rec.fields.iter_mut() {
        if f.name == "DECLINATION" {
            f.value = MetaValue::Number(3.5f64.to_bits());
        }
    }
    match get_scalar(&rec, &"DECLINATION".to_string()) {
        Err(MetaError::FieldMalformed(n)) => assert_eq!(n, "DECLINATION"),
        other => panic!("expected FieldMalformed, got {:?}", other),
    }
    match extract_pose_inputs(&rec) {
        Err(MetaError::FieldMalformed(n)) => assert_eq!(n, "DECLINATION"),
        other => panic!("expected FieldMalformed, got {:?}", other),
    }
}

#[test]
fn scalar_value_passes_through_unchanged() {
    let mut rec = sample_record();
    for f in rec.fields.iter_mut() {
        if f.name == "RIGHT_ASCENSION" {
            f.value = scalar_field(123.456);
        }
    }
    let bits = get_scalar(&rec, &"RIGHT_ASCENSION".to_string()).unwrap();
    assert_eq!(f64::from_bits(bits), 123.456);
}

#[test]
fn vector_components_come_in_declared_order() {
    let mut rec = sample_record();
    for f in rec.fields.iter_mut() {
        if f.name == "SC_TARGET_POSITION_VECTOR" {
            f.value = vector_field(1.5, -2.5, 3.75);
        }
    }
    let (x, y, z) = get_vector3(&rec, &"SC_TARGET_POSITION_VECTOR".to_string()).unwrap();
    assert_eq!(f64::from_bits(x), 1.5);
    assert_eq!(f64::from_bits(y), -2.5);
    assert_eq!(f64::from_bits(z), 3.75);
}

#[test]
fn vector_of_two_components_is_malformed() {
    let mut rec = sample_record();
    for f in rec.fields.iter_mut() {
        if f.name == "SC_TARGET_POSITION_VECTOR" {
            f.value = MetaValue::List(vec![scalar_field(1.0), scalar_field(2.0)]);
        }
    }
    match get_vector3(&rec, &"SC_TARGET_POSITION_VECTOR".to_string()) {
        Err(MetaError::FieldMalformed(n)) => assert_eq!(n, "SC_TARGET_POSITION_VECTOR"),
        other => panic!("expected FieldMalformed, got {:?}", other),
    }
}

#[test]
fn vector_with_bare_number_component_is_malformed() {
    let mut rec = sample_record();
    for f in rec.fields.iter_mut() {
        if f.name == "SC_TARGET_POSITION_VECTOR" {
            f.value = MetaValue::List(vec![
                scalar_field(1.0),
                MetaValue::Number(2.0f64.to_bits()),
                scalar_field(3.0),
            ]);
        }
    }
    match extract_pose_inputs(&rec) {
        Err(MetaError::FieldMalformed(n)) => assert_eq!(n, "SC_TARGET_POSITION_VECTOR"),
        other => panic!("expected FieldMalformed, got {:?}", other),
    }
}

#[test]
fn absent_scalar_is_missing_not_malformed() {
    let rec = sample_record();
    match get_scalar(&rec, &"EXPOSURE_DURATION".to_string()) {
        Err(MetaError::FieldMissing(n)) => assert_eq!(n, "EXPOSURE_DURATION"),
        other => panic!("expected FieldMissing, got {:?}", other),
    }
}

#[test]
fn first_field_of_a_name_wins() {
    let mut rec = sample_record();
    rec.fields.push(field("DECLINATION", scalar_field(99.0)));
    let bits = get_scalar(&rec, &"DECLINATION".to_string()).unwrap();
    assert_eq!(f64::from_bits(bits), 0.0);
}

#[test]
fn product_id_reads_as_text() {
    let rec = sample_record();
    let id = get_text(&rec, &"PRODUCT_ID".to_string()).unwrap();
    assert_eq!(id, "N20140801T154547");
}

#[test]
fn text_lookup_on_scalar_is_malformed() {
    let rec = sample_record();
    match get_text(&rec, &"DECLINATION".to_string()) {
        Err(MetaError::FieldMalformed(n)) => assert_eq!(n, "DECLINATION"),
        other => panic!("expected FieldMalformed, got {:?}", other),
    }
}

#[test]
fn extraction_returns_all_six_quantities() {
    let rec = sample_record();
    let p = extract_pose_inputs(&rec).unwrap();
    assert_eq!(f64::from_bits(p.target.0), -10.0);
    assert_eq!(f64::from_bits(p.target.1), 0.0);
    assert_eq!(f64::from_bits(p.target.2), 0.0);
    assert_eq!(f64::from_bits(p.sub_lon), 0.0);
    assert_eq!(f64::from_bits(p.sub_lat), 0.0);
    assert_eq!(f64::from_bits(p.declination), 0.0);
    assert_eq!(f64::from_bits(p.right_ascension), 0.0);
    assert_eq!(f64::from_bits(p.clock_angle), 0.0);
}

#[test]
fn extraction_reports_the_first_failure_in_reading_order() {
    let mut rec = sample_record();
    rec.fields.retain(|f| f.name != "SC_TARGET_POSITION_VECTOR" && f.name != "DECLINATION");
    match extract_pose_inputs(&rec) {
        Err(MetaError::FieldMissing(n)) => assert_eq!(n, "SC_TARGET_POSITION_VECTOR"),
        other => panic!("expected FieldMissing, got {:?}", other),
    }
}
