//! The metadata accessor.
//!
//! An observation record is a list of named fields. A scalar field is a
//! two-element sequence `[value, qualifier]` whose first element is a
//! number; a vector field is a three-element sequence of scalar fields.
//! The accessor is a typed view over the record: it checks the shape and
//! hands the numeric payloads out unchanged. A numeric value is carried
//! as the 64 bits of its machine encoding; this crate moves those bits
//! and never interprets them.

use vstd::prelude::*;

verus! {

/// One field value of an observation record.
#[derive(Debug)]
pub enum MetaValue {
    /// A numeric value: the 64 bits of its encoding, opaque here.
    Number(u64),
    /// A sequence of nested values.
    List(Vec<MetaValue>),
    /// A textual value, such as a product identifier or a unit qualifier.
    Text(String),
    /// Any other shape; every accessor treats it as malformed.
    Other,
}

/// A named field of an observation record.
#[derive(Debug)]
pub struct Field {
    pub name: String,
    pub value: MetaValue,
}

/// One observation's metadata: named fields, in the order given by the
/// source. A lookup takes the first field with the sought name.
#[derive(Debug)]
pub struct ObservationRecord {
    pub fields: Vec<Field>,
}

/// Why an access failed. Each variant carries the field name asked for.
#[derive(Clone, PartialEq, Eq, Debug)]
pub enum MetaError {
    /// The required field is absent from the record.
    FieldMissing(String),
    /// The field is present but not shaped as documented.
    FieldMalformed(String),
}

/// The first field named `name`, if any.
pub open spec fn lookup(fields: Seq<Field>, name: Seq<char>) -> Option<MetaValue>
    decreases fields.len(),
{
    if fields.len() == 0 {
        Option::None
    } else if fields[0].name@ == name {
        Option::Some(fields[0].value)
    } else {
        lookup(fields.skip(1), name)
    }
}

/// The field named `name`, defaulting to `Other` (which no shape test
/// accepts) when the field is absent.
pub open spec fn found(fields: Seq<Field>, name: Seq<char>) -> MetaValue {
    match lookup(fields, name) {
        Option::Some(v) => v,
        Option::None => MetaValue::Other,
    }
}

pub open spec fn field_missing(fields: Seq<Field>, name: Seq<char>) -> bool {
    lookup(fields, name) is None
}

/// A scalar field: a two-element sequence whose first element is the
/// numeric value; the second (the qualifier) is left unvalidated.
pub open spec fn is_scalar(v: MetaValue) -> bool {
    v matches MetaValue::List(items) && items@.len() == 2 && items@[0] is Number
}

/// The numeric payload of a scalar field.
pub open spec fn scalar_bits(v: MetaValue) -> u64
    recommends
        is_scalar(v),
{
    v->List_0@[0]->Number_0
}

/// A vector field: exactly three scalar-shaped components.
pub open spec fn is_vec3(v: MetaValue) -> bool {
    v matches MetaValue::List(items) && items@.len() == 3 && is_scalar(items@[0])
        && is_scalar(items@[1]) && is_scalar(items@[2])
}

/// The three numeric payloads of a vector field, in declared order.
pub open spec fn vec3_bits(v: MetaValue) -> (u64, u64, u64)
    recommends
        is_vec3(v),
{
    (
        scalar_bits(v->List_0@[0]),
        scalar_bits(v->List_0@[1]),
        scalar_bits(v->List_0@[2]),
    )
}

/// The first field named `name`, as a reference, or nothing.
fn get_field<'a>(rec: &'a ObservationRecord, name: &String) -> (r: Option<&'a MetaValue>)
    ensures
        match r {
            Option::Some(v) => lookup(rec.fields@, name@) == Option::Some(*v),
            Option::None => lookup(rec.fields@, name@) is None,
        },
{
    let mut i: usize = 0;
    proof {
        assert(rec.fields@.skip(0) =~= rec.fields@);
    }
    while i < rec.fields.len()
        invariant
            i <= rec.fields@.len(),
            lookup(rec.fields@, name@) == lookup(rec.fields@.skip(i as int), name@),
        decreases rec.fields@.len() - i,
    {
        if rec.fields[i].name == *name {
            proof {
                assert(rec.fields@.skip(i as int)[0] == rec.fields@[i as int]);
            }
            return Option::Some(&rec.fields[i].value);
        }
        proof {
            assert(rec.fields@.skip(i as int).skip(1) =~= rec.fields@.skip(i as int + 1));
        }
        i = i + 1;
    }
    Option::None
}

/// The numeric payload of `v`, when `v` is scalar-shaped.
fn scalar_of(v: &MetaValue) -> (r: Option<u64>)
    ensures
        match r {
            Option::Some(b) => is_scalar(*v) && b == scalar_bits(*v),
            Option::None => !is_scalar(*v),
        },
{
    match v {
        MetaValue::List(items) => {
            if items.len() == 2 {
                match &items[0] {
                    MetaValue::Number(b) => Option::Some(*b),
                    _ => Option::None,
                }
            } else {
                Option::None
            }
        },
        _ => Option::None,
    }
}

/// Look `name` up and return its numeric payload. Fails with
/// `FieldMissing` exactly when the field is absent, and with
/// `FieldMalformed` exactly when it is present but not scalar-shaped.
pub fn get_scalar(rec: &ObservationRecord, name: &String) -> (r: Result<u64, MetaError>)
    ensures
        match r {
            Ok(bits) => !field_missing(rec.fields@, name@) && is_scalar(found(rec.fields@, name@))
                && bits == scalar_bits(found(rec.fields@, name@)),
            Err(e) => match e {
                MetaError::FieldMissing(n) => n@ == name@ && field_missing(rec.fields@, name@),
                MetaError::FieldMalformed(n) => n@ == name@ && !field_missing(rec.fields@, name@)
                    && !is_scalar(found(rec.fields@, name@)),
            },
        },
{
    match get_field(rec, name) {
        Option::None => Err(MetaError::FieldMissing(name.clone())),
        Option::Some(v) => match scalar_of(v) {
            Option::Some(b) => Ok(b),
            Option::None => Err(MetaError::FieldMalformed(name.clone())),
        },
    }
}

/// Look `name` up and return its three numeric payloads, in declared
/// order. Fails with `FieldMissing` exactly when the field is absent, and
/// with `FieldMalformed` exactly when it is present but not shaped as
/// three scalar components.
pub fn get_vector3(rec: &ObservationRecord, name: &String) -> (r: Result<
    (u64, u64, u64),
    MetaError,
>)
    ensures
        match r {
            Ok(b) => !field_missing(rec.fields@, name@) && is_vec3(found(rec.fields@, name@))
                && b == vec3_bits(found(rec.fields@, name@)),
            Err(e) => match e {
                MetaError::FieldMissing(n) => n@ == name@ && field_missing(rec.fields@, name@),
                MetaError::FieldMalformed(n) => n@ == name@ && !field_missing(rec.fields@, name@)
                    && !is_vec3(found(rec.fields@, name@)),
            },
        },
{
    match get_field(rec, name) {
        Option::None => Err(MetaError::FieldMissing(name.clone())),
        Option::Some(v) => match v {
            MetaValue::List(items) => {
                if items.len() == 3 {
                    let b0 = scalar_of(&items[0]);
                    let b1 = scalar_of(&items[1]);
                    let b2 = scalar_of(&items[2]);
                    match (b0, b1, b2) {
                        (Option::Some(x), Option::Some(y), Option::Some(z)) => Ok((x, y, z)),
                        _ => Err(MetaError::FieldMalformed(name.clone())),
                    }
                } else {
                    Err(MetaError::FieldMalformed(name.clone()))
                }
            },
            _ => Err(MetaError::FieldMalformed(name.clone())),
        },
    }
}

/// Look `name` up and return its text. Fails with `FieldMissing` exactly
/// when the field is absent, and with `FieldMalformed` exactly when it is
/// present but not textual.
pub fn get_text(rec: &ObservationRecord, name: &String) -> (r: Result<String, MetaError>)
    ensures
        match r {
            Ok(s) => !field_missing(rec.fields@, name@) && (found(rec.fields@, name@) matches
                MetaValue::Text(t) && s@ == t@),
            Err(e) => match e {
                MetaError::FieldMissing(n) => n@ == name@ && field_missing(rec.fields@, name@),
                MetaError::FieldMalformed(n) => n@ == name@ && !field_missing(rec.fields@, name@)
                    && !(found(rec.fields@, name@) is Text),
            },
        },
{
    match get_field(rec, name) {
        Option::None => Err(MetaError::FieldMissing(name.clone())),
        Option::Some(v) => match v {
            MetaValue::Text(t) => Ok(t.clone()),
            _ => Err(MetaError::FieldMalformed(name.clone())),
        },
    }
}

/// The six required quantities of one observation, as extracted: the
/// target-position components and five angles in degrees, each carried
/// as the 64 bits of its numeric encoding.
#[derive(Clone, Copy, PartialEq, Eq, Debug)]
pub struct PoseFields {
    pub target: (u64, u64, u64),
    pub sub_lon: u64,
    pub sub_lat: u64,
    pub declination: u64,
    pub right_ascension: u64,
    pub clock_angle: u64,
}

/// Outcome of the whole extraction, in the model: the six values, or the
/// first failing field in reading order.
pub enum ExtractOutcome {
    Extracted(PoseFields),
    MissingField(Seq<char>),
    MalformedField(Seq<char>),
}

/// What extracting from `fields` yields: the fields are read in the
/// order target vector, sub-observer longitude, sub-observer latitude,
/// declination, right ascension, clock angle, and the first missing or
/// malformed one aborts the observation.
pub open spec fn extract_spec(fields: Seq<Field>) -> ExtractOutcome {
    if field_missing(fields, "SC_TARGET_POSITION_VECTOR"@) {
        ExtractOutcome::MissingField("SC_TARGET_POSITION_VECTOR"@)
    } else if !is_vec3(found(fields, "SC_TARGET_POSITION_VECTOR"@)) {
        ExtractOutcome::MalformedField("SC_TARGET_POSITION_VECTOR"@)
    } else if field_missing(fields, "SUB_SPACECRAFT_LONGITUDE"@) {
        ExtractOutcome::MissingField("SUB_SPACECRAFT_LONGITUDE"@)
    } else if !is_scalar(found(fields, "SUB_SPACECRAFT_LONGITUDE"@)) {
        ExtractOutcome::MalformedField("SUB_SPACECRAFT_LONGITUDE"@)
    } else if field_missing(fields, "SUB_SPACECRAFT_LATITUDE"@) {
        ExtractOutcome::MissingField("SUB_SPACECRAFT_LATITUDE"@)
    } else if !is_scalar(found(fields, "SUB_SPACECRAFT_LATITUDE"@)) {
        ExtractOutcome::MalformedField("SUB_SPACECRAFT_LATITUDE"@)
    } else if field_missing(fields, "DECLINATION"@) {
        ExtractOutcome::MissingField("DECLINATION"@)
    } else if !is_scalar(found(fields, "DECLINATION"@)) {
        ExtractOutcome::MalformedField("DECLINATION"@)
    } else if field_missing(fields, "RIGHT_ASCENSION"@) {
        ExtractOutcome::MissingField("RIGHT_ASCENSION"@)
    } else if !is_scalar(found(fields, "RIGHT_ASCENSION"@)) {
        ExtractOutcome::MalformedField("RIGHT_ASCENSION"@)
    } else if field_missing(fields, "CELESTIAL_NORTH_CLOCK_ANGLE"@) {
        ExtractOutcome::MissingField("CELESTIAL_NORTH_CLOCK_ANGLE"@)
    } else if !is_scalar(found(fields, "CELESTIAL_NORTH_CLOCK_ANGLE"@)) {
        ExtractOutcome::MalformedField("CELESTIAL_NORTH_CLOCK_ANGLE"@)
    } else {
        ExtractOutcome::Extracted(
            PoseFields {
                target: vec3_bits(found(fields, "SC_TARGET_POSITION_VECTOR"@)),
                sub_lon: scalar_bits(found(fields, "SUB_SPACECRAFT_LONGITUDE"@)),
                sub_lat: scalar_bits(found(fields, "SUB_SPACECRAFT_LATITUDE"@)),
                declination: scalar_bits(found(fields, "DECLINATION"@)),
                right_ascension: scalar_bits(found(fields, "RIGHT_ASCENSION"@)),
                clock_angle: scalar_bits(found(fields, "CELESTIAL_NORTH_CLOCK_ANGLE"@)),
            },
        )
    }
}

/// Extract the six required quantities of one observation. The fields
/// are read in the documented order and the first failure aborts the
/// observation: no partial result is returned.
pub fn extract_pose_inputs(rec: &ObservationRecord) -> (r: Result<PoseFields, MetaError>)
    ensures
        match r {
            Ok(p) => extract_spec(rec.fields@) == ExtractOutcome::Extracted(p),
            Err(e) => match e {
                MetaError::FieldMissing(n) => extract_spec(rec.fields@)
                    == ExtractOutcome::MissingField(n@),
                MetaError::FieldMalformed(n) => extract_spec(rec.fields@)
                    == ExtractOutcome::MalformedField(n@),
            },
        },
{
    let target = match get_vector3(rec, &"SC_TARGET_POSITION_VECTOR".to_owned()) {
        Ok(b) => b,
        Err(e) => {
            return Err(e);
        },
    };
    let sub_lon = match get_scalar(rec, &"SUB_SPACECRAFT_LONGITUDE".to_owned()) {
        Ok(b) => b,
        Err(e) => {
            return Err(e);
        },
    };
    let sub_lat = match get_scalar(rec, &"SUB_SPACECRAFT_LATITUDE".to_owned()) {
        Ok(b) => b,
        Err(e) => {
            return Err(e);
        },
    };
    let declination = match get_scalar(rec, &"DECLINATION".to_owned()) {
        Ok(b) => b,
        Err(e) => {
            return Err(e);
        },
    };
    let right_ascension = match get_scalar(rec, &"RIGHT_ASCENSION".to_owned()) {
        Ok(b) => b,
        Err(e) => {
            return Err(e);
        },
    };
    let clock_angle = match get_scalar(rec, &"CELESTIAL_NORTH_CLOCK_ANGLE".to_owned()) {
        Ok(b) => b,
        Err(e) => {
            return Err(e);
        },
    };
    Ok(
        PoseFields {
            target,
            sub_lon,
            sub_lat,
            declination,
            right_ascension,
            clock_angle,
        },
    )
}

} // verus!
