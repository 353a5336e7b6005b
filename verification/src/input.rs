use vstd::prelude::*;

verus! {

/// What a create-request supplies for one field, as far as the validator
/// cares: the field is absent, a string, a boolean, or present with some
/// other shape.
#[derive(Debug)]
pub enum FieldValue {
    Absent,
    Str(String),
    Bool(bool),
    Other,
}

/// The raw, untyped create-request: the five fields the service reads.
/// Any further input fields are ignored by construction, since they have
/// no place here.
pub struct RawInput {
    pub name: FieldValue,
    pub description: FieldValue,
    pub enable: FieldValue,
    pub long_order: FieldValue,
    pub short_order: FieldValue,
}

/// The field that a validation failure names.
#[derive(Clone, Copy, Debug, PartialEq, Eq, Structural)]
pub enum Field {
    Name,
    Description,
    Enable,
}

/// The tag under which a validation failure reports each field.
pub open spec fn spec_tag(f: Field) -> Seq<char> {
    match f {
        Field::Name => "name"@,
        Field::Description => "description"@,
        Field::Enable => "enable"@,
    }
}

impl Field {
    /// The field's tag, as the failure reports it.
    pub fn tag(&self) -> (s: String)
        ensures
            s@ == spec_tag(*self),
    {
        match self {
            Field::Name => String::from_str("name"),
            Field::Description => String::from_str("description"),
            Field::Enable => String::from_str("enable"),
        }
    }
}

/// The normalized field map: the validated fields in their canonical typed
/// form, ready to be turned into an insert statement.
#[derive(Debug)]
pub struct FieldMap {
    pub name: String,
    pub description: String,
    pub enable: bool,
    pub long_order: Option<bool>,
    pub short_order: Option<bool>,
}

/// A required text field is acceptable when it is a string of length at
/// least one.
pub open spec fn text_field_ok(f: FieldValue) -> bool {
    f matches FieldValue::Str(s) && s@.len() > 0
}

/// The string carried by a `Str` field.
pub open spec fn text_of(f: FieldValue) -> Seq<char> {
    f->Str_0@
}

/// An optional boolean field: kept when it is a boolean, silently dropped
/// otherwise.
pub open spec fn opt_bool_of(f: FieldValue) -> Option<bool> {
    match f {
        FieldValue::Bool(b) => Some(b),
        _ => None,
    }
}

/// The boolean carried by a `Bool` field.
pub open spec fn bool_of(f: FieldValue) -> bool {
    f->Bool_0
}

/// The outcome of validation: the first field that fails, in the fixed
/// order `name`, `description`, `enable`, or `None` when the input is
/// acceptable.
pub open spec fn spec_validation_outcome(inp: RawInput) -> Option<Field> {
    if !text_field_ok(inp.name) {
        Some(Field::Name)
    } else if !text_field_ok(inp.description) {
        Some(Field::Description)
    } else if !(inp.enable matches FieldValue::Bool(_)) {
        Some(Field::Enable)
    } else {
        None
    }
}

/// Check a raw create-request against the field rules, first failure wins:
/// `name` and `description` must be non-empty strings, `enable` must be a
/// boolean; `long_order` and `short_order` are kept only when they are
/// booleans, and are never a reason to fail.
pub fn validate(inp: &RawInput) -> (r: Result<FieldMap, Field>)
    ensures
        match spec_validation_outcome(*inp) {
            Some(f) => r == Err::<FieldMap, Field>(f),
            None => (r matches Ok(m) && m.name@ == text_of(inp.name) && m.description@ == text_of(
                inp.description,
            ) && m.enable == bool_of(inp.enable) && m.long_order == opt_bool_of(inp.long_order)
                && m.short_order == opt_bool_of(inp.short_order)),
        },
{
    let name: String = match &inp.name {
        FieldValue::Str(s) if !s.as_str().is_empty() => s.clone(),
        _ => {
            return Err(Field::Name);
        },
    };
    let description: String = match &inp.description {
        FieldValue::Str(s) if !s.as_str().is_empty() => s.clone(),
        _ => {
            return Err(Field::Description);
        },
    };
    let enable: bool = match &inp.enable {
        FieldValue::Bool(b) => *b,
        _ => {
            return Err(Field::Enable);
        },
    };
    let long_order: Option<bool> = match &inp.long_order {
        FieldValue::Bool(b) => Some(*b),
        _ => None,
    };
    let short_order: Option<bool> = match &inp.short_order {
        FieldValue::Bool(b) => Some(*b),
        _ => None,
    };
    Ok(FieldMap { name, description, enable, long_order, short_order })
}

/// A request whose `name` is missing, not a string, or empty always fails
/// with the `name` tag, whatever the other fields hold.
pub proof fn lemma_missing_name_rejected(inp: RawInput)
    requires
        !text_field_ok(inp.name),
    ensures
        spec_validation_outcome(inp) == Some(Field::Name),
{
}

/// A request with acceptable `name` and `description` whose `enable` is
/// missing or not a boolean always fails with the `enable` tag, whatever
/// the optional fields hold.
pub proof fn lemma_bad_enable_rejected(inp: RawInput)
    requires
        text_field_ok(inp.name),
        text_field_ok(inp.description),
        !(inp.enable matches FieldValue::Bool(_)),
    ensures
        spec_validation_outcome(inp) == Some(Field::Enable),
{
}

} // verus!
