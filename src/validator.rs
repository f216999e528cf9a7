//! Declarative validation: a payload type names its mandatory fields, how it
//! is read from a JSON object, and its business rules.
use crate::json::{find_member, member_of, members_view, JsonField, JsonFieldView, JsonPayload};
use crate::taxonomy::{HttpError, HttpErrorView};
use vstd::prelude::*;

verus! {

/// A declared field counts as missing when it is absent, null or an empty string.
pub open spec fn field_missing(m: Seq<(Seq<char>, JsonFieldView)>, name: Seq<char>) -> bool {
    match member_of(m, name) {
        None => true,
        Some(JsonFieldView::Null) => true,
        Some(JsonFieldView::Text(t)) => t.len() == 0,
        Some(JsonFieldView::Other) => false,
    }
}

/// The first declared field, from position `i` on, that is missing.
pub open spec fn first_missing_from(
    m: Seq<(Seq<char>, JsonFieldView)>,
    names: Seq<Seq<char>>,
    i: int,
) -> Option<int>
    decreases names.len() - i,
{
    if i < 0 || i >= names.len() {
        None
    } else if field_missing(m, names[i]) {
        Some(i)
    } else {
        first_missing_from(m, names, i + 1)
    }
}

pub open spec fn not_object_message() -> Seq<char> {
    "Payload must be a JSON object"@
}

pub open spec fn missing_field_message(name: Seq<char>) -> Seq<char> {
    "Invalid Mandatory Field "@ + name
}

/// Outcome of the mandatory-field check: only the first missing field, in
/// declared order, is reported.
pub open spec fn required_fields_outcome(
    p: Option<Seq<(Seq<char>, JsonFieldView)>>,
    names: Seq<Seq<char>>,
) -> Result<(), Seq<char>> {
    match p {
        None => Err(not_object_message()),
        Some(m) => match first_missing_from(m, names, 0) {
            None => Ok(()),
            Some(i) => Err(missing_field_message(names[i])),
        },
    }
}

proof fn lemma_first_missing_is_first(
    m: Seq<(Seq<char>, JsonFieldView)>,
    names: Seq<Seq<char>>,
    i: int,
)
    requires
        0 <= i,
    ensures
        match first_missing_from(m, names, i) {
            Some(k) => i <= k < names.len() && field_missing(m, names[k]) && forall|j: int|
                i <= j < k ==> !field_missing(m, #[trigger] names[j]),
            None => forall|j: int| i <= j < names.len() ==> !field_missing(m, #[trigger] names[j]),
        },
    decreases names.len() - i,
{
    if i < names.len() && !field_missing(m, names[i]) {
        lemma_first_missing_is_first(m, names, i + 1);
    }
}

/// The mandatory-field check reports a field exactly when some declared field
/// is missing, and then names the first such field in declared order.
pub proof fn lemma_reports_first_missing_field(
    m: Seq<(Seq<char>, JsonFieldView)>,
    names: Seq<Seq<char>>,
)
    ensures
        required_fields_outcome(Some(m), names) is Ok <==> forall|j: int|
            0 <= j < names.len() ==> !field_missing(m, #[trigger] names[j]),
        required_fields_outcome(Some(m), names) is Err ==> exists|k: int|
            0 <= k < names.len() && field_missing(m, names[k]) && (forall|j: int|
                0 <= j < k ==> !field_missing(m, #[trigger] names[j]))
                && required_fields_outcome(Some(m), names) == Err::<(), Seq<char>>(
                missing_field_message(#[trigger] names[k]),
            ),
{
    lemma_first_missing_is_first(m, names, 0);
}

pub open spec fn names_view(v: Seq<&'static str>) -> Seq<Seq<char>> {
    v.map_values(|s: &'static str| s@)
}

/// The capability of a request payload type: its mandatory fields, how it is
/// read from a JSON object, and its business rules.
pub trait ValidateFieldsJSON: Sized + View {
    spec fn mandatory_fields_spec() -> Seq<Seq<char>>;

    /// The value read from an object's members, or why it cannot be read.
    spec fn decode_spec(m: Seq<(Seq<char>, JsonFieldView)>) -> Result<Self::V, Seq<char>>;

    /// The business-rule failure of a value, `None` when it passes.
    spec fn business_spec(v: Self::V) -> Option<HttpErrorView>;

    fn get_mandatory_field() -> (r: Vec<&'static str>)
        ensures
            names_view(r@) == Self::mandatory_fields_spec(),
    ;

    /// Reads the typed value from the members of a JSON object.
    fn from_members(m: &Vec<(String, JsonField)>) -> (r: Result<Self, String>)
        ensures
            match r {
                Ok(v) => Self::decode_spec(members_view(m@)) == Ok::<Self::V, Seq<char>>(v@),
                Err(e) => Self::decode_spec(members_view(m@)) == Err::<Self::V, Seq<char>>(e@),
            },
    ;

    fn validate_business_logic(&self) -> (r: Result<(), HttpError>)
        ensures
            match r {
                Ok(_) => Self::business_spec(self@) is None,
                Err(e) => Self::business_spec(self@) == Some(e@) && e.status == 400,
            },
    ;

    /// Fails when the payload is not an object or a declared field is
    /// missing, naming only the first missing field in declared order.
    fn validate_required_fields(payload: &JsonPayload) -> (r: Result<(), String>)
        ensures
            match r {
                Ok(_) => required_fields_outcome(payload@, Self::mandatory_fields_spec()) is Ok,
                Err(e) => required_fields_outcome(payload@, Self::mandatory_fields_spec()) == Err::<
                    (),
                    Seq<char>,
                >(e@),
            },
    {
        let required_fields = Self::get_mandatory_field();
        match payload {
            JsonPayload::NotObject => Err(String::from_str("Payload must be a JSON object")),
            JsonPayload::Object(map) => {
                let ghost m = members_view(map@);
                let ghost names = names_view(required_fields@);
                let mut i: usize = 0;
                while i < required_fields.len()
                    invariant
                        0 <= i <= required_fields.len(),
                        m == members_view(map@),
                        names == names_view(required_fields@),
                        names.len() == required_fields@.len(),
                        names == Self::mandatory_fields_spec(),
                        payload@ == Some(m),
                        first_missing_from(m, names, 0) == first_missing_from(m, names, i as int),
                    decreases required_fields.len() - i,
                {
                    let field = required_fields[i];
                    assert(names[i as int] == field@);
                    let missing = match find_member(map, field) {
                        None => true,
                        Some(JsonField::Null) => true,
                        Some(JsonField::Text(s)) => s.unicode_len() == 0,
                        Some(JsonField::Other) => false,
                    };
                    if missing {
                        assert(field_missing(m, names[i as int]));
                        assert(first_missing_from(m, names, i as int) == Some(i as int));
                        let msg = String::from_str("Invalid Mandatory Field ").concat(field);
                        return Err(msg);
                    }
                    i = i + 1;
                }
                Ok(())
            },
        }
    }
}

} // verus!
