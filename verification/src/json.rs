//! JSON values, as the history stores them.

use vstd::prelude::*;

verus! {

/// A JSON value of `serde_json`. It is carried as it is.
#[verifier::external_type_specification]
#[verifier::external_body]
pub struct ExJsonValue(serde_json::Value);

/// `serde_json::Value::clone` returns an equal value.
pub assume_specification[ <serde_json::Value as Clone>::clone ](
    value: &serde_json::Value,
) -> (res: serde_json::Value)
    ensures
        res == *value,
;

/// A JSON value without parts.
#[derive(Debug)]
pub enum JsonScalar {
    Text(String),
    Bool(bool),
}

/// What a [`JsonScalar`] holds.
pub enum ScalarView {
    Text(Seq<char>),
    Bool(bool),
}

impl View for JsonScalar {
    type V = ScalarView;

    open spec fn view(&self) -> ScalarView {
        match *self {
            JsonScalar::Text(content) => ScalarView::Text(content@),
            JsonScalar::Bool(flag) => ScalarView::Bool(flag),
        }
    }
}

/// The members of a JSON object all of whose values are texts and booleans: the
/// value under each key. Any other JSON value gives nothing.
pub uninterp spec fn object_members(
    value: serde_json::Value,
) -> Option<Map<Seq<char>, ScalarView>>;

/// Whether a JSON value is the empty object.
pub open spec fn is_empty_object(value: serde_json::Value) -> bool {
    object_members(value) == Some(Map::<Seq<char>, ScalarView>::empty())
}

/// The keys and values of a list of members.
pub open spec fn member_views(members: Seq<(String, JsonScalar)>) -> Seq<(Seq<char>, ScalarView)> {
    members.map_values(|member: (String, JsonScalar)| (member.0@, member.1@))
}

/// `serde_json::Value::Object`, around the `serde_json::Map` that is collected
/// from the given members: a JSON object with exactly these members.
#[verifier::external_body]
fn object_of(members: Vec<(String, JsonScalar)>) -> (res: serde_json::Value)
    requires
        forall|i: int, j: int|
            0 <= i < j < members@.len() ==> (#[trigger] members@[i]).0@ != (
            #[trigger] members@[j]).0@,
    ensures
        object_members(res) is Some,
        forall|key: Seq<char>, value: ScalarView|
            (object_members(res)->0.contains_key(key) && object_members(res)->0[key] == value)
                <==> #[trigger] member_views(members@).contains((key, value)),
{
    let convert = |scalar| match scalar {
        JsonScalar::Text(content) => serde_json::Value::String(content),
        JsonScalar::Bool(flag) => serde_json::Value::Bool(flag),
    };
    let members = members.into_iter().map(|(key, value)| (key, convert(value)));
    serde_json::Value::Object(members.collect())
}

/// The empty JSON object.
pub fn empty_object() -> (res: serde_json::Value)
    ensures
        is_empty_object(res),
{
    let members: Vec<(String, JsonScalar)> = Vec::new();
    let res = object_of(members);
    proof {
        let empty = Seq::<(Seq<char>, ScalarView)>::empty();
        assert(member_views(members@) == empty);
        let found = object_members(res)->0;
        assert forall|key: Seq<char>| !found.contains_key(key) by {
            assert(!empty.contains((key, found[key])));
        }
        assert(found == Map::<Seq<char>, ScalarView>::empty());
    }
    res
}

/// The JSON object that stands for the output of a call that failed.
pub fn error_object(message: String) -> (res: serde_json::Value)
    ensures
        object_members(res) == Some(
            map![
                "error"@ => ScalarView::Text(message@),
                "is_error"@ => ScalarView::Bool(true),
            ],
        ),
{
    proof {
        reveal_strlit("error");
        reveal_strlit("is_error");
        assert("error"@.len() != "is_error"@.len());
    }
    let mut members: Vec<(String, JsonScalar)> = Vec::new();
    members.push(("error".to_owned(), JsonScalar::Text(message)));
    members.push(("is_error".to_owned(), JsonScalar::Bool(true)));
    let res = object_of(members);
    proof {
        let expected = map![
            "error"@ => ScalarView::Text(message@),
            "is_error"@ => ScalarView::Bool(true),
        ];
        let views = member_views(members@);
        assert(views == seq![
            ("error"@, ScalarView::Text(message@)),
            ("is_error"@, ScalarView::Bool(true)),
        ]);
        assert(views[0] == ("error"@, ScalarView::Text(message@)));
        assert(views[1] == ("is_error"@, ScalarView::Bool(true)));
        assert(views.contains(("error"@, ScalarView::Text(message@))));
        assert(views.contains(("is_error"@, ScalarView::Bool(true))));
        let found = object_members(res)->0;
        assert forall|key: Seq<char>| found.contains_key(key) implies key == "error"@ || key
            == "is_error"@ by {
            assert(views.contains((key, found[key])));
        }
        assert(found == expected);
    }
    res
}

/// A serialised value, or the empty object in place of one that could not be
/// serialised.
pub fn value_or_empty<E>(serialised: Result<serde_json::Value, E>) -> (res: serde_json::Value)
    ensures
        match serialised {
            Ok(value) => res == value,
            Err(_) => is_empty_object(res),
        },
{
    match serialised {
        Ok(value) => value,
        Err(_) => empty_object(),
    }
}

/// What could not be serialised is stored as an object without members, and
/// nothing else is changed on the way into the history.
pub proof fn law_serialised_value_is_kept<E>(
    serialised: Result<serde_json::Value, E>,
    res: serde_json::Value,
)
    requires
        call_ensures(value_or_empty::<E>, (serialised,), res),
    ensures
        serialised matches Ok(value) ==> res == value,
        serialised is Err ==> (object_members(res) matches Some(members) && forall|key: Seq<char>|
            !members.contains_key(key)),
{
}

/// The empty object has no members.
pub proof fn law_empty_object_has_no_members(res: serde_json::Value)
    requires
        call_ensures(empty_object, (), res),
    ensures
        object_members(res) matches Some(members) && forall|key: Seq<char>|
            !members.contains_key(key),
{
}

/// The output of a failed call has two members: the whole message of the error,
/// and the mark that it is one.
pub proof fn law_error_object_holds_the_message(message: String, res: serde_json::Value)
    requires
        call_ensures(error_object, (message,), res),
    ensures
        object_members(res) matches Some(members) && {
            &&& forall|key: Seq<char>|
                members.contains_key(key) <==> key == "error"@ || key == "is_error"@
            &&& members["error"@] == ScalarView::Text(message@)
            &&& members["is_error"@] == ScalarView::Bool(true)
        },
{
    reveal_strlit("error");
    reveal_strlit("is_error");
    assert("error"@.len() != "is_error"@.len());
}

} // verus!
