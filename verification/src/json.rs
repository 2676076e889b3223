//! The JSON object that one report line holds, as plain values.
//!
//! `serde_json` does the parsing. What it yields is copied, member by member,
//! into [`JsonObject`], so that the decoding rules can be stated and proved
//! over values that the verifier sees into.

use serde_json::Value;
use vstd::prelude::*;

verus! {

/// The value of one member of a JSON object, as far as decoding reads it.
pub enum JsonScalar {
    /// The literal `null`.
    Null,
    /// One of the literals `true` and `false`.
    Bool(bool),
    /// A number, by its two integer readings: `unsigned` is the number as a
    /// `u64` and `signed` the number as an `i64`, each where the number is an
    /// integer in that type's range.
    Number { unsigned: Option<u64>, signed: Option<i64> },
    /// A string.
    Text(String),
    /// An array or an object; nothing in a record is read from one.
    Composite,
}

/// What a [`JsonScalar`] is: the same value, with the text as a sequence.
pub enum ScalarView {
    Null,
    Bool(bool),
    Number { unsigned: Option<u64>, signed: Option<i64> },
    Text(Seq<char>),
    Composite,
}

impl View for JsonScalar {
    type V = ScalarView;

    open spec fn view(&self) -> ScalarView {
        match self {
            JsonScalar::Null => ScalarView::Null,
            JsonScalar::Bool(b) => ScalarView::Bool(*b),
            JsonScalar::Number { unsigned, signed } => ScalarView::Number {
                unsigned: *unsigned,
                signed: *signed,
            },
            JsonScalar::Text(s) => ScalarView::Text(s@),
            JsonScalar::Composite => ScalarView::Composite,
        }
    }
}

/// The members of a JSON object: each key with its value, in order.
pub type ObjectView = Seq<(Seq<char>, ScalarView)>;

/// A JSON object: its members, each a key and a value.
pub struct JsonObject {
    pub entries: Vec<(String, JsonScalar)>,
}

impl View for JsonObject {
    type V = ObjectView;

    open spec fn view(&self) -> ObjectView {
        Seq::new(self.entries@.len(), |i: int| (self.entries@[i].0@, self.entries@[i].1@))
    }
}

/// The value of the first member of `object` whose key is `key`.
pub open spec fn member(object: ObjectView, key: Seq<char>) -> Option<ScalarView>
    decreases object.len(),
{
    if object.len() == 0 {
        None
    } else if object[0].0 == key {
        Some(object[0].1)
    } else {
        member(object.drop_first(), key)
    }
}

/// What `serde_json` makes of `line`: the members of the object that `line`
/// spells, or `None` where `line` is no JSON text or spells another value.
pub uninterp spec fn parsed_object(line: Seq<u8>) -> Option<ObjectView>;

/// Calls `serde_json::from_slice` for a `serde_json::Value`, and copies what
/// it yields. The contract gives the outcome a name, `parsed_object`, and
/// claims nothing else of it: that the same bytes always give the same
/// outcome. The body returns `None` where the call fails or the value is no
/// object. Of an object it returns the members in the order in which
/// `serde_json`'s map hands them out, each value copied by its variant: a
/// number as what `as_u64` and `as_i64` return for it, an array or an object
/// as `Composite`.
#[verifier::external_body]
fn parse_object(line: &[u8]) -> (parsed: Option<JsonObject>)
    ensures
        match parsed {
            Some(object) => parsed_object(line@) == Some(object@),
            None => parsed_object(line@) is None,
        },
{
    match serde_json::from_slice::<Value>(line) {
        Ok(Value::Object(map)) => Some(JsonObject {
            entries: map.into_iter().map(|(key, value)| (key, match value {
                Value::Null => JsonScalar::Null,
                Value::Bool(b) => JsonScalar::Bool(b),
                Value::Number(n) => JsonScalar::Number { unsigned: n.as_u64(), signed: n.as_i64() },
                Value::String(s) => JsonScalar::Text(s),
                Value::Array(_) => JsonScalar::Composite,
                Value::Object(_) => JsonScalar::Composite,
            })).collect(),
        }),
        Ok(_) => None,
        Err(_) => None,
    }
}

impl JsonObject {
    /// Parses one line as JSON text, with `serde_json`. The result is what
    /// `parsed_object` names: the members of the object that the line spells,
    /// where it spells one.
    pub fn parse(line: &[u8]) -> (parsed: Option<JsonObject>)
        ensures
            match parsed {
                Some(object) => parsed_object(line@) == Some(object@),
                None => parsed_object(line@) is None,
            },
    {
        parse_object(line)
    }

    /// The value of the first member whose key is `key`.
    pub fn get(&self, key: &str) -> (found: Option<&JsonScalar>)
        ensures
            match found {
                Some(value) => member(self@, key@) == Some(value@),
                None => member(self@, key@) is None,
            },
    {
        let wanted = key.to_owned();
        let n: usize = self.entries.len();
        let mut i: usize = 0;
        assert(self@.skip(0) =~= self@);
        while i < n
            invariant
                i <= n,
                n == self.entries@.len(),
                wanted@ == key@,
                member(self@, key@) == member(self@.skip(i as int), key@),
            decreases n - i,
        {
            let ghost rest = self@.skip(i as int);
            assert(rest.drop_first() =~= self@.skip(i + 1));
            if self.entries[i].0 == wanted {
                return Some(&self.entries[i].1);
            }
            i += 1;
        }
        None
    }
}

/// `object` with the value of its member `i` replaced by `value`.
pub open spec fn with_value(object: ObjectView, i: int, value: ScalarView) -> ObjectView
    recommends
        0 <= i < object.len(),
{
    object.update(i, (object[i].0, value))
}

/// Whether a member before `i` has the key of member `i`, so that member `i`
/// is never the one found.
pub open spec fn is_shadowed(object: ObjectView, i: int) -> bool {
    exists|j: int| 0 <= j < i && #[trigger] object[j].0 == object[i].0
}

/// Replacing the value of a member changes nothing under any other key.
pub proof fn lemma_member_of_other_key(
    object: ObjectView,
    i: int,
    value: ScalarView,
    key: Seq<char>,
)
    requires
        0 <= i < object.len(),
        key != object[i].0,
    ensures
        member(with_value(object, i, value), key) == member(object, key),
    decreases object.len(),
{
    let changed = with_value(object, i, value);
    if i == 0 {
        assert(changed.drop_first() =~= object.drop_first());
    } else {
        let rest = object.drop_first();
        assert(changed.drop_first() =~= with_value(rest, i - 1, value));
        lemma_member_of_other_key(rest, i - 1, value, key);
    }
}

/// Under the key of the member whose value is replaced, the new value is
/// found, unless the member is shadowed: then what is found stays the same,
/// and something is found.
pub proof fn lemma_member_of_same_key(object: ObjectView, i: int, value: ScalarView)
    requires
        0 <= i < object.len(),
    ensures
        !is_shadowed(object, i) ==> member(with_value(object, i, value), object[i].0) == Some(
            value,
        ),
        is_shadowed(object, i) ==> member(with_value(object, i, value), object[i].0) == member(
            object,
            object[i].0,
        ),
        member(object, object[i].0) is Some,
    decreases object.len(),
{
    let changed = with_value(object, i, value);
    let key = object[i].0;
    if i > 0 {
        let rest = object.drop_first();
        assert(changed.drop_first() =~= with_value(rest, i - 1, value));
        lemma_member_of_same_key(rest, i - 1, value);
        if object[0].0 == key {
            assert(is_shadowed(object, i));
        } else if is_shadowed(object, i) {
            let j = choose|j: int| 0 <= j < i && #[trigger] object[j].0 == object[i].0;
            assert(rest[j - 1].0 == rest[i - 1].0);
        } else if is_shadowed(rest, i - 1) {
            let j = choose|j: int| 0 <= j < i - 1 && #[trigger] rest[j].0 == rest[i - 1].0;
            assert(object[j + 1].0 == object[i].0);
        }
    }
}

} // verus!
