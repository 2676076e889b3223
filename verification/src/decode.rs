//! From one report line to one record.
//!
//! A report line is a JSON object. Each field of a record is found under one
//! of its external names, read by the rule for its kind (text, number, flag),
//! and the record is made only if every field it requires was read.

use crate::json::{
    lemma_member_of_other_key, lemma_member_of_same_key, member, with_value, JsonObject,
    JsonScalar, ObjectView, ScalarView,
};
use crate::text::{decimal_value, is_decimal, parse_decimal, parse_u64};
use vstd::prelude::*;

verus! {

/// The fields of the three record schemas.
#[derive(Debug, Clone, Copy, PartialEq, Eq, Structural)]
pub enum Field {
    SessionId,
    SessionIndex,
    SessionName,
    SessionAttached,
    SessionActivity,
    WindowId,
    WindowIndex,
    WindowName,
    WindowActivity,
    WindowWidth,
    WindowHeight,
    WindowCellWidth,
    WindowCellHeight,
    WindowZoomed,
    WindowMarked,
    PaneId,
    PaneIndex,
    PaneWidth,
    PaneHeight,
    PaneActive,
    PaneCurrentCommand,
}

/// Why a line gave no record.
#[derive(Debug, Clone, Copy, PartialEq, Eq, Structural)]
pub enum DecodeError {
    /// The line does not spell a JSON object.
    Malformed,
    /// The object has no member under any name of this field.
    MissingField(Field),
    /// The member found for this field is not of the field's kind.
    WrongShape(Field),
}

/// The name under which tmux itself reports `field`.
pub open spec fn qualified_name(field: Field) -> Seq<char> {
    match field {
        Field::SessionId => "session_id"@,
        Field::SessionIndex => "session_index"@,
        Field::SessionName => "session_name"@,
        Field::SessionAttached => "session_attached"@,
        Field::SessionActivity => "session_activity"@,
        Field::WindowId => "window_id"@,
        Field::WindowIndex => "window_index"@,
        Field::WindowName => "window_name"@,
        Field::WindowActivity => "window_activity"@,
        Field::WindowWidth => "window_width"@,
        Field::WindowHeight => "window_height"@,
        Field::WindowCellWidth => "window_cell_width"@,
        Field::WindowCellHeight => "window_cell_height"@,
        Field::WindowZoomed => "window_zoomed_flag"@,
        Field::WindowMarked => "window_marked_flag"@,
        Field::PaneId => "pane_id"@,
        Field::PaneIndex => "pane_index"@,
        Field::PaneWidth => "pane_width"@,
        Field::PaneHeight => "pane_height"@,
        Field::PaneActive => "pane_active"@,
        Field::PaneCurrentCommand => "pane_current_command"@,
    }
}

/// The name that `field` has inside its record.
pub open spec fn short_name(field: Field) -> Seq<char> {
    match field {
        Field::SessionId => "id"@,
        Field::SessionIndex => "index"@,
        Field::SessionName => "name"@,
        Field::SessionAttached => "attached"@,
        Field::SessionActivity => "activity"@,
        Field::WindowId => "id"@,
        Field::WindowIndex => "index"@,
        Field::WindowName => "name"@,
        Field::WindowActivity => "activity"@,
        Field::WindowWidth => "width"@,
        Field::WindowHeight => "height"@,
        Field::WindowCellWidth => "cell_width"@,
        Field::WindowCellHeight => "cell_height"@,
        Field::WindowZoomed => "is_zoomed"@,
        Field::WindowMarked => "is_marked"@,
        Field::PaneId => "id"@,
        Field::PaneIndex => "index"@,
        Field::PaneWidth => "width"@,
        Field::PaneHeight => "height"@,
        Field::PaneActive => "active"@,
        Field::PaneCurrentCommand => "current_command"@,
    }
}

/// The alias table: the external names of `field`, the preferred one first.
pub open spec fn alias_names(field: Field) -> Seq<Seq<char>> {
    seq![qualified_name(field), short_name(field)]
}

/// The value of the member that stands for a field with these names: that of
/// the first name, in the order given, that is a key of `object`.
pub open spec fn first_named(object: ObjectView, names: Seq<Seq<char>>) -> Option<ScalarView>
    decreases names.len(),
{
    if names.len() == 0 {
        None
    } else {
        match member(object, names[0]) {
            Some(value) => Some(value),
            None => first_named(object, names.drop_first()),
        }
    }
}

/// The value that `object` holds for `field`, if it holds one.
pub open spec fn field_value(object: ObjectView, field: Field) -> Option<ScalarView> {
    first_named(object, alias_names(field))
}

/// A text field is read from a string, and from nothing else.
pub open spec fn text_of(value: ScalarView) -> Option<Seq<char>> {
    match value {
        ScalarView::Text(t) => Some(t),
        _ => None,
    }
}

/// A number field is read from a number that is a `u64`, or from a string
/// that is a decimal numeral for one.
pub open spec fn number_of(value: ScalarView) -> Option<u64> {
    match value {
        ScalarView::Number { unsigned, signed } => unsigned,
        ScalarView::Text(t) => parse_u64(t),
        _ => None,
    }
}

/// A flag is read from a literal boolean; from a number that is an integer,
/// which is true unless it is zero; and from a string that holds `true`,
/// `false`, or a decimal numeral, which is true unless its value is zero.
/// A number that is no integer of 64 bits is not a flag.
pub open spec fn flag_of(value: ScalarView) -> Option<bool> {
    match value {
        ScalarView::Bool(b) => Some(b),
        ScalarView::Number { unsigned, signed } => match signed {
            Some(n) => Some(n != 0),
            None => match unsigned {
                Some(n) => Some(n != 0),
                None => None,
            },
        },
        ScalarView::Text(t) => if t == "true"@ {
            Some(true)
        } else if t == "false"@ {
            Some(false)
        } else {
            match parse_u64(t) {
                Some(n) => Some(n != 0),
                None => None,
            }
        },
        _ => None,
    }
}

/// Whether a member says that an optional field has no value: `null`, or
/// the empty string.
pub open spec fn is_blank(value: ScalarView) -> bool {
    match value {
        ScalarView::Null => true,
        ScalarView::Text(t) => t.len() == 0,
        _ => false,
    }
}

/// What a required text field decodes to.
pub open spec fn text_field(object: ObjectView, field: Field) -> Result<Seq<char>, DecodeError> {
    match field_value(object, field) {
        None => Err(DecodeError::MissingField(field)),
        Some(value) => match text_of(value) {
            None => Err(DecodeError::WrongShape(field)),
            Some(t) => Ok(t),
        },
    }
}

/// What a required number field decodes to.
pub open spec fn number_field(object: ObjectView, field: Field) -> Result<u64, DecodeError> {
    match field_value(object, field) {
        None => Err(DecodeError::MissingField(field)),
        Some(value) => match number_of(value) {
            None => Err(DecodeError::WrongShape(field)),
            Some(n) => Ok(n),
        },
    }
}

/// What an optional number field decodes to: nothing where the member is
/// absent or blank, else what the member decodes to as a number.
pub open spec fn optional_number_field(object: ObjectView, field: Field) -> Result<
    Option<u64>,
    DecodeError,
> {
    match field_value(object, field) {
        None => Ok(None),
        Some(value) => if is_blank(value) {
            Ok(None)
        } else {
            match number_of(value) {
                None => Err(DecodeError::WrongShape(field)),
                Some(n) => Ok(Some(n)),
            }
        },
    }
}

/// What a required flag decodes to.
pub open spec fn flag_field(object: ObjectView, field: Field) -> Result<bool, DecodeError> {
    match field_value(object, field) {
        None => Err(DecodeError::MissingField(field)),
        Some(value) => match flag_of(value) {
            None => Err(DecodeError::WrongShape(field)),
            Some(b) => Ok(b),
        },
    }
}

/// The name under which tmux itself reports `field`.
pub fn qualified(field: Field) -> (name: &'static str)
    ensures
        name@ == qualified_name(field),
{
    match field {
        Field::SessionId => "session_id",
        Field::SessionIndex => "session_index",
        Field::SessionName => "session_name",
        Field::SessionAttached => "session_attached",
        Field::SessionActivity => "session_activity",
        Field::WindowId => "window_id",
        Field::WindowIndex => "window_index",
        Field::WindowName => "window_name",
        Field::WindowActivity => "window_activity",
        Field::WindowWidth => "window_width",
        Field::WindowHeight => "window_height",
        Field::WindowCellWidth => "window_cell_width",
        Field::WindowCellHeight => "window_cell_height",
        Field::WindowZoomed => "window_zoomed_flag",
        Field::WindowMarked => "window_marked_flag",
        Field::PaneId => "pane_id",
        Field::PaneIndex => "pane_index",
        Field::PaneWidth => "pane_width",
        Field::PaneHeight => "pane_height",
        Field::PaneActive => "pane_active",
        Field::PaneCurrentCommand => "pane_current_command",
    }
}

/// The name that `field` has inside its record.
pub fn short(field: Field) -> (name: &'static str)
    ensures
        name@ == short_name(field),
{
    match field {
        Field::SessionId | Field::WindowId | Field::PaneId => "id",
        Field::SessionIndex | Field::WindowIndex | Field::PaneIndex => "index",
        Field::SessionName | Field::WindowName => "name",
        Field::SessionAttached => "attached",
        Field::SessionActivity | Field::WindowActivity => "activity",
        Field::WindowWidth | Field::PaneWidth => "width",
        Field::WindowHeight | Field::PaneHeight => "height",
        Field::WindowCellWidth => "cell_width",
        Field::WindowCellHeight => "cell_height",
        Field::WindowZoomed => "is_zoomed",
        Field::WindowMarked => "is_marked",
        Field::PaneActive => "active",
        Field::PaneCurrentCommand => "current_command",
    }
}

/// The alias table: the external names of `field`, the preferred one first.
pub fn aliases(field: Field) -> (names: Vec<&'static str>)
    ensures
        names@.len() == alias_names(field).len(),
        forall|i: int| 0 <= i < names@.len() ==> (#[trigger] names@[i])@ == alias_names(field)[i],
{
    let mut names: Vec<&'static str> = Vec::new();
    names.push(qualified(field));
    names.push(short(field));
    names
}

/// Finds the member of `object` that stands for `field`.
pub fn find<'a>(object: &'a JsonObject, field: Field) -> (found: Option<&'a JsonScalar>)
    ensures
        match found {
            Some(value) => field_value(object@, field) == Some(value@),
            None => field_value(object@, field) is None,
        },
{
    let names = aliases(field);
    let ghost all = alias_names(field);
    let n: usize = names.len();
    let mut i: usize = 0;
    assert(all.skip(0) =~= all);
    while i < n
        invariant
            i <= n,
            n == names@.len(),
            all == alias_names(field),
            n == all.len(),
            forall|k: int| 0 <= k < n ==> (#[trigger] names@[k])@ == all[k],
            first_named(object@, all) == first_named(object@, all.skip(i as int)),
        decreases n - i,
    {
        let ghost rest = all.skip(i as int);
        assert(rest.drop_first() =~= all.skip(i + 1));
        match object.get(names[i]) {
            Some(value) => {
                return Some(value);
            },
            None => {},
        }
        i += 1;
    }
    None
}

/// Whether `text` holds exactly the characters of `word`.
fn same_text(text: &String, word: &str) -> (same: bool)
    ensures
        same == (text@ == word@),
{
    let owned = word.to_owned();
    *text == owned
}

/// Reads a member as text.
pub fn read_text(value: &JsonScalar) -> (text: Option<String>)
    ensures
        match text {
            Some(t) => text_of(value@) == Some(t@),
            None => text_of(value@) is None,
        },
{
    match value {
        JsonScalar::Text(s) => Some(s.clone()),
        _ => None,
    }
}

/// Reads a member as a number.
pub fn read_number(value: &JsonScalar) -> (number: Option<u64>)
    ensures
        number == number_of(value@),
{
    match value {
        JsonScalar::Number { unsigned, signed } => *unsigned,
        JsonScalar::Text(s) => parse_decimal(s.as_str()),
        _ => None,
    }
}

/// Reads a member as a flag.
pub fn read_flag(value: &JsonScalar) -> (flag: Option<bool>)
    ensures
        flag == flag_of(value@),
{
    match value {
        JsonScalar::Bool(b) => Some(*b),
        JsonScalar::Number { unsigned, signed } => match signed {
            Some(n) => Some(*n != 0),
            None => match unsigned {
                Some(n) => Some(*n != 0),
                None => None,
            },
        },
        JsonScalar::Text(s) => {
            if same_text(s, "true") {
                Some(true)
            } else if same_text(s, "false") {
                Some(false)
            } else {
                match parse_decimal(s.as_str()) {
                    Some(n) => Some(n != 0),
                    None => None,
                }
            }
        },
        _ => None,
    }
}

/// Whether a member says that an optional field has no value.
pub fn read_blank(value: &JsonScalar) -> (blank: bool)
    ensures
        blank == is_blank(value@),
{
    match value {
        JsonScalar::Null => true,
        JsonScalar::Text(s) => s.as_str().is_empty(),
        _ => false,
    }
}

/// Decodes a required text field.
pub fn required_text(object: &JsonObject, field: Field) -> (r: Result<String, DecodeError>)
    ensures
        match r {
            Ok(t) => text_field(object@, field) == Ok::<Seq<char>, DecodeError>(t@),
            Err(e) => text_field(object@, field) == Err::<Seq<char>, DecodeError>(e),
        },
{
    match find(object, field) {
        None => Err(DecodeError::MissingField(field)),
        Some(value) => match read_text(value) {
            None => Err(DecodeError::WrongShape(field)),
            Some(t) => Ok(t),
        },
    }
}

/// Decodes a required number field.
pub fn required_number(object: &JsonObject, field: Field) -> (r: Result<u64, DecodeError>)
    ensures
        r == number_field(object@, field),
{
    match find(object, field) {
        None => Err(DecodeError::MissingField(field)),
        Some(value) => match read_number(value) {
            None => Err(DecodeError::WrongShape(field)),
            Some(n) => Ok(n),
        },
    }
}

/// Decodes an optional number field.
pub fn optional_number(object: &JsonObject, field: Field) -> (r: Result<Option<u64>, DecodeError>)
    ensures
        r == optional_number_field(object@, field),
{
    match find(object, field) {
        None => Ok(None),
        Some(value) => {
            if read_blank(value) {
                Ok(None)
            } else {
                match read_number(value) {
                    None => Err(DecodeError::WrongShape(field)),
                    Some(n) => Ok(Some(n)),
                }
            }
        },
    }
}

/// Decodes a required flag.
pub fn required_flag(object: &JsonObject, field: Field) -> (r: Result<bool, DecodeError>)
    ensures
        r == flag_field(object@, field),
{
    match find(object, field) {
        None => Err(DecodeError::MissingField(field)),
        Some(value) => match read_flag(value) {
            None => Err(DecodeError::WrongShape(field)),
            Some(b) => Ok(b),
        },
    }
}

/// The integer flag for one: the number, in whichever way its unsigned
/// reading is given, and the numeral in quotes.
pub open spec fn is_integer_flag(value: ScalarView, truth: bool) -> bool {
    let n: i64 = if truth {
        1
    } else {
        0
    };
    let numeral = if truth {
        "1"@
    } else {
        "0"@
    };
    match value {
        ScalarView::Number { unsigned, signed } => signed == Some(n),
        ScalarView::Text(t) => t == numeral,
        _ => false,
    }
}

/// The literal boolean for one truth value: the literal, bare or in quotes.
pub open spec fn is_literal_flag(value: ScalarView, truth: bool) -> bool {
    let word = if truth {
        "true"@
    } else {
        "false"@
    };
    match value {
        ScalarView::Bool(b) => b == truth,
        ScalarView::Text(t) => t == word,
        _ => false,
    }
}

/// An integer flag and a literal boolean that stand for the same truth value
/// decode to the same flag: to that truth value.
pub proof fn lemma_flag_forms_agree(integer: ScalarView, literal: ScalarView, truth: bool)
    requires
        is_integer_flag(integer, truth),
        is_literal_flag(literal, truth),
    ensures
        flag_of(integer) == Some(truth),
        flag_of(literal) == Some(truth),
{
    reveal_strlit("0");
    reveal_strlit("1");
    reveal_strlit("true");
    reveal_strlit("false");
    if let ScalarView::Text(t) = integer {
        assert(decimal_value(t.drop_last()) == 0);
    }
}

/// Whether `field` is one of the flags.
pub open spec fn is_flag_field(field: Field) -> bool {
    match field {
        Field::SessionAttached | Field::WindowZoomed | Field::WindowMarked | Field::PaneActive => true,
        _ => false,
    }
}

/// Whether `key` is a name of `field`.
pub open spec fn is_name_of(key: Seq<char>, field: Field) -> bool {
    key == qualified_name(field) || key == short_name(field)
}

/// No name of a flag is a name of a field of another kind.
pub proof fn lemma_flag_names_apart(flag: Field, other: Field)
    requires
        is_flag_field(flag),
        !is_flag_field(other),
    ensures
        qualified_name(flag) != qualified_name(other),
        qualified_name(flag) != short_name(other),
        short_name(flag) != qualified_name(other),
        short_name(flag) != short_name(other),
{
    reveal_strlit("session_id");
    reveal_strlit("session_index");
    reveal_strlit("session_name");
    reveal_strlit("session_attached");
    reveal_strlit("session_activity");
    reveal_strlit("window_id");
    reveal_strlit("window_index");
    reveal_strlit("window_name");
    reveal_strlit("window_activity");
    reveal_strlit("window_width");
    reveal_strlit("window_height");
    reveal_strlit("window_cell_width");
    reveal_strlit("window_cell_height");
    reveal_strlit("window_zoomed_flag");
    reveal_strlit("window_marked_flag");
    reveal_strlit("pane_id");
    reveal_strlit("pane_index");
    reveal_strlit("pane_width");
    reveal_strlit("pane_height");
    reveal_strlit("pane_active");
    reveal_strlit("pane_current_command");
    reveal_strlit("id");
    reveal_strlit("index");
    reveal_strlit("name");
    reveal_strlit("attached");
    reveal_strlit("activity");
    reveal_strlit("width");
    reveal_strlit("height");
    reveal_strlit("cell_width");
    reveal_strlit("cell_height");
    reveal_strlit("is_zoomed");
    reveal_strlit("is_marked");
    reveal_strlit("active");
    reveal_strlit("current_command");
    let a = qualified_name(flag);
    let b = short_name(flag);
    let c = qualified_name(other);
    let d = short_name(other);
    assert(a.len() != c.len() || a[0] != c[0] || a[5] != c[5] || a[7] != c[7] || a[9] != c[9]);
    assert(a.len() != d.len() || a[0] != d[0]);
    assert(b.len() != c.len() || b[0] != c[0]);
    assert(b.len() != d.len() || b[0] != d[0] || b[1] != d[1]);
}

/// Replacing the value of member `i` by `a` or by `b` gives the same value
/// for `field`, or gives `a` in the one case and `b` in the other; the first
/// where the key of member `i` is no name of `field`.
pub proof fn lemma_field_value_replaced(
    object: ObjectView,
    i: int,
    a: ScalarView,
    b: ScalarView,
    field: Field,
)
    requires
        0 <= i < object.len(),
    ensures
        ({
            let with_a = field_value(with_value(object, i, a), field);
            let with_b = field_value(with_value(object, i, b), field);
            &&& with_a == with_b || (with_a == Some(a) && with_b == Some(b))
            &&& !is_name_of(object[i].0, field) ==> with_a == with_b
        }),
{
    let key = object[i].0;
    let names = alias_names(field);
    let q = qualified_name(field);
    let s = short_name(field);
    let object_a = with_value(object, i, a);
    let object_b = with_value(object, i, b);
    let tail = names.drop_first();
    assert(first_named(object_a, tail.drop_first()) is None);
    assert(first_named(object_b, tail.drop_first()) is None);
    assert(first_named(object_a, tail) == member(object_a, s));
    assert(first_named(object_b, tail) == member(object_b, s));
    lemma_member_of_same_key(object, i, a);
    lemma_member_of_same_key(object, i, b);
    if key != q {
        lemma_member_of_other_key(object, i, a, q);
        lemma_member_of_other_key(object, i, b, q);
    }
    if key != s {
        lemma_member_of_other_key(object, i, a, s);
        lemma_member_of_other_key(object, i, b, s);
    }
}

} // verus!
