//! The three record schemas, and the decoding of one line into a record.

use crate::decode::{
    flag_field, flag_of, is_flag_field, is_name_of, lemma_field_value_replaced,
    lemma_flag_names_apart, number_field, optional_number, optional_number_field, required_flag,
    required_number, required_text, text_field, DecodeError, Field,
};
use crate::json::{parsed_object, with_value, JsonObject, ObjectView, ScalarView};
use crate::types::{PaneView, SessionView, TmuxPane, TmuxSession, TmuxWindow, WindowView};
use vstd::prelude::*;

verus! {

/// A record that one report line decodes to.
pub trait Record: Sized + View {
    /// What a JSON object decodes to: the record, or the error of the first
    /// field, in the order of the schema, that could not be read.
    spec fn decoded(object: ObjectView) -> Result<Self::V, DecodeError>;

    /// Decodes a JSON object.
    fn from_object(object: &JsonObject) -> (r: Result<Self, DecodeError>)
        ensures
            match r {
                Ok(record) => Self::decoded(object@) == Ok::<Self::V, DecodeError>(record@),
                Err(e) => Self::decoded(object@) == Err::<Self::V, DecodeError>(e),
            },
    ;
}

/// What a session object decodes to.
pub open spec fn session_of(object: ObjectView) -> Result<SessionView, DecodeError> {
    match text_field(object, Field::SessionId) {
        Err(e) => Err(e),
        Ok(id) => match optional_number_field(object, Field::SessionIndex) {
            Err(e) => Err(e),
            Ok(index) => match text_field(object, Field::SessionName) {
                Err(e) => Err(e),
                Ok(name) => match flag_field(object, Field::SessionAttached) {
                    Err(e) => Err(e),
                    Ok(attached) => match number_field(object, Field::SessionActivity) {
                        Err(e) => Err(e),
                        Ok(activity) => Ok(
                            SessionView {
                                id,
                                index,
                                name,
                                attached,
                                activity,
                                windows: Seq::empty(),
                            },
                        ),
                    },
                },
            },
        },
    }
}

/// The size of a window: its width and height, and those of one cell.
pub open spec fn window_size_of(object: ObjectView) -> Result<(u64, u64, u64, u64), DecodeError> {
    match number_field(object, Field::WindowWidth) {
        Err(e) => Err(e),
        Ok(width) => match number_field(object, Field::WindowHeight) {
            Err(e) => Err(e),
            Ok(height) => match number_field(object, Field::WindowCellWidth) {
                Err(e) => Err(e),
                Ok(cell_width) => match number_field(object, Field::WindowCellHeight) {
                    Err(e) => Err(e),
                    Ok(cell_height) => Ok((width, height, cell_width, cell_height)),
                },
            },
        },
    }
}

/// What a window object decodes to.
pub open spec fn window_of(object: ObjectView) -> Result<WindowView, DecodeError> {
    match text_field(object, Field::WindowId) {
        Err(e) => Err(e),
        Ok(id) => match number_field(object, Field::WindowIndex) {
            Err(e) => Err(e),
            Ok(index) => match text_field(object, Field::WindowName) {
                Err(e) => Err(e),
                Ok(name) => match number_field(object, Field::WindowActivity) {
                    Err(e) => Err(e),
                    Ok(activity) => match window_size_of(object) {
                        Err(e) => Err(e),
                        Ok(size) => match flag_field(object, Field::WindowZoomed) {
                            Err(e) => Err(e),
                            Ok(is_zoomed) => match flag_field(object, Field::WindowMarked) {
                                Err(e) => Err(e),
                                Ok(is_marked) => Ok(
                                    WindowView {
                                        id,
                                        index,
                                        name,
                                        activity,
                                        width: size.0,
                                        height: size.1,
                                        cell_width: size.2,
                                        cell_height: size.3,
                                        is_zoomed,
                                        is_marked,
                                        panes: Seq::empty(),
                                    },
                                ),
                            },
                        },
                    },
                },
            },
        },
    }
}

/// What a pane object decodes to.
pub open spec fn pane_of(object: ObjectView) -> Result<PaneView, DecodeError> {
    match text_field(object, Field::PaneId) {
        Err(e) => Err(e),
        Ok(id) => match number_field(object, Field::PaneIndex) {
            Err(e) => Err(e),
            Ok(index) => match number_field(object, Field::PaneWidth) {
                Err(e) => Err(e),
                Ok(width) => match number_field(object, Field::PaneHeight) {
                    Err(e) => Err(e),
                    Ok(height) => match flag_field(object, Field::PaneActive) {
                        Err(e) => Err(e),
                        Ok(active) => match text_field(object, Field::PaneCurrentCommand) {
                            Err(e) => Err(e),
                            Ok(current_command) => Ok(
                                PaneView { id, index, width, height, active, current_command },
                            ),
                        },
                    },
                },
            },
        },
    }
}

impl Record for TmuxSession {
    open spec fn decoded(object: ObjectView) -> Result<SessionView, DecodeError> {
        session_of(object)
    }

    fn from_object(object: &JsonObject) -> (r: Result<TmuxSession, DecodeError>) {
        let id = required_text(object, Field::SessionId)?;
        let index = optional_number(object, Field::SessionIndex)?;
        let name = required_text(object, Field::SessionName)?;
        let attached = required_flag(object, Field::SessionAttached)?;
        let activity = required_number(object, Field::SessionActivity)?;
        let session = TmuxSession { id, index, name, attached, activity, windows: Vec::new() };
        assert(session@.windows =~= Seq::empty());
        Ok(session)
    }
}

impl Record for TmuxWindow {
    open spec fn decoded(object: ObjectView) -> Result<WindowView, DecodeError> {
        window_of(object)
    }

    fn from_object(object: &JsonObject) -> (r: Result<TmuxWindow, DecodeError>) {
        let id = required_text(object, Field::WindowId)?;
        let index = required_number(object, Field::WindowIndex)?;
        let name = required_text(object, Field::WindowName)?;
        let activity = required_number(object, Field::WindowActivity)?;
        let width = required_number(object, Field::WindowWidth)?;
        let height = required_number(object, Field::WindowHeight)?;
        let cell_width = required_number(object, Field::WindowCellWidth)?;
        let cell_height = required_number(object, Field::WindowCellHeight)?;
        let is_zoomed = required_flag(object, Field::WindowZoomed)?;
        let is_marked = required_flag(object, Field::WindowMarked)?;
        let window = TmuxWindow {
            id,
            index,
            name,
            activity,
            width,
            height,
            cell_width,
            cell_height,
            is_zoomed,
            is_marked,
            panes: Vec::new(),
        };
        assert(window@.panes =~= Seq::empty());
        Ok(window)
    }
}

impl Record for TmuxPane {
    open spec fn decoded(object: ObjectView) -> Result<PaneView, DecodeError> {
        pane_of(object)
    }

    fn from_object(object: &JsonObject) -> (r: Result<TmuxPane, DecodeError>) {
        let id = required_text(object, Field::PaneId)?;
        let index = required_number(object, Field::PaneIndex)?;
        let width = required_number(object, Field::PaneWidth)?;
        let height = required_number(object, Field::PaneHeight)?;
        let active = required_flag(object, Field::PaneActive)?;
        let current_command = required_text(object, Field::PaneCurrentCommand)?;
        Ok(TmuxPane { id, index, width, height, active, current_command })
    }
}

/// What a report line decodes to: the record of the object that the line
/// spells, and `Malformed` where it spells none.
pub open spec fn line_record<R: Record>(line: Seq<u8>) -> Result<R::V, DecodeError> {
    match parsed_object(line) {
        None => Err(DecodeError::Malformed),
        Some(object) => R::decoded(object),
    }
}

/// Decodes one report line.
pub fn decode_line<R: Record>(line: &[u8]) -> (r: Result<R, DecodeError>)
    ensures
        match r {
            Ok(record) => line_record::<R>(line@) == Ok::<R::V, DecodeError>(record@),
            Err(e) => line_record::<R>(line@) == Err::<R::V, DecodeError>(e),
        },
{
    match JsonObject::parse(line) {
        None => Err(DecodeError::Malformed),
        Some(object) => R::from_object(&object),
    }
}

/// Replacing the value of a flag's member by one that reads as the same flag
/// changes what no field decodes to.
proof fn lemma_field_reads_the_same(
    object: ObjectView,
    i: int,
    flag: Field,
    a: ScalarView,
    b: ScalarView,
    field: Field,
)
    requires
        0 <= i < object.len(),
        is_flag_field(flag),
        is_name_of(object[i].0, flag),
        flag_of(a) == flag_of(b),
    ensures
        is_flag_field(field) ==> flag_field(with_value(object, i, a), field) == flag_field(
            with_value(object, i, b),
            field,
        ),
        !is_flag_field(field) ==> {
            &&& text_field(with_value(object, i, a), field) == text_field(
                with_value(object, i, b),
                field,
            )
            &&& number_field(with_value(object, i, a), field) == number_field(
                with_value(object, i, b),
                field,
            )
            &&& optional_number_field(with_value(object, i, a), field) == optional_number_field(
                with_value(object, i, b),
                field,
            )
        },
{
    lemma_field_value_replaced(object, i, a, b, field);
    if !is_flag_field(field) {
        lemma_flag_names_apart(flag, field);
    }
}

/// The form in which a flag is written is immaterial to the record. Where a
/// member stands under a name of a flag, and its value is replaced by either
/// of two values that read as the same flag (an integer flag and the literal
/// boolean of the same truth, say), the object decodes to the same record, or
/// fails with the same error.
pub proof fn lemma_flag_form_is_immaterial(
    object: ObjectView,
    i: int,
    flag: Field,
    a: ScalarView,
    b: ScalarView,
)
    requires
        0 <= i < object.len(),
        is_flag_field(flag),
        is_name_of(object[i].0, flag),
        flag_of(a) == flag_of(b),
    ensures
        session_of(with_value(object, i, a)) == session_of(with_value(object, i, b)),
        window_of(with_value(object, i, a)) == window_of(with_value(object, i, b)),
        pane_of(with_value(object, i, a)) == pane_of(with_value(object, i, b)),
{
    lemma_field_reads_the_same(object, i, flag, a, b, Field::SessionId);
    lemma_field_reads_the_same(object, i, flag, a, b, Field::SessionIndex);
    lemma_field_reads_the_same(object, i, flag, a, b, Field::SessionName);
    lemma_field_reads_the_same(object, i, flag, a, b, Field::SessionAttached);
    lemma_field_reads_the_same(object, i, flag, a, b, Field::SessionActivity);
    lemma_field_reads_the_same(object, i, flag, a, b, Field::WindowId);
    lemma_field_reads_the_same(object, i, flag, a, b, Field::WindowIndex);
    lemma_field_reads_the_same(object, i, flag, a, b, Field::WindowName);
    lemma_field_reads_the_same(object, i, flag, a, b, Field::WindowActivity);
    lemma_field_reads_the_same(object, i, flag, a, b, Field::WindowWidth);
    lemma_field_reads_the_same(object, i, flag, a, b, Field::WindowHeight);
    lemma_field_reads_the_same(object, i, flag, a, b, Field::WindowCellWidth);
    lemma_field_reads_the_same(object, i, flag, a, b, Field::WindowCellHeight);
    lemma_field_reads_the_same(object, i, flag, a, b, Field::WindowZoomed);
    lemma_field_reads_the_same(object, i, flag, a, b, Field::WindowMarked);
    lemma_field_reads_the_same(object, i, flag, a, b, Field::PaneId);
    lemma_field_reads_the_same(object, i, flag, a, b, Field::PaneIndex);
    lemma_field_reads_the_same(object, i, flag, a, b, Field::PaneWidth);
    lemma_field_reads_the_same(object, i, flag, a, b, Field::PaneHeight);
    lemma_field_reads_the_same(object, i, flag, a, b, Field::PaneActive);
    lemma_field_reads_the_same(object, i, flag, a, b, Field::PaneCurrentCommand);
}

/// Every record that decodes is well formed, and holds no child: the lists
/// of windows and of panes are empty.
pub proof fn lemma_decoded_records_hold_no_children(object: ObjectView)
    ensures
        session_of(object) matches Ok(session) ==> session.windows.len() == 0
            && session.well_formed(),
        window_of(object) matches Ok(window) ==> window.panes.len() == 0 && window.well_formed(),
{
}

} // verus!
