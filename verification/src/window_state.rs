//! The saved layout of a window: the record, the file it is kept in, and the
//! load that never fails.

use crate::json::{field_of, json_parse, parse_document, read_field, Json, JsonField, ParseError};
use vstd::prelude::*;
use vstd::string::StringExecFns;

verus! {

/// A length in logical pixels, carried as the bit pattern of an IEEE 754
/// double. The library passes lengths on and never computes with them.
#[derive(Clone, Copy, Debug, PartialEq, Eq)]
pub struct Length {
    pub bits: u64,
}

/// What was saved of a window. Every field stands alone: an unset field
/// means that nothing was saved for it, not zero.
#[derive(Clone, Copy, Debug, PartialEq, Eq)]
pub struct WindowState {
    pub x: Option<i32>,
    pub y: Option<i32>,
    pub width: Option<Length>,
    pub height: Option<Length>,
    pub maximized: Option<bool>,
    pub fullscreen: Option<bool>,
}

/// The record with nothing saved.
pub open spec fn unset_state() -> WindowState {
    WindowState { x: None, y: None, width: None, height: None, maximized: None, fullscreen: None }
}

impl Default for WindowState {
    fn default() -> (state: Self)
        ensures
            state == unset_state(),
    {
        WindowState {
            x: None,
            y: None,
            width: None,
            height: None,
            maximized: None,
            fullscreen: None,
        }
    }
}

/// A member read as an optional length.
pub open spec fn length_of(field: JsonField) -> Result<Option<Length>, ParseError> {
    match field.spec_optional_double() {
        Ok(Some(bits)) => Ok(Some(Length { bits })),
        Ok(None) => Ok(None),
        Err(e) => Err(e),
    }
}

impl WindowState {
    /// The record that six members of a document make: `x` and `y` optional
    /// 32-bit integers, `width` and `height` optional numbers, `maximized`
    /// and `fullscreen` optional flags. One member of another kind refuses
    /// the whole record.
    pub open spec fn spec_from_fields(
        x: JsonField,
        y: JsonField,
        width: JsonField,
        height: JsonField,
        maximized: JsonField,
        fullscreen: JsonField,
    ) -> Result<WindowState, ParseError> {
        match (
            x.spec_optional_i32(),
            y.spec_optional_i32(),
            length_of(width),
            length_of(height),
            maximized.spec_optional_bool(),
            fullscreen.spec_optional_bool(),
        ) {
            (Ok(x), Ok(y), Ok(width), Ok(height), Ok(maximized), Ok(fullscreen)) => Ok(
                WindowState { x, y, width, height, maximized, fullscreen },
            ),
            _ => Err(ParseError::InvalidField),
        }
    }

    /// Makes the record from the six members that it reads.
    #[verifier::when_used_as_spec(spec_from_fields)]
    pub fn from_fields(
        x: JsonField,
        y: JsonField,
        width: JsonField,
        height: JsonField,
        maximized: JsonField,
        fullscreen: JsonField,
    ) -> (r: Result<WindowState, ParseError>)
        ensures
            r == WindowState::spec_from_fields(x, y, width, height, maximized, fullscreen),
    {
        let x = match x.optional_i32() {
            Ok(value) => value,
            Err(e) => {
                return Err(e);
            },
        };
        let y = match y.optional_i32() {
            Ok(value) => value,
            Err(e) => {
                return Err(e);
            },
        };
        let width = match width.optional_double() {
            Ok(Some(bits)) => Some(Length { bits }),
            Ok(None) => None,
            Err(e) => {
                return Err(e);
            },
        };
        let height = match height.optional_double() {
            Ok(Some(bits)) => Some(Length { bits }),
            Ok(None) => None,
            Err(e) => {
                return Err(e);
            },
        };
        let maximized = match maximized.optional_bool() {
            Ok(value) => value,
            Err(e) => {
                return Err(e);
            },
        };
        let fullscreen = match fullscreen.optional_bool() {
            Ok(value) => value,
            Err(e) => {
                return Err(e);
            },
        };
        Ok(WindowState { x, y, width, height, maximized, fullscreen })
    }
}

/// The record a parsed document stands for: the document must be an object;
/// of its members only the six of [`WindowState`] are read.
pub open spec fn state_of_document(doc: Option<Json>) -> Result<WindowState, ParseError> {
    match doc {
        None => Err(ParseError::Syntax),
        Some(json) => if json is Object {
            WindowState::spec_from_fields(
                field_of(json, "x"@),
                field_of(json, "y"@),
                field_of(json, "width"@),
                field_of(json, "height"@),
                field_of(json, "maximized"@),
                field_of(json, "fullscreen"@),
            )
        } else {
            Err(ParseError::NotAnObject)
        },
    }
}

/// Parses the text of a window state file.
pub fn parse_window_state(text: &str) -> (r: Result<WindowState, ParseError>)
    ensures
        r == state_of_document(json_parse(text@)),
{
    match parse_document(text) {
        Err(_) => Err(ParseError::Syntax),
        Ok(doc) => {
            if doc.is_object() {
                WindowState::from_fields(
                    read_field(&doc, "x"),
                    read_field(&doc, "y"),
                    read_field(&doc, "width"),
                    read_field(&doc, "height"),
                    read_field(&doc, "maximized"),
                    read_field(&doc, "fullscreen"),
                )
            } else {
                Err(ParseError::NotAnObject)
            }
        },
    }
}

/// What loading yields: the record in the file where it was read and
/// parses, the unset record where it could not be read (`read` is `None`)
/// or does not parse.
pub open spec fn loaded_state(read: Option<Seq<char>>) -> WindowState {
    match read {
        None => unset_state(),
        Some(text) => match state_of_document(json_parse(text)) {
            Ok(state) => state,
            Err(_) => unset_state(),
        },
    }
}

/// Loads a window's state from what reading its file gave: the text, or
/// `None` where the file could not be read. A missing or corrupt file never
/// stands in the way of opening the window.
pub fn load_window_state(read: Option<&str>) -> (state: WindowState)
    ensures
        state == loaded_state(
            match read {
                Some(text) => Some(text@),
                None => None,
            },
        ),
        read is None ==> state == unset_state(),
{
    match read {
        None => WindowState::default(),
        Some(text) => match parse_window_state(text) {
            Ok(state) => state,
            Err(_) => WindowState::default(),
        },
    }
}

/// The name of the file that keeps the state of the window `label`: the
/// label, then a fixed suffix.
pub open spec fn file_name_of(label: Seq<char>) -> Seq<char> {
    label + "-window-state.json"@
}

/// Names the file that keeps the state of the window `label`.
pub fn state_file_name(label: &str) -> (name: String)
    ensures
        name@ == file_name_of(label@),
{
    let mut name = label.to_owned();
    name.append("-window-state.json");
    name
}

/// The directory that holds the state files: the application's data
/// directory; the working directory where that is not known; `fallback`
/// where neither is.
pub fn state_directory<P>(app_data_dir: Option<P>, working_dir: Option<P>, fallback: P) -> (dir: P)
    ensures
        dir == match app_data_dir {
            Some(known) => known,
            None => match working_dir {
                Some(known) => known,
                None => fallback,
            },
        },
{
    match app_data_dir {
        Some(known) => known,
        None => match working_dir {
            Some(known) => known,
            None => fallback,
        },
    }
}

/// One file for each label: windows with different labels never share a
/// state file.
pub proof fn law_each_label_has_its_own_file(one: Seq<char>, other: Seq<char>)
    requires
        file_name_of(one) == file_name_of(other),
    ensures
        one == other,
{
    let suffix = "-window-state.json"@;
    assert(one.len() == other.len()) by {
        assert((one + suffix).len() == one.len() + suffix.len());
        assert((other + suffix).len() == other.len() + suffix.len());
    }
    assert forall|i: int| 0 <= i < one.len() implies one[i] == other[i] by {
        assert((one + suffix)[i] == one[i]);
        assert((other + suffix)[i] == other[i]);
    }
    assert(one =~= other);
}

} // verus!
