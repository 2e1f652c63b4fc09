//! SQLSTATE error codes.

use vstd::prelude::*;

verus! {

pub const INVALID_PASSWORD: &'static str = "28P01";

pub const IO_ERROR: &'static str = "58030";

pub const INTERNAL_ERROR: &'static str = "XX000";

pub const DATATYPE_MISMATCH: &'static str = "42804";

pub const UNDEFINED_PSTATEMENT: &'static str = "26000";

pub const INVALID_PSTATEMENT_DEFINITION: &'static str = "42P14";

pub const FEATURE_NOT_SUPPORTED: &'static str = "0A000";

/// A SQLSTATE error code: five characters that tell the frontend what class of
/// failure occurred.
#[derive(Clone, Debug, PartialEq, Eq)]
pub struct SqlState {
    pub code: String,
}

impl View for SqlState {
    type V = Seq<char>;

    open spec fn view(&self) -> Seq<char> {
        self.code@
    }
}

impl SqlState {
    /// The state with the given code.
    pub fn from_code(code: &str) -> (state: SqlState)
        ensures
            state@ == code@,
    {
        SqlState { code: code.to_owned() }
    }

    /// The code of this state.
    pub fn code(&self) -> (code: &str)
        ensures
            code@ == self@,
    {
        self.code.as_str()
    }
}

pub open spec fn option_sqlstate_view(state: Option<SqlState>) -> Option<Seq<char>> {
    match state {
        Some(s) => Some(s@),
        None => None,
    }
}

} // verus!
