use vstd::prelude::*;

use crate::format::FrameFormat;

verus! {

/// The errors of this library.
#[derive(Clone, Debug, PartialEq, Eq)]
pub enum NokhwaError {
    /// A structure was given values that it does not accept.
    StructureError { structure: String, error: String },
    /// A frame could not be converted from one format to another.
    ProcessFrameError { src: FrameFormat, destination: String, error: String },
}

/// `e` is a [`NokhwaError::StructureError`] about `structure` with the message `error`.
pub open spec fn is_structure_error(e: NokhwaError, structure: Seq<char>, error: Seq<char>) -> bool {
    e matches NokhwaError::StructureError { structure: s, error: m } && s@ == structure && m@ == error
}

/// `e` is a [`NokhwaError::ProcessFrameError`] from `src` to `destination`.
pub open spec fn is_frame_error(e: NokhwaError, src: FrameFormat, destination: Seq<char>) -> bool {
    e matches NokhwaError::ProcessFrameError { src: s, destination: d, .. } && s == src && d@
        == destination
}

/// The message that a [`NokhwaError::ProcessFrameError`] carries; the empty sequence for
/// other errors.
pub open spec fn frame_error_message(e: NokhwaError) -> Seq<char> {
    match e {
        NokhwaError::ProcessFrameError { error, .. } => error@,
        _ => Seq::empty(),
    }
}

} // verus!
