//! The error body that the services answer with, and its status code.

use vstd::prelude::*;

verus! {

/// An error answer: `error` names the category, `message` describes the case.
#[derive(Debug)]
pub struct ErrorResponse {
    pub error: String,
    pub message: String,
}

/// The HTTP status that an error category maps to.
pub open spec fn status_for(error: Seq<char>) -> u16 {
    if error == "NotFound"@ {
        404
    } else if error == "Unauthorized"@ {
        401
    } else if error == "Forbidden"@ {
        403
    } else if error == "BadRequest"@ {
        400
    } else if error == "Conflict"@ {
        409
    } else {
        500
    }
}

impl ErrorResponse {
    /// The HTTP status of this answer, decided by its category alone.
    pub fn status_code(&self) -> (r: u16)
        ensures
            r == status_for(self.error@),
    {
        let e = self.error.as_str();
        if crate::text::str_eq(e, "NotFound") {
            404
        } else if crate::text::str_eq(e, "Unauthorized") {
            401
        } else if crate::text::str_eq(e, "Forbidden") {
            403
        } else if crate::text::str_eq(e, "BadRequest") {
            400
        } else if crate::text::str_eq(e, "Conflict") {
            409
        } else {
            500
        }
    }
}

} // verus!
