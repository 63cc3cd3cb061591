use vstd::prelude::*;
use crate::errors::{ErrorKind, ToolError, spec_command_failure_message};

verus! {

/// Decides what a finished command reports: on a zero exit status the
/// captured standard output is returned as the success text, and on a
/// non-zero status an internal error carrying the captured standard-error
/// text is returned instead.
pub fn classify_command_output(success: bool, stdout_text: String, stderr_text: &str) -> (r:
    Result<String, ToolError>)
    ensures
        match r {
            Ok(out) => success && out@ == stdout_text@,
            Err(e) => !success && e.kind == ErrorKind::Internal && e.message@
                == spec_command_failure_message(stderr_text@),
        },
{
    if success {
        Ok(stdout_text)
    } else {
        Err(ToolError::command_failed(stderr_text))
    }
}

} // verus!
