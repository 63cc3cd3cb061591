use vstd::prelude::*;

verus! {

/// The closed set of failure kinds a tool operation can report.
///
/// Every failure is terminal to the single request that raised it: nothing is
/// retried, and no partial result accompanies an error.
#[derive(Clone, Copy, Debug, PartialEq, Eq, Structural)]
pub enum ErrorKind {
    /// A referenced identifier or file path does not exist.
    NotFound,
    /// A caller-supplied value cannot be used as given.
    InvalidInput,
    /// An unexpected failure in shared state, text decoding, or file writing.
    Internal,
    /// A dependent external call failed or returned an unusable result.
    Upstream,
}

/// An error returned by a tool operation: a kind and a human-readable
/// message that names the offending input where that helps the caller
/// correct itself.
#[derive(Debug)]
pub struct ToolError {
    pub kind: ErrorKind,
    pub message: String,
}

/// The message reported when an instant identifier is not registered.
/// It names the identifier so the caller can self-correct.
pub open spec fn spec_not_found_message(id: Seq<char>) -> Seq<char> {
    "no instant is registered under the identifier "@ + id
}

/// The message reported when a freshly drawn identifier is already present.
pub open spec fn spec_collision_message() -> Seq<char> {
    "a freshly generated identifier collided with an existing one"@
}

/// The message reported when a file path cannot be read.
pub open spec fn spec_file_not_found_message(path: Seq<char>) -> Seq<char> {
    "the file is not found or unreadable at the path "@ + path
}

/// The message reported when file bytes are not valid text.
pub open spec fn spec_invalid_text_message() -> Seq<char> {
    "the file holds bytes that are not valid text"@
}

/// The message reported when a file cannot be created.
pub open spec fn spec_file_create_message(path: Seq<char>) -> Seq<char> {
    "failed to create a file at the path "@ + path
}

/// The message reported when file contents cannot be written.
pub open spec fn spec_file_write_message() -> Seq<char> {
    "failed to write the file contents"@
}

/// The message reported when a command cannot be launched.
pub open spec fn spec_command_launch_message(cmd: Seq<char>) -> Seq<char> {
    "the command could not be launched: "@ + cmd
}

/// The message reported when a command exits with a non-zero status.
pub open spec fn spec_command_failure_message(stderr_text: Seq<char>) -> Seq<char> {
    "the command failed: "@ + stderr_text
}

/// The message reported when a network fetch fails.
pub open spec fn spec_fetch_failure_message(url: Seq<char>) -> Seq<char> {
    "failed to fetch the url "@ + url
}

/// The message reported when a fetched response body is not text.
pub open spec fn spec_fetch_body_message() -> Seq<char> {
    "the response body is not text"@
}

/// The message reported when the shared registry lock cannot be acquired.
pub open spec fn spec_lock_poisoned_message() -> Seq<char> {
    "failed to acquire the shared registry lock"@
}

impl ToolError {
    /// An identifier that no instant is registered under.
    pub fn not_found(id: &str) -> (r: ToolError)
        ensures
            r.kind == ErrorKind::NotFound,
            r.message@ == spec_not_found_message(id@),
    {
        let mut message = "no instant is registered under the identifier ".to_owned();
        message.append(id);
        ToolError { kind: ErrorKind::NotFound, message }
    }

    /// A freshly generated identifier that was already registered.
    pub fn identifier_collision() -> (r: ToolError)
        ensures
            r.kind == ErrorKind::Internal,
            r.message@ == spec_collision_message(),
    {
        ToolError {
            kind: ErrorKind::Internal,
            message: "a freshly generated identifier collided with an existing one".to_owned(),
        }
    }

    /// A file path that cannot be read.
    pub fn file_not_found(path: &str) -> (r: ToolError)
        ensures
            r.kind == ErrorKind::NotFound,
            r.message@ == spec_file_not_found_message(path@),
    {
        let mut message = "the file is not found or unreadable at the path ".to_owned();
        message.append(path);
        ToolError { kind: ErrorKind::NotFound, message }
    }

    /// File bytes that are not valid text.
    pub fn invalid_text() -> (r: ToolError)
        ensures
            r.kind == ErrorKind::Internal,
            r.message@ == spec_invalid_text_message(),
    {
        ToolError {
            kind: ErrorKind::Internal,
            message: "the file holds bytes that are not valid text".to_owned(),
        }
    }

    /// A file path at which a file cannot be created.
    pub fn file_create_failed(path: &str) -> (r: ToolError)
        ensures
            r.kind == ErrorKind::Internal,
            r.message@ == spec_file_create_message(path@),
    {
        let mut message = "failed to create a file at the path ".to_owned();
        message.append(path);
        ToolError { kind: ErrorKind::Internal, message }
    }

    /// A failure to write file contents after the file was created.
    pub fn file_write_failed() -> (r: ToolError)
        ensures
            r.kind == ErrorKind::Internal,
            r.message@ == spec_file_write_message(),
    {
        ToolError {
            kind: ErrorKind::Internal,
            message: "failed to write the file contents".to_owned(),
        }
    }

    /// A command line that could not be launched at all.
    pub fn command_launch_failed(cmd: &str) -> (r: ToolError)
        ensures
            r.kind == ErrorKind::InvalidInput,
            r.message@ == spec_command_launch_message(cmd@),
    {
        let mut message = "the command could not be launched: ".to_owned();
        message.append(cmd);
        ToolError { kind: ErrorKind::InvalidInput, message }
    }

    /// A command that ran but exited with a non-zero status; the message
    /// carries the captured standard-error text.
    pub fn command_failed(stderr_text: &str) -> (r: ToolError)
        ensures
            r.kind == ErrorKind::Internal,
            r.message@ == spec_command_failure_message(stderr_text@),
    {
        let mut message = "the command failed: ".to_owned();
        message.append(stderr_text);
        ToolError { kind: ErrorKind::Internal, message }
    }

    /// A network fetch that failed before a body was received.
    pub fn fetch_failed(url: &str) -> (r: ToolError)
        ensures
            r.kind == ErrorKind::Upstream,
            r.message@ == spec_fetch_failure_message(url@),
    {
        let mut message = "failed to fetch the url ".to_owned();
        message.append(url);
        ToolError { kind: ErrorKind::Upstream, message }
    }

    /// A fetched response whose body is not text.
    pub fn fetch_body_not_text() -> (r: ToolError)
        ensures
            r.kind == ErrorKind::Upstream,
            r.message@ == spec_fetch_body_message(),
    {
        ToolError { kind: ErrorKind::Upstream, message: "the response body is not text".to_owned() }
    }

    /// A poisoned or otherwise unacquirable shared registry lock.
    pub fn lock_poisoned() -> (r: ToolError)
        ensures
            r.kind == ErrorKind::Internal,
            r.message@ == spec_lock_poisoned_message(),
    {
        ToolError {
            kind: ErrorKind::Internal,
            message: "failed to acquire the shared registry lock".to_owned(),
        }
    }
}

} // verus!
