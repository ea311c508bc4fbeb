//! Tool calls that take several steps against the runtime: each step says
//! what to do next, and the caller performs it and reports back.
use vstd::prelude::*;

use crate::errors::NeuroMcpError;
use crate::json::{spec_as_str, spec_get, JsonValue};
use crate::mcp::create::CreateObjectArgs;
use crate::mcp::jsonx::{extract_json_string, spec_extract_json_string};
use crate::text::{concat, contains_str, ends_with, find_seq, has_suffix, owned};

verus! {

/// A step of work against the runtime that a tool call asks for.
#[derive(Debug)]
pub enum FlowAction {
    /// Read a text from the ADT service, accepting this content type.
    ReadText { uri: String, accept: String },
    /// Post to the ADT service.
    PostText { uri: String, body: Option<String>, content_type: Option<String>, accept: Option<String> },
    /// Read a file from disk.
    ReadFile { path: String },
    /// Check the syntax of this content for the object.
    SyntaxCheck { object_url: String, content: String },
    /// Lock the object for modification.
    Lock { object_url: String },
    /// Write the source at this URL under the lock, with the transport
    /// request when one is given.
    WriteSource { uri: String, source: String, lock_handle: String, transport: Option<String> },
    /// Release the lock.
    Unlock { object_url: String, lock_handle: String },
    /// Activate the object.
    Activate { object_url: String, object_name: String },
    /// Create a repository object.
    CreateObject(CreateObjectArgs),
    /// Create the test-class section of a locked class.
    CreateTestInclude { class_name: String, lock_handle: String, transport: String },
    /// Write a section of a locked class.
    UpdateClassInclude {
        class_name: String,
        include_type: String,
        source: String,
        lock_handle: String,
        transport: String,
    },
    /// Run the unit tests of the object.
    RunUnitTests { object_url: String },
    /// Create and activate a program with this source.
    CreateAndActivateProgram {
        program_name: String,
        description: String,
        package_name: String,
        source: String,
    },
    /// Delete the locked object, under the transport request when one is
    /// given.
    DeleteObject { object_url: String, lock_handle: String, transport: Option<String> },
    /// Copy an object under a new name (the clone tool).
    CloneObject { object_type: String, source_name: String, target_name: String, package: String },
}

/// What came of a step: a text (read, posted or written), the result of a
/// tool, or the failure of the step.
#[derive(Debug)]
pub enum FlowEvent {
    Text(String),
    Value(JsonValue),
    Failed(NeuroMcpError),
}

/// The steps whose outcome is a text (the others give a tool result).
pub open spec fn gives_text(a: FlowAction) -> bool {
    a is ReadText || a is PostText || a is ReadFile || a is WriteSource
}

/// An event that can answer `a`: its failure, or a result of its kind.
pub open spec fn answers(a: FlowAction, e: FlowEvent) -> bool {
    e is Failed || (gives_text(a) <==> e is Text)
}

/// The result of the lock step: its lock handle, when the step gives one.
pub open spec fn lock_handle_of(lock: JsonValue) -> Option<Seq<char>> {
    spec_extract_json_string(lock, seq!["lockHandle"@])
}

/// The lock handle that a lock step gave.
pub fn take_lock_handle(lock: &JsonValue, tool_name: &str) -> (r: Result<String, NeuroMcpError>)
    ensures
        match lock_handle_of(*lock) {
            Some(h) => r matches Ok(x) && x@ == h,
            None => r matches Err(NeuroMcpError::InvalidArguments { tool, message }) && tool@
                == tool_name@ && message@ == "LockObject did not return lockHandle"@,
        },
{
    let keys = ["lockHandle"];
    assert(crate::mcp::jsonx::keys_view(keys@) =~= seq!["lockHandle"@]);
    match extract_json_string(lock, &keys) {
        Some(h) => Ok(h),
        None => Err(
            crate::mcp::create::invalid_arguments(tool_name, "LockObject did not return lockHandle"),
        ),
    }
}

/// The URL of the source of an object: the URL itself when it names a
/// class section or a main source, else its main source.
pub open spec fn spec_source_url(object_url: Seq<char>) -> Seq<char> {
    if find_seq(object_url, "/includes/"@) is Some || has_suffix(object_url, "/source/main"@) {
        object_url
    } else {
        object_url + "/source/main"@
    }
}

/// The URL of the source of an object.
pub fn source_url_of(object_url: &str) -> (r: String)
    ensures
        r@ == spec_source_url(object_url@),
{
    if contains_str(object_url, "/includes/") || ends_with(object_url, "/source/main") {
        owned(object_url)
    } else {
        concat(object_url, "/source/main")
    }
}

/// The object that is locked and activated for a change at `object_url`:
/// the class that a class section belongs to, else the object itself.
pub open spec fn spec_owning_object(object_url: Seq<char>) -> Seq<char> {
    if find_seq(object_url, "/includes/"@) is Some {
        match crate::mcp::paths::spec_parent_object_uri(object_url) {
            Some(p) => p,
            None => object_url,
        }
    } else {
        object_url
    }
}

/// The object that is locked and activated for a change at `object_url`.
pub fn owning_object(object_url: &str) -> (r: String)
    ensures
        r@ == spec_owning_object(object_url@),
{
    if contains_str(object_url, "/includes/") {
        match crate::mcp::paths::parent_object_uri_from_include(object_url) {
            Some(p) => p,
            None => owned(object_url),
        }
    } else {
        owned(object_url)
    }
}

/// The name of an object as its URL ends: the last segment, upper-cased.
pub open spec fn spec_object_name_of(url: Seq<char>) -> Seq<char> {
    let pieces = crate::text::split_seq(url, '/');
    crate::text::upper_seq(pieces[pieces.len() - 1])
}

/// The name of an object as its URL ends.
pub fn object_name_of(url: &str) -> (r: String)
    ensures
        r@ == spec_object_name_of(url@),
{
    let pieces = crate::text::split(url, '/');
    proof {
        crate::mcp::paths::lemma_split_nonempty(url@, '/');
    }
    crate::text::to_upper(pieces[pieces.len() - 1].as_str())
}

/// The text under `raw` in a tool result, empty when there is none.
pub open spec fn raw_text_of(result: JsonValue) -> Seq<char> {
    match spec_as_str(spec_get(result, "raw"@)) {
        Some(t) => t,
        None => Seq::empty(),
    }
}

/// The text under `raw` in a tool result.
pub fn raw_text(result: &JsonValue) -> (r: String)
    ensures
        r@ == raw_text_of(*result),
{
    match result.get("raw") {
        Some(v) => match v.as_str() {
            Some(t) => owned(t),
            None => String::new(),
        },
        None => String::new(),
    }
}

} // verus!
