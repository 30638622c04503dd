//! Invoking a plugin through the daemon: what to load, what the plugin is
//! handed, and how its output becomes the HTTP reply.
use vstd::prelude::*;
use vstd::string::StringExecFns;
use vstd::utf8::encode_utf8;
use crate::cache::LibraryCache;
use crate::http::{parse_response_head, response_head, HeadParse, HEAD_ROOM};
use crate::json::{encode_json_byte_array, json_byte_array};
use crate::text::str_bytes;

verus! {

broadcast use vstd::string::group_string_axioms;

/// A fresh random identifier from `uuid::Uuid::new_v4()`, in the
/// hyphenated form that `Uuid`'s `Display` writes, which is 36 characters
/// long. Which identifier comes back is left to chance.
#[verifier::external_body]
fn random_id() -> (id: String)
    ensures
        id@.len() == 36,
{
    uuid::Uuid::new_v4().to_string()
}

/// The temporary file a library fetched under the identifier `id` is
/// written to before it is loaded.
pub fn temp_path_for(id: &str) -> (path: String)
    ensures
        path@ == "/tmp/"@ + id@,
{
    let mut path = "/tmp/".to_owned();
    path.append(id);
    path
}

/// A fresh temporary file for a fetched library: `/tmp/` and a random
/// 36-character identifier.
pub fn temp_library_path() -> (path: String)
    ensures
        exists|id: Seq<char>| id.len() == 36 && path@ == "/tmp/"@ + id,
{
    let id = random_id();
    temp_path_for(id.as_str())
}

/// The bytes a plugin is invoked with: its input encoded as a JSON array
/// of numbers.
pub fn plugin_input(input: &Vec<u8>) -> (buf: Vec<u8>)
    ensures
        buf@ == json_byte_array(input@),
{
    encode_json_byte_array(input)
}

/// The next step of invoking a plugin.
pub enum InvokeStep {
    /// Fetch the object `key` of the bucket `bucket`, write it to
    /// `temp_path`, load it from there and cache it under `key`.
    Load { bucket: String, key: String, temp_path: String },
    /// The library is cached: run its entry point.
    Run,
}

/// Whether invoking `name` has to load its library first.
pub open spec fn must_load<L>(libs: Map<Seq<char>, L>, name: Seq<char>) -> bool {
    !libs.dom().contains(name)
}

/// The first step of invoking the plugin `lib_name`, given the cache of
/// loaded libraries: load it from the bucket `plugins` unless it is cached.
pub fn plan_invoke<L>(libs: &LibraryCache<L>, lib_name: &str) -> (step: InvokeStep)
    ensures
        libs@.dom().contains(lib_name@) ==> step is Run,
        !libs@.dom().contains(lib_name@) ==> step is Load,
        !must_load(libs@, lib_name@) ==> step is Run,
        must_load(libs@, lib_name@) ==> (step matches InvokeStep::Load { bucket, key, temp_path }
            && bucket@ == "plugins"@ && key@ == lib_name@
            && exists|id: Seq<char>| id.len() == 36 && temp_path@ == "/tmp/"@ + id),
{
    if libs.contains_key(lib_name) {
        InvokeStep::Run
    } else {
        InvokeStep::Load {
            bucket: "plugins".to_owned(),
            key: lib_name.to_owned(),
            temp_path: temp_library_path(),
        }
    }
}

/// The reply the daemon's RPC endpoint sends for a plugin's `output`
/// whose head parsed as `head`: a complete head gives its status code and
/// the head's bytes; otherwise 200 and the whole output.
pub open spec fn head_reply(output: Seq<u8>, head: HeadParse) -> (u16, Seq<u8>) {
    match head {
        HeadParse::Complete(len, code) => (
            match code {
                Some(c) => c,
                None => 0u16,
            },
            output.take(len as int),
        ),
        _ => (200u16, output),
    }
}

/// Whether a head gives a status code that HTTP accepts (three digits,
/// 100 to 999), when it is complete.
pub open spec fn head_status_valid(head: HeadParse) -> bool {
    head matches HeadParse::Complete(_, code) ==> (code matches Some(c) && 100 <= c <= 999)
}

/// The reply for a plugin's `output` whose head parsed as `head`.
pub fn reply_from_head(output: Vec<u8>, head: HeadParse) -> (r: (u16, Vec<u8>))
    requires
        head matches HeadParse::Complete(len, _) ==> len <= output@.len(),
        head_status_valid(head),
    ensures
        (r.0, r.1@) == head_reply(output@, head),
        head matches HeadParse::Complete(len, Some(c)) ==> r.0 == c && r.1@ == output@.take(len as int),
        head !is Complete ==> r.0 == 200 && r.1@ == output@,
{
    match head {
        HeadParse::Complete(len, code) => {
            let status: u16 = match code {
                Some(c) => c,
                None => 0,
            };
            let mut body = output;
            body.truncate(len);
            (status, body)
        },
        _ => (200, output),
    }
}

/// Whether the daemon's RPC endpoint can answer `outcome`: a failure
/// always can; a plugin's output can unless its head is complete with a
/// status code that HTTP cannot carry.
pub open spec fn rpc_answerable(outcome: Result<Vec<u8>, String>) -> bool {
    outcome matches Ok(out) ==> head_status_valid(response_head(out@, HEAD_ROOM))
}

/// The reply of the daemon's RPC endpoint for the outcome of an
/// invocation: the error's text with 500 on failure; on success, the
/// plugin's output read as an HTTP response (see [`head_reply`]). A head
/// that is complete with a status code below 100 cannot be answered (no
/// HTTP status carries it), so such outputs are left out; see
/// [`try_rpc_handler`] for the endpoint that tells them apart.
pub fn rpc_handler(outcome: Result<Vec<u8>, String>) -> (r: (u16, Vec<u8>))
    requires
        rpc_answerable(outcome),
    ensures
        outcome matches Err(msg) ==> r.0 == 500 && r.1@ == encode_utf8(msg@),
        outcome matches Ok(out) ==> (r.0, r.1@) == head_reply(out@, response_head(out@, HEAD_ROOM)),
        outcome matches Ok(out) ==> (response_head(out@, HEAD_ROOM) matches HeadParse::Complete(len, Some(c))
            ==> r.0 == c && r.1@ == out@.take(len as int)),
{
    match outcome {
        Ok(output) => {
            let head = parse_response_head(output.as_slice(), HEAD_ROOM);
            reply_from_head(output, head)
        },
        Err(msg) => (500, str_bytes(msg.as_str())),
    }
}

/// The daemon's RPC endpoint on any outcome: `None` where the plugin's
/// output has a complete head whose status code is below 100, which the
/// endpoint cannot answer (the route panics there); otherwise the reply of
/// [`rpc_handler`].
pub fn try_rpc_handler(outcome: Result<Vec<u8>, String>) -> (r: Option<(u16, Vec<u8>)>)
    ensures
        r is Some <==> rpc_answerable(outcome),
        outcome matches Err(msg) ==> (r matches Some(p) && p.0 == 500 && p.1@ == encode_utf8(msg@)),
        outcome matches Ok(out) ==> (r matches Some(p) ==> (p.0, p.1@) == head_reply(out@, response_head(out@, HEAD_ROOM))),
        outcome matches Ok(out) ==> (response_head(out@, HEAD_ROOM) matches HeadParse::Complete(len, Some(c))
            ==> (100 <= c ==> (r matches Some(p) && p.0 == c && p.1@ == out@.take(len as int)))),
{
    let answerable = match &outcome {
        Ok(output) => match parse_response_head(output.as_slice(), HEAD_ROOM) {
            HeadParse::Complete(_, Some(c)) => 100 <= c,
            HeadParse::Complete(_, None) => false,
            _ => true,
        },
        Err(_) => true,
    };
    if answerable {
        Some(rpc_handler(outcome))
    } else {
        None
    }
}

/// The reply of the daemon's RPC route: 200 and the output on success,
/// 500 and the error's text on failure.
pub fn rpc_reply(outcome: Result<Vec<u8>, String>) -> (r: (u16, Vec<u8>))
    ensures
        outcome matches Ok(out) ==> r.0 == 200 && r.1@ == out@,
        outcome matches Err(msg) ==> r.0 == 500 && r.1@ == encode_utf8(msg@),
{
    match outcome {
        Ok(output) => (200, output),
        Err(msg) => (500, str_bytes(msg.as_str())),
    }
}

} // verus!
