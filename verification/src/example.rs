//! The example plugin shipped with the host.
use vstd::prelude::*;
use vstd::string::StringExecFns;
use vstd::utf8::encode_utf8;
use crate::context::{Context, InvokeResult, invoke_view};
use crate::text::{lossy_string, str_bytes};

verus! {

broadcast use vstd::string::group_string_axioms;

/// The example plugin's entry point: logs a greeting and the input it got
/// (decoded leniently as UTF-8), and answers `Hello World`.
pub fn init<F>(input: Vec<u8>, ctx: Context<F>) -> (r: InvokeResult)
    ensures
        invoke_view(r) == (true, encode_utf8("Hello World"@)),
{
    let mut ctx = ctx;
    ctx.log("log -- Hello World");
    let text = lossy_string(input.as_slice());
    let mut line = "got input: ".to_owned();
    line.append(text.as_str());
    ctx.log(line.as_str());
    InvokeResult::Success(str_bytes("Hello World"))
}

} // verus!
