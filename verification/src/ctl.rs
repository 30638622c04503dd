//! The addresses and request bodies of the command line client.
use vstd::prelude::*;
use vstd::string::StringExecFns;
use vstd::utf8::encode_utf8;
use crate::text::str_bytes;

verus! {

broadcast use vstd::string::group_string_axioms;

/// The daemon's base address: the configured one, or
/// `http://localhost:8080`.
pub fn plugind_url(configured: Option<String>) -> (url: String)
    ensures
        configured matches Some(u) ==> url@ == u@,
        configured is None ==> url@ == "http://localhost:8080"@,
{
    match configured {
        Some(u) => u,
        None => "http://localhost:8080".to_owned(),
    }
}

/// Where the stored plugins are listed.
pub fn plugins_url(base: &str) -> (url: String)
    ensures
        url@ == base@ + "/plugins"@,
{
    let mut url = base.to_owned();
    url.append("/plugins");
    url
}

/// Where a plugin is deployed to.
pub fn deploy_url(base: &str) -> (url: String)
    ensures
        url@ == base@ + "/plugin"@,
{
    let mut url = base.to_owned();
    url.append("/plugin");
    url
}

/// Where the plugin `lib_name` is invoked.
pub fn rpc_url(base: &str, lib_name: &str) -> (url: String)
    ensures
        url@ == base@ + "/plugins/"@ + lib_name@ + "/rpc"@,
{
    let mut url = base.to_owned();
    url.append("/plugins/");
    url.append(lib_name);
    url.append("/rpc");
    url
}

/// The body of an invocation request: the input's bytes, or nothing.
pub fn rpc_input(input: Option<String>) -> (body: Vec<u8>)
    ensures
        input matches Some(s) ==> body@ == encode_utf8(s@),
        input is None ==> body@ == Seq::<u8>::empty(),
{
    match input {
        Some(s) => str_bytes(s.as_str()),
        None => Vec::new(),
    }
}

} // verus!
