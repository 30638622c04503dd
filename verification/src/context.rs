//! What a plugin is handed when it runs, and what it hands back.
use vstd::prelude::*;
use vstd::string::StringSliceAdditionalSpecFns;
use crate::text::{bytes_eq, push_str_bytes};

verus! {

broadcast use vstd::string::group_string_axioms;

/// The outcome of a plugin invocation: output bytes on success, error
/// bytes on failure.
#[derive(Debug)]
pub enum InvokeResult {
    Success(Vec<u8>),
    Failure(Vec<u8>),
}

/// An invocation outcome by its plain values: success and the bytes.
pub open spec fn invoke_view(r: InvokeResult) -> (bool, Seq<u8>) {
    match r {
        InvokeResult::Success(v) => (true, v@),
        InvokeResult::Failure(v) => (false, v@),
    }
}

impl PartialEq for InvokeResult {
    /// Two outcomes are equal when both succeeded or both failed, with the
    /// same bytes.
    fn eq(&self, other: &Self) -> (r: bool) {
        match (self, other) {
            (InvokeResult::Success(a), InvokeResult::Success(b)) => bytes_eq(a.as_slice(), b.as_slice()),
            (InvokeResult::Failure(a), InvokeResult::Failure(b)) => bytes_eq(a.as_slice(), b.as_slice()),
            _ => false,
        }
    }
}

impl vstd::std_specs::cmp::PartialEqSpecImpl for InvokeResult {
    open spec fn obeys_eq_spec() -> bool {
        true
    }

    open spec fn eq_spec(&self, other: &Self) -> bool {
        invoke_view(*self) == invoke_view(*other)
    }
}

impl InvokeResult {
    /// Whether the invocation succeeded.
    pub fn is_ok(&self) -> (r: bool)
        ensures
            r == (*self is Success),
    {
        match self {
            InvokeResult::Success(_) => true,
            InvokeResult::Failure(_) => false,
        }
    }

    /// The output of a successful invocation.
    pub fn unwrap(self) -> (v: Vec<u8>)
        requires
            self is Success,
        ensures
            v@ == invoke_view(self).1,
    {
        match self {
            InvokeResult::Success(v) => v,
            InvokeResult::Failure(_) => {
                assert(false);
                Vec::new()
            },
        }
    }
}

/// The bytes a log holds after `msgs` have been logged into an empty one:
/// each message's UTF-8 bytes followed by a newline, in order.
pub open spec fn log_text(msgs: Seq<Seq<char>>) -> Seq<u8>
    decreases msgs.len(),
{
    if msgs.len() == 0 {
        Seq::empty()
    } else {
        log_text(msgs.drop_last()) + vstd::utf8::encode_utf8(msgs.last()).push(10u8)
    }
}

/// The context a plugin runs in: the function through which it can invoke
/// other plugins, and the log it writes to.
pub struct Context<F> {
    pub invoke: F,
    logs: Vec<u8>,
}

impl<F> Context<F> {
    /// The invocation function the context carries.
    pub closed spec fn invoker(&self) -> F {
        self.invoke
    }

    /// The bytes logged so far.
    pub closed spec fn logged(&self) -> Seq<u8> {
        self.logs@
    }

    /// A context with an empty log.
    pub fn new(invoke: F) -> (c: Self)
        ensures
            c.invoker() == invoke,
            c.logged() == Seq::<u8>::empty(),
    {
        Context { invoke, logs: Vec::new() }
    }

    /// Appends `msg` and a newline to the log.
    pub fn log(&mut self, msg: &str)
        ensures
            final(self).invoker() == old(self).invoker(),
            final(self).logged() == old(self).logged() + msg.spec_bytes().push(10u8),
    {
        push_str_bytes(&mut self.logs, msg);
        self.logs.push(10u8);
    }

    /// The bytes logged so far.
    pub fn logs(&self) -> (l: &[u8])
        ensures
            l@ == self.logged(),
    {
        self.logs.as_slice()
    }
}

} // verus!
