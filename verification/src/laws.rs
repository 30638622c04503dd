//! Properties that relate several operations of the library.
use vstd::prelude::*;
use crate::cache::LibraryCache;
use crate::context::{Context, InvokeResult, log_text};
use vstd::utf8::encode_utf8;
use crate::rpc::must_load;
use crate::http::{json_response_bytes, response_outcome, response_head, HeadParse, HEAD_ROOM};
use crate::decimal::decimal;
use crate::rpc::head_reply;
use crate::daemon::lines;
use vstd::std_specs::cmp::PartialEqSpec;

verus! {

/// A library cached under a name is what a lookup of that name then
/// finds: after `insert(name, lib)`, the cache holds `lib` under `name`.
pub proof fn law_lookup_after_insert<L>(before: LibraryCache<L>, after: LibraryCache<L>, name: Seq<char>, lib: L)
    requires
        after@ == before@.insert(name, lib),
    ensures
        after@.dom().contains(name),
        after@[name] == lib,
{
}

/// Caching a library under one name leaves every other name as it was.
pub proof fn law_insert_keeps_others<L>(before: LibraryCache<L>, after: LibraryCache<L>, name: Seq<char>, lib: L, other: Seq<char>)
    requires
        after@ == before@.insert(name, lib),
        other != name,
    ensures
        after@.dom().contains(other) == before@.dom().contains(other),
        before@.dom().contains(other) ==> after@[other] == before@[other],
{
}

/// Once a name is dropped from the cache (as a successful upload of that
/// plugin does), the next invocation of it loads the library afresh,
/// while the libraries of other plugins stay cached.
pub proof fn law_upload_forces_reload<L>(before: LibraryCache<L>, after: LibraryCache<L>, name: Seq<char>, other: Seq<char>)
    requires
        after@ == before@.remove(name),
        other != name,
    ensures
        must_load(after@, name),
        must_load(after@, other) == must_load(before@, other),
        !must_load(after@, other) ==> after@[other] == before@[other],
{
}

/// Equality of invocation outcomes is an equivalence: reflexive,
/// symmetric and transitive.
pub proof fn law_invoke_result_eq_equivalence(a: InvokeResult, b: InvokeResult, c: InvokeResult)
    ensures
        a.eq_spec(&a),
        a.eq_spec(&b) ==> b.eq_spec(&a),
        a.eq_spec(&b) && b.eq_spec(&c) ==> a.eq_spec(&c),
{
}

/// Logging the messages `msgs` one after another, each call as
/// `Context::log` leaves it (`states[i + 1]` is the context after logging
/// `msgs[i]` into `states[i]`), appends each message and a newline in
/// order: nothing is lost or reordered, and what was logged before stays a
/// prefix.
pub proof fn law_log_accumulates<F>(states: Seq<Context<F>>, msgs: Seq<Seq<char>>)
    requires
        states.len() == msgs.len() + 1,
        forall|i: int| #![trigger msgs[i]] 0 <= i < msgs.len() ==>
            states[i + 1].logged() == states[i].logged() + encode_utf8(msgs[i]).push(10u8),
    ensures
        states.last().logged() == states[0].logged() + log_text(msgs),
        states.last().logged().take(states[0].logged().len() as int) == states[0].logged(),
    decreases msgs.len(),
{
    if msgs.len() > 0 {
        let k = msgs.len() - 1;
        let prev = states.drop_last();
        let front = msgs.drop_last();
        assert forall|i: int| #![trigger front[i]] 0 <= i < front.len() implies
            prev[i + 1].logged() == prev[i].logged() + encode_utf8(front[i]).push(10u8) by {
            assert(msgs[i] == front[i]);
        }
        law_log_accumulates(prev, front);
        assert(msgs[k] == msgs.last());
        assert(states.last().logged() =~= states[0].logged() + log_text(msgs));
    } else {
        assert(states[0].logged() + log_text(msgs) =~= states[0].logged());
    }
    assert(states.last().logged().take(states[0].logged().len() as int) =~= states[0].logged());
}

/// A framed JSON reply ends with its body, unchanged.
pub proof fn law_response_ends_with_body(status: u16, body: Seq<u8>)
    ensures
        json_response_bytes(status, body).len() >= body.len(),
        json_response_bytes(status, body).skip(json_response_bytes(status, body).len() - body.len()) == body,
{
    let r = json_response_bytes(status, body);
    let head = r.take(r.len() - body.len());
    assert(r == head + body);
    assert(r.skip(r.len() - body.len()) =~= body);
}


/// The number that the ASCII digits `s` spell, read in base 10, most
/// significant digit first.
pub open spec fn digits_value(s: Seq<u8>) -> int
    decreases s.len(),
{
    if s.len() == 0 {
        0
    } else {
        digits_value(s.drop_last()) * 10 + (s.last() - 48)
    }
}

/// `s` is how `n` is written in decimal: one or more ASCII digits that
/// read back as `n`, with no leading zero unless `n` is zero.
pub open spec fn writes_number(s: Seq<u8>, n: int) -> bool {
    &&& s.len() >= 1
    &&& forall|i: int| 0 <= i < s.len() ==> 48 <= #[trigger] s[i] <= 57
    &&& digits_value(s) == n
    &&& (s[0] == 48 ==> s.len() == 1)
}

/// The decimal rendering of any number reads back as that number, and
/// has no leading zero.
pub proof fn law_decimal_reads_back(n: nat)
    ensures
        writes_number(decimal(n), n as int),
    decreases n,
{
    if n >= 10 {
        let q = (n / 10) as nat;
        law_decimal_reads_back(q);
        let s = decimal(n);
        assert(s == decimal(q).push((48 + n % 10) as u8));
        assert(s.drop_last() =~= decimal(q));
        assert(s[0] == decimal(q)[0]);
        assert(s.last() == 48 + n % 10);
        assert(digits_value(s) == digits_value(decimal(q)) * 10 + (s.last() - 48));
        assert(q * 10 + n % 10 == n);
        assert(decimal(q)[0] != 48) by {
            let t = decimal(q);
            if t[0] == 48 {
                assert(t.len() == 1);
                assert(t.last() == t[0]);
                assert(t.drop_last().len() == 0);
                assert(digits_value(t) == digits_value(t.drop_last()) * 10 + (t.last() - 48));
            }
        }
        assert(forall|i: int| 0 <= i < s.len() ==> 48 <= #[trigger] s[i] <= 57) by {
            assert forall|i: int| 0 <= i < s.len() implies 48 <= #[trigger] s[i] <= 57 by {
                if i < s.len() - 1 {
                    assert(s[i] == decimal(q)[i]);
                }
            }
        }
    } else {
        let s = decimal(n);
        assert(s.drop_last() =~= Seq::<u8>::empty());
        assert(s.last() == 48 + n);
        assert(digits_value(s) == digits_value(s.drop_last()) * 10 + (s.last() - 48));
    }
}

/// A framed JSON reply carries the status and the body's length in
/// decimal: its status line and `Content-Length` field hold digits that
/// read back as `status` and as the number of bytes of `body`, and the
/// body follows the blank line unchanged.
pub proof fn law_response_fields_read_back(status: u16, body: Seq<u8>)
    ensures
        exists|d1: Seq<u8>, d2: Seq<u8>| #![trigger writes_number(d1, status as int), writes_number(d2, body.len() as int)]
            writes_number(d1, status as int) && writes_number(d2, body.len() as int)
            && json_response_bytes(status, body) == encode_utf8("HTTP/1.1 "@) + d1 + encode_utf8("\r\n"@)
                + encode_utf8("Content-Type: application/json\r\n"@)
                + encode_utf8("Content-Length: "@) + d2 + encode_utf8("\r\n\r\n"@) + body,
{
    law_decimal_reads_back(status as nat);
    law_decimal_reads_back(body.len());
    let d1 = decimal(status as nat);
    let d2 = decimal(body.len());
    assert(writes_number(d1, status as int) && writes_number(d2, body.len() as int));
}

/// The RPC endpoint answers a plugin's output whose head is complete with
/// the status code the plugin wrote and the bytes of that head: the same
/// status and bytes as reading the output as an HTTP response gives.
pub proof fn law_rpc_reply_keeps_plugin_status(out: Seq<u8>)
    requires
        response_head(out, HEAD_ROOM) matches HeadParse::Complete(_, code) && code is Some,
    ensures
        response_head(out, HEAD_ROOM) matches HeadParse::Complete(len, Some(c))
            && head_reply(out, response_head(out, HEAD_ROOM)) == (c, out.take(len as int)),
        response_outcome(out, response_head(out, HEAD_ROOM)) == Ok::<(u16, Seq<u8>), crate::http::ResponseError>(
            head_reply(out, response_head(out, HEAD_ROOM))),
{
}

/// An invocation loads the library exactly when no library is cached
/// under the plugin's name; once one is cached, invocations run it.
pub proof fn law_load_iff_absent<L>(libs: Map<Seq<char>, L>, name: Seq<char>, lib: L)
    ensures
        must_load(libs, name) <==> !libs.dom().contains(name),
        !must_load(libs.insert(name, lib), name),
{
}

/// Listing one more name appends a newline and that name to the listing
/// of the others.
pub proof fn law_lines_push(names: Seq<Seq<char>>, x: Seq<char>)
    requires
        names.len() > 0,
    ensures
        lines(names.push(x)) == lines(names) + "\n"@ + x,
{
    assert(names.push(x).drop_last() =~= names);
}

/// The listing of a single name is that name, and the listing of two
/// non-empty lists one after the other is their listings joined by a
/// newline: every name appears, in order, one per line.
pub proof fn law_lines_concat(a: Seq<Seq<char>>, b: Seq<Seq<char>>)
    requires
        a.len() > 0,
        b.len() > 0,
    ensures
        lines(seq![b[0]]) == b[0],
        lines(a + b) == lines(a) + "\n"@ + lines(b),
    decreases b.len(),
{
    if b.len() == 1 {
        assert(a + b =~= a.push(b[0]));
        law_lines_push(a, b[0]);
        assert(lines(b) == b[0]);
    } else {
        let c = b.drop_last();
        law_lines_concat(a, c);
        assert((a + b).drop_last() =~= a + c);
        assert((a + b).last() == b.last());
        assert(lines(a + b) == lines(a + c) + "\n"@ + b.last());
        assert(lines(b) == lines(c) + "\n"@ + b.last());
        assert(lines(a + b) =~= lines(a) + "\n"@ + lines(b));
    }
}

} // verus!
