//! The plugin daemon: its shared state, and the decisions of its upload
//! and listing endpoints.
use vstd::prelude::*;
use vstd::string::StringExecFns;
use crate::auth::{bearer_token, hs256_tag_matches, verify_hs256_token};
use crate::text::without_matches;
use crate::cache::LibraryCache;
use crate::text::str_bytes;
use crate::upload::{finish_upload, library_path, UploadDecision, UploadForm};

verus! {

broadcast use vstd::string::group_string_axioms;

/// What an upload's `Authorization` header calls for before any token is
/// checked: let it through, refuse it, or check `token` against `key`.
pub enum UploadGate<'a> {
    Allow,
    Deny,
    Verify { key: &'a [u8], token: String },
}

/// The daemon's state: the object storage client plugins are fetched
/// from, the libraries loaded so far, and the key upload tokens are
/// checked against (no key: uploads are not checked).
pub struct DaemonContext<S, L> {
    pub storage: Option<S>,
    pub libs: LibraryCache<L>,
    pub public_key: Option<Vec<u8>>,
}

impl<S, L> DaemonContext<S, L> {
    /// The bytes of the key upload tokens are checked against.
    pub open spec fn key(&self) -> Option<Seq<u8>> {
        match self.public_key {
            Some(k) => Some(k@),
            None => None,
        }
    }

    /// A daemon with no storage, no library loaded and no upload key.
    pub fn new() -> (c: Self)
        ensures
            c.storage is None,
            c.libs@ == Map::<Seq<char>, L>::empty(),
            c.key() is None,
    {
        DaemonContext { storage: None, libs: LibraryCache::new(), public_key: None }
    }

    /// Keeps a clone of `storage` as the daemon's storage client.
    pub fn set_storage(&mut self, storage: &S)
        where
            S: Clone,
        ensures
            final(self).storage matches Some(s) && cloned::<S>(*storage, s),
            final(self).libs@ == old(self).libs@,
            final(self).key() == old(self).key(),
    {
        self.storage = Some(storage.clone());
    }

    /// Takes the text `key` (if any) as the key upload tokens are checked
    /// against.
    pub fn set_public_key(&mut self, key: &Option<String>)
        ensures
            final(self).key() == match *key {
                Some(k) => Some(vstd::utf8::encode_utf8(k@)),
                None => None::<Seq<u8>>,
            },
            final(self).libs@ == old(self).libs@,
            final(self).storage == old(self).storage,
    {
        self.public_key = match key {
            Some(k) => Some(str_bytes(k.as_str())),
            None => None,
        };
    }

    /// What an upload whose `Authorization` header is `authorization`
    /// calls for: with no key it is let through; with a key and no header
    /// it is refused; otherwise the bearer token of the header (the header
    /// with every `Bearer ` taken out) is to be checked against the key.
    pub fn upload_gate<'a>(&'a self, authorization: Option<&str>) -> (g: UploadGate<'a>)
        ensures
            self.key() is None ==> g is Allow,
            self.key() is Some && authorization is None ==> g is Deny,
            self.key() matches Some(k) ==> (authorization matches Some(h) ==> (g matches UploadGate::Verify { key, token }
                && key@ == k && token@ == without_matches(h@, "Bearer "@))),
    {
        match &self.public_key {
            None => UploadGate::Allow,
            Some(key) => match authorization {
                None => UploadGate::Deny,
                Some(header) => UploadGate::Verify { key: key.as_slice(), token: bearer_token(header) },
            },
        }
    }

    /// Whether an upload whose `Authorization` header is `authorization`
    /// may proceed (see [`DaemonContext::upload_gate`]): always without a
    /// key; never without a header when there is a key; otherwise only when
    /// the bearer token in the header carries the key's authentication tag
    /// and the claims check of that moment passes.
    pub fn authorize_upload(&self, authorization: Option<&str>) -> (ok: bool)
        ensures
            self.key() is None ==> ok,
            self.key() is Some && authorization is None ==> !ok,
            self.key() matches Some(k) && k.len() < 12 ==> !ok,
            ok ==> self.key() is None || (authorization matches Some(h) && self.key() matches Some(k)
                && hs256_tag_matches(k, without_matches(h@, "Bearer "@))),
    {
        match self.upload_gate(authorization) {
            UploadGate::Allow => true,
            UploadGate::Deny => false,
            UploadGate::Verify { key, token } => verify_hs256_token(key, token.as_str()),
        }
    }
}

/// Decides an upload to the daemon once its form has been read; see
/// [`finish_upload`].
pub fn plugin_upload<S, L>(ctx: &mut DaemonContext<S, L>, libs_path: &str, form: UploadForm) -> (d: UploadDecision)
    ensures
        final(ctx).storage == old(ctx).storage,
        final(ctx).key() == old(ctx).key(),
        (form.name_view() is None || form.bytes_view() is None) ==> (d matches UploadDecision::Reject { status, message }
            && status == 400 && message@ == "Missing plugin name or file"@ && final(ctx).libs@ == old(ctx).libs@),
        form.name_view() matches Some(n) ==> (form.bytes_view() matches Some(b) ==> (d matches UploadDecision::Store { path, bytes }
            && path@ == library_path(libs_path@, n) && bytes@ == b && final(ctx).libs@ == old(ctx).libs@.remove(n))),
{
    finish_upload(&mut ctx.libs, libs_path, form)
}

/// The names `names` one per line: joined with `\n`, with no newline at
/// the end.
pub open spec fn lines(names: Seq<Seq<char>>) -> Seq<char>
    decreases names.len(),
{
    if names.len() == 0 {
        Seq::empty()
    } else if names.len() == 1 {
        names[0]
    } else {
        lines(names.drop_last()) + "\n"@ + names.last()
    }
}

/// The reply to a listing of the stored plugins `names`: 200 and the
/// names one per line.
pub fn plugin_list(names: &Vec<String>) -> (r: (u16, String))
    ensures
        r.0 == 200,
        r.1@ == lines(names@.map_values(|s: String| s@)),
{
    let ghost all = names@.map_values(|s: String| s@);
    let mut out = String::new();
    let n = names.len();
    let mut i: usize = 0;
    while i < n
        invariant
            n == names@.len(),
            all.len() == n,
            i <= n,
            forall|j: int| 0 <= j < n ==> #[trigger] all[j] == names@[j]@,
            out@ == lines(all.take(i as int)),
        decreases n - i,
    {
        if i != 0 {
            out.append("\n");
        }
        out.append(names[i].as_str());
        assert(all.take(i + 1).drop_last() =~= all.take(i as int));
        i = i + 1;
    }
    assert(all.take(n as int) =~= all);
    (200, out)
}

} // verus!
