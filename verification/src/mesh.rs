//! The plugin mesh: the same plugin host without upload tokens, whose
//! plugins answer with an [`InvokeResult`].
use vstd::prelude::*;
use crate::cache::LibraryCache;
use crate::context::{InvokeResult, invoke_view};
use crate::upload::{finish_upload, library_path, UploadDecision, UploadForm};

verus! {

/// The mesh's state: the object storage client plugins are fetched from,
/// and the libraries loaded so far.
pub struct MeshContext<S, L> {
    pub storage: Option<S>,
    pub libs: LibraryCache<L>,
}

impl<S, L> MeshContext<S, L> {
    /// A mesh with no storage and no library loaded.
    pub fn new() -> (c: Self)
        ensures
            c.storage is None,
            c.libs@ == Map::<Seq<char>, L>::empty(),
    {
        MeshContext { storage: None, libs: LibraryCache::new() }
    }

    /// Keeps a clone of `storage` as the mesh's storage client.
    pub fn set_storage(&mut self, storage: &S)
        where
            S: Clone,
        ensures
            final(self).storage matches Some(s) && cloned::<S>(*storage, s),
            final(self).libs@ == old(self).libs@,
    {
        self.storage = Some(storage.clone());
    }
}

/// Decides an upload to the mesh once its form has been read; see
/// [`finish_upload`].
pub fn plugin_upload<S, L>(ctx: &mut MeshContext<S, L>, libs_path: &str, form: UploadForm) -> (d: UploadDecision)
    ensures
        final(ctx).storage == old(ctx).storage,
        (form.name_view() is None || form.bytes_view() is None) ==> (d matches UploadDecision::Reject { status, message }
            && status == 400 && message@ == "Missing plugin name or file"@ && final(ctx).libs@ == old(ctx).libs@),
        form.name_view() matches Some(n) ==> (form.bytes_view() matches Some(b) ==> (d matches UploadDecision::Store { path, bytes }
            && path@ == library_path(libs_path@, n) && bytes@ == b && final(ctx).libs@ == old(ctx).libs@.remove(n))),
{
    finish_upload(&mut ctx.libs, libs_path, form)
}

/// The reply of the mesh's invocation route: 200 and the output when the
/// plugin succeeded, 500 and its error bytes when it failed.
pub fn invoke_handler(result: InvokeResult) -> (r: (u16, Vec<u8>))
    ensures
        r.0 == (if invoke_view(result).0 { 200u16 } else { 500u16 }),
        r.1@ == invoke_view(result).1,
{
    match result {
        InvokeResult::Success(output) => (200, output),
        InvokeResult::Failure(err) => (500, err),
    }
}

} // verus!
