//! Collecting the fields of a plugin upload form, and deciding what an
//! upload does.
use vstd::prelude::*;
use vstd::string::StringExecFns;
use crate::cache::LibraryCache;
use crate::text::{lossy_string, str_eq, utf8_lossy};

verus! {

broadcast use vstd::string::group_string_axioms;

/// The fields of an upload form read so far: the plugin's name (from the
/// field `name`) and its library bytes (from the field `file`). A later
/// field of the same name replaces an earlier one; other fields are
/// ignored.
pub struct UploadForm {
    plugin_name: Option<String>,
    plugin_bytes: Option<Vec<u8>>,
}

/// The plugin name a form holds, by its characters.
pub open spec fn opt_string_view(s: Option<String>) -> Option<Seq<char>> {
    match s {
        Some(v) => Some(v@),
        None => None,
    }
}

/// The library bytes a form holds.
pub open spec fn opt_bytes_view(b: Option<Vec<u8>>) -> Option<Seq<u8>> {
    match b {
        Some(v) => Some(v@),
        None => None,
    }
}

impl UploadForm {
    /// The plugin name read so far.
    pub closed spec fn name_view(&self) -> Option<Seq<char>> {
        opt_string_view(self.plugin_name)
    }

    /// The library bytes read so far.
    pub closed spec fn bytes_view(&self) -> Option<Seq<u8>> {
        opt_bytes_view(self.plugin_bytes)
    }

    /// A form with no field read yet.
    pub fn new() -> (f: Self)
        ensures
            f.name_view() is None,
            f.bytes_view() is None,
    {
        UploadForm { plugin_name: None, plugin_bytes: None }
    }

    /// Takes in the form field `field` with contents `data`.
    pub fn accept_field(&mut self, field: &str, data: Vec<u8>)
        ensures
            field@ == "name"@ ==> final(self).name_view() == Some(utf8_lossy(data@))
                && final(self).bytes_view() == old(self).bytes_view(),
            field@ == "file"@ ==> final(self).bytes_view() == Some(data@)
                && final(self).name_view() == old(self).name_view(),
            field@ != "name"@ && field@ != "file"@ ==> final(self).name_view() == old(self).name_view()
                && final(self).bytes_view() == old(self).bytes_view(),
    {
        proof {
            reveal_strlit("name");
            reveal_strlit("file");
            assert("name"@[0] != "file"@[0]);
        }
        if str_eq(field, "name") {
            self.plugin_name = Some(lossy_string(data.as_slice()));
        } else if str_eq(field, "file") {
            self.plugin_bytes = Some(data);
        }
    }
}

/// What an upload request comes to.
pub enum UploadDecision {
    /// Answer with this status and text, storing nothing.
    Reject { status: u16, message: &'static str },
    /// Write `bytes` to the file at `path`, then answer 200.
    Store { path: String, bytes: Vec<u8> },
}

/// The file a plugin named `name` is stored in under `libs_path`.
pub open spec fn library_path(libs_path: Seq<char>, name: Seq<char>) -> Seq<char> {
    libs_path + "/"@ + name + ".so"@
}

/// Decides an upload whose form was read into `form`, with libraries kept
/// under `libs_path`: without a name or a file the request is rejected
/// with 400; otherwise the cached library of that name is dropped, so that
/// the next invocation loads the new one, and the bytes are to be stored.
pub fn finish_upload<L>(libs: &mut LibraryCache<L>, libs_path: &str, form: UploadForm) -> (d: UploadDecision)
    ensures
        (form.name_view() is None || form.bytes_view() is None) ==> (d matches UploadDecision::Reject { status, message }
            && status == 400 && message@ == "Missing plugin name or file"@ && final(libs)@ == old(libs)@),
        form.name_view() matches Some(n) ==> (form.bytes_view() matches Some(b) ==> (d matches UploadDecision::Store { path, bytes }
            && path@ == library_path(libs_path@, n) && bytes@ == b && final(libs)@ == old(libs)@.remove(n))),
{
    let UploadForm { plugin_name, plugin_bytes } = form;
    match (plugin_name, plugin_bytes) {
        (Some(name), Some(bytes)) => {
            let _ = libs.remove(name.as_str());
            let mut path = libs_path.to_owned();
            path.append("/");
            path.append(name.as_str());
            path.append(".so");
            UploadDecision::Store { path, bytes }
        },
        _ => UploadDecision::Reject { status: 400, message: "Missing plugin name or file" },
    }
}

} // verus!
