//! The compute part of the attachment file store.  The file store itself
//! — writing, reading and deleting blobs under the managed application
//! data directory — is filesystem I/O and lives outside the library; what
//! is verified here is how the absolute target path of a saved
//! attachment is formed.

use vstd::prelude::*;
use vstd::string::StringExecFns;

verus! {

/// The absolute path a named attachment is saved under: the managed
/// attachment directory, a path separator, and the file name.  A second
/// save with the same name yields the same path and overwrites the
/// first.
pub fn attachment_path(dir: &str, name: &str) -> (r: String)
    ensures
        r@ == dir@ + "/"@ + name@,
{
    String::from_str(dir).concat("/").concat(name)
}

} // verus!
