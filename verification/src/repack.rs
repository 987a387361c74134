//! Names and messages of a conversion: where the extracted files go, how an
//! extracted file is named inside the new archive, and what the new archive
//! is called.

use vstd::prelude::*;
use vstd::string::StringExecFns;
use crate::text::{chars_of, string_of};

verus! {

/// A backslash becomes a forward slash; every other character stays.
pub open spec fn forward_slash(c: char) -> char {
    if c == '\\' {
        '/'
    } else {
        c
    }
}

/// The entry name for a relative path: the path with forward slashes only.
pub open spec fn entry_name_of(relative: Seq<char>) -> Seq<char> {
    relative.map_values(|c: char| forward_slash(c))
}

/// The path of the scratch directory under `base` that carries `token`.
pub open spec fn scratch_path(base: Seq<char>, token: Seq<char>) -> Seq<char> {
    base + "/comics-scanner-conversion/"@ + token
}

/// The name of an extracted file inside the new archive, from its path
/// relative to the directory it was extracted to. The name has the length of
/// the path and holds no backslash.
pub fn zip_entry_name(relative: &str) -> (name: String)
    ensures
        name@ == entry_name_of(relative@),
        forall|i: int| 0 <= i < name@.len() ==> name@[i] != '\\',
{
    let chars = chars_of(relative);
    let n: usize = chars.len();
    let mut out: Vec<char> = Vec::new();
    let mut i: usize = 0;
    while i < n
        invariant
            i <= n,
            n == chars@.len(),
            out@.len() == i,
            forall|j: int| 0 <= j < i ==> out@[j] == forward_slash(chars@[j]),
        decreases n - i,
    {
        let c = chars[i];
        if c == '\\' {
            out.push('/');
        } else {
            out.push(c);
        }
        i += 1;
    }
    assert(out@ =~= entry_name_of(relative@));
    string_of(out.as_slice())
}

/// The file name of the new archive for an input file with this stem.
pub fn cbz_file_name(stem: &str) -> (name: String)
    ensures
        name@ == stem@ + ".cbz"@,
{
    String::from_str(stem).concat(".cbz")
}

/// The message for an extraction that failed, with what the tool wrote to
/// standard error.
pub fn extraction_error(stderr: &str) -> (msg: String)
    ensures
        msg@ == "Extraction failed: "@ + stderr@,
{
    String::from_str("Extraction failed: ").concat(stderr)
}

/// Draws a random version 4 identifier with `uuid::Uuid::new_v4` and writes
/// it in the hyphenated form of its `Display`, which is 36 characters long.
/// Nothing is claimed of which identifier comes out.
#[verifier::external_body]
fn fresh_token() -> (token: String)
    ensures
        token@.len() == 36,
{
    uuid::Uuid::new_v4().to_string()
}

/// The path of the scratch directory under `base` that carries `token`.
pub fn scratch_dir_for(base: &str, token: &str) -> (path: String)
    ensures
        path@ == scratch_path(base@, token@),
{
    String::from_str(base).concat("/comics-scanner-conversion/").concat(token)
}

/// The path of a scratch directory under `base` for one conversion, with a
/// fresh random token so that conversions that run together do not meet.
pub fn scratch_dir(base: &str) -> (path: String)
    ensures
        exists|token: Seq<char>| token.len() == 36 && path@ == scratch_path(base@, token),
{
    let token = fresh_token();
    scratch_dir_for(base, token.as_str())
}

} // verus!
