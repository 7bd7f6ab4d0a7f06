//! Output file naming.
//!
//! A save needs a file name: either the one the user typed, or a fresh
//! `screenshot-` name built from a random alphanumeric part.  Drawing the
//! random part calls an outside generator; checking a candidate against
//! the file system is the caller's business, so the caller may ask for
//! further candidates until one is free.

use vstd::prelude::*;
use vstd::string::StringExecFns;

verus! {

/// The characters a random name part is drawn from.
pub open spec fn name_charset() -> Seq<char> {
    "1234567890abcdefghijklmnopqrstuvwxyzABCDEFGHIJKLMNOPQRSTUVWXYZ"@
}

/// Relies on `random_string::generate`: the result has exactly `len`
/// characters, each drawn from `charset`; it panics only on an empty
/// charset, which the precondition rules out.
#[verifier::external_body]
fn random_from(len: usize, charset: &str) -> (r: String)
    requires
        charset@.len() > 0,
    ensures
        r@.len() == len,
        forall|i: int| 0 <= i < len ==> charset@.contains(#[trigger] r@[i]),
{
    random_string::generate(len, charset)
}

/// Draws a random name part of the given length from the alphanumeric
/// charset.  Each call may return a different value.
pub fn random_name_part(len: usize) -> (r: String)
    ensures
        r@.len() == len,
        forall|i: int| 0 <= i < len ==> name_charset().contains(#[trigger] r@[i]),
{
    proof {
        reveal_strlit("1234567890abcdefghijklmnopqrstuvwxyzABCDEFGHIJKLMNOPQRSTUVWXYZ");
    }
    random_from(len, "1234567890abcdefghijklmnopqrstuvwxyzABCDEFGHIJKLMNOPQRSTUVWXYZ")
}

/// The name a save uses: the name the user typed, or, when the field was
/// left empty, a `screenshot-` name built around the random part.
pub fn file_name(data_name: &str, random_part: &str) -> (r: String)
    ensures
        data_name@.len() == 0 ==> r@ == "screenshot-"@ + random_part@,
        data_name@.len() > 0 ==> r@ == data_name@,
{
    if data_name.is_empty() {
        let mut s = "screenshot-".to_owned();
        s.append(random_part);
        s
    } else {
        data_name.to_owned()
    }
}

/// The full output path: directory, file name, a dot, the extension.
pub fn output_path(dir: &str, name: &str, ext: &str) -> (r: String)
    ensures
        r@ == dir@ + name@ + "."@ + ext@,
{
    let mut s = dir.to_owned();
    s.append(name);
    s.append(".");
    s.append(ext);
    s
}

} // verus!
