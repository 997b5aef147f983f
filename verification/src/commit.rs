//! The commit that a build is made from, as `git rev-parse --short HEAD`
//! reports it.

use vstd::prelude::*;
use vstd::utf8::{decode_utf8, valid_utf8};
use crate::text::{chars_of, trim, trim_range};

verus! {

/// Calls `String::from_utf8`. Trusted: the result is present exactly when the
/// bytes are valid UTF-8, and then holds the characters they encode, as std
/// documents.
#[verifier::external_body]
fn utf8_string(bytes: Vec<u8>) -> (r: Option<String>)
    ensures
        r is Some <==> valid_utf8(bytes@),
        r matches Some(s) ==> s@ == decode_utf8(bytes@),
{
    String::from_utf8(bytes).ok()
}

/// The label of the commit: the trimmed output of git where git succeeded,
/// its output is UTF-8 and something is left after trimming; `unknown`
/// otherwise.
pub open spec fn commit_label(succeeded: bool, stdout: Seq<u8>) -> Seq<char> {
    if succeeded && valid_utf8(stdout) && trim(decode_utf8(stdout)).len() > 0 {
        trim(decode_utf8(stdout))
    } else {
        "unknown"@
    }
}

/// The commit label from what git printed; `succeeded` is false where git
/// could not be run or exited with an error.
pub fn commit_from_git_output(succeeded: bool, stdout: Vec<u8>) -> (c: String)
    ensures
        c@ == commit_label(succeeded, stdout@),
{
    if succeeded {
        let ghost bytes = stdout@;
        if let Some(text) = utf8_string(stdout) {
            let cs = chars_of(text.as_str());
            let (x, y) = trim_range(&cs, 0, cs.len());
            assert(cs@.subrange(0, cs@.len() as int) =~= cs@);
            if x < y {
                let t = text.as_str().substring_char(x, y).to_owned();
                return t;
            }
        }
    }
    "unknown".to_owned()
}

} // verus!
