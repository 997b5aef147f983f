//! New build records: a fresh random id, the commit, and the `queued` status.

use vstd::prelude::*;
use crate::status::BuildStatus;

verus! {

pub open spec fn is_lower_hex(c: char) -> bool {
    ('0' <= c <= '9') || ('a' <= c <= 'f')
}

/// `s` is a version-4 UUID in its hyphenated lower-case text form:
/// `xxxxxxxx-xxxx-4xxx-yxxx-xxxxxxxxxxxx` with `y` one of `8`, `9`, `a`, `b`.
pub open spec fn is_uuid_v4_text(s: Seq<char>) -> bool {
    &&& s.len() == 36
    &&& forall|i: int|
        0 <= i < 36 ==> (if i == 8 || i == 13 || i == 18 || i == 23 {
            #[trigger] s[i] == '-'
        } else {
            is_lower_hex(s[i])
        })
    &&& s[14] == '4'
    &&& (s[19] == '8' || s[19] == '9' || s[19] == 'a' || s[19] == 'b')
}

/// Calls `uuid::Uuid::new_v4` and writes the result with `to_string`.
/// Trusted: the text is a version-4 UUID in hyphenated lower-case form, as
/// the crate's source sets the version and variant bits and formats. The
/// random bits are not stated; the crate panics where the operating system
/// gives no random bytes.
#[verifier::external_body]
fn new_uuid_v4_text() -> (s: String)
    ensures
        is_uuid_v4_text(s@),
{
    uuid::Uuid::new_v4().to_string()
}

/// The values with which a new build record is stored.
pub struct NewBuild {
    pub id: String,
    pub status: BuildStatus,
    pub commit_hash: String,
}

/// A new build of `commit`: a fresh version-4 UUID as its id, and the status
/// `Queued`.
pub fn new_build(commit: &str) -> (b: NewBuild)
    ensures
        is_uuid_v4_text(b.id@),
        b.status == BuildStatus::Queued,
        b.commit_hash@ == commit@,
{
    NewBuild { id: new_uuid_v4_text(), status: BuildStatus::Queued, commit_hash: commit.to_owned() }
}

} // verus!
