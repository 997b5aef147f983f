//! The lifecycle status of a build and its stored name.

use vstd::prelude::*;
use crate::text::str_equal;

verus! {

/// Build status lifecycle.
#[derive(Debug, Clone, Copy, PartialEq, Eq, Structural)]
pub enum BuildStatus {
    Queued,
    Building,
    Testing,
    Compiling,
    Succeeded,
    Failed,
    Deployed,
}

/// The name under which a status is stored and shown.
pub open spec fn status_name(s: BuildStatus) -> Seq<char> {
    match s {
        BuildStatus::Queued => "queued"@,
        BuildStatus::Building => "building"@,
        BuildStatus::Testing => "testing"@,
        BuildStatus::Compiling => "compiling"@,
        BuildStatus::Succeeded => "succeeded"@,
        BuildStatus::Failed => "failed"@,
        BuildStatus::Deployed => "deployed"@,
    }
}

/// The status that a stored name stands for; a name that is none of the
/// seven reads as `Failed`.
pub open spec fn status_from_name(n: Seq<char>) -> BuildStatus {
    if n == "queued"@ {
        BuildStatus::Queued
    } else if n == "building"@ {
        BuildStatus::Building
    } else if n == "testing"@ {
        BuildStatus::Testing
    } else if n == "compiling"@ {
        BuildStatus::Compiling
    } else if n == "succeeded"@ {
        BuildStatus::Succeeded
    } else if n == "deployed"@ {
        BuildStatus::Deployed
    } else {
        BuildStatus::Failed
    }
}

impl BuildStatus {
    /// The status that the stored name `s` stands for; an unknown name reads as
    /// `Failed`.
    pub fn parse_status(s: &str) -> (r: Self)
        ensures
            r == status_from_name(s@),
    {
        if str_equal(s, "queued") {
            BuildStatus::Queued
        } else if str_equal(s, "building") {
            BuildStatus::Building
        } else if str_equal(s, "testing") {
            BuildStatus::Testing
        } else if str_equal(s, "compiling") {
            BuildStatus::Compiling
        } else if str_equal(s, "succeeded") {
            BuildStatus::Succeeded
        } else if str_equal(s, "deployed") {
            BuildStatus::Deployed
        } else {
            BuildStatus::Failed
        }
    }

    /// The name of the status, as it is stored and shown.
    pub fn as_str(&self) -> (r: &'static str)
        ensures
            r@ == status_name(*self),
    {
        match self {
            BuildStatus::Queued => "queued",
            BuildStatus::Building => "building",
            BuildStatus::Testing => "testing",
            BuildStatus::Compiling => "compiling",
            BuildStatus::Succeeded => "succeeded",
            BuildStatus::Failed => "failed",
            BuildStatus::Deployed => "deployed",
        }
    }

    /// The name of the status as an owned string.
    pub fn to_string(&self) -> (r: String)
        ensures
            r@ == status_name(*self),
    {
        self.as_str().to_owned()
    }
}

/// Reading back the name of a status gives that status.
pub proof fn lemma_status_name_roundtrip(s: BuildStatus)
    ensures
        status_from_name(status_name(s)) == s,
{
    reveal_strlit("queued");
    reveal_strlit("building");
    reveal_strlit("testing");
    reveal_strlit("compiling");
    reveal_strlit("succeeded");
    reveal_strlit("failed");
    reveal_strlit("deployed");
    assert("failed"@[0] != "queued"@[0]);
    assert("compiling"@[0] != "succeeded"@[0]);
    assert("building"@[0] != "deployed"@[0]);
    assert("queued"@.len() == 6 && "failed"@.len() == 6 && "testing"@.len() == 7);
    assert("building"@.len() == 8 && "deployed"@.len() == 8);
    assert("compiling"@.len() == 9 && "succeeded"@.len() == 9);
}

/// Two statuses with the same name are the same status.
pub proof fn lemma_status_name_injective(s: BuildStatus, t: BuildStatus)
    requires
        status_name(s) == status_name(t),
    ensures
        s == t,
{
    lemma_status_name_roundtrip(s);
    lemma_status_name_roundtrip(t);
}

} // verus!
