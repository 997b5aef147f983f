//! Paths of the workspace, the release binary and the backup of the running
//! binary.

use vstd::prelude::*;

verus! {

/// `target/release/convergio`, where the release build puts the binary.
pub open spec fn release_relative_path() -> Seq<char> {
    "target/release/convergio"@
}

/// `base` joined with the relative path `rel` as `Path::join` does it on
/// Unix: a `/` between them unless `base` is empty or already ends with one.
pub open spec fn join_path(base: Seq<char>, rel: Seq<char>) -> Seq<char> {
    if base.len() == 0 || base.last() == '/' {
        base + rel
    } else {
        base + seq!['/'] + rel
    }
}

/// The newly built release binary of the workspace at `workspace`.
pub fn release_binary_path(workspace: &str) -> (p: String)
    ensures
        p@ == join_path(workspace@, release_relative_path()),
{
    let rel = "target/release/convergio";
    let n = workspace.unicode_len();
    proof {
        reveal_strlit("/");
    }
    assert("/"@ =~= seq!['/']);
    if n == 0 || workspace.get_char(n - 1) == '/' {
        workspace.to_owned().concat(rel)
    } else {
        workspace.to_owned().concat("/").concat(rel)
    }
}

/// The workspace root: the first of `ancestors` (nearest first) that holds
/// both `Cargo.toml` and `crates`, as `has_markers` says of each; `fallback`
/// where none does.
pub fn choose_workspace_root(ancestors: Vec<String>, has_markers: &Vec<bool>, fallback: String) -> (root: String)
    requires
        ancestors@.len() == has_markers@.len(),
    ensures
        forall|i: int|
            0 <= i < has_markers@.len() && #[trigger] has_markers@[i] && (forall|j: int|
                0 <= j < i ==> !has_markers@[j]) ==> root@ == ancestors@[i]@,
        (forall|i: int| 0 <= i < has_markers@.len() ==> !has_markers@[i]) ==> root@ == fallback@,
{
    let ghost given = ancestors@;
    let mut list = ancestors;
    let mut k: usize = 0;
    while k < has_markers.len()
        invariant
            list@ == given,
            given == ancestors@,
            list@.len() == has_markers@.len(),
            k <= has_markers@.len(),
            forall|j: int| 0 <= j < k ==> !has_markers@[j],
        decreases has_markers@.len() - k,
    {
        if has_markers[k] {
            assert(forall|j: int| 0 <= j < k ==> !has_markers@[j]);
            let root = list.swap_remove(k);
            assert(root == given[k as int]);
            assert forall|i: int|
                0 <= i < has_markers@.len() && #[trigger] has_markers@[i] && (forall|j: int|
                    0 <= j < i ==> !has_markers@[j]) implies root@ == given[i]@ by {
                if i > k {
                    assert(has_markers@[k as int]);
                }
            }
            return root;
        }
        k = k + 1;
    }
    fallback
}

/// What `Path::with_extension` gives for `path` and `ext`.
pub uninterp spec fn path_with_extension(path: Seq<char>, ext: Seq<char>) -> Seq<char>;

/// Calls `std::path::Path::with_extension` and reads the result back as text.
/// Trusted: the result is a function of the two arguments alone. Since both
/// are UTF-8, so is the result, and the lossy reading changes nothing. The
/// extension holds no path separator (`/`, nor `\\` where that is one too):
/// std documents that setting such an extension panics.
#[verifier::external_body]
fn with_extension(path: &str, ext: &str) -> (r: String)
    requires
        !ext@.contains('/'),
        !ext@.contains('\\'),
    ensures
        r@ == path_with_extension(path@, ext@),
{
    std::path::Path::new(path).with_extension(ext).to_string_lossy().into_owned()
}

/// The path where the running binary at `current` is backed up: the same
/// path with the extension `bak`.
pub fn backup_path(current: &str) -> (p: String)
    ensures
        p@ == path_with_extension(current@, "bak"@),
{
    proof {
        reveal_strlit("bak");
    }
    assert(!"bak"@.contains('/') && !"bak"@.contains('\\')) by {
        assert forall|i: int| 0 <= i < "bak"@.len() implies "bak"@[i] != '/' && "bak"@[i] != '\\' by {
            assert("bak"@[0] == 'b' && "bak"@[1] == 'a' && "bak"@[2] == 'k');
        }
    }
    with_extension(current, "bak")
}

} // verus!
