//! Which files of a project the template processing leaves alone.
use vstd::prelude::*;
use vstd::string::*;

verus! {

/// The extension of the file name of the path written `path`, as
/// `std::path::Path::extension` computes it.
pub uninterp spec fn path_extension(path: Seq<char>) -> Option<Seq<char>>;

/// Relies on `std::path::Path::extension`: the extension of the path's file
/// name, which depends on the path's text alone.
#[verifier::external_body]
fn extension_of(path: &str) -> (r: Option<String>)
    ensures
        r is None ==> path_extension(path@) is None,
        r matches Some(e) ==> path_extension(path@) == Some(e@),
{
    std::path::Path::new(path).extension().and_then(|e| e.to_str()).map(|e| e.to_string())
}

/// The extensions of binary files.
pub open spec fn binary_extension(e: Seq<char>) -> bool {
    e == "exe"@ || e == "dll"@ || e == "so"@ || e == "dylib"@ || e == "bin"@ || e == "o"@ || e
        == "a"@
}

/// Whether `t` occurs in `s`.
pub open spec fn contains(s: Seq<char>, t: Seq<char>) -> bool {
    exists|i: int| 0 <= i && i + t.len() <= s.len() && #[trigger] s.subrange(i, i + t.len()) == t
}

/// Whether the path written `path` names a binary file.
pub open spec fn binary_path(path: Seq<char>) -> bool {
    path_extension(path) matches Some(e) && binary_extension(e)
}

/// Whether `ext` is the extension of a binary file.
pub fn is_binary_extension(ext: &str) -> (r: bool)
    ensures
        r == binary_extension(ext@),
{
    equal_text(ext, "exe") || equal_text(ext, "dll") || equal_text(ext, "so") || equal_text(
        ext,
        "dylib",
    ) || equal_text(ext, "bin") || equal_text(ext, "o") || equal_text(ext, "a")
}

/// Whether `a` and `b` are the same text.
pub fn equal_text(a: &str, b: &str) -> (r: bool)
    ensures
        r == (a@ == b@),
{
    let n = a.unicode_len();
    if n != b.unicode_len() {
        return false;
    }
    let mut i: usize = 0;
    while i < n
        invariant
            n == a@.len(),
            n == b@.len(),
            i <= n,
            forall|k: int| 0 <= k < i ==> a@[k] == b@[k],
        decreases n - i,
    {
        if a.get_char(i) != b.get_char(i) {
            return false;
        }
        i = i + 1;
    }
    assert(a@ =~= b@);
    true
}

/// Whether `t` occurs in `s`.
pub fn contains_text(s: &str, t: &str) -> (r: bool)
    ensures
        r == contains(s@, t@),
{
    let n = s.unicode_len();
    let m = t.unicode_len();
    if m > n {
        assert(!contains(s@, t@));
        return false;
    }
    let mut i: usize = 0;
    while i <= n - m
        invariant
            m <= n,
            n == s@.len(),
            m == t@.len(),
            i <= n - m + 1,
            forall|k: int| 0 <= k < i ==> #[trigger] s@.subrange(k, k + m) != t@,
        decreases n - m + 1 - i,
    {
        let mut j: usize = 0;
        let mut same = true;
        while j < m
            invariant
                m <= n,
                i <= n - m,
                n == s@.len(),
                m == t@.len(),
                j <= m,
                same == (forall|k: int| 0 <= k < j ==> s@[i + k] == t@[k]),
            decreases m - j,
        {
            if s.get_char(i + j) != t.get_char(j) {
                same = false;
            }
            j = j + 1;
        }
        if same {
            assert(s@.subrange(i as int, i + m) =~= t@);
            return true;
        }
        assert(s@.subrange(i as int, i + m) != t@) by {
            let w = choose|k: int| 0 <= k < m && s@[i + k] != t@[k];
            assert(s@.subrange(i as int, i + m)[w] != t@[w]);
        }
        i = i + 1;
    }
    false
}

/// Whether the path written `path` names a binary file, by its extension.
pub fn is_binary_file(path: &str) -> (r: bool)
    ensures
        r == binary_path(path@),
{
    match extension_of(path) {
        Some(e) => is_binary_extension(e.as_str()),
        None => false,
    }
}

/// Whether template processing skips the path written `path`: it lies in a
/// `target` directory, with either separator, or names a binary file.
pub fn should_skip_path(path: &str) -> (r: bool)
    ensures
        r == (contains(path@, "/target/"@) || contains(path@, "\\target\\"@) || binary_path(
            path@,
        )),
{
    if contains_text(path, "/target/") || contains_text(path, "\\target\\") {
        return true;
    }
    is_binary_file(path)
}

} // verus!
