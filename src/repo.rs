//! Template repository addresses: shorthand expansion, owner and name
//! extraction, and the archive address of a branch.
use vstd::prelude::*;
use vstd::string::*;

verus! {

/// The repository used when none is given.
pub const DEFAULT_TEMPLATE_REPO: &'static str = "erickweyunga/uncovr-templates";

/// Why a repository address was refused.
#[derive(Clone, Copy, Debug, PartialEq, Eq, Structural)]
pub enum RepoUrlError {
    /// The address has no `owner/name` pair at its end.
    Invalid,
}

/// Whether `s` starts with `p`.
pub open spec fn has_prefix(s: Seq<char>, p: Seq<char>) -> bool {
    p.len() <= s.len() && s.subrange(0, p.len() as int) == p
}

/// `s` without its trailing slashes.
pub open spec fn trim_slashes(s: Seq<char>) -> Seq<char>
    decreases s.len(),
{
    if s.len() > 0 && s.last() == '/' {
        trim_slashes(s.drop_last())
    } else {
        s
    }
}

/// The index of the last slash among the first `end` characters of `s`, or
/// -1 if there is none.
pub open spec fn last_slash(s: Seq<char>, end: int) -> int
    decreases end,
{
    if end <= 0 {
        -1
    } else if s[end - 1] == '/' {
        end - 1
    } else {
        last_slash(s, end - 1)
    }
}

/// The owner and name of a repository address: the last two
/// slash-separated segments once trailing slashes are dropped, or `None`
/// when there are fewer than two segments.
pub open spec fn repo_parts(url: Seq<char>) -> Option<(Seq<char>, Seq<char>)> {
    let t = trim_slashes(url);
    let k = last_slash(t, t.len() as int);
    if k < 0 {
        None
    } else {
        let j = last_slash(t, k);
        Some((t.subrange(j + 1, k), t.subrange(k + 1, t.len() as int)))
    }
}

/// A full repository address: addresses with an http or https scheme are
/// kept, anything else is taken as a GitHub `owner/name` shorthand.
pub open spec fn normalized_repo_url(repo: Seq<char>) -> Seq<char> {
    if has_prefix(repo, "http://"@) || has_prefix(repo, "https://"@) {
        repo
    } else {
        "https://github.com/"@ + repo
    }
}

/// The address of the gzipped archive of `branch` of `owner/name`.
pub open spec fn tarball_address(owner: Seq<char>, name: Seq<char>, branch: Seq<char>) -> Seq<
    char,
> {
    "https://api.github.com/repos/"@ + owner + "/"@ + name + "/tarball/"@ + branch
}

/// Whether `s` starts with `p`.
pub fn starts_with(s: &str, p: &str) -> (r: bool)
    ensures
        r == has_prefix(s@, p@),
{
    let n = s.unicode_len();
    let m = p.unicode_len();
    if m > n {
        return false;
    }
    let mut i: usize = 0;
    while i < m
        invariant
            m <= n,
            n == s@.len(),
            m == p@.len(),
            i <= m,
            forall|k: int| 0 <= k < i ==> s@[k] == p@[k],
        decreases m - i,
    {
        if s.get_char(i) != p.get_char(i) {
            assert(s@.subrange(0, m as int)[i as int] != p@[i as int]);
            return false;
        }
        i = i + 1;
    }
    assert(s@.subrange(0, m as int) =~= p@);
    true
}

/// Expands a repository shorthand (`owner/name`) to a full GitHub address;
/// http and https addresses are returned as they are.
pub fn normalize_repo_url(repo: &str) -> (r: String)
    ensures
        r@ == normalized_repo_url(repo@),
{
    if starts_with(repo, "http://") || starts_with(repo, "https://") {
        repo.to_string()
    } else {
        let mut full = "https://github.com/".to_string();
        full.append(repo);
        full
    }
}

/// The full address of the template repository: `repo` if given, else the
/// default one.
pub fn resolve_repo_url(repo: Option<&str>) -> (r: String)
    ensures
        r@ == normalized_repo_url(
            match repo {
                Some(s) => s@,
                None => DEFAULT_TEMPLATE_REPO@,
            },
        ),
{
    match repo {
        Some(s) => normalize_repo_url(s),
        None => normalize_repo_url(DEFAULT_TEMPLATE_REPO),
    }
}

/// Splits a repository address or shorthand into its owner and name.
pub fn parse_repo_url(repo_url: &str) -> (r: Result<(String, String), RepoUrlError>)
    ensures
        r is Ok <==> repo_parts(repo_url@) is Some,
        r matches Ok(p) ==> repo_parts(repo_url@) == Some((p.0@, p.1@)),
{
    let ghost s = repo_url@;
    let n = repo_url.unicode_len();
    let mut end: usize = n;
    assert(s.subrange(0, n as int) =~= s);
    while end > 0 && repo_url.get_char(end - 1) == '/'
        invariant
            end <= n,
            n == s.len(),
            s == repo_url@,
            trim_slashes(s) == trim_slashes(s.subrange(0, end as int)),
        decreases end,
    {
        assert(s.subrange(0, end as int).drop_last() =~= s.subrange(0, end - 1));
        end = end - 1;
    }
    let ghost t = s.subrange(0, end as int);
    assert(trim_slashes(t) == t);
    let mut k: usize = end;
    while k > 0 && repo_url.get_char(k - 1) != '/'
        invariant
            k <= end,
            end <= n,
            n == s.len(),
            s == repo_url@,
            t == s.subrange(0, end as int),
            last_slash(t, end as int) == last_slash(t, k as int),
        decreases k,
    {
        k = k - 1;
    }
    if k == 0 {
        return Err(RepoUrlError::Invalid);
    }
    let slash = k - 1;
    let mut j: usize = slash;
    while j > 0 && repo_url.get_char(j - 1) != '/'
        invariant
            j <= slash,
            slash < end,
            end <= n,
            n == s.len(),
            s == repo_url@,
            t == s.subrange(0, end as int),
            last_slash(t, slash as int) == last_slash(t, j as int),
        decreases j,
    {
        j = j - 1;
    }
    let owner = repo_url.substring_char(j, slash).to_string();
    let name = repo_url.substring_char(k, end).to_string();
    assert(owner@ =~= t.subrange(j as int, slash as int));
    assert(name@ =~= t.subrange(k as int, end as int));
    Ok((owner, name))
}

/// The address of the gzipped archive of `branch` of `owner/name`.
pub fn tarball_url(owner: &str, name: &str, branch: &str) -> (r: String)
    ensures
        r@ == tarball_address(owner@, name@, branch@),
{
    let mut url = "https://api.github.com/repos/".to_string();
    url.append(owner);
    url.append("/");
    url.append(name);
    url.append("/tarball/");
    url.append(branch);
    url
}

} // verus!
