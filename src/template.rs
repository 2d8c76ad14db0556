//! Placeholder substitution in the text of template files.
//!
//! Each function returns the new text only when it differs from the old,
//! so that the caller rewrites a file only when something changed.
use vstd::prelude::*;
use vstd::string::*;

use crate::paths::equal_text;
use crate::pattern::{pattern_replace_all, regex_compiles, regex_replaced};

verus! {

/// The regular expression of the project-name placeholder.
pub const PROJECT_NAME_PLACEHOLDER: &'static str = "\\{\\{project_name\\}\\}";

/// The placeholder written for key `key`: `{{key}}`.
pub open spec fn placeholder_of(key: Seq<char>) -> Seq<char> {
    "{{"@ + key + "}}"@
}

/// `s` with every non-overlapping occurrence of `p`, from left to right,
/// replaced by `t`.
pub open spec fn replaced(s: Seq<char>, p: Seq<char>, t: Seq<char>) -> Seq<char>
    decreases s.len(),
{
    if p.len() == 0 || s.len() < p.len() {
        s
    } else if s.subrange(0, p.len() as int) == p {
        t + replaced(s.skip(p.len() as int), p, t)
    } else {
        seq![s[0]] + replaced(s.drop_first(), p, t)
    }
}

/// `s` with the placeholder of each key replaced by its value, one pair
/// after the other.
pub open spec fn filled(s: Seq<char>, pairs: Seq<(String, String)>) -> Seq<char>
    decreases pairs.len(),
{
    if pairs.len() == 0 {
        s
    } else {
        filled(replaced(s, placeholder_of(pairs[0].0@), pairs[0].1@), pairs.drop_first())
    }
}

/// The new text of a file, if it differs from the old one.
pub open spec fn changed(before: Seq<char>, after: Seq<char>) -> Option<Seq<char>> {
    if after == before {
        None
    } else {
        Some(after)
    }
}

/// Whether `p` occurs in `s` at index `i`.
fn occurs_at(s: &str, p: &str, i: usize) -> (r: bool)
    requires
        i + p@.len() <= s@.len(),
    ensures
        r == (s@.subrange(i as int, i + p@.len()) == p@),
{
    let n = s.unicode_len();
    let m = p.unicode_len();
    let mut j: usize = 0;
    while j < m
        invariant
            n == s@.len(),
            m == p@.len(),
            i + m <= s@.len(),
            j <= m,
            forall|k: int| 0 <= k < j ==> s@[i + k] == p@[k],
        decreases m - j,
    {
        if s.get_char(i + j) != p.get_char(j) {
            assert(s@.subrange(i as int, i + m)[j as int] != p@[j as int]);
            return false;
        }
        j = j + 1;
    }
    assert(s@.subrange(i as int, i + m) =~= p@);
    true
}

/// `s` with every occurrence of `p` replaced by `t`.
fn replace_text(s: &str, p: &str, t: &str) -> (r: String)
    requires
        p@.len() > 0,
    ensures
        r@ == replaced(s@, p@, t@),
{
    let n = s.unicode_len();
    let m = p.unicode_len();
    let mut out = String::new();
    let mut i: usize = 0;
    assert(s@.skip(0) =~= s@);
    while i < n
        invariant
            n == s@.len(),
            m == p@.len(),
            m > 0,
            i <= n,
            out@ + replaced(s@.skip(i as int), p@, t@) == replaced(s@, p@, t@),
        decreases n - i,
    {
        let ghost rest = s@.skip(i as int);
        let ghost before = out@;
        if m <= n - i && occurs_at(s, p, i) {
            assert(rest.subrange(0, m as int) =~= s@.subrange(i as int, i + m));
            assert(rest.skip(m as int) =~= s@.skip(i + m));
            out.append(t);
            assert(before + (t@ + replaced(rest.skip(m as int), p@, t@)) =~= out@ + replaced(
                rest.skip(m as int),
                p@,
                t@,
            ));
            i = i + m;
        } else {
            let c = s.substring_char(i, i + 1);
            assert(rest.drop_first() =~= s@.skip(i + 1));
            assert(c@ =~= seq![rest[0]]);
            if m > n - i {
                assert(replaced(rest.drop_first(), p@, t@) == rest.drop_first());
                assert(seq![rest[0]] + rest.drop_first() =~= rest);
            } else {
                assert(rest.subrange(0, m as int) =~= s@.subrange(i as int, i + m));
            }
            out.append(c);
            assert(before + (seq![rest[0]] + replaced(rest.drop_first(), p@, t@)) =~= out@
                + replaced(rest.drop_first(), p@, t@));
            i = i + 1;
        }
    }
    assert(s@.skip(n as int) =~= Seq::<char>::empty());
    assert(out@ + Seq::<char>::empty() =~= out@);
    out
}

/// The placeholder written for `key`.
pub fn placeholder(key: &str) -> (r: String)
    ensures
        r@ == placeholder_of(key@),
{
    let mut p = "{{".to_string();
    p.append(key);
    p.append("}}");
    p
}

/// The new text of a file whose text is `content`, with the project-name
/// placeholder replaced by `name`; `None` when nothing changes.
pub fn fill_project_name(content: &str, name: &str) -> (r: Option<String>)
    ensures
        !regex_compiles(PROJECT_NAME_PLACEHOLDER@) ==> r is None,
        regex_compiles(PROJECT_NAME_PLACEHOLDER@) ==> (match r {
            Some(s) => changed(content@, regex_replaced(PROJECT_NAME_PLACEHOLDER@, content@, name@))
                == Some(s@),
            None => changed(content@, regex_replaced(PROJECT_NAME_PLACEHOLDER@, content@, name@))
                is None,
        }),
{
    match pattern_replace_all(PROJECT_NAME_PLACEHOLDER, content, name) {
        Some(s) => if equal_text(s.as_str(), content) {
            None
        } else {
            Some(s)
        },
        None => None,
    }
}

/// The new text of a file whose text is `content`, with the placeholder of
/// each key of `pairs` replaced by its value, in the order of `pairs`;
/// `None` when nothing changes.
pub fn fill_placeholders(content: &str, pairs: &Vec<(String, String)>) -> (r: Option<String>)
    ensures
        match r {
            Some(s) => changed(content@, filled(content@, pairs@)) == Some(s@),
            None => changed(content@, filled(content@, pairs@)) is None,
        },
{
    let mut text = content.to_string();
    let mut i: usize = 0;
    assert(pairs@.skip(0) =~= pairs@);
    while i < pairs.len()
        invariant
            i <= pairs@.len(),
            filled(text@, pairs@.skip(i as int)) == filled(content@, pairs@),
        decreases pairs@.len() - i,
    {
        let key = &pairs[i].0;
        let value = &pairs[i].1;
        let p = placeholder(key.as_str());
        assert(p@.len() > 0) by {
            assert(p@ == "{{"@ + key@ + "}}"@);
            assert(("{{"@ + key@ + "}}"@).len() >= "{{"@.len());
            reveal_strlit("{{");
        }
        let next_text = replace_text(text.as_str(), p.as_str(), value.as_str());
        assert(pairs@.skip(i as int).drop_first() =~= pairs@.skip(i + 1));
        text = next_text;
        i = i + 1;
    }
    assert(pairs@.skip(i as int) =~= Seq::<(String, String)>::empty());
    if equal_text(text.as_str(), content) {
        None
    } else {
        Some(text)
    }
}

} // verus!
