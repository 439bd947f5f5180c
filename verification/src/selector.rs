//! ReleaseSelector: the two selection rules over a release list.
//! `next_release_index` finds the first release whose tag differs from
//! the client's current version; `latest_release_index` finds the
//! release with the numerically greatest semantic version, ties broken
//! by list order.  Semver parsing and precedence are delegated to the
//! `semver` crate behind one trusted wrapper.

use vstd::prelude::*;
use crate::model::Release;
use crate::text::chars_of;
use crate::text::str_eq;
use crate::text::string_of;

verus! {

/// Semver precedence of two release tags: negative, zero or positive as
/// the first tag's version orders below, equal to or above the second
/// tag's.  A tag is read with one leading `v` stripped; one that does
/// not parse as a semantic version counts as version `0.0.0`.
pub uninterp spec fn tag_precedence(a: Seq<char>, b: Seq<char>) -> int;

/// Relies on semver's `Version::parse` and `Version`'s `Ord`
/// implementation (SemVer precedence): the comparison depends on the two
/// tag strings alone, and `Ord` is documented as a total order, whose
/// antisymmetry and transitivity at the compared pair the last two
/// clauses restate for `tag_precedence`.
#[verifier::external_body]
fn compare_tags(a: &str, b: &str) -> (r: i8)
    ensures
        r as int == tag_precedence(a@, b@),
        r as int + tag_precedence(b@, a@) == 0,
        forall|x: Seq<char>|
            #[trigger] tag_precedence(x, b@) <= 0 && r > 0 ==> tag_precedence(x, a@) < 0,
{
    let va = semver::Version::parse(a.trim_start_matches('v')).unwrap_or(
        semver::Version::new(0, 0, 0),
    );
    let vb = semver::Version::parse(b.trim_start_matches('v')).unwrap_or(
        semver::Version::new(0, 0, 0),
    );
    match va.cmp(&vb) {
        core::cmp::Ordering::Less => -1,
        core::cmp::Ordering::Equal => 0,
        core::cmp::Ordering::Greater => 1,
    }
}

/// Every tag in the list equals the client's current version (holds
/// trivially of an empty list).
pub open spec fn all_tags_equal(rels: Seq<Release>, cur: Seq<char>) -> bool {
    forall|i: int| 0 <= i < rels.len() ==> rels[i].tag@ == cur
}

/// `i` is the first position whose tag differs from the current version.
pub open spec fn is_first_differing(rels: Seq<Release>, cur: Seq<char>, i: int) -> bool {
    &&& 0 <= i < rels.len()
    &&& rels[i].tag@ != cur
    &&& forall|j: int| 0 <= j < i ==> rels[j].tag@ == cur
}

/// `i` is the first position whose tag's semantic version is maximal.
pub open spec fn is_first_max_tag(rels: Seq<Release>, i: int) -> bool {
    &&& 0 <= i < rels.len()
    &&& forall|j: int|
        0 <= j < rels.len() ==> tag_precedence(rels[j].tag@, rels[i].tag@) <= 0
    &&& forall|j: int| 0 <= j < i ==> tag_precedence(rels[j].tag@, rels[i].tag@) < 0
}

/// The first release in list order whose tag is not exactly the
/// caller-supplied current version; `None` when the list is empty or
/// every tag equals it.
pub fn next_release_index(releases: &Vec<Release>, current_version: &str) -> (r: Option<usize>)
    ensures
        r is None <==> all_tags_equal(releases@, current_version@),
        r is Some ==> is_first_differing(releases@, current_version@, r->0 as int),
{
    let n = releases.len();
    let mut i: usize = 0;
    while i < n
        invariant
            n == releases.len(),
            i <= n,
            forall|j: int| 0 <= j < i ==> releases@[j].tag@ == current_version@,
        decreases n - i,
    {
        if !str_eq(releases[i].tag.as_str(), current_version) {
            return Some(i);
        }
        i += 1;
    }
    None
}

/// The release with the numerically greatest semantic version,
/// independent of list order; a malformed tag counts as `0.0.0` and is
/// never discarded.  Ties are broken by list order: the first maximal
/// element wins.  `None` exactly when the list is empty.
pub fn latest_release_index(releases: &Vec<Release>) -> (r: Option<usize>)
    ensures
        r is None <==> releases.len() == 0,
        r is Some ==> is_first_max_tag(releases@, r->0 as int),
{
    let n = releases.len();
    if n == 0 {
        return None;
    }
    let mut best: usize = 0;
    let mut k: usize = 1;
    while k < n
        invariant
            n == releases.len(),
            best < k <= n,
            forall|j: int|
                0 <= j < k && j != best ==> tag_precedence(
                    releases@[j].tag@,
                    releases@[best as int].tag@,
                ) <= 0,
            forall|j: int|
                0 <= j < best ==> tag_precedence(releases@[j].tag@, releases@[best as int].tag@)
                    < 0,
        decreases n - k,
    {
        let c = compare_tags(releases[k].tag.as_str(), releases[best].tag.as_str());
        if c > 0 {
            assert(tag_precedence(releases@[best as int].tag@, releases@[k as int].tag@) < 0);
            assert forall|j: int| 0 <= j < k implies tag_precedence(
                releases@[j].tag@,
                releases@[k as int].tag@,
            ) < 0 by {
                if j != best {
                    assert(tag_precedence(releases@[j].tag@, releases@[best as int].tag@) <= 0);
                }
            }
            best = k;
        }
        k += 1;
    }
    // A tag orders the same as itself, so the maximality claim also
    // covers the chosen position.
    let _cb = compare_tags(releases[best].tag.as_str(), releases[best].tag.as_str());
    assert(tag_precedence(releases@[best as int].tag@, releases@[best as int].tag@) == 0);
    Some(best)
}

/// A version character is a decimal digit or a dot.
pub open spec fn is_version_char(c: char) -> bool {
    ('0' <= c && c <= '9') || c == '.'
}

/// The subsequence of decimal digits and dots of `s`, in original
/// order; every other character is discarded.
pub open spec fn keep_digits_dots(s: Seq<char>) -> Seq<char>
    decreases s.len(),
{
    if s.len() == 0 {
        s
    } else {
        let rest = keep_digits_dots(s.skip(1));
        if is_version_char(s[0]) {
            seq![s[0]] + rest
        } else {
            rest
        }
    }
}

/// The response's version string for a release tag: the tag's decimal
/// digits and dots in original order, every other character (prefixes,
/// pre-release markers, build metadata) discarded.
pub fn extract_version(tag: &str) -> (r: String)
    ensures
        r@ == keep_digits_dots(tag@),
{
    let cs = chars_of(tag);
    let n = cs.len();
    let mut out: Vec<char> = Vec::new();
    let mut i: usize = 0;
    proof {
        assert(tag@.skip(0) =~= tag@);
    }
    while i < n
        invariant
            cs@ == tag@,
            n == cs.len(),
            i <= n,
            keep_digits_dots(tag@) == out@ + keep_digits_dots(tag@.skip(i as int)),
        decreases n - i,
    {
        let c = cs[i];
        proof {
            assert(tag@.skip(i as int).skip(1) =~= tag@.skip(i + 1));
            assert(tag@.skip(i as int)[0] == c);
        }
        if ('0' <= c && c <= '9') || c == '.' {
            let ghost prev = out@;
            out.push(c);
            proof {
                assert(out@ + keep_digits_dots(tag@.skip(i + 1)) =~= prev + (seq![c]
                    + keep_digits_dots(tag@.skip(i + 1))));
            }
        }
        i += 1;
    }
    proof {
        assert(tag@.skip(n as int) =~= Seq::<char>::empty());
        assert(out@ + keep_digits_dots(tag@.skip(n as int)) =~= out@);
    }
    string_of(&out)
}

} // verus!
