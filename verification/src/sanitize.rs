//! NotesSanitizer: strips markdown markup and a known boilerplate
//! sentence from release notes.  Six global replaces run in a fixed
//! order, each scanning left to right over the output of the previous
//! one: boilerplate sentence, `### Notes` marker, leading `#` runs at
//! line starts, `**bold**`, `_italic_`, and `[label](url)` links.
//! Matches never cross a line break, emphasis keeps its inner text, and
//! malformed markup is left partially transformed, never rejected.

use vstd::prelude::*;
use crate::text::chars_of;
use crate::text::string_of;

verus! {

/// `lit` occurs in `s` starting at position `i`.
pub open spec fn occurs_at(s: Seq<char>, lit: Seq<char>, i: int) -> bool {
    0 <= i && i + lit.len() <= s.len() && s.subrange(i, i + lit.len()) == lit
}

/// `s` with every occurrence of `lit` removed, scanning left to right
/// and continuing after each removed occurrence.
pub open spec fn remove_lit(s: Seq<char>, lit: Seq<char>) -> Seq<char>
    recommends
        lit.len() > 0,
    decreases s.len(),
{
    if s.len() == 0 {
        s
    } else if lit.len() > 0 && occurs_at(s, lit, 0) {
        remove_lit(s.skip(lit.len() as int), lit)
    } else {
        seq![s[0]] + remove_lit(s.skip(1), lit)
    }
}

/// `s` with every maximal run of `#` at a line start removed.
/// `at_line_start` says whether the front of `s` begins a line.
pub open spec fn strip_heads(s: Seq<char>, at_line_start: bool) -> Seq<char>
    decreases s.len(),
{
    if s.len() == 0 {
        s
    } else if at_line_start && s[0] == '#' {
        strip_heads(s.skip(1), true)
    } else {
        seq![s[0]] + strip_heads(s.skip(1), s[0] == '\n')
    }
}

/// Position of the first occurrence of `d` in `s` on the current line:
/// scanning stops at a line break, before which the occurrence must
/// start.
pub open spec fn find_delim(s: Seq<char>, d: Seq<char>) -> Option<int>
    recommends
        d.len() > 0,
    decreases s.len(),
{
    if s.len() < d.len() || s.len() == 0 {
        None
    } else if occurs_at(s, d, 0) {
        Some(0)
    } else if s[0] == '\n' {
        None
    } else {
        match find_delim(s.skip(1), d) {
            Some(j) => Some(j + 1),
            None => None,
        }
    }
}

/// A found delimiter lies within bounds, really occurs there, and is
/// the first occurrence on the line.
pub proof fn lemma_find_delim_props(s: Seq<char>, d: Seq<char>)
    requires
        d.len() > 0,
    ensures
        find_delim(s, d) is Some ==> {
            let j = find_delim(s, d)->0;
            &&& 0 <= j
            &&& j + d.len() <= s.len()
            &&& occurs_at(s, d, j)
            &&& forall|m: int| 0 <= m < j ==> s[m] != '\n'
        },
    decreases s.len(),
{
    if s.len() < d.len() || s.len() == 0 {
    } else if occurs_at(s, d, 0) {
    } else if s[0] == '\n' {
    } else {
        lemma_find_delim_props(s.skip(1), d);
        if find_delim(s.skip(1), d) is Some {
            let j1 = find_delim(s.skip(1), d)->0;
            assert(s.skip(1).subrange(j1, j1 + d.len()) =~= s.subrange(j1 + 1, j1 + 1 + d.len()));
            assert forall|m: int| 0 <= m < j1 + 1 implies s[m] != '\n' by {
                if m > 0 {
                    assert(s.skip(1)[m - 1] != '\n');
                }
            }
        }
    }
}

/// `s` with every `d ... d` emphasis pair on one line unwrapped: the
/// two delimiters are dropped, the inner text is kept verbatim, and
/// scanning continues after the closing delimiter.  An opening
/// delimiter with no closer on its line is kept as ordinary text.
pub open spec fn unwrap_emph(s: Seq<char>, d: Seq<char>) -> Seq<char>
    recommends
        d.len() > 0,
    decreases s.len(),
{
    if s.len() == 0 {
        s
    } else if d.len() > 0 && occurs_at(s, d, 0) && (match find_delim(s.skip(d.len() as int), d) {
        Some(j) => 0 <= j && d.len() + j + d.len() <= s.len(),
        None => false,
    }) {
        let j = find_delim(s.skip(d.len() as int), d)->0;
        s.subrange(d.len() as int, d.len() + j) + unwrap_emph(s.skip(d.len() + j + d.len()), d)
    } else {
        seq![s[0]] + unwrap_emph(s.skip(1), d)
    }
}

/// Relative positions `(j, l)` of the `](` bridge and closing `)` of
/// the first markdown link whose label starts at the front of `s`
/// (`s` is the text right after the opening `[`): `j` indexes the `]`
/// immediately followed by `(`, `l` the first `)` after it on the same
/// line.  A candidate `]` without `(` after it, or whose `)` search
/// fails, is passed over as label text, like the backtracking of a
/// non-greedy regex.  `None` when no such pair exists before a line
/// break.
pub open spec fn link_close(s: Seq<char>) -> Option<(int, int)>
    decreases s.len(),
{
    if s.len() == 0 {
        None
    } else if s[0] == '\n' {
        None
    } else if s[0] == ']' && s.len() >= 2 && s[1] == '(' && find_delim(s.skip(2), seq![')'])
        is Some {
        Some((0, 2 + find_delim(s.skip(2), seq![')'])->0))
    } else {
        match link_close(s.skip(1)) {
            Some((j, l)) => Some((j + 1, l + 1)),
            None => None,
        }
    }
}

/// A found link close lies within bounds and names a real `](` ... `)`.
pub proof fn lemma_link_close_props(s: Seq<char>)
    ensures
        link_close(s) is Some ==> {
            let (j, l) = link_close(s)->0;
            &&& 0 <= j
            &&& j + 2 <= l
            &&& l < s.len()
            &&& s[j] == ']'
            &&& s[j + 1] == '('
            &&& s[l] == ')'
        },
    decreases s.len(),
{
    if s.len() == 0 {
    } else if s[0] == '\n' {
    } else if s[0] == ']' && s.len() >= 2 && s[1] == '(' && find_delim(s.skip(2), seq![')'])
        is Some {
        lemma_find_delim_props(s.skip(2), seq![')']);
        let p = find_delim(s.skip(2), seq![')'])->0;
        assert(s.skip(2).subrange(p, p + 1) == seq![')']);
        assert(s.skip(2).subrange(p, p + 1)[0] == ')');
        assert(s[2 + p] == ')');
    } else {
        lemma_link_close_props(s.skip(1));
    }
}

/// `s` with every `[label](url)` link on one line rewritten to just
/// `label`; scanning continues after the closing parenthesis.  An
/// opening bracket that starts no complete link is kept as ordinary
/// text.
pub open spec fn rewrite_links(s: Seq<char>) -> Seq<char>
    decreases s.len(),
{
    if s.len() == 0 {
        s
    } else if s[0] == '[' && (match link_close(s.skip(1)) {
        Some((j, l)) => 0 <= j && j <= l && 1 + l + 1 <= s.len(),
        None => false,
    }) {
        let (j, l) = link_close(s.skip(1))->0;
        s.subrange(1, 1 + j) + rewrite_links(s.skip(1 + l + 1))
    } else {
        seq![s[0]] + rewrite_links(s.skip(1))
    }
}

/// The boilerplate sentence removed first, with its fixed emphasis
/// markup.
pub open spec fn boilerplate() -> Seq<char> {
    "**_See the assets to download and install this version._**"@
}

/// The `### Notes` heading marker removed second.
pub open spec fn notes_marker() -> Seq<char> {
    "### Notes"@
}

/// The whole sanitizer pipeline over character sequences, in the fixed
/// order the six replaces run in.
pub open spec fn spec_sanitize(s: Seq<char>) -> Seq<char> {
    rewrite_links(
        unwrap_emph(
            unwrap_emph(
                strip_heads(remove_lit(remove_lit(s, boilerplate()), notes_marker()), true),
                "**"@,
            ),
            "_"@,
        ),
    )
}

/// `lit` occurs nowhere in `s`.
pub open spec fn no_occurrence(s: Seq<char>, lit: Seq<char>) -> bool {
    forall|i: int| !occurs_at(s, lit, i)
}

/// No line of `s` starts with a `#`.
pub open spec fn no_line_start_hash(s: Seq<char>) -> bool {
    &&& (s.len() > 0 ==> s[0] != '#')
    &&& forall|i: int| 0 < i < s.len() && #[trigger] s[i] == '#' ==> s[i - 1] != '\n'
}

/// No opening bracket of `s` starts a complete one-line link.
pub open spec fn no_complete_link(s: Seq<char>) -> bool {
    forall|i: int| 0 <= i < s.len() && s[i] == '[' ==> link_close(#[trigger] s.skip(i + 1)) is None
}

/// Text that none of the sanitizer's six replaces can touch: no
/// boilerplate sentence, no `### Notes` marker, no line-start `#`, no
/// `**`, no `_`, and no complete link.
pub open spec fn is_clean(s: Seq<char>) -> bool {
    &&& no_occurrence(s, boilerplate())
    &&& no_occurrence(s, notes_marker())
    &&& no_line_start_hash(s)
    &&& no_occurrence(s, "**"@)
    &&& no_occurrence(s, "_"@)
    &&& no_complete_link(s)
}

/// Removing a literal that never occurs changes nothing.
proof fn lemma_remove_lit_identity(s: Seq<char>, lit: Seq<char>)
    requires
        lit.len() > 0,
        no_occurrence(s, lit),
    ensures
        remove_lit(s, lit) == s,
    decreases s.len(),
{
    if s.len() > 0 {
        assert(!occurs_at(s, lit, 0));
        assert forall|i: int| !occurs_at(s.skip(1), lit, i) by {
            if occurs_at(s.skip(1), lit, i) {
                assert(s.skip(1).subrange(i, i + lit.len()) =~= s.subrange(
                    i + 1,
                    i + 1 + lit.len(),
                ));
                assert(occurs_at(s, lit, i + 1));
            }
        }
        lemma_remove_lit_identity(s.skip(1), lit);
        assert(seq![s[0]] + s.skip(1) =~= s);
    }
}

/// Generalization of heading-strip identity over the line-start flag.
proof fn lemma_strip_heads_identity_gen(s: Seq<char>, at_line_start: bool)
    requires
        at_line_start && s.len() > 0 ==> s[0] != '#',
        forall|i: int| 0 < i < s.len() && #[trigger] s[i] == '#' ==> s[i - 1] != '\n',
    ensures
        strip_heads(s, at_line_start) == s,
    decreases s.len(),
{
    if s.len() > 0 {
        assert forall|i: int| 0 < i < s.skip(1).len() && #[trigger] s.skip(1)[i] == '#' implies s
            .skip(1)[i - 1] != '\n' by {
            assert(s[i + 1] == '#');
        }
        if s[0] == '\n' && s.skip(1).len() > 0 && s.skip(1)[0] == '#' {
            assert(s[1] == '#' && s[0] == '\n');
            assert(false);
        }
        lemma_strip_heads_identity_gen(s.skip(1), s[0] == '\n');
        assert(seq![s[0]] + s.skip(1) =~= s);
    }
}

/// Unwrapping an emphasis delimiter that never occurs changes nothing.
proof fn lemma_unwrap_emph_identity(s: Seq<char>, d: Seq<char>)
    requires
        d.len() > 0,
        no_occurrence(s, d),
    ensures
        unwrap_emph(s, d) == s,
    decreases s.len(),
{
    if s.len() > 0 {
        assert(!occurs_at(s, d, 0));
        assert forall|i: int| !occurs_at(s.skip(1), d, i) by {
            if occurs_at(s.skip(1), d, i) {
                assert(s.skip(1).subrange(i, i + d.len()) =~= s.subrange(i + 1, i + 1 + d.len()));
                assert(occurs_at(s, d, i + 1));
            }
        }
        lemma_unwrap_emph_identity(s.skip(1), d);
        assert(seq![s[0]] + s.skip(1) =~= s);
    }
}

/// Rewriting links in text with no complete link changes nothing.
proof fn lemma_rewrite_links_identity(s: Seq<char>)
    requires
        no_complete_link(s),
    ensures
        rewrite_links(s) == s,
    decreases s.len(),
{
    if s.len() > 0 {
        if s[0] == '[' {
            assert(s.skip(0int + 1) == s.skip(1));
            assert(link_close(s.skip(1)) is None);
        }
        assert forall|i: int|
            0 <= i < s.skip(1).len() && s.skip(1)[i] == '[' implies link_close(
            #[trigger] s.skip(1).skip(i + 1),
        ) is None by {
            assert(s[i + 1] == '[');
            assert(s.skip(i + 1 + 1) == s.skip(1).skip(i + 1)) by {
                assert(s.skip(1).skip(i + 1) =~= s.skip(i + 2));
            }
            assert(link_close(s.skip(i + 1 + 1)) is None);
        }
        lemma_rewrite_links_identity(s.skip(1));
        assert(seq![s[0]] + s.skip(1) =~= s);
    }
}

/// The sanitizer leaves already-clean text untouched.
pub proof fn lemma_sanitize_clean_identity(s: Seq<char>)
    requires
        is_clean(s),
    ensures
        spec_sanitize(s) == s,
{
    reveal_strlit("**_See the assets to download and install this version._**");
    reveal_strlit("### Notes");
    reveal_strlit("**");
    reveal_strlit("_");
    lemma_remove_lit_identity(s, boilerplate());
    lemma_remove_lit_identity(s, notes_marker());
    lemma_strip_heads_identity_gen(s, true);
    lemma_unwrap_emph_identity(s, "**"@);
    lemma_unwrap_emph_identity(s, "_"@);
    lemma_rewrite_links_identity(s);
}

/// Idempotence on clean output: whenever one pass leaves text that the
/// six replaces can no longer touch, a second pass returns it
/// unchanged.
pub proof fn lemma_sanitize_idempotent(s: Seq<char>)
    requires
        is_clean(spec_sanitize(s)),
    ensures
        spec_sanitize(spec_sanitize(s)) == spec_sanitize(s),
{
    lemma_sanitize_clean_identity(spec_sanitize(s));
}

/// Whether `lit` occurs in `s` at position `p`, by characters.
fn match_at(s: &Vec<char>, p: usize, lit: &Vec<char>) -> (r: bool)
    requires
        p <= s.len(),
    ensures
        r == occurs_at(s@, lit@, p as int),
{
    if s.len() - p < lit.len() {
        return false;
    }
    let mut i: usize = 0;
    while i < lit.len()
        invariant
            p + lit.len() <= s.len(),
            i <= lit.len(),
            forall|m: int| 0 <= m < i ==> s@[p + m] == lit@[m],
        decreases lit.len() - i,
    {
        if s[p + i] != lit[i] {
            assert(s@.subrange(p as int, p + lit@.len())[i as int] != lit@[i as int]);
            return false;
        }
        i += 1;
    }
    assert(s@.subrange(p as int, p + lit@.len()) =~= lit@);
    true
}

/// Appends `s[a..b]` to `out`.
fn append_range(out: &mut Vec<char>, s: &Vec<char>, a: usize, b: usize)
    requires
        a <= b <= s@.len(),
    ensures
        final(out)@ == old(out)@ + s@.subrange(a as int, b as int),
{
    let ghost orig = out@;
    let mut i: usize = a;
    proof {
        assert(orig + s@.subrange(a as int, a as int) =~= orig);
    }
    while i < b
        invariant
            a <= i <= b,
            b <= s.len(),
            out@ == orig + s@.subrange(a as int, i as int),
        decreases b - i,
    {
        out.push(s[i]);
        proof {
            assert(orig + s@.subrange(a as int, i + 1) =~= (orig + s@.subrange(
                a as int,
                i as int,
            )).push(s@[i as int]));
        }
        i += 1;
    }
}

/// Position of the first occurrence of `d` at or after `from` on the
/// current line, as an absolute index into `s`; mirrors `find_delim`
/// over the suffix starting at `from`.
fn find_delim_from(s: &Vec<char>, from: usize, d: &Vec<char>) -> (r: Option<usize>)
    requires
        d.len() > 0,
        from <= s.len(),
    ensures
        match r {
            Some(q) => from <= q && q + d.len() <= s.len() && find_delim(
                s@.skip(from as int),
                d@,
            ) == Some((q - from) as int),
            None => find_delim(s@.skip(from as int), d@) is None,
        },
{
    let mut p: usize = from;
    while s.len() - p >= d.len()
        invariant
            d.len() > 0,
            from <= p <= s.len(),
            find_delim(s@.skip(from as int), d@) == (match find_delim(s@.skip(p as int), d@) {
                Some(j) => Some(j + p - from),
                None => None::<int>,
            }),
        decreases s.len() - p,
    {
        if match_at(s, p, d) {
            proof {
                assert(s@.skip(p as int).subrange(0, d@.len() as int) =~= s@.subrange(
                    p as int,
                    p + d@.len(),
                ));
                assert(occurs_at(s@.skip(p as int), d@, 0));
            }
            return Some(p);
        }
        proof {
            assert(s@.skip(p as int).subrange(0, d@.len() as int) =~= s@.subrange(
                p as int,
                p + d@.len(),
            ));
            assert(!occurs_at(s@.skip(p as int), d@, 0));
        }
        if s[p] == '\n' {
            assert(s@.skip(p as int)[0] == '\n');
            return None;
        }
        proof {
            assert(s@.skip(p as int)[0] != '\n');
            assert(s@.skip(p as int).skip(1) =~= s@.skip(p + 1));
        }
        p += 1;
    }
    assert(s@.skip(p as int).len() < d@.len());
    None
}

/// Every occurrence of `lit` removed, scanning left to right.
fn remove_lit_exec(s: &Vec<char>, lit: &Vec<char>) -> (r: Vec<char>)
    requires
        lit.len() > 0,
    ensures
        r@ == remove_lit(s@, lit@),
{
    let n = s.len();
    let mut out: Vec<char> = Vec::new();
    let mut p: usize = 0;
    proof {
        assert(s@.skip(0) =~= s@);
    }
    while p < n
        invariant
            lit.len() > 0,
            n == s.len(),
            p <= n,
            remove_lit(s@, lit@) == out@ + remove_lit(s@.skip(p as int), lit@),
        decreases n - p,
    {
        proof {
            if p + lit@.len() <= s@.len() {
                assert(s@.skip(p as int).subrange(0, lit@.len() as int) =~= s@.subrange(
                    p as int,
                    p + lit@.len(),
                ));
            }
        }
        if match_at(s, p, lit) {
            proof {
                assert(occurs_at(s@.skip(p as int), lit@, 0));
                assert(s@.skip(p as int).skip(lit@.len() as int) =~= s@.skip(p + lit@.len()));
            }
            p += lit.len();
        } else {
            proof {
                assert(!occurs_at(s@.skip(p as int), lit@, 0));
                assert(s@.skip(p as int)[0] == s@[p as int]);
                assert(s@.skip(p as int).skip(1) =~= s@.skip(p + 1));
            }
            let ghost prev = out@;
            out.push(s[p]);
            proof {
                assert(prev + (seq![s@[p as int]] + remove_lit(s@.skip(p + 1), lit@)) =~= out@
                    + remove_lit(s@.skip(p + 1), lit@));
            }
            p += 1;
        }
    }
    proof {
        assert(s@.skip(n as int) =~= Seq::<char>::empty());
        assert(out@ + remove_lit(s@.skip(n as int), lit@) =~= out@);
    }
    out
}

/// Every maximal `#` run at a line start removed.
fn strip_heads_exec(s: &Vec<char>) -> (r: Vec<char>)
    ensures
        r@ == strip_heads(s@, true),
{
    let n = s.len();
    let mut out: Vec<char> = Vec::new();
    let mut at_start: bool = true;
    let mut p: usize = 0;
    proof {
        assert(s@.skip(0) =~= s@);
    }
    while p < n
        invariant
            n == s.len(),
            p <= n,
            strip_heads(s@, true) == out@ + strip_heads(s@.skip(p as int), at_start),
        decreases n - p,
    {
        let c = s[p];
        proof {
            assert(s@.skip(p as int)[0] == s@[p as int]);
            assert(s@.skip(p as int).skip(1) =~= s@.skip(p + 1));
        }
        if at_start && c == '#' {
            p += 1;
        } else {
            let ghost prev = out@;
            out.push(c);
            proof {
                assert(prev + (seq![s@[p as int]] + strip_heads(s@.skip(p + 1), s@[p as int]
                    == '\n')) =~= out@ + strip_heads(s@.skip(p + 1), s@[p as int] == '\n'));
            }
            at_start = c == '\n';
            p += 1;
        }
    }
    proof {
        assert(s@.skip(n as int) =~= Seq::<char>::empty());
        assert(out@ + strip_heads(s@.skip(n as int), at_start) =~= out@);
    }
    out
}

/// Every one-line `d ... d` emphasis pair unwrapped.
fn unwrap_emph_exec(s: &Vec<char>, d: &Vec<char>) -> (r: Vec<char>)
    requires
        d.len() > 0,
    ensures
        r@ == unwrap_emph(s@, d@),
{
    let n = s.len();
    let mut out: Vec<char> = Vec::new();
    let mut p: usize = 0;
    proof {
        assert(s@.skip(0) =~= s@);
    }
    while p < n
        invariant
            d.len() > 0,
            n == s.len(),
            p <= n,
            unwrap_emph(s@, d@) == out@ + unwrap_emph(s@.skip(p as int), d@),
        decreases n - p,
    {
        proof {
            if p + d@.len() <= s@.len() {
                assert(s@.skip(p as int).subrange(0, d@.len() as int) =~= s@.subrange(
                    p as int,
                    p + d@.len(),
                ));
            }
        }
        let opened = match_at(s, p, d);
        let mut advanced = false;
        if opened {
            proof {
                assert(occurs_at(s@.skip(p as int), d@, 0));
                assert(s@.skip(p as int).skip(d@.len() as int) =~= s@.skip(p + d@.len()));
            }
            match find_delim_from(s, p + d.len(), d) {
                Some(q) => {
                    proof {
                        lemma_find_delim_props(s@.skip(p + d@.len()), d@);
                        assert(s@.skip(p as int).subrange(d@.len() as int, d@.len() + (q - p
                            - d@.len())) =~= s@.subrange(p + d@.len(), q as int));
                        assert(s@.skip(p as int).skip(d@.len() + (q - p - d@.len()) + d@.len())
                            =~= s@.skip(q + d@.len()));
                    }
                    append_range(&mut out, s, p + d.len(), q);
                    p = q + d.len();
                    advanced = true;
                },
                None => {
                },
            }
        }
        if !advanced {
            proof {
                if p + d@.len() > s@.len() {
                    assert(!occurs_at(s@.skip(p as int), d@, 0));
                }
                assert(s@.skip(p as int)[0] == s@[p as int]);
                assert(s@.skip(p as int).skip(1) =~= s@.skip(p + 1));
            }
            let ghost prev = out@;
            out.push(s[p]);
            proof {
                assert(prev + (seq![s@[p as int]] + unwrap_emph(s@.skip(p + 1), d@)) =~= out@
                    + unwrap_emph(s@.skip(p + 1), d@));
            }
            p += 1;
        }
    }
    proof {
        assert(s@.skip(n as int) =~= Seq::<char>::empty());
        assert(out@ + unwrap_emph(s@.skip(n as int), d@) =~= out@);
    }
    out
}

/// Absolute positions of the `](` bridge and closing `)` of the first
/// complete link whose label starts at `from`; mirrors `link_close`
/// over the suffix starting at `from`.
fn link_close_from(s: &Vec<char>, from: usize) -> (r: Option<(usize, usize)>)
    requires
        from <= s.len(),
    ensures
        match r {
            Some(pair) => from <= pair.0 && pair.0 + 2 <= pair.1 && pair.1 < s.len()
                && link_close(s@.skip(from as int)) == Some(
                ((pair.0 - from) as int, (pair.1 - from) as int),
            ),
            None => link_close(s@.skip(from as int)) is None,
        },
{
    let mut paren: Vec<char> = Vec::new();
    paren.push(')');
    proof {
        assert(paren@ =~= seq![')']);
    }
    let mut p: usize = from;
    while p < s.len()
        invariant
            paren@ == seq![')'],
            from <= p <= s.len(),
            link_close(s@.skip(from as int)) == (match link_close(s@.skip(p as int)) {
                Some(pair) => Some((pair.0 + p - from, pair.1 + p - from)),
                None => None::<(int, int)>,
            }),
        decreases s.len() - p,
    {
        let c = s[p];
        proof {
            assert(s@.skip(p as int)[0] == s@[p as int]);
            assert(s@.skip(p as int).skip(1) =~= s@.skip(p + 1));
        }
        if c == '\n' {
            return None;
        }
        if c == ']' && p + 1 < s.len() && s[p + 1] == '(' {
            proof {
                assert(s@.skip(p as int)[1] == s@[p + 1]);
                assert(s@.skip(p as int).skip(2) =~= s@.skip(p + 2));
            }
            match find_delim_from(s, p + 2, &paren) {
                Some(q) => {
                    proof {
                        lemma_find_delim_props(s@.skip(p + 2), seq![')']);
                        assert(link_close(s@.skip(p as int)) == Some(
                            (0int, 2 + (q - p - 2) as int),
                        ));
                    }
                    return Some((p, q));
                },
                None => {
                    proof {
                        assert(link_close(s@.skip(p as int)) == (match link_close(
                            s@.skip(p + 1),
                        ) {
                            Some(pair) => Some((pair.0 + 1, pair.1 + 1)),
                            None => None::<(int, int)>,
                        }));
                    }
                },
            }
        }
        p += 1;
    }
    proof {
        assert(s@.skip(p as int).len() == 0);
    }
    None
}

/// Every one-line `[label](url)` link rewritten to its label.
fn rewrite_links_exec(s: &Vec<char>) -> (r: Vec<char>)
    ensures
        r@ == rewrite_links(s@),
{
    let n = s.len();
    let mut out: Vec<char> = Vec::new();
    let mut p: usize = 0;
    proof {
        assert(s@.skip(0) =~= s@);
    }
    while p < n
        invariant
            n == s.len(),
            p <= n,
            rewrite_links(s@) == out@ + rewrite_links(s@.skip(p as int)),
        decreases n - p,
    {
        let c = s[p];
        proof {
            assert(s@.skip(p as int)[0] == s@[p as int]);
            assert(s@.skip(p as int).skip(1) =~= s@.skip(p + 1));
        }
        let mut advanced = false;
        if c == '[' {
            match link_close_from(s, p + 1) {
                Some(pair) => {
                    let (j, l) = pair;
                    proof {
                        assert(s@.skip(p as int).skip(1) =~= s@.skip(p + 1));
                        assert(link_close(s@.skip(p as int).skip(1)) == Some(
                            ((j - p - 1) as int, (l - p - 1) as int),
                        ));
                        assert(s@.skip(p as int).subrange(1, 1 + (j - p - 1)) =~= s@.subrange(
                            p + 1,
                            j as int,
                        ));
                        assert(s@.skip(p as int).skip(1 + (l - p - 1) + 1) =~= s@.skip(l + 1));
                    }
                    append_range(&mut out, s, p + 1, j);
                    p = l + 1;
                    advanced = true;
                },
                None => {
                },
            }
        }
        if !advanced {
            let ghost prev = out@;
            out.push(c);
            proof {
                assert(prev + (seq![s@[p as int]] + rewrite_links(s@.skip(p + 1))) =~= out@
                    + rewrite_links(s@.skip(p + 1)));
            }
            p += 1;
        }
    }
    proof {
        assert(s@.skip(n as int) =~= Seq::<char>::empty());
        assert(out@ + rewrite_links(s@.skip(n as int)) =~= out@);
    }
    out
}

/// Strips markdown markup and the boilerplate sentence from raw release
/// notes: the six global replaces of the sanitizer pipeline, in order.
/// Deterministic, total, and never failing on malformed markup.
pub fn sanitize(notes: &str) -> (r: String)
    ensures
        r@ == spec_sanitize(notes@),
{
    let cs = chars_of(notes);
    let boiler = chars_of("**_See the assets to download and install this version._**");
    let marker = chars_of("### Notes");
    let bold = chars_of("**");
    let ital = chars_of("_");
    proof {
        reveal_strlit("**_See the assets to download and install this version._**");
        reveal_strlit("### Notes");
        reveal_strlit("**");
        reveal_strlit("_");
        assert(boiler@.len() > 0);
        assert(marker@.len() > 0);
        assert(bold@.len() > 0);
        assert(ital@.len() > 0);
    }
    let s1 = remove_lit_exec(&cs, &boiler);
    let s2 = remove_lit_exec(&s1, &marker);
    let s3 = strip_heads_exec(&s2);
    let s4 = unwrap_emph_exec(&s3, &bold);
    let s5 = unwrap_emph_exec(&s4, &ital);
    let s6 = rewrite_links_exec(&s5);
    string_of(&s6)
}

} // verus!
