//! Anchored structural matching of the generated loader's scaffold.
//!
//! The upstream code generator wraps the useful initialization logic in a
//! fixed scaffold whose exact text is a versioned constant. Instead of a
//! full parser, the scaffold is matched structurally against a template:
//! a run of literal whitespace in the template matches any run of
//! whitespace in the input (including an empty one), the designated `XXX`
//! placeholder matches any run of identifier-like characters (the module
//! name, which varies per project), and every other template character
//! matches itself. The prefix template is anchored to the start of the
//! input and the suffix template to its end. The match is greedy, every
//! flexible element consuming as much as it can, which is unambiguous
//! because no flexible element of the templates is followed by a
//! character of its own class.

use vstd::prelude::*;

use crate::text::{is_ws_char, is_ident_char, ws_char, ident_char};

verus! {

/// The end of the whitespace run beginning at `i`.
pub open spec fn ws_run_end(s: Seq<char>, i: int) -> int
    decreases s.len() - i,
{
    if 0 <= i < s.len() && is_ws_char(s[i]) {
        ws_run_end(s, i + 1)
    } else {
        i
    }
}

/// The end of the identifier-character run beginning at `i`.
pub open spec fn ident_run_end(s: Seq<char>, i: int) -> int
    decreases s.len() - i,
{
    if 0 <= i < s.len() && is_ident_char(s[i]) {
        ident_run_end(s, i + 1)
    } else {
        i
    }
}

/// Whether the template `tem` begins with the `XXX` placeholder.
pub open spec fn placeholder_here(tem: Seq<char>) -> bool {
    tem.len() >= 3 && tem[0] == 'X' && tem[1] == 'X' && tem[2] == 'X'
}

/// Where the greedy structural match of template `tem` against input `s`,
/// starting at `i`, ends; `None` if the template does not match there.
pub open spec fn template_match_end(tem: Seq<char>, s: Seq<char>, i: int) -> Option<int>
    decreases tem.len(),
{
    if tem.len() == 0 {
        Some(i)
    } else if placeholder_here(tem) {
        template_match_end(tem.skip(3), s, ident_run_end(s, i))
    } else if is_ws_char(tem[0]) {
        template_match_end(tem.skip(1), s, ws_run_end(s, i))
    } else if 0 <= i < s.len() && s[i] == tem[0] {
        template_match_end(tem.skip(1), s, i + 1)
    } else {
        None
    }
}

/// The earliest position at or after `i` where `tem` matches through to
/// the very end of `s`; `None` if there is no such position.
pub open spec fn suffix_match_start_from(tem: Seq<char>, s: Seq<char>, i: int) -> Option<int>
    decreases s.len() - i + 1,
{
    if !(0 <= i <= s.len()) {
        None
    } else if template_match_end(tem, s, i) == Some(s.len() as int) {
        Some(i)
    } else {
        suffix_match_start_from(tem, s, i + 1)
    }
}

/// The earliest position where `tem` matches through to the end of `s`.
pub open spec fn suffix_match_start(tem: Seq<char>, s: Seq<char>) -> Option<int> {
    suffix_match_start_from(tem, s, 0)
}

/// Greedily matches the template `tem` against `s` from `start`,
/// returning where the match ends.
pub fn template_match_from(tem: &Vec<char>, s: &Vec<char>, start: usize) -> (r: Option<usize>)
    requires
        start <= s@.len(),
    ensures
        r matches Some(e) ==> template_match_end(tem@, s@, start as int) == Some(e as int) && e
            <= s@.len(),
        r is None ==> template_match_end(tem@, s@, start as int) is None,
{
    let mut k: usize = 0;
    let mut pos: usize = start;
    proof {
        assert(tem@.skip(0) =~= tem@);
    }
    while k < tem.len()
        invariant
            k <= tem@.len(),
            pos <= s@.len(),
            template_match_end(tem@, s@, start as int) == template_match_end(
                tem@.skip(k as int),
                s@,
                pos as int,
            ),
        decreases tem@.len() - k,
    {
        let ghost rest = tem@.skip(k as int);
        proof {
            assert(rest.len() == tem@.len() - k);
            assert(rest[0] == tem@[k as int]);
            if rest.len() >= 3 {
                assert(rest[1] == tem@[k + 1]);
                assert(rest[2] == tem@[k + 2]);
            }
        }
        if tem.len() - k >= 3 && tem[k] == 'X' && tem[k + 1] == 'X' && tem[k + 2] == 'X' {
            let ghost pos0 = pos as int;
            while pos < s.len() && ident_char(s[pos])
                invariant
                    pos0 <= pos <= s@.len(),
                    ident_run_end(s@, pos0) == ident_run_end(s@, pos as int),
                decreases s@.len() - pos,
            {
                pos = pos + 1;
            }
            proof {
                assert(ident_run_end(s@, pos as int) == pos as int);
                assert(rest.skip(3) =~= tem@.skip(k + 3));
            }
            k = k + 3;
        } else if ws_char(tem[k]) {
            let ghost pos0 = pos as int;
            while pos < s.len() && ws_char(s[pos])
                invariant
                    pos0 <= pos <= s@.len(),
                    ws_run_end(s@, pos0) == ws_run_end(s@, pos as int),
                decreases s@.len() - pos,
            {
                pos = pos + 1;
            }
            proof {
                assert(ws_run_end(s@, pos as int) == pos as int);
                assert(rest.skip(1) =~= tem@.skip(k + 1));
            }
            k = k + 1;
        } else {
            if pos < s.len() && s[pos] == tem[k] {
                proof {
                    assert(rest.skip(1) =~= tem@.skip(k + 1));
                }
                pos = pos + 1;
                k = k + 1;
            } else {
                return None;
            }
        }
    }
    proof {
        assert(tem@.skip(tem@.len() as int).len() == 0);
    }
    Some(pos)
}

/// The earliest position where `tem` matches through to the end of `s`.
pub fn search_suffix_start(tem: &Vec<char>, s: &Vec<char>) -> (r: Option<usize>)
    ensures
        r matches Some(j) ==> suffix_match_start(tem@, s@) == Some(j as int) && j <= s@.len(),
        r is None ==> suffix_match_start(tem@, s@) is None,
{
    let n = s.len();
    let mut i: usize = 0;
    loop
        invariant
            i <= n,
            n == s@.len(),
            suffix_match_start(tem@, s@) == suffix_match_start_from(tem@, s@, i as int),
        decreases n - i,
    {
        match template_match_from(tem, s, i) {
            Some(e) => {
                if e == n {
                    return Some(i);
                }
            },
            None => {},
        }
        if i == n {
            proof {
                assert(suffix_match_start_from(tem@, s@, s@.len() as int + 1) is None);
            }
            return None;
        }
        i = i + 1;
    }
}


/// Every character in `[b, e)` of `s` is whitespace.
pub open spec fn ws_span(s: Seq<char>, b: int, e: int) -> bool {
    forall|m: int| b <= m < e ==> is_ws_char(s[m])
}

/// Every character in `[b, e)` of `s` is identifier-like.
pub open spec fn ident_span(s: Seq<char>, b: int, e: int) -> bool {
    forall|m: int| b <= m < e ==> is_ident_char(s[m])
}

/// The template has the `XXX` placeholder at position `a`.
pub open spec fn placeholder_at(tem: Seq<char>, a: int) -> bool {
    &&& 0 <= a
    &&& a + 3 <= tem.len()
    &&& tem[a] == 'X'
    &&& tem[a + 1] == 'X'
    &&& tem[a + 2] == 'X'
}

/// `s[b..e]` is one instantiation of the template tail `tem[a..]`: each
/// whitespace character of the template stands for an arbitrary
/// (possibly empty) run of whitespace, each placeholder for an arbitrary
/// run of identifier-like characters, and every other template character
/// for itself.
pub open spec fn inst_span(tem: Seq<char>, a: int, s: Seq<char>, b: int, e: int) -> bool
    decreases tem.len() - a,
{
    if !(0 <= a <= tem.len() && 0 <= b <= e <= s.len()) {
        false
    } else if a == tem.len() {
        b == e
    } else if placeholder_at(tem, a) {
        exists|k: int| b <= k <= e && ident_span(s, b, k) && inst_span(tem, a + 3, s, k, e)
    } else if is_ws_char(tem[a]) {
        exists|k: int| b <= k <= e && ws_span(s, b, k) && inst_span(tem, a + 1, s, k, e)
    } else {
        b < e && s[b] == tem[a] && inst_span(tem, a + 1, s, b + 1, e)
    }
}

/// After a placeholder ending at `p`, the first non-whitespace template
/// character (if any) is not identifier-like, so a greedy identifier run
/// cannot leak past the placeholder.
pub open spec fn placeholder_boundary_ok(tem: Seq<char>, p: int) -> bool {
    ws_run_end(tem, p) == tem.len() || !is_ident_char(tem[ws_run_end(tem, p)])
}

/// The template tail from `a` is well formed for greedy matching: every
/// placeholder is followed by a boundary a greedy identifier run stops
/// at.
pub open spec fn template_wf_from(tem: Seq<char>, a: int) -> bool
    decreases tem.len() - a,
{
    if !(0 <= a < tem.len()) {
        true
    } else if placeholder_at(tem, a) {
        placeholder_boundary_ok(tem, a + 3) && template_wf_from(tem, a + 3)
    } else {
        template_wf_from(tem, a + 1)
    }
}

/// The template ends with a character no flexible element can produce,
/// so a greedy match cannot run past an instantiation's end.
pub open spec fn ends_unflexed(tem: Seq<char>) -> bool {
    &&& tem.len() > 0
    &&& !is_ws_char(tem[tem.len() - 1])
    &&& !is_ident_char(tem[tem.len() - 1])
}

proof fn lemma_ws_run_chars(s: Seq<char>, b: int)
    requires
        0 <= b <= s.len(),
    ensures
        b <= ws_run_end(s, b) <= s.len(),
        ws_span(s, b, ws_run_end(s, b)),
        ws_run_end(s, b) == s.len() || !is_ws_char(s[ws_run_end(s, b)]),
    decreases s.len() - b,
{
    if b < s.len() && is_ws_char(s[b]) {
        lemma_ws_run_chars(s, b + 1);
    }
}

proof fn lemma_ws_run_lower(s: Seq<char>, b: int, k: int)
    requires
        0 <= b <= k <= s.len(),
        ws_span(s, b, k),
    ensures
        ws_run_end(s, b) >= k,
    decreases k - b,
{
    lemma_ws_run_chars(s, b);
    if b < k {
        assert(is_ws_char(s[b]));
        lemma_ws_run_lower(s, b + 1, k);
    }
}

proof fn lemma_ws_run_le(s: Seq<char>, b: int, m: int)
    requires
        0 <= b <= m < s.len(),
        !is_ws_char(s[m]),
    ensures
        ws_run_end(s, b) <= m,
    decreases m - b,
{
    if b < m && is_ws_char(s[b]) {
        lemma_ws_run_le(s, b + 1, m);
    }
}

proof fn lemma_ident_run_exact(s: Seq<char>, b: int, k: int)
    requires
        0 <= b <= k <= s.len(),
        ident_span(s, b, k),
        k == s.len() || !is_ident_char(s[k]),
    ensures
        ident_run_end(s, b) == k,
    decreases k - b,
{
    if b < k {
        lemma_ident_run_exact(s, b + 1, k);
    }
}

/// An instantiation stays one when a leading whitespace character of the
/// instantiated text is dropped: only a flexible whitespace element can
/// have produced it.
proof fn lemma_inst_absorb(tem: Seq<char>, a: int, s: Seq<char>, x: int, e: int)
    requires
        inst_span(tem, a, s, x, e),
        x < e,
        is_ws_char(s[x]),
    ensures
        inst_span(tem, a, s, x + 1, e),
    decreases tem.len() - a,
{
    if a == tem.len() {
        assert(false);
    } else if placeholder_at(tem, a) {
        let k = choose|k: int| x <= k <= e && ident_span(s, x, k) && inst_span(tem, a + 3, s, k, e);
        assert(k == x);
        lemma_inst_absorb(tem, a + 3, s, x, e);
        assert(ident_span(s, x + 1, x + 1));
        assert(inst_span(tem, a, s, x + 1, e));
    } else if is_ws_char(tem[a]) {
        let k = choose|k: int| x <= k <= e && ws_span(s, x, k) && inst_span(tem, a + 1, s, k, e);
        if k > x {
            assert(ws_span(s, x + 1, k));
            assert(inst_span(tem, a, s, x + 1, e));
        } else {
            lemma_inst_absorb(tem, a + 1, s, x, e);
            assert(ws_span(s, x + 1, x + 1));
            assert(inst_span(tem, a, s, x + 1, e));
        }
    } else {
        assert(false);
    }
}

proof fn lemma_inst_absorb_to(tem: Seq<char>, a: int, s: Seq<char>, x: int, j: int, e: int)
    requires
        inst_span(tem, a, s, x, e),
        x <= j <= e,
        ws_span(s, x, j),
    ensures
        inst_span(tem, a, s, j, e),
    decreases j - x,
{
    if x < j {
        lemma_inst_absorb(tem, a, s, x, e);
        assert(ws_span(s, x + 1, j));
        lemma_inst_absorb_to(tem, a, s, x + 1, j, e);
    }
}

/// Where a placeholder boundary follows, the first character of a
/// nonempty instantiated tail is never identifier-like.
proof fn lemma_inst_first_nonident(tem: Seq<char>, a: int, s: Seq<char>, x: int, e: int)
    requires
        inst_span(tem, a, s, x, e),
        x < e,
        placeholder_boundary_ok(tem, a),
    ensures
        !is_ident_char(s[x]),
    decreases tem.len() - a,
{
    if a == tem.len() {
        assert(false);
    } else if placeholder_at(tem, a) {
        assert(ws_run_end(tem, a) == a);
        assert(is_ident_char('X'));
        assert(false);
    } else if is_ws_char(tem[a]) {
        let k = choose|k: int| x <= k <= e && ws_span(s, x, k) && inst_span(tem, a + 1, s, k, e);
        if k > x {
            assert(is_ws_char(s[x]));
        } else {
            assert(ws_run_end(tem, a) == ws_run_end(tem, a + 1));
            lemma_inst_first_nonident(tem, a + 1, s, x, e);
        }
    } else {
        assert(ws_run_end(tem, a) == a);
        assert(s[x] == tem[a]);
    }
}

/// A nonempty unflexed-ended template tail instantiates only nonempty
/// text, whose last character is its final literal.
proof fn lemma_inst_last(tem: Seq<char>, a: int, s: Seq<char>, x: int, e: int)
    requires
        inst_span(tem, a, s, x, e),
        0 <= a < tem.len(),
        ends_unflexed(tem),
    ensures
        x < e,
        !is_ws_char(s[e - 1]),
    decreases tem.len() - a,
{
    if placeholder_at(tem, a) {
        let k = choose|k: int| x <= k <= e && ident_span(s, x, k) && inst_span(tem, a + 3, s, k, e);
        if a + 3 == tem.len() {
            assert(is_ident_char(tem[tem.len() - 1]));
            assert(false);
        } else {
            lemma_inst_last(tem, a + 3, s, k, e);
        }
    } else if is_ws_char(tem[a]) {
        let k = choose|k: int| x <= k <= e && ws_span(s, x, k) && inst_span(tem, a + 1, s, k, e);
        if a + 1 == tem.len() {
            assert(is_ws_char(tem[tem.len() - 1]));
            assert(false);
        } else {
            lemma_inst_last(tem, a + 1, s, k, e);
        }
    } else {
        if a + 1 == tem.len() {
            assert(inst_span(tem, a + 1, s, x + 1, e));
            assert(x + 1 == e);
            assert(s[e - 1] == tem[tem.len() - 1]);
        } else {
            lemma_inst_last(tem, a + 1, s, x + 1, e);
        }
    }
}

/// The greedy matcher accepts every instantiation of a well-formed
/// template, ending exactly at the instantiation's end.
proof fn lemma_inst_span_matches(tem: Seq<char>, a: int, s: Seq<char>, b: int, e: int)
    requires
        inst_span(tem, a, s, b, e),
        template_wf_from(tem, a),
        e == s.len() || ends_unflexed(tem),
    ensures
        template_match_end(tem.skip(a), s, b) == Some(e),
    decreases tem.len() - a,
{
    let rest = tem.skip(a);
    assert(rest.len() == tem.len() - a);
    if a == tem.len() {
        assert(rest.len() == 0);
    } else {
        assert(rest[0] == tem[a]);
        if rest.len() >= 3 {
            assert(rest[1] == tem[a + 1]);
            assert(rest[2] == tem[a + 2]);
        }
        if placeholder_at(tem, a) {
            let k = choose|k: int|
                b <= k <= e && ident_span(s, b, k) && inst_span(tem, a + 3, s, k, e);
            if k < e {
                lemma_inst_first_nonident(tem, a + 3, s, k, e);
            } else {
                if e < s.len() {
                    if a + 3 == tem.len() {
                        assert(is_ident_char(tem[tem.len() - 1]));
                        assert(false);
                    } else {
                        lemma_inst_last(tem, a + 3, s, e, e);
                        assert(false);
                    }
                }
            }
            lemma_ident_run_exact(s, b, k);
            lemma_inst_span_matches(tem, a + 3, s, k, e);
            assert(rest.skip(3) =~= tem.skip(a + 3));
            assert(placeholder_here(rest));
        } else if is_ws_char(tem[a]) {
            let k = choose|k: int| b <= k <= e && ws_span(s, b, k) && inst_span(tem, a + 1, s, k, e);
            lemma_ws_run_chars(s, b);
            let j = ws_run_end(s, b);
            lemma_ws_run_lower(s, b, k);
            if e < s.len() {
                if a + 1 == tem.len() {
                    assert(is_ws_char(tem[tem.len() - 1]));
                    assert(false);
                }
                lemma_inst_last(tem, a + 1, s, k, e);
                lemma_ws_run_le(s, b, e - 1);
            }
            assert(k <= j <= e);
            assert(ws_span(s, k, j));
            lemma_inst_absorb_to(tem, a + 1, s, k, j, e);
            lemma_inst_span_matches(tem, a + 1, s, j, e);
            assert(rest.skip(1) =~= tem.skip(a + 1));
            assert(!placeholder_here(rest));
        } else {
            assert(b < e && s[b] == tem[a]);
            lemma_inst_span_matches(tem, a + 1, s, b + 1, e);
            assert(rest.skip(1) =~= tem.skip(a + 1));
            assert(!placeholder_here(rest));
            assert(!is_ws_char(rest[0]));
        }
    }
}

proof fn lemma_suffix_found_from(tem: Seq<char>, s: Seq<char>, i: int, q: int)
    requires
        0 <= i <= q <= s.len(),
        template_match_end(tem, s, q) == Some(s.len() as int),
    ensures
        suffix_match_start_from(tem, s, i) matches Some(st) && st <= q,
    decreases q - i,
{
    if template_match_end(tem, s, i) == Some(s.len() as int) {
    } else {
        assert(i < q);
        lemma_suffix_found_from(tem, s, i + 1, q);
    }
}

/// Whitespace and placeholder variation inside a structurally matching
/// scaffold never makes an anchor fail: a script that begins with an
/// instantiation of a well-formed prefix template ending in an inflexible
/// character, and ends with an instantiation of a well-formed suffix
/// template, has its prefix anchor match exactly the instantiated prefix
/// and its suffix anchor found no later than the instantiated suffix's
/// start.
pub proof fn lemma_varied_scaffold_anchors(
    tem_p: Seq<char>,
    tem_s: Seq<char>,
    s: Seq<char>,
    pe: int,
    q: int,
)
    requires
        inst_span(tem_p, 0, s, 0, pe),
        template_wf_from(tem_p, 0),
        ends_unflexed(tem_p),
        inst_span(tem_s, 0, s, q, s.len() as int),
        template_wf_from(tem_s, 0),
    ensures
        template_match_end(tem_p, s, 0) == Some(pe),
        suffix_match_start(tem_s, s) matches Some(st) && st <= q,
{
    lemma_inst_span_matches(tem_p, 0, s, 0, pe);
    assert(tem_p.skip(0) =~= tem_p);
    lemma_inst_span_matches(tem_s, 0, s, q, s.len() as int);
    assert(tem_s.skip(0) =~= tem_s);
    lemma_suffix_found_from(tem_s, s, 0, q);
}

/// Positional well-formedness implies the scan's: a template whose every
/// placeholder occurrence has a boundary after it is well formed from
/// any position.
pub proof fn lemma_template_wf_from_pos(tem: Seq<char>, a: int)
    requires
        forall|p: int| placeholder_at(tem, p) ==> placeholder_boundary_ok(tem, p + 3),
    ensures
        template_wf_from(tem, a),
    decreases tem.len() - a,
{
    if 0 <= a < tem.len() {
        if placeholder_at(tem, a) {
            lemma_template_wf_from_pos(tem, a + 3);
        } else {
            lemma_template_wf_from_pos(tem, a + 1);
        }
    }
}

} // verus!
