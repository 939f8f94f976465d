//! Character-level text utilities shared by the scaffold matcher and the
//! loader transformation: character classes, conversion of a string to its
//! characters, and stem/extension computation on path-like names.

use vstd::prelude::*;
use vstd::string::StrSliceExecFns;

verus! {

/// Whitespace as the flexible scaffold matching understands it.
pub open spec fn is_ws_char(c: char) -> bool {
    c == ' ' || c == '\n' || c == '\t' || c == '\r' || c == '\u{b}' || c == '\u{c}'
}

/// A character an identifier-like module name may consist of.
pub open spec fn is_ident_char(c: char) -> bool {
    ('a' as u32 <= c as u32 && c as u32 <= 'z' as u32)
        || ('A' as u32 <= c as u32 && c as u32 <= 'Z' as u32)
        || ('0' as u32 <= c as u32 && c as u32 <= '9' as u32)
        || c == '_'
        || c == '-'
}

pub fn ws_char(c: char) -> (r: bool)
    ensures
        r == is_ws_char(c),
{
    c == ' ' || c == '\n' || c == '\t' || c == '\r' || c == '\u{b}' || c == '\u{c}'
}

pub fn ident_char(c: char) -> (r: bool)
    ensures
        r == is_ident_char(c),
{
    let n = c as u32;
    ('a' as u32 <= n && n <= 'z' as u32)
        || ('A' as u32 <= n && n <= 'Z' as u32)
        || ('0' as u32 <= n && n <= '9' as u32)
        || c == '_'
        || c == '-'
}

/// The characters of `s`, in order.
pub fn str_to_chars(s: &str) -> (r: Vec<char>)
    ensures
        r@ == s@,
{
    let len = s.unicode_len();
    let mut r: Vec<char> = Vec::new();
    let mut i: usize = 0;
    while i < len
        invariant
            i <= len,
            len == s@.len(),
            r@ == s@.take(i as int),
        decreases len - i,
    {
        r.push(s.get_char(i));
        proof {
            assert(s@.take(i + 1 as int) =~= s@.take(i as int).push(s@[i as int]));
        }
        i = i + 1;
    }
    proof {
        assert(s@.take(len as int) =~= s@);
    }
    r
}

/// The index of the last occurrence of `c` in `s`, or -1 if there is none.
pub open spec fn last_index_of(s: Seq<char>, c: char) -> int
    decreases s.len(),
{
    if s.len() == 0 {
        -1
    } else if s[s.len() - 1] == c {
        s.len() - 1
    } else {
        last_index_of(s.take(s.len() - 1), c)
    }
}

pub proof fn lemma_last_index_of_bounds(s: Seq<char>, c: char)
    ensures
        -1 <= last_index_of(s, c) < s.len(),
        last_index_of(s, c) >= 0 ==> s[last_index_of(s, c)] == c,
    decreases s.len(),
{
    if s.len() != 0 && s[s.len() - 1] != c {
        lemma_last_index_of_bounds(s.take(s.len() - 1), c);
    }
}

pub fn last_index_of_char(v: &Vec<char>, c: char) -> (r: Option<usize>)
    ensures
        r matches Some(j) ==> last_index_of(v@, c) == j,
        r is None ==> last_index_of(v@, c) == -1,
{
    let mut i: usize = v.len();
    proof {
        assert(v@.take(v@.len() as int) =~= v@);
    }
    while i > 0
        invariant
            i <= v@.len(),
            last_index_of(v@, c) == last_index_of(v@.take(i as int), c),
        decreases i,
    {
        i = i - 1;
        if v[i] == c {
            proof {
                assert(v@.take(i + 1 as int)[i as int] == v@[i as int]);
            }
            return Some(i);
        }
        proof {
            assert(v@.take(i + 1 as int).take(i as int) =~= v@.take(i as int));
            assert(v@.take(i + 1 as int)[i as int] == v@[i as int]);
        }
    }
    proof {
        assert(v@.take(0) =~= Seq::<char>::empty());
    }
    None
}

/// The final path component of `s`: everything after the last `/`.
pub open spec fn final_component(s: Seq<char>) -> Seq<char> {
    s.skip(last_index_of(s, '/') + 1)
}

/// The stem of the final component of `s`, in the usual sense: the part
/// before the last dot, except that a lone leading dot does not begin an
/// extension. Empty, `.` and `..` components have no stem.
pub open spec fn module_stem(s: Seq<char>) -> Option<Seq<char>> {
    let name = final_component(s);
    if name.len() == 0 || name == "."@ || name == ".."@ {
        None
    } else {
        let d = last_index_of(name, '.');
        if d <= 0 {
            Some(name)
        } else {
            Some(name.take(d))
        }
    }
}

/// The extension of the final component of `s`: the part after the last
/// dot, where a lone leading dot does not begin an extension.
pub open spec fn extension_of(s: Seq<char>) -> Option<Seq<char>> {
    let name = final_component(s);
    let d = last_index_of(name, '.');
    if name == ".."@ || d <= 0 {
        None
    } else {
        Some(name.skip(d + 1))
    }
}

/// The characters of the final path component of `s`.
pub fn final_component_chars(v: &Vec<char>) -> (r: Vec<char>)
    ensures
        r@ == final_component(v@),
{
    proof {
        lemma_last_index_of_bounds(v@, '/');
    }
    let n = v.len();
    let slash_end: usize = match last_index_of_char(v, '/') {
        Some(j) => {
            proof {
                assert(j < n);
            }
            j + 1
        },
        None => 0,
    };
    let mut r: Vec<char> = Vec::new();
    let mut i: usize = slash_end;
    while i < v.len()
        invariant
            slash_end <= i <= v@.len(),
            r@ == v@.subrange(slash_end as int, i as int),
        decreases v@.len() - i,
    {
        r.push(v[i]);
        proof {
            assert(v@.subrange(slash_end as int, i + 1 as int) =~= v@.subrange(
                slash_end as int,
                i as int,
            ).push(v@[i as int]));
        }
        i = i + 1;
    }
    proof {
        assert(v@.subrange(slash_end as int, v@.len() as int) =~= v@.skip(slash_end as int));
    }
    r
}

/// The stem of the final component of `name`, as a fresh string;
/// `None` exactly where `name` has no stem.
pub fn module_stem_str(name: &str) -> (r: Option<String>)
    ensures
        r matches Some(m) ==> module_stem(name@) == Some(m@),
        r is None ==> module_stem(name@) is None,
{
    let chars = str_to_chars(name);
    proof {
        lemma_last_index_of_bounds(chars@, '/');
    }
    let n = chars.len();
    let slash_end: usize = match last_index_of_char(&chars, '/') {
        Some(j) => {
            proof {
                assert(j < n);
            }
            j + 1
        },
        None => 0,
    };
    let comp = final_component_chars(&chars);
    proof {
        assert(comp@ == chars@.skip(slash_end as int));
        assert(comp@.len() == n - slash_end);
    }
    if comp.len() == 0 {
        return None;
    }
    if chars_equal_str(&comp, ".") {
        return None;
    }
    if chars_equal_str(&comp, "..") {
        return None;
    }
    proof {
        lemma_last_index_of_bounds(comp@, '.');
    }
    let m = comp.len();
    let stem_len: usize = match last_index_of_char(&comp, '.') {
        Some(d) => {
            proof {
                assert(d < m);
            }
            if d == 0 {
                m
            } else {
                d
            }
        },
        None => m,
    };
    let stem = name.substring_char(slash_end, slash_end + stem_len);
    proof {
        assert(stem@ =~= comp@.take(stem_len as int));
        if stem_len == m {
            assert(comp@.take(m as int) =~= comp@);
        }
    }
    Some(stem.to_owned())
}

/// Whether the characters `v` equal the characters of `s`.
pub fn chars_equal_str(v: &Vec<char>, s: &str) -> (r: bool)
    ensures
        r == (v@ == s@),
{
    let len = s.unicode_len();
    if v.len() != len {
        proof {
            assert(v@ != s@);
        }
        return false;
    }
    let mut i: usize = 0;
    while i < len
        invariant
            i <= len,
            len == s@.len(),
            len == v@.len(),
            forall|k: int| 0 <= k < i ==> v@[k] == s@[k],
        decreases len - i,
    {
        if v[i] != s.get_char(i) {
            proof {
                assert(v@[i as int] != s@[i as int]);
            }
            return false;
        }
        i = i + 1;
    }
    proof {
        assert(v@ =~= s@);
    }
    true
}

} // verus!
