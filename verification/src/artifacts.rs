//! Discovery of the two generated artifacts: scanning a directory
//! listing, classifying each entry by extension, and demanding exactly
//! one binary module and exactly one loader script.

use vstd::prelude::*;
use vstd::string::StrSliceExecFns;

use crate::errors::{ArtifactCategory, Error};
use crate::text::{extension_of, final_component, final_component_chars, chars_equal_str,
    str_to_chars, last_index_of, last_index_of_char, lemma_last_index_of_bounds};

verus! {

/// The pair of artifact paths a build consumes: exactly one binary
/// module and exactly one loader script.
#[derive(Debug)]
pub struct ArtifactPair {
    pub wasm_file: String,
    pub js_file: String,
}

/// How many of the names carry the given extension.
pub open spec fn count_with_ext(names: Seq<String>, ext: Seq<char>) -> int
    decreases names.len(),
{
    if names.len() == 0 {
        0
    } else {
        (if extension_of(names[0]@) == Some(ext) {
            1int
        } else {
            0int
        }) + count_with_ext(names.skip(1), ext)
    }
}

pub proof fn lemma_count_with_ext_remove(names: Seq<String>, ext: Seq<char>, j: int)
    requires
        0 <= j < names.len(),
    ensures
        count_with_ext(names.remove(j), ext) == count_with_ext(names, ext) - (
        if extension_of(names[j]@) == Some(ext) {
            1int
        } else {
            0int
        }),
    decreases names.len(),
{
    if j == 0 {
        assert(names.remove(0) =~= names.skip(1));
    } else {
        lemma_count_with_ext_remove(names.skip(1), ext, j - 1);
        assert(names.remove(j).skip(1) =~= names.skip(1).remove(j - 1));
        assert(names.remove(j)[0] == names[0]);
        assert(names.skip(1)[j - 1] == names[j]);
    }
}

/// The count of either extension category depends only on which names
/// were enumerated, not on the order the directory handed them out in.
pub proof fn lemma_count_with_ext_permutation(names1: Seq<String>, names2: Seq<String>, ext: Seq<char>)
    requires
        names1.to_multiset() == names2.to_multiset(),
    ensures
        count_with_ext(names1, ext) == count_with_ext(names2, ext),
    decreases names1.len(),
{
    broadcast use vstd::seq_lib::group_to_multiset_ensures;

    if names1.len() == 0 {
        assert(names1.to_multiset().len() == names1.len());
        assert(names2.to_multiset().len() == names2.len());
        assert(names2.len() == 0);
    } else {
        let x = names1[0];
        assert(names1.contains(x));
        assert(names2.to_multiset().count(x) > 0);
        assert(names2.contains(x));
        let j = choose|j: int| 0 <= j < names2.len() && names2[j] == x;
        assert(names1.remove(0).to_multiset() =~= names2.remove(j).to_multiset());
        lemma_count_with_ext_permutation(names1.remove(0), names2.remove(j), ext);
        lemma_count_with_ext_remove(names1, ext, 0);
        lemma_count_with_ext_remove(names2, ext, j);
    }
}

/// Whether the final component of `name` carries exactly the extension
/// `ext`.
pub fn has_extension(name: &str, ext: &str) -> (r: bool)
    ensures
        r == (extension_of(name@) == Some(ext@)),
{
    let chars = str_to_chars(name);
    let comp = final_component_chars(&chars);
    if chars_equal_str(&comp, "..") {
        return false;
    }
    proof {
        lemma_last_index_of_bounds(comp@, '.');
    }
    let m = comp.len();
    match last_index_of_char(&comp, '.') {
        None => false,
        Some(d) => {
            proof {
                assert(d < m);
            }
            if d == 0 {
                return false;
            }
            let elen = ext.unicode_len();
            if m - (d + 1) != elen {
                proof {
                    assert(comp@.skip(d + 1).len() != ext@.len());
                }
                return false;
            }
            let mut t: usize = 0;
            while t < elen
                invariant
                    t <= elen,
                    0 < d + 1 <= m,
                    m == comp@.len(),
                    elen == ext@.len(),
                    m - (d + 1) == elen,
                    comp@ == final_component(name@),
                    comp@ != ".."@,
                    d == last_index_of(comp@, '.'),
                    forall|u: int| 0 <= u < t ==> comp@[d + 1 + u] == ext@[u],
                decreases elen - t,
            {
                if comp[d + 1 + t] != ext.get_char(t) {
                    proof {
                        let ti = t as int;
                        assert(comp@.skip(d + 1)[ti] != ext@[ti]);
                    }
                    return false;
                }
                t = t + 1;
            }
            proof {
                assert(comp@.skip(d + 1) =~= ext@);
            }
            true
        },
    }
}

fn count_ext(names: &Vec<String>, ext: &str) -> (c: usize)
    ensures
        c == count_with_ext(names@, ext@),
        c <= names@.len(),
{
    let n = names.len();
    let mut c: usize = 0;
    let mut i: usize = 0;
    proof {
        assert(names@.skip(0) =~= names@);
    }
    while i < n
        invariant
            c <= i <= n,
            n == names@.len(),
            count_with_ext(names@, ext@) == c + count_with_ext(names@.skip(i as int), ext@),
        decreases n - i,
    {
        let ghost rest = names@.skip(i as int);
        proof {
            assert(rest[0] == names@[i as int]);
            assert(rest.skip(1) =~= names@.skip(i + 1));
        }
        if has_extension(names[i].as_str(), ext) {
            c = c + 1;
        }
        i = i + 1;
    }
    proof {
        assert(names@.skip(n as int).len() == 0);
    }
    c
}

fn find_first_ext(names: &Vec<String>, ext: &str) -> (r: Option<usize>)
    ensures
        r matches Some(i) ==> i < names@.len() && extension_of(names@[i as int]@) == Some(ext@),
        r is None ==> count_with_ext(names@, ext@) == 0,
{
    let n = names.len();
    let mut i: usize = 0;
    proof {
        assert(names@.skip(0) =~= names@);
    }
    while i < n
        invariant
            i <= n,
            n == names@.len(),
            count_with_ext(names@, ext@) == count_with_ext(names@.skip(i as int), ext@),
        decreases n - i,
    {
        let ghost rest = names@.skip(i as int);
        proof {
            assert(rest[0] == names@[i as int]);
            assert(rest.skip(1) =~= names@.skip(i + 1));
        }
        if has_extension(names[i].as_str(), ext) {
            return Some(i);
        }
        i = i + 1;
    }
    proof {
        assert(names@.skip(n as int).len() == 0);
    }
    None
}

/// Classifies the entries of the designated output directory and
/// returns the matched pair. Fails exactly when either category has no
/// candidate or more than one, naming the directory, the offending
/// category and whether candidates were missing or plural. Success and
/// failure depend only on the counts, never on enumeration order.
pub fn locate_artifacts(dir: &str, names: &Vec<String>) -> (r: Result<ArtifactPair, Error>)
    ensures
        r is Ok <==> (count_with_ext(names@, "wasm"@) == 1 && count_with_ext(names@, "js"@) == 1),
        r matches Ok(p) ==> (exists|iw: int|
            0 <= iw < names@.len() && extension_of(names@[iw]@) == Some("wasm"@) && p.wasm_file@
                == dir@ + "/"@ + names@[iw]@) && (exists|ij: int|
            0 <= ij < names@.len() && extension_of(names@[ij]@) == Some("js"@) && p.js_file@ == dir@
                + "/"@ + names@[ij]@),
        r matches Err(e) ==> (match e {
            Error::ArtifactDiscovery { directory, category, multiple } => directory@ == dir@ && (
            match category {
                ArtifactCategory::BinaryModule => count_with_ext(names@, "wasm"@) != 1 && multiple
                    == (count_with_ext(names@, "wasm"@) >= 2),
                ArtifactCategory::LoaderScript => count_with_ext(names@, "wasm"@) == 1
                    && count_with_ext(names@, "js"@) != 1 && multiple == (count_with_ext(
                    names@,
                    "js"@,
                ) >= 2),
            }),
            _ => false,
        }),
{
    let wasm_count = count_ext(names, "wasm");
    let js_count = count_ext(names, "js");
    if wasm_count != 1 {
        return Err(
            Error::ArtifactDiscovery {
                directory: dir.to_owned(),
                category: ArtifactCategory::BinaryModule,
                multiple: wasm_count >= 2,
            },
        );
    }
    if js_count != 1 {
        return Err(
            Error::ArtifactDiscovery {
                directory: dir.to_owned(),
                category: ArtifactCategory::LoaderScript,
                multiple: js_count >= 2,
            },
        );
    }
    let iw = match find_first_ext(names, "wasm") {
        Some(i) => i,
        None => {
            proof {
                assert(false);
            }
            return Err(
                Error::ArtifactDiscovery {
                    directory: dir.to_owned(),
                    category: ArtifactCategory::BinaryModule,
                    multiple: false,
                },
            );
        },
    };
    let ij = match find_first_ext(names, "js") {
        Some(i) => i,
        None => {
            proof {
                assert(false);
            }
            return Err(
                Error::ArtifactDiscovery {
                    directory: dir.to_owned(),
                    category: ArtifactCategory::LoaderScript,
                    multiple: false,
                },
            );
        },
    };
    let mut wasm_file = dir.to_owned();
    wasm_file.append("/");
    wasm_file.append(names[iw].as_str());
    let mut js_file = dir.to_owned();
    js_file.append("/");
    js_file.append(names[ij].as_str());
    proof {
        assert(wasm_file@ == dir@ + "/"@ + names@[iw as int]@);
        assert(js_file@ == dir@ + "/"@ + names@[ij as int]@);
    }
    Ok(ArtifactPair { wasm_file, js_file })
}

} // verus!
