//! Rewriting of the generated loader script. The scaffold is stripped by
//! anchored structural matching against the two known templates, the
//! bootstrap body between the anchors is extracted, every occurrence of
//! the console-error call the target host does not support is rewritten
//! to the platform-provided equivalent, and the platform loader is
//! assembled from an initialization header, a module-fetch function
//! referencing the configured module name, and the extracted body.

use vstd::prelude::*;
use vstd::string::StrSliceExecFns;

use crate::errors::{AnchorKind, Error};
use crate::text::{str_to_chars, module_stem, module_stem_str};
use crate::scaffold::{
    template_match_end, suffix_match_start, template_match_from, search_suffix_start, inst_span,
    placeholder_at, placeholder_boundary_ok, template_wf_from, ends_unflexed, ws_run_end,
    lemma_template_wf_from_pos, lemma_varied_scaffold_anchors,
};

verus! {

/// The console call the target host does not support.
pub open spec fn console_call() -> Seq<char> {
    "console.error"@
}

/// The platform-provided replacement; it differs from the unsupported
/// call in exactly one character, so rewriting preserves length.
pub open spec fn console_replacement() -> Seq<char> {
    "console_error"@
}

/// The unsupported console call occurs in `s` at position `k`.
pub open spec fn occurs_at(s: Seq<char>, k: int) -> bool {
    &&& 0 <= k
    &&& k + 13 <= s.len()
    &&& s.subrange(k, k + 13) == console_call()
}

/// Position `j` holds the separator of an occurrence of the unsupported
/// call, the one character the rewrite changes.
pub open spec fn replaced_dot(s: Seq<char>, j: int) -> bool {
    occurs_at(s, j - 7)
}

/// `s` with every occurrence of the unsupported console call rewritten to
/// the platform-provided equivalent. Occurrences cannot overlap, and call
/// and replacement differ in exactly one character, so the rewrite is the
/// pointwise exchange of each occurrence's separator character.
pub open spec fn spec_replace_console(s: Seq<char>) -> Seq<char> {
    Seq::new(s.len(), |j: int| if replaced_dot(s, j) { '_' } else { s[j] })
}

/// Two occurrences of the unsupported call cannot overlap: its first
/// character appears in it only once.
pub proof fn lemma_console_no_overlap(s: Seq<char>, k1: int, k2: int)
    requires
        k1 < k2 < k1 + 13,
    ensures
        !(occurs_at(s, k1) && occurs_at(s, k2)),
{
    if occurs_at(s, k1) && occurs_at(s, k2) {
        reveal_strlit("console.error");
        assert(s.subrange(k2, k2 + 13)[0] == s[k2]);
        assert(s.subrange(k1, k1 + 13)[k2 - k1] == s[k2]);
        assert(console_call()[0] == 'c');
        assert(console_call()[k2 - k1] != 'c');
    }
}

/// After the rewrite no occurrence of the unsupported console call
/// remains anywhere in the result.
pub proof fn lemma_replace_console_complete(s: Seq<char>)
    ensures
        spec_replace_console(s).len() == s.len(),
        forall|k: int| !occurs_at(spec_replace_console(s), k),
{
    reveal_strlit("console.error");
    reveal_strlit("console_error");
    let r = spec_replace_console(s);
    assert forall|k: int| !occurs_at(r, k) by {
        if occurs_at(r, k) {
            assert forall|d: int| 0 <= d < 13 implies s[k + d] == console_call()[d] by {
                assert(r.subrange(k, k + 13)[d] == r[k + d]);
                assert(console_call()[d] != '_');
            }
            assert(s.subrange(k, k + 13) =~= console_call());
            assert(occurs_at(s, k));
            assert(replaced_dot(s, k + 7));
            assert(r[k + 7] == '_');
            assert(r.subrange(k, k + 13)[7] == r[k + 7]);
            assert(console_call()[7] == '.');
            assert(false);
        }
    }
}

/// Whether `pat` occurs in `v` at position `i`.
fn chars_match_at(v: &Vec<char>, pat: &Vec<char>, i: usize) -> (r: bool)
    requires
        i + pat@.len() <= v@.len(),
    ensures
        r == (v@.subrange(i as int, i as int + pat@.len() as int) == pat@),
{
    let m = pat.len();
    let n = v.len();
    let mut t: usize = 0;
    while t < m
        invariant
            t <= m,
            m == pat@.len(),
            n == v@.len(),
            i + m <= n,
            forall|u: int| 0 <= u < t ==> v@[i + u] == pat@[u],
        decreases m - t,
    {
        if v[i + t] != pat[t] {
            proof {
                let ti = t as int;
                assert(v@.subrange(i as int, i as int + pat@.len() as int)[ti] != pat@[ti]);
            }
            return false;
        }
        t = t + 1;
    }
    proof {
        assert(v@.subrange(i as int, i as int + pat@.len() as int) =~= pat@);
    }
    true
}

/// Rewrites every occurrence of the unsupported console call in `s`.
pub fn replace_console_calls(s: &str) -> (r: String)
    ensures
        r@ == spec_replace_console(s@),
{
    proof {
        reveal_strlit("console.error");
        reveal_strlit("console_error");
    }
    let chars = str_to_chars(s);
    let from = str_to_chars("console.error");
    proof {
        assert(from@.len() == 13);
    }
    let len = chars.len();
    let ghost rr = spec_replace_console(s@);
    let mut out = String::new();
    let mut seg_start: usize = 0;
    let mut i: usize = 0;
    while i < len
        invariant
            seg_start <= i <= len,
            len == s@.len(),
            chars@ == s@,
            from@ == console_call(),
            from@.len() == 13,
            rr == spec_replace_console(s@),
            out@ == rr.take(seg_start as int),
            forall|j: int| seg_start <= j < i ==> !occurs_at(s@, j),
            forall|k: int| !(k < seg_start && occurs_at(s@, k) && k + 13 > seg_start),
        decreases len - i,
    {
        proof {
            reveal_strlit("console.error");
            reveal_strlit("console_error");
        }
        let is_match = if len - i >= 13 {
            chars_match_at(&chars, &from, i)
        } else {
            false
        };
        if is_match {
            proof {
                assert(occurs_at(s@, i as int));
                assert forall|j: int| seg_start <= j < i implies rr[j] == s@[j] by {
                    if replaced_dot(s@, j) {
                        if j - 7 >= seg_start {
                            assert(!occurs_at(s@, j - 7));
                        } else {
                            assert(!(j - 7 < seg_start && occurs_at(s@, j - 7) && j - 7 + 13
                                > seg_start));
                        }
                        assert(false);
                    }
                }
                assert(rr.take(i as int) =~= rr.take(seg_start as int) + s@.subrange(
                    seg_start as int,
                    i as int,
                ));
                assert forall|d: int| 0 <= d < 13 implies rr[i + d] == console_replacement()[d] by {
                    if d == 7 {
                        assert(replaced_dot(s@, i + 7));
                        assert(rr[i + 7] == '_');
                        assert(console_replacement()[7] == '_');
                    } else {
                        if replaced_dot(s@, i + d) {
                            if i + d - 7 < i {
                                lemma_console_no_overlap(s@, i + d - 7, i as int);
                            } else {
                                lemma_console_no_overlap(s@, i as int, i + d - 7);
                            }
                        }
                        assert(rr[i + d] == s@[i + d]);
                        assert(s@.subrange(i as int, i as int + 13)[d] == s@[i + d]);
                        assert(console_call()[d] == console_replacement()[d]);
                    }
                }
                assert(rr.take(i + 13) =~= rr.take(i as int) + rr.subrange(i as int, i + 13));
                assert(rr.subrange(i as int, i + 13) =~= console_replacement());
            }
            out.append(s.substring_char(seg_start, i));
            out.append("console_error");
            i = i + 13;
            proof {
                assert forall|k: int| !(k < i && occurs_at(s@, k) && k + 13 > i) by {
                    if k < i && occurs_at(s@, k) && k + 13 > i {
                        let i0 = i - 13;
                        if k < i0 && k + 13 > i0 {
                            lemma_console_no_overlap(s@, k, i0);
                        } else if i0 < k {
                            lemma_console_no_overlap(s@, i0, k);
                        }
                        assert(false);
                    }
                }
            }
            seg_start = i;
        } else {
            proof {
                if i + 13 <= len {
                    assert(s@.subrange(i as int, i as int + 13) != console_call());
                }
                assert(!occurs_at(s@, i as int));
            }
            i = i + 1;
        }
    }
    proof {
        assert forall|j: int| seg_start <= j < len implies rr[j] == s@[j] by {
            if replaced_dot(s@, j) {
                if j - 7 >= seg_start {
                    assert(!occurs_at(s@, j - 7));
                } else {
                    assert(!(j - 7 < seg_start && occurs_at(s@, j - 7) && j - 7 + 13 > seg_start));
                }
                assert(false);
            }
        }
        assert(rr =~= rr.take(seg_start as int) + s@.subrange(seg_start as int, len as int));
    }
    let tail = s.substring_char(seg_start, len);
    let mut res = out;
    res.append(tail);
    res
}


/// The scaffold text the upstream generator is expected to emit before
/// the bootstrap body, with `XXX` standing for the module name.
pub const PREFIX_TEMPLATE: &'static str = r#""use strict";

if( typeof Rust === "undefined" ) {
    var Rust = {};
}

(function( root, factory ) {
    if( typeof define === "function" && define.amd ) {
        define( [], factory );
    } else if( typeof module === "object" && module.exports ) {
        module.exports = factory();
    } else {
        Rust.XXX = factory();
    }
}( this, function() {
    return (function( module_factory ) {
        var instance = module_factory();

        if( typeof process === "object" && typeof process.versions === "object" && typeof process.versions.node === "string" ) {
            var fs = require( "fs" );
            var path = require( "path" );
            var wasm_path = path.join( __dirname, "XXX.wasm" );
            var buffer = fs.readFileSync( wasm_path );
            var mod = new WebAssembly.Module( buffer );
            var wasm_instance = new WebAssembly.Instance( mod, instance.imports );
            return instance.initialize( wasm_instance );
        } else {
            var file = fetch( "XXX.wasm", {credentials: "same-origin"} );

            var wasm_instance = ( typeof WebAssembly.instantiateStreaming === "function"
                ? WebAssembly.instantiateStreaming( file, instance.imports )
                    .then( function( result ) { return result.instance; } )

                : file
                    .then( function( response ) { return response.arrayBuffer(); } )
                    .then( function( bytes ) { return WebAssembly.compile( bytes ); } )
                    .then( function( mod ) { return WebAssembly.instantiate( mod, instance.imports ) } ) );

            return wasm_instance
                .then( function( wasm_instance ) {
                    var exports = instance.initialize( wasm_instance );
                    console.log( "Finished loading Rust wasm module 'XXX'" );
                    return exports;
                })
                .catch( function( error ) {
                    console.log( "Error loading Rust wasm module 'XXX':", error );
                    throw error;
                });
        }
    }( function() {"#;

/// The scaffold text expected after the bootstrap body.
pub const SUFFIX_TEMPLATE: &'static str = r#"
    }
     ));
    }));
    "#;

/// The built-in initialization header used when none is configured.
pub const DEFAULT_INITIALIZATION_HEADER: &'static str = r#""use strict";

function console_error() {
    console.log.apply(console, arguments);
    Game.notify(Array.prototype.slice.call(arguments).join(' '));
}
"#;

/// The generated text between the header and the module name.
pub const FETCH_OPEN: &'static str = "\n\nfunction wasm_fetch_module_bytes() {\n    \"use strict\";\n    return require('";

/// The generated text between the module name and the bootstrap body.
pub const FETCH_MID: &'static str = "');\n}\n\nfunction wasm_create_stdweb_vars() {\n    \"use strict\";\n    ";

/// The generated text closing the assembled loader.
pub const FETCH_CLOSE: &'static str = "\n}\n";

/// Where the prefix anchor, matched from the start of the script, ends.
pub open spec fn prefix_anchor_end(script: Seq<char>) -> Option<int> {
    template_match_end(PREFIX_TEMPLATE@, script, 0)
}

/// Where the suffix anchor, matched through to the end of the script,
/// starts.
pub open spec fn suffix_anchor_start(script: Seq<char>) -> Option<int> {
    suffix_match_start(SUFFIX_TEMPLATE@, script)
}

/// Both anchors match and enclose a (possibly empty) bootstrap body.
pub open spec fn scaffold_shape_ok(script: Seq<char>) -> bool {
    &&& prefix_anchor_end(script) is Some
    &&& suffix_anchor_start(script) is Some
    &&& prefix_anchor_end(script)->Some_0 <= suffix_anchor_start(script)->Some_0
}

/// The text strictly between the two matched anchors.
pub open spec fn spec_bootstrap_body(script: Seq<char>) -> Seq<char> {
    script.subrange(prefix_anchor_end(script)->Some_0, suffix_anchor_start(script)->Some_0)
}

/// The transformation succeeds exactly on these inputs.
pub open spec fn transform_ok(script: Seq<char>, wasm_file: Seq<char>) -> bool {
    scaffold_shape_ok(script) && module_stem(wasm_file) is Some
}

/// The assembled platform loader: the initialization header, a fetch
/// function referencing the module name derived from the configured
/// binary filename, and the extracted bootstrap body with the
/// unsupported console call rewritten.
pub open spec fn transform_output(script: Seq<char>, wasm_file: Seq<char>, header: Seq<char>) -> Seq<char> {
    header + FETCH_OPEN@ + module_stem(wasm_file)->Some_0 + FETCH_MID@ + spec_replace_console(
        spec_bootstrap_body(script),
    ) + FETCH_CLOSE@
}

/// The transformation is deterministic: its successful output is a pure
/// function of the script, the configured binary filename and the header
/// text, so identical inputs always produce identical output.
pub proof fn lemma_transformer_deterministic(
    script: Seq<char>,
    wasm_file: Seq<char>,
    header: Seq<char>,
    out1: Seq<char>,
    out2: Seq<char>,
)
    requires
        out1 == transform_output(script, wasm_file, header),
        out2 == transform_output(script, wasm_file, header),
    ensures
        out1 == out2,
{
}

/// Rewrites the generated loader script into its platform-specific form.
/// Fails with a shape mismatch when an anchor does not match (or the
/// anchors overlap), and with an invalid-module-name error when the
/// configured binary filename has no stem.
pub fn transform_loader(script: &str, output_wasm_file: &str, header: &str) -> (r: Result<
    String,
    Error,
>)
    ensures
        r is Ok <==> transform_ok(script@, output_wasm_file@),
        r matches Ok(out) ==> out@ == transform_output(script@, output_wasm_file@, header@),
        r matches Err(e) ==> (match e {
            Error::LoaderShapeMismatch { anchor } => (match anchor {
                AnchorKind::Prefix => prefix_anchor_end(script@) is None,
                AnchorKind::Suffix => prefix_anchor_end(script@) is Some
                    && !scaffold_shape_ok(script@),
            }),
            Error::InvalidModuleName { file_name } => scaffold_shape_ok(script@) && module_stem(
                output_wasm_file@,
            ) is None && file_name@ == output_wasm_file@,
            _ => false,
        }),
{
    let s_chars = str_to_chars(script);
    let pre = str_to_chars(PREFIX_TEMPLATE);
    let suf = str_to_chars(SUFFIX_TEMPLATE);
    let p_end = match template_match_from(&pre, &s_chars, 0) {
        Some(e) => e,
        None => {
            return Err(Error::LoaderShapeMismatch { anchor: AnchorKind::Prefix });
        },
    };
    let s_start = match search_suffix_start(&suf, &s_chars) {
        Some(j) => j,
        None => {
            return Err(Error::LoaderShapeMismatch { anchor: AnchorKind::Suffix });
        },
    };
    if s_start < p_end {
        return Err(Error::LoaderShapeMismatch { anchor: AnchorKind::Suffix });
    }
    let body = script.substring_char(p_end, s_start);
    let replaced = replace_console_calls(body);
    let name = match module_stem_str(output_wasm_file) {
        Some(n) => n,
        None => {
            return Err(Error::InvalidModuleName { file_name: output_wasm_file.to_owned() });
        },
    };
    let mut out = header.to_owned();
    out.append(FETCH_OPEN);
    out.append(name.as_str());
    out.append(FETCH_MID);
    out.append(replaced.as_str());
    out.append(FETCH_CLOSE);
    proof {
        assert(body@ == spec_bootstrap_body(script@));
        assert(out@ =~= transform_output(script@, output_wasm_file@, header@));
    }
    Ok(out)
}


#[verifier::rlimit(100)]
proof fn lemma_prefix_template_wf()
    ensures
        template_wf_from(PREFIX_TEMPLATE@, 0),
        ends_unflexed(PREFIX_TEMPLATE@),
{
    reveal_strlit(r#""use strict";

if( typeof Rust === "undefined" ) {
    var Rust = {};
}

(function( root, factory ) {
    if( typeof define === "function" && define.amd ) {
        define( [], factory );
    } else if( typeof module === "object" && module.exports ) {
        module.exports = factory();
    } else {
        Rust.XXX = factory();
    }
}( this, function() {
    return (function( module_factory ) {
        var instance = module_factory();

        if( typeof process === "object" && typeof process.versions === "object" && typeof process.versions.node === "string" ) {
            var fs = require( "fs" );
            var path = require( "path" );
            var wasm_path = path.join( __dirname, "XXX.wasm" );
            var buffer = fs.readFileSync( wasm_path );
            var mod = new WebAssembly.Module( buffer );
            var wasm_instance = new WebAssembly.Instance( mod, instance.imports );
            return instance.initialize( wasm_instance );
        } else {
            var file = fetch( "XXX.wasm", {credentials: "same-origin"} );

            var wasm_instance = ( typeof WebAssembly.instantiateStreaming === "function"
                ? WebAssembly.instantiateStreaming( file, instance.imports )
                    .then( function( result ) { return result.instance; } )

                : file
                    .then( function( response ) { return response.arrayBuffer(); } )
                    .then( function( bytes ) { return WebAssembly.compile( bytes ); } )
                    .then( function( mod ) { return WebAssembly.instantiate( mod, instance.imports ) } ) );

            return wasm_instance
                .then( function( wasm_instance ) {
                    var exports = instance.initialize( wasm_instance );
                    console.log( "Finished loading Rust wasm module 'XXX'" );
                    return exports;
                })
                .catch( function( error ) {
                    console.log( "Error loading Rust wasm module 'XXX':", error );
                    throw error;
                });
        }
    }( function() {"#);
    assert forall|p: int| placeholder_at(PREFIX_TEMPLATE@, p) implies placeholder_boundary_ok(
        PREFIX_TEMPLATE@,
        p + 3,
    ) by {
        reveal_strlit(r#""use strict";

if( typeof Rust === "undefined" ) {
    var Rust = {};
}

(function( root, factory ) {
    if( typeof define === "function" && define.amd ) {
        define( [], factory );
    } else if( typeof module === "object" && module.exports ) {
        module.exports = factory();
    } else {
        Rust.XXX = factory();
    }
}( this, function() {
    return (function( module_factory ) {
        var instance = module_factory();

        if( typeof process === "object" && typeof process.versions === "object" && typeof process.versions.node === "string" ) {
            var fs = require( "fs" );
            var path = require( "path" );
            var wasm_path = path.join( __dirname, "XXX.wasm" );
            var buffer = fs.readFileSync( wasm_path );
            var mod = new WebAssembly.Module( buffer );
            var wasm_instance = new WebAssembly.Instance( mod, instance.imports );
            return instance.initialize( wasm_instance );
        } else {
            var file = fetch( "XXX.wasm", {credentials: "same-origin"} );

            var wasm_instance = ( typeof WebAssembly.instantiateStreaming === "function"
                ? WebAssembly.instantiateStreaming( file, instance.imports )
                    .then( function( result ) { return result.instance; } )

                : file
                    .then( function( response ) { return response.arrayBuffer(); } )
                    .then( function( bytes ) { return WebAssembly.compile( bytes ); } )
                    .then( function( mod ) { return WebAssembly.instantiate( mod, instance.imports ) } ) );

            return wasm_instance
                .then( function( wasm_instance ) {
                    var exports = instance.initialize( wasm_instance );
                    console.log( "Finished loading Rust wasm module 'XXX'" );
                    return exports;
                })
                .catch( function( error ) {
                    console.log( "Error loading Rust wasm module 'XXX':", error );
                    throw error;
                });
        }
    }( function() {"#);
        reveal_with_fuel(ws_run_end, 6);
    }
    lemma_template_wf_from_pos(PREFIX_TEMPLATE@, 0);
}

proof fn lemma_suffix_template_wf()
    ensures
        template_wf_from(SUFFIX_TEMPLATE@, 0),
{
    reveal_strlit(r#"
    }
     ));
    }));
    "#);
    assert forall|p: int| placeholder_at(SUFFIX_TEMPLATE@, p) implies placeholder_boundary_ok(
        SUFFIX_TEMPLATE@,
        p + 3,
    ) by {
        reveal_strlit(r#"
    }
     ));
    }));
    "#);
    }
    lemma_template_wf_from_pos(SUFFIX_TEMPLATE@, 0);
}

/// Whitespace and module-name variation inside a structurally matching
/// scaffold never makes an anchor fail: where the script begins with any
/// instantiation of the prefix template (each whitespace run widened,
/// narrowed or rewritten arbitrarily, each placeholder replaced by any
/// identifier-like name) and ends with any instantiation of the suffix
/// template, the prefix anchor matches exactly the instantiated prefix,
/// and a suffix anchor is found no later than the instantiated suffix's
/// start.
pub proof fn lemma_scaffold_variation_tolerated(s: Seq<char>, pe: int, q: int)
    requires
        inst_span(PREFIX_TEMPLATE@, 0, s, 0, pe),
        inst_span(SUFFIX_TEMPLATE@, 0, s, q, s.len() as int),
    ensures
        prefix_anchor_end(s) == Some(pe),
        suffix_anchor_start(s) matches Some(st) && st <= q,
{
    lemma_prefix_template_wf();
    lemma_suffix_template_wf();
    lemma_varied_scaffold_anchors(PREFIX_TEMPLATE@, SUFFIX_TEMPLATE@, s, pe, q);
}

} // verus!
