//! Rewriting the Tenhou client.

use akagi::autoplay::tenhou::inject::{
    derive_registry_name, discard_expression, is_ident_byte, lookbehind_is_whole, rewrite_client,
    InjectError,
    EXPORT_GLOBAL,
};

/// Shaped like the real client: one IIFE, the registry built by `qa`, the
/// handler registered under a string literal, and called back by name.
fn sample(registry: &str) -> String {
    format!(
        "(function(){{var aa;var m=qa({{}},[1,2]);\
         var {registry}=qa({{}},[\"c0\",function(){{}}]);\
         qa({registry},[\"c4\",function(a){{var n=V[116][0];{registry}.c21(n[a].v)}},\
         \"c21\",function(a){{var n={{tag:\"D\",p:a}};Yb.S(n);Nb.cb(n)}}]);\
         (function(){{start()}})();\n}})();\n//"
    )
}

#[test]
fn derives_the_registry_name() {
    assert_eq!(derive_registry_name(&sample("R")), Ok("R"));
}

/// The point of deriving rather than hard-coding: a rebuild renames it.
#[test]
fn survives_the_minifier_renaming_it() {
    for name in ["R", "Zq", "$a", "_7", "Wb"] {
        assert_eq!(derive_registry_name(&sample(name)), Ok(name));
    }
}

/// A name that is never called back is not the registry. Publishing an
/// arbitrary object would fail later and further away.
#[test]
fn refuses_a_candidate_the_script_never_calls_back() {
    let src = "(function(){var Q={};qa(Q,[\"c21\",function(a){}]);})();";
    assert_eq!(
        derive_registry_name(src),
        Err(InjectError::RegistryUnconfirmed("Q".into()))
    );
}

#[test]
fn reports_a_script_that_is_not_the_client() {
    assert_eq!(
        derive_registry_name("console.log(1)"),
        Err(InjectError::NoDiscardHandler)
    );
}

/// The export has to land inside the outermost IIFE, where the registry
/// is still in scope — appending after it would capture nothing.
#[test]
fn injects_before_the_last_iife_close() {
    let out = rewrite_client(&sample("R")).unwrap();
    let export = out.find(EXPORT_GLOBAL).unwrap();
    let close = out.rfind("})();").unwrap();
    assert!(export < close, "export must precede the IIFE close");
    assert!(out.contains("window.__akagiTenhou={R:R};"));
    assert!(out.ends_with("//"), "tail preserved");
}

/// Nothing in the injection may be able to stop the client booting.
#[test]
fn injection_cannot_throw_into_the_client() {
    let out = rewrite_client(&sample("R")).unwrap();
    let i = out.find(EXPORT_GLOBAL).unwrap();
    let stmt = &out[i.saturating_sub(20)..];
    assert!(stmt.starts_with("try{") || stmt.contains("try{"));
    assert!(out.contains("catch(e){}"));
}

#[test]
fn rewriting_twice_changes_nothing() {
    let once = rewrite_client(&sample("R")).unwrap();
    let twice = rewrite_client(&once).unwrap();
    assert_eq!(once, twice);
}

#[test]
fn a_foreign_script_is_refused_not_mangled() {
    assert!(rewrite_client("window.foo=1;").is_err());
}

/// The discard expression carries the tile index and reports a missing
/// door instead of throwing.
#[test]
fn discard_expression_is_index_addressed() {
    let e = discard_expression(88);
    assert!(e.contains("c21(88)"));
    assert!(e.contains("no-door"));
}

/// The whole rewrite, to the letter.
#[test]
fn the_export_is_inserted_to_the_letter() {
    let src = "(function(){qa(R,[\"c21\",function(a){}]);R.c21(1)})();//";
    assert_eq!(
        rewrite_client(src).unwrap(),
        "(function(){qa(R,[\"c21\",function(a){}]);R.c21(1);/*akagi-injected*/\
         try{window.__akagiTenhou={R:R};}catch(e){}\n})();//"
    );
}

#[test]
fn a_handler_without_a_container_has_no_registry() {
    for src in [
        "\"c21\",function(a){}",
        "qa(,[\"c21\",function(a){}]",
        "qa(R[\"c21\",function(a){}]",
        "qa(R,\"c21\",function(a){}]",
        "qa({},[\"c21\",function(a){}]",
    ] {
        assert_eq!(derive_registry_name(src), Err(InjectError::NoRegistry));
    }
}

/// The container is looked for in the 4096 bytes before the handler.
#[test]
fn a_container_too_far_back_is_not_found() {
    let near = format!("qa(R,[{}\"c21\",function(a){{}}]);R.c21(1)", "x".repeat(4090));
    assert_eq!(derive_registry_name(&near), Ok("R"));
    let far = format!("qa(R,[{}\"c21\",function(a){{}}]);R.c21(1)", "x".repeat(4091));
    assert_eq!(derive_registry_name(&far), Err(InjectError::NoRegistry));
}

#[test]
fn a_script_that_is_not_closed_has_no_injection_point() {
    let src = "qa(R,[\"c21\",function(a){}]);R.c21(1)";
    assert_eq!(rewrite_client(src), Err(InjectError::NoInjectionPoint));
}

#[test]
fn errors_say_what_is_missing() {
    assert_eq!(
        InjectError::NoDiscardHandler.message(),
        "no `\"c21\"` handler registration found"
    );
    assert_eq!(
        InjectError::NoRegistry.message(),
        "found the c21 handler but not its registry object"
    );
    assert_eq!(
        InjectError::RegistryUnconfirmed("Q".to_string()).message(),
        "candidate registry `Q` is never called as `Q.c21(`"
    );
    assert_eq!(
        InjectError::NoInjectionPoint.message(),
        "script does not end in an IIFE call"
    );
}

#[test]
fn identifiers_are_ascii() {
    for b in [b'a', b'z', b'A', b'Z', b'0', b'9', b'_', b'$'] {
        assert!(is_ident_byte(b));
    }
    for b in [b'-', b' ', b'.', 0x80, 0xff] {
        assert!(!is_ident_byte(b));
    }
}

#[test]
fn the_discard_expression_to_the_letter() {
    assert_eq!(
        discard_expression(7),
        "(()=>{const a=window.__akagiTenhou;if(!a||!a.R||typeof a.R.c21!=='function')\
         return 'no-door';a.R.c21(7);return 'ok';})()"
    );
}

/// A script whose lookbehind would cut a character in two is told apart.
#[test]
fn the_lookbehind_has_to_start_on_a_character() {
    assert!(lookbehind_is_whole(&sample("R")));
    assert!(lookbehind_is_whole("console.log(1)"));
    let cut = format!("é{}\"c21\",function(a){{}}", "x".repeat(4095));
    assert!(!lookbehind_is_whole(&cut));
    let whole = format!("é{}\"c21\",function(a){{}}", "x".repeat(4096));
    assert!(lookbehind_is_whole(&whole));
    assert_eq!(derive_registry_name(&whole), Err(InjectError::NoRegistry));
}

/// A helper call that names no object is passed over on the way back to the
/// one that does.
#[test]
fn calls_that_name_nothing_are_passed_over() {
    let src = "qa(R,[\"c4\",qa({},[1]),\"c21\",function(a){R.c21(a)}])";
    assert_eq!(derive_registry_name(src), Ok("R"));
    let nearest = "qa(Q,[1]);qa(R,[\"c21\",function(a){R.c21(a);Q.c21(a)}])";
    assert_eq!(derive_registry_name(nearest), Ok("R"));
    let later = "qa(R,[\"c21\",function(a){R.c21(a)}]);qa(Q,[1])";
    assert_eq!(derive_registry_name(later), Ok("R"));
}
