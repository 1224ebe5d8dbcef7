//! Opening a door into the Tenhou client's closed scope.
//!
//! The client is one immediately-invoked function expression — everything it
//! declares lives in that call and nothing reaches `window` (it exports only
//! `AudioContext`, `onerror` and `requestAnimationFrame`). JavaScript offers
//! no way to enumerate a closed function scope, so from an injected script its
//! handlers simply do not exist.
//!
//! The client has an entry point for a discard that needs no position:
//!
//! ```js
//! "c21", function(a){ ...; var n={tag:"D",p:a}; 1==U.a&&Yb.S(n); n[1]=a; Nb.cb(n) }
//! ```
//!
//! `c21` takes the *tile index* (`0..=135`) — not a slot, not a coordinate —
//! sends the frame and applies the discard to its own board. So the client
//! script is rewritten in flight, before it runs, to publish the handler
//! registry on `window`.
//!
//! # Why the name is derived, not hard-coded
//!
//! The registry's name is a minifier's choice and Tenhou reissues the script
//! under a new version whenever it changes. A hard-coded name would keep
//! matching *something* after such an update — the wrong thing — so the name
//! is instead recovered from a shape the minifier cannot rename: the string
//! literal `"c21"` under which the handler registers itself.
//!
//! # Positions
//!
//! A script is searched as its UTF-8 bytes, and every position here is a
//! byte offset.

use crate::text;
use vstd::prelude::*;
use vstd::string::StringExecFns;
use vstd::slice::slice_subrange;

verus! {

/// Global the rewritten script publishes the registry on.
pub const EXPORT_GLOBAL: &'static str = "__akagiTenhou";

/// Marker the rewrite leaves behind so a second pass is a no-op.
pub const REWRITE_MARKER: &'static str = "/*akagi-injected*/";

/// How far back from the `"c21"` registration to look for its container, in
/// bytes.
pub const LOOKBEHIND: usize = 4096;

#[derive(Debug, PartialEq, Eq)]
pub enum InjectError {
    /// The script does not register a `c21` handler. Either it is not the
    /// Tenhou client, or the client changed how it registers handlers.
    NoDiscardHandler,
    /// Found the handler but not the object it registers into.
    NoRegistry,
    /// Derived a name that the script never calls back, so it is not the
    /// registry — refuse rather than publish something arbitrary.
    RegistryUnconfirmed(String),
    /// No place to append the export.
    NoInjectionPoint,
}

/// How a search or a rewrite ends, with texts as their UTF-8 bytes.
#[verifier::ext_equal]
pub enum Outcome {
    Done(Seq<u8>),
    NoDiscardHandler,
    NoRegistry,
    RegistryUnconfirmed(Seq<u8>),
    NoInjectionPoint,
}

/// The UTF-8 bytes of a text.
pub open spec fn utf8(chars: Seq<char>) -> Seq<u8> {
    vstd::utf8::encode_utf8(chars)
}

/// The outcome that an error reports.
pub open spec fn refusal(e: InjectError) -> Outcome {
    match e {
        InjectError::NoDiscardHandler => Outcome::NoDiscardHandler,
        InjectError::NoRegistry => Outcome::NoRegistry,
        InjectError::RegistryUnconfirmed(name) => Outcome::RegistryUnconfirmed(utf8(name@)),
        InjectError::NoInjectionPoint => Outcome::NoInjectionPoint,
    }
}

/// The literal under which the client registers its discard handler.
pub open spec fn anchor_text() -> Seq<u8> {
    utf8("\"c21\",function("@)
}

/// The call of the registration helper, up to its first argument.
pub open spec fn helper_text() -> Seq<u8> {
    utf8("qa("@)
}

/// The call that the discard path makes through the registry `name`.
pub open spec fn callback_text(name: Seq<u8>) -> Seq<u8> {
    name + utf8(".c21("@)
}

/// The end of the outermost function expression.
pub open spec fn close_text() -> Seq<u8> {
    utf8("})();"@)
}

/// Is `b` valid inside a JavaScript identifier?
pub open spec fn ident_byte(b: u8) -> bool {
    ||| 0x61 <= b <= 0x7a  // a..z
    ||| 0x41 <= b <= 0x5a  // A..Z
    ||| 0x30 <= b <= 0x39  // 0..9
    ||| b == 0x5f  // _
    ||| b == 0x24  // $
}

/// Where the identifier that starts at `i` ends.
pub open spec fn ident_end(script: Seq<u8>, i: int) -> int
    decreases script.len() - i,
{
    if 0 <= i < script.len() && ident_byte(script[i]) {
        ident_end(script, i + 1)
    } else {
        i
    }
}

/// Where the search for the helper call starts, for an anchor at `anchor`.
pub open spec fn window_start(anchor: int) -> int {
    if anchor < LOOKBEHIND {
        0
    } else {
        anchor - LOOKBEHIND
    }
}

/// Whether the lookbehind of the script's anchor starts on a character.
pub open spec fn lookbehind_on_boundary(script: Seq<u8>) -> bool {
    text::first_position(script, anchor_text()) matches Some(anchor)
        ==> vstd::utf8::is_char_boundary(script, window_start(anchor))
}

/// Whether a call of the registration helper stands at `k` that registers
/// into a named object: `qa(`, an identifier and `,[`.
pub open spec fn helper_call_at(script: Seq<u8>, k: int) -> bool {
    let end = ident_end(script, k + 3);
    &&& text::occurs_at(script, helper_text(), k)
    &&& k + 3 < end
    &&& end + 2 <= script.len()
    &&& script[end] == 0x2c  // ,
    &&& script[end + 1] == 0x5b  // [
}

/// The identifier that the helper call at `k` registers into.
pub open spec fn helper_name(script: Seq<u8>, k: int) -> Seq<u8> {
    script.subrange(k + 3, ident_end(script, k + 3))
}

/// Whether a helper call stands at `k`, inside the lookbehind of the anchor.
pub open spec fn is_call_before(script: Seq<u8>, anchor: int, k: int) -> bool {
    window_start(anchor) <= k < anchor && helper_call_at(script, k)
}

/// Whether `k` is the helper call nearest to the anchor, inside its
/// lookbehind.
pub open spec fn is_nearest_call(script: Seq<u8>, anchor: int, k: int) -> bool {
    is_call_before(script, anchor, k) && forall|j: int|
        is_call_before(script, anchor, j) ==> j <= k
}

/// The helper call nearest to the anchor, if one stands in its lookbehind.
pub open spec fn nearest_call(script: Seq<u8>, anchor: int) -> Option<int> {
    if exists|k: int| is_call_before(script, anchor, k) {
        Some(choose|k: int| is_nearest_call(script, anchor, k))
    } else {
        None
    }
}

/// The name of the registry, or why there is none.
///
/// The leftmost anchor decides. Behind it, the nearest helper call within the
/// lookbehind that registers into a named object names the registry; the name
/// counts only if the script also calls the discard handler through it.
pub open spec fn registry_name(script: Seq<u8>) -> Outcome {
    match text::first_position(script, anchor_text()) {
        None => Outcome::NoDiscardHandler,
        Some(anchor) => match nearest_call(script, anchor) {
            None => Outcome::NoRegistry,
            Some(k) => {
                let name = helper_name(script, k);
                if text::occurs(script, callback_text(name)) {
                    Outcome::Done(name)
                } else {
                    Outcome::RegistryUnconfirmed(name)
                }
            },
        },
    }
}

/// The statement that publishes the registry `name`.
pub open spec fn export_text(name: Seq<u8>) -> Seq<u8> {
    utf8(";"@) + utf8(REWRITE_MARKER@) + utf8("try{window."@) + utf8(EXPORT_GLOBAL@) + utf8(
        "={R:"@,
    ) + name + utf8("};}catch(e){}\n"@)
}

/// The script with its registry published, or why it cannot be.
pub open spec fn rewritten(script: Seq<u8>) -> Outcome {
    if text::occurs(script, utf8(REWRITE_MARKER@)) {
        Outcome::Done(script)
    } else {
        match registry_name(script) {
            Outcome::Done(name) => match text::last_position(script, close_text()) {
                Some(point) => Outcome::Done(
                    script.take(point) + export_text(name) + script.skip(point),
                ),
                None => Outcome::NoInjectionPoint,
            },
            refused => refused,
        }
    }
}

/// Is `b` valid inside a JavaScript identifier?
pub fn is_ident_byte(b: u8) -> (r: bool)
    ensures
        r == ident_byte(b),
{
    (0x61 <= b && b <= 0x7a) || (0x41 <= b && b <= 0x5a) || (0x30 <= b && b <= 0x39) || b == 0x5f
        || b == 0x24
}

/// A byte below 128 starts a character.
proof fn lemma_ascii_is_boundary(bytes: Seq<u8>, i: int)
    requires
        vstd::utf8::valid_utf8(bytes),
        0 <= i < bytes.len(),
        bytes[i] < 0x80,
    ensures
        vstd::utf8::is_char_boundary(bytes, i),
{
    vstd::utf8::is_char_boundary_iff_not_is_continuation_byte(bytes, i);
}

/// UTF-8 writes a concatenation as the concatenation of the parts.
proof fn lemma_utf8_concat(a: Seq<char>, b: Seq<char>)
    ensures
        utf8(a + b) == utf8(a) + utf8(b),
    decreases a.len(),
{
    if a.len() == 0 {
        assert(a + b =~= b);
        assert(utf8(a) + utf8(b) =~= utf8(b));
    } else {
        lemma_utf8_concat(a.drop_first(), b);
        assert((a + b).drop_first() =~= a.drop_first() + b);
        assert((a + b)[0] == a[0]);
        let head = vstd::utf8::encode_scalar(a[0] as u32);
        assert(head + (utf8(a.drop_first()) + utf8(b)) =~= (head + utf8(a.drop_first())) + utf8(b));
    }
}

/// Where the identifier that starts at `at` ends.
fn identifier_end(bytes: &[u8], at: usize) -> (r: usize)
    requires
        at <= bytes.len(),
    ensures
        r == ident_end(bytes@, at as int),
        at <= r <= bytes.len(),
{
    let mut end: usize = at;
    while end < bytes.len() && is_ident_byte(bytes[end])
        invariant
            at <= end <= bytes.len(),
            ident_end(bytes@, at as int) == ident_end(bytes@, end as int),
        decreases bytes.len() - end,
    {
        end += 1;
    }
    end
}

/// Whether a call of the registration helper stands at `k` that registers
/// into a named object.
fn is_helper_call(bytes: &[u8], k: usize) -> (r: bool)
    requires
        k < bytes.len(),
    ensures
        r == helper_call_at(bytes@, k as int),
{
    proof {
        reveal_strlit("qa(");
        vstd::utf8::is_ascii_chars_encode_utf8("qa("@);
        assert(helper_text() =~= seq![0x71u8, 0x61u8, 0x28u8]);
    }
    if bytes.len() - k < 3 || bytes[k] != 0x71 || bytes[k + 1] != 0x61 || bytes[k + 2] != 0x28 {
        proof {
            if text::occurs_at(bytes@, helper_text(), k as int) {
                let here = bytes@.subrange(k as int, k + 3);
                assert(here[0] == bytes@[k as int] && here[1] == bytes@[k + 1] && here[2]
                    == bytes@[k + 2]);
            }
        }
        return false;
    }
    assert(bytes@.subrange(k as int, k + 3) =~= helper_text());
    let end: usize = identifier_end(bytes, k + 3);
    end > k + 3 && bytes.len() - end >= 2 && bytes[end] == 0x2c && bytes[end + 1] == 0x5b
}

/// The helper call nearest to the anchor, if one stands in its lookbehind.
fn find_call(bytes: &[u8], start: usize, anchor: usize) -> (r: Option<usize>)
    requires
        start == window_start(anchor as int),
        anchor <= bytes.len(),
    ensures
        (match r {
            Some(k) => Some(k as int),
            None => None,
        }) == nearest_call(bytes@, anchor as int),
        r matches Some(k) ==> helper_call_at(bytes@, k as int) && k < anchor,
{
    let mut k: usize = anchor;
    while k > start
        invariant
            start <= k <= anchor <= bytes.len(),
            start == window_start(anchor as int),
            forall|j: int| is_call_before(bytes@, anchor as int, j) ==> j < k,
        decreases k,
    {
        k -= 1;
        if is_helper_call(bytes, k) {
            assert(is_nearest_call(bytes@, anchor as int, k as int));
            return Some(k);
        }
    }
    None
}

/// Whether the lookbehind of the script's anchor starts on a character, so
/// that the registry can be looked for.
pub fn lookbehind_is_whole(src: &str) -> (r: bool)
    ensures
        r == lookbehind_on_boundary(utf8(src@)),
{
    match text::find_bytes(src.as_bytes(), "\"c21\",function(".as_bytes()) {
        Some(anchor) => src.is_char_boundary(
            if anchor < LOOKBEHIND {
                0
            } else {
                anchor - LOOKBEHIND
            },
        ),
        None => true,
    }
}

/// Recover the name of the object the client registers its handlers into.
///
/// Anchored on `"c21"`, a string literal the minifier must preserve because
/// the client looks handlers up by name at runtime (its DOM dispatcher splits
/// an element's `name` attribute and indexes the registry with it). From that
/// anchor, walk back to the nearest `qa(<name>,[` — the registration helper —
/// and then confirm the name by requiring the script to call `<name>.c21(`
/// somewhere, which the discard path does. Without that confirmation a
/// coincidental match could publish an unrelated object.
///
/// The lookbehind is cut from the script as text, so it has to start on a
/// character.
pub fn derive_registry_name(src: &str) -> (r: Result<&str, InjectError>)
    requires
        lookbehind_on_boundary(utf8(src@)),
    ensures
        registry_name(utf8(src@)) == match r {
            Ok(name) => Outcome::Done(utf8(name@)),
            Err(e) => refusal(e),
        },
{
    let bytes = src.as_bytes();
    let anchor: usize = match text::find_bytes(bytes, "\"c21\",function(".as_bytes()) {
        Some(i) => i,
        None => {
            return Err(InjectError::NoDiscardHandler);
        },
    };
    let start: usize = if anchor < LOOKBEHIND {
        0
    } else {
        anchor - LOOKBEHIND
    };
    let call: usize = match find_call(bytes, start, anchor) {
        Some(k) => k + 3,
        None => {
            return Err(InjectError::NoRegistry);
        },
    };
    let end: usize = identifier_end(bytes, call);
    proof {
        lemma_ident_run(bytes@, call as int);
        vstd::utf8::encode_utf8_valid_utf8(src@);
        lemma_ascii_is_boundary(bytes@, call as int);
        vstd::utf8::valid_utf8_split(bytes@, call as int);
        lemma_ascii_is_boundary(bytes@.subrange(call as int, bytes@.len() as int), end - call);
    }
    let name = src.split_at(call).1.split_at(end - call).0;
    assert(utf8(name@) =~= bytes@.subrange(call as int, end as int));
    // The discard path calls the registry back by name; a candidate that is
    // never used that way is not it.
    let mut callback: Vec<u8> = Vec::new();
    callback.extend_from_slice(name.as_bytes());
    callback.extend_from_slice(".c21(".as_bytes());
    assert(callback@ =~= callback_text(utf8(name@)));
    if text::find_bytes(bytes, callback.as_slice()).is_none() {
        return Err(InjectError::RegistryUnconfirmed(name.to_owned()));
    }
    Ok(name)
}

/// Rewrite the client script so its handler registry is reachable.
///
/// The export is appended *inside* the outermost IIFE — immediately before its
/// final `})();` — because that is the only place the registry is still in
/// scope. It is wrapped in `try`/`catch` so a failure here can never stop the
/// client from starting: the worst case is that autoplay finds no door and
/// says so, not a page that will not load.
pub fn rewrite_client(src: &str) -> (r: Result<String, InjectError>)
    requires
        text::occurs(utf8(src@), utf8(REWRITE_MARKER@)) || lookbehind_on_boundary(utf8(src@)),
    ensures
        rewritten(utf8(src@)) == match r {
            Ok(out) => Outcome::Done(utf8(out@)),
            Err(e) => refusal(e),
        },
{
    let bytes = src.as_bytes();
    if text::find_bytes(bytes, REWRITE_MARKER.as_bytes()).is_some() {
        return Ok(src.to_owned());
    }
    let name = match derive_registry_name(src) {
        Ok(name) => name,
        Err(e) => {
            return Err(e);
        },
    };
    let point: usize = match text::rfind_bytes(bytes, "})();".as_bytes()) {
        Some(i) => i,
        None => {
            return Err(InjectError::NoInjectionPoint);
        },
    };
    proof {
        reveal_strlit("})();");
        vstd::utf8::is_ascii_chars_encode_utf8("})();"@);
        assert(bytes@.subrange(point as int, point + close_text().len())[0] == bytes[point as int]);
        vstd::utf8::encode_utf8_valid_utf8(src@);
        lemma_ascii_is_boundary(bytes@, point as int);
    }
    let parts = src.split_at(point);
    let export = export_statement(name);
    let mut out = parts.0.to_owned();
    out.append(export.as_str());
    out.append(parts.1);
    proof {
        lemma_utf8_concat(parts.0@, export@);
        lemma_utf8_concat(parts.0@ + export@, parts.1@);
        assert(utf8(parts.0@) =~= bytes@.take(point as int));
        assert(utf8(parts.1@) =~= bytes@.skip(point as int));
    }
    Ok(out)
}

/// The statement that publishes the registry `name`.
fn export_statement(name: &str) -> (r: String)
    ensures
        utf8(r@) == export_text(utf8(name@)),
{
    let mut out = ";".to_owned();
    out.append(REWRITE_MARKER);
    out.append("try{window.");
    out.append(EXPORT_GLOBAL);
    out.append("={R:");
    out.append(name);
    out.append("};}catch(e){}\n");
    proof {
        let a = ";"@;
        let b = a + REWRITE_MARKER@;
        let c = b + "try{window."@;
        let d = c + EXPORT_GLOBAL@;
        let e = d + "={R:"@;
        let f = e + name@;
        lemma_utf8_concat(a, REWRITE_MARKER@);
        lemma_utf8_concat(b, "try{window."@);
        lemma_utf8_concat(c, EXPORT_GLOBAL@);
        lemma_utf8_concat(d, "={R:"@);
        lemma_utf8_concat(e, name@);
        lemma_utf8_concat(f, "};}catch(e){}\n"@);
    }
    out
}

/// The expression that [`discard_expression`] builds.
pub open spec fn discard_text(tile_index: u32) -> Seq<char> {
    "(()=>{const a=window."@ + EXPORT_GLOBAL@
        + ";if(!a||!a.R||typeof a.R.c21!=='function')return 'no-door';a.R.c21("@ + text::decimal(
        tile_index as nat,
    ) + ");return 'ok';})()"@
}

/// Expression that discards `tile_index` through the client's own handler.
pub fn discard_expression(tile_index: u32) -> (r: String)
    ensures
        r@ == discard_text(tile_index),
{
    let mut out = "(()=>{const a=window.".to_owned();
    out.append(EXPORT_GLOBAL);
    out.append(";if(!a||!a.R||typeof a.R.c21!=='function')return 'no-door';a.R.c21(");
    text::push_decimal(&mut out, tile_index);
    out.append(");return 'ok';})()");
    out
}

/// The message that [`InjectError::message`] gives.
pub open spec fn error_text(e: InjectError) -> Seq<char> {
    match e {
        InjectError::NoDiscardHandler => "no `\"c21\"` handler registration found"@,
        InjectError::NoRegistry => "found the c21 handler but not its registry object"@,
        InjectError::RegistryUnconfirmed(n) => "candidate registry `"@ + n@
            + "` is never called as `"@ + n@ + ".c21(`"@,
        InjectError::NoInjectionPoint => "script does not end in an IIFE call"@,
    }
}

impl InjectError {
    /// The error in words.
    pub fn message(&self) -> (r: String)
        ensures
            r@ == error_text(*self),
    {
        match self {
            InjectError::NoDiscardHandler => "no `\"c21\"` handler registration found".to_owned(),
            InjectError::NoRegistry => "found the c21 handler but not its registry object".to_owned(),
            InjectError::RegistryUnconfirmed(n) => {
                let mut out = "candidate registry `".to_owned();
                out.append(n.as_str());
                out.append("` is never called as `");
                out.append(n.as_str());
                out.append(".c21(`");
                out
            },
            InjectError::NoInjectionPoint => "script does not end in an IIFE call".to_owned(),
        }
    }
}

/// Every byte from `i` to the end of the identifier there belongs to it.
proof fn lemma_ident_run(script: Seq<u8>, i: int)
    ensures
        i <= ident_end(script, i),
        0 <= i ==> forall|k: int| i <= k < ident_end(script, i) ==> ident_byte(script[k]),
    decreases script.len() - i,
{
    if 0 <= i < script.len() && ident_byte(script[i]) {
        lemma_ident_run(script, i + 1);
    }
}

/// The rewritten script is the script with the export inserted at one place,
/// and that place is right before the last `})();`.
pub proof fn law_export_lands_before_the_final_close(script: Seq<u8>)
    ensures
        !text::occurs(script, utf8(REWRITE_MARKER@)) ==> (rewritten(script) matches Outcome::Done(out)
            ==> exists|name: Seq<u8>, point: int|
            {
                &&& registry_name(script) == Outcome::Done(name)
                &&& text::is_last(script, close_text(), point)
                &&& #[trigger] (script.take(point) + export_text(name)) + script.skip(point) == out
                &&& text::last_position(out, close_text()) == Some(
                    (point + export_text(name).len()) as int,
                )
            }),
{
    if !text::occurs(script, utf8(REWRITE_MARKER@)) && rewritten(script) is Done {
        let close = close_text();
        let name = registry_name(script)->Done_0;
        let some = choose|i: int| text::occurs_at(script, close, i);
        text::lemma_last_exists(script, close, some);
        let point = text::last_position(script, close)->0;
        let export = export_text(name);
        let out = script.take(point) + export + script.skip(point);
        let moved = point + export.len();
        assert(out.subrange(moved, moved + close.len()) =~= script.subrange(
            point,
            point + close.len(),
        ));
        assert forall|j: int| text::occurs_at(out, close, j) implies j <= moved by {
            if j > moved {
                assert(script.subrange(j - export.len(), j - export.len() + close.len())
                    =~= out.subrange(j, j + close.len()));
                assert(text::occurs_at(script, close, j - export.len()));
            }
        }
        assert(text::is_last(out, close, moved));
    }
}

/// Rewriting twice changes nothing.
pub proof fn law_rewriting_twice_changes_nothing(script: Seq<u8>)
    ensures
        rewritten(script) matches Outcome::Done(out) ==> rewritten(out) == Outcome::Done(out),
{
    let marker = utf8(REWRITE_MARKER@);
    if !text::occurs(script, marker) && rewritten(script) is Done {
        let close = close_text();
        let name = registry_name(script)->Done_0;
        let some = choose|i: int| text::occurs_at(script, close, i);
        text::lemma_last_exists(script, close, some);
        let point = text::last_position(script, close)->0;
        let out = rewritten(script)->Done_0;
        let at = point + utf8(";"@).len();
        assert(out.subrange(at, at + marker.len()) =~= marker);
        assert(text::occurs_at(out, marker, at));
    }
}

/// Where a helper call stands in the lookbehind at all, one is nearest.
proof fn lemma_nearest_exists(script: Seq<u8>, anchor: int, k: int)
    requires
        is_call_before(script, anchor, k),
    ensures
        nearest_call(script, anchor) is Some,
        is_nearest_call(script, anchor, nearest_call(script, anchor)->0),
    decreases anchor - k,
{
    if exists|j: int| is_call_before(script, anchor, j) && k < j {
        let j = choose|j: int| is_call_before(script, anchor, j) && k < j;
        lemma_nearest_exists(script, anchor, j);
    } else {
        assert(is_nearest_call(script, anchor, k));
    }
}

/// The registry is the object that the helper call nearest to the handler
/// registers into: no other call that names an object lies between them. It is
/// missing exactly where the handler is there and no such call is in its
/// lookbehind; calls that name nothing are passed over.
pub proof fn law_nearest_named_call_decides(script: Seq<u8>, k: int)
    ensures
        text::first_position(script, anchor_text()) matches Some(anchor) ==> {
            &&& registry_name(script) == Outcome::NoRegistry <==> forall|j: int|
                !is_call_before(script, anchor, j)
            &&& is_nearest_call(script, anchor, k) ==> registry_name(script) == if text::occurs(
                script,
                callback_text(helper_name(script, k)),
            ) {
                Outcome::Done(helper_name(script, k))
            } else {
                Outcome::RegistryUnconfirmed(helper_name(script, k))
            }
        },
{
    if let Some(anchor) = text::first_position(script, anchor_text()) {
        if exists|j: int| is_call_before(script, anchor, j) {
            let j = choose|j: int| is_call_before(script, anchor, j);
            lemma_nearest_exists(script, anchor, j);
        }
        if is_nearest_call(script, anchor, k) {
            lemma_nearest_exists(script, anchor, k);
            let nearest = nearest_call(script, anchor)->0;
            assert(nearest <= k && k <= nearest);
        }
    }
}

/// A name is published only if it is a whole JavaScript identifier that the
/// script hands to its registration helper and calls its discard handler
/// through.
pub proof fn law_published_name_is_called_back(script: Seq<u8>)
    ensures
        registry_name(script) matches Outcome::Done(name) ==> {
            &&& name.len() > 0
            &&& forall|k: int| 0 <= k < name.len() ==> ident_byte(#[trigger] name[k])
            &&& text::occurs(script, helper_text() + name + utf8(",["@))
            &&& text::occurs(script, callback_text(name))
        },
{
    if let Outcome::Done(name) = registry_name(script) {
        let anchor = text::first_position(script, anchor_text())->0;
        let some = choose|k: int| is_call_before(script, anchor, k);
        lemma_nearest_exists(script, anchor, some);
        let at = nearest_call(script, anchor)->0;
        reveal_strlit("qa(");
        vstd::utf8::is_ascii_chars_encode_utf8("qa("@);
        reveal_strlit(",[");
        vstd::utf8::is_ascii_chars_encode_utf8(",["@);
        lemma_ident_run(script, at + 3);
        let whole = helper_text() + name + utf8(",["@);
        assert(script.subrange(at, at + whole.len()) =~= whole) by {
            assert(script.subrange(at, at + 3) =~= helper_text());
            assert(forall|i: int| 0 <= i < 3 ==> #[trigger] helper_text()[i] == script[at + i]) by {
                assert(forall|i: int|
                    0 <= i < 3 ==> #[trigger] script.subrange(at, at + 3)[i] == script[at + i]);
            }
        }
        assert(text::occurs_at(script, whole, at));
    }
}

/// A script without the client's discard registration is refused, unless it
/// was rewritten before.
pub proof fn law_foreign_script_is_refused(script: Seq<u8>)
    ensures
        !text::occurs(script, anchor_text()) && !text::occurs(script, utf8(REWRITE_MARKER@))
            ==> rewritten(script) == Outcome::NoDiscardHandler,
{
}

/// Whether a byte may stand in a JavaScript identifier: an ASCII letter or
/// digit, `_` or `$`.
pub open spec fn is_name_byte(b: u8) -> bool {
    ||| 'a' as int <= b <= 'z' as int
    ||| 'A' as int <= b <= 'Z' as int
    ||| '0' as int <= b <= '9' as int
    ||| b == '_' as int
    ||| b == '$' as int
}

/// Whether the script registers handlers into the object `name` at `k`: the
/// text `qa(`, the name, which is a whole identifier, and `,[`.
pub open spec fn registers_into(script: Seq<u8>, k: int, name: Seq<u8>) -> bool {
    let call = utf8("qa("@) + name + utf8(",["@);
    &&& name.len() > 0
    &&& forall|i: int| 0 <= i < name.len() ==> is_name_byte(#[trigger] name[i])
    &&& 0 <= k && k + call.len() <= script.len()
    &&& script.subrange(k, k + call.len()) == call
}

/// Whether `at` is where the script first registers a handler under `"c21"`.
pub open spec fn registers_discard_at(script: Seq<u8>, at: int) -> bool {
    let literal = utf8("\"c21\",function("@);
    &&& 0 <= at && at + literal.len() <= script.len()
    &&& script.subrange(at, at + literal.len()) == literal
    &&& forall|j: int|
        0 <= j < at ==> #[trigger] script.subrange(j, j + literal.len()) != literal
}

/// The two literals, byte by byte.
proof fn lemma_call_literals()
    ensures
        utf8("qa("@) == seq![0x71u8, 0x61u8, 0x28u8],
        utf8(",["@) == seq![0x2cu8, 0x5bu8],
{
    reveal_strlit("qa(");
    vstd::utf8::is_ascii_chars_encode_utf8("qa("@);
    reveal_strlit(",[");
    vstd::utf8::is_ascii_chars_encode_utf8(",["@);
    assert(utf8("qa("@) =~= seq![0x71u8, 0x61u8, 0x28u8]);
    assert(utf8(",["@) =~= seq![0x2cu8, 0x5bu8]);
}

/// An identifier ends where a byte comes that does not belong to it.
proof fn lemma_ident_ends(script: Seq<u8>, i: int, end: int)
    requires
        0 <= i <= end < script.len(),
        forall|k: int| i <= k < end ==> ident_byte(#[trigger] script[k]),
        !ident_byte(script[end]),
    ensures
        ident_end(script, i) == end,
    decreases end - i,
{
    if i < end {
        lemma_ident_ends(script, i + 1, end);
    }
}

/// A call that registers into a name, and the name.
proof fn lemma_call_has_a_name(script: Seq<u8>, k: int, name: Seq<u8>)
    requires
        0 <= k,
    ensures
        registers_into(script, k, name) ==> helper_call_at(script, k) && helper_name(script, k)
            == name,
        helper_call_at(script, k) ==> registers_into(script, k, helper_name(script, k)),
{
    lemma_call_literals();
    if registers_into(script, k, name) {
        let call = utf8("qa("@) + name + utf8(",["@);
        let here = script.subrange(k, k + call.len());
        assert(forall|i: int| 0 <= i < call.len() ==> #[trigger] here[i] == script[k + i]);
        let end = k + 3 + name.len();
        assert forall|i: int| k + 3 <= i < end implies ident_byte(#[trigger] script[i]) by {
            assert(script[i] == here[i - k]);
            assert(call[i - k] == name[i - k - 3]);
        }
        assert(here[3 + name.len() as int] == 0x2c && here[4 + name.len() as int] == 0x5b);
        lemma_ident_ends(script, k + 3, end);
        assert(script.subrange(k, k + 3) =~= helper_text()) by {
            assert(here[0] == 0x71 && here[1] == 0x61 && here[2] == 0x28);
        }
        assert(helper_name(script, k) =~= name) by {
            assert forall|i: int| 0 <= i < name.len() implies #[trigger] name[i] == script[k + 3
                + i] by {
                assert(call[3 + i] == name[i]);
                assert(here[3 + i] == script[k + 3 + i]);
            }
        }
    }
    if helper_call_at(script, k) {
        let found = helper_name(script, k);
        lemma_ident_run(script, k + 3);
        let call = utf8("qa("@) + found + utf8(",["@);
        let prefix = script.subrange(k, k + 3);
        assert(prefix[0] == script[k] && prefix[1] == script[k + 1] && prefix[2] == script[k + 2]);
        assert(script.subrange(k, k + call.len()) =~= call);
        assert forall|i: int| 0 <= i < found.len() implies is_name_byte(#[trigger] found[i]) by {
            assert(found[i] == script[k + 3 + i]);
        }
    }
}

/// How the registry is found. Where the script first registers a handler
/// under `"c21"`, the nearest registration into a named object that starts in
/// the 4096 bytes before it gives the name, however long ago others came; the
/// name is confirmed exactly where the script also holds the name followed by
/// `.c21(`.
pub proof fn law_registry_is_named_by_the_nearest_registration(
    script: Seq<u8>,
    at: int,
    k: int,
    name: Seq<u8>,
)
    requires
        registers_discard_at(script, at),
        k < at,
        at - k <= 4096,
        registers_into(script, k, name),
        forall|j: int, other: Seq<u8>|
            k < j < at ==> !(#[trigger] registers_into(script, j, other)),
    ensures
        (exists|i: int|
            0 <= i && i + name.len() + utf8(".c21("@).len() <= script.len()
                && #[trigger] script.subrange(i, i + name.len() + utf8(".c21("@).len()) == name
                + utf8(".c21("@)) ==> registry_name(script) == Outcome::Done(name),
        !(exists|i: int|
            0 <= i && i + name.len() + utf8(".c21("@).len() <= script.len()
                && #[trigger] script.subrange(i, i + name.len() + utf8(".c21("@).len()) == name
                + utf8(".c21("@)) ==> registry_name(script) == Outcome::RegistryUnconfirmed(name),
{
    lemma_discard_registration(script, at);
    lemma_call_has_a_name(script, k, name);
    assert(is_call_before(script, at, k));
    assert forall|j: int| is_call_before(script, at, j) implies j <= k by {
        if j > k {
            lemma_call_has_a_name(script, j, name);
            assert(registers_into(script, j, helper_name(script, j)));
        }
    }
    assert(is_nearest_call(script, at, k));
    law_nearest_named_call_decides(script, k);
    let wanted = name + utf8(".c21("@);
    if text::occurs(script, callback_text(name)) {
        let i = choose|i: int| text::occurs_at(script, callback_text(name), i);
        assert(script.subrange(i, i + name.len() + utf8(".c21("@).len()) == wanted);
    }
    if exists|i: int|
        0 <= i && i + name.len() + utf8(".c21("@).len() <= script.len() && #[trigger] script.subrange(
            i,
            i + name.len() + utf8(".c21("@).len(),
        ) == wanted {
        let i = choose|i: int|
            0 <= i && i + name.len() + utf8(".c21("@).len() <= script.len()
                && #[trigger] script.subrange(i, i + name.len() + utf8(".c21("@).len()) == wanted;
        assert(text::occurs_at(script, callback_text(name), i));
    }
}

/// The first registration of the discard handler is where the search stops.
proof fn lemma_discard_registration(script: Seq<u8>, at: int)
    requires
        registers_discard_at(script, at),
    ensures
        text::first_position(script, anchor_text()) == Some(at),
{
    assert(text::occurs_at(script, anchor_text(), at));
    assert forall|j: int| text::occurs_at(script, anchor_text(), j) implies at <= j by {
        if j < at {
            assert(script.subrange(j, j + utf8("\"c21\",function("@).len()) == utf8(
                "\"c21\",function("@,
            ));
        }
    }
    assert(text::is_first(script, anchor_text(), at));
}

/// When there is no registry: where the script registers a discard handler
/// and nothing in the 4096 bytes before it registers into a named object. A
/// script that registers no discard handler has none to look for.
pub proof fn law_no_registration_no_registry(script: Seq<u8>, at: int)
    ensures
        registers_discard_at(script, at) ==> (registry_name(script) == Outcome::NoRegistry <==> forall|
            k: int,
            name: Seq<u8>,
        |
            0 <= k < at && at - k <= 4096 ==> !(#[trigger] registers_into(script, k, name))),
        registry_name(script) == Outcome::NoDiscardHandler <==> forall|j: int|
            !(#[trigger] registers_discard_at(script, j)),
        !(registry_name(script) is NoInjectionPoint),
{
    if registers_discard_at(script, at) {
        lemma_discard_registration(script, at);
        law_nearest_named_call_decides(script, 0);
        if registry_name(script) == Outcome::NoRegistry {
            assert forall|k: int, name: Seq<u8>| 0 <= k < at && at - k <= 4096 implies !(
            #[trigger] registers_into(script, k, name)) by {
                lemma_call_has_a_name(script, k, name);
                assert(!is_call_before(script, at, k));
            }
        } else {
            let k = choose|k: int| is_call_before(script, at, k);
            lemma_call_has_a_name(script, k, Seq::empty());
            assert(registers_into(script, k, helper_name(script, k)));
        }
    }
    if text::occurs(script, anchor_text()) {
        let some = choose|i: int| text::occurs_at(script, anchor_text(), i);
        text::lemma_first_exists(script, anchor_text(), some);
        let first = text::first_position(script, anchor_text())->0;
        let literal = utf8("\"c21\",function("@);
        assert forall|j: int| 0 <= j < first implies #[trigger] script.subrange(
            j,
            j + literal.len(),
        ) != literal by {
            if script.subrange(j, j + literal.len()) == literal {
                assert(text::occurs_at(script, anchor_text(), j));
            }
        }
        assert(registers_discard_at(script, first));
    } else {
        assert forall|j: int| !(#[trigger] registers_discard_at(script, j)) by {
            if registers_discard_at(script, j) {
                lemma_discard_registration(script, j);
            }
        }
    }
}

/// Whether `point` is the last place of `})();` in a script.
pub open spec fn closes_last_at(script: Seq<u8>, point: int) -> bool {
    let literal = utf8("})();"@);
    &&& 0 <= point && point + literal.len() <= script.len()
    &&& script.subrange(point, point + literal.len()) == literal
    &&& forall|j: int|
        point < j && j + literal.len() <= script.len() ==> #[trigger] script.subrange(
            j,
            j + literal.len(),
        ) != literal
}

/// What the rewrite inserts, and where. A script that was not rewritten before
/// and whose registry is `name` gets the assignment of that very name to
/// `window.__akagiTenhou`, guarded, right before its last `})();`, and keeps
/// every other byte. Without such a close it is refused.
pub proof fn law_the_derived_name_is_published(script: Seq<u8>, name: Seq<u8>, point: int)
    requires
        !text::occurs(script, utf8("/*akagi-injected*/"@)),
        registry_name(script) == Outcome::Done(name),
    ensures
        closes_last_at(script, point) ==> {
            let inserted = utf8(";/*akagi-injected*/try{window.__akagiTenhou={R:"@) + name + utf8(
                "};}catch(e){}\n"@,
            );
            &&& rewritten(script) matches Outcome::Done(out) && {
                &&& out.take(point) == script.take(point)
                &&& out.subrange(point, point + inserted.len()) == inserted
                &&& out.skip(point + inserted.len()) == script.skip(point)
                &&& text::occurs(out, utf8("window.__akagiTenhou={R:"@) + name + utf8("}"@))
            }
        },
        (forall|j: int| !(#[trigger] closes_last_at(script, j))) ==> rewritten(script)
            == Outcome::NoInjectionPoint,
{
    assert(REWRITE_MARKER@ == "/*akagi-injected*/"@);
    lemma_export_literal(name);
    let close = close_text();
    let inserted = utf8(";/*akagi-injected*/try{window.__akagiTenhou={R:"@) + name + utf8(
        "};}catch(e){}\n"@,
    );
    if closes_last_at(script, point) {
        assert(text::occurs_at(script, close, point));
        assert forall|j: int| text::occurs_at(script, close, j) implies j <= point by {
            if j > point {
                assert(script.subrange(j, j + utf8("})();"@).len()) == utf8("})();"@));
            }
        }
        assert(text::is_last(script, close, point));
        let out = script.take(point) + export_text(name) + script.skip(point);
        assert(out.take(point) =~= script.take(point));
        assert(out.subrange(point, point + inserted.len()) =~= inserted);
        assert(out.skip(point + inserted.len()) =~= script.skip(point));
        let part = utf8("window.__akagiTenhou={R:"@) + name + utf8("}"@);
        let lead = utf8(";/*akagi-injected*/try{"@).len();
        let at = point + lead;
        assert(inserted.subrange(lead as int, (lead + part.len()) as int) =~= part);
        assert(out.subrange(at, at + part.len()) =~= inserted.subrange(
            lead as int,
            (lead + part.len()) as int,
        ));
        assert(text::occurs_at(out, part, at));
    }
    if text::occurs(script, close) {
        let some = choose|i: int| text::occurs_at(script, close, i);
        text::lemma_last_exists(script, close, some);
        let last = text::last_position(script, close)->0;
        let literal = utf8("})();"@);
        assert forall|j: int| last < j && j + literal.len() <= script.len() implies #[trigger] script.subrange(
            j,
            j + literal.len(),
        ) != literal by {
            if script.subrange(j, j + literal.len()) == literal {
                assert(text::occurs_at(script, close, j));
            }
        }
        assert(closes_last_at(script, last));
    }
}

/// The statement that publishes a name, as three literals around it.
proof fn lemma_export_literal(name: Seq<u8>)
    ensures
        export_text(name) == utf8(";/*akagi-injected*/try{window.__akagiTenhou={R:"@) + name + utf8(
            "};}catch(e){}\n"@,
        ),
        utf8(";/*akagi-injected*/try{window.__akagiTenhou={R:"@) == utf8(
            ";/*akagi-injected*/try{"@,
        ) + utf8("window.__akagiTenhou={R:"@),
        utf8("};}catch(e){}\n"@).len() > 0,
        utf8("};}catch(e){}\n"@).take(1) == utf8("}"@),
{
    let whole = ";/*akagi-injected*/try{window.__akagiTenhou={R:"@;
    reveal_strlit(";/*akagi-injected*/try{window.__akagiTenhou={R:");
    reveal_strlit(";/*akagi-injected*/try{");
    reveal_strlit("window.__akagiTenhou={R:");
    reveal_strlit(";");
    reveal_strlit("/*akagi-injected*/");
    reveal_strlit("try{window.");
    reveal_strlit("__akagiTenhou");
    reveal_strlit("={R:");
    reveal_strlit("};}catch(e){}\n");
    reveal_strlit("}");
    reveal_strlit(";}catch(e){}\n");
    assert(REWRITE_MARKER@ == "/*akagi-injected*/"@);
    assert(EXPORT_GLOBAL@ == "__akagiTenhou"@);
    let a = ";"@ + "/*akagi-injected*/"@;
    let b = a + "try{window."@;
    let c = b + "__akagiTenhou"@;
    lemma_utf8_concat(";"@, "/*akagi-injected*/"@);
    lemma_utf8_concat(a, "try{window."@);
    lemma_utf8_concat(b, "__akagiTenhou"@);
    lemma_utf8_concat(c, "={R:"@);
    assert(c + "={R:"@ =~= whole);
    lemma_utf8_concat(";/*akagi-injected*/try{"@, "window.__akagiTenhou={R:"@);
    assert(";/*akagi-injected*/try{"@ + "window.__akagiTenhou={R:"@ =~= whole);
    lemma_utf8_concat("}"@, ";}catch(e){}\n"@);
    assert("}"@ + ";}catch(e){}\n"@ =~= "};}catch(e){}\n"@);
    vstd::utf8::is_ascii_chars_encode_utf8("}"@);
    assert(utf8("};}catch(e){}\n"@).take(1) =~= utf8("}"@));
    assert(export_text(name) =~= utf8(whole) + name + utf8("};}catch(e){}\n"@));
}

/// Scripts with different registries get different exports.
pub proof fn law_exports_tell_registries_apart(name: Seq<u8>, other: Seq<u8>)
    ensures
        export_text(name) == export_text(other) <==> name == other,
{
    lemma_export_literal(name);
    lemma_export_literal(other);
    let lead = utf8(";/*akagi-injected*/try{window.__akagiTenhou={R:"@);
    let tail = utf8("};}catch(e){}\n"@);
    if export_text(name) == export_text(other) {
        let n = export_text(name).len() - tail.len();
        assert(export_text(name).subrange(lead.len() as int, n) =~= name);
        assert(export_text(other).subrange(lead.len() as int, n) =~= other);
    }
}

/// A script that was rewritten before comes back as it is; one that was not
/// is refused for the same reason as its registry.
pub proof fn law_a_rewrite_is_refused_with_its_registry(script: Seq<u8>)
    ensures
        text::occurs(script, utf8("/*akagi-injected*/"@)) ==> rewritten(script) == Outcome::Done(
            script,
        ),
        !text::occurs(script, utf8("/*akagi-injected*/"@)) && !(registry_name(script) is Done)
            ==> rewritten(script) == registry_name(script),
{
    assert(REWRITE_MARKER@ == "/*akagi-injected*/"@);
}

/// When the lookbehind starts on a character: where the place 4096 bytes
/// before the discard registration, or the start of the script, is one.
pub proof fn law_lookbehind_starts_on_a_character(script: Seq<u8>, at: int)
    requires
        registers_discard_at(script, at),
    ensures
        lookbehind_on_boundary(script) <==> vstd::utf8::is_char_boundary(
            script,
            if at < 4096 {
                0
            } else {
                at - 4096
            },
        ),
{
    lemma_discard_registration(script, at);
}

/// The discard expression, letter by letter around the index of the tile: it
/// answers `no-door` where the registry or its handler is missing, else hands
/// the handler that index. Different tiles have different expressions.
pub proof fn law_discard_expression_hands_over_the_index(tile_index: u32, other: u32)
    ensures
        discard_text(tile_index)
            == "(()=>{const a=window.__akagiTenhou;if(!a||!a.R||typeof a.R.c21!=='function')return 'no-door';a.R.c21("@
            + text::decimal(tile_index as nat) + ");return 'ok';})()"@,
        discard_text(tile_index) == discard_text(other) <==> tile_index == other,
{
    let lead =
        "(()=>{const a=window.__akagiTenhou;if(!a||!a.R||typeof a.R.c21!=='function')return 'no-door';a.R.c21("@;
    let tail = ");return 'ok';})()"@;
    reveal_strlit(
        "(()=>{const a=window.__akagiTenhou;if(!a||!a.R||typeof a.R.c21!=='function')return 'no-door';a.R.c21(",
    );
    reveal_strlit("(()=>{const a=window.");
    reveal_strlit("__akagiTenhou");
    reveal_strlit(";if(!a||!a.R||typeof a.R.c21!=='function')return 'no-door';a.R.c21(");
    assert(EXPORT_GLOBAL@ == "__akagiTenhou"@);
    assert("(()=>{const a=window."@ + "__akagiTenhou"@
        + ";if(!a||!a.R||typeof a.R.c21!=='function')return 'no-door';a.R.c21("@ =~= lead);
    assert(discard_text(tile_index) =~= lead + text::decimal(tile_index as nat) + tail);
    assert(discard_text(other) =~= lead + text::decimal(other as nat) + tail);
    text::law_decimal_reads_back(tile_index as nat);
    text::law_decimal_reads_back(other as nat);
    if discard_text(tile_index) == discard_text(other) {
        let n = discard_text(tile_index).len() - tail.len();
        assert(discard_text(tile_index).subrange(lead.len() as int, n) =~= text::decimal(
            tile_index as nat,
        ));
        assert(discard_text(other).subrange(lead.len() as int, n) =~= text::decimal(other as nat));
    }
}

/// What an error says, and that an unconfirmed candidate is named in it twice,
/// the second time with the call that is missing.
pub proof fn law_errors_in_words(e: InjectError)
    ensures
        match e {
            InjectError::NoDiscardHandler => error_text(e)
                == "no `\"c21\"` handler registration found"@,
            InjectError::NoRegistry => error_text(e)
                == "found the c21 handler but not its registry object"@,
            InjectError::RegistryUnconfirmed(name) => {
                let said = error_text(e);
                let n = name@.len() as int;
                &&& said.len() == 48 + 2 * n
                &&& said.take(20) == "candidate registry `"@
                &&& said.subrange(20, 20 + n) == name@
                &&& said.subrange(20 + n, 42 + n) == "` is never called as `"@
                &&& said.subrange(42 + n, 42 + 2 * n) == name@
                &&& said.skip(42 + 2 * n) == ".c21(`"@
            },
            InjectError::NoInjectionPoint => error_text(e)
                == "script does not end in an IIFE call"@,
        },
{
    reveal_strlit("candidate registry `");
    reveal_strlit("` is never called as `");
    reveal_strlit(".c21(`");
    if let InjectError::RegistryUnconfirmed(name) = e {
        let said = error_text(e);
        let n = name@.len() as int;
        assert(said.take(20) =~= "candidate registry `"@);
        assert(said.subrange(20, 20 + n) =~= name@);
        assert(said.subrange(20 + n, 42 + n) =~= "` is never called as `"@);
        assert(said.subrange(42 + n, 42 + 2 * n) =~= name@);
        assert(said.skip(42 + 2 * n) =~= ".c21(`"@);
    }
}

} // verus!
