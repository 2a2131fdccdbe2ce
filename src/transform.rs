//! The rewrite behind the `#[nounwind]` attribute: a function keeps its
//! signature, and its body runs inside [`crate::abort_unwind`].
//!
//! Items travel as Rust source text. `syn` parses them; the rewrite itself
//! is plain text work, verified here.
use vstd::prelude::*;
use vstd::string::StringExecFns;

use quote::ToTokens;

verus! {

/// How the attribute can be refused, with the parser's message.
pub enum NounwindError {
    /// The attribute was given arguments; it takes none.
    UnexpectedArguments(String),
    /// The item under the attribute is not a function.
    NotAFunction(String),
}

/// Relies on `syn::parse_str` with `syn::parse::Nothing`, which consumes
/// no token, so that any argument is left over and refused. An empty text
/// lexes to no token at all and is accepted.
#[verifier::external_body]
fn check_no_arguments(attr: &str) -> (r: Result<(), String>)
    ensures
        attr@.len() == 0 ==> r is Ok,
{
    match syn::parse_str::<syn::parse::Nothing>(attr) {
        Ok(_) => Ok(()),
        Err(e) => Err(e.to_string()),
    }
}

/// Relies on `syn::parse_str::<syn::ItemFn>`, and on the `ToTokens`
/// printing of the attributes (each marked inner or outer), the visibility
/// with the signature, and the block it finds; else on the parser's message.
/// The printed spacing depends on the lexer that `proc-macro2` picks for the
/// process, so nothing is promised of the text.
#[verifier::external_body]
fn parse_fn_item(item: &str) -> (r: Result<(Vec<(bool, String)>, String, String), String>) {
    let f = match syn::parse_str::<syn::ItemFn>(item) {
        Ok(f) => f,
        Err(e) => return Err(e.to_string()),
    };
    let attrs = f.attrs.iter().map(
        |a| (matches!(a.style, syn::AttrStyle::Inner(_)), a.to_token_stream().to_string()),
    ).collect();
    let mut signature = f.vis.to_token_stream();
    f.sig.to_tokens(&mut signature);
    Ok((attrs, signature.to_string(), f.block.to_token_stream().to_string()))
}

/// The text of the attributes in `attrs` that are inner ones (`inner`) or
/// outer ones (`!inner`), in order, each followed by a space.
pub open spec fn attrs_text(attrs: Seq<(bool, Seq<char>)>, inner: bool) -> Seq<char>
    decreases attrs.len(),
{
    if attrs.len() == 0 {
        Seq::empty()
    } else {
        let rest = attrs_text(attrs.drop_last(), inner);
        if attrs.last().0 == inner {
            rest + attrs.last().1 + " "@
        } else {
            rest
        }
    }
}

/// The function that `#[nounwind]` makes of a function with these
/// attributes, signature and body: the outer attributes and the signature
/// as they were, then a body that keeps the inner attributes and hands the
/// old body, as a closure, to `abort_unwind`.
pub open spec fn guarded_fn(attrs: Seq<(bool, Seq<char>)>, signature: Seq<char>, block: Seq<char>) -> Seq<char> {
    attrs_text(attrs, false) + signature + " { "@ + attrs_text(attrs, true)
        + guard_opening() + block + " }) }"@
}

/// The text that `#[nounwind]` puts in front of the old body.
pub open spec fn guard_opening() -> Seq<char> {
    "nounwind::abort_unwind(#[inline(always)] move || { "@
}

/// Writes the function that `#[nounwind]` makes of a parsed function.
pub fn do_nounwind(attrs: &Vec<(bool, String)>, signature: &str, block: &str) -> (r: String)
    ensures
        r@ == guarded_fn(attrs.deep_view(), signature@, block@),
{
    let ghost all = attrs.deep_view();
    let mut outer = String::new();
    let mut inner = String::new();
    let mut i: usize = 0;
    while i < attrs.len()
        invariant
            all == attrs.deep_view(),
            i <= attrs.len(),
            outer@ == attrs_text(all.take(i as int), false),
            inner@ == attrs_text(all.take(i as int), true),
        decreases attrs.len() - i,
    {
        let (is_inner, text) = &attrs[i];
        assert(all.take(i + 1).drop_last() =~= all.take(i as int));
        assert(all.take(i + 1).last() == all[i as int]);
        if *is_inner {
            inner.append(text.as_str());
            inner.append(" ");
        } else {
            outer.append(text.as_str());
            outer.append(" ");
        }
        i = i + 1;
    }
    assert(all.take(attrs.len() as int) =~= all);
    let mut out = outer;
    out.append(signature);
    out.append(" { ");
    out.append(inner.as_str());
    out.append("nounwind::abort_unwind(#[inline(always)] move || { ");
    assert(out@ == attrs_text(all, false) + signature@ + " { "@ + attrs_text(all, true) + guard_opening());
    out.append(block);
    out.append(" }) }");
    out
}

/// Rewrites a parsed function, or reports why it could not be parsed.
///
/// `parsed` holds the function's attributes (each marked inner or outer),
/// its visibility and signature, and its body block, as text; or the
/// parser's message.
pub fn rewrite_parsed(parsed: Result<(Vec<(bool, String)>, String, String), String>) -> (r: Result<
    String,
    NounwindError,
>)
    ensures
        match parsed {
            Ok((attrs, signature, block)) => r matches Ok(out) && out@ == guarded_fn(
                attrs.deep_view(),
                signature@,
                block@,
            ),
            Err(m) => r matches Err(NounwindError::NotAFunction(e)) && e@ == m@,
        },
{
    match parsed {
        Ok((attrs, signature, block)) => Ok(do_nounwind(&attrs, signature.as_str(), block.as_str())),
        Err(m) => Err(NounwindError::NotAFunction(m)),
    }
}

/// Applies `#[nounwind]`, with the arguments `attr`, to the function
/// `item`, both given as source text.
///
/// The attribute takes no arguments: an empty `attr` is never refused. On
/// success the result is a function whose body runs inside `abort_unwind`;
/// see [`rewrite_parsed`] for the text made of each parse.
pub fn nounwind(attr: &str, item: &str) -> (r: Result<String, NounwindError>)
    ensures
        r matches Ok(out) ==> exists|attrs: Seq<(bool, Seq<char>)>, signature: Seq<char>, block: Seq<char>|
            out@ == #[trigger] guarded_fn(attrs, signature, block),
        r matches Err(NounwindError::UnexpectedArguments(_)) ==> attr@.len() > 0,
{
    match check_no_arguments(attr) {
        Ok(()) => {},
        Err(m) => return Err(NounwindError::UnexpectedArguments(m)),
    }
    let parsed = parse_fn_item(item);
    let ghost parts = parsed;
    let r = rewrite_parsed(parsed);
    proof {
        if r is Ok {
            let (attrs, signature, block) = parts->Ok_0;
            assert(r->Ok_0@ == guarded_fn(attrs.deep_view(), signature@, block@));
        }
    }
    r
}

/// `#[nounwind]` rewrites the body alone: the text it makes of a function
/// starts with the outer attributes and the signature as they were, and
/// holds the old body whole inside the closure that `abort_unwind` runs.
pub proof fn lemma_guarded_fn_keeps_signature_and_body(
    attrs: Seq<(bool, Seq<char>)>,
    signature: Seq<char>,
    block: Seq<char>,
)
    ensures
        ({
            let out = guarded_fn(attrs, signature, block);
            let head = attrs_text(attrs, false) + signature;
            let start = (head.len() + 3 + attrs_text(attrs, true).len() + guard_opening().len()) as int;
            &&& out.subrange(0, head.len() as int) == head
            &&& out.subrange(start, start + block.len()) == block
        }),
{
    let out = guarded_fn(attrs, signature, block);
    let head = attrs_text(attrs, false) + signature;
    reveal_strlit(" { ");
    let body = " { "@ + attrs_text(attrs, true) + guard_opening();
    assert(out == head + body + block + " }) }"@);
    assert(out.subrange(0, head.len() as int) =~= head);
    let start = (head.len() + body.len()) as int;
    assert(out.subrange(start, start + block.len()) =~= block);
}

} // verus!
