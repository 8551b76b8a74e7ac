//! The transform rule: in the value of an anchor's `href`, every `http:` becomes `https:`.
//! An anchor without `href`, or with an empty one, is no link and is left alone.
//!
//! The substitution is literal. It does not parse the value as a URI: an `http:` in the
//! middle of a path or of a query is replaced like one at the start.

use crate::engine::attribute_text;
use crate::engine::element_attributes;
use crate::engine::element_get_attribute;
use crate::engine::element_set_attribute;
use crate::engine::is_attribute_name;
use crate::engine::ElementHandle;
use vstd::prelude::*;
use vstd::string::StringExecFns;
use vstd::utf8::encode_utf8;

verus! {

/// The text that the rule looks for: `http:`.
pub open spec fn insecure_scheme() -> Seq<char> {
    seq!['h', 't', 't', 'p', ':']
}

/// The text that takes its place: `https:`.
pub open spec fn secure_scheme() -> Seq<char> {
    seq!['h', 't', 't', 'p', 's', ':']
}

/// Whether `http:` stands in `value` at position `at`.
pub open spec fn scheme_at(value: Seq<char>, at: int) -> bool {
    &&& 0 <= at
    &&& at + 5 <= value.len()
    &&& value[at] == 'h'
    &&& value[at + 1] == 't'
    &&& value[at + 2] == 't'
    &&& value[at + 3] == 'p'
    &&& value[at + 4] == ':'
}

/// `value` with every occurrence of `http:` replaced by `https:`, read from the left.
pub open spec fn upgraded(value: Seq<char>) -> Seq<char>
    decreases value.len(),
{
    if value.len() == 0 {
        Seq::empty()
    } else if scheme_at(value, 0) {
        secure_scheme() + upgraded(value.skip(5))
    } else {
        seq![value[0]] + upgraded(value.skip(1))
    }
}

/// `String::push`: appends one character to the end of the string.
pub assume_specification[ String::push ](text: &mut String, c: char)
    ensures
        final(text)@ == old(text)@.push(c),
;

/// The characters of `value`, in order.
fn chars_of(value: &str) -> (chars: Vec<char>)
    ensures
        chars@ == value@,
{
    let mut chars: Vec<char> = Vec::new();
    for c in it: value.chars()
        invariant
            it.seq() == value@,
            chars@ == value@.take(it.index() as int),
    {
        chars.push(c);
    }
    chars
}

/// Whether `http:` stands in `chars` at `at`.
fn starts_scheme(chars: &Vec<char>, at: usize) -> (found: bool)
    requires
        at <= chars.len(),
    ensures
        found == scheme_at(chars@, at as int),
{
    chars.len() - at >= 5 && chars[at] == 'h' && chars[at + 1] == 't' && chars[at + 2] == 't'
        && chars[at + 3] == 'p' && chars[at + 4] == ':'
}

/// Replaces every `http:` in `value` by `https:`.
pub fn upgrade_scheme(value: &str) -> (out: String)
    ensures
        out@ == upgraded(value@),
{
    let chars = chars_of(value);
    let mut out = String::new();
    let mut at: usize = 0;
    proof {
        assert(chars@.skip(0) == chars@);
    }
    while at < chars.len()
        invariant
            at <= chars.len(),
            chars@ == value@,
            upgraded(value@) == out@ + upgraded(chars@.skip(at as int)),
        decreases chars.len() - at,
    {
        let ghost rest = chars@.skip(at as int);
        if starts_scheme(&chars, at) {
            proof {
                reveal_strlit("https:");
                assert(scheme_at(rest, 0));
                assert(rest.skip(5) == chars@.skip(at + 5));
                assert("https:"@ == secure_scheme());
            }
            out.append("https:");
            at = at + 5;
        } else {
            proof {
                assert(!scheme_at(rest, 0));
                assert(rest.skip(1) == chars@.skip(at + 1));
                assert(out@.push(chars@[at as int]) + upgraded(rest.skip(1)) == out@ + (seq![
                    rest[0],
                ] + upgraded(rest.skip(1))));
            }
            out.push(chars[at]);
            at = at + 1;
        }
    }
    out
}

/// The selector of the elements that the rule applies to, `a[href]`: an `a` element that
/// has an `href`.
pub open spec fn anchor_selector() -> Seq<char> {
    seq!['a', '[', 'h', 'r', 'e', 'f', ']']
}

/// The name of the attribute that the rule rewrites: `href`.
pub open spec fn href() -> Seq<char> {
    seq!['h', 'r', 'e', 'f']
}

/// Whether the rule applies to an element with these attributes: it has an `href`, and
/// the text of the `href` is not empty.
pub open spec fn has_link(attributes: Map<Seq<char>, Seq<u8>>) -> bool {
    attributes.dom().contains(href()) && attribute_text(attributes[href()]).len() > 0
}

/// What the rule makes of an element's attributes: where it applies, the text of the
/// `href` is rewritten and stored as UTF-8; where it does not, nothing changes.
pub open spec fn anchor_rewritten(attributes: Map<Seq<char>, Seq<u8>>) -> Map<
    Seq<char>,
    Seq<u8>,
> {
    if has_link(attributes) {
        attributes.insert(href(), encode_utf8(upgraded(attribute_text(attributes[href()]))))
    } else {
        attributes
    }
}

/// The handler that the engine calls for each element that the selector names. It gives
/// a `href` that is not empty its rewritten value and sets no other attribute; an element
/// without `href`, or with an empty one, is left as it is.
pub fn rewrite_anchor(element: &mut ElementHandle<'_, '_, '_>)
    ensures
        element_attributes(*final(element)) == anchor_rewritten(element_attributes(*old(element))),
        !has_link(element_attributes(*old(element))) ==> *final(element) == *old(element),
{
    proof {
        reveal_strlit("href");
        assert("href"@ == href());
        assert(is_attribute_name(href()));
    }
    match element_get_attribute(element, "href") {
        Some(value) => {
            if !value.as_str().is_empty() {
                let rewritten = upgrade_scheme(value.as_str());
                let _ = element_set_attribute(element, "href", rewritten.as_str());
            }
        },
        None => {},
    }
}

/// A value in which `http:` does not occur is left as it is.
pub proof fn lemma_upgraded_keeps_value_without_scheme(value: Seq<char>)
    requires
        forall|at: int| !scheme_at(value, at),
    ensures
        upgraded(value) == value,
    decreases value.len(),
{
    if value.len() > 0 {
        let rest = value.skip(1);
        assert forall|at: int| !scheme_at(rest, at) by {
            if scheme_at(rest, at) {
                assert(scheme_at(value, at + 1));
            }
        }
        lemma_upgraded_keeps_value_without_scheme(rest);
        assert(!scheme_at(value, 0));
        assert(seq![value[0]] + rest == value);
    }
}

/// Every occurrence is replaced, wherever it stands: an `http:` between any two texts
/// becomes `https:`, and the texts on either side are rewritten on their own.
pub proof fn lemma_upgraded_replaces_every_scheme(before: Seq<char>, after: Seq<char>)
    ensures
        upgraded(before + insecure_scheme() + after) == upgraded(before) + secure_scheme()
            + upgraded(after),
    decreases before.len(),
{
    let whole = before + insecure_scheme() + after;
    if before.len() == 0 {
        assert(whole.skip(5) == after);
        assert(scheme_at(whole, 0));
        assert(upgraded(before) + secure_scheme() == secure_scheme());
    } else if scheme_at(before, 0) {
        let rest = before.skip(5);
        assert(scheme_at(whole, 0));
        assert(whole.skip(5) == rest + insecure_scheme() + after);
        lemma_upgraded_replaces_every_scheme(rest, after);
        assert(secure_scheme() + (upgraded(rest) + secure_scheme() + upgraded(after)) == (
        secure_scheme() + upgraded(rest)) + secure_scheme() + upgraded(after));
    } else {
        let rest = before.skip(1);
        // An occurrence at the start of `whole` would overlap the one after `before`.
        assert(!scheme_at(whole, 0)) by {
            if scheme_at(whole, 0) {
                let n = before.len() as int;
                assert(n < 5);
                assert(whole[n] == 'h');
            }
        }
        assert(whole.skip(1) == rest + insecure_scheme() + after);
        assert(whole[0] == before[0]);
        lemma_upgraded_replaces_every_scheme(rest, after);
        assert(seq![before[0]] + (upgraded(rest) + secure_scheme() + upgraded(after)) == (
        seq![before[0]] + upgraded(rest)) + secure_scheme() + upgraded(after));
    }
}

} // verus!
