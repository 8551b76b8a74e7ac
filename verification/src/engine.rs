//! The rewriting engine: `lol_html`, behind contracts that are believed, not proved.
//!
//! `lol_html` tokenizes the document chunk by chunk, finds the elements that a selector
//! names, hands each to a handler and passes everything else through. Which bytes it
//! emits is not written out here: that is the whole of an HTML tokenizer. It is a
//! function of the chunks that the engine has been handed, and that function has a name,
//! `rewritten`, so that the session can say exactly what it does with the engine's output.
//!
//! The verifier takes neither of the two outside types that run through the logic. The
//! rewriter's type names the type of its output callback, a boxed closure; the element's
//! type is bound by a trait of `lol_html`. Each is therefore held in a private field of a
//! struct of this module that the verifier treats as opaque.

use crate::rule::anchor_selector;
use crate::rule::rewrite_anchor;
use crate::sink::OutputSink;
use lol_html::errors::AttributeNameError;
use lol_html::errors::RewritingError;
use lol_html::html_content::Element;
use lol_html::ElementContentHandlers;
use lol_html::HtmlRewriter;
use lol_html::Settings;
use std::borrow::Cow;
use std::cell::RefCell;
use std::rc::Rc;
use vstd::prelude::*;
use vstd::utf8::encode_utf8;

verus! {

/// `lol_html::errors::RewritingError`: why a `write` or an `end` failed.
#[verifier::external_type_specification]
#[verifier::external_body]
pub struct ExRewritingError(RewritingError);

/// `lol_html::errors::AttributeNameError`: why a name was refused as an attribute's name.
#[verifier::external_type_specification]
#[verifier::external_body]
pub struct ExAttributeNameError(AttributeNameError);

/// A `lol_html::HtmlRewriter` with the default settings, under which the document is read
/// and written as UTF-8, and the sink that its output callback appends to.
///
/// The sink is empty whenever no call of the engine is under way: a fresh rewriter has
/// emitted nothing, and every call that succeeds takes out what it has emitted.
#[verifier::external_body]
pub struct Engine {
    rewriter: HtmlRewriter<'static, Box<dyn FnMut(&[u8])>>,
    output: Rc<RefCell<OutputSink>>,
}

/// A `lol_html::html_content::Element` for the time that a handler may change it.
#[verifier::external_body]
pub struct ElementHandle<'a, 'r, 't> {
    element: &'a mut Element<'r, 't>,
}

/// The chunks that the engine has been handed by `write` since it was made, in order.
pub uninterp spec fn engine_consumed(engine: Engine) -> Seq<Seq<u8>>;

/// Whether a `write` of the engine has failed. `lol_html` panics when such a rewriter is
/// used again.
pub uninterp spec fn engine_poisoned(engine: Engine) -> bool;

/// What `HtmlRewriter::write` does with `chunk` in an engine that has been handed the
/// chunks `consumed` before: the bytes that it emits, or `None` where it fails.
pub uninterp spec fn rewritten(consumed: Seq<Seq<u8>>, chunk: Seq<u8>) -> Option<Seq<u8>>;

/// What `HtmlRewriter::end` does in an engine that has been handed the chunks `consumed`:
/// the bytes that it emits, or `None` where it fails.
pub uninterp spec fn rewritten_at_end(consumed: Seq<Seq<u8>>) -> Option<Seq<u8>>;

/// The attributes of the element's start tag: for each name, in lower case, the bytes of
/// the value of the first attribute that bears it.
pub uninterp spec fn element_attributes(element: ElementHandle<'_, '_, '_>) -> Map<
    Seq<char>,
    Seq<u8>,
>;

/// The text that `Element::get_attribute` returns for an attribute whose value has the
/// bytes `value`. `lol_html` has `encoding_rs` decode them, which looks for a byte-order
/// mark first: without one the bytes are read as UTF-8, the document's encoding, and
/// U+FFFD stands for what is not UTF-8; a mark at the start is taken off, and one of
/// UTF-16 has the rest read as UTF-16.
pub uninterp spec fn attribute_text(value: Seq<u8>) -> Seq<char>;

/// Whether `c` may stand in the name of an attribute that is looked up or set: an ASCII
/// character that is neither an upper-case letter nor one that ends a name in a tag.
pub open spec fn is_name_char(c: char) -> bool {
    &&& (c as u32) < 128
    &&& !('A' <= c <= 'Z')
    &&& c != ' '
    &&& c != '\n'
    &&& c != '\r'
    &&& c != '\t'
    &&& c != '\x0C'
    &&& c != '/'
    &&& c != '>'
    &&& c != '='
}

/// The names under which `element_attributes` keeps the attributes, and that `lol_html`
/// accepts as they are.
pub open spec fn is_attribute_name(name: Seq<char>) -> bool {
    &&& name.len() > 0
    &&& forall|i: int| 0 <= i < name.len() ==> is_name_char(#[trigger] name[i])
}

/// `HtmlRewriter::new`, with the default settings but for one element handler: the
/// elements that `selector` names go to `rewrite_anchor`. What the rewriter emits is
/// appended to a sink of its own.
///
/// Believed: the rewriter is fresh, so it has consumed nothing and has not failed. Only
/// the anchor selector is admitted, which `lol_html` parses; of another the parse might
/// fail, and the call would panic.
#[verifier::external_body]
pub(crate) fn engine_new(selector: &str) -> (engine: Engine)
    requires
        selector@ == anchor_selector(),
    ensures
        engine_consumed(engine) == Seq::<Seq<u8>>::empty(),
        !engine_poisoned(engine),
{
    let handlers = ElementContentHandlers::default().element(|element: &mut Element| {
        rewrite_anchor(&mut ElementHandle { element });
        Ok(())
    });
    let settings = Settings {
        element_content_handlers: vec![(Cow::Owned(selector.parse().unwrap()), handlers)],
        ..Settings::new()
    };
    let output: Rc<RefCell<OutputSink>> = Rc::default();
    let sink = output.clone();
    let callback = Box::new(move |chunk: &[u8]| sink.borrow_mut().append(chunk));
    Engine { rewriter: HtmlRewriter::new(settings, callback), output }
}

/// `HtmlRewriter::write`: hands the engine the next chunk of the document, and takes out
/// of the sink what the engine has emitted for it.
///
/// Believed: the engine has then been handed `chunk` after all that it had before; it has
/// failed exactly if the call returns an error; and what it emits is a function of the
/// chunks alone, the one named `rewritten`. An engine that has failed is not admitted:
/// `lol_html` panics on it.
#[verifier::external_body]
pub(crate) fn engine_write(engine: &mut Engine, chunk: &[u8]) -> (result: Result<
    OutputSink,
    RewritingError,
>)
    requires
        !engine_poisoned(*old(engine)),
    ensures
        engine_consumed(*final(engine)) == engine_consumed(*old(engine)).push(chunk@),
        engine_poisoned(*final(engine)) == (result is Err),
        match result {
            Ok(emitted) => rewritten(engine_consumed(*old(engine)), chunk@) == Some(emitted@),
            Err(_) => rewritten(engine_consumed(*old(engine)), chunk@) is None,
        },
{
    engine.rewriter.write(chunk)?;
    Ok(engine.output.take())
}

/// `HtmlRewriter::end`: tells the engine that the document is complete, uses it up, and
/// takes out of the sink what the engine had held back.
///
/// Believed: what it emits is a function of the chunks alone, the one named
/// `rewritten_at_end`. An engine that has failed is not admitted: `lol_html` panics on
/// it.
#[verifier::external_body]
pub(crate) fn engine_end(engine: Engine) -> (result: Result<OutputSink, RewritingError>)
    requires
        !engine_poisoned(engine),
    ensures
        match result {
            Ok(emitted) => rewritten_at_end(engine_consumed(engine)) == Some(emitted@),
            Err(_) => rewritten_at_end(engine_consumed(engine)) is None,
        },
{
    engine.rewriter.end()?;
    Ok(engine.output.take())
}

/// `Element::get_attribute`: the text of the attribute `name`, where the element has one.
///
/// Believed: the element has the attribute exactly if `element_attributes` has the name,
/// and the text is what `attribute_text` makes of the value's bytes.
#[verifier::external_body]
pub(crate) fn element_get_attribute(element: &ElementHandle<'_, '_, '_>, name: &str) -> (value:
    Option<String>)
    requires
        is_attribute_name(name@),
    ensures
        value is Some <==> element_attributes(*element).dom().contains(name@),
        value matches Some(text) ==> text@ == attribute_text(element_attributes(*element)[name@]),
{
    element.element.get_attribute(name)
}

/// `Element::set_attribute`: gives the attribute `name` the value `value`, and adds the
/// attribute where the element has none of that name.
///
/// Believed: the call succeeds, the attribute then holds the bytes of `value` in the
/// document's encoding, which is UTF-8, and no other attribute is touched.
#[verifier::external_body]
pub(crate) fn element_set_attribute(
    element: &mut ElementHandle<'_, '_, '_>,
    name: &str,
    value: &str,
) -> (result: Result<(), AttributeNameError>)
    requires
        is_attribute_name(name@),
    ensures
        result is Ok,
        element_attributes(*final(element)) == element_attributes(*old(element)).insert(
            name@,
            encode_utf8(value@),
        ),
{
    element.element.set_attribute(name, value)
}

} // verus!
