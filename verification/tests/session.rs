use html_rewriter::html_rewriter_new;
use html_rewriter::session::SessionError;

fn rewrite(chunks: &[&[u8]]) -> Vec<u8> {
    let mut session = html_rewriter_new();
    let mut out = Vec::new();
    for chunk in chunks {
        out.extend(session.feed(chunk).unwrap());
    }
    out.extend(session.finalize().unwrap());
    out
}

#[test]
fn feed_holds_back_a_tag_that_is_cut_off() {
    let mut session = html_rewriter_new();
    assert_eq!(session.feed(b"<"), Ok(Vec::new()));
    assert_eq!(session.feed(b"a href=\"http://a\""), Ok(Vec::new()));
    assert_eq!(session.feed(b">"), Ok(b"<a href=\"https://a\">".to_vec()));
}

#[test]
fn finalize_hands_out_what_was_held_back() {
    let mut session = html_rewriter_new();
    assert_eq!(session.feed(b"text <"), Ok(b"text ".to_vec()));
    assert_eq!(session.finalize(), Ok(b"<".to_vec()));
}

#[test]
fn empty_chunk_yields_nothing() {
    let mut session = html_rewriter_new();
    assert_eq!(session.feed(b""), Ok(Vec::new()));
    assert_eq!(session.feed(b"<a href=http://x>"), Ok(b"<a href=\"https://x\">".to_vec()));
    assert_eq!(session.finalize(), Ok(Vec::new()));
}

#[test]
fn finalize_of_a_fresh_session_yields_nothing() {
    let mut session = html_rewriter_new();
    assert_eq!(session.finalize(), Ok(Vec::new()));
}

#[test]
fn finalized_session_takes_no_more_input() {
    let mut session = html_rewriter_new();
    assert_eq!(session.feed(b"<p>"), Ok(b"<p>".to_vec()));
    assert_eq!(session.finalize(), Ok(Vec::new()));
    assert_eq!(session.feed(b"<a href=\"http://a\">"), Err(SessionError::Finalized));
    assert_eq!(session.finalize(), Err(SessionError::Finalized));
    assert_eq!(session.feed(b""), Err(SessionError::Finalized));
}

#[test]
fn refused_chunk_fails_the_session() {
    let mut session = html_rewriter_new();
    assert_eq!(session.feed(b"<p>fine</p>"), Ok(b"<p>fine</p>".to_vec()));
    assert_eq!(
        session.feed(b"<select><xmp><script>\"use strict\";</script></select>"),
        Err(SessionError::Rejected)
    );
    assert_eq!(session.feed(b"<p>"), Err(SessionError::Unusable));
    assert_eq!(session.finalize(), Err(SessionError::Unusable));
    assert_eq!(session.feed(b""), Err(SessionError::Unusable));
}

#[test]
fn sessions_do_not_share_state() {
    let mut first = html_rewriter_new();
    let mut second = html_rewriter_new();
    assert_eq!(first.feed(b"<a href=\"http://fi"), Ok(Vec::new()));
    assert_eq!(second.feed(b"<b>"), Ok(b"<b>".to_vec()));
    assert_eq!(second.finalize(), Ok(Vec::new()));
    assert_eq!(first.feed(b"rst\">"), Ok(b"<a href=\"https://first\">".to_vec()));
    assert_eq!(first.finalize(), Ok(Vec::new()));
}

#[test]
fn anchor_with_href_is_rewritten() {
    assert_eq!(
        rewrite(&[b"<a href=\"http://example.com\">link</a>"]),
        b"<a href=\"https://example.com\">link</a>".to_vec()
    );
}

#[test]
fn every_occurrence_in_the_href_is_rewritten() {
    assert_eq!(
        rewrite(&[b"<a href=\"http://x.com/http:path\">"]),
        b"<a href=\"https://x.com/https:path\">".to_vec()
    );
}

#[test]
fn other_attributes_of_the_anchor_are_kept() {
    assert_eq!(
        rewrite(&[b"<a id=\"http:\" href=\"http://a\" title='http://t' data-x=http:>t</a>"]),
        b"<a id=\"http:\" href=\"https://a\" title='http://t' data-x=http:>t</a>".to_vec()
    );
}

#[test]
fn attribute_name_is_matched_without_case() {
    assert_eq!(
        rewrite(&[b"<A HREF='http://x.com'>t</A>"]),
        b"<A HREF=\"https://x.com\">t</A>".to_vec()
    );
}

#[test]
fn first_of_two_hrefs_is_rewritten() {
    assert_eq!(
        rewrite(&[b"<a href=\"http://one\" href=\"http://two\">"]),
        b"<a href=\"https://one\" href=\"http://two\">".to_vec()
    );
}

#[test]
fn elements_other_than_anchors_are_kept() {
    let document: &[u8] = b"<!doctype html><link href=\"http://a/s.css\"><p href=\"http://q\">z</p>\
<img src='http://i'><area href=http://m><!-- <a href=\"http://c\"> -->http://text";
    assert_eq!(rewrite(&[document]), document.to_vec());
}

#[test]
fn anchor_without_href_is_kept() {
    let document: &[u8] = b"<a name=\"http://top\"  id = x >top</a><a>bare</a><a data-href='http:'>";
    assert_eq!(rewrite(&[document]), document.to_vec());
}

#[test]
fn anchor_with_empty_href_is_kept() {
    assert_eq!(rewrite(&[b"<a href>x</a>"]), b"<a href>x</a>".to_vec());
    assert_eq!(rewrite(&[b"<a href=\"\">"]), b"<a href=\"\">".to_vec());
    assert_eq!(rewrite(&[b"<a  HREF=''  id=http: >x</a>"]), b"<a  HREF=''  id=http: >x</a>".to_vec());
    assert_eq!(rewrite(&[b"<a href", b">x</a>"]), b"<a href>x</a>".to_vec());
}

#[test]
fn output_does_not_depend_on_where_the_document_is_cut() {
    let document: &[u8] = b"<p>go <a class=x href=\"http://example.com/?u=http://b\">there</a></p>";
    let whole = rewrite(&[document]);
    assert_eq!(
        whole,
        b"<p>go <a class=x href=\"https://example.com/?u=https://b\">there</a></p>".to_vec()
    );
    for cut in 0..=document.len() {
        assert_eq!(rewrite(&[&document[..cut], &document[cut..]]), whole);
    }
    let bytes: Vec<&[u8]> = document.chunks(1).collect();
    assert_eq!(rewrite(&bytes), whole);
    let triples: Vec<&[u8]> = document.chunks(3).collect();
    assert_eq!(rewrite(&triples), whole);
}

#[test]
fn drained_bytes_keep_a_character_that_is_cut_in_two() {
    let mut session = html_rewriter_new();
    assert_eq!(session.feed(b"caf\xC3"), Ok(b"caf\xC3".to_vec()));
    assert_eq!(session.feed(b"\xA9"), Ok(b"\xA9".to_vec()));
    assert_eq!(session.finalize(), Ok(Vec::new()));
}

#[test]
fn bytes_that_are_not_text_pass_through() {
    assert_eq!(rewrite(&[b"a\x00b\xff<i>"]), b"a\x00b\xff<i>".to_vec());
}
