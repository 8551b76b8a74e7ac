//! A streaming rewriter for HTML that upgrades the links of a document: in the `href` of
//! every anchor, `http:` becomes `https:`.
//!
//! The document is fed in chunks, cut wherever the caller likes. Rewritten bytes come
//! back as soon as they are ready, and the rest when the input ends.

pub mod boundary;
pub mod engine;
pub mod rule;
pub mod session;
pub mod sink;

pub use boundary::html_rewriter_finalize;
pub use boundary::html_rewriter_transform_string;
pub use session::html_rewriter_new;
pub use session::RewriterWrapper;
