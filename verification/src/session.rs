//! The session: one document, from the first chunk to the end of input.
//!
//! A session owns one engine. It is `Active` until it is finalized or the engine fails;
//! after that it takes no more input. Each step hands the engine its input and takes what
//! the engine has emitted, so that the caller receives the rewritten bytes as soon as the
//! engine lets go of them.

use crate::engine::engine_consumed;
use crate::engine::engine_end;
use crate::engine::engine_new;
use crate::engine::engine_poisoned;
use crate::engine::engine_write;
use crate::engine::rewritten;
use crate::engine::rewritten_at_end;
use crate::engine::Engine;
use crate::rule::anchor_selector;
use vstd::prelude::*;

verus! {

/// Where a session stands.
#[derive(Clone, Copy, Debug, PartialEq, Eq, Structural)]
pub enum SessionState {
    /// The session takes input.
    Active,
    /// The end of input has been signalled and the engine has accepted it.
    Finalized,
    /// The engine has refused a chunk or the end of input. The session is of no more use.
    Failed,
}

/// Why a step did nothing, or left the session of no more use.
#[derive(Clone, Copy, Debug, PartialEq, Eq, Structural)]
pub enum SessionError {
    /// The session had been finalized before.
    Finalized,
    /// The session had failed before.
    Unusable,
    /// The engine refused this step. The session has failed.
    Rejected,
}

/// What a session is, to its callers.
pub struct SessionView {
    pub state: SessionState,
    /// The chunks of the document that the engine has been handed so far, in order.
    pub consumed: Seq<Seq<u8>>,
}

/// A session: the engine, as long as it can take input.
pub struct RewriterWrapper {
    rewriter: Option<Engine>,
    failed: bool,
    consumed: Ghost<Seq<Seq<u8>>>,
}

impl View for RewriterWrapper {
    type V = SessionView;

    /// Where the session stands and what its engine has been handed.
    closed spec fn view(&self) -> SessionView {
        SessionView {
            state: if self.failed {
                SessionState::Failed
            } else if self.rewriter is Some {
                SessionState::Active
            } else {
                SessionState::Finalized
            },
            consumed: self.consumed@,
        }
    }
}

/// What `feed` makes of a session and what it returns.
///
/// A session that is not active is left as it is. An active one hands the chunk to the
/// engine. If the engine accepts the chunk, the session stays active and returns what the
/// engine has emitted; if not, the session has failed.
pub open spec fn fed(before: SessionView, chunk: Seq<u8>) -> (
    SessionView,
    Result<Seq<u8>, SessionError>,
) {
    match before.state {
        SessionState::Finalized => (before, Err(SessionError::Finalized)),
        SessionState::Failed => (before, Err(SessionError::Unusable)),
        SessionState::Active => match rewritten(before.consumed, chunk) {
            Some(emitted) => (
                SessionView { state: SessionState::Active, consumed: before.consumed.push(chunk) },
                Ok(emitted),
            ),
            None => (
                SessionView { state: SessionState::Failed, consumed: before.consumed.push(chunk) },
                Err(SessionError::Rejected),
            ),
        },
    }
}

/// What `finalize` makes of a session and what it returns.
///
/// A session that is not active is left as it is. An active one tells the engine that the
/// input has ended, and is never active again. If the engine accepts the end, the session
/// is finalized and returns what the engine had held back; if not, the session has failed.
pub open spec fn ended(before: SessionView) -> (SessionView, Result<Seq<u8>, SessionError>) {
    match before.state {
        SessionState::Finalized => (before, Err(SessionError::Finalized)),
        SessionState::Failed => (before, Err(SessionError::Unusable)),
        SessionState::Active => match rewritten_at_end(before.consumed) {
            Some(emitted) => (
                SessionView { state: SessionState::Finalized, consumed: before.consumed },
                Ok(emitted),
            ),
            None => (
                SessionView { state: SessionState::Failed, consumed: before.consumed },
                Err(SessionError::Rejected),
            ),
        },
    }
}

/// The result of a step, with the bytes as a sequence.
pub open spec fn drained(result: Result<Vec<u8>, SessionError>) -> Result<Seq<u8>, SessionError> {
    match result {
        Ok(bytes) => Ok(bytes@),
        Err(error) => Err(error),
    }
}

/// A session for a new document: active, with nothing consumed. Its engine rewrites the
/// anchors that have an `href`.
pub fn html_rewriter_new() -> (wrapper: RewriterWrapper)
    ensures
        wrapper@ == (SessionView { state: SessionState::Active, consumed: Seq::empty() }),
{
    proof {
        reveal_strlit("a[href]");
        assert("a[href]"@ == anchor_selector());
    }
    RewriterWrapper {
        rewriter: Some(engine_new("a[href]")),
        failed: false,
        consumed: Ghost(Seq::empty()),
    }
}

impl RewriterWrapper {
    /// While the session holds an engine it has not failed, and the engine has been
    /// handed what the session says.
    #[verifier::type_invariant]
    spec fn well_formed(self) -> bool {
        self.rewriter matches Some(engine) ==> {
            &&& !self.failed
            &&& !engine_poisoned(engine)
            &&& engine_consumed(engine) == self.consumed@
        }
    }

    /// Hands `chunk` to the engine and returns the bytes that the engine has let go of.
    ///
    /// These may be none: the engine holds back what it cannot yet tell apart, a tag that
    /// is cut off by the end of the chunk.
    pub fn feed(&mut self, chunk: &[u8]) -> (result: Result<Vec<u8>, SessionError>)
        ensures
            (final(self)@, drained(result)) == fed(old(self)@, chunk@),
    {
        proof {
            use_type_invariant(&*self);
        }
        if self.failed {
            return Err(SessionError::Unusable);
        }
        let mut held: Option<Engine> = None;
        std::mem::swap(&mut self.rewriter, &mut held);
        match held {
            None => Err(SessionError::Finalized),
            Some(mut engine) => {
                let written = engine_write(&mut engine, chunk);
                self.consumed = Ghost(self.consumed@.push(chunk@));
                match written {
                    Ok(mut emitted) => {
                        self.rewriter = Some(engine);
                        Ok(emitted.drain())
                    },
                    Err(_) => {
                        self.failed = true;
                        Err(SessionError::Rejected)
                    },
                }
            },
        }
    }

    /// Tells the engine that the input has ended and returns the bytes that it had held
    /// back.
    pub fn finalize(&mut self) -> (result: Result<Vec<u8>, SessionError>)
        ensures
            (final(self)@, drained(result)) == ended(old(self)@),
    {
        proof {
            use_type_invariant(&*self);
        }
        if self.failed {
            return Err(SessionError::Unusable);
        }
        let mut held: Option<Engine> = None;
        std::mem::swap(&mut self.rewriter, &mut held);
        match held {
            None => Err(SessionError::Finalized),
            Some(engine) => {
                match engine_end(engine) {
                    Ok(mut emitted) => Ok(emitted.drain()),
                    Err(_) => {
                        self.failed = true;
                        Err(SessionError::Rejected)
                    },
                }
            },
        }
    }
}

/// The session after it has been fed `chunks`, one after the other.
pub open spec fn fed_in_turn(start: SessionView, chunks: Seq<Seq<u8>>) -> SessionView
    decreases chunks.len(),
{
    if chunks.len() == 0 {
        start
    } else {
        fed(fed_in_turn(start, chunks.drop_last()), chunks.last()).0
    }
}

/// The chunks of a document, put together again.
pub open spec fn joined(chunks: Seq<Seq<u8>>) -> Seq<u8>
    decreases chunks.len(),
{
    if chunks.len() == 0 {
        Seq::empty()
    } else {
        joined(chunks.drop_last()) + chunks.last()
    }
}

/// Chunks that follow one another make the document that their bytes make.
pub proof fn lemma_joined_chunks(first: Seq<Seq<u8>>, second: Seq<Seq<u8>>)
    ensures
        joined(first + second) == joined(first) + joined(second),
    decreases second.len(),
{
    if second.len() == 0 {
        assert(first + second == first);
        assert(joined(first) + Seq::<u8>::empty() == joined(first));
    } else {
        assert((first + second).drop_last() == first + second.drop_last());
        lemma_joined_chunks(first, second.drop_last());
        assert(joined(first) + (joined(second.drop_last()) + second.last()) == (joined(first)
            + joined(second.drop_last())) + second.last());
    }
}

/// A session that is still active after a run of chunks has handed the engine every one
/// of them, in order, behind what it had been handed before.
pub proof fn lemma_fed_chunks_are_handed_over(start: SessionView, chunks: Seq<Seq<u8>>)
    requires
        fed_in_turn(start, chunks).state == SessionState::Active,
    ensures
        start.state == SessionState::Active,
        fed_in_turn(start, chunks).consumed == start.consumed + chunks,
    decreases chunks.len(),
{
    if chunks.len() == 0 {
        assert(start.consumed + chunks == start.consumed);
    } else {
        let earlier = chunks.drop_last();
        lemma_fed_chunks_are_handed_over(start, earlier);
        assert((start.consumed + earlier).push(chunks.last()) == start.consumed + chunks);
    }
}

/// Where a document is cut does not change which bytes the engine is handed: two
/// sessions that start alike and are still active after the chunks of the same document,
/// cut in two ways, have handed the engine the same bytes in the same order.
pub proof fn lemma_cuts_hand_over_the_same_document(
    start: SessionView,
    chunks: Seq<Seq<u8>>,
    other_chunks: Seq<Seq<u8>>,
)
    requires
        joined(chunks) == joined(other_chunks),
        fed_in_turn(start, chunks).state == SessionState::Active,
        fed_in_turn(start, other_chunks).state == SessionState::Active,
    ensures
        joined(fed_in_turn(start, chunks).consumed) == joined(
            fed_in_turn(start, other_chunks).consumed,
        ),
{
    lemma_fed_chunks_are_handed_over(start, chunks);
    lemma_fed_chunks_are_handed_over(start, other_chunks);
    lemma_joined_chunks(start.consumed, chunks);
    lemma_joined_chunks(start.consumed, other_chunks);
}

} // verus!
