//! Conversation history of a realtime session with interruption handling:
//! when the caller interrupts, model output that was still streaming is
//! pruned, so that the history holds only what the caller may have heard in
//! full.

use vstd::prelude::*;
use crate::events::ServerEvent;

verus! {

/// A streaming piece of model output (audio, text or transcript delta).
pub open spec fn is_model_delta(e: ServerEvent) -> bool {
    e is AudioDelta || e is TextDelta || e is TranscriptDelta
}

/// The length of `h` without its trailing run of model deltas.
pub open spec fn kept_len(h: Seq<ServerEvent>) -> nat
    decreases h.len(),
{
    if h.len() == 0 {
        0
    } else if is_model_delta(h.last()) {
        kept_len(h.drop_last())
    } else {
        h.len()
    }
}

/// `h` with its trailing run of model deltas removed.
pub open spec fn pruned(h: Seq<ServerEvent>) -> Seq<ServerEvent> {
    h.take(kept_len(h) as int)
}

/// Pruning removes exactly a trailing run of model deltas: what stays is a
/// prefix that does not end in a delta, and every removed event is a delta.
pub proof fn lemma_pruned_shape(h: Seq<ServerEvent>)
    ensures
        kept_len(h) <= h.len(),
        kept_len(h) > 0 ==> !is_model_delta(h[kept_len(h) - 1]),
        forall|i: int| kept_len(h) <= i < h.len() ==> is_model_delta(#[trigger] h[i]),
    decreases h.len(),
{
    if h.len() > 0 && is_model_delta(h.last()) {
        let h0 = h.drop_last();
        lemma_pruned_shape(h0);
        assert forall|i: int| kept_len(h) <= i < h.len() implies is_model_delta(#[trigger] h[i]) by {
            if i < h.len() - 1 {
                assert(h[i] == h0[i]);
            }
        }
        if kept_len(h) > 0 {
            assert(h[kept_len(h) - 1] == h0[kept_len(h0) - 1]);
        }
    }
}

/// Handling an interruption twice prunes no more than handling it once.
pub proof fn lemma_pruned_idempotent(h: Seq<ServerEvent>)
    ensures
        pruned(pruned(h)) == pruned(h),
{
    lemma_pruned_shape(h);
    let p = pruned(h);
    let k = kept_len(h);
    assert(p.len() == k);
    if k > 0 {
        assert(p.last() == h[k - 1]);
        assert(kept_len(p) == k);
    } else {
        assert(kept_len(p) == 0);
    }
    assert(pruned(p) =~= p);
}

/// An interruption removes exactly the interrupted model output: the history
/// it leaves is a prefix of the one before, does not end in an audio, text or
/// transcript delta, and every event it removed is one of those three kinds.
pub proof fn law_interruption_removes_trailing_output(h: Seq<ServerEvent>)
    ensures
        pruned(h).len() <= h.len(),
        pruned(h) == h.take(pruned(h).len() as int),
        pruned(h).len() > 0 ==> !(pruned(h).last() is AudioDelta || pruned(h).last() is TextDelta
            || pruned(h).last() is TranscriptDelta),
        forall|i: int|
            pruned(h).len() <= i < h.len() ==> (#[trigger] h[i] is AudioDelta || h[i] is TextDelta
                || h[i] is TranscriptDelta),
{
    lemma_pruned_shape(h);
    let k = kept_len(h);
    assert(pruned(h).len() == k);
    if k > 0 {
        assert(pruned(h).last() == h[k - 1]);
    }
}

/// Conversation history with interruption pruning.
#[derive(Debug)]
pub struct InterruptionCompactor {
    history: Vec<ServerEvent>,
}

impl InterruptionCompactor {
    pub closed spec fn events(&self) -> Seq<ServerEvent> {
        self.history@
    }

    /// An empty history.
    pub fn new() -> (c: Self)
        ensures
            c.events() == Seq::<ServerEvent>::empty(),
    {
        InterruptionCompactor { history: Vec::new() }
    }

    /// Appends an event to the history.
    pub fn push(&mut self, event: ServerEvent)
        ensures
            final(self).events() == old(self).events().push(event),
    {
        self.history.push(event);
    }

    /// The caller interrupted (at `timestamp_ms`, which the tail-pruning
    /// strategy does not need): removes the trailing model deltas, which
    /// stand for the interrupted response. Pruning stops at anything else,
    /// such as a completed response or a caller event.
    pub fn handle_interruption(&mut self, timestamp_ms: u64)
        ensures
            final(self).events() == pruned(old(self).events()),
    {
        proof {
            lemma_pruned_shape(self.history@);
            assert(self.history@ =~= self.history@.take(self.history@.len() as int));
        }
        while self.history.len() > 0 && is_delta(&self.history[self.history.len() - 1])
            invariant
                kept_len(self.history@) == kept_len(old(self).history@),
                self.history@ == old(self).history@.take(self.history@.len() as int),
                kept_len(self.history@) <= self.history@.len(),
                self.history@.len() <= old(self).history@.len(),
            decreases self.history.len(),
        {
            let ghost before = self.history@;
            let _ = self.history.pop();
            proof {
                assert(self.history@ =~= before.drop_last());
                assert(before.drop_last() =~= old(self).history@.take(before.len() - 1));
                assert(kept_len(before) == kept_len(before.drop_last()));
                lemma_pruned_shape(self.history@);
            }
        }
        proof {
            if self.history@.len() > 0 {
                assert(kept_len(self.history@) == self.history@.len());
            }
            assert(self.history@ =~= old(self).history@.take(kept_len(old(self).history@) as int));
        }
    }

    /// The current history.
    pub fn history(&self) -> (h: &[ServerEvent])
        ensures
            h@ == self.events(),
    {
        self.history.as_slice()
    }
}

impl Default for InterruptionCompactor {
    fn default() -> (c: Self)
        ensures
            c.events() == Seq::<ServerEvent>::empty(),
    {
        InterruptionCompactor::new()
    }
}

/// Whether `e` is a streaming piece of model output.
fn is_delta(e: &ServerEvent) -> (b: bool)
    ensures
        b == is_model_delta(*e),
{
    match e {
        ServerEvent::AudioDelta { .. } | ServerEvent::TextDelta { .. } | ServerEvent::TranscriptDelta {
            ..
        } => true,
        _ => false,
    }
}

} // verus!
