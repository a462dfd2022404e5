//! What the effects do to a terminal, and what follows for a whole session.
//!
//! The terminal is modelled by the mode it is in and by the bytes that were
//! written to its stream: those already flushed, which it shows, and those
//! still held back. Everything here is specification and proof; nothing of
//! it is compiled.

use vstd::prelude::*;
use crate::ansi;
use crate::term::{spec_farewell, spec_flush, spec_restore, EffectView};

verus! {

/// A terminal as the effects see it.
pub ghost struct Terminal {
    /// Whether it is in raw mode.
    pub raw: bool,
    /// Bytes written to the stream and not flushed yet.
    pub held: Seq<u8>,
    /// Bytes that were flushed: what the terminal has acted on, in order.
    pub shown: Seq<u8>,
}

impl Terminal {
    /// The terminal after one effect.
    pub open spec fn step(self, effect: EffectView) -> Terminal {
        match effect {
            EffectView::EnterRawMode => Terminal { raw: true, ..self },
            EffectView::LeaveRawMode => Terminal { raw: false, ..self },
            EffectView::Write(bytes) => Terminal { held: self.held + bytes, ..self },
            EffectView::Flush => Terminal {
                held: Seq::empty(),
                shown: self.shown + self.held,
                ..self
            },
        }
    }

    /// The terminal after a list of effects, carried out in order.
    pub open spec fn run(self, effects: Seq<EffectView>) -> Terminal
        decreases effects.len(),
    {
        if effects.len() == 0 {
            self
        } else {
            self.run(effects.drop_last()).step(effects.last())
        }
    }
}

/// Whether a list of effects only writes and flushes, as the lists do that
/// `Term::flush` and `Term::write` hand out.
pub open spec fn draws_only(effects: Seq<EffectView>) -> bool {
    forall|i: int|
        0 <= i < effects.len() ==> (#[trigger] effects[i] is Write || effects[i] is Flush)
}

/// Carrying out two lists one after the other is carrying out their
/// concatenation.
pub proof fn lemma_run_concat(
    terminal: Terminal,
    first: Seq<EffectView>,
    second: Seq<EffectView>,
)
    ensures
        terminal.run(first + second) == terminal.run(first).run(second),
    decreases second.len(),
{
    if second.len() == 0 {
        assert(first + second =~= first);
    } else {
        assert((first + second).drop_last() =~= first + second.drop_last());
        assert((first + second).last() == second.last());
        lemma_run_concat(terminal, first, second.drop_last());
    }
}

/// Drawing does not touch the mode: after any list of writes and flushes
/// the terminal is in the mode it was in before.
pub proof fn lemma_drawing_keeps_mode(terminal: Terminal, effects: Seq<EffectView>)
    requires
        draws_only(effects),
    ensures
        terminal.run(effects).raw == terminal.raw,
    decreases effects.len(),
{
    if effects.len() > 0 {
        let rest = effects.drop_last();
        assert forall|i: int| 0 <= i < rest.len() implies (#[trigger] rest[i] is Write || rest[i]
            is Flush) by {
            assert(rest[i] == effects[i]);
        }
        lemma_drawing_keeps_mode(terminal, rest);
        assert(effects.last() == effects[effects.len() - 1]);
    }
}

/// A new handle asks for raw mode and for nothing else: the terminal is in
/// raw mode afterwards, and its stream is as it was.
pub proof fn lemma_new_enters_raw_mode(terminal: Terminal)
    ensures
        terminal.run(seq![EffectView::EnterRawMode]) == (Terminal { raw: true, ..terminal }),
{
    let effects = seq![EffectView::EnterRawMode];
    assert(effects.drop_last() =~= Seq::<EffectView>::empty());
    assert(terminal.run(effects.drop_last()) == terminal);
}

/// A flush shows what was queued and leaves nothing held back; what the
/// stream held before comes first. The mode stays.
pub proof fn lemma_flush_shows_queue(terminal: Terminal, queued: Seq<u8>)
    ensures
        draws_only(spec_flush(queued)),
        terminal.run(spec_flush(queued)) == (Terminal {
            raw: terminal.raw,
            held: Seq::empty(),
            shown: terminal.shown + (terminal.held + queued),
        }),
{
    let effects = spec_flush(queued);
    let first = seq![EffectView::Write(queued)];
    assert(effects.drop_last() =~= first);
    assert(first.drop_last() =~= Seq::<EffectView>::empty());
    assert(terminal.run(first.drop_last()) == terminal);
    assert(terminal.run(first) == terminal.step(EffectView::Write(queued)));
}

/// Commands queued one after the other reach the terminal in that order,
/// and only with the flush: with `first` and then `second` queued behind
/// `queued`, the flush shows `queued`, `first`, `second`, in this order.
pub proof fn lemma_flush_keeps_issue_order(
    terminal: Terminal,
    queued: Seq<u8>,
    first: Seq<u8>,
    second: Seq<u8>,
)
    ensures
        terminal.run(spec_flush(queued + first + second)).shown == terminal.shown + terminal.held
            + queued + first + second,
        terminal.run(spec_flush(queued + first + second)).held == Seq::<u8>::empty(),
{
    lemma_flush_shows_queue(terminal, queued + first + second);
    assert(terminal.shown + (terminal.held + (queued + first + second)) =~= terminal.shown
        + terminal.held + queued + first + second);
}

/// The end of a handle gives the terminal back: raw mode is off, nothing
/// is held back, and the last thing the terminal was shown is the command
/// to show the cursor followed by the move to the top left corner.
pub proof fn lemma_restore_gives_terminal_back(terminal: Terminal, queued: Seq<u8>)
    ensures
        terminal.run(spec_restore(queued)) == (Terminal {
            raw: false,
            held: Seq::empty(),
            shown: terminal.shown + (terminal.held + queued) + ansi::spec_show_cursor()
                + ansi::spec_move_to(0, 0),
        }),
{
    let effects = spec_restore(queued);
    let two = seq![EffectView::LeaveRawMode, EffectView::Write(queued + spec_farewell())];
    let one = seq![EffectView::LeaveRawMode];
    assert(effects.drop_last() =~= two);
    assert(two.drop_last() =~= one);
    assert(one.drop_last() =~= Seq::<EffectView>::empty());
    assert(terminal.run(one.drop_last()) == terminal);
    assert(terminal.run(one) == terminal.step(EffectView::LeaveRawMode));
    assert(terminal.run(two) == terminal.run(one).step(two.last()));
    assert(terminal.shown + (terminal.held + (queued + spec_farewell())) =~= terminal.shown + (
    terminal.held + queued) + ansi::spec_show_cursor() + ansi::spec_move_to(0, 0));
}

/// A whole session, from the first request of a new handle to the last of
/// its end, with any drawing in between: the terminal is in raw mode from
/// the first step until the end begins, and is given back afterwards.
pub proof fn lemma_session(terminal: Terminal, drawing: Seq<EffectView>, queued: Seq<u8>)
    requires
        draws_only(drawing),
    ensures
        terminal.run(seq![EffectView::EnterRawMode] + drawing).raw,
        ({
            let before = terminal.run(seq![EffectView::EnterRawMode] + drawing);
            let after = terminal.run(
                seq![EffectView::EnterRawMode] + drawing + spec_restore(queued),
            );
            &&& !after.raw
            &&& after.held == Seq::<u8>::empty()
            &&& after.shown == before.shown + (before.held + queued) + ansi::spec_show_cursor()
                + ansi::spec_move_to(0, 0)
        }),
{
    let enter = seq![EffectView::EnterRawMode];
    lemma_new_enters_raw_mode(terminal);
    lemma_run_concat(terminal, enter, drawing);
    lemma_drawing_keeps_mode(terminal.run(enter), drawing);
    lemma_run_concat(terminal, enter + drawing, spec_restore(queued));
    lemma_restore_gives_terminal_back(terminal.run(enter + drawing), queued);
}

} // verus!
