//! The terminal handle: a queue of drawing commands, and the steps that
//! take the terminal into raw mode and give it back.

use vstd::prelude::*;
use crate::ansi;

verus! {

/// One step that the owner of the output stream takes for the handle.
///
/// The handle never touches the terminal. What it wants done it hands to
/// its caller as a list of these, to be carried out in the order given.
#[derive(Debug, PartialEq, Eq)]
pub enum Effect {
    /// Switch the terminal to raw mode.
    EnterRawMode,
    /// Switch the terminal back to its normal mode.
    LeaveRawMode,
    /// Write these bytes to the output stream.
    Write(Vec<u8>),
    /// Flush the output stream.
    Flush,
}

/// An [`Effect`] as a mathematical value.
pub ghost enum EffectView {
    EnterRawMode,
    LeaveRawMode,
    Write(Seq<u8>),
    Flush,
}

impl View for Effect {
    type V = EffectView;

    open spec fn view(&self) -> EffectView {
        match self {
            Effect::EnterRawMode => EffectView::EnterRawMode,
            Effect::LeaveRawMode => EffectView::LeaveRawMode,
            Effect::Write(bytes) => EffectView::Write(bytes@),
            Effect::Flush => EffectView::Flush,
        }
    }
}

/// Whether a list of effects is, step by step, the given sequence of
/// mathematical values.
pub open spec fn spells(effects: Seq<Effect>, script: Seq<EffectView>) -> bool {
    &&& effects.len() == script.len()
    &&& forall|i: int| 0 <= i < effects.len() ==> (#[trigger] effects[i])@ == script[i]
}

/// The bytes that give the screen back: show the cursor, then move it to
/// the top left corner.
pub open spec fn spec_farewell() -> Seq<u8> {
    ansi::spec_show_cursor() + ansi::spec_move_to(0, 0)
}

/// What a flush asks for when `queued` is waiting: write it, then flush.
pub open spec fn spec_flush(queued: Seq<u8>) -> Seq<EffectView> {
    seq![EffectView::Write(queued), EffectView::Flush]
}

/// What the end of a handle asks for when `queued` is waiting: leave raw
/// mode, write what was queued followed by the farewell, then flush.
pub open spec fn spec_restore(queued: Seq<u8>) -> Seq<EffectView> {
    seq![
        EffectView::LeaveRawMode,
        EffectView::Write(queued + spec_farewell()),
        EffectView::Flush,
    ]
}

/// A handle on a terminal in raw mode.
///
/// A handle comes into being together with the request to enter raw mode
/// and ends with the request to leave it, so for as long as it is there the
/// terminal is in raw mode. In between it collects drawing commands. None
/// of them reaches the terminal before [`Term::flush`] or [`Term::write`]
/// hands the collected bytes out.
///
/// The view of a handle is the bytes that are queued and not yet handed
/// out, in the order in which they were queued.
pub struct Term {
    pending: Vec<u8>,
}

impl View for Term {
    type V = Seq<u8>;

    closed spec fn view(&self) -> Seq<u8> {
        self.pending@
    }
}

impl Term {
    /// A new handle with nothing queued, and the one step that has to be
    /// taken before it is used: entering raw mode.
    pub fn new() -> (made: (Term, Vec<Effect>))
        ensures
            made.0@ == Seq::<u8>::empty(),
            spells(made.1@, seq![EffectView::EnterRawMode]),
    {
        let effects = vec![Effect::EnterRawMode];
        (Term { pending: Vec::new() }, effects)
    }

    /// Puts the bytes of one command at the end of the queue.
    fn queue(&mut self, command: Vec<u8>)
        ensures
            final(self)@ == old(self)@ + command@,
    {
        let mut command = command;
        self.pending.append(&mut command);
    }

    /// Hands out everything that is queued, to be written and flushed, and
    /// leaves the queue empty.
    pub fn flush(&mut self) -> (effects: Vec<Effect>)
        ensures
            spells(effects@, spec_flush(old(self)@)),
            final(self)@ == Seq::<u8>::empty(),
    {
        let mut bytes: Vec<u8> = Vec::new();
        std::mem::swap(&mut self.pending, &mut bytes);
        let effects = vec![Effect::Write(bytes), Effect::Flush];
        effects
    }

    /// Queues: cursor up by `n` rows.
    pub fn move_up(&mut self, n: u16)
        ensures
            final(self)@ == old(self)@ + ansi::spec_move_up(n),
    {
        self.queue(ansi::move_up(n))
    }

    /// Queues: cursor down by `n` rows.
    pub fn move_down(&mut self, n: u16)
        ensures
            final(self)@ == old(self)@ + ansi::spec_move_down(n),
    {
        self.queue(ansi::move_down(n))
    }

    /// Queues: cursor to the first column of its row.
    pub fn move_column_start(&mut self)
        ensures
            final(self)@ == old(self)@ + ansi::spec_move_to_column(0),
    {
        self.queue(ansi::move_to_column(0))
    }

    /// Queues: cursor to the top left corner.
    pub fn move_start(&mut self)
        ensures
            final(self)@ == old(self)@ + ansi::spec_move_to(0, 0),
    {
        self.queue(ansi::move_to(0, 0))
    }

    /// Queues: cursor to column `x` of row `y`, both counted from zero.
    ///
    /// On the wire both are counted from one, in sixteen bits, which leaves
    /// no number for `u16::MAX`.
    pub fn move_to(&mut self, x: u16, y: u16)
        requires
            x < u16::MAX,
            y < u16::MAX,
        ensures
            final(self)@ == old(self)@ + ansi::spec_move_to(x, y),
    {
        self.queue(ansi::move_to(x, y))
    }

    /// Queues: cursor to the first column of row `y`, counted from zero.
    pub fn move_to_row(&mut self, y: u16)
        requires
            y < u16::MAX,
        ensures
            final(self)@ == old(self)@ + ansi::spec_move_to(0, y),
    {
        self.queue(ansi::move_to(0, y))
    }

    /// Queues: cursor to column `x` of its row, counted from zero.
    pub fn move_to_column(&mut self, x: u16)
        requires
            x < u16::MAX,
        ensures
            final(self)@ == old(self)@ + ansi::spec_move_to_column(x),
    {
        self.queue(ansi::move_to_column(x))
    }

    /// Queues: empty the cursor's line. The cursor goes to the first column,
    /// then everything from there to the end of the line is erased.
    pub fn clear_line(&mut self)
        ensures
            final(self)@ == old(self)@ + ansi::spec_move_to_column(0)
                + ansi::spec_clear_until_new_line(),
    {
        self.queue(ansi::move_to_column(0));
        self.queue(ansi::clear_until_new_line());
    }

    /// Queues: hide the cursor.
    pub fn hide_cursor(&mut self)
        ensures
            final(self)@ == old(self)@ + ansi::spec_hide_cursor(),
    {
        self.queue(ansi::hide_cursor())
    }

    /// Queues: show the cursor.
    pub fn show_cursor(&mut self)
        ensures
            final(self)@ == old(self)@ + ansi::spec_show_cursor(),
    {
        self.queue(ansi::show_cursor())
    }

    /// Queues `text` and flushes at once: everything queued so far goes
    /// out, with `text` behind it.
    pub fn write(&mut self, text: &str) -> (effects: Vec<Effect>)
        ensures
            spells(effects@, spec_flush(old(self)@ + ansi::spec_print(text@))),
            final(self)@ == Seq::<u8>::empty(),
    {
        self.queue(ansi::print(text));
        self.flush()
    }

    /// Ends the handle. The terminal leaves raw mode first; then whatever
    /// is still queued goes out, followed by the commands that show the
    /// cursor and move it to the top left corner, and the stream is flushed.
    pub fn restore(self) -> (effects: Vec<Effect>)
        ensures
            spells(effects@, spec_restore(self@)),
    {
        let mut handle = self;
        handle.show_cursor();
        handle.move_start();
        assert(handle@ =~= self@ + spec_farewell());
        let effects = vec![Effect::LeaveRawMode, Effect::Write(handle.pending), Effect::Flush];
        effects
    }
}

} // verus!
