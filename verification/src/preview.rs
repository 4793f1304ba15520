//! The preview pane: the text on show and how far it is scrolled.

use vstd::prelude::*;

verus! {

/// The text that the preview pane shows, with its vertical scroll offset.
pub struct PreviewState {
    text: String,
    scroll: u16,
}

/// The offset one line further down, as far as an offset can go.
pub open spec fn scrolled_down(offset: nat) -> nat {
    if offset < u16::MAX {
        offset + 1
    } else {
        offset
    }
}

/// The offset one line further up, and 0 where it is 0.
pub open spec fn scrolled_up(offset: nat) -> nat {
    if offset > 0 {
        (offset - 1) as nat
    } else {
        0
    }
}

/// The offset after scrolling up `steps` times.
pub open spec fn scrolled_up_times(offset: nat, steps: nat) -> nat
    decreases steps,
{
    if steps == 0 {
        offset
    } else {
        scrolled_up(scrolled_up_times(offset, (steps - 1) as nat))
    }
}

impl PreviewState {
    /// The text on show, as a sequence of characters.
    pub closed spec fn text_view(&self) -> Seq<char> {
        self.text@
    }

    /// The scroll offset as a number.
    pub closed spec fn scroll_view(&self) -> nat {
        self.scroll as nat
    }

    /// A pane that shows `text` from its first line.
    pub fn new(text: String) -> (pane: Self)
        ensures
            pane.text_view() == text@,
            pane.scroll_view() == 0,
    {
        PreviewState { text, scroll: 0 }
    }

    /// The text on show.
    pub fn text(&self) -> (t: &str)
        ensures
            t@ == self.text_view(),
    {
        self.text.as_str()
    }

    /// The scroll offset.
    pub fn scroll(&self) -> (offset: u16)
        ensures
            offset as nat == self.scroll_view(),
    {
        self.scroll
    }

    /// Shows `text` in place of what was shown, from its first line.
    pub fn show(&mut self, text: String)
        ensures
            final(self).text_view() == text@,
            final(self).scroll_view() == 0,
    {
        self.text = text;
        self.scroll = 0;
    }

    /// Scrolls one line down. At the largest offset the pane stays.
    pub fn scroll_down(&mut self)
        ensures
            final(self).text_view() == old(self).text_view(),
            final(self).scroll_view() == scrolled_down(old(self).scroll_view()),
    {
        self.scroll = self.scroll.saturating_add(1);
    }

    /// Scrolls one line up. At the first line the pane stays.
    pub fn scroll_up(&mut self)
        ensures
            final(self).text_view() == old(self).text_view(),
            final(self).scroll_view() == scrolled_up(old(self).scroll_view()),
    {
        self.scroll = self.scroll.saturating_sub(1);
    }
}

/// Scrolling up never takes the offset below the first line: from the
/// first line, any number of steps up ends at the first line, and from
/// anywhere the offset only falls and stops at 0.
pub proof fn lemma_scroll_up_stops_at_zero(offset: nat, steps: nat)
    ensures
        scrolled_up_times(0, steps) == 0,
        scrolled_up_times(offset, steps) == (if steps <= offset {
            (offset - steps) as nat
        } else {
            0
        }),
    decreases steps,
{
    if steps > 0 {
        lemma_scroll_up_stops_at_zero(offset, (steps - 1) as nat);
    }
}

} // verus!
