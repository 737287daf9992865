//! Display widgets show information but are not interactive

use vstd::prelude::*;
use crate::toolkit::TkAction;

verus! {

/// A text label
pub struct Text {
    text: String,
}

impl View for Text {
    type V = Seq<char>;

    closed spec fn view(&self) -> Seq<char> {
        self.text@
    }
}

impl Text {
    /// A label that shows `text`.
    pub fn new(text: &str) -> (label: Text)
        ensures
            label@ == text@,
    {
        Text { text: text.to_owned() }
    }

    /// The text that the label shows.
    pub fn get_text(&self) -> (text: &str)
        ensures
            text@ == self@,
    {
        self.text.as_str()
    }

    /// Replaces the text that the label shows. The result says what the
    /// window must do for the new text to be seen.
    pub fn set_text(&mut self, text: &str) -> (action: TkAction)
        ensures
            final(self)@ == text@,
            action == TkAction::Redraw,
    {
        self.text = text.to_owned();
        TkAction::Redraw
    }
}

} // verus!
