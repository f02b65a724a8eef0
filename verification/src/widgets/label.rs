//! The text label: its text and which font size it uses.
use vstd::prelude::*;
use crate::theme::FontRole;

verus! {

/// A line of text, in the body size or the small one.
pub struct Label {
    text: String,
    small: bool,
}

impl Label {
    /// The label's text.
    pub closed spec fn text_view(&self) -> Seq<char> {
        self.text@
    }

    /// Whether the label uses the small font size.
    pub closed spec fn is_small(&self) -> bool {
        self.small
    }

    /// A label in the body size.
    pub fn new(text: String) -> (l: Label)
        ensures
            l.text_view() == text@,
            !l.is_small(),
    {
        Label { text, small: false }
    }

    /// The same label in the small size.
    pub fn small(self) -> (l: Label)
        ensures
            l.text_view() == self.text_view(),
            l.is_small(),
    {
        Label { text: self.text, small: true }
    }

    /// The label's text.
    pub fn text(&self) -> (t: &str)
        ensures
            t@ == self.text_view(),
    {
        self.text.as_str()
    }

    /// The font size the label uses: the small one for a small label.
    pub fn font_role(&self) -> (f: FontRole)
        ensures
            f == (if self.is_small() {
                FontRole::Small
            } else {
                FontRole::Normal
            }),
    {
        if self.small {
            FontRole::Small
        } else {
            FontRole::Normal
        }
    }
}

} // verus!
