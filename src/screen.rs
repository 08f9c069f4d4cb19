use vstd::prelude::*;

verus! {

/// One line of text, drawn at a fixed font size.
#[derive(Clone, Debug, PartialEq, Eq)]
pub struct Label {
    pub content: String,
    pub size: u16,
}

impl View for Label {
    type V = (Seq<char>, u16);

    open spec fn view(&self) -> (Seq<char>, u16) {
        (self.content@, self.size)
    }
}

/// A vertical stack of labels, top to bottom, with a uniform padding around it.
#[derive(Clone, Debug, PartialEq, Eq)]
pub struct Stack {
    pub padding: u16,
    pub labels: Vec<Label>,
}

impl View for Stack {
    type V = (u16, Seq<(Seq<char>, u16)>);

    open spec fn view(&self) -> (u16, Seq<(Seq<char>, u16)>) {
        (self.padding, self.labels@.map_values(|l: Label| l@))
    }
}

/// The text that the greeting screen shows.
pub open spec fn greeting() -> Seq<char> {
    "Hello, world!"@
}

/// The font size of the greeting.
pub const GREETING_SIZE: u16 = 50;

/// The padding around the greeting's column.
pub const SCREEN_PADDING: u16 = 20;

/// The greeting screen: a single large label in a padded column.
pub open spec fn greeting_screen() -> (u16, Seq<(Seq<char>, u16)>) {
    (SCREEN_PADDING, seq![(greeting(), GREETING_SIZE)])
}

/// The title of the application's window.
pub open spec fn window_title() -> Seq<char> {
    "Hello World - Iced"@
}

} // verus!
