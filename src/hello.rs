use vstd::prelude::*;

use crate::screen::{greeting, greeting_screen, window_title, Label, Stack, GREETING_SIZE, SCREEN_PADDING};
use crate::toolkit::{column_drawn, no_task, render, task_is_empty};

verus! {

/// The application's state. It holds nothing: the screen never changes.
#[derive(Clone, Copy, Debug, PartialEq, Eq, Structural)]
pub struct HelloWorld;

impl HelloWorld {
    /// The state the application starts in.
    pub open spec fn initial() -> HelloWorld {
        HelloWorld
    }

    /// The state after a message has been handled.
    pub open spec fn next(self, message: ()) -> HelloWorld {
        self
    }

    /// The state after `n` messages have been handled, one after the other.
    pub open spec fn after_messages(self, n: nat) -> HelloWorld
        decreases n,
    {
        if n == 0 {
            self
        } else {
            self.after_messages((n - 1) as nat).next(())
        }
    }

    /// What the application draws in this state.
    pub open spec fn screen(self) -> (u16, Seq<(Seq<char>, u16)>) {
        greeting_screen()
    }

    /// Handles a message. Nothing changes, and no follow-up work is scheduled.
    pub fn update(&mut self, message: ()) -> (r: iced::Task<()>)
        ensures
            *final(self) == old(self).next(message),
            task_is_empty(r),
    {
        no_task()
    }

    /// Describes what the application draws: the greeting, large, in a padded column.
    pub fn layout(&self) -> (r: Stack)
        ensures
            r@ == self.screen(),
            r.padding == SCREEN_PADDING,
            r.labels@.len() == 1,
            r.labels@[0].content@ == greeting(),
            r.labels@[0].size == GREETING_SIZE,
    {
        let label = Label { content: "Hello, world!".to_owned(), size: GREETING_SIZE };
        let mut labels: Vec<Label> = Vec::new();
        labels.push(label);
        let r = Stack { padding: SCREEN_PADDING, labels };
        assert(r@.1 =~= seq![(greeting(), GREETING_SIZE)]);
        r
    }

    /// Builds the widget tree of the application's window from its layout.
    pub fn view(&self) -> (r: iced::Element<'static, (), iced::Theme, iced::Renderer>)
        ensures
            column_drawn(r) == self.screen(),
    {
        let stack = self.layout();
        render(&stack)
    }

    /// The title of the application's window.
    pub fn title(&self) -> (r: String)
        ensures
            r@ == window_title(),
    {
        "Hello World - Iced".to_owned()
    }
}

impl Default for HelloWorld {
    fn default() -> (r: HelloWorld)
        ensures
            r == HelloWorld::initial(),
    {
        HelloWorld
    }
}

/// Starting the application twice gives the same state: construction has no hidden inputs.
pub proof fn lemma_initial_state_is_unique(a: HelloWorld, b: HelloWorld)
    requires
        a == HelloWorld::initial(),
        b == HelloWorld::initial(),
    ensures
        a == b,
        a.screen() == b.screen(),
{
}

/// Handling a message, in any state, leaves the state as it was.
pub proof fn lemma_message_keeps_state(m: HelloWorld)
    ensures
        m.next(()) == m,
{
}

/// What is drawn depends on the state alone, and is always the greeting of size 50
/// in a column padded by 20.
pub proof fn lemma_screen_is_fixed(a: HelloWorld, b: HelloWorld)
    requires
        a == b,
    ensures
        a.screen() == b.screen(),
        a.screen().0 == 20,
        a.screen().1.len() == 1,
        a.screen().1[0] == (greeting(), 50u16),
{
}

/// However many messages arrive, the state and what is drawn stay as they were.
pub proof fn lemma_messages_keep_screen(m: HelloWorld, n: nat)
    ensures
        m.after_messages(n) == m,
        m.after_messages(n).screen() == m.screen(),
    decreases n,
{
    if n > 0 {
        lemma_messages_keep_screen(m, (n - 1) as nat);
    }
}

} // verus!
