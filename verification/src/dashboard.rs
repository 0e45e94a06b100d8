//! The state of the terminal dashboard: a counter that stops at its bounds
//! instead of wrapping, a quit flag, and the last message received.
use vstd::prelude::*;

verus! {

/// The counter after one step up: one more, or unchanged at the top.
pub open spec fn counter_up(c: u8) -> u8 {
    if c < u8::MAX {
        (c + 1) as u8
    } else {
        c
    }
}

/// The counter after one step down: one less, or unchanged at zero.
pub open spec fn counter_down(c: u8) -> u8 {
    if c > 0 {
        (c - 1) as u8
    } else {
        c
    }
}

/// What the dashboard shows and whether it is to stop.
pub struct App {
    pub counter: u8,
    pub should_quit: bool,
    pub last_message: String,
}

impl App {
    /// A dashboard at counter zero, running, with no message yet.
    pub fn new() -> (app: App)
        ensures
            app.counter == 0,
            !app.should_quit,
            app.last_message@ == Seq::<char>::empty(),
    {
        App { counter: 0, last_message: String::new(), should_quit: false }
    }

    /// Takes in what the message channel gave on a tick: a message replaces
    /// the last one; nothing leaves the state as it was.
    pub fn tick(&mut self, data: Option<String>)
        ensures
            final(self).counter == old(self).counter,
            final(self).should_quit == old(self).should_quit,
            final(self).last_message == (match data {
                Some(s) => s,
                None => old(self).last_message,
            }),
    {
        if let Some(data) = data {
            self.last_message = data;
        }
    }

    /// Marks the dashboard to stop.
    pub fn quit(&mut self)
        ensures
            final(self).should_quit,
            final(self).counter == old(self).counter,
            final(self).last_message == old(self).last_message,
    {
        self.should_quit = true;
    }

    /// Steps the counter down, stopping at zero.
    pub fn decrement_counter(&mut self)
        ensures
            final(self).counter == counter_down(old(self).counter),
            final(self).should_quit == old(self).should_quit,
            final(self).last_message == old(self).last_message,
    {
        if let Some(res) = self.counter.checked_sub(1) {
            self.counter = res;
        }
    }

    /// Steps the counter up, stopping at 255.
    pub fn increment_counter(&mut self)
        ensures
            final(self).counter == counter_up(old(self).counter),
            final(self).should_quit == old(self).should_quit,
            final(self).last_message == old(self).last_message,
    {
        if let Some(res) = self.counter.checked_add(1) {
            self.counter = res;
        }
    }

    /// Takes in what the message channel gave: a message replaces the last
    /// one; nothing leaves the state as it was.
    pub fn read_from_receiver(&mut self, data: Option<String>)
        ensures
            final(self).counter == old(self).counter,
            final(self).should_quit == old(self).should_quit,
            final(self).last_message == (match data {
                Some(s) => s,
                None => old(self).last_message,
            }),
    {
        if let Some(data) = data {
            self.last_message = data;
        }
    }
}

/// A step up followed by a step down gives back the counter, below the top.
pub proof fn lemma_up_then_down(c: u8)
    requires
        c < u8::MAX,
    ensures
        counter_down(counter_up(c)) == c,
{
}

/// A step down followed by a step up gives back the counter, above zero.
pub proof fn lemma_down_then_up(c: u8)
    requires
        c > 0,
    ensures
        counter_up(counter_down(c)) == c,
{
}

/// The counter never wraps: a step up never lowers it and a step down never
/// raises it, and each moves it by at most one.
pub proof fn lemma_counter_never_wraps(c: u8)
    ensures
        c <= counter_up(c) <= c + 1,
        c - 1 <= counter_down(c) <= c,
        counter_up(u8::MAX) == u8::MAX,
        counter_down(0) == 0,
{
}

} // verus!
