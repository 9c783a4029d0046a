use vstd::prelude::*;
use crate::tabs::TabsState;

verus! {

/// A key press on the control surface, as far as the controls tell keys apart.
#[derive(Debug, Clone, Copy, PartialEq, Eq, Structural)]
pub enum Key {
    Char(char),
    Left,
    Right,
    Other,
}

/// The state of the control surface: the selected tab, a press counter, and
/// whether the user asked to quit.
pub struct Controls<'a> {
    pub counter: u8,
    pub exit: bool,
    pub tabs: TabsState<'a>,
}

impl<'a> Controls<'a> {
    pub open spec fn wf(&self) -> bool {
        self.tabs.titles@.len() > 0
    }

    /// Controls over the given tab titles, first tab selected, not quitting.
    pub fn new(titles: Vec<&'a str>) -> (r: Self)
        ensures
            r.counter == 0,
            !r.exit,
            r.tabs.titles@ == titles@,
            r.tabs.index == 0,
    {
        Controls { counter: 0, exit: false, tabs: TabsState::new(titles) }
    }

    /// Applies one key press: `q` quits, Left and Right step the counter
    /// (wrapping) and move to the previous or next tab; other keys change
    /// nothing. Returns whether this press asked to quit, in which case the
    /// caller clears the shared running flag.
    pub fn handle_key(&mut self, key: Key) -> (quit: bool)
        requires
            old(self).wf(),
        ensures
            final(self).wf(),
            final(self).tabs.titles@ == old(self).tabs.titles@,
            quit == (key == Key::Char('q')),
            final(self).exit == (old(self).exit || quit),
            key == Key::Left ==> final(self).counter == (old(self).counter + 255) % 256
                && final(self).tabs.index == (if old(self).tabs.index > 0 {
                    old(self).tabs.index - 1
                } else {
                    old(self).tabs.titles@.len() - 1
                }),
            key == Key::Right ==> final(self).counter == (old(self).counter + 1) % 256
                && final(self).tabs.index == (old(self).tabs.index + 1) % (old(self).tabs.titles@.len() as int),
            key != Key::Left && key != Key::Right ==> final(self).counter == old(self).counter
                && final(self).tabs.index == old(self).tabs.index,
    {
        match key {
            Key::Char('q') => {
                self.exit = true;
                true
            },
            Key::Left => {
                self.counter = self.counter.wrapping_sub(1);
                self.tabs.previous();
                false
            },
            Key::Right => {
                self.counter = self.counter.wrapping_add(1);
                self.tabs.next();
                false
            },
            _ => false,
        }
    }
}

} // verus!
