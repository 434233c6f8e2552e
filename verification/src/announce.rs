//! What is announced when a spin ends.
//!
//! While the wheel spins, the sector under the pointer is remembered frame
//! by frame. On the first frame on which the wheel rests, the sector that
//! was remembered last is announced, once, and the end screen is shown
//! until the next spin starts.

use vstd::prelude::*;

verus! {

/// What an announcer holds.
pub struct AnnouncerView {
    /// The sector seen on the last frame on which the wheel was spinning,
    /// until it has been announced.
    pub selected: Option<nat>,
    pub show_end_screen: bool,
}

/// The state after a frame on which the wheel was seen `spinning` with
/// the pointer on sector `index`.
pub open spec fn observed(state: AnnouncerView, spinning: bool, index: nat) -> AnnouncerView {
    if spinning {
        AnnouncerView { selected: Some(index), ..state }
    } else if state.selected is Some {
        AnnouncerView { selected: None, show_end_screen: true }
    } else {
        state
    }
}

/// The sector to announce on such a frame, if any.
pub open spec fn announced(state: AnnouncerView, spinning: bool) -> Option<nat> {
    if spinning {
        None
    } else {
        state.selected
    }
}

#[derive(Debug)]
pub struct Announcer {
    selected: Option<usize>,
    show_end_screen: bool,
}

impl View for Announcer {
    type V = AnnouncerView;

    closed spec fn view(&self) -> AnnouncerView {
        AnnouncerView {
            selected: match self.selected {
                Some(index) => Some(index as nat),
                None => None,
            },
            show_end_screen: self.show_end_screen,
        }
    }
}

impl Announcer {
    /// Nothing seen yet, nothing to show.
    pub fn new() -> (announcer: Self)
        ensures
            announcer@ == (AnnouncerView { selected: None, show_end_screen: false }),
    {
        Self { selected: None, show_end_screen: false }
    }

    /// Whether the end screen is to be drawn.
    pub fn show_end_screen(&self) -> (show: bool)
        ensures
            show == self@.show_end_screen,
    {
        self.show_end_screen
    }

    /// A spin has started: the end screen of the last one goes away.
    pub fn spin_started(&mut self)
        ensures
            final(self)@ == (AnnouncerView { show_end_screen: false, ..old(self)@ }),
    {
        self.show_end_screen = false;
    }

    /// Takes in one frame, after the wheel was ticked: whether it is
    /// still spinning, and the sector under the pointer. Returns the
    /// sector to announce, on the first resting frame after a spin.
    pub fn observe(&mut self, spinning: bool, index: usize) -> (announce: Option<usize>)
        ensures
            final(self)@ == observed(old(self)@, spinning, index as nat),
            match announce {
                Some(sector) => announced(old(self)@, spinning) == Some(sector as nat),
                None => announced(old(self)@, spinning) is None,
            },
    {
        if spinning {
            self.selected = Some(index);
            None
        } else {
            match self.selected {
                Some(sector) => {
                    self.selected = None;
                    self.show_end_screen = true;
                    Some(sector)
                },
                None => None,
            }
        }
    }
}

/// A sector is announced at most once: on the frame after an
/// announcement, nothing is announced unless the wheel spun again.
pub proof fn announced_once(state: AnnouncerView, index: nat)
    ensures
        announced(observed(state, false, index), false) is None,
{
}

/// What is announced is the sector seen on the last spinning frame.
pub proof fn announces_last_seen(state: AnnouncerView, seen: nat, index: nat)
    ensures
        announced(observed(state, true, seen), false) == Some(seen),
        observed(observed(state, true, seen), false, index).show_end_screen,
{
}

} // verus!
