//! The face that is on show, and what the buttons do to it.
//!
//! Two things happen around a running clock: a tick that draws the face and
//! the hands for the time it is given, and a poll of the players' buttons that
//! may ask for a new shuffle or for the end of the program. Both go through
//! one `Clock`. Its face is only ever replaced as a whole, and it is a
//! bijection at every moment.

use vstd::prelude::*;
use crate::permutation::{is_bijection, Permutation, PreconditionError};
use crate::resolver::{
    hour_angle, minute_angle, resolve_face, resolved, HandAngle, HOUR_TICKS_PER_TURN,
    MINUTE_TICKS_PER_TURN,
};
use crate::time::WallClockSample;

verus! {

/// What one poll of the controls shows, for the two players.
#[derive(Debug, Clone, Copy, PartialEq, Eq, Structural)]
pub struct ButtonPoll {
    /// Player one holds the menu button down.
    pub p1_menu_pressed: bool,
    /// Player two holds the menu button down.
    pub p2_menu_pressed: bool,
    /// Player one has pressed the first action button since the last poll.
    pub p1_action_just_pressed: bool,
    /// Player two has pressed the first action button since the last poll.
    pub p2_action_just_pressed: bool,
}

/// What a player can ask of the clock.
#[derive(Debug, Clone, Copy, PartialEq, Eq, Structural)]
pub enum ControlEvent {
    /// Shuffle the labels anew.
    Reshuffle,
    /// End the program.
    Exit,
}

/// What the caller is to do once an event has been handled.
#[derive(Debug, Clone, Copy, PartialEq, Eq, Structural)]
pub enum Action {
    /// Go on ticking, with the face as it now is.
    Continue,
    /// End the process.
    Terminate,
}

/// The event that a poll amounts to. Either menu button ends the program and
/// goes before anything else; either action button asks for a shuffle.
pub open spec fn event_of(poll: ButtonPoll) -> Option<ControlEvent> {
    if poll.p1_menu_pressed || poll.p2_menu_pressed {
        Some(ControlEvent::Exit)
    } else if poll.p1_action_just_pressed || poll.p2_action_just_pressed {
        Some(ControlEvent::Reshuffle)
    } else {
        None
    }
}

/// Reads a poll of the controls as an event, if it is one.
pub fn decode_poll(poll: &ButtonPoll) -> (event: Option<ControlEvent>)
    ensures
        event == event_of(*poll),
{
    if poll.p1_menu_pressed || poll.p2_menu_pressed {
        Some(ControlEvent::Exit)
    } else if poll.p1_action_just_pressed || poll.p2_action_just_pressed {
        Some(ControlEvent::Reshuffle)
    } else {
        None
    }
}

/// The clock on show: the face that ticks read and reshuffles replace.
#[derive(Debug)]
pub struct Clock {
    face: Permutation,
}

impl View for Clock {
    type V = Seq<u8>;

    closed spec fn view(&self) -> Seq<u8> {
        self.face@
    }
}

impl Clock {
    #[verifier::type_invariant]
    spec fn face_is_bijection(self) -> bool {
        self.face.wf()
    }

    /// A clock with a freshly shuffled face.
    pub fn new() -> (clock: Clock)
        ensures
            is_bijection(clock@),
    {
        Clock::with_face(Permutation::generate())
    }

    /// A clock that shows `face`.
    pub fn with_face(face: Permutation) -> (clock: Clock)
        requires
            face.wf(),
        ensures
            clock@ == face@,
    {
        Clock { face }
    }

    /// Puts `face` on show in place of the old face, as a whole: nothing of
    /// the old face is left, whatever it was.
    pub fn install(&mut self, face: Permutation)
        requires
            face.wf(),
        ensures
            final(self)@ == face@,
    {
        self.face = face;
    }

    /// The face on show.
    pub fn face(&self) -> (face: &Permutation)
        ensures
            face@ == self@,
            face.wf(),
    {
        proof {
            use_type_invariant(self);
        }
        &self.face
    }

    /// Handles one event. A reshuffle draws a new face and installs it in
    /// place of the old one; an exit leaves the face alone and tells the
    /// caller to end the process. Which face a reshuffle draws is left to
    /// chance; whatever the event, the face is a bijection afterwards.
    pub fn handle(&mut self, event: ControlEvent) -> (action: Action)
        ensures
            is_bijection(final(self)@),
            event == ControlEvent::Exit ==> action == Action::Terminate && final(self)@ == old(
                self,
            )@,
            event == ControlEvent::Reshuffle ==> action == Action::Continue,
    {
        proof {
            use_type_invariant(&*self);
        }
        match event {
            ControlEvent::Reshuffle => {
                self.install(Permutation::generate());
                Action::Continue
            },
            ControlEvent::Exit => Action::Terminate,
        }
    }

    /// One tick: the angles of both hands at `time` on the face on show.
    pub fn tick(&self, time: &WallClockSample) -> (hands: HandAngle)
        ensures
            hands.hour == hour_angle(self@, time@),
            hands.minute == minute_angle(self@, time@),
            hands.hour < HOUR_TICKS_PER_TURN,
            hands.minute < MINUTE_TICKS_PER_TURN,
            resolved(self@, time@) == Ok::<HandAngle, PreconditionError>(hands),
    {
        proof {
            use_type_invariant(self);
        }
        resolve_face(&self.face, time)
    }
}

} // verus!
