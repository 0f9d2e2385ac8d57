//! Physical pins that can carry a timer channel.
use vstd::prelude::*;
use crate::timer::{Channel, TimerId};

verus! {

/// A pin wired to compare/output unit `channel` of timer `timer`.
pub struct TimerPin {
    timer: TimerId,
    channel: Channel,
    alternate: bool,
}

/// What a pin is: the unit it carries and whether it is switched to the timer.
pub ghost struct TimerPinView {
    pub timer: TimerId,
    pub channel: Channel,
    pub alternate: bool,
}

impl View for TimerPin {
    type V = TimerPinView;

    closed spec fn view(&self) -> TimerPinView {
        TimerPinView { timer: self.timer, channel: self.channel, alternate: self.alternate }
    }
}

impl TimerPin {
    #[verifier::type_invariant]
    spec fn inv(self) -> bool {
        self.timer.spec_has_channel(self.channel)
    }

    /// A pin for unit `channel` of `timer`, not yet switched to the timer;
    /// `None` where the instance has no such unit.
    pub fn new(timer: TimerId, channel: Channel) -> (r: Option<TimerPin>)
        ensures
            r is Some <==> timer.spec_has_channel(channel),
            r matches Some(p) ==> p@ == (TimerPinView { timer, channel, alternate: false }),
    {
        if timer.has_channel(channel) {
            Some(TimerPin { timer, channel, alternate: false })
        } else {
            None
        }
    }

    pub fn timer(&self) -> (r: TimerId)
        ensures
            r == self@.timer,
    {
        self.timer
    }

    /// The unit the pin carries, which is always one its timer has.
    pub fn channel(&self) -> (r: Channel)
        ensures
            r == self@.channel,
            self@.timer.spec_has_channel(r),
    {
        proof {
            use_type_invariant(self);
        }
        self.channel
    }

    /// Whether the pin is switched to its timer's output.
    pub fn is_alternate(&self) -> (r: bool)
        ensures
            r == self@.alternate,
    {
        self.alternate
    }

    /// Switches the pin to the alternate function that carries the timer output.
    pub fn setup(&mut self)
        ensures
            final(self)@ == (TimerPinView { alternate: true, ..old(self)@ }),
    {
        proof {
            use_type_invariant(&*self);
        }
        self.alternate = true;
    }
}

} // verus!
