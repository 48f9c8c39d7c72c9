//! Histories: what holds of the house over any series of polls and mode
//! changes, in whatever order the three policies and the household take
//! their turns.

use crate::clock::TimeOfDay;
use crate::house::{comfort_due, comfort_reset, sun_due, sun_reset, Command, House, HouseMode};
use crate::latch::{DayLatch, ResetWindow};
use crate::weather::WeatherData;
use vstd::prelude::*;

verus! {

/// The three daily policies.
pub enum Policy {
    Sunset,
    Sunrise,
    Comfort,
}

/// Something that happens to the house.
pub enum Event {
    /// The sunset policy polls.
    SunsetPoll { now: TimeOfDay, sunset: Option<TimeOfDay> },
    /// The sunrise policy polls.
    SunrisePoll { now: TimeOfDay, sunrise: Option<TimeOfDay> },
    /// The comfort policy polls.
    WeatherPoll { now: TimeOfDay, weather: WeatherData },
    /// The household chooses a mode.
    ModeChange { mode: HouseMode },
}

impl Policy {
    /// The latch that the policy owns.
    pub open spec fn latch(self, house: House) -> DayLatch {
        match self {
            Policy::Sunset => house.sunset_latch,
            Policy::Sunrise => house.sunrise_latch,
            Policy::Comfort => house.weather_latch,
        }
    }

    /// The window in which the policy's latch is cleared.
    pub open spec fn reset(self) -> ResetWindow {
        match self {
            Policy::Sunset => sun_reset(),
            Policy::Sunrise => sun_reset(),
            Policy::Comfort => comfort_reset(),
        }
    }
}

impl Event {
    /// The reading at which the event polls `policy`, if it is a poll of
    /// that policy.
    pub open spec fn polls(self, policy: Policy) -> Option<TimeOfDay> {
        match self {
            Event::SunsetPoll { now, sunset } => if policy is Sunset {
                Some(now)
            } else {
                None
            },
            Event::SunrisePoll { now, sunrise } => if policy is Sunrise {
                Some(now)
            } else {
                None
            },
            Event::WeatherPoll { now, weather } => if policy is Comfort {
                Some(now)
            } else {
                None
            },
            Event::ModeChange { mode } => None,
        }
    }

    /// The event is a poll of `policy` that lies outside the policy's reset
    /// window, or no poll of `policy` at all.
    pub open spec fn spares_reset(self, policy: Policy) -> bool {
        match self.polls(policy) {
            Some(now) => !policy.reset().contains(now),
            None => true,
        }
    }

    /// The event makes `policy` act on `house`: it is a poll of that policy
    /// on which the policy's action is due and its latch has not fired.
    pub open spec fn triggers(self, house: House, policy: Policy) -> bool {
        match self {
            Event::SunsetPoll { now, sunset } => policy is Sunset && house.sunset_latch.fires(
                sun_due(now, sunset),
            ),
            Event::SunrisePoll { now, sunrise } => policy is Sunrise && house.sunrise_latch.fires(
                sun_due(now, sunrise),
            ),
            Event::WeatherPoll { now, weather } => policy is Comfort && house.weather_latch.fires(
                comfort_due(now, weather),
            ),
            Event::ModeChange { mode } => false,
        }
    }

    /// The orders that the event draws from `house`.
    pub open spec fn orders(self, house: House) -> Seq<Command> {
        match self {
            Event::SunsetPoll { now, sunset } => house.sunset_poll_commands(now, sunset),
            Event::SunrisePoll { now, sunrise } => house.sunrise_poll_commands(now, sunrise),
            Event::WeatherPoll { now, weather } => house.weather_poll_commands(now, weather),
            Event::ModeChange { mode } => Seq::empty(),
        }
    }

    /// The house after the event.
    pub open spec fn apply(self, house: House) -> House {
        match self {
            Event::SunsetPoll { now, sunset } => house.after_sunset_poll(now, sunset),
            Event::SunrisePoll { now, sunrise } => house.after_sunrise_poll(now, sunrise),
            Event::WeatherPoll { now, weather } => house.after_weather_poll(now, weather),
            Event::ModeChange { mode } => House { mode, ..house },
        }
    }
}

/// The house after a series of events, oldest first.
pub open spec fn after_all(house: House, events: Seq<Event>) -> House
    decreases events.len(),
{
    if events.len() == 0 {
        house
    } else {
        after_all(events[0].apply(house), events.skip(1))
    }
}

/// How many events of a series make `policy` act.
pub open spec fn actions(house: House, events: Seq<Event>, policy: Policy) -> nat
    decreases events.len(),
{
    if events.len() == 0 {
        0
    } else {
        let rest = actions(events[0].apply(house), events.skip(1), policy);
        if events[0].triggers(house, policy) {
            rest + 1
        } else {
            rest
        }
    }
}

/// All orders drawn by a series of events, in the order they are given.
pub open spec fn all_orders(house: House, events: Seq<Event>) -> Seq<Command>
    decreases events.len(),
{
    if events.len() == 0 {
        Seq::empty()
    } else {
        events[0].orders(house) + all_orders(events[0].apply(house), events.skip(1))
    }
}

/// An event draws orders only when it makes some policy act; an event that
/// makes a policy act sets that policy's latch.
pub proof fn lemma_orders_need_a_trigger(house: House, event: Event)
    ensures
        event.orders(house).len() > 0 ==> (event.triggers(house, Policy::Sunset) || event.triggers(
            house,
            Policy::Sunrise,
        ) || event.triggers(house, Policy::Comfort)),
        forall|policy: Policy| #[trigger]
            event.triggers(house, policy) ==> policy.latch(event.apply(house)).fired,
{
}

/// Once a policy's latch has fired, no series of events makes that policy
/// act again as long as none of its polls falls inside its reset window,
/// whatever the other policies and the household do meanwhile; the latch
/// stays fired throughout.
pub proof fn lemma_no_action_before_reset(house: House, events: Seq<Event>, policy: Policy)
    requires
        policy.latch(house).fired,
        forall|i: int| 0 <= i < events.len() ==> (#[trigger] events[i]).spares_reset(policy),
    ensures
        actions(house, events, policy) == 0,
        policy.latch(after_all(house, events)).fired,
    decreases events.len(),
{
    if events.len() > 0 {
        let rest = events.skip(1);
        assert(events[0].spares_reset(policy));
        assert forall|i: int| 0 <= i < rest.len() implies (#[trigger] rest[i]).spares_reset(
            policy,
        ) by {
            assert(rest[i] == events[i + 1]);
        }
        lemma_no_action_before_reset(events[0].apply(house), rest, policy);
    }
}

/// Over any series of events in which no poll of a policy falls inside its
/// reset window, the policy acts at most once.
pub proof fn lemma_one_action_between_resets(house: House, events: Seq<Event>, policy: Policy)
    requires
        forall|i: int| 0 <= i < events.len() ==> (#[trigger] events[i]).spares_reset(policy),
    ensures
        actions(house, events, policy) <= 1,
    decreases events.len(),
{
    if events.len() > 0 {
        let rest = events.skip(1);
        assert(events[0].spares_reset(policy));
        assert forall|i: int| 0 <= i < rest.len() implies (#[trigger] rest[i]).spares_reset(
            policy,
        ) by {
            assert(rest[i] == events[i + 1]);
        }
        let next = events[0].apply(house);
        if events[0].triggers(house, policy) {
            lemma_no_action_before_reset(next, rest, policy);
        } else {
            lemma_one_action_between_resets(next, rest, policy);
        }
    }
}

/// While all three latches have fired, a series of events none of whose
/// polls falls inside the polled policy's reset window draws no order at
/// all.
pub proof fn lemma_silence_after_firing(house: House, events: Seq<Event>)
    requires
        house.sunset_latch.fired,
        house.sunrise_latch.fired,
        house.weather_latch.fired,
        forall|i: int, policy: Policy|
            0 <= i < events.len() ==> (#[trigger] events[i].spares_reset(policy)),
    ensures
        all_orders(house, events) == Seq::<Command>::empty(),
    decreases events.len(),
{
    if events.len() > 0 {
        let rest = events.skip(1);
        assert(events[0].spares_reset(Policy::Sunset));
        assert(events[0].spares_reset(Policy::Sunrise));
        assert(events[0].spares_reset(Policy::Comfort));
        assert forall|i: int, policy: Policy| 0 <= i < rest.len() implies (
        #[trigger] rest[i].spares_reset(policy)) by {
            assert(rest[i] == events[i + 1]);
            assert(events[i + 1].spares_reset(policy));
        }
        lemma_silence_after_firing(events[0].apply(house), rest);
        assert(events[0].orders(house) =~= Seq::<Command>::empty());
    }
}

} // verus!
