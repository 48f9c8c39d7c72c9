//! The house: three shutters, the operating mode, and the three daily
//! policies that decide which shutter is commanded on a poll.

use crate::clock::{local_reading, local_time, paris_wall_clock, TimeOfDay};
use crate::latch::{DayLatch, ResetWindow, TriggerWindow};
use crate::shutter::{middle_train, pulses, Shutter, Step, CLOSE_PULSES, OPEN_PULSES};
use crate::weather::WeatherData;
use vstd::prelude::*;

verus! {

/// Seconds between two polls of a policy.
pub const POLL_INTERVAL_SECONDS: u64 = 300;

/// Minutes between a solar event and the action that follows it.
pub const SUN_OFFSET_MINUTES: u32 = 15;

/// Hour in whose first minutes the sunrise and sunset latches are cleared.
pub const SUN_RESET_HOUR: u32 = 0;

/// First hour of the day in which the comfort policy may act.
pub const COMFORT_FIRST_HOUR: u32 = 10;

/// Hour at which the comfort policy stops acting, and in whose first minutes
/// its latch is cleared.
pub const COMFORT_END_HOUR: u32 = 18;

/// Last minute of a reset window.
pub const RESET_LAST_MINUTE: u32 = 9;

/// The behaviour profile chosen by the household.
#[derive(Clone, Copy, Debug, PartialEq, Eq, Structural)]
pub enum HouseMode {
    Auto,
    Absence,
    Party,
}

impl HouseMode {
    /// The mode that a number stands for on the command surface: the modes
    /// are numbered from zero in the order Auto, Absence, Party.
    pub open spec fn of_code(code: u32) -> Option<HouseMode> {
        if code == 0 {
            Some(HouseMode::Auto)
        } else if code == 1 {
            Some(HouseMode::Absence)
        } else if code == 2 {
            Some(HouseMode::Party)
        } else {
            None
        }
    }

    /// Decodes a mode received from the command surface. Numbers that stand
    /// for no mode are refused.
    pub fn from_code(code: u32) -> (r: Option<HouseMode>)
        ensures
            r == HouseMode::of_code(code),
    {
        match code {
            0 => Some(HouseMode::Auto),
            1 => Some(HouseMode::Absence),
            2 => Some(HouseMode::Party),
            _ => None,
        }
    }
}

/// The three shutters of the house.
#[derive(Clone, Copy, Debug, PartialEq, Eq, Structural)]
pub enum ShutterId {
    LivingRoom,
    LowerBedroom,
    UpperBedroom,
}

/// What a shutter can be told to do.
#[derive(Clone, Copy, Debug, PartialEq, Eq, Structural)]
pub enum Action {
    Open,
    Close,
    Middle,
}

/// An order for one shutter.
#[derive(Clone, Copy, Debug, PartialEq, Eq, Structural)]
pub struct Command {
    pub shutter: ShutterId,
    pub action: Action,
}

/// The window in which the sunrise and sunset latches are cleared.
pub open spec fn sun_reset() -> ResetWindow {
    ResetWindow { hour: SUN_RESET_HOUR, last_minute: RESET_LAST_MINUTE }
}

/// The window in which the comfort latch is cleared.
pub open spec fn comfort_reset() -> ResetWindow {
    ResetWindow { hour: COMFORT_END_HOUR, last_minute: RESET_LAST_MINUTE }
}

/// The hours in which the comfort policy may act.
pub open spec fn comfort_window() -> TriggerWindow {
    TriggerWindow::Hours { start: COMFORT_FIRST_HOUR, end: COMFORT_END_HOUR }
}

/// The action that follows a solar event is due at `now`: the day has the
/// event, and `now` is in the hour of the event's reading moved on by the
/// offset, at or past its minute.
pub open spec fn sun_due(now: TimeOfDay, event: Option<TimeOfDay>) -> bool {
    match event {
        Some(e) => TriggerWindow::Threshold(e.plus_minutes_spec(SUN_OFFSET_MINUTES)).contains(now),
        None => false,
    }
}

/// The comfort action is due at `now`: inside the comfort hours, under
/// comfortable weather.
pub open spec fn comfort_due(now: TimeOfDay, weather: WeatherData) -> bool {
    comfort_window().contains(now) && weather.comfortable()
}

/// The same action for every shutter, living room first.
pub open spec fn all_commands(action: Action) -> Seq<Command> {
    seq![
        Command { shutter: ShutterId::LivingRoom, action },
        Command { shutter: ShutterId::LowerBedroom, action },
        Command { shutter: ShutterId::UpperBedroom, action },
    ]
}

/// What sunset orders: both bedrooms close, and the living room before them
/// unless a party is on.
pub open spec fn sunset_commands(mode: HouseMode) -> Seq<Command> {
    if mode == HouseMode::Party {
        seq![
            Command { shutter: ShutterId::LowerBedroom, action: Action::Close },
            Command { shutter: ShutterId::UpperBedroom, action: Action::Close },
        ]
    } else {
        all_commands(Action::Close)
    }
}

/// What sunrise orders: nothing during a party, the living room otherwise,
/// and the bedrooms after it only while the household is away.
pub open spec fn sunrise_commands(mode: HouseMode) -> Seq<Command> {
    match mode {
        HouseMode::Party => Seq::empty(),
        HouseMode::Auto => seq![Command { shutter: ShutterId::LivingRoom, action: Action::Open }],
        HouseMode::Absence => all_commands(Action::Open),
    }
}

/// What comfortable weather orders: living room and upper bedroom half open.
pub open spec fn comfort_commands() -> Seq<Command> {
    seq![
        Command { shutter: ShutterId::LivingRoom, action: Action::Middle },
        Command { shutter: ShutterId::UpperBedroom, action: Action::Middle },
    ]
}

/// Tests whether the action that follows a solar event is due.
pub fn sun_reached(now: TimeOfDay, event: Option<TimeOfDay>) -> (r: bool)
    ensures
        r == sun_due(now, event),
{
    match event {
        Some(e) => TriggerWindow::Threshold(e.plus_minutes(SUN_OFFSET_MINUTES)).covers(now),
        None => false,
    }
}

/// Builds the same action for every shutter.
pub fn command_all(action: Action) -> (cmds: Vec<Command>)
    ensures
        cmds@ == all_commands(action),
{
    let mut cmds: Vec<Command> = Vec::new();
    cmds.push(Command { shutter: ShutterId::LivingRoom, action });
    cmds.push(Command { shutter: ShutterId::LowerBedroom, action });
    cmds.push(Command { shutter: ShutterId::UpperBedroom, action });
    assert(cmds@ =~= all_commands(action));
    cmds
}

/// The house and the volatile state of its three policies.
#[derive(Clone, Copy, Debug, PartialEq, Eq, Structural)]
pub struct House {
    /// Living-room shutter.
    pub pdv: Shutter,
    /// Lower-bedroom shutter.
    pub chambre_bas: Shutter,
    /// Upper-bedroom shutter.
    pub chambre_haut: Shutter,
    /// Latch of the comfort policy.
    pub weather_latch: DayLatch,
    /// Latch of the sunset policy.
    pub sunset_latch: DayLatch,
    /// Latch of the sunrise policy.
    pub sunrise_latch: DayLatch,
    /// Operating mode, read on every poll.
    pub mode: HouseMode,
}

impl House {
    /// The shutter that an identity stands for.
    pub open spec fn shutter_spec(self, id: ShutterId) -> Shutter {
        match id {
            ShutterId::LivingRoom => self.pdv,
            ShutterId::LowerBedroom => self.chambre_bas,
            ShutterId::UpperBedroom => self.chambre_haut,
        }
    }

    /// The pulse train that carries out a command.
    pub open spec fn train_spec(self, command: Command) -> Seq<Step> {
        let pin = self.shutter_spec(command.shutter).pin();
        match command.action {
            Action::Open => pulses(pin, OPEN_PULSES as nat),
            Action::Close => pulses(pin, CLOSE_PULSES as nat),
            Action::Middle => middle_train(pin),
        }
    }

    /// The orders of a sunset poll: those of sunset when the closing is due
    /// and has not happened today, none otherwise.
    pub open spec fn sunset_poll_commands(self, now: TimeOfDay, sunset: Option<TimeOfDay>) -> Seq<
        Command,
    > {
        if self.sunset_latch.fires(sun_due(now, sunset)) {
            sunset_commands(self.mode)
        } else {
            Seq::empty()
        }
    }

    /// The house after a sunset poll: only the sunset latch moves.
    pub open spec fn after_sunset_poll(self, now: TimeOfDay, sunset: Option<TimeOfDay>) -> House {
        House { sunset_latch: self.sunset_latch.step(now, sun_due(now, sunset), sun_reset()), ..self }
    }

    /// The orders of a sunrise poll: those of sunrise when the opening is due
    /// and has not happened today, none otherwise.
    pub open spec fn sunrise_poll_commands(self, now: TimeOfDay, sunrise: Option<TimeOfDay>) -> Seq<
        Command,
    > {
        if self.sunrise_latch.fires(sun_due(now, sunrise)) {
            sunrise_commands(self.mode)
        } else {
            Seq::empty()
        }
    }

    /// The house after a sunrise poll: only the sunrise latch moves.
    pub open spec fn after_sunrise_poll(self, now: TimeOfDay, sunrise: Option<TimeOfDay>) -> House {
        House {
            sunrise_latch: self.sunrise_latch.step(now, sun_due(now, sunrise), sun_reset()),
            ..self
        }
    }

    /// The orders of a comfort poll: the comfort orders when they are due and
    /// have not been given since the last reset, none otherwise. The mode is
    /// not consulted.
    pub open spec fn weather_poll_commands(self, now: TimeOfDay, weather: WeatherData) -> Seq<
        Command,
    > {
        if self.weather_latch.fires(comfort_due(now, weather)) {
            comfort_commands()
        } else {
            Seq::empty()
        }
    }

    /// The house after a comfort poll: only the comfort latch moves.
    pub open spec fn after_weather_poll(self, now: TimeOfDay, weather: WeatherData) -> House {
        House {
            weather_latch: self.weather_latch.step(
                now,
                comfort_due(now, weather),
                comfort_reset(),
            ),
            ..self
        }
    }

    /// A house with its three shutters, in the given mode, none of whose
    /// policies has acted yet.
    pub fn new(pdv: Shutter, chambre_bas: Shutter, chambre_haut: Shutter, mode: HouseMode) -> (r:
        House)
        ensures
            r == (House {
                pdv,
                chambre_bas,
                chambre_haut,
                weather_latch: DayLatch { fired: false },
                sunset_latch: DayLatch { fired: false },
                sunrise_latch: DayLatch { fired: false },
                mode,
            }),
    {
        House {
            pdv,
            chambre_bas,
            chambre_haut,
            weather_latch: DayLatch::new(),
            sunset_latch: DayLatch::new(),
            sunrise_latch: DayLatch::new(),
            mode,
        }
    }

    /// One poll of the sunset policy at the local reading `now`, with the
    /// local reading of today's sunset where the day has one.
    pub fn close_with_sun_at(&mut self, now: TimeOfDay, sunset: Option<TimeOfDay>) -> (cmds: Vec<
        Command,
    >)
        ensures
            cmds@ == old(self).sunset_poll_commands(now, sunset),
            *final(self) == old(self).after_sunset_poll(now, sunset),
    {
        let due = sun_reached(now, sunset);
        let reset = ResetWindow { hour: SUN_RESET_HOUR, last_minute: RESET_LAST_MINUTE };
        let acted = self.sunset_latch.poll(now, due, reset);
        let mut cmds: Vec<Command> = Vec::new();
        if acted {
            match self.mode {
                HouseMode::Party => {},
                _ => {
                    cmds.push(Command { shutter: ShutterId::LivingRoom, action: Action::Close });
                },
            }
            cmds.push(Command { shutter: ShutterId::LowerBedroom, action: Action::Close });
            cmds.push(Command { shutter: ShutterId::UpperBedroom, action: Action::Close });
        }
        assert(cmds@ =~= old(self).sunset_poll_commands(now, sunset));
        cmds
    }

    /// One poll of the sunset policy at a UTC instant, with the UTC instant
    /// of today's sunset where the day has one, both in seconds since the
    /// Unix epoch. A present that the calendar cannot represent is skipped.
    pub fn close_with_sun(&mut self, now_utc: i64, sunset_utc: Option<i64>) -> (cmds: Vec<Command>)
        ensures
            match paris_wall_clock(now_utc as int) {
                Some(now) => cmds@ == old(self).sunset_poll_commands(now, local_reading(sunset_utc))
                    && *final(self) == old(self).after_sunset_poll(now, local_reading(sunset_utc)),
                None => cmds@ == Seq::<Command>::empty() && *final(self) == *old(self),
            },
    {
        match local_time(Some(now_utc)) {
            Some(now) => {
                let sunset = local_time(sunset_utc);
                self.close_with_sun_at(now, sunset)
            },
            None => Vec::new(),
        }
    }

    /// One poll of the sunrise policy at the local reading `now`, with the
    /// local reading of today's sunrise where the day has one.
    pub fn open_with_sun_at(&mut self, now: TimeOfDay, sunrise: Option<TimeOfDay>) -> (cmds: Vec<
        Command,
    >)
        ensures
            cmds@ == old(self).sunrise_poll_commands(now, sunrise),
            *final(self) == old(self).after_sunrise_poll(now, sunrise),
    {
        let due = sun_reached(now, sunrise);
        let reset = ResetWindow { hour: SUN_RESET_HOUR, last_minute: RESET_LAST_MINUTE };
        let acted = self.sunrise_latch.poll(now, due, reset);
        let mut cmds: Vec<Command> = Vec::new();
        if acted {
            match self.mode {
                HouseMode::Party => {},
                HouseMode::Auto => {
                    cmds.push(Command { shutter: ShutterId::LivingRoom, action: Action::Open });
                },
                HouseMode::Absence => {
                    cmds.push(Command { shutter: ShutterId::LivingRoom, action: Action::Open });
                    cmds.push(Command { shutter: ShutterId::LowerBedroom, action: Action::Open });
                    cmds.push(Command { shutter: ShutterId::UpperBedroom, action: Action::Open });
                },
            }
        }
        assert(cmds@ =~= old(self).sunrise_poll_commands(now, sunrise));
        cmds
    }

    /// One poll of the sunrise policy at a UTC instant, with the UTC instant
    /// of today's sunrise where the day has one, both in seconds since the
    /// Unix epoch. A present that the calendar cannot represent is skipped.
    pub fn open_with_sun(&mut self, now_utc: i64, sunrise_utc: Option<i64>) -> (cmds: Vec<Command>)
        ensures
            match paris_wall_clock(now_utc as int) {
                Some(now) => cmds@ == old(self).sunrise_poll_commands(
                    now,
                    local_reading(sunrise_utc),
                ) && *final(self) == old(self).after_sunrise_poll(now, local_reading(sunrise_utc)),
                None => cmds@ == Seq::<Command>::empty() && *final(self) == *old(self),
            },
    {
        match local_time(Some(now_utc)) {
            Some(now) => {
                let sunrise = local_time(sunrise_utc);
                self.open_with_sun_at(now, sunrise)
            },
            None => Vec::new(),
        }
    }

    /// One poll of the comfort policy at the local reading `now`, under the
    /// latest weather observation.
    pub fn check_weather_and_operate_shutter_at(&mut self, now: TimeOfDay, weather: &WeatherData) -> (cmds:
        Vec<Command>)
        ensures
            cmds@ == old(self).weather_poll_commands(now, *weather),
            *final(self) == old(self).after_weather_poll(now, *weather),
    {
        let window = TriggerWindow::Hours { start: COMFORT_FIRST_HOUR, end: COMFORT_END_HOUR };
        let due = window.covers(now) && weather.is_comfortable();
        let reset = ResetWindow { hour: COMFORT_END_HOUR, last_minute: RESET_LAST_MINUTE };
        let acted = self.weather_latch.poll(now, due, reset);
        let mut cmds: Vec<Command> = Vec::new();
        if acted {
            cmds.push(Command { shutter: ShutterId::LivingRoom, action: Action::Middle });
            cmds.push(Command { shutter: ShutterId::UpperBedroom, action: Action::Middle });
        }
        assert(cmds@ =~= old(self).weather_poll_commands(now, *weather));
        cmds
    }

    /// One poll of the comfort policy at a UTC instant, in seconds since the
    /// Unix epoch, under the latest weather observation. A present that the
    /// calendar cannot represent is skipped.
    pub fn check_weather_and_operate_shutter(&mut self, now_utc: i64, weather: &WeatherData) -> (cmds:
        Vec<Command>)
        ensures
            match paris_wall_clock(now_utc as int) {
                Some(now) => cmds@ == old(self).weather_poll_commands(now, *weather) && *final(self)
                    == old(self).after_weather_poll(now, *weather),
                None => cmds@ == Seq::<Command>::empty() && *final(self) == *old(self),
            },
    {
        match local_time(Some(now_utc)) {
            Some(now) => self.check_weather_and_operate_shutter_at(now, weather),
            None => Vec::new(),
        }
    }

    /// Replaces the operating mode. No shutter moves and no latch changes.
    pub fn set_mode(&mut self, new_mode: HouseMode)
        ensures
            *final(self) == (House { mode: new_mode, ..*old(self) }),
    {
        self.mode = new_mode;
    }

    /// Orders every shutter to open.
    pub fn open_all(&self) -> (cmds: Vec<Command>)
        ensures
            cmds@ == all_commands(Action::Open),
    {
        command_all(Action::Open)
    }

    /// Orders every shutter to close.
    pub fn close_all(&self) -> (cmds: Vec<Command>)
        ensures
            cmds@ == all_commands(Action::Close),
    {
        command_all(Action::Close)
    }

    /// Orders every shutter to the half-open position.
    pub fn middle_all(&self) -> (cmds: Vec<Command>)
        ensures
            cmds@ == all_commands(Action::Middle),
    {
        command_all(Action::Middle)
    }

    /// The shutter that an identity stands for.
    pub fn shutter(&self, id: ShutterId) -> (r: Shutter)
        ensures
            r == self.shutter_spec(id),
    {
        match id {
            ShutterId::LivingRoom => self.pdv,
            ShutterId::LowerBedroom => self.chambre_bas,
            ShutterId::UpperBedroom => self.chambre_haut,
        }
    }

    /// The pulse train that carries out a command on this house's shutters.
    pub fn train(&self, command: Command) -> (steps: Vec<Step>)
        ensures
            steps@ == self.train_spec(command),
    {
        let target = self.shutter(command.shutter);
        match command.action {
            Action::Open => target.open(),
            Action::Close => target.close(),
            Action::Middle => target.middle(),
        }
    }
}

/// During a party a sunset poll never orders the living-room shutter, and
/// once the closing is due and has not happened today it orders exactly the
/// two bedroom shutters to close and sets the latch.
pub proof fn lemma_sunset_party_spares_living_room(
    house: House,
    now: TimeOfDay,
    sunset: Option<TimeOfDay>,
)
    requires
        house.mode == HouseMode::Party,
    ensures
        forall|i: int|
            0 <= i < house.sunset_poll_commands(now, sunset).len() ==> (
            #[trigger] house.sunset_poll_commands(now, sunset)[i]).shutter != ShutterId::LivingRoom,
        (sun_due(now, sunset) && !house.sunset_latch.fired) ==> {
            &&& house.sunset_poll_commands(now, sunset) == seq![
                Command { shutter: ShutterId::LowerBedroom, action: Action::Close },
                Command { shutter: ShutterId::UpperBedroom, action: Action::Close },
            ]
            &&& house.after_sunset_poll(now, sunset).sunset_latch.fired
        },
{
}

/// Outside a party, a sunset poll on which the closing is due and has not
/// happened today orders all three shutters to close, living room first.
pub proof fn lemma_sunset_closes_all_outside_party(
    house: House,
    now: TimeOfDay,
    sunset: Option<TimeOfDay>,
)
    requires
        house.mode != HouseMode::Party,
        sun_due(now, sunset),
        !house.sunset_latch.fired,
    ensures
        house.sunset_poll_commands(now, sunset) == all_commands(Action::Close),
        house.after_sunset_poll(now, sunset).sunset_latch.fired,
{
}

/// A sunrise poll on which the opening is due and has not happened today
/// orders all three shutters to open while the household is away, the living
/// room alone in automatic mode, and nothing during a party. In each mode the
/// latch is set.
pub proof fn lemma_sunrise_by_mode(house: House, now: TimeOfDay, sunrise: Option<TimeOfDay>)
    requires
        sun_due(now, sunrise),
        !house.sunrise_latch.fired,
    ensures
        house.mode == HouseMode::Absence ==> house.sunrise_poll_commands(now, sunrise)
            == all_commands(Action::Open),
        house.mode == HouseMode::Auto ==> house.sunrise_poll_commands(now, sunrise)
            == seq![Command { shutter: ShutterId::LivingRoom, action: Action::Open }],
        house.mode == HouseMode::Party ==> house.sunrise_poll_commands(now, sunrise)
            == Seq::<Command>::empty(),
        house.after_sunrise_poll(now, sunrise).sunrise_latch.fired,
{
}

/// A comfort poll gives orders exactly when its latch has not fired, the
/// hour is at least ten and below eighteen, the temperature has reached the
/// comfort minimum, and wind and cloud cover are below their limits. The
/// orders are then the two half-open orders, whatever the mode, and the latch
/// is set.
pub proof fn lemma_comfort_fires_iff(house: House, now: TimeOfDay, weather: WeatherData)
    ensures
        house.weather_poll_commands(now, weather).len() > 0 <==> {
            &&& !house.weather_latch.fired
            &&& 10 <= now.hour < 18
            &&& weather.temperature >= 18000
            &&& weather.wind_speed < 30000
            &&& weather.clouds < 75
        },
        house.weather_poll_commands(now, weather).len() > 0 ==> {
            &&& house.weather_poll_commands(now, weather) == comfort_commands()
            &&& house.after_weather_poll(now, weather).weather_latch.fired
        },
        house.weather_poll_commands(now, weather).len() == 0 ==> house.after_weather_poll(
            now,
            weather,
        ).weather_latch == house.weather_latch.reset_at(now, comfort_reset()),
{
}

/// Before the first observation arrives the comfort policy stays silent.
pub proof fn lemma_placeholder_weather_is_silent(house: House, now: TimeOfDay)
    ensures
        house.weather_poll_commands(
            now,
            WeatherData { temperature: 0, wind_speed: 0, clouds: 0 },
        ) == Seq::<Command>::empty(),
{
}

/// A policy whose latch has fired gives no further orders, and leaves the
/// house as it is, on every poll taken outside its reset window.
pub proof fn lemma_fired_policies_are_silent(
    house: House,
    now: TimeOfDay,
    sunset: Option<TimeOfDay>,
    sunrise: Option<TimeOfDay>,
    weather: WeatherData,
)
    ensures
        (house.sunset_latch.fired && !sun_reset().contains(now)) ==> {
            &&& house.sunset_poll_commands(now, sunset) == Seq::<Command>::empty()
            &&& house.after_sunset_poll(now, sunset) == house
        },
        (house.sunrise_latch.fired && !sun_reset().contains(now)) ==> {
            &&& house.sunrise_poll_commands(now, sunrise) == Seq::<Command>::empty()
            &&& house.after_sunrise_poll(now, sunrise) == house
        },
        (house.weather_latch.fired && !comfort_reset().contains(now)) ==> {
            &&& house.weather_poll_commands(now, weather) == Seq::<Command>::empty()
            &&& house.after_weather_poll(now, weather) == house
        },
{
}

/// A poll inside the reset window of a policy whose latch has fired clears
/// the latch and gives no orders.
pub proof fn lemma_reset_poll_is_silent(
    house: House,
    now: TimeOfDay,
    sunset: Option<TimeOfDay>,
    sunrise: Option<TimeOfDay>,
    weather: WeatherData,
)
    ensures
        (house.sunset_latch.fired && sun_reset().contains(now)) ==> {
            &&& house.sunset_poll_commands(now, sunset) == Seq::<Command>::empty()
            &&& !house.after_sunset_poll(now, sunset).sunset_latch.fired
        },
        (house.sunrise_latch.fired && sun_reset().contains(now)) ==> {
            &&& house.sunrise_poll_commands(now, sunrise) == Seq::<Command>::empty()
            &&& !house.after_sunrise_poll(now, sunrise).sunrise_latch.fired
        },
        (house.weather_latch.fired && comfort_reset().contains(now)) ==> {
            &&& house.weather_poll_commands(now, weather) == Seq::<Command>::empty()
            &&& !house.after_weather_poll(now, weather).weather_latch.fired
        },
{
}

/// A poll of one policy leaves the latches of the other two, the mode and
/// the shutters as they were, and a change of mode leaves every latch as it
/// was.
pub proof fn lemma_policies_are_independent(
    house: House,
    new_mode: HouseMode,
    now: TimeOfDay,
    sunset: Option<TimeOfDay>,
    sunrise: Option<TimeOfDay>,
    weather: WeatherData,
)
    ensures
        house.after_sunset_poll(now, sunset) == (House {
            sunset_latch: house.after_sunset_poll(now, sunset).sunset_latch,
            ..house
        }),
        house.after_sunrise_poll(now, sunrise) == (House {
            sunrise_latch: house.after_sunrise_poll(now, sunrise).sunrise_latch,
            ..house
        }),
        house.after_weather_poll(now, weather) == (House {
            weather_latch: house.after_weather_poll(now, weather).weather_latch,
            ..house
        }),
        (House { mode: new_mode, ..house }).sunset_latch == house.sunset_latch,
        (House { mode: new_mode, ..house }).sunrise_latch == house.sunrise_latch,
        (House { mode: new_mode, ..house }).weather_latch == house.weather_latch,
{
}

/// Changing the mode gives no orders by itself: a poll that was silent
/// because its latch had fired stays silent under every mode.
pub proof fn lemma_mode_change_does_not_retrigger(
    house: House,
    new_mode: HouseMode,
    now: TimeOfDay,
    sunset: Option<TimeOfDay>,
    sunrise: Option<TimeOfDay>,
)
    ensures
        house.sunset_latch.fired ==> (House { mode: new_mode, ..house }).sunset_poll_commands(
            now,
            sunset,
        ) == Seq::<Command>::empty(),
        house.sunrise_latch.fired ==> (House { mode: new_mode, ..house }).sunrise_poll_commands(
            now,
            sunrise,
        ) == Seq::<Command>::empty(),
{
}

} // verus!
