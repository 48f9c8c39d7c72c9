use shutters::clock::TimeOfDay;
use shutters::house::{command_all, sun_reached, Action, Command, House, HouseMode, ShutterId};
use shutters::shutter::{Shutter, Step};
use shutters::weather::WeatherData;

fn house(mode: HouseMode) -> House {
    House::new(Shutter::new(18), Shutter::new(17), Shutter::new(27), mode)
}

fn at(hour: u32, minute: u32) -> TimeOfDay {
    TimeOfDay { hour, minute, second: 0 }
}

fn order(shutter: ShutterId, action: Action) -> Command {
    Command { shutter, action }
}

fn mild() -> WeatherData {
    WeatherData { temperature: 20000, wind_speed: 10000, clouds: 40 }
}

#[test]
fn new_house_has_no_latch_fired() {
    let h = house(HouseMode::Auto);
    assert!(!h.sunset_latch.fired);
    assert!(!h.sunrise_latch.fired);
    assert!(!h.weather_latch.fired);
    assert_eq!(h.mode, HouseMode::Auto);
    assert_eq!(h.pdv.number(), 18);
    assert_eq!(h.chambre_bas.number(), 17);
    assert_eq!(h.chambre_haut.number(), 27);
}

#[test]
fn sunset_in_auto_closes_all_three() {
    let mut h = house(HouseMode::Auto);
    let cmds = h.close_with_sun_at(at(18, 55), Some(at(18, 40)));
    assert_eq!(
        cmds,
        vec![
            order(ShutterId::LivingRoom, Action::Close),
            order(ShutterId::LowerBedroom, Action::Close),
            order(ShutterId::UpperBedroom, Action::Close),
        ]
    );
    assert!(h.sunset_latch.fired);
}

#[test]
fn sunset_in_auto_within_the_trigger_hour() {
    let mut h = house(HouseMode::Auto);
    let cmds = h.close_with_sun_at(at(18, 57), Some(at(18, 40)));
    assert_eq!(cmds, command_all(Action::Close));
    assert!(h.sunset_latch.fired);
}

#[test]
fn sunset_in_party_closes_bedrooms_only() {
    let mut h = house(HouseMode::Party);
    let cmds = h.close_with_sun_at(at(18, 58), Some(at(18, 40)));
    assert_eq!(
        cmds,
        vec![
            order(ShutterId::LowerBedroom, Action::Close),
            order(ShutterId::UpperBedroom, Action::Close),
        ]
    );
    assert!(h.sunset_latch.fired);
}

#[test]
fn sunset_in_absence_closes_all_three() {
    let mut h = house(HouseMode::Absence);
    let cmds = h.close_with_sun_at(at(19, 30), Some(at(18, 50)));
    assert_eq!(cmds, command_all(Action::Close));
}

#[test]
fn sunset_before_threshold_minute_is_silent() {
    let mut h = house(HouseMode::Auto);
    let cmds = h.close_with_sun_at(at(18, 54), Some(at(18, 40)));
    assert!(cmds.is_empty());
    assert!(!h.sunset_latch.fired);
}

#[test]
fn sunset_in_another_hour_is_silent() {
    let mut h = house(HouseMode::Auto);
    assert!(h.close_with_sun_at(at(19, 0), Some(at(18, 40))).is_empty());
    assert!(h.close_with_sun_at(at(20, 30), Some(at(18, 40))).is_empty());
    assert!(h.close_with_sun_at(at(17, 59), Some(at(18, 40))).is_empty());
    assert!(!h.sunset_latch.fired);
}

#[test]
fn sunset_unavailable_is_skipped() {
    let mut h = house(HouseMode::Auto);
    assert!(h.close_with_sun_at(at(19, 0), None).is_empty());
    assert!(!h.sunset_latch.fired);
}

#[test]
fn sunset_does_not_fire_twice() {
    let mut h = house(HouseMode::Auto);
    assert_eq!(h.close_with_sun_at(at(19, 5), Some(at(18, 50))).len(), 3);
    assert!(h.close_with_sun_at(at(19, 10), Some(at(18, 50))).is_empty());
    assert!(h.close_with_sun_at(at(19, 15), Some(at(18, 50))).is_empty());
    assert!(h.sunset_latch.fired);
}

#[test]
fn sunset_latch_resets_after_midnight() {
    let mut h = house(HouseMode::Auto);
    h.sunset_latch.fired = true;
    let cmds = h.close_with_sun_at(at(0, 5), Some(at(18, 40)));
    assert!(cmds.is_empty());
    assert!(!h.sunset_latch.fired);
}

#[test]
fn sunset_latch_keeps_after_reset_window() {
    let mut h = house(HouseMode::Auto);
    h.sunset_latch.fired = true;
    assert!(h.close_with_sun_at(at(0, 10), Some(at(18, 40))).is_empty());
    assert!(h.sunset_latch.fired);
    assert!(h.close_with_sun_at(at(0, 9), Some(at(18, 40))).is_empty());
    assert!(!h.sunset_latch.fired);
}

#[test]
fn sunset_fires_again_the_next_day() {
    let mut h = house(HouseMode::Auto);
    assert_eq!(h.close_with_sun_at(at(18, 55), Some(at(18, 40))).len(), 3);
    assert!(h.close_with_sun_at(at(0, 0), Some(at(18, 41))).is_empty());
    assert_eq!(h.close_with_sun_at(at(18, 56), Some(at(18, 41))).len(), 3);
}

#[test]
fn sunset_offset_carries_into_next_hour() {
    let mut h = house(HouseMode::Auto);
    assert!(h.close_with_sun_at(at(21, 59), Some(at(21, 50))).is_empty());
    assert_eq!(h.close_with_sun_at(at(22, 5), Some(at(21, 50))).len(), 3);
}

#[test]
fn sunset_polls_leave_other_latches_alone() {
    let mut h = house(HouseMode::Auto);
    h.weather_latch.fired = true;
    assert_eq!(h.close_with_sun_at(at(18, 56), Some(at(18, 40))).len(), 3);
    assert!(h.sunset_latch.fired);
    assert!(h.weather_latch.fired);
    assert!(!h.sunrise_latch.fired);
    assert_eq!(h.mode, HouseMode::Auto);
}

#[test]
fn sunrise_in_absence_opens_all_three() {
    let mut h = house(HouseMode::Absence);
    let cmds = h.open_with_sun_at(at(7, 20), Some(at(7, 0)));
    assert_eq!(
        cmds,
        vec![
            order(ShutterId::LivingRoom, Action::Open),
            order(ShutterId::LowerBedroom, Action::Open),
            order(ShutterId::UpperBedroom, Action::Open),
        ]
    );
    assert!(h.sunrise_latch.fired);
}

#[test]
fn sunrise_in_auto_opens_living_room_only() {
    let mut h = house(HouseMode::Auto);
    let cmds = h.open_with_sun_at(at(7, 15), Some(at(7, 0)));
    assert_eq!(cmds, vec![order(ShutterId::LivingRoom, Action::Open)]);
    assert!(h.sunrise_latch.fired);
}

#[test]
fn sunrise_in_party_opens_nothing_and_latches() {
    let mut h = house(HouseMode::Party);
    let cmds = h.open_with_sun_at(at(7, 15), Some(at(7, 0)));
    assert!(cmds.is_empty());
    assert!(h.sunrise_latch.fired);
}

#[test]
fn sunrise_too_early_or_unavailable_is_silent() {
    let mut h = house(HouseMode::Absence);
    assert!(h.open_with_sun_at(at(7, 14), Some(at(7, 0))).is_empty());
    assert!(h.open_with_sun_at(at(7, 30), None).is_empty());
    assert!(!h.sunrise_latch.fired);
}

#[test]
fn sunrise_does_not_fire_twice_and_resets() {
    let mut h = house(HouseMode::Auto);
    assert_eq!(h.open_with_sun_at(at(7, 15), Some(at(7, 0))).len(), 1);
    assert!(h.open_with_sun_at(at(7, 20), Some(at(7, 0))).is_empty());
    assert!(h.open_with_sun_at(at(0, 3), Some(at(7, 0))).is_empty());
    assert!(!h.sunrise_latch.fired);
    assert_eq!(h.open_with_sun_at(at(7, 16), Some(at(7, 1))).len(), 1);
}

#[test]
fn comfort_fires_in_mild_weather() {
    let mut h = house(HouseMode::Auto);
    let cmds = h.check_weather_and_operate_shutter_at(at(14, 0), &mild());
    assert_eq!(
        cmds,
        vec![
            order(ShutterId::LivingRoom, Action::Middle),
            order(ShutterId::UpperBedroom, Action::Middle),
        ]
    );
    assert!(h.weather_latch.fired);
}

#[test]
fn comfort_is_silent_once_fired() {
    let mut h = house(HouseMode::Auto);
    h.weather_latch.fired = true;
    let cmds = h.check_weather_and_operate_shutter_at(at(14, 0), &mild());
    assert!(cmds.is_empty());
    assert!(h.weather_latch.fired);
}

#[test]
fn comfort_ignores_the_mode() {
    let mut party = house(HouseMode::Party);
    let mut away = house(HouseMode::Absence);
    assert_eq!(party.check_weather_and_operate_shutter_at(at(10, 0), &mild()).len(), 2);
    assert_eq!(away.check_weather_and_operate_shutter_at(at(17, 59), &mild()).len(), 2);
}

#[test]
fn comfort_window_bounds() {
    let mut h = house(HouseMode::Auto);
    assert!(h.check_weather_and_operate_shutter_at(at(9, 59), &mild()).is_empty());
    assert!(h.check_weather_and_operate_shutter_at(at(18, 0), &mild()).is_empty());
    assert!(!h.weather_latch.fired);
    assert_eq!(h.check_weather_and_operate_shutter_at(at(10, 0), &mild()).len(), 2);
}

#[test]
fn comfort_thresholds() {
    let now = at(12, 0);
    let cold = WeatherData { temperature: 17999, wind_speed: 10000, clouds: 40 };
    let windy = WeatherData { temperature: 20000, wind_speed: 30000, clouds: 40 };
    let grey = WeatherData { temperature: 20000, wind_speed: 10000, clouds: 75 };
    let edge = WeatherData { temperature: 18000, wind_speed: 29999, clouds: 74 };
    assert!(house(HouseMode::Auto).check_weather_and_operate_shutter_at(now, &cold).is_empty());
    assert!(house(HouseMode::Auto).check_weather_and_operate_shutter_at(now, &windy).is_empty());
    assert!(house(HouseMode::Auto).check_weather_and_operate_shutter_at(now, &grey).is_empty());
    assert_eq!(house(HouseMode::Auto).check_weather_and_operate_shutter_at(now, &edge).len(), 2);
}

#[test]
fn comfort_is_silent_on_the_placeholder() {
    let mut h = house(HouseMode::Auto);
    let cmds = h.check_weather_and_operate_shutter_at(at(14, 0), &WeatherData::initial());
    assert!(cmds.is_empty());
    assert!(!h.weather_latch.fired);
}

#[test]
fn comfort_latch_resets_at_six_in_the_evening() {
    let mut h = house(HouseMode::Auto);
    assert_eq!(h.check_weather_and_operate_shutter_at(at(14, 0), &mild()).len(), 2);
    assert!(h.check_weather_and_operate_shutter_at(at(17, 55), &mild()).is_empty());
    assert!(h.weather_latch.fired);
    assert!(h.check_weather_and_operate_shutter_at(at(18, 0), &mild()).is_empty());
    assert!(!h.weather_latch.fired);
    assert!(h.check_weather_and_operate_shutter_at(at(18, 5), &mild()).is_empty());
    assert!(!h.weather_latch.fired);
}

#[test]
fn comfort_latch_is_not_reset_at_midnight() {
    let mut h = house(HouseMode::Auto);
    h.weather_latch.fired = true;
    assert!(h.check_weather_and_operate_shutter_at(at(0, 5), &mild()).is_empty());
    assert!(h.weather_latch.fired);
    assert!(h.check_weather_and_operate_shutter_at(at(18, 10), &mild()).is_empty());
    assert!(h.weather_latch.fired);
}

#[test]
fn set_mode_changes_only_the_mode() {
    let mut h = house(HouseMode::Auto);
    h.sunset_latch.fired = true;
    let before = h;
    h.set_mode(HouseMode::Party);
    assert_eq!(h.mode, HouseMode::Party);
    assert_eq!(h.sunset_latch, before.sunset_latch);
    assert_eq!(h.sunrise_latch, before.sunrise_latch);
    assert_eq!(h.weather_latch, before.weather_latch);
    assert_eq!(h.pdv, before.pdv);
    assert!(h.close_with_sun_at(at(18, 56), Some(at(18, 40))).is_empty());
}

#[test]
fn mode_is_read_at_the_poll() {
    let mut h = house(HouseMode::Auto);
    h.set_mode(HouseMode::Party);
    assert_eq!(h.close_with_sun_at(at(18, 56), Some(at(18, 40))).len(), 2);
    h.set_mode(HouseMode::Absence);
    assert_eq!(h.open_with_sun_at(at(7, 15), Some(at(7, 0))).len(), 3);
}

#[test]
fn sun_reached_compares_hour_and_minute() {
    assert!(sun_reached(at(18, 55), Some(at(18, 40))));
    assert!(sun_reached(at(18, 59), Some(at(18, 40))));
    assert!(!sun_reached(at(18, 54), Some(at(18, 40))));
    assert!(!sun_reached(at(19, 0), Some(at(18, 40))));
    assert!(sun_reached(at(0, 10), Some(at(23, 50))));
    assert!(!sun_reached(at(12, 0), None));
}

#[test]
fn manual_orders_address_every_shutter() {
    let h = house(HouseMode::Auto);
    assert_eq!(h.open_all(), command_all(Action::Open));
    assert_eq!(h.close_all(), command_all(Action::Close));
    assert_eq!(
        h.middle_all(),
        vec![
            order(ShutterId::LivingRoom, Action::Middle),
            order(ShutterId::LowerBedroom, Action::Middle),
            order(ShutterId::UpperBedroom, Action::Middle),
        ]
    );
}

#[test]
fn trains_go_to_the_right_line() {
    let h = house(HouseMode::Auto);
    assert_eq!(h.shutter(ShutterId::LivingRoom).number(), 18);
    assert_eq!(h.shutter(ShutterId::LowerBedroom).number(), 17);
    assert_eq!(h.shutter(ShutterId::UpperBedroom).number(), 27);
    let pulse = Step::Pulse { pin: 17, millis: 100 };
    assert_eq!(h.train(order(ShutterId::LowerBedroom, Action::Close)), vec![pulse; 4]);
    let pulse = Step::Pulse { pin: 27, millis: 100 };
    assert_eq!(h.train(order(ShutterId::UpperBedroom, Action::Open)), vec![pulse; 3]);
    assert_eq!(h.train(order(ShutterId::LivingRoom, Action::Middle)).len(), 10);
}

// 2024-07-01 00:00:00 UTC, a summer day: Paris is two hours ahead.
const SUMMER_DAY: i64 = 1719792000;
// 2024-01-15 00:00:00 UTC, a winter day: Paris is one hour ahead.
const WINTER_DAY: i64 = 1705276800;

#[test]
fn sunset_poll_from_utc_in_summer() {
    let mut h = house(HouseMode::Auto);
    // 18:57 in Paris; sunset at 18:40 in Paris.
    let sunset = SUMMER_DAY + 16 * 3600 + 40 * 60;
    let cmds = h.close_with_sun(sunset + 17 * 60, Some(sunset));
    assert_eq!(cmds, command_all(Action::Close));
    assert!(h.sunset_latch.fired);
}

#[test]
fn sunset_poll_from_utc_in_winter() {
    let mut h = house(HouseMode::Party);
    // 17:35 in Paris; sunset at 17:20 in Paris.
    let now = WINTER_DAY + 16 * 3600 + 35 * 60;
    let sunset = WINTER_DAY + 16 * 3600 + 20 * 60;
    let cmds = h.close_with_sun(now, Some(sunset));
    assert_eq!(cmds.len(), 2);
    // One hour later in Paris the trigger hour is over.
    let mut late = house(HouseMode::Party);
    assert!(late.close_with_sun(now + 3600, Some(sunset)).is_empty());
}

#[test]
fn sunset_reset_from_utc() {
    let mut h = house(HouseMode::Auto);
    h.sunset_latch.fired = true;
    // 22:05 UTC on a summer day is 00:05 in Paris.
    assert!(h.close_with_sun(SUMMER_DAY + 22 * 3600 + 5 * 60, None).is_empty());
    assert!(!h.sunset_latch.fired);
    // 00:05 UTC is 02:05 in Paris: no reset.
    h.sunset_latch.fired = true;
    assert!(h.close_with_sun(SUMMER_DAY + 5 * 60, None).is_empty());
    assert!(h.sunset_latch.fired);
}

#[test]
fn sunrise_poll_from_utc() {
    let mut h = house(HouseMode::Absence);
    // Sunrise at 06:20 in Paris, poll at 06:35 in Paris.
    let sunrise = SUMMER_DAY + 4 * 3600 + 20 * 60;
    assert!(h.open_with_sun(sunrise + 14 * 60, Some(sunrise)).is_empty());
    assert_eq!(h.open_with_sun(sunrise + 15 * 60, Some(sunrise)), command_all(Action::Open));
    assert!(h.open_with_sun(sunrise + 20 * 60, Some(sunrise)).is_empty());
}

#[test]
fn comfort_poll_from_utc() {
    let mut h = house(HouseMode::Auto);
    // 07:59 UTC in summer is 09:59 in Paris, 08:00 UTC is 10:00.
    assert!(h.check_weather_and_operate_shutter(SUMMER_DAY + 8 * 3600 - 60, &mild()).is_empty());
    assert_eq!(h.check_weather_and_operate_shutter(SUMMER_DAY + 8 * 3600, &mild()).len(), 2);
    // 16:00 UTC in summer is 18:00 in Paris: the latch is cleared.
    assert!(h.check_weather_and_operate_shutter(SUMMER_DAY + 16 * 3600, &mild()).is_empty());
    assert!(!h.weather_latch.fired);
}

#[test]
fn unrepresentable_present_is_skipped() {
    let mut h = house(HouseMode::Auto);
    h.sunset_latch.fired = true;
    let before = h;
    assert!(h.close_with_sun(i64::MAX, Some(SUMMER_DAY)).is_empty());
    assert!(h.open_with_sun(i64::MIN, Some(SUMMER_DAY)).is_empty());
    assert!(h.check_weather_and_operate_shutter(i64::MAX, &mild()).is_empty());
    assert_eq!(h, before);
}

#[test]
fn mode_codes() {
    assert_eq!(HouseMode::from_code(0), Some(HouseMode::Auto));
    assert_eq!(HouseMode::from_code(1), Some(HouseMode::Absence));
    assert_eq!(HouseMode::from_code(2), Some(HouseMode::Party));
    assert_eq!(HouseMode::from_code(3), None);
    assert_eq!(HouseMode::from_code(u32::MAX), None);
}

#[test]
fn policies_poll_every_five_minutes() {
    assert_eq!(shutters::house::POLL_INTERVAL_SECONDS, 5 * 60);
}
