use heating_control::electricity_price::{
    hour_start_of, Freshness, HourlyElectricityPrice, MultiDayElectricityPrice, PriceError,
    SharedElectricityPrice, UpdateDecision, PREFETCH_LEAD_SECONDS, SECONDS_PER_HOUR,
};
use heating_control::status::StatusEvent;
use heating_control::ElectricityPrice;
use std::collections::HashMap;

const DAY: i64 = 86_400;
// 2024-03-01T00:00:00Z
const D: i64 = 1_709_251_200;

/// A table for the day that starts at `from`, whose hour `h` costs
/// `base + h` millionths.
fn table(from: i64, base: i32) -> HourlyElectricityPrice {
    let mut hourly_price = HashMap::new();
    for h in 0..24 {
        hourly_price.insert(from + h * SECONDS_PER_HOUR, ElectricityPrice::new(base + h as i32));
    }
    HourlyElectricityPrice { valid_from: from, valid_until: from + DAY, hourly_price }
}

fn both() -> MultiDayElectricityPrice {
    MultiDayElectricityPrice { today: Some(table(D, 1000)), tomorrow: Some(table(D + DAY, 2000)) }
}

fn only_today() -> MultiDayElectricityPrice {
    MultiDayElectricityPrice { today: Some(table(D, 1000)), tomorrow: None }
}

fn shared(cache: MultiDayElectricityPrice, now: i64) -> SharedElectricityPrice {
    SharedElectricityPrice::fetch(Ok(cache), now).unwrap()
}

#[test]
fn hour_start_floors_to_the_hour() {
    assert_eq!(hour_start_of(D), Some(D));
    assert_eq!(hour_start_of(D + 1), Some(D));
    assert_eq!(hour_start_of(D + 3599), Some(D));
    assert_eq!(hour_start_of(D + 3600), Some(D + 3600));
    assert_eq!(hour_start_of(0), Some(0));
}

#[test]
fn hour_start_floors_times_before_the_epoch_downwards() {
    assert_eq!(hour_start_of(-1), Some(-3600));
    assert_eq!(hour_start_of(-3600), Some(-3600));
    assert_eq!(hour_start_of(-3601), Some(-7200));
}

#[test]
fn hour_start_of_the_earliest_times_is_not_representable() {
    assert_eq!(hour_start_of(i64::MIN), None);
    assert_eq!(hour_start_of(i64::MAX), Some(i64::MAX - i64::MAX % 3600));
}

#[test]
fn price_at_finds_the_entry_of_the_hour() {
    let t = table(D, 1000);
    assert_eq!(t.price_at(D), Some(ElectricityPrice::new(1000)));
    assert_eq!(t.price_at(D + 5 * 3600 + 1234), Some(ElectricityPrice::new(1005)));
    assert_eq!(t.price_at(D + DAY - 1), Some(ElectricityPrice::new(1023)));
}

#[test]
fn price_at_is_empty_outside_the_window() {
    let t = table(D, 1000);
    assert_eq!(t.price_at(D - 1), None);
    assert_eq!(t.price_at(D + DAY), None);
    assert!(t.is_valid_at(D));
    assert!(!t.is_valid_at(D + DAY));
    assert!(!t.is_valid_at(D - 1));
}

#[test]
fn price_at_is_empty_outside_the_window_even_with_an_entry() {
    let mut t = table(D, 1000);
    t.hourly_price.insert(D + DAY, ElectricityPrice::new(7));
    assert_eq!(t.price_at(D + DAY), None);
}

#[test]
fn price_at_is_empty_for_a_missing_hour() {
    let mut t = table(D, 1000);
    t.hourly_price.remove(&(D + 3 * 3600));
    assert_eq!(t.price_at(D + 3 * 3600 + 10), None);
    assert_eq!(t.price_at(D + 4 * 3600), Some(ElectricityPrice::new(1004)));
}

#[test]
fn validated_drops_a_stale_schedule() {
    let empty = MultiDayElectricityPrice::default();
    assert_eq!(both().validated(D + 2 * DAY), empty);
    assert_eq!(both().validated(D + 2 * DAY + 5), empty);
    assert_eq!(empty.today, None);
    assert_eq!(empty.tomorrow, None);
}

#[test]
fn validated_remaps_a_mislabelled_tomorrow() {
    let got = both().validated(D + DAY);
    assert_eq!(got.today, Some(table(D + DAY, 2000)));
    assert_eq!(got.tomorrow, None);
    let got = both().validated(D + 2 * DAY - 1);
    assert_eq!(got.today, Some(table(D + DAY, 2000)));
    assert_eq!(got.tomorrow, None);
}

#[test]
fn validated_keeps_a_current_schedule() {
    assert_eq!(both().validated(D + 100), both());
    assert_eq!(both().validated(D + DAY - 1), both());
    assert_eq!(only_today().validated(D + 5 * DAY), only_today());
}

#[test]
fn current_price_asks_today_then_tomorrow() {
    let cache = both();
    assert_eq!(cache.current_price(D + 3600), Some(ElectricityPrice::new(1001)));
    assert_eq!(cache.current_price(D + DAY + 3600), Some(ElectricityPrice::new(2001)));
    assert_eq!(cache.current_price(D - 1), None);
    assert_eq!(cache.current_price(D + 2 * DAY), None);
    assert_eq!(MultiDayElectricityPrice::default().current_price(D), None);
}

#[test]
fn current_price_falls_through_a_gap_in_today() {
    let mut today = table(D, 1000);
    today.valid_until = D + 2 * DAY;
    let cache = MultiDayElectricityPrice { today: Some(today), tomorrow: Some(table(D + DAY, 2000)) };
    assert_eq!(cache.current_price(D + DAY + 7200), Some(ElectricityPrice::new(2002)));
}

#[test]
fn status_reports_missing_data_without_today() {
    assert_eq!(MultiDayElectricityPrice::default().status(), Some(StatusEvent::MissingData));
    let no_today = MultiDayElectricityPrice { today: None, tomorrow: Some(table(D + DAY, 2000)) };
    assert_eq!(no_today.status(), Some(StatusEvent::MissingData));
    assert_eq!(only_today().status(), None);
    assert_eq!(both().status(), None);
}

#[test]
fn shared_status_and_price_follow_the_cache() {
    let cache = shared(both(), D + 10);
    assert_eq!(cache.status(), None);
    assert_eq!(cache.current_price(D + 10), Some(ElectricityPrice::new(1000)));
    let cache = shared(MultiDayElectricityPrice::default(), D + 10);
    assert_eq!(cache.status(), Some(StatusEvent::MissingData));
    assert_eq!(cache.current_price(D + 10), None);
}

#[test]
fn fetch_hands_on_a_failure() {
    assert_eq!(
        SharedElectricityPrice::fetch(Err(PriceError::FetchError), D).err(),
        Some(PriceError::FetchError)
    );
    assert_eq!(
        SharedElectricityPrice::fetch(Err(PriceError::DecodeError), D).err(),
        Some(PriceError::DecodeError)
    );
}

#[test]
fn fetch_of_a_stale_schedule_gives_an_empty_cache() {
    let cache = SharedElectricityPrice::fetch(Ok(both()), D + 2 * DAY).unwrap();
    assert_eq!(*cache.prices(), MultiDayElectricityPrice::default());
    assert_eq!(cache.status(), Some(StatusEvent::MissingData));
}

#[test]
fn fetch_remaps_a_mislabelled_tomorrow() {
    let cache = SharedElectricityPrice::fetch(Ok(both()), D + DAY + 1).unwrap();
    assert_eq!(cache.prices().today, Some(table(D + DAY, 2000)));
    assert_eq!(cache.prices().tomorrow, None);
}

#[test]
fn update_fetches_without_today() {
    let mut cache = shared(MultiDayElectricityPrice::default(), D);
    assert_eq!(cache.maybe_update(D), UpdateDecision::Fetch);
    assert_eq!(*cache.prices(), MultiDayElectricityPrice::default());
}

#[test]
fn update_is_idempotent_while_provisioned() {
    let mut cache = shared(both(), D);
    for now in [D, D + 1, D + 3600, D + DAY - 3 * 3600, D + DAY - 1, D + 17] {
        assert_eq!(cache.maybe_update(now), UpdateDecision::Unchanged);
        assert_eq!(*cache.prices(), both());
    }
}

#[test]
fn update_promotes_after_the_day_change() {
    let mut cache = shared(both(), D);
    assert_eq!(cache.maybe_update(D + DAY + 1), UpdateDecision::Promoted);
    assert_eq!(cache.prices().today, Some(table(D + DAY, 2000)));
    assert_eq!(cache.prices().tomorrow, None);
}

#[test]
fn update_promotes_at_the_first_second_of_tomorrow() {
    let mut cache = shared(both(), D);
    assert_eq!(cache.maybe_update(D + DAY), UpdateDecision::Promoted);
    assert_eq!(cache.prices().today, Some(table(D + DAY, 2000)));
    assert_eq!(cache.prices().tomorrow, None);
}

#[test]
fn update_leaves_a_cache_that_time_has_left_behind() {
    let mut cache = shared(both(), D);
    assert_eq!(cache.maybe_update(D + 2 * DAY), UpdateDecision::Unchanged);
    assert_eq!(*cache.prices(), both());
    assert_eq!(cache.maybe_update(D - 1), UpdateDecision::Unchanged);
    assert_eq!(*cache.prices(), both());
}

#[test]
fn update_prefetches_three_hours_before_the_end() {
    assert_eq!(PREFETCH_LEAD_SECONDS, 3 * 3600);
    let mut cache = shared(only_today(), D);
    assert_eq!(cache.maybe_update(D + DAY - 3 * 3600 - 1), UpdateDecision::Unchanged);
    assert_eq!(cache.maybe_update(D + DAY - 3 * 3600), UpdateDecision::Fetch);
    assert_eq!(cache.maybe_update(D + DAY - 1), UpdateDecision::Fetch);
    assert_eq!(cache.maybe_update(D + 3 * DAY), UpdateDecision::Fetch);
    assert_eq!(*cache.prices(), only_today());
}

#[test]
fn update_is_too_early_to_prefetch() {
    let mut cache = shared(only_today(), D);
    assert_eq!(cache.maybe_update(D), UpdateDecision::Unchanged);
    assert_eq!(cache.maybe_update(D + 12 * 3600), UpdateDecision::Unchanged);
    assert_eq!(*cache.prices(), only_today());
}

#[test]
fn update_near_the_earliest_time_does_not_overflow() {
    let mut early = table(0, 1);
    early.valid_from = i64::MIN;
    early.valid_until = i64::MIN + 5;
    let mut cache =
        shared(MultiDayElectricityPrice { today: Some(early), tomorrow: None }, i64::MIN);
    assert_eq!(cache.maybe_update(i64::MIN), UpdateDecision::Fetch);
}

#[test]
fn install_replaces_both_tables() {
    let mut cache = shared(only_today(), D);
    assert_eq!(cache.install(Ok(both()), D + DAY - 100), Ok(()));
    assert_eq!(*cache.prices(), both());
}

#[test]
fn install_judges_what_was_fetched() {
    let mut cache = shared(only_today(), D);
    assert_eq!(cache.install(Ok(both()), D + 2 * DAY), Ok(()));
    assert_eq!(*cache.prices(), MultiDayElectricityPrice::default());
    assert_eq!(cache.maybe_update(D + 2 * DAY), UpdateDecision::Fetch);
    assert_eq!(cache.install(Ok(both()), D + DAY + 1), Ok(()));
    assert_eq!(cache.prices().today, Some(table(D + DAY, 2000)));
    assert_eq!(cache.prices().tomorrow, None);
}

#[test]
fn install_leaves_the_cache_on_failure() {
    let mut cache = shared(only_today(), D);
    assert_eq!(cache.install(Err(PriceError::FetchError), D + DAY), Err(PriceError::FetchError));
    assert_eq!(*cache.prices(), only_today());
    assert_eq!(cache.install(Err(PriceError::DecodeError), D + DAY), Err(PriceError::DecodeError));
    assert_eq!(*cache.prices(), only_today());
    assert_eq!(cache.maybe_update(D + DAY), UpdateDecision::Fetch);
}

#[test]
fn freshness_is_judged_by_tomorrow_alone() {
    assert_eq!(both().freshness(D + 2 * DAY), Freshness::Stale);
    assert_eq!(both().freshness(D + 2 * DAY - 1), Freshness::Mislabelled);
    assert_eq!(both().freshness(D + DAY), Freshness::Mislabelled);
    assert_eq!(both().freshness(D + DAY - 1), Freshness::Current);
    assert_eq!(only_today().freshness(D + 9 * DAY), Freshness::Current);
    assert_eq!(MultiDayElectricityPrice::default().freshness(D), Freshness::Current);
}

#[test]
fn a_failed_transfer_is_due_again_later() {
    let mut cache = shared(only_today(), D);
    let first = D + DAY - 3600;
    assert_eq!(cache.maybe_update(first), UpdateDecision::Fetch);
    assert_eq!(cache.install(Err(PriceError::FetchError), first), Err(PriceError::FetchError));
    for later in [first, first + 1, D + DAY, D + 7 * DAY] {
        assert_eq!(cache.maybe_update(later), UpdateDecision::Fetch);
        assert_eq!(*cache.prices(), only_today());
    }
}

#[test]
fn judging_twice_changes_nothing_more() {
    for now in [D - 1, D, D + DAY - 1, D + DAY, D + 2 * DAY - 1, D + 2 * DAY] {
        let once = both().validated(now);
        assert_eq!(once.freshness(now), Freshness::Current);
        assert_eq!(once.clone().validated(now), once);
    }
}
