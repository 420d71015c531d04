//! The day-ahead price schedule: one table of hourly prices per day, the
//! cache of today's and tomorrow's tables, and the rules that keep it filled.
//!
//! Every time is a number of seconds since the Unix epoch, in UTC.

use vstd::prelude::*;
use vstd::arithmetic::div_mod::{lemma_fundamental_div_mod, lemma_fundamental_div_mod_converse};
use std::collections::HashMap;
use crate::state::ElectricityPrice;
use crate::status::StatusEvent;

verus! {

broadcast use vstd::std_specs::hash::group_hash_axioms;

/// Seconds in an hour, the step of a price table.
pub const SECONDS_PER_HOUR: i64 = 3600;

/// How long before the end of today's table tomorrow's table is asked for.
pub const PREFETCH_LEAD_SECONDS: i64 = 10800;

/// The start of the hour that holds the time `t`.
pub open spec fn hour_start(t: int) -> int {
    t - t % 3600
}

/// The start of the hour that holds `timestamp`, unless it lies before the
/// earliest time that can be written down.
pub fn hour_start_of(timestamp: i64) -> (start: Option<i64>)
    ensures
        start == (if hour_start(timestamp as int) >= i64::MIN {
            Some(hour_start(timestamp as int) as i64)
        } else {
            None
        }),
{
    if timestamp >= 0 {
        Some(timestamp - timestamp % SECONDS_PER_HOUR)
    } else {
        let behind: i128 = -(timestamp as i128);
        let whole: i128 = behind / 3600;
        let part: i128 = behind % 3600;
        let into_hour: i128 = if part == 0 {
            0
        } else {
            3600 - part
        };
        proof {
            lemma_fundamental_div_mod(behind as int, 3600);
            if part == 0 {
                lemma_fundamental_div_mod_converse(timestamp as int, 3600, -whole as int, 0);
            } else {
                lemma_fundamental_div_mod_converse(
                    timestamp as int,
                    3600,
                    (-whole - 1) as int,
                    into_hour as int,
                );
            }
        }
        let start: i128 = timestamp as i128 - into_hour;
        if start < i64::MIN as i128 {
            None
        } else {
            Some(start as i64)
        }
    }
}

/// The hourly prices of one day.
#[derive(Clone, Debug, PartialEq)]
pub struct HourlyElectricityPrice {
    /// First second at which the table applies.
    pub valid_from: i64,
    /// First second at which the table no longer applies.
    pub valid_until: i64,
    /// The price of each hour, by the hour's first second.
    pub hourly_price: HashMap<i64, ElectricityPrice>,
}

impl HourlyElectricityPrice {
    /// The table applies at `timestamp`: the window is closed at its start
    /// and open at its end.
    pub open spec fn covers(&self, timestamp: i64) -> bool {
        self.valid_from <= timestamp < self.valid_until
    }

    /// The price that the table gives for `timestamp`: the entry of its hour,
    /// if the table applies then and has such an entry.
    pub open spec fn price_at_spec(&self, timestamp: i64) -> Option<ElectricityPrice> {
        let start = hour_start(timestamp as int);
        if self.covers(timestamp) && start >= i64::MIN && self.hourly_price@.contains_key(
            start as i64,
        ) {
            Some(self.hourly_price@[start as i64])
        } else {
            None
        }
    }

    /// Whether the table applies at `timestamp`.
    pub fn is_valid_at(&self, timestamp: i64) -> (valid: bool)
        ensures
            valid == self.covers(timestamp),
    {
        self.valid_from <= timestamp && timestamp < self.valid_until
    }

    /// Looks up the price of the hour that holds `timestamp`.
    pub fn price_at(&self, timestamp: i64) -> (price: Option<ElectricityPrice>)
        ensures
            price == self.price_at_spec(timestamp),
    {
        if !self.is_valid_at(timestamp) {
            return None;
        }
        match hour_start_of(timestamp) {
            Some(start) => match self.hourly_price.get(&start) {
                Some(price) => Some(*price),
                None => None,
            },
            None => None,
        }
    }
}

/// Why no new schedule could be had.
#[derive(Debug, PartialEq, Eq, Structural, Clone, Copy)]
pub enum PriceError {
    /// The schedule could not be transferred.
    FetchError,
    /// What was transferred is not a schedule.
    DecodeError,
}

/// What `maybe_update` found to be due.
#[derive(Debug, PartialEq, Eq, Structural, Clone, Copy)]
pub enum UpdateDecision {
    /// A new schedule has to be fetched and installed.
    Fetch,
    /// Tomorrow's table has become today's; nothing has to be fetched.
    Promoted,
    /// The cache is left as it is.
    Unchanged,
}

/// How a fetched schedule stands to the time at which it arrived.
#[derive(Debug, PartialEq, Eq, Structural, Clone, Copy)]
pub enum Freshness {
    /// Its table for tomorrow has already ended: the schedule is out of date.
    Stale,
    /// Its table for tomorrow applies now: it was labelled a day late.
    Mislabelled,
    /// Neither: the schedule is taken as it is.
    Current,
}

/// Today's and tomorrow's price tables, as far as they are known.
#[derive(Clone, Debug, PartialEq)]
pub struct MultiDayElectricityPrice {
    pub today: Option<HourlyElectricityPrice>,
    pub tomorrow: Option<HourlyElectricityPrice>,
}

impl Default for MultiDayElectricityPrice {
    fn default() -> (cache: MultiDayElectricityPrice)
        ensures
            cache == MultiDayElectricityPrice::empty(),
    {
        MultiDayElectricityPrice { today: None, tomorrow: None }
    }
}

impl MultiDayElectricityPrice {
    /// The cache that knows no table.
    pub open spec fn empty() -> MultiDayElectricityPrice {
        MultiDayElectricityPrice { today: None, tomorrow: None }
    }

    /// Where both tables are known, tomorrow's begins when today's ends.
    pub open spec fn contiguous(&self) -> bool {
        self.today.is_some() && self.tomorrow.is_some() ==> self.tomorrow.unwrap().valid_from
            == self.today.unwrap().valid_until
    }

    /// How the schedule stands to the time `now`; only its table for
    /// tomorrow decides.
    pub open spec fn freshness_spec(&self, now: i64) -> Freshness {
        match self.tomorrow {
            Some(tomorrow) => if now >= tomorrow.valid_until {
                Freshness::Stale
            } else if tomorrow.covers(now) {
                Freshness::Mislabelled
            } else {
                Freshness::Current
            },
            None => Freshness::Current,
        }
    }

    /// What a fetched schedule is taken for at the time `now`.
    /// A stale schedule counts for nothing, not even its table for today.
    /// Of a mislabelled one the table for tomorrow is today's, and the other
    /// is dropped. Any other schedule is taken as it is.
    pub open spec fn validated_spec(self, now: i64) -> MultiDayElectricityPrice {
        match self.freshness_spec(now) {
            Freshness::Stale => MultiDayElectricityPrice::empty(),
            Freshness::Mislabelled => MultiDayElectricityPrice {
                today: self.tomorrow,
                tomorrow: None,
            },
            Freshness::Current => self,
        }
    }

    /// The price at `now`: today's table is asked first, then tomorrow's.
    pub open spec fn current_price_spec(&self, now: i64) -> Option<ElectricityPrice> {
        let first = match self.today {
            Some(today) => today.price_at_spec(now),
            None => None,
        };
        if first.is_some() {
            first
        } else {
            match self.tomorrow {
                Some(tomorrow) => tomorrow.price_at_spec(now),
                None => None,
            }
        }
    }

    /// What is due at `now`, by the first rule that applies:
    /// without today's table, fetch;
    /// within today's table and with tomorrow's at hand, nothing;
    /// within tomorrow's table, promote it;
    /// without tomorrow's table and less than the lead time before today's
    /// ends, fetch;
    /// otherwise nothing.
    pub open spec fn update_decision(&self, now: i64) -> UpdateDecision {
        match self.today {
            None => UpdateDecision::Fetch,
            Some(today) => match self.tomorrow {
                Some(tomorrow) => if today.covers(now) {
                    UpdateDecision::Unchanged
                } else if tomorrow.covers(now) {
                    UpdateDecision::Promoted
                } else {
                    UpdateDecision::Unchanged
                },
                None => if now >= today.valid_until - PREFETCH_LEAD_SECONDS {
                    UpdateDecision::Fetch
                } else {
                    UpdateDecision::Unchanged
                },
            },
        }
    }

    /// The cache after `maybe_update` at `now`: only a promotion changes it.
    pub open spec fn after_update(self, now: i64) -> MultiDayElectricityPrice {
        if self.update_decision(now) == UpdateDecision::Promoted {
            MultiDayElectricityPrice { today: self.tomorrow, tomorrow: None }
        } else {
            self
        }
    }

    /// The cache after one `maybe_update` at each of `times`, in order.
    pub open spec fn after_updates(self, times: Seq<i64>) -> MultiDayElectricityPrice
        decreases times.len(),
    {
        if times.len() == 0 {
            self
        } else {
            self.after_updates(times.drop_last()).after_update(times.last())
        }
    }

    /// Says how a schedule that was fetched at `now` stands to that time.
    pub fn freshness(&self, now: i64) -> (freshness: Freshness)
        ensures
            freshness == self.freshness_spec(now),
    {
        match &self.tomorrow {
            Some(tomorrow) => if now >= tomorrow.valid_until {
                Freshness::Stale
            } else if tomorrow.is_valid_at(now) {
                Freshness::Mislabelled
            } else {
                Freshness::Current
            },
            None => Freshness::Current,
        }
    }

    /// Judges a schedule that was fetched at `now`.
    pub fn validated(self, now: i64) -> (cache: MultiDayElectricityPrice)
        ensures
            cache == self.validated_spec(now),
            self.tomorrow.is_some() && self.tomorrow.unwrap().valid_until <= now ==> cache
                == MultiDayElectricityPrice::empty(),
            self.contiguous() ==> cache.contiguous(),
    {
        match self.freshness(now) {
            Freshness::Stale => MultiDayElectricityPrice::default(),
            Freshness::Mislabelled => MultiDayElectricityPrice {
                today: self.tomorrow,
                tomorrow: None,
            },
            Freshness::Current => self,
        }
    }

    /// The price at `now`, if either table has one.
    pub fn current_price(&self, now: i64) -> (price: Option<ElectricityPrice>)
        ensures
            price == self.current_price_spec(now),
    {
        if let Some(today) = &self.today {
            if let Some(price) = today.price_at(now) {
                return Some(price);
            }
        }
        if let Some(tomorrow) = &self.tomorrow {
            if let Some(price) = tomorrow.price_at(now) {
                return Some(price);
            }
        }
        None
    }

    /// Reports missing data while today's table is unknown, and nothing
    /// otherwise.
    pub fn status(&self) -> (status: Option<StatusEvent>)
        ensures
            status == (if self.today.is_none() {
                Some(StatusEvent::MissingData)
            } else {
                None
            }),
    {
        if self.today.is_none() {
            return Some(StatusEvent::MissingData);
        }
        None
    }
}

/// The price cache as the application holds it from start to shutdown: made
/// from the first transfer, read at every measurement and brought up to date
/// at every tick. It is one owned record; where several tasks use it, they
/// take turns.
#[derive(Debug)]
pub struct SharedElectricityPrice {
    prices: MultiDayElectricityPrice,
}

impl View for SharedElectricityPrice {
    type V = MultiDayElectricityPrice;

    /// The tables that the cache holds.
    closed spec fn view(&self) -> MultiDayElectricityPrice {
        self.prices
    }
}

impl SharedElectricityPrice {
    /// Makes the cache from what the first transfer brought at `now`. A
    /// schedule is judged as by `validated`; a failure is handed on.
    pub fn fetch(fetched: Result<MultiDayElectricityPrice, PriceError>, now: i64) -> (r: Result<
        SharedElectricityPrice,
        PriceError,
    >)
        ensures
            match fetched {
                Ok(schedule) => r.is_ok() && r.unwrap()@ == schedule.validated_spec(now),
                Err(e) => r.is_err() && r.unwrap_err() == e,
            },
            fetched.is_ok() && fetched.unwrap().tomorrow.is_some()
                && fetched.unwrap().tomorrow.unwrap().valid_until <= now ==> r.unwrap()@
                == MultiDayElectricityPrice::empty(),
            fetched.is_ok() && fetched.unwrap().contiguous() ==> r.unwrap()@.contiguous(),
    {
        match fetched {
            Ok(schedule) => Ok(SharedElectricityPrice { prices: schedule.validated(now) }),
            Err(e) => Err(e),
        }
    }

    /// The tables that the cache holds.
    pub fn prices(&self) -> (prices: &MultiDayElectricityPrice)
        ensures
            *prices == self@,
    {
        &self.prices
    }

    /// The price at `now`, if either table has one.
    pub fn current_price(&self, now: i64) -> (price: Option<ElectricityPrice>)
        ensures
            price == self@.current_price_spec(now),
    {
        self.prices.current_price(now)
    }

    /// Reports missing data while today's table is unknown, and nothing
    /// otherwise.
    pub fn status(&self) -> (status: Option<StatusEvent>)
        ensures
            status == (if self@.today.is_none() {
                Some(StatusEvent::MissingData)
            } else {
                None
            }),
    {
        self.prices.status()
    }

    /// Brings the cache up to `now` as far as that needs no transfer, and
    /// says whether a transfer is due. At the change of day tomorrow's table
    /// is promoted. While today's table applies and tomorrow's is at hand,
    /// nothing changes and nothing is asked for. Where a transfer is due, its
    /// outcome goes to `install`.
    pub fn maybe_update(&mut self, now: i64) -> (decision: UpdateDecision)
        ensures
            decision == old(self)@.update_decision(now),
            final(self)@ == old(self)@.after_update(now),
            decision != UpdateDecision::Promoted ==> final(self)@ == old(self)@,
            decision == UpdateDecision::Promoted ==> final(self)@.today == old(self)@.tomorrow
                && final(self)@.tomorrow.is_none(),
            old(self)@.today.is_some() && old(self)@.today.unwrap().covers(now) && old(
                self,
            )@.tomorrow.is_some() ==> decision == UpdateDecision::Unchanged && final(self)@ == old(
                self,
            )@,
            old(self)@.contiguous() ==> final(self)@.contiguous(),
    {
        let decision = match &self.prices.today {
            None => UpdateDecision::Fetch,
            Some(today) => match &self.prices.tomorrow {
                Some(tomorrow) => if today.is_valid_at(now) {
                    UpdateDecision::Unchanged
                } else if tomorrow.is_valid_at(now) {
                    UpdateDecision::Promoted
                } else {
                    UpdateDecision::Unchanged
                },
                None => if now as i128 >= today.valid_until as i128 - PREFETCH_LEAD_SECONDS as i128 {
                    UpdateDecision::Fetch
                } else {
                    UpdateDecision::Unchanged
                },
            },
        };
        if decision == UpdateDecision::Promoted {
            self.prices.today = self.prices.tomorrow.take();
        }
        decision
    }

    /// Takes in what a transfer brought at `now`. A schedule is judged as by
    /// `validated` and replaces both tables. A failure is handed on and
    /// leaves the cache as it was.
    pub fn install(
        &mut self,
        fetched: Result<MultiDayElectricityPrice, PriceError>,
        now: i64,
    ) -> (r: Result<(), PriceError>)
        ensures
            match fetched {
                Ok(schedule) => r.is_ok() && final(self)@ == schedule.validated_spec(now),
                Err(e) => r == Err::<(), PriceError>(e) && final(self)@ == old(self)@,
            },
            old(self)@.contiguous() && (fetched.is_ok() ==> fetched.unwrap().contiguous())
                ==> final(self)@.contiguous(),
    {
        match fetched {
            Ok(schedule) => {
                self.prices = schedule.validated(now);
                Ok(())
            },
            Err(e) => Err(e),
        }
    }
}

/// While today's table applies and tomorrow's is at hand, updates ask for no
/// transfer and leave the cache exactly as it is, however many are made.
pub proof fn lemma_updates_leave_provisioned_cache(
    cache: MultiDayElectricityPrice,
    times: Seq<i64>,
)
    requires
        cache.today.is_some(),
        cache.tomorrow.is_some(),
        forall|i: int| 0 <= i < times.len() ==> cache.today.unwrap().covers(#[trigger] times[i]),
    ensures
        cache.after_updates(times) == cache,
        forall|i: int|
            0 <= i < times.len() ==> #[trigger] cache.after_updates(times.take(i)).update_decision(
                times[i],
            ) == UpdateDecision::Unchanged,
    decreases times.len(),
{
    if times.len() > 0 {
        lemma_updates_leave_provisioned_cache(cache, times.drop_last());
        assert(cache.today.unwrap().covers(times[times.len() - 1]));
        assert forall|i: int| 0 <= i < times.len() implies #[trigger] cache.after_updates(
            times.take(i),
        ).update_decision(times[i]) == UpdateDecision::Unchanged by {
            lemma_updates_leave_provisioned_cache(cache, times.take(i));
            assert(cache.today.unwrap().covers(times[i]));
        }
    }
}

/// Once the time has passed from today's table into tomorrow's, which begins
/// where today's ends, an update makes tomorrow's table today's, keeps no
/// table for tomorrow, and asks for no transfer.
pub proof fn lemma_update_promotes_after_day_change(cache: MultiDayElectricityPrice, now: i64)
    requires
        cache.today.is_some(),
        cache.tomorrow.is_some(),
        cache.contiguous(),
        cache.tomorrow.unwrap().covers(now),
    ensures
        cache.update_decision(now) == UpdateDecision::Promoted,
        cache.after_update(now).today == cache.tomorrow,
        cache.after_update(now).tomorrow.is_none(),
{
}

/// A fetched schedule whose table for tomorrow has ended by `now` is taken
/// for an empty cache.
pub proof fn lemma_stale_schedule_is_dropped(schedule: MultiDayElectricityPrice, now: i64)
    requires
        schedule.tomorrow.is_some(),
        schedule.tomorrow.unwrap().valid_until <= now,
    ensures
        schedule.validated_spec(now) == MultiDayElectricityPrice::empty(),
{
}

/// Judging a schedule twice at one time changes nothing more: what was
/// judged once is neither stale nor mislabelled.
pub proof fn lemma_validated_is_settled(schedule: MultiDayElectricityPrice, now: i64)
    ensures
        schedule.validated_spec(now).freshness_spec(now) == Freshness::Current,
        schedule.validated_spec(now).validated_spec(now) == schedule.validated_spec(now),
{
}

/// After a stale schedule the cache is empty, so the next update asks for a
/// transfer, whenever it comes.
pub proof fn lemma_stale_schedule_is_fetched_again(
    schedule: MultiDayElectricityPrice,
    now: i64,
    next: i64,
)
    requires
        schedule.freshness_spec(now) == Freshness::Stale,
    ensures
        schedule.validated_spec(now).update_decision(next) == UpdateDecision::Fetch,
{
}

/// A transfer that is due stays due while the cache stays as it is: an
/// update at any later time asks for it again, so a failed transfer is
/// tried again.
pub proof fn lemma_fetch_stays_due(cache: MultiDayElectricityPrice, now: i64, later: i64)
    requires
        cache.update_decision(now) == UpdateDecision::Fetch,
        now <= later,
    ensures
        cache.update_decision(later) == UpdateDecision::Fetch,
        cache.after_update(later) == cache,
{
}

} // verus!
