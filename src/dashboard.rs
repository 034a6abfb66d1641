//! Counts over all of a user's plants for one date, read from their care
//! records without changing them.

use vstd::prelude::*;
use crate::plant::Plant;
use crate::status::{PlantStatus, status_on};

verus! {

/// The summary shown on the dashboard for one date.
#[derive(Clone, Copy, Debug, PartialEq, Eq, Structural)]
pub struct DashboardSummary {
    pub total_plants: usize,
    pub watered_today: usize,
    pub fertilized_today: usize,
    pub harvested_today: usize,
    pub need_watering: usize,
    pub need_fertilizing: usize,
    pub ready_to_harvest: usize,
}

/// The properties of a day's record that the dashboard counts.
pub enum Tally {
    Watered,
    Fertilized,
    Harvested,
    /// Watered and fertilized, and not yet harvested.
    Ready,
}

pub open spec fn tallies(t: Tally, s: PlantStatus) -> bool {
    match t {
        Tally::Watered => s.watered,
        Tally::Fertilized => s.fertilized,
        Tally::Harvested => s.harvested,
        Tally::Ready => s.watered && s.fertilized && !s.harvested,
    }
}

/// The record of `p` for `date`; a plant with nothing written for the date
/// reads as all unset.
pub open spec fn day_of(p: Plant, date: Seq<char>) -> PlantStatus {
    status_on(p.status@, date)
}

/// How many of `ps` have a record for `date` with property `t`.
pub open spec fn count(ps: Seq<Plant>, date: Seq<char>, t: Tally) -> nat
    decreases ps.len(),
{
    if ps.len() == 0 {
        0
    } else {
        count(ps.drop_last(), date, t) + if tallies(t, day_of(ps.last(), date)) {
            1nat
        } else {
            0nat
        }
    }
}

proof fn lemma_count_bounded(ps: Seq<Plant>, date: Seq<char>, t: Tally)
    ensures
        count(ps, date, t) <= ps.len(),
    decreases ps.len(),
{
    if ps.len() > 0 {
        lemma_count_bounded(ps.drop_last(), date, t);
    }
}

/// With no plants every count is zero.
pub proof fn lemma_no_plants_no_counts(date: Seq<char>)
    ensures
        forall|t: Tally| #[trigger] count(Seq::<Plant>::empty(), date, t) == 0,
{
}

/// Derives the dashboard counts of `plants` for `date`: how many plants
/// there are, how many were watered, fertilized and harvested that day, how
/// many still need watering and fertilizing, and how many are ready to
/// harvest.
pub fn compute(plants: &[Plant], date: &str) -> (r: DashboardSummary)
    ensures
        r.total_plants == plants@.len(),
        r.watered_today == count(plants@, date@, Tally::Watered),
        r.fertilized_today == count(plants@, date@, Tally::Fertilized),
        r.harvested_today == count(plants@, date@, Tally::Harvested),
        r.need_watering == plants@.len() - count(plants@, date@, Tally::Watered),
        r.need_fertilizing == plants@.len() - count(plants@, date@, Tally::Fertilized),
        r.ready_to_harvest == count(plants@, date@, Tally::Ready),
{
    let ghost ps = plants@;
    let ghost d = date@;
    let mut watered: usize = 0;
    let mut fertilized: usize = 0;
    let mut harvested: usize = 0;
    let mut ready: usize = 0;
    let mut i: usize = 0;
    while i < plants.len()
        invariant
            i <= ps.len(),
            ps == plants@,
            d == date@,
            watered == count(ps.take(i as int), d, Tally::Watered),
            fertilized == count(ps.take(i as int), d, Tally::Fertilized),
            harvested == count(ps.take(i as int), d, Tally::Harvested),
            ready == count(ps.take(i as int), d, Tally::Ready),
        decreases ps.len() - i,
    {
        let day = plants[i].status.status_on(date);
        proof {
            assert(ps.take(i + 1).drop_last() =~= ps.take(i as int));
            lemma_count_bounded(ps.take(i as int), d, Tally::Watered);
            lemma_count_bounded(ps.take(i as int), d, Tally::Fertilized);
            lemma_count_bounded(ps.take(i as int), d, Tally::Harvested);
            lemma_count_bounded(ps.take(i as int), d, Tally::Ready);
        }
        if day.watered {
            watered = watered + 1;
        }
        if day.fertilized {
            fertilized = fertilized + 1;
        }
        if day.harvested {
            harvested = harvested + 1;
        }
        if day.watered && day.fertilized && !day.harvested {
            ready = ready + 1;
        }
        i = i + 1;
    }
    proof {
        assert(ps.take(i as int) =~= ps);
        lemma_count_bounded(ps, d, Tally::Watered);
        lemma_count_bounded(ps, d, Tally::Fertilized);
    }
    let total = plants.len();
    DashboardSummary {
        total_plants: total,
        watered_today: watered,
        fertilized_today: fertilized,
        harvested_today: harvested,
        need_watering: total - watered,
        need_fertilizing: total - fertilized,
        ready_to_harvest: ready,
    }
}

} // verus!
