//! The per-plant status store: a map from calendar date to the day's care
//! record, and the single-cell merge that updates it.

use vstd::prelude::*;
use vstd::string::*;

verus! {

/// What happened to one plant on one calendar date.
#[derive(Clone, Copy, Debug, PartialEq, Eq, Structural)]
pub struct PlantStatus {
    pub watered: bool,
    pub fertilized: bool,
    pub harvested: bool,
}

/// The care record of a date that nothing has been written for yet.
pub open spec fn unset_status() -> PlantStatus {
    PlantStatus { watered: false, fertilized: false, harvested: false }
}

impl Default for PlantStatus {
    fn default() -> (r: PlantStatus)
        ensures
            r == unset_status(),
    {
        PlantStatus { watered: false, fertilized: false, harvested: false }
    }
}

/// One of the three recorded care actions.
#[derive(Clone, Copy, Debug, PartialEq, Eq, Structural)]
pub enum StatusField {
    Watered,
    Fertilized,
    Harvested,
}

/// Why an update was refused before anything was changed.
#[derive(Clone, Copy, Debug, PartialEq, Eq, Structural)]
pub enum ValidationError {
    /// The field name is not one of `watered`, `fertilized`, `harvested`.
    UnknownField,
    /// The date is the empty string.
    EmptyDate,
}

/// The field that a wire name stands for, if any.
pub open spec fn field_named(name: Seq<char>) -> Option<StatusField> {
    if name == "watered"@ {
        Some(StatusField::Watered)
    } else if name == "fertilized"@ {
        Some(StatusField::Fertilized)
    } else if name == "harvested"@ {
        Some(StatusField::Harvested)
    } else {
        None
    }
}

impl StatusField {
    /// Reads a field from its wire name; any other name is a validation failure.
    pub fn from_name(name: &str) -> (r: Result<StatusField, ValidationError>)
        ensures
            match field_named(name@) {
                Some(f) => r == Ok::<StatusField, ValidationError>(f),
                None => r == Err::<StatusField, ValidationError>(ValidationError::UnknownField),
            },
    {
        let given = String::from_str(name);
        if given == String::from_str("watered") {
            Ok(StatusField::Watered)
        } else if given == String::from_str("fertilized") {
            Ok(StatusField::Fertilized)
        } else if given == String::from_str("harvested") {
            Ok(StatusField::Harvested)
        } else {
            Err(ValidationError::UnknownField)
        }
    }
}

impl PlantStatus {
    /// The value of one field.
    pub open spec fn field(self, f: StatusField) -> bool {
        match f {
            StatusField::Watered => self.watered,
            StatusField::Fertilized => self.fertilized,
            StatusField::Harvested => self.harvested,
        }
    }

    /// This record with one field replaced.
    pub open spec fn with(self, f: StatusField, v: bool) -> PlantStatus {
        match f {
            StatusField::Watered => PlantStatus { watered: v, ..self },
            StatusField::Fertilized => PlantStatus { fertilized: v, ..self },
            StatusField::Harvested => PlantStatus { harvested: v, ..self },
        }
    }

    /// A record read from stored data, where a field may be missing or not a
    /// boolean: only a stored `true` counts as set.
    pub fn from_stored(
        watered: Option<bool>,
        fertilized: Option<bool>,
        harvested: Option<bool>,
    ) -> (r: PlantStatus)
        ensures
            r.watered == (watered == Some(true)),
            r.fertilized == (fertilized == Some(true)),
            r.harvested == (harvested == Some(true)),
    {
        PlantStatus {
            watered: matches!(watered, Some(true)),
            fertilized: matches!(fertilized, Some(true)),
            harvested: matches!(harvested, Some(true)),
        }
    }

    pub fn get(&self, f: StatusField) -> (r: bool)
        ensures
            r == self.field(f),
    {
        match f {
            StatusField::Watered => self.watered,
            StatusField::Fertilized => self.fertilized,
            StatusField::Harvested => self.harvested,
        }
    }

    pub fn set(&mut self, f: StatusField, v: bool)
        ensures
            *final(self) == old(self).with(f, v),
    {
        match f {
            StatusField::Watered => self.watered = v,
            StatusField::Fertilized => self.fertilized = v,
            StatusField::Harvested => self.harvested = v,
        }
    }
}

/// One date of a store with its record.
#[derive(Debug)]
pub struct DayEntry {
    pub date: String,
    pub status: PlantStatus,
}

/// The map that a list of entries stands for; a later entry for a date
/// overrides an earlier one.
pub open spec fn entries_map(s: Seq<DayEntry>) -> Map<Seq<char>, PlantStatus>
    decreases s.len(),
{
    if s.len() == 0 {
        Map::empty()
    } else {
        entries_map(s.drop_last()).insert(s.last().date@, s.last().status)
    }
}

/// No date occurs twice.
pub open spec fn dates_distinct(s: Seq<DayEntry>) -> bool {
    forall|i: int, j: int|
        0 <= i < s.len() && 0 <= j < s.len() && i != j ==> #[trigger] s[i].date@ != #[trigger] s[j].date@
}

/// The record of a date in a store, reading a missing date as all unset.
pub open spec fn status_on(m: Map<Seq<char>, PlantStatus>, date: Seq<char>) -> PlantStatus {
    if m.contains_key(date) {
        m[date]
    } else {
        unset_status()
    }
}

/// The store after setting field `f` of date `d` to `v`: a missing date is
/// first created with every field unset.
pub open spec fn updated(m: Map<Seq<char>, PlantStatus>, d: Seq<char>, f: StatusField, v: bool) -> Map<
    Seq<char>,
    PlantStatus,
> {
    m.insert(d, status_on(m, d).with(f, v))
}

/// Whether field `f` of date `d` reads as set, a missing date reading as unset.
pub open spec fn cell(m: Map<Seq<char>, PlantStatus>, d: Seq<char>, f: StatusField) -> bool {
    status_on(m, d).field(f)
}

/// An update changes the one cell it names: every other cell, of the same
/// date or of another, reads as before, and no date but the updated one
/// enters or leaves the store.
pub proof fn lemma_update_changes_one_cell(
    m: Map<Seq<char>, PlantStatus>,
    d: Seq<char>,
    f: StatusField,
    v: bool,
    d2: Seq<char>,
    f2: StatusField,
)
    requires
        d2 != d || f2 != f,
    ensures
        cell(updated(m, d, f, v), d2, f2) == cell(m, d2, f2),
        cell(updated(m, d, f, v), d, f) == v,
        updated(m, d, f, v).dom() == m.dom().insert(d),
        d2 != d ==> (m.contains_key(d2) ==> updated(m, d, f, v)[d2] == m[d2]),
{
    assert(updated(m, d, f, v).dom() =~= m.dom().insert(d));
}

/// Updating a date that the store does not hold creates its record with the
/// two other fields unset.
pub proof fn lemma_new_date_defaults(m: Map<Seq<char>, PlantStatus>, d: Seq<char>, f: StatusField, v: bool)
    requires
        !m.contains_key(d),
    ensures
        updated(m, d, f, v).contains_key(d),
        updated(m, d, f, v)[d] == unset_status().with(f, v),
        forall|f2: StatusField| f2 != f ==> !(#[trigger] updated(m, d, f, v)[d].field(f2)),
{
}

/// Applying the same update twice leaves the store as applying it once.
pub proof fn lemma_update_idempotent(m: Map<Seq<char>, PlantStatus>, d: Seq<char>, f: StatusField, v: bool)
    ensures
        updated(updated(m, d, f, v), d, f, v) == updated(m, d, f, v),
{
    assert(updated(updated(m, d, f, v), d, f, v) =~= updated(m, d, f, v));
}

proof fn lemma_entries_map_domain(s: Seq<DayEntry>, d: Seq<char>)
    ensures
        entries_map(s).contains_key(d) <==> exists|i: int| 0 <= i < s.len() && #[trigger] s[i].date@ == d,
    decreases s.len(),
{
    if s.len() > 0 {
        lemma_entries_map_domain(s.drop_last(), d);
        if entries_map(s.drop_last()).contains_key(d) {
            let i = choose|i: int| 0 <= i < s.drop_last().len() && #[trigger] s.drop_last()[i].date@ == d;
            assert(s[i].date@ == d);
        }
        if exists|i: int| 0 <= i < s.len() && #[trigger] s[i].date@ == d {
            let i = choose|i: int| 0 <= i < s.len() && #[trigger] s[i].date@ == d;
            if i < s.len() - 1 {
                assert(s.drop_last()[i].date@ == d);
            }
        }
    }
}

proof fn lemma_entries_map_at(s: Seq<DayEntry>, i: int)
    requires
        dates_distinct(s),
        0 <= i < s.len(),
    ensures
        entries_map(s).contains_key(s[i].date@),
        entries_map(s)[s[i].date@] == s[i].status,
    decreases s.len(),
{
    if i < s.len() - 1 {
        assert(dates_distinct(s.drop_last()));
        lemma_entries_map_at(s.drop_last(), i);
        assert(s.drop_last()[i] == s[i]);
        assert(s[i].date@ != s[s.len() - 1].date@);
    }
}

proof fn lemma_entries_map_replace(s: Seq<DayEntry>, i: int, e: DayEntry)
    requires
        dates_distinct(s),
        0 <= i < s.len(),
        e.date@ == s[i].date@,
    ensures
        entries_map(s.update(i, e)) == entries_map(s).insert(e.date@, e.status),
    decreases s.len(),
{
    let t = s.update(i, e);
    if i == s.len() - 1 {
        assert(t.drop_last() =~= s.drop_last());
        assert(entries_map(t) =~= entries_map(s).insert(e.date@, e.status));
    } else {
        assert(dates_distinct(s.drop_last()));
        assert(t.drop_last() =~= s.drop_last().update(i, e));
        lemma_entries_map_replace(s.drop_last(), i, e);
        assert(s[i].date@ != s[s.len() - 1].date@);
        assert(entries_map(t) =~= entries_map(s).insert(e.date@, e.status));
    }
}

/// The care records of one plant, at most one per date.
#[derive(Debug)]
pub struct StatusStore {
    entries: Vec<DayEntry>,
}

impl View for StatusStore {
    type V = Map<Seq<char>, PlantStatus>;

    closed spec fn view(&self) -> Map<Seq<char>, PlantStatus> {
        entries_map(self.entries@)
    }
}

/// Position of `date` among `entries`, if it is there.
fn position_of(entries: &Vec<DayEntry>, date: &String) -> (r: Option<usize>)
    ensures
        match r {
            Some(i) => i < entries@.len() && entries@[i as int].date@ == date@,
            None => forall|i: int| 0 <= i < entries@.len() ==> #[trigger] entries@[i].date@ != date@,
        },
{
    let mut i: usize = 0;
    while i < entries.len()
        invariant
            i <= entries@.len(),
            forall|j: int| 0 <= j < i ==> #[trigger] entries@[j].date@ != date@,
        decreases entries@.len() - i,
    {
        if entries[i].date == *date {
            return Some(i);
        }
        i = i + 1;
    }
    None
}

impl StatusStore {
    #[verifier::type_invariant]
    spec fn inv(self) -> bool {
        dates_distinct(self.entries@)
    }

    /// An empty store, as a newly created plant has.
    pub fn new() -> (r: StatusStore)
        ensures
            r@ == Map::<Seq<char>, PlantStatus>::empty(),
    {
        StatusStore { entries: Vec::new() }
    }

    /// The record written for `date`, if any.
    pub fn get(&self, date: &str) -> (r: Option<PlantStatus>)
        ensures
            r == (if self@.contains_key(date@) {
                Some(self@[date@])
            } else {
                None::<PlantStatus>
            }),
    {
        proof {
            use_type_invariant(self);
        }
        let key = String::from_str(date);
        match position_of(&self.entries, &key) {
            Some(i) => {
                proof {
                    lemma_entries_map_at(self.entries@, i as int);
                }
                Some(self.entries[i].status)
            },
            None => {
                proof {
                    lemma_entries_map_domain(self.entries@, date@);
                }
                None
            },
        }
    }

    /// Writes `status` as the record of `date`, replacing any earlier one.
    fn put(&mut self, date: String, status: PlantStatus)
        ensures
            final(self)@ == old(self)@.insert(date@, status),
    {
        proof {
            use_type_invariant(&*self);
        }
        let mut entries: Vec<DayEntry> = Vec::new();
        std::mem::swap(&mut entries, &mut self.entries);
        let ghost before = entries@;
        let ghost key = date@;
        match position_of(&entries, &date) {
            Some(i) => {
                let e = DayEntry { date, status };
                proof {
                    lemma_entries_map_replace(before, i as int, e);
                }
                entries.set(i, e);
                assert(dates_distinct(entries@)) by {
                    assert forall|a: int, b: int|
                        0 <= a < entries@.len() && 0 <= b < entries@.len() && a != b implies
                        #[trigger] entries@[a].date@ != #[trigger] entries@[b].date@ by {
                        assert(before[a].date@ != before[b].date@);
                    }
                }
            },
            None => {
                entries.push(DayEntry { date, status });
                assert(entries@.drop_last() =~= before);
                assert(dates_distinct(entries@)) by {
                    assert forall|a: int, b: int|
                        0 <= a < entries@.len() && 0 <= b < entries@.len() && a != b implies
                        #[trigger] entries@[a].date@ != #[trigger] entries@[b].date@ by {
                        if a < before.len() && b < before.len() {
                            assert(before[a].date@ != before[b].date@);
                        } else if a < before.len() {
                            assert(before[a].date@ != key);
                        } else {
                            assert(before[b].date@ != key);
                        }
                    }
                }
            },
        }
        self.entries = entries;
    }

    /// Sets field `field` of `date` to `value`, leaving every other field and
    /// date as it was; a date not yet in the store is first created with all
    /// three fields unset.
    pub fn apply_update(&mut self, date: &str, field: StatusField, value: bool)
        requires
            date@.len() > 0,
        ensures
            final(self)@ == updated(old(self)@, date@, field, value),
    {
        let mut day = self.status_on(date);
        day.set(field, value);
        self.put(String::from_str(date), day);
    }

    /// Sets the field named `field` of `date` to `value`. An unknown field
    /// name or an empty date is refused, and the store is then left as it
    /// was; the field name is checked first.
    pub fn apply_named_update(&mut self, date: &str, field: &str, value: bool) -> (r: Result<(), ValidationError>)
        ensures
            field_named(field@) is None ==> r == Err::<(), ValidationError>(ValidationError::UnknownField),
            field_named(field@) is Some && date@.len() == 0 ==> r == Err::<(), ValidationError>(ValidationError::EmptyDate),
            r is Err ==> final(self)@ == old(self)@,
            r is Ok <==> (field_named(field@) is Some && date@.len() > 0),
            r is Ok ==> final(self)@ == updated(old(self)@, date@, field_named(field@)->0, value),
    {
        let f = match StatusField::from_name(field) {
            Ok(f) => f,
            Err(e) => {
                return Err(e);
            },
        };
        if date.unicode_len() == 0 {
            return Err(ValidationError::EmptyDate);
        }
        self.apply_update(date, f, value);
        Ok(())
    }

    /// The entries of the store, one per date, in no particular order.
    pub fn entries(&self) -> (r: &Vec<DayEntry>)
        ensures
            entries_map(r@) == self@,
            dates_distinct(r@),
    {
        proof {
            use_type_invariant(self);
        }
        &self.entries
    }

    /// A store holding the given entries; where a date occurs more than once
    /// the last of its entries is kept.
    pub fn from_entries(entries: Vec<DayEntry>) -> (r: StatusStore)
        ensures
            r@ == entries_map(entries@),
    {
        let mut store = StatusStore::new();
        let mut i: usize = 0;
        while i < entries.len()
            invariant
                i <= entries@.len(),
                store@ == entries_map(entries@.take(i as int)),
            decreases entries@.len() - i,
        {
            let e = &entries[i];
            store.put(e.date.clone(), e.status);
            assert(entries@.take(i + 1).drop_last() =~= entries@.take(i as int));
            i = i + 1;
        }
        assert(entries@.take(i as int) =~= entries@);
        store
    }

    /// The record for `date`, with a missing date read as all unset.
    pub fn status_on(&self, date: &str) -> (r: PlantStatus)
        ensures
            r == status_on(self@, date@),
    {
        match self.get(date) {
            Some(s) => s,
            None => PlantStatus::default(),
        }
    }
}

} // verus!
