//! The table of historical records: for a year, the dynasty and the
//! person that the chronicle names, and the periods as the chronicle
//! writes them.

use std::collections::HashMap;
use vstd::prelude::*;

verus! {

broadcast use vstd::std_specs::hash::group_hash_axioms;

/// What the chronicle records for one year.
#[derive(Debug)]
pub struct YearRecord {
    pub gregorian_year: i32,
    pub ganzhi: String,
    pub nian_hexagram: String,
    pub dynasty: String,
    pub person: String,
    pub yuan_raw: String,
    pub hui_raw: String,
    pub yun_raw: String,
    pub shi_raw: String,
    pub xun_raw: String,
}

impl Clone for YearRecord {
    fn clone(&self) -> (copy: Self)
        ensures
            copy == *self,
    {
        YearRecord {
            gregorian_year: self.gregorian_year,
            ganzhi: self.ganzhi.clone(),
            nian_hexagram: self.nian_hexagram.clone(),
            dynasty: self.dynasty.clone(),
            person: self.person.clone(),
            yuan_raw: self.yuan_raw.clone(),
            hui_raw: self.hui_raw.clone(),
            yun_raw: self.yun_raw.clone(),
            shi_raw: self.shi_raw.clone(),
            xun_raw: self.xun_raw.clone(),
        }
    }
}

/// The records of the chronicle, found by their year.
pub struct YearTable {
    pub records: HashMap<i32, YearRecord>,
}

impl View for YearTable {
    type V = Map<i32, YearRecord>;

    open spec fn view(&self) -> Map<i32, YearRecord> {
        self.records@
    }
}

/// The table after the records of `records` from place `from` on have
/// been entered in their order, each under its year: a later record for a
/// year replaces an earlier one.
pub open spec fn entered(table: Map<i32, YearRecord>, records: Seq<YearRecord>, from: int) -> Map<
    i32,
    YearRecord,
>
    decreases records.len() - from,
{
    if 0 <= from < records.len() {
        entered(table.insert(records[from].gregorian_year, records[from]), records, from + 1)
    } else {
        table
    }
}

impl YearTable {
    /// A table without records.
    pub fn new() -> (table: Self)
        ensures
            table@ == Map::<i32, YearRecord>::empty(),
    {
        YearTable { records: HashMap::new() }
    }

    /// The number of years that have a record.
    pub fn len(&self) -> (n: usize)
        ensures
            n == self@.len(),
    {
        self.records.len()
    }

    /// Enters a record under its year, in place of the record that the
    /// year had.
    pub fn insert(&mut self, record: YearRecord)
        ensures
            final(self)@ == old(self)@.insert(record.gregorian_year, record),
    {
        self.records.insert(record.gregorian_year, record);
    }

    /// Enters the records of a list in their order.
    pub fn load(&mut self, records: Vec<YearRecord>)
        ensures
            final(self)@ == entered(old(self)@, records@, 0),
    {
        let mut i: usize = 0;
        while i < records.len()
            invariant
                i <= records.len(),
                entered(self@, records@, i as int) == entered(old(self)@, records@, 0),
            decreases records.len() - i,
        {
            self.insert(records[i].clone());
            i = i + 1;
        }
    }
}

/// The record of the year `year`, where the table has one.
pub fn get_year_record(table: &YearTable, year: i32) -> (record: Option<YearRecord>)
    ensures
        record == if table@.contains_key(year) {
            Some(table@[year])
        } else {
            None
        },
{
    match table.records.get(&year) {
        Some(record) => Some(record.clone()),
        None => None,
    }
}

} // verus!
