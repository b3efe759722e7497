//! Queries against a data service, with the choices spelled out as
//! enumerations instead of positional flags.

use vstd::prelude::*;

verus! {

/// Where a query reads from.
#[derive(Debug, Clone, Copy, PartialEq, Eq, Structural)]
pub enum DataSource {
    /// The local cache only.
    Cache,
    /// What the remote service answered.
    ApiService,
}

/// What a query does with empty records.
#[derive(Debug, Clone, Copy, PartialEq, Eq, Structural)]
pub enum EmptyDataOptions {
    /// Leave them out of the answer.
    Ignore,
    /// Answer with them.
    Keep,
}

/// The records as byte sequences.
pub open spec fn records_of(records: Seq<Vec<u8>>) -> Seq<Seq<u8>> {
    records.map_values(|record: Vec<u8>| record@)
}

/// The answer to a query over `records`.
pub open spec fn answer(records: Seq<Seq<u8>>, empty: EmptyDataOptions) -> Seq<Seq<u8>> {
    match empty {
        EmptyDataOptions::Ignore => records.filter(|record: Seq<u8>| record.len() > 0),
        EmptyDataOptions::Keep => records,
    }
}

/// A data service: a cache, and the records last received from the
/// remote service.
pub struct DataService {
    cache: Vec<Vec<u8>>,
    rest_api: Vec<Vec<u8>>,
}

impl DataService {
    /// The cached records.
    pub closed spec fn cached(&self) -> Seq<Seq<u8>> {
        records_of(self.cache@)
    }

    /// The records received from the remote service.
    pub closed spec fn received(&self) -> Seq<Seq<u8>> {
        records_of(self.rest_api@)
    }

    /// The records that a query on `source` looks at.
    pub open spec fn records(&self, source: DataSource) -> Seq<Seq<u8>> {
        match source {
            DataSource::Cache => self.cached(),
            DataSource::ApiService => self.received(),
        }
    }

    /// A service over the given cache and the given remote records.
    pub fn new(cache: Vec<Vec<u8>>, rest_api: Vec<Vec<u8>>) -> (service: Self)
        ensures
            service.cached() == records_of(cache@),
            service.received() == records_of(rest_api@),
    {
        DataService { cache, rest_api }
    }

    /// The records of `source`, in their order, with or without the empty
    /// ones.
    pub fn query_data(&self, source: DataSource, empty: EmptyDataOptions) -> (data: Vec<Vec<u8>>)
        ensures
            records_of(data@) == answer(self.records(source), empty),
    {
        let records = match source {
            DataSource::Cache => &self.cache,
            DataSource::ApiService => &self.rest_api,
        };
        let ghost all = records_of(records@);
        let ghost wanted = |record: Seq<u8>| record.len() > 0;
        let keep_empty = match empty {
            EmptyDataOptions::Ignore => false,
            EmptyDataOptions::Keep => true,
        };
        let mut data: Vec<Vec<u8>> = Vec::new();
        let mut i: usize = 0;
        proof {
            reveal(Seq::filter);
            assert(all.take(0) =~= Seq::<Seq<u8>>::empty());
        }
        while i < records.len()
            invariant
                i <= records.len(),
                all == records_of(records@),
                wanted == (|record: Seq<u8>| record.len() > 0),
                keep_empty ==> records_of(data@) =~= all.take(i as int),
                !keep_empty ==> records_of(data@) =~= all.take(i as int).filter(wanted),
            decreases records.len() - i,
        {
            let record = &records[i];
            proof {
                reveal(Seq::filter);
                assert(all.take(i + 1).drop_last() =~= all.take(i as int));
                assert(all.take(i + 1).last() == record@);
            }
            if keep_empty || record.len() > 0 {
                let copy = copy_record(record);
                let ghost before = records_of(data@);
                data.push(copy);
                assert(records_of(data@) =~= before.push(record@));
            }
            i = i + 1;
        }
        assert(all.take(i as int) =~= all);
        data
    }
}

/// A copy of a record.
fn copy_record(record: &Vec<u8>) -> (copy: Vec<u8>)
    ensures
        copy@ == record@,
{
    let mut copy: Vec<u8> = Vec::new();
    let mut i: usize = 0;
    while i < record.len()
        invariant
            i <= record.len(),
            copy@ =~= record@.take(i as int),
        decreases record.len() - i,
    {
        copy.push(record[i]);
        i = i + 1;
    }
    assert(record@.take(i as int) =~= record@);
    copy
}

} // verus!
