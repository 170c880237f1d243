//! The data lifecycle manager: owns the live snapshot collection, ingests
//! new harvests, evicts stale points, and hands out deep copies for
//! freezing.
use vstd::prelude::*;
use crate::app::data_harvester::Data;

verus! {

/// Whether a point harvested at `time` is stale at `current` (both in
/// milliseconds), given the allowed age: it stays exactly when it is at
/// most `max_age_millis` old. A point newer than `current` is never stale.
pub open spec fn is_stale(time: u64, current: u64, max_age_millis: u64) -> bool {
    time < current && current - time > max_age_millis
}

/// The points a clean pass at `current` keeps out of `s`: the non-stale
/// ones, in their original order.
pub open spec fn cleaned(s: Seq<Data>, current: u64, max_age_millis: u64) -> Seq<Data>
    decreases s.len(),
{
    if s.len() == 0 {
        s
    } else {
        let rest = cleaned(s.drop_last(), current, max_age_millis);
        if is_stale(s.last().collection_time, current, max_age_millis) {
            rest
        } else {
            rest.push(s.last())
        }
    }
}

/// The live collection of harvested snapshots, in arrival order.
pub struct DataCollection {
    /// Harvested points, oldest first.
    pub data: Vec<Data>,
    /// The harvest instant of the most recently ingested snapshot, in
    /// milliseconds; 0 before anything was ingested.
    pub current_time: u64,
}

impl Default for DataCollection {
    /// The empty collection a fresh dashboard starts from.
    fn default() -> (empty: DataCollection)
        ensures
            empty.data@.len() == 0,
            empty.current_time == 0,
    {
        DataCollection { data: Vec::new(), current_time: 0 }
    }
}

impl DataCollection {
    /// Ingests one harvested snapshot: appends it to the live collection
    /// and advances the collection clock to its harvest instant.
    pub fn eat_data(&mut self, harvested: Box<Data>)
        ensures
            final(self).data@ == old(self).data@.push(*harvested),
            final(self).current_time == harvested.collection_time,
    {
        self.current_time = harvested.collection_time;
        self.data.push(*harvested);
    }

    /// Removes every stale point from the live collection; the kept points
    /// stay in order and the collection clock is untouched.
    pub fn clean_data(&mut self, max_age_millis: u64)
        ensures
            final(self).current_time == old(self).current_time,
            final(self).data@ == cleaned(old(self).data@, old(self).current_time, max_age_millis),
    {
        let current = self.current_time;
        let mut kept: Vec<Data> = Vec::new();
        let mut i: usize = 0;
        let n = self.data.len();
        while i < n
            invariant
                i <= n,
                n == self.data@.len(),
                self.data@ == old(self).data@,
                self.current_time == old(self).current_time,
                current == self.current_time,
                kept@ == cleaned(self.data@.subrange(0, i as int), current, max_age_millis),
            decreases n - i,
        {
            let point = self.data[i];
            if !(point.collection_time < current && current - point.collection_time > max_age_millis) {
                kept.push(point);
            }
            proof {
                let prefix = self.data@.subrange(0, i as int);
                let extended = self.data@.subrange(0, i + 1 as int);
                assert(extended.drop_last() =~= prefix);
                assert(extended.last() == self.data@[i as int]);
            }
            i += 1;
        }
        proof {
            assert(self.data@.subrange(0, n as int) =~= self.data@);
        }
        self.data = kept;
    }

    /// An owned deep copy: the same points and the same clock.
    pub fn deep_copy(&self) -> (copy: DataCollection)
        ensures
            copy.data@ == self.data@,
            copy.current_time == self.current_time,
    {
        let mut data: Vec<Data> = Vec::new();
        let mut i: usize = 0;
        let n = self.data.len();
        while i < n
            invariant
                i <= n,
                n == self.data@.len(),
                data@ == self.data@.subrange(0, i as int),
            decreases n - i,
        {
            data.push(self.data[i]);
            proof {
                assert(data@ =~= self.data@.subrange(0, i + 1 as int));
            }
            i += 1;
        }
        proof {
            assert(self.data@.subrange(0, n as int) =~= self.data@);
        }
        DataCollection { data, current_time: self.current_time }
    }
}

} // verus!
