//! The first request logger: user agent counts in a concurrent map, flushed
//! to the database every hundred records, and the table that shows them.
use vstd::prelude::*;

use dashmap::DashMap;

use crate::text::{signed_decimal, write_signed_decimal};

verus! {

#[verifier::external_type_specification]
#[verifier::external_body]
#[verifier::reject_recursive_types(K)]
#[verifier::reject_recursive_types(V)]
#[verifier::reject_recursive_types(S)]
pub struct ExDashMap<K, V, S>(DashMap<K, V, S>);

/// A concurrent map from user agents to their request counts.
pub type AgentCountMap = DashMap<String, i32>;

/// What a map of user agent counts holds.
pub uninterp spec fn dash_counts(m: AgentCountMap) -> Map<Seq<char>, i32>;

/// No counts at all.
pub open spec fn no_counts() -> Map<Seq<char>, i32> {
    Map::empty()
}

/// An empty map (`DashMap::new`).
#[verifier::external_body]
fn dash_new() -> (r: AgentCountMap)
    ensures
        dash_counts(r) == no_counts(),
{
    DashMap::new()
}

/// The count of a user agent, when it has one (`DashMap::get`, the value copied out).
#[verifier::external_body]
fn dash_get(m: &AgentCountMap, key: &String) -> (r: Option<i32>)
    ensures
        r is Some <==> dash_counts(*m).contains_key(key@),
        r matches Some(v) ==> v == dash_counts(*m)[key@],
{
    m.get(key).map(|v| *v)
}

/// Sets the count of a user agent (`DashMap::insert`).
#[verifier::external_body]
fn dash_insert(m: &mut AgentCountMap, key: String, value: i32)
    ensures
        dash_counts(*final(m)) == dash_counts(*old(m)).insert(key@, value),
{
    m.insert(key, value);
}

/// Every (user agent, count) entry of the map, in the map's own order
/// (`DashMap::iter`, each key cloned and each value copied).  The order
/// depends on the hashes: the contract states only which entries come out.
#[verifier::external_body]
fn dash_entries(m: &AgentCountMap) -> (r: Vec<(String, i32)>)
    ensures
        agent_counts(r@) == dash_counts(*m),
        distinct_keys(r@),
{
    m.iter().map(|e| (e.key().clone(), *e.value())).collect()
}

/// The counts of a list of (user agent, count) entries; a later entry for
/// the same agent wins.
pub open spec fn agent_counts(entries: Seq<(String, i32)>) -> Map<Seq<char>, i32>
    decreases entries.len(),
{
    if entries.len() == 0 {
        Map::empty()
    } else {
        agent_counts(entries.drop_last()).insert(entries.last().0@, entries.last().1)
    }
}

/// No user agent occurs twice in the entries.
pub open spec fn distinct_keys(entries: Seq<(String, i32)>) -> bool {
    forall|i: int, j: int| 0 <= i < j < entries.len() ==> entries[i].0@ != entries[j].0@
}

/// Records after which the counts are written to the database.
pub const FLUSH_EVERY: u32 = 100;

/// Counts requests per user agent.
pub struct Logger {
    memory_map: AgentCountMap,
    counter: u32,
}

impl Logger {
    /// The count of each user agent.
    pub closed spec fn counts(&self) -> Map<Seq<char>, i32> {
        dash_counts(self.memory_map)
    }

    /// Records since the counts were last written.
    pub closed spec fn pending(&self) -> nat {
        self.counter as nat
    }

    #[verifier::type_invariant]
    spec fn inv(&self) -> bool {
        self.counter <= FLUSH_EVERY
    }

    /// A logger that starts from the counts stored in the database.
    pub fn new(stored: Vec<(String, i32)>) -> (r: Self)
        ensures
            r.counts() == agent_counts(stored@),
            r.pending() == 0,
    {
        let mut memory_map = dash_new();
        let mut i: usize = 0;
        while i < stored.len()
            invariant
                i <= stored@.len(),
                dash_counts(memory_map) == agent_counts(stored@.take(i as int)),
            decreases stored@.len() - i,
        {
            dash_insert(&mut memory_map, stored[i].0.clone(), stored[i].1);
            assert(stored@.take(i + 1).drop_last() =~= stored@.take(i as int));
            i = i + 1;
        }
        assert(stored@.take(stored@.len() as int) =~= stored@);
        Logger { memory_map, counter: 0 }
    }

    /// Count one request of `user_agent`.  Returns whether the counts are due
    /// to be written to the database: every time more than `FLUSH_EVERY`
    /// records have come in since the last write.
    pub fn add_record(&mut self, user_agent: String) -> (flush_due: bool)
        requires
            old(self).counts().contains_key(user_agent@) ==> old(self).counts()[user_agent@] < i32::MAX,
        ensures
            final(self).counts() == old(self).counts().insert(
                user_agent@,
                if old(self).counts().contains_key(user_agent@) {
                    (old(self).counts()[user_agent@] + 1) as i32
                } else {
                    1i32
                },
            ),
            flush_due == (old(self).pending() + 1 > FLUSH_EVERY),
            final(self).pending() == if flush_due { 0 } else { old(self).pending() + 1 },
    {
        proof {
            use_type_invariant(&*self);
        }
        let next = self.counter + 1;
        let mut map = dash_new();
        std::mem::swap(&mut map, &mut self.memory_map);
        match dash_get(&map, &user_agent) {
            Some(c) => dash_insert(&mut map, user_agent, c + 1),
            None => dash_insert(&mut map, user_agent, 1),
        }
        self.memory_map = map;
        if next > FLUSH_EVERY {
            self.counter = 0;
            true
        } else {
            self.counter = next;
            false
        }
    }

    /// The count of one user agent, if it has been seen.
    pub fn count(&self, user_agent: &String) -> (r: Option<i32>)
        ensures
            r is Some <==> self.counts().contains_key(user_agent@),
            r matches Some(v) ==> v == self.counts()[user_agent@],
    {
        dash_get(&self.memory_map, user_agent)
    }

    /// Every (user agent, count) entry, to be written to the database or shown.
    pub fn entries(&self) -> (r: Vec<(String, i32)>)
        ensures
            agent_counts(r@) == self.counts(),
            distinct_keys(r@),
    {
        dash_entries(&self.memory_map)
    }
}

/// The start of the stats table.
pub const TABLE_START: &'static str = "<table><thead><tr><th>User-Agent</th><th>Request Count</th></tr></thead><tbody>";

/// The end of the stats table.
pub const TABLE_END: &'static str = "</tbody></table>";

/// Opens a row of the stats table.
pub const ROW_OPEN: &'static str = "<tr><th>";

/// Between a row's user agent and its count.
pub const ROW_MIDDLE: &'static str = "</th><th>";

/// Closes a row of the stats table.
pub const ROW_CLOSE: &'static str = "</th></tr>";

/// One row of the stats table.
pub open spec fn stats_row(user_agent: Seq<char>, count: i32) -> Seq<char> {
    ROW_OPEN@ + user_agent + ROW_MIDDLE@ + signed_decimal(count as int) + ROW_CLOSE@
}

/// The chunks of the stats table: its start, one row per entry in order, and its end.
pub fn build_html(entries: &Vec<(String, i32)>) -> (r: Vec<String>)
    ensures
        r@.len() == entries@.len() + 2,
        r@[0]@ == TABLE_START@,
        forall|i: int| 0 <= i < entries@.len() ==> (#[trigger] r@[i + 1])@ == stats_row(entries@[i].0@, entries@[i].1),
        r@[entries@.len() + 1int]@ == TABLE_END@,
{
    let mut r: Vec<String> = Vec::new();
    r.push(<String as StringExecFns>::from_str(TABLE_START));
    let mut i: usize = 0;
    while i < entries.len()
        invariant
            i <= entries@.len(),
            r@.len() == i + 1,
            r@[0]@ == TABLE_START@,
            forall|k: int| 0 <= k < i ==> (#[trigger] r@[k + 1])@ == stats_row(entries@[k].0@, entries@[k].1),
        decreases entries@.len() - i,
    {
        let mut row = <String as StringExecFns>::from_str(ROW_OPEN);
        row.append(entries[i].0.as_str());
        row.append(ROW_MIDDLE);
        write_signed_decimal(&mut row, entries[i].1 as i64);
        row.append(ROW_CLOSE);
        assert(row@ =~= stats_row(entries@[i as int].0@, entries@[i as int].1));
        r.push(row);
        i = i + 1;
    }
    r.push(<String as StringExecFns>::from_str(TABLE_END));
    r
}

} // verus!
