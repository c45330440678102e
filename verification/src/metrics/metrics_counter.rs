//! The in-memory request counter.
use vstd::prelude::*;

use crate::text::{chars_of, string_from};

verus! {

/// Number of user agents listed on one metrics page.
pub const RESULTS_PER_PAGE: u32 = 50;

/// Unflushed requests after which the counts are flushed.
pub const MAX_UNFLUSHED_COUNT: u32 = 1000;

/// The longest user agent stored, in characters.  There's a very small chance
/// that scrapers have big ole user agents and might try to exploit the fact
/// that we're storing them.
pub const MAX_USER_AGENT_CHAR_LENGTH: usize = 1024;

/// The user agent as stored: its first `MAX_USER_AGENT_CHAR_LENGTH` characters.
pub open spec fn truncated(user_agent: Seq<char>) -> Seq<char> {
    if user_agent.len() <= MAX_USER_AGENT_CHAR_LENGTH {
        user_agent
    } else {
        user_agent.take(MAX_USER_AGENT_CHAR_LENGTH as int)
    }
}

/// The counts of a list of (user agent, count) entries.
pub open spec fn entries_view(entries: Seq<(String, usize)>) -> Map<Seq<char>, nat>
    decreases entries.len(),
{
    if entries.len() == 0 {
        Map::empty()
    } else {
        entries_view(entries.drop_last()).insert(entries.last().0@, entries.last().1 as nat)
    }
}

/// No user agent occurs twice in the entries.
pub open spec fn distinct_agents(entries: Seq<(String, usize)>) -> bool {
    forall|i: int, j: int| 0 <= i < j < entries.len() ==> entries[i].0@ != entries[j].0@
}

/// The count of a user agent: zero when it has none.
pub open spec fn count_of(counts: Map<Seq<char>, nat>, agent: Seq<char>) -> nat {
    if counts.contains_key(agent) {
        counts[agent]
    } else {
        0
    }
}

/// Counts request per user agent in memory until they are flushed.
pub struct Metrics {
    counts: Vec<(String, usize)>,
    unflushed_count: u32,
    db_path: String,
}

/// What the entries hold at index `k` and beyond is what the view holds for them.
proof fn lemma_entries_view_index(entries: Seq<(String, usize)>, k: int)
    requires
        distinct_agents(entries),
        0 <= k < entries.len(),
    ensures
        entries_view(entries).contains_key(entries[k].0@),
        entries_view(entries)[entries[k].0@] == entries[k].1 as nat,
    decreases entries.len(),
{
    if k < entries.len() - 1 {
        lemma_entries_view_index(entries.drop_last(), k);
    }
}

/// The view holds exactly the agents of the entries.
proof fn lemma_entries_view_keys(entries: Seq<(String, usize)>, agent: Seq<char>)
    ensures
        entries_view(entries).contains_key(agent) <==> exists|k: int| 0 <= k < entries.len() && entries[k].0@ == agent,
    decreases entries.len(),
{
    if entries.len() > 0 {
        lemma_entries_view_keys(entries.drop_last(), agent);
        if entries_view(entries.drop_last()).contains_key(agent) {
            let k = choose|k: int| 0 <= k < entries.len() - 1 && entries.drop_last()[k].0@ == agent;
            assert(entries[k].0@ == agent);
        }
        if exists|k: int| 0 <= k < entries.len() && entries[k].0@ == agent {
            let k = choose|k: int| 0 <= k < entries.len() && entries[k].0@ == agent;
            if k < entries.len() - 1 {
                assert(entries.drop_last()[k].0@ == agent);
            }
        }
    }
}

/// Replacing the count of the entry at `k` replaces the count of its agent.
proof fn lemma_entries_view_update(entries: Seq<(String, usize)>, k: int, e: (String, usize))
    requires
        distinct_agents(entries),
        0 <= k < entries.len(),
        e.0@ == entries[k].0@,
    ensures
        distinct_agents(entries.update(k, e)),
        entries_view(entries.update(k, e)) == entries_view(entries).insert(e.0@, e.1 as nat),
    decreases entries.len(),
{
    let u = entries.update(k, e);
    assert(distinct_agents(u)) by {
        assert forall|i: int, j: int| 0 <= i < j < u.len() implies u[i].0@ != u[j].0@ by {
            assert(entries[i].0@ != entries[j].0@);
        }
    }
    if k == entries.len() - 1 {
        assert(u.drop_last() =~= entries.drop_last());
        assert(!entries_view(entries.drop_last()).contains_key(e.0@)) by {
            lemma_entries_view_keys(entries.drop_last(), e.0@);
        }
        assert(entries_view(u) =~= entries_view(entries).insert(e.0@, e.1 as nat));
    } else {
        assert(u.drop_last() =~= entries.drop_last().update(k, e));
        lemma_entries_view_update(entries.drop_last(), k, e);
        assert(entries.last().0@ != e.0@);
        assert(entries_view(u) =~= entries_view(entries).insert(e.0@, e.1 as nat));
    }
}

impl Metrics {
    /// The counts of requests per (truncated) user agent since the last flush.
    pub closed spec fn counts(&self) -> Map<Seq<char>, nat> {
        entries_view(self.counts@)
    }

    /// Requests counted since the counter was last reset.
    pub closed spec fn unflushed(&self) -> nat {
        self.unflushed_count as nat
    }

    /// The path of the metrics database.
    pub closed spec fn db_path_spec(&self) -> Seq<char> {
        self.db_path@
    }

    #[verifier::type_invariant]
    spec fn inv(&self) -> bool {
        &&& distinct_agents(self.counts@)
        &&& self.unflushed_count < MAX_UNFLUSHED_COUNT
        &&& forall|i: int| 0 <= i < self.counts@.len() ==> #[trigger] self.counts@[i].1 <= self.unflushed_count
    }

    /// A counter with no counts, for the database at `db_path`.
    pub fn new(db_path: String) -> (r: Self)
        ensures
            r.counts() == Map::<Seq<char>, nat>::empty(),
            r.unflushed() == 0,
            r.db_path_spec() == db_path@,
    {
        Metrics { counts: Vec::new(), unflushed_count: 0, db_path }
    }

    /// The path of the metrics database.
    pub fn db_path(&self) -> (r: &str)
        ensures
            r@ == self.db_path_spec(),
    {
        self.db_path.as_str()
    }

    /// Increment the request count for the supplied user agent, truncated to
    /// its first `MAX_USER_AGENT_CHAR_LENGTH` characters, by one.  Every
    /// `MAX_UNFLUSHED_COUNT` requests the counts are due for a flush: they
    /// are taken out of the counter and returned, and the counter starts over.
    pub fn count_request(&mut self, user_agent: &str) -> (flush: Option<Vec<(String, usize)>>)
        ensures
            ({
                let agent = truncated(user_agent@);
                let counted = old(self).counts().insert(agent, count_of(old(self).counts(), agent) + 1);
                if old(self).unflushed() + 1 >= MAX_UNFLUSHED_COUNT {
                    &&& flush matches Some(entries) && entries_view(entries@) == counted
                        && distinct_agents(entries@)
                    &&& final(self).counts() == Map::<Seq<char>, nat>::empty()
                    &&& final(self).unflushed() == 0
                } else {
                    &&& flush is None
                    &&& final(self).counts() == counted
                    &&& final(self).unflushed() == old(self).unflushed() + 1
                }
            }),
            final(self).db_path_spec() == old(self).db_path_spec(),
    {
        proof {
            use_type_invariant(&*self);
        }
        let cs = chars_of(user_agent);
        let keep = if cs.len() <= MAX_USER_AGENT_CHAR_LENGTH {
            cs.len()
        } else {
            MAX_USER_AGENT_CHAR_LENGTH
        };
        let agent = string_from(&cs, 0, keep);
        assert(agent@ =~= truncated(user_agent@));
        let ghost old_counts = self.counts@;
        let unflushed = self.unflushed_count + 1;
        let mut counts: Vec<(String, usize)> = Vec::new();
        std::mem::swap(&mut counts, &mut self.counts);
        let mut i: usize = 0;
        while i < counts.len() && counts[i].0 != agent
            invariant
                counts@ == old_counts,
                i <= counts@.len(),
                forall|k: int| 0 <= k < i ==> counts@[k].0@ != agent@,
            decreases counts@.len() - i,
        {
            i = i + 1;
        }
        let ghost agent_view = agent@;
        if i < counts.len() {
            proof {
                lemma_entries_view_index(old_counts, i as int);
            }
            let (name, c) = counts.remove(i);
            counts.insert(i, (name, c + 1));
            proof {
                assert(counts@ =~= old_counts.update(i as int, counts@[i as int]));
                lemma_entries_view_update(old_counts, i as int, counts@[i as int]);
            }
        } else {
            proof {
                lemma_entries_view_keys(old_counts, agent_view);
            }
            counts.push((agent, 1));
            proof {
                assert(counts@.drop_last() =~= old_counts);
            }
        }
        assert(entries_view(counts@) == entries_view(old_counts).insert(agent_view, count_of(entries_view(old_counts), agent_view) + 1));
        assert(distinct_agents(counts@));
        if unflushed >= MAX_UNFLUSHED_COUNT {
            self.unflushed_count = 0;
            Some(counts)
        } else {
            self.unflushed_count = unflushed;
            assert forall|k: int| 0 <= k < counts@.len() implies #[trigger] counts@[k].1 <= unflushed by {
                if k < old_counts.len() && counts@[k] != old_counts[k] {
                    assert(k == i);
                }
            }
            self.counts = counts;
            None
        }
    }

    /// Take the counts out of the counter to flush them to the database.
    pub fn take_counts(&mut self) -> (entries: Vec<(String, usize)>)
        ensures
            entries_view(entries@) == old(self).counts(),
            distinct_agents(entries@),
            final(self).counts() == Map::<Seq<char>, nat>::empty(),
            final(self).unflushed() == old(self).unflushed(),
            final(self).db_path_spec() == old(self).db_path_spec(),
    {
        proof {
            use_type_invariant(&*self);
        }
        let mut entries: Vec<(String, usize)> = Vec::new();
        std::mem::swap(&mut entries, &mut self.counts);
        entries
    }
}

/// The offset of the first entry of a metrics page: pages are numbered from
/// one, page zero is the first page too.
pub fn page_offset(page: u32) -> (r: u32)
    requires
        (if page == 0 { 0 } else { page - 1 }) * RESULTS_PER_PAGE <= u32::MAX,
    ensures
        r == (if page == 0 { 0 } else { page - 1 }) * RESULTS_PER_PAGE,
{
    let before: u32 = if page == 0 { 0 } else { page - 1 };
    before * RESULTS_PER_PAGE
}

} // verus!
