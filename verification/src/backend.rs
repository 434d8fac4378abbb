//! The cursor model of the paginated read capability: what a page
//! bounded by `max_id` or `since_id` returns over an id-descending
//! timeline, the catch-up count, and the pagination laws — repeated
//! older-page fetches resume exactly where the buffer ends and
//! eventually retrieve every item exactly once, in order.

use vstd::prelude::*;

use crate::timeline::{
    complete_step, ids, load_step, strictly_descending, CacheModel, StatusRecord, Timeline,
};

verus! {

impl Clone for StatusRecord {
    /// A field-for-field copy.
    fn clone(&self) -> (r: StatusRecord)
        ensures
            r == *self,
    {
        let r = StatusRecord {
            id: self.id,
            author: self.author.clone(),
            content: self.content.clone(),
        };
        proof {
            assert(r.author == self.author);
            assert(r.content == self.content);
        }
        r
    }
}

/// The index of the first element with id below `c`: over a descending
/// timeline, where the run of items older than the cursor begins.
pub open spec fn first_below(s: Seq<StatusRecord>, c: u64) -> int
    decreases s.len(),
{
    if s.len() == 0 {
        0
    } else if s[0].id < c {
        0
    } else {
        1 + first_below(s.subrange(1, s.len() as int), c)
    }
}

/// Where a page fetch starts: at the top without a cursor, else at the
/// first item older than the cursor.
pub open spec fn start_of(s: Seq<StatusRecord>, cursor: Option<u64>) -> int {
    match cursor {
        None => 0,
        Some(c) => first_below(s, c),
    }
}

/// Where a page fetch ends: `limit` items past its start, or the end of
/// the timeline.
pub open spec fn end_of(s: Seq<StatusRecord>, start: int, limit: nat) -> int {
    if start + limit <= s.len() {
        start + limit
    } else {
        s.len() as int
    }
}

/// What one older-page fetch returns: up to `limit` items strictly
/// older than the cursor, newest first.
pub open spec fn page_spec(s: Seq<StatusRecord>, cursor: Option<u64>, limit: nat) -> Seq<
    StatusRecord,
> {
    let start = start_of(s, cursor);
    s.subrange(start, end_of(s, start, limit))
}

/// How many items are strictly newer than `since`.
pub open spec fn newer_count(s: Seq<StatusRecord>, since: u64) -> nat
    decreases s.len(),
{
    if s.len() == 0 {
        0
    } else {
        newer_count(s.drop_last(), since) + (if s.last().id > since {
            1nat
        } else {
            0nat
        })
    }
}

/// `first_below` splits a descending timeline exactly: everything
/// before it is at or above the cursor, everything from it on is below.
pub proof fn lemma_first_below(s: Seq<StatusRecord>, c: u64)
    requires
        strictly_descending(ids(s)),
    ensures
        0 <= first_below(s, c) <= s.len(),
        forall|k: int| 0 <= k < first_below(s, c) ==> (#[trigger] s[k]).id >= c,
        forall|k: int| first_below(s, c) <= k < s.len() ==> (#[trigger] s[k]).id < c,
    decreases s.len(),
{
    if s.len() == 0 {
    } else if s[0].id < c {
        assert forall|k: int| 0 <= k < s.len() implies (#[trigger] s[k]).id < c by {
            if k > 0 {
                assert(ids(s)[0] > ids(s)[k]);
            }
        }
    } else {
        let t = s.subrange(1, s.len() as int);
        assert(strictly_descending(ids(t))) by {
            assert forall|i: int, j: int| 0 <= i < j < ids(t).len() implies ids(t)[i] > ids(
                t,
            )[j] by {
                assert(ids(s)[i + 1] > ids(s)[j + 1]);
            }
        }
        lemma_first_below(t, c);
        let fb = 1 + first_below(t, c);
        assert forall|k: int| 0 <= k < fb implies (#[trigger] s[k]).id >= c by {
            if k > 0 {
                assert(t[k - 1].id >= c);
            }
        }
        assert forall|k: int| fb <= k < s.len() implies (#[trigger] s[k]).id < c by {
            assert(t[k - 1].id < c);
        }
    }
}

/// One page of items strictly older than the cursor, newest first, from
/// an id-descending timeline. This is the reference behaviour of the
/// remote paginated read, used by tests as a synthetic backend.
pub fn page_older(all: &Vec<StatusRecord>, max_id: Option<u64>, limit: usize) -> (page: Vec<
    StatusRecord,
>)
    requires
        strictly_descending(ids(all@)),
    ensures
        page@ == page_spec(all@, max_id, limit as nat),
{
    let start: usize = match max_id {
        None => 0,
        Some(c) => {
            let mut i: usize = 0;
            while i < all.len() && all[i].id >= c
                invariant
                    i <= all@.len(),
                    forall|k: int| 0 <= k < i ==> (#[trigger] all@[k]).id >= c,
                decreases all@.len() - i,
            {
                i = i + 1;
            }
            proof {
                lemma_first_below(all@, c);
                let fb = first_below(all@, c);
                if i < fb {
                    assert(all@[i as int].id >= c);
                }
                if fb < i {
                    assert(all@[fb].id >= c);
                }
                assert(i == fb);
            }
            i
        },
    };
    let end: usize = if limit <= all.len() - start {
        start + limit
    } else {
        all.len()
    };
    let mut page: Vec<StatusRecord> = Vec::new();
    let mut j: usize = start;
    while j < end
        invariant
            start <= j <= end <= all@.len(),
            page@ == all@.subrange(start as int, j as int),
        decreases end - j,
    {
        page.push(all[j].clone());
        j = j + 1;
        proof {
            assert(page@ =~= all@.subrange(start as int, j as int));
        }
    }
    proof {
        assert(page@ =~= page_spec(all@, max_id, limit as nat));
    }
    page
}

/// Count the items strictly newer than `since`: the cheap catch-up
/// check, which answers with a count and fetches no bodies. The count
/// is exactly the number of items with id above `since`.
pub fn count_newer(all: &Vec<StatusRecord>, since: u64) -> (n: usize)
    ensures
        n == newer_count(all@, since),
{
    let mut n: usize = 0;
    let mut i: usize = 0;
    while i < all.len()
        invariant
            i <= all@.len(),
            n <= i,
            n == newer_count(all@.subrange(0, i as int), since),
        decreases all@.len() - i,
    {
        proof {
            let pre = all@.subrange(0, i + 1);
            assert(pre.drop_last() =~= all@.subrange(0, i as int));
            assert(pre.last() == all@[i as int]);
        }
        if all[i].id > since {
            n = n + 1;
        }
        i = i + 1;
    }
    proof {
        assert(all@.subrange(0, all@.len() as int) =~= all@);
    }
    n
}

/// Catch-up law: over a descending timeline, the items newer than
/// `since` form exactly the leading run above `since`, so its length is
/// the catch-up count.
pub proof fn lemma_newer_count_prefix(s: Seq<StatusRecord>, since: u64, k: int)
    requires
        strictly_descending(ids(s)),
        0 <= k <= s.len(),
        forall|i: int| 0 <= i < k ==> (#[trigger] s[i]).id > since,
        forall|i: int| k <= i < s.len() ==> (#[trigger] s[i]).id <= since,
    ensures
        newer_count(s, since) == k,
    decreases s.len(),
{
    if s.len() == 0 {
    } else {
        let t = s.drop_last();
        assert(strictly_descending(ids(t))) by {
            assert forall|i: int, j: int| 0 <= i < j < ids(t).len() implies ids(t)[i] > ids(
                t,
            )[j] by {
                assert(ids(s)[i] > ids(s)[j]);
            }
        }
        if k == s.len() {
            lemma_newer_count_prefix(t, since, k - 1);
        } else {
            lemma_newer_count_prefix(t, since, k);
        }
    }
}

/// The cursor the cache issues — the id of its last stored item —
/// resumes the backend exactly where the stored prefix ends.
pub proof fn lemma_cursor_resumes(s: Seq<StatusRecord>, k: int)
    requires
        strictly_descending(ids(s)),
        0 <= k <= s.len(),
    ensures
        start_of(
            s,
            if k == 0 {
                None
            } else {
                Some(s[k - 1].id)
            },
        ) == k,
{
    if k > 0 {
        let c = s[k - 1].id;
        lemma_first_below(s, c);
        let fb = first_below(s, c);
        assert forall|i: int| 0 <= i < k implies (#[trigger] s[i]).id >= c by {
            if i < k - 1 {
                assert(ids(s)[i] > ids(s)[k - 1]);
            }
        }
        assert forall|i: int| k <= i < s.len() implies (#[trigger] s[i]).id < c by {
            assert(ids(s)[k - 1] > ids(s)[i]);
        }
        if fb < k {
            assert(s[fb].id >= c);
        }
        if k < fb {
            assert(s[k].id >= c);
        }
    }
}

/// Pagination step law: when the buffer holds a prefix of the backend
/// and a fetch uses the last stored id as its cursor, the page returned
/// is exactly the next run of the backend, so appending it keeps the
/// buffer a prefix and introduces no duplicate and no gap.
pub proof fn lemma_pagination_step(s: Seq<StatusRecord>, stored: Seq<StatusRecord>, limit: nat)
    requires
        strictly_descending(ids(s)),
        stored.len() <= s.len(),
        stored == s.subrange(0, stored.len() as int),
    ensures
        ({
            let cursor: Option<u64> = if stored.len() == 0 {
                None
            } else {
                Some(stored.last().id)
            };
            let page = page_spec(s, cursor, limit);
            &&& page == s.subrange(
                stored.len() as int,
                end_of(s, stored.len() as int, limit),
            )
            &&& stored + page == s.subrange(0, end_of(s, stored.len() as int, limit))
        }),
{
    let k = stored.len() as int;
    if k > 0 {
        assert(stored.last() == s[k - 1]);
    }
    lemma_cursor_resumes(s, k);
    let cursor: Option<u64> = if stored.len() == 0 {
        None
    } else {
        Some(stored.last().id)
    };
    let page = page_spec(s, cursor, limit);
    assert(stored + page =~= s.subrange(0, end_of(s, k, limit)));
}

/// The buffer a cache holds for `key`: the slot's statuses, or nothing.
pub open spec fn stored_of(m: CacheModel, key: Timeline) -> Seq<StatusRecord> {
    match m.slot(key) {
        Some(sl) => sl.statuses,
        None => Seq::empty(),
    }
}

/// A contiguous slice of a descending timeline is itself descending.
pub proof fn lemma_slice_descending(s: Seq<StatusRecord>, lo: int, hi: int)
    requires
        strictly_descending(ids(s)),
        0 <= lo <= hi <= s.len(),
    ensures
        strictly_descending(ids(s.subrange(lo, hi))),
{
    let t = s.subrange(lo, hi);
    assert forall|i: int, j: int| 0 <= i < j < ids(t).len() implies ids(t)[i] > ids(t)[j] by {
        assert(ids(s)[lo + i] > ids(s)[lo + j]);
    }
}

/// The whole pagination engine tracks the backend: when the idle buffer
/// for a timeline is a prefix of an id-descending backend, the next
/// load issues exactly one fetch whose cursor resumes at the prefix
/// end, the backend's answer is accepted, and the buffer becomes the
/// longer prefix — every item arrives exactly once, in order, with no
/// duplicate and no gap, until an empty page ends the history.
pub proof fn lemma_cache_tracks_backend(
    m: CacheModel,
    key: Timeline,
    backend: Seq<StatusRecord>,
    limit: nat,
)
    requires
        strictly_descending(ids(backend)),
        stored_of(m, key).len() <= backend.len(),
        stored_of(m, key) == backend.subrange(0, stored_of(m, key).len() as int),
        (m.slot(key) matches Some(sl) ==> !sl.fetching && !sl.up_to_date),
    ensures
        ({
            let stored = stored_of(m, key);
            let (m1, cmd) = load_step(m, key);
            let page = page_spec(backend, if stored.len() == 0 { None } else { Some(stored.last().id) }, limit);
            &&& cmd matches Some(c) && c.max_id == (if stored.len() == 0 {
                None::<u64>
            } else {
                Some(stored.last().id)
            })
            &&& complete_step(m1, key, page).1
            &&& stored_of(complete_step(m1, key, page).0, key) == backend.subrange(
                0,
                stored.len() + page.len() as int,
            )
        }),
{
    let stored = stored_of(m, key);
    let k = stored.len() as int;
    let (m1, cmd) = load_step(m, key);
    lemma_pagination_step(backend, stored, limit);
    let cursor: Option<u64> = if stored.len() == 0 {
        None
    } else {
        Some(stored.last().id)
    };
    let page = page_spec(backend, cursor, limit);
    let start = start_of(backend, cursor);
    lemma_cursor_resumes(backend, k);
    lemma_slice_descending(backend, k, end_of(backend, k, limit));
    assert(m1.slot(key) is Some && m1.slot(key).unwrap().statuses == stored);
    if stored.len() > 0 && page.len() > 0 {
        assert(stored.last().id == ids(backend)[k - 1]);
        assert(page.first().id == ids(backend)[k]);
        assert(ids(backend)[k - 1] > ids(backend)[k]);
    }
    assert(crate::timeline::page_extends(stored, page));
    assert(stored_of(complete_step(m1, key, page).0, key) == stored + page);
}
pub open spec fn drained(s: Seq<StatusRecord>, k: int, limit: nat) -> Seq<StatusRecord>
    decreases s.len() - k when 0 <= k <= s.len() && limit >= 1
{
    if k >= s.len() {
        Seq::empty()
    } else {
        s.subrange(k, end_of(s, k, limit)) + drained(s, end_of(s, k, limit), limit)
    }
}

/// Pagination completeness law: repeated older-page fetches starting
/// from the empty buffer retrieve the whole backend — every item
/// exactly once, in strictly decreasing id order, with no duplicates —
/// and end on an empty page.
pub proof fn lemma_pagination_completeness(s: Seq<StatusRecord>, limit: nat)
    requires
        strictly_descending(ids(s)),
        limit >= 1,
    ensures
        drained(s, 0, limit) == s,
        page_spec(s, if s.len() == 0 { None } else { Some(s.last().id) }, limit) == Seq::<
            StatusRecord,
        >::empty(),
{
    lemma_drained_from(s, 0, limit);
    assert(s.subrange(0, s.len() as int) =~= s);
    lemma_pagination_step(s, s.subrange(0, s.len() as int), limit);
    assert(page_spec(s, if s.len() == 0 { None } else { Some(s.last().id) }, limit) =~= Seq::<
        StatusRecord,
    >::empty());
}

proof fn lemma_drained_from(s: Seq<StatusRecord>, k: int, limit: nat)
    requires
        0 <= k <= s.len(),
        limit >= 1,
    ensures
        drained(s, k, limit) == s.subrange(k, s.len() as int),
    decreases s.len() - k,
{
    if k >= s.len() {
        assert(drained(s, k, limit) =~= s.subrange(k, s.len() as int));
    } else {
        let end = end_of(s, k, limit);
        lemma_drained_from(s, end, limit);
        assert(s.subrange(k, end) + s.subrange(end, s.len() as int) =~= s.subrange(
            k,
            s.len() as int,
        ));
    }
}

} // verus!
