//! The timeline pagination engine: per-timeline fetch state with an
//! append-only, id-descending status buffer, the guard that keeps at
//! most one fetch in flight per timeline, and the laws the cache obeys.

use vstd::prelude::*;

verus! {

/// The timelines the client shows, used to index the cache.
#[derive(Clone, Copy, Debug, PartialEq, Eq, Hash, Structural)]
pub enum Timeline {
    Home,
    Public,
    Local,
}

/// What the engine keeps of a fetched status: its pagination id and the
/// fields the presentation layer shows. Remote ids are carried as the
/// numbers that order the timeline.
#[derive(Debug)]
pub struct StatusRecord {
    pub id: u64,
    pub author: String,
    pub content: String,
}

/// How many statuses one page fetch asks for.
pub const PAGE_LIMIT: u32 = 25;

/// A fetch the presentation loop wants the worker to perform: one page
/// of `key`, strictly older than `max_id` when a cursor is present.
#[derive(Debug)]
pub struct FetchCommand {
    pub key: Timeline,
    pub max_id: Option<u64>,
    pub limit: u32,
}

/// The ids of a run of statuses, in buffer order.
pub open spec fn ids(s: Seq<StatusRecord>) -> Seq<u64> {
    Seq::new(s.len(), |i: int| s[i].id)
}

/// Newest first, no duplicates: every later element has a strictly
/// smaller id.
pub open spec fn strictly_descending(s: Seq<u64>) -> bool {
    forall|i: int, j: int| 0 <= i < j < s.len() ==> s[i] > s[j]
}

/// Whether a fetched page may extend a buffer: the page itself is
/// id-descending and, when both are nonempty, strictly older than the
/// buffer's tail.
pub open spec fn page_extends(tail: Seq<StatusRecord>, items: Seq<StatusRecord>) -> bool {
    &&& strictly_descending(ids(items))
    &&& (tail.len() > 0 && items.len() > 0 ==> tail.last().id > items.first().id)
}

/// The fetch state of one timeline.
#[derive(Debug)]
pub struct TimelineState {
    pub key: Timeline,
    pub statuses: Vec<StatusRecord>,
    pub fetching: bool,
    pub up_to_date: bool,
}

/// The mathematical state of one timeline slot.
#[verifier::ext_equal]
pub struct SlotModel {
    pub statuses: Seq<StatusRecord>,
    pub fetching: bool,
    pub up_to_date: bool,
}

/// The mathematical state of the whole cache, one slot per timeline.
#[verifier::ext_equal]
pub struct CacheModel {
    pub home: Option<SlotModel>,
    pub public_feed: Option<SlotModel>,
    pub local_feed: Option<SlotModel>,
}

impl View for TimelineState {
    type V = SlotModel;

    open spec fn view(&self) -> SlotModel {
        SlotModel {
            statuses: self.statuses@,
            fetching: self.fetching,
            up_to_date: self.up_to_date,
        }
    }
}

/// The model of an optional timeline state.
pub open spec fn opt_view(o: Option<TimelineState>) -> Option<SlotModel> {
    match o {
        Some(st) => Some(st@),
        None => None,
    }
}

impl CacheModel {
    /// The slot for `key`.
    pub open spec fn slot(self, key: Timeline) -> Option<SlotModel> {
        match key {
            Timeline::Home => self.home,
            Timeline::Public => self.public_feed,
            Timeline::Local => self.local_feed,
        }
    }

    /// The model with the slot for `key` replaced.
    pub open spec fn with_slot(self, key: Timeline, sl: Option<SlotModel>) -> CacheModel {
        match key {
            Timeline::Home => CacheModel { home: sl, ..self },
            Timeline::Public => CacheModel { public_feed: sl, ..self },
            Timeline::Local => CacheModel { local_feed: sl, ..self },
        }
    }

    /// Every present slot holds an id-descending buffer.
    pub open spec fn wf(self) -> bool {
        forall|key: Timeline|
            (#[trigger] self.slot(key)) is Some ==> strictly_descending(
                ids(self.slot(key).unwrap().statuses),
            )
    }
}

/// What a load does to one slot: the slot afterwards, and the fetch to
/// issue, if any.
pub open spec fn load_slot_step(sl: Option<SlotModel>, key: Timeline) -> (
    Option<SlotModel>,
    Option<FetchCommand>,
) {
    match sl {
        None => (
            Some(SlotModel { statuses: Seq::empty(), fetching: true, up_to_date: false }),
            Some(FetchCommand { key, max_id: None, limit: PAGE_LIMIT }),
        ),
        Some(sl) => if sl.fetching || sl.up_to_date {
            (Some(sl), None)
        } else {
            (
                Some(SlotModel { fetching: true, ..sl }),
                Some(
                    FetchCommand {
                        key,
                        max_id: if sl.statuses.len() > 0 {
                            Some(sl.statuses.last().id)
                        } else {
                            None
                        },
                        limit: PAGE_LIMIT,
                    },
                ),
            )
        },
    }
}

/// What `TimelineCache::load` does, as a function of the model.
pub open spec fn load_step(m: CacheModel, key: Timeline) -> (CacheModel, Option<FetchCommand>) {
    let (sl, r) = load_slot_step(m.slot(key), key);
    (m.with_slot(key, sl), r)
}

/// What the delivery of a fetched page does to one slot: the slot
/// afterwards, and whether the page was accepted.
pub open spec fn complete_slot_step(sl: Option<SlotModel>, items: Seq<StatusRecord>) -> (
    Option<SlotModel>,
    bool,
) {
    match sl {
        None => if strictly_descending(ids(items)) {
            (Some(SlotModel { statuses: items, fetching: false, up_to_date: true }), true)
        } else {
            (None, false)
        },
        Some(sl) => if page_extends(sl.statuses, items) {
            (
                Some(
                    SlotModel { statuses: sl.statuses + items, fetching: false, up_to_date: true },
                ),
                true,
            )
        } else {
            (Some(SlotModel { fetching: false, ..sl }), false)
        },
    }
}

/// What `TimelineCache::complete_fetch` does, as a function of the
/// model.
pub open spec fn complete_step(m: CacheModel, key: Timeline, items: Seq<StatusRecord>) -> (
    CacheModel,
    bool,
) {
    let (sl, accepted) = complete_slot_step(m.slot(key), items);
    (m.with_slot(key, sl), accepted)
}

/// What `TimelineCache::abort_fetch` does, as a function of the model.
pub open spec fn abort_step(m: CacheModel, key: Timeline) -> CacheModel {
    match m.slot(key) {
        None => m,
        Some(sl) => m.with_slot(key, Some(SlotModel { fetching: false, ..sl })),
    }
}

/// What `TimelineCache::mark_stale` does, as a function of the model.
pub open spec fn stale_step(m: CacheModel, key: Timeline) -> CacheModel {
    match m.slot(key) {
        None => m,
        Some(sl) => m.with_slot(key, Some(SlotModel { up_to_date: false, ..sl })),
    }
}

/// The per-timeline cache held by the presentation state.
#[derive(Debug)]
pub struct TimelineCache {
    pub home: Option<TimelineState>,
    pub public_feed: Option<TimelineState>,
    pub local_feed: Option<TimelineState>,
}

impl View for TimelineCache {
    type V = CacheModel;

    open spec fn view(&self) -> CacheModel {
        CacheModel {
            home: opt_view(self.home),
            public_feed: opt_view(self.public_feed),
            local_feed: opt_view(self.local_feed),
        }
    }
}

fn load_slot(cur: Option<TimelineState>, key: Timeline) -> (r: (
    Option<TimelineState>,
    Option<FetchCommand>,
))
    ensures
        opt_view(r.0) == load_slot_step(opt_view(cur), key).0,
        r.1 == load_slot_step(opt_view(cur), key).1,
{
    match cur {
        None => {
            let st = TimelineState {
                key,
                statuses: Vec::new(),
                fetching: true,
                up_to_date: false,
            };
            proof {
                assert(st@ =~= load_slot_step(opt_view(cur), key).0.unwrap());
            }
            (Some(st), Some(FetchCommand { key, max_id: None, limit: PAGE_LIMIT }))
        },
        Some(mut st) => {
            if st.fetching || st.up_to_date {
                (Some(st), None)
            } else {
                st.fetching = true;
                let max_id = if st.statuses.len() > 0 {
                    Some(st.statuses[st.statuses.len() - 1].id)
                } else {
                    None
                };
                proof {
                    assert(st@ =~= load_slot_step(opt_view(cur), key).0.unwrap());
                }
                (Some(st), Some(FetchCommand { key, max_id, limit: PAGE_LIMIT }))
            }
        },
    }
}

fn complete_slot(cur: Option<TimelineState>, key: Timeline, items: Vec<StatusRecord>) -> (r: (
    Option<TimelineState>,
    bool,
))
    ensures
        opt_view(r.0) == complete_slot_step(opt_view(cur), items@).0,
        r.1 == complete_slot_step(opt_view(cur), items@).1,
{
    let ghost page = items@;
    let ok = check_descending(&items);
    match cur {
        None => {
            if ok {
                let st = TimelineState { key, statuses: items, fetching: false, up_to_date: true };
                proof {
                    assert(st@ =~= complete_slot_step(opt_view(cur), page).0.unwrap());
                }
                (Some(st), true)
            } else {
                (None, false)
            }
        },
        Some(mut st) => {
            let joins = st.statuses.len() == 0 || items.len() == 0 || st.statuses[st.statuses.len()
                - 1].id > items[0].id;
            if ok && joins {
                let mut page_vec = items;
                st.statuses.append(&mut page_vec);
                st.fetching = false;
                st.up_to_date = true;
                proof {
                    assert(page_extends(opt_view(cur).unwrap().statuses, page));
                    assert(st@ =~= complete_slot_step(opt_view(cur), page).0.unwrap());
                }
                (Some(st), true)
            } else {
                st.fetching = false;
                proof {
                    assert(!page_extends(opt_view(cur).unwrap().statuses, page));
                    assert(st@ =~= complete_slot_step(opt_view(cur), page).0.unwrap());
                }
                (Some(st), false)
            }
        },
    }
}

impl TimelineCache {
    /// An empty cache: no timeline loaded yet.
    pub fn new() -> (c: TimelineCache)
        ensures
            c@ == (CacheModel { home: None, public_feed: None, local_feed: None }),
    {
        TimelineCache { home: None, public_feed: None, local_feed: None }
    }

    /// Issue a fetch for `key` unless one is already in flight or the
    /// timeline is up to date: the load of the pagination engine, and
    /// the guard that keeps at most one fetch in flight per timeline.
    pub fn load(&mut self, key: Timeline) -> (r: Option<FetchCommand>)
        ensures
            final(self)@ == load_step(old(self)@, key).0,
            r == load_step(old(self)@, key).1,
    {
        let cur: Option<TimelineState> = match key {
            Timeline::Home => self.home.take(),
            Timeline::Public => self.public_feed.take(),
            Timeline::Local => self.local_feed.take(),
        };
        let (next, r) = load_slot(cur, key);
        match key {
            Timeline::Home => {
                self.home = next;
            },
            Timeline::Public => {
                self.public_feed = next;
            },
            Timeline::Local => {
                self.local_feed = next;
            },
        }
        proof {
            assert(self@ =~= load_step(old(self)@, key).0);
        }
        r
    }

    /// Take delivery of a fetched page for `key`: append it when it
    /// extends the buffer in id order, clear the in-flight flag either
    /// way, and say whether the page was accepted. An empty page is
    /// accepted and only marks the timeline up to date.
    pub fn complete_fetch(&mut self, key: Timeline, items: Vec<StatusRecord>) -> (accepted: bool)
        ensures
            final(self)@ == complete_step(old(self)@, key, items@).0,
            accepted == complete_step(old(self)@, key, items@).1,
    {
        let cur: Option<TimelineState> = match key {
            Timeline::Home => self.home.take(),
            Timeline::Public => self.public_feed.take(),
            Timeline::Local => self.local_feed.take(),
        };
        let (next, accepted) = complete_slot(cur, key, items);
        match key {
            Timeline::Home => {
                self.home = next;
            },
            Timeline::Public => {
                self.public_feed = next;
            },
            Timeline::Local => {
                self.local_feed = next;
            },
        }
        proof {
            assert(self@ =~= complete_step(old(self)@, key, items@).0);
        }
        accepted
    }

    /// Give up on the fetch in flight for `key`, leaving the buffer as
    /// it is: the answer to a failed page fetch, without which the
    /// guard would block the timeline forever.
    pub fn abort_fetch(&mut self, key: Timeline)
        ensures
            final(self)@ == abort_step(old(self)@, key),
    {
        let cur: Option<TimelineState> = match key {
            Timeline::Home => self.home.take(),
            Timeline::Public => self.public_feed.take(),
            Timeline::Local => self.local_feed.take(),
        };
        let next = match cur {
            None => None,
            Some(mut st) => {
                st.fetching = false;
                Some(st)
            },
        };
        match key {
            Timeline::Home => {
                self.home = next;
            },
            Timeline::Public => {
                self.public_feed = next;
            },
            Timeline::Local => {
                self.local_feed = next;
            },
        }
        proof {
            assert(self@ =~= abort_step(old(self)@, key));
        }
    }

    /// Clear the up-to-date flag for `key`, so that the next load
    /// issues an older-page fetch: the scroll-triggered refill signal.
    pub fn mark_stale(&mut self, key: Timeline)
        ensures
            final(self)@ == stale_step(old(self)@, key),
    {
        let cur: Option<TimelineState> = match key {
            Timeline::Home => self.home.take(),
            Timeline::Public => self.public_feed.take(),
            Timeline::Local => self.local_feed.take(),
        };
        let next = match cur {
            None => None,
            Some(mut st) => {
                st.up_to_date = false;
                Some(st)
            },
        };
        match key {
            Timeline::Home => {
                self.home = next;
            },
            Timeline::Public => {
                self.public_feed = next;
            },
            Timeline::Local => {
                self.local_feed = next;
            },
        }
        proof {
            assert(self@ =~= stale_step(old(self)@, key));
        }
    }
}

/// Whether the ids of `items` are strictly descending.
pub fn check_descending(items: &Vec<StatusRecord>) -> (r: bool)
    ensures
        r == strictly_descending(ids(items@)),
{
    if items.len() == 0 {
        return true;
    }
    let mut i: usize = 1;
    while i < items.len()
        invariant
            1 <= i <= items@.len(),
            forall|a: int, b: int| 0 <= a < b < i ==> ids(items@)[a] > ids(items@)[b],
        decreases items@.len() - i,
    {
        if items[i - 1].id <= items[i].id {
            proof {
                assert(ids(items@)[i - 1] <= ids(items@)[i as int]);
            }
            return false;
        }
        proof {
            assert(ids(items@)[i - 1] > ids(items@)[i as int]);
            assert forall|a: int, b: int| 0 <= a < b < i + 1 implies ids(items@)[a] > ids(
                items@,
            )[b] by {
                if b == i {
                    if a < i - 1 {
                        assert(ids(items@)[a] > ids(items@)[i - 1]);
                    }
                }
            }
        }
        i = i + 1;
    }
    true
}

/// Fetch-guard law: once a load has issued a fetch for a timeline, an
/// immediately repeated load for the same timeline is a no-op — it
/// issues nothing and leaves the cache unchanged — until the fetched
/// page is consumed.
pub proof fn lemma_fetch_guard(m: CacheModel, key: Timeline)
    ensures
        ({
            let (m1, r1) = load_step(m, key);
            let (m2, r2) = load_step(m1, key);
            r1 is Some ==> r2 is None && m2 == m1
        }),
{
    let (m1, r1) = load_step(m, key);
    if r1 is Some {
        assert(m1.slot(key) is Some && m1.slot(key).unwrap().fetching);
        assert(m1.with_slot(key, load_slot_step(m1.slot(key), key).0) =~= m1);
    }
}

/// Loading, page delivery and staleness marking preserve the cache
/// invariant: every stored buffer stays strictly id-descending.
pub proof fn lemma_cache_wf_preserved(m: CacheModel, key: Timeline, items: Seq<StatusRecord>)
    requires
        m.wf(),
    ensures
        load_step(m, key).0.wf(),
        complete_step(m, key, items).0.wf(),
        stale_step(m, key).wf(),
        abort_step(m, key).wf(),
{
    let ml = load_step(m, key).0;
    assert forall|k: Timeline| (#[trigger] ml.slot(k)) is Some implies strictly_descending(
        ids(ml.slot(k).unwrap().statuses),
    ) by {
        if k != key {
            assert(ml.slot(k) == m.slot(k));
        } else {
            if m.slot(key) is None {
                assert(ids(ml.slot(k).unwrap().statuses) =~= Seq::<u64>::empty());
            } else {
                assert(ml.slot(k).unwrap().statuses == m.slot(key).unwrap().statuses);
            }
        }
    }
    let mc = complete_step(m, key, items).0;
    assert forall|k: Timeline| (#[trigger] mc.slot(k)) is Some implies strictly_descending(
        ids(mc.slot(k).unwrap().statuses),
    ) by {
        if k != key {
            assert(mc.slot(k) == m.slot(k));
        } else {
            match m.slot(key) {
                None => {},
                Some(sl) => {
                    if page_extends(sl.statuses, items) {
                        lemma_join_descending(sl.statuses, items);
                    } else {
                        assert(mc.slot(k).unwrap().statuses == sl.statuses);
                    }
                },
            }
        }
    }
    let ms = stale_step(m, key);
    assert forall|k: Timeline| (#[trigger] ms.slot(k)) is Some implies strictly_descending(
        ids(ms.slot(k).unwrap().statuses),
    ) by {
        if k != key {
            assert(ms.slot(k) == m.slot(k));
        } else {
            if m.slot(key) is Some {
                assert(ms.slot(k).unwrap().statuses == m.slot(key).unwrap().statuses);
            }
        }
    }
    let ma = abort_step(m, key);
    assert forall|k: Timeline| (#[trigger] ma.slot(k)) is Some implies strictly_descending(
        ids(ma.slot(k).unwrap().statuses),
    ) by {
        if k != key {
            assert(ma.slot(k) == m.slot(k));
        } else {
            if m.slot(key) is Some {
                assert(ma.slot(k).unwrap().statuses == m.slot(key).unwrap().statuses);
            }
        }
    }
}

/// Appending a page that extends a descending buffer keeps the whole
/// buffer descending: nothing is dropped, duplicated or reordered.
pub proof fn lemma_join_descending(tail: Seq<StatusRecord>, items: Seq<StatusRecord>)
    requires
        strictly_descending(ids(tail)),
        page_extends(tail, items),
    ensures
        strictly_descending(ids(tail + items)),
{
    let joined = tail + items;
    assert forall|i: int, j: int| 0 <= i < j < ids(joined).len() implies ids(joined)[i] > ids(
        joined,
    )[j] by {
        if j < tail.len() {
            assert(ids(joined)[i] == ids(tail)[i]);
            assert(ids(joined)[j] == ids(tail)[j]);
        } else if i >= tail.len() {
            assert(ids(joined)[i] == ids(items)[i - tail.len()]);
            assert(ids(joined)[j] == ids(items)[j - tail.len()]);
        } else {
            assert(ids(joined)[i] == ids(tail)[i]);
            assert(ids(joined)[j] == ids(items)[j - tail.len()]);
            assert(ids(tail)[i] >= tail.last().id) by {
                if i < tail.len() - 1 {
                    assert(ids(tail)[i] > ids(tail)[tail.len() - 1]);
                }
                assert(ids(tail)[tail.len() - 1] == tail.last().id);
            }
            assert(ids(items)[j - tail.len()] <= items.first().id) by {
                if j - tail.len() > 0 {
                    assert(ids(items)[0] > ids(items)[j - tail.len()]);
                }
                assert(ids(items)[0] == items.first().id);
            }
        }
    }
}

} // verus!
