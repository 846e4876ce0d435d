use vstd::prelude::*;

use crate::text::str_eq;

verus! {

/// The UI component that consumes a query's result.
#[derive(Debug, Clone, Copy, PartialEq, Eq, Structural)]
pub enum PaneType {
    AlbumArt,
}

/// The operation a query runs against the session.
#[derive(Debug, Clone, PartialEq, Eq)]
pub enum QueryRequest {
    /// Look for the cover art of the song at this path.
    AlbumArt { file: String },
}

/// The result payload of a query.
#[derive(Debug, Clone, PartialEq, Eq)]
pub enum MpdQueryResult {
    /// The cover art's bytes, or none when the song has none.
    AlbumArt(Option<Vec<u8>>),
}

/// A named, replaceable query for the client worker.
#[derive(Debug, Clone)]
pub struct MpdQuery {
    /// The logical purpose of the query, shared by every query for it.
    pub id: &'static str,
    /// When set, every result still pending for this id is superseded.
    pub replace_id: Option<&'static str>,
    /// The component that consumes the result.
    pub target: Option<PaneType>,
    pub request: QueryRequest,
}

/// A query's result as the event loop receives it: the originating id, the
/// sequence number given at issue, and the target.
#[derive(Debug, Clone)]
pub struct QueryResultEvent {
    pub id: &'static str,
    pub seq: u64,
    pub target: Option<PaneType>,
    pub data: MpdQueryResult,
}

/// The sequence number below which results for `id` are stale (the last entry
/// for `id` counts).
pub open spec fn cutoff_of(es: Seq<(&'static str, u64)>, id: Seq<char>) -> Option<u64>
    decreases es.len(),
{
    if es.len() == 0 {
        None
    } else if es.last().0@ == id {
        Some(es.last().1)
    } else {
        cutoff_of(es.drop_last(), id)
    }
}

proof fn lemma_cutoff_update(es: Seq<(&'static str, u64)>, i: int, k: &'static str, v: u64, id: Seq<char>)
    requires
        0 <= i < es.len(),
        es[i].0@ == k@,
        forall|j: int| i < j < es.len() ==> (#[trigger] es[j]).0@ != k@,
    ensures
        cutoff_of(es.update(i, (k, v)), id) == (if id == k@ { Some(v) } else { cutoff_of(es, id) }),
    decreases es.len(),
{
    let es2 = es.update(i, (k, v));
    if i == es.len() - 1 {
        assert(es2.drop_last() =~= es.drop_last());
    } else {
        assert(es2.last() == es.last());
        assert(es.last().0@ != k@);
        assert(es2.drop_last() =~= es.drop_last().update(i, (k, v)));
        assert forall|j: int| i < j < es.drop_last().len() implies (
        #[trigger] es.drop_last()[j]).0@ != k@ by {
            assert(es.drop_last()[j] == es[j]);
        }
        lemma_cutoff_update(es.drop_last(), i, k, v, id);
    }
}

proof fn lemma_cutoff_push(es: Seq<(&'static str, u64)>, k: &'static str, v: u64, id: Seq<char>)
    ensures
        cutoff_of(es.push((k, v)), id) == (if id == k@ { Some(v) } else { cutoff_of(es, id) }),
{
    assert(es.push((k, v)).drop_last() =~= es);
}

/// The replaced id of a query, as characters.
pub open spec fn replace_view(q: MpdQuery) -> Option<Seq<char>> {
    match q.replace_id {
        Some(r) => Some(r@),
        None => None,
    }
}

/// `after` is `before` once one more query, replacing `replace`, was issued.
pub open spec fn issued(before: QueryTracker, after: QueryTracker, replace: Option<Seq<char>>) -> bool {
    &&& after.next() == before.next() + 1
    &&& forall|id: Seq<char>| #[trigger]
        after.cutoff(id) == (if replace == Some(id) { Some(before.next()) } else { before.cutoff(id) })
}

/// The event loop's record of which query results are still current. Each
/// issued query gets the next sequence number; a query that replaces an id
/// makes every earlier result for that id stale.
#[derive(Debug)]
pub struct QueryTracker {
    cutoffs: Vec<(&'static str, u64)>,
    next_seq: u64,
}

impl QueryTracker {
    /// The sequence number the next issued query gets.
    pub closed spec fn next(&self) -> u64 {
        self.next_seq
    }

    /// The sequence number below which results for `id` are stale, if any.
    pub closed spec fn cutoff(&self, id: Seq<char>) -> Option<u64> {
        cutoff_of(self.cutoffs@, id)
    }

    /// Whether a result for `id` with sequence number `seq` is still current.
    pub open spec fn is_current(&self, id: Seq<char>, seq: u64) -> bool {
        match self.cutoff(id) {
            None => true,
            Some(c) => seq >= c,
        }
    }

    /// Every cutoff is the number of a query already issued.
    pub open spec fn wf(&self) -> bool {
        forall|id: Seq<char>| #[trigger] self.cutoff(id) matches Some(c) ==> c < self.next()
    }

    pub fn new() -> (r: Self)
        ensures
            r.next() == 0,
            r.wf(),
            forall|id: Seq<char>| r.cutoff(id) is None,
    {
        QueryTracker { cutoffs: Vec::new(), next_seq: 0 }
    }

    /// Whether another query can get a sequence number.
    pub fn can_issue(&self) -> (r: bool)
        ensures
            r == (self.next() < u64::MAX),
    {
        self.next_seq < u64::MAX
    }

    /// Records a query as issued and returns its sequence number.
    pub fn issue(&mut self, query: &MpdQuery) -> (seq: u64)
        requires
            old(self).next() < u64::MAX,
        ensures
            seq == old(self).next(),
            issued(*old(self), *final(self), replace_view(*query)),
            old(self).wf() ==> final(self).wf(),
    {
        let seq = self.next_seq;
        self.next_seq = self.next_seq + 1;
        if let Some(r) = query.replace_id {
            let ghost before = self.cutoffs@;
            match find_last(&self.cutoffs, r) {
                Some(i) => {
                    self.cutoffs.set(i, (r, seq));
                    proof {
                        assert forall|id: Seq<char>| #[trigger]
                            cutoff_of(self.cutoffs@, id) == (if r@ == id { Some(seq) } else {
                                cutoff_of(before, id)
                            }) by {
                            lemma_cutoff_update(before, i as int, r, seq, id);
                        }
                    }
                },
                None => {
                    self.cutoffs.push((r, seq));
                    proof {
                        assert forall|id: Seq<char>| #[trigger]
                            cutoff_of(self.cutoffs@, id) == (if r@ == id { Some(seq) } else {
                                cutoff_of(before, id)
                            }) by {
                            lemma_cutoff_push(before, r, seq, id);
                        }
                    }
                },
            }
        }
        seq
    }

    /// Whether a result for `id` with sequence number `seq` is still current:
    /// no later query replaced `id` before it arrived.
    pub fn accepts(&self, id: &str, seq: u64) -> (r: bool)
        ensures
            r == self.is_current(id@, seq),
    {
        match find_last(&self.cutoffs, id) {
            Some(i) => seq >= self.cutoffs[i].1,
            None => true,
        }
    }
}

/// Once a query that replaces `x` is issued, every result for `x` from an
/// earlier query is stale, and the result of the replacing query is current.
pub proof fn lemma_replacing_query_discards_earlier(
    before: QueryTracker,
    after: QueryTracker,
    x: Seq<char>,
    earlier: u64,
)
    requires
        before.wf(),
        issued(before, after, Some(x)),
        earlier < before.next(),
    ensures
        !after.is_current(x, earlier),
        after.is_current(x, before.next()),
{
    assert(after.cutoff(x) == Some(before.next()));
}

/// A stale result stays stale whatever queries are issued afterwards.
pub proof fn lemma_stale_stays_stale(
    before: QueryTracker,
    after: QueryTracker,
    replace: Option<Seq<char>>,
    x: Seq<char>,
    seq: u64,
)
    requires
        before.wf(),
        issued(before, after, replace),
        !before.is_current(x, seq),
    ensures
        !after.is_current(x, seq),
{
    assert(after.cutoff(x) == (if replace == Some(x) { Some(before.next()) } else { before.cutoff(x) }));
    assert(before.cutoff(x) matches Some(c) && c < before.next());
}

/// The position of the last entry for `id`.
fn find_last(es: &Vec<(&'static str, u64)>, id: &str) -> (r: Option<usize>)
    ensures
        r matches Some(i) ==> {
            &&& i < es@.len()
            &&& es@[i as int].0@ == id@
            &&& forall|j: int| i < j < es@.len() ==> (#[trigger] es@[j]).0@ != id@
            &&& cutoff_of(es@, id@) == Some(es@[i as int].1)
        },
        r is None ==> cutoff_of(es@, id@) is None,
{
    let n = es.len();
    let mut i: usize = n;
    assert(es@.subrange(0, n as int) =~= es@);
    while i > 0
        invariant
            n == es@.len(),
            i <= n,
            cutoff_of(es@, id@) == cutoff_of(es@.subrange(0, i as int), id@),
            forall|j: int| i <= j < n ==> (#[trigger] es@[j]).0@ != id@,
        decreases i,
    {
        let ghost pre = es@.subrange(0, i as int);
        assert(pre.drop_last() =~= es@.subrange(0, i - 1));
        assert(pre.last() == es@[i - 1]);
        if str_eq(es[i - 1].0, id) {
            return Some(i - 1);
        }
        i = i - 1;
    }
    None
}

} // verus!
