//! Zipping three streams into a stream of triplets, in the manner of `futures`' `Zip`.
//!
//! The zip keeps at most one item of each stream waiting. On each poll it polls every stream
//! that has no item waiting; once all three have one, it emits the triplet. It ends as soon as
//! any of the streams has ended and no triplet can be formed.
use vstd::prelude::*;

verus! {

/// What polling one stream gave; a stream that was not polled counts as `Pending`.
#[derive(Debug)]
pub enum Polled<T> {
    Item(T),
    Exhausted,
    Pending,
}

/// The answer of a poll of the zip.
#[derive(Debug, PartialEq, Eq)]
pub enum ZipPoll<T> {
    Ready(Option<T>),
    Pending,
}

/// The item waiting for a stream after it was polled.
pub open spec fn fill<T>(queued: Option<T>, polled: Polled<T>) -> Option<T> {
    match queued {
        Some(x) => Some(x),
        None => match polled {
            Polled::Item(x) => Some(x),
            _ => None,
        },
    }
}

/// The items that wait for each of the three streams.
pub struct Zip3Queues<A, B, C> {
    pub queued1: Option<A>,
    pub queued2: Option<B>,
    pub queued3: Option<C>,
}

/// `a + b`, or the largest `usize` when that overflows.
pub open spec fn saturating(a: usize, b: usize) -> usize {
    if a + b > usize::MAX {
        usize::MAX
    } else {
        (a + b) as usize
    }
}

pub open spec fn min_usize(a: usize, b: usize) -> usize {
    if a <= b {
        a
    } else {
        b
    }
}

/// The smaller of two upper bounds, where `None` means "no bound".
pub open spec fn min_bound(x: Option<usize>, y: Option<usize>) -> Option<usize> {
    match (x, y) {
        (Some(a), Some(b)) => Some(min_usize(a, b)),
        (Some(a), None) => Some(a),
        (None, Some(b)) => Some(b),
        (None, None) => None,
    }
}

/// `a + b`, or nothing when that overflows.
pub open spec fn checked(a: usize, b: usize) -> Option<usize> {
    if a + b > usize::MAX {
        None
    } else {
        Some((a + b) as usize)
    }
}

/// The upper bound of a stream with `queued` items waiting in front of it.
pub open spec fn with_queued(upper: Option<usize>, queued: usize) -> Option<usize> {
    match upper {
        Some(u) => Some(saturating(u, queued)),
        None => None,
    }
}

pub open spec fn count(queued: bool) -> usize {
    if queued {
        1
    } else {
        0
    }
}

/// The upper bound on the triplets still to come, from the streams' upper bounds `u1`, `u2`,
/// `u3` and their waiting items. As `futures`' `Zip` does: when a single stream has a bound,
/// that bound raised by its waiting items, or none when that overflows; when several have
/// one, the least of them, each raised by its waiting items and saturating; none when no
/// stream has a bound.
pub open spec fn upper_bound3(
    q1: usize,
    q2: usize,
    q3: usize,
    u1: Option<usize>,
    u2: Option<usize>,
    u3: Option<usize>,
) -> Option<usize> {
    match (u1, u2, u3) {
        (Some(x), None, None) => checked(x, q1),
        (None, Some(y), None) => checked(y, q2),
        (None, None, Some(z)) => checked(z, q3),
        _ => min_bound(min_bound(with_queued(u1, q1), with_queued(u2, q2)), with_queued(u3, q3)),
    }
}

/// The bounds on the number of triplets still to come, as `futures`' `Zip` computes them for
/// two streams: each stream's lower bound is raised by its waiting items, saturating, and the
/// lower bound is the least of these; the upper bound is `upper_bound3`.
pub open spec fn zip3_size_hint(
    q1: usize,
    q2: usize,
    q3: usize,
    hint1: (usize, Option<usize>),
    hint2: (usize, Option<usize>),
    hint3: (usize, Option<usize>),
) -> (usize, Option<usize>) {
    (
        min_usize(
            min_usize(saturating(hint1.0, q1), saturating(hint2.0, q2)),
            saturating(hint3.0, q3),
        ),
        upper_bound3(q1, q2, q3, hint1.1, hint2.1, hint3.1),
    )
}

/// How many of the hints give an upper bound.
pub open spec fn bounded_count(
    hint1: (usize, Option<usize>),
    hint2: (usize, Option<usize>),
    hint3: (usize, Option<usize>),
) -> nat {
    (if hint1.1 is Some { 1nat } else { 0nat }) + (if hint2.1 is Some { 1nat } else { 0nat }) + (
    if hint3.1 is Some {
        1nat
    } else {
        0nat
    })
}

/// A size hint is consistent when its upper bound, if any, is at least its lower bound.
pub open spec fn consistent(hint: (usize, Option<usize>)) -> bool {
    hint.1 matches Some(u) ==> hint.0 <= u
}

/// The zip's size hint is consistent whenever the hints of the three streams are.
pub proof fn law_size_hint_consistent(
    q1: usize,
    q2: usize,
    q3: usize,
    hint1: (usize, Option<usize>),
    hint2: (usize, Option<usize>),
    hint3: (usize, Option<usize>),
)
    requires
        consistent(hint1),
        consistent(hint2),
        consistent(hint3),
    ensures
        consistent(zip3_size_hint(q1, q2, q3, hint1, hint2, hint3)),
{
}

/// A hint `(lower, upper)` bounds a stream that has `remaining` items still to come.
pub open spec fn bounds(hint: (usize, Option<usize>), remaining: nat) -> bool {
    &&& hint.0 <= remaining
    &&& hint.1 matches Some(u) ==> remaining <= u
}

pub open spec fn min_nat(a: nat, b: nat) -> nat {
    if a <= b {
        a
    } else {
        b
    }
}

/// When each stream's hint bounds the items it still has to give, the zip's hint bounds the
/// triplets it still has to give: a stream with `n` items to come and `q` waiting gives
/// `n + q` more parts, and the zip as many triplets as the fewest of these.
/// When several streams give an upper bound, their bounds saturate, so their counts are
/// taken to fit in a `usize`.
pub proof fn law_size_hint_bounds_triplets(
    q1: usize,
    q2: usize,
    q3: usize,
    hint1: (usize, Option<usize>),
    hint2: (usize, Option<usize>),
    hint3: (usize, Option<usize>),
    n1: nat,
    n2: nat,
    n3: nat,
)
    requires
        bounds(hint1, n1),
        bounds(hint2, n2),
        bounds(hint3, n3),
        bounded_count(hint1, hint2, hint3) >= 2 ==> {
            &&& hint1.1 is Some ==> n1 + q1 <= usize::MAX
            &&& hint2.1 is Some ==> n2 + q2 <= usize::MAX
            &&& hint3.1 is Some ==> n3 + q3 <= usize::MAX
        },
    ensures
        bounds(
            zip3_size_hint(q1, q2, q3, hint1, hint2, hint3),
            min_nat(min_nat(n1 + q1 as nat, n2 + q2 as nat), n3 + q3 as nat),
        ),
{
}

/// The queue of a stream after the zip has taken `items` from it and emitted `k` triplets:
/// the `k`-th item waits when it has been taken, and nothing waits otherwise.
pub open spec fn holds_kth<T>(queued: Option<T>, items: Seq<T>, k: nat) -> bool {
    &&& k <= items.len() <= k + 1
    &&& queued == (if items.len() == k + 1 {
        Some(items[k as int])
    } else {
        None
    })
}

/// The queues of a zip that has taken `a`, `b` and `c` from its streams and emitted `k`
/// triplets.
pub open spec fn tracks<A, B, C>(q: Zip3Queues<A, B, C>, a: Seq<A>, b: Seq<B>, c: Seq<C>, k: nat) -> bool {
    &&& holds_kth(q.queued1, a, k)
    &&& holds_kth(q.queued2, b, k)
    &&& holds_kth(q.queued3, c, k)
}

/// The items taken from a stream, after a poll of it.
pub open spec fn taken<T>(items: Seq<T>, polled: Polled<T>) -> Seq<T> {
    match polled {
        Polled::Item(x) => items.push(x),
        _ => items,
    }
}

/// One poll of the zip: the queues it leaves and its answer.
pub open spec fn spec_advance<A, B, C>(
    q: Zip3Queues<A, B, C>,
    polled1: Polled<A>,
    polled2: Polled<B>,
    polled3: Polled<C>,
    done1: bool,
    done2: bool,
    done3: bool,
) -> (Zip3Queues<A, B, C>, ZipPoll<(A, B, C)>) {
    let q1 = fill(q.queued1, polled1);
    let q2 = fill(q.queued2, polled2);
    let q3 = fill(q.queued3, polled3);
    if q1 is Some && q2 is Some && q3 is Some {
        (
            Zip3Queues { queued1: None, queued2: None, queued3: None },
            ZipPoll::Ready(Some((q1->0, q2->0, q3->0))),
        )
    } else {
        (
            Zip3Queues { queued1: q1, queued2: q2, queued3: q3 },
            if done1 || done2 || done3 {
                ZipPoll::Ready(None)
            } else {
                ZipPoll::Pending
            },
        )
    }
}

/// The `k`-th triplet that the zip emits is made of the `k`-th items of the three streams:
/// an item taken while another stream is pending waits for the next triplet, and no item is
/// lost, repeated or reordered.
pub proof fn law_zip_emits_kth_items<A, B, C>(
    q: Zip3Queues<A, B, C>,
    a: Seq<A>,
    b: Seq<B>,
    c: Seq<C>,
    k: nat,
    polled1: Polled<A>,
    polled2: Polled<B>,
    polled3: Polled<C>,
    done1: bool,
    done2: bool,
    done3: bool,
)
    requires
        tracks(q, a, b, c, k),
        q.queued1 is Some ==> polled1 is Pending,
        q.queued2 is Some ==> polled2 is Pending,
        q.queued3 is Some ==> polled3 is Pending,
    ensures
        ({
            let (next, answer) = spec_advance(q, polled1, polled2, polled3, done1, done2, done3);
            let (a2, b2, c2) = (taken(a, polled1), taken(b, polled2), taken(c, polled3));
            match answer {
                ZipPoll::Ready(Some(t)) => {
                    &&& t == (a2[k as int], b2[k as int], c2[k as int])
                    &&& tracks(next, a2, b2, c2, k + 1)
                },
                _ => tracks(next, a2, b2, c2, k),
            }
        }),
{
}

/// A stream that has ended and has no item waiting ends the zip for good: as long as such a
/// stream is polled again (a fused stream then gives no item), every poll answers
/// `Ready(None)` and the zip emits no further triplet.
pub proof fn law_zip_stays_ended<A, B, C>(
    q: Zip3Queues<A, B, C>,
    polled1: Polled<A>,
    polled2: Polled<B>,
    polled3: Polled<C>,
    done1: bool,
    done2: bool,
    done3: bool,
)
    requires
        (done1 && q.queued1 is None && !(polled1 is Item))
            || (done2 && q.queued2 is None && !(polled2 is Item))
            || (done3 && q.queued3 is None && !(polled3 is Item)),
    ensures
        ({
            let (next, answer) = spec_advance(q, polled1, polled2, polled3, done1, done2, done3);
            &&& answer == ZipPoll::<(A, B, C)>::Ready(None)
            &&& (done1 && next.queued1 is None) || (done2 && next.queued2 is None) || (done3
                && next.queued3 is None)
        }),
{
}

/// What a poll of the zip answers, in terms of what each stream had waiting and what polling it
/// gave: a triplet exactly when every stream has an item, made of the waiting item or else the
/// one just polled, and then nothing waits any more; otherwise the new items wait, and the
/// zip ends only when some stream has ended, and pends when none has.
pub proof fn law_zip_poll_answer<A, B, C>(
    q: Zip3Queues<A, B, C>,
    polled1: Polled<A>,
    polled2: Polled<B>,
    polled3: Polled<C>,
    done1: bool,
    done2: bool,
    done3: bool,
)
    ensures
        ({
            let (next, answer) = spec_advance(q, polled1, polled2, polled3, done1, done2, done3);
            let has1 = q.queued1 is Some || polled1 is Item;
            let has2 = q.queued2 is Some || polled2 is Item;
            let has3 = q.queued3 is Some || polled3 is Item;
            let item1 = if q.queued1 is Some { q.queued1->0 } else { polled1->Item_0 };
            let item2 = if q.queued2 is Some { q.queued2->0 } else { polled2->Item_0 };
            let item3 = if q.queued3 is Some { q.queued3->0 } else { polled3->Item_0 };
            &&& has1 && has2 && has3 ==> {
                &&& answer == ZipPoll::Ready(Some((item1, item2, item3)))
                &&& next.queued1 is None && next.queued2 is None && next.queued3 is None
            }
            &&& !(has1 && has2 && has3) ==> {
                &&& (answer == ZipPoll::<(A, B, C)>::Ready(None)) == (done1 || done2 || done3)
                &&& (answer is Pending) == !(done1 || done2 || done3)
                &&& next.queued1 == (if has1 { Some(item1) } else { None })
                &&& next.queued2 == (if has2 { Some(item2) } else { None })
                &&& next.queued3 == (if has3 { Some(item3) } else { None })
            }
        }),
{
}

/// A stream's upper bound raised by its waiting items, when it has one.
pub open spec fn raised(upper: Option<usize>, queued: usize) -> Option<int> {
    match upper {
        Some(u) => Some(u + queued),
        None => None,
    }
}

/// The zip's upper bound is the least of the streams' bounds, each raised by its waiting
/// items: it is missing only when no stream has a bound, or when a single stream has one and
/// raising it overflows; when present it is at most each raised bound, and it is one of them,
/// or the largest `usize` when that one overflows.
pub proof fn law_size_hint_upper_is_least_bound(
    q1: usize,
    q2: usize,
    q3: usize,
    hint1: (usize, Option<usize>),
    hint2: (usize, Option<usize>),
    hint3: (usize, Option<usize>),
)
    ensures
        ({
            let upper = zip3_size_hint(q1, q2, q3, hint1, hint2, hint3).1;
            let (r1, r2, r3) = (raised(hint1.1, q1), raised(hint2.1, q2), raised(hint3.1, q3));
            let lone_overflow = (r1 matches Some(x) && x > usize::MAX && r2 is None && r3 is None)
                || (r2 matches Some(x) && x > usize::MAX && r1 is None && r3 is None)
                || (r3 matches Some(x) && x > usize::MAX && r1 is None && r2 is None);
            &&& (upper is None) == ((r1 is None && r2 is None && r3 is None) || lone_overflow)
            &&& upper matches Some(u) ==> {
                &&& r1 matches Some(x) ==> u <= x
                &&& r2 matches Some(x) ==> u <= x
                &&& r3 matches Some(x) ==> u <= x
                &&& (r1 matches Some(x) && (u == x || (u == usize::MAX && x > usize::MAX)))
                    || (r2 matches Some(x) && (u == x || (u == usize::MAX && x > usize::MAX)))
                    || (r3 matches Some(x) && (u == x || (u == usize::MAX && x > usize::MAX)))
            }
        }),
{
}

/// The zip's lower bound is the least of the streams' lower bounds, each raised by its waiting
/// items and saturating: at most each of them, and one of them.
pub proof fn law_size_hint_lower_is_least_bound(
    q1: usize,
    q2: usize,
    q3: usize,
    hint1: (usize, Option<usize>),
    hint2: (usize, Option<usize>),
    hint3: (usize, Option<usize>),
)
    ensures
        ({
            let lower = zip3_size_hint(q1, q2, q3, hint1, hint2, hint3).0;
            let (l1, l2, l3) = (hint1.0 + q1, hint2.0 + q2, hint3.0 + q3);
            &&& lower <= l1 && lower <= l2 && lower <= l3
            &&& lower == l1 || lower == l2 || lower == l3 || (lower == usize::MAX && l1 > usize::MAX
                && l2 > usize::MAX && l3 > usize::MAX)
        }),
{
}

/// What polling a stream that never pends gives, when `pos` of its `items` have been taken:
/// nothing when an item of it waits (it is not polled), else its next item, or its end.
pub open spec fn poll_of<T>(items: Seq<T>, pos: nat, queued: bool) -> Polled<T> {
    if queued {
        Polled::Pending
    } else if pos < items.len() {
        Polled::Item(items[pos as int])
    } else {
        Polled::Exhausted
    }
}

/// The number of items taken from a stream after a poll of it.
pub open spec fn advanced<T>(pos: nat, polled: Polled<T>) -> nat {
    if polled is Item {
        pos + 1
    } else {
        pos
    }
}

/// Whether a stream that never pends has ended once polled: it was polled past its last item.
pub open spec fn ended<T>(items: Seq<T>, pos: nat, queued: bool) -> bool {
    !queued && pos >= items.len()
}

/// One poll of the zip over streams that never pend and give `a`, `b`, `c`, then end, from
/// the queues `q` and the counts `p1`, `p2`, `p3` of items taken: the queues and counts it
/// leaves, and its answer.
pub open spec fn run_step<A, B, C>(
    a: Seq<A>,
    b: Seq<B>,
    c: Seq<C>,
    q: Zip3Queues<A, B, C>,
    p1: nat,
    p2: nat,
    p3: nat,
) -> (Zip3Queues<A, B, C>, nat, nat, nat, ZipPoll<(A, B, C)>) {
    let polled1 = poll_of(a, p1, q.queued1 is Some);
    let polled2 = poll_of(b, p2, q.queued2 is Some);
    let polled3 = poll_of(c, p3, q.queued3 is Some);
    let (next, answer) = spec_advance(
        q,
        polled1,
        polled2,
        polled3,
        ended(a, p1, q.queued1 is Some),
        ended(b, p2, q.queued2 is Some),
        ended(c, p3, q.queued3 is Some),
    );
    (next, advanced(p1, polled1), advanced(p2, polled2), advanced(p3, polled3), answer)
}

/// The queues and counts of items taken after `n` polls of a new zip over streams that
/// never pend and give `a`, `b`, `c`, then end.
pub open spec fn run_state<A, B, C>(a: Seq<A>, b: Seq<B>, c: Seq<C>, n: nat) -> (
    Zip3Queues<A, B, C>,
    nat,
    nat,
    nat,
)
    decreases n,
{
    if n == 0 {
        (Zip3Queues { queued1: None, queued2: None, queued3: None }, 0, 0, 0)
    } else {
        let (q, p1, p2, p3) = run_state(a, b, c, (n - 1) as nat);
        let (next, n1, n2, n3, _) = run_step(a, b, c, q, p1, p2, p3);
        (next, n1, n2, n3)
    }
}

/// The answer of the poll that follows `n` earlier polls; see `run_state`.
pub open spec fn run_answer<A, B, C>(a: Seq<A>, b: Seq<B>, c: Seq<C>, n: nat) -> ZipPoll<
    (A, B, C),
> {
    let (q, p1, p2, p3) = run_state(a, b, c, n);
    run_step(a, b, c, q, p1, p2, p3).4
}

proof fn lemma_run_before_end<A, B, C>(a: Seq<A>, b: Seq<B>, c: Seq<C>, n: nat)
    requires
        n <= a.len(),
        n <= b.len(),
        n <= c.len(),
    ensures
        run_state(a, b, c, n) == (
            Zip3Queues { queued1: None::<A>, queued2: None::<B>, queued3: None::<C> },
            n,
            n,
            n,
        ),
    decreases n,
{
    if n > 0 {
        lemma_run_before_end(a, b, c, (n - 1) as nat);
    }
}

/// The invariant of a run once a shortest stream has ended: each stream of that length has
/// given all its items and has none waiting.
spec fn ended_shortest<A, B, C>(
    a: Seq<A>,
    b: Seq<B>,
    c: Seq<C>,
    m: nat,
    st: (Zip3Queues<A, B, C>, nat, nat, nat),
) -> bool {
    &&& a.len() == m ==> st.1 == m && st.0.queued1 is None
    &&& b.len() == m ==> st.2 == m && st.0.queued2 is None
    &&& c.len() == m ==> st.3 == m && st.0.queued3 is None
}

proof fn lemma_run_after_end<A, B, C>(a: Seq<A>, b: Seq<B>, c: Seq<C>, m: nat, n: nat)
    requires
        m == min_nat(min_nat(a.len(), b.len()), c.len()),
        m <= n,
    ensures
        ended_shortest(a, b, c, m, run_state(a, b, c, n)),
    decreases n,
{
    if n == m {
        lemma_run_before_end(a, b, c, m);
    } else {
        lemma_run_after_end(a, b, c, m, (n - 1) as nat);
    }
}

/// A zip of three streams that never pend and give the items `a`, `b` and `c`, then end,
/// gives the triplets `(a[j], b[j], c[j])` for each `j` below the length of the shortest,
/// in that order, then `Ready(None)` on every later poll; it never answers `Pending`.
pub proof fn law_zip_run_of_ready_streams<A, B, C>(a: Seq<A>, b: Seq<B>, c: Seq<C>, j: nat)
    ensures
        j < min_nat(min_nat(a.len(), b.len()), c.len()) ==> run_answer(a, b, c, j)
            == ZipPoll::Ready(Some((a[j as int], b[j as int], c[j as int]))),
        j >= min_nat(min_nat(a.len(), b.len()), c.len()) ==> run_answer(a, b, c, j)
            == ZipPoll::<(A, B, C)>::Ready(None),
{
    let m = min_nat(min_nat(a.len(), b.len()), c.len());
    if j < m {
        lemma_run_before_end(a, b, c, j);
    } else {
        lemma_run_after_end(a, b, c, m, j);
    }
}

fn min(a: usize, b: usize) -> (r: usize)
    ensures
        r == min_usize(a, b),
{
    if a <= b {
        a
    } else {
        b
    }
}

fn min_upper(x: Option<usize>, y: Option<usize>) -> (r: Option<usize>)
    ensures
        r == min_bound(x, y),
{
    match (x, y) {
        (Some(a), Some(b)) => Some(min(a, b)),
        (Some(a), None) => Some(a),
        (None, Some(b)) => Some(b),
        (None, None) => None,
    }
}

fn upper_with_queued(upper: Option<usize>, queued: usize) -> (r: Option<usize>)
    ensures
        r == with_queued(upper, queued),
{
    match upper {
        Some(u) => Some(u.saturating_add(queued)),
        None => None,
    }
}

impl<A, B, C> Zip3Queues<A, B, C> {
    /// No item waits.
    pub fn new() -> (r: Self)
        ensures
            r.queued1 is None,
            r.queued2 is None,
            r.queued3 is None,
    {
        Zip3Queues { queued1: None, queued2: None, queued3: None }
    }

    /// Which streams a poll of the zip polls: those without an item waiting.
    pub fn to_poll(&self) -> (r: (bool, bool, bool))
        ensures
            r == (self.queued1 is None, self.queued2 is None, self.queued3 is None),
    {
        (self.queued1.is_none(), self.queued2.is_none(), self.queued3.is_none())
    }

    /// One poll of the zip, given what polling each stream gave and whether each stream has
    /// ended. A stream with an item waiting is not polled.
    pub fn advance(
        &mut self,
        polled1: Polled<A>,
        polled2: Polled<B>,
        polled3: Polled<C>,
        done1: bool,
        done2: bool,
        done3: bool,
    ) -> (r: ZipPoll<(A, B, C)>)
        requires
            old(self).queued1 is Some ==> polled1 is Pending,
            old(self).queued2 is Some ==> polled2 is Pending,
            old(self).queued3 is Some ==> polled3 is Pending,
        ensures
            (*final(self), r) == spec_advance(*old(self), polled1, polled2, polled3, done1, done2, done3),
    {
        if self.queued1.is_none() {
            if let Polled::Item(item1) = polled1 {
                self.queued1 = Some(item1);
            }
        }
        if self.queued2.is_none() {
            if let Polled::Item(item2) = polled2 {
                self.queued2 = Some(item2);
            }
        }
        if self.queued3.is_none() {
            if let Polled::Item(item3) = polled3 {
                self.queued3 = Some(item3);
            }
        }
        if self.queued1.is_some() && self.queued2.is_some() && self.queued3.is_some() {
            let item1 = self.queued1.take().unwrap();
            let item2 = self.queued2.take().unwrap();
            let item3 = self.queued3.take().unwrap();
            ZipPoll::Ready(Some((item1, item2, item3)))
        } else if done1 || done2 || done3 {
            ZipPoll::Ready(None)
        } else {
            ZipPoll::Pending
        }
    }

    /// Bounds on the number of triplets still to come, from the bounds that the three streams
    /// give of their own remaining lengths; see `zip3_size_hint`.
    pub fn size_hint(
        &self,
        hint1: (usize, Option<usize>),
        hint2: (usize, Option<usize>),
        hint3: (usize, Option<usize>),
    ) -> (r: (usize, Option<usize>))
        ensures
            r == zip3_size_hint(
                count(self.queued1 is Some),
                count(self.queued2 is Some),
                count(self.queued3 is Some),
                hint1,
                hint2,
                hint3,
            ),
    {
        let queued1_len: usize = if self.queued1.is_some() { 1 } else { 0 };
        let queued2_len: usize = if self.queued2.is_some() { 1 } else { 0 };
        let queued3_len: usize = if self.queued3.is_some() { 1 } else { 0 };
        let (stream1_lower, stream1_upper) = hint1;
        let (stream2_lower, stream2_upper) = hint2;
        let (stream3_lower, stream3_upper) = hint3;

        let stream1_lower = stream1_lower.saturating_add(queued1_len);
        let stream2_lower = stream2_lower.saturating_add(queued2_len);
        let stream3_lower = stream3_lower.saturating_add(queued3_len);

        let lower = min(stream1_lower, stream2_lower);
        let lower = min(lower, stream3_lower);

        let upper = match (stream1_upper, stream2_upper, stream3_upper) {
            (Some(x), None, None) => x.checked_add(queued1_len),
            (None, Some(y), None) => y.checked_add(queued2_len),
            (None, None, Some(z)) => z.checked_add(queued3_len),
            _ => {
                let upper = min_upper(
                    upper_with_queued(stream1_upper, queued1_len),
                    upper_with_queued(stream2_upper, queued2_len),
                );
                min_upper(upper, upper_with_queued(stream3_upper, queued3_len))
            },
        };

        (lower, upper)
    }
}

} // verus!
