//! Splitting a stream of triplets into three streams.
//!
//! Each item of the input is split in three, and each part is sent on its own channel. A part
//! waits in a buffer until its channel has room; the buffers are flushed in the order first,
//! second, third, and the input is polled again only when all three are empty.
use vstd::prelude::*;

verus! {

/// What to do next on a poll of the unzip.
#[derive(Debug, PartialEq, Eq, Structural)]
pub enum Unzip3Step {
    /// Wait for room on the first channel and send its buffered part.
    FlushFirst,
    /// Wait for room on the second channel and send its buffered part.
    FlushSecond,
    /// Wait for room on the third channel and send its buffered part.
    FlushThird,
    /// Every buffer is empty: poll the input for the next triplet.
    PollInput,
}

/// Whether a channel has room for a part.
#[derive(Debug)]
pub enum Readiness<E> {
    Ready,
    Pending,
    Failed(E),
}

/// What becomes of a waiting part, once its channel has been asked for room.
#[derive(Debug, PartialEq, Eq)]
pub enum Release<T, E> {
    /// The channel has room: send the part, which has left its buffer.
    Send(T),
    /// The channel has no room yet: the part stays in its buffer.
    Wait,
    /// The channel failed: the part stays in its buffer and the unzip ends with the error.
    Fail(E),
}

/// The parts of an input item that wait to be sent.
pub struct Unzip3Buffers<A, B, C> {
    pub buffered_a: Option<A>,
    pub buffered_b: Option<B>,
    pub buffered_c: Option<C>,
}

impl<A, B, C> Unzip3Buffers<A, B, C> {
    /// Nothing is buffered.
    pub fn new() -> (r: Self)
        ensures
            r.buffered_a is None,
            r.buffered_b is None,
            r.buffered_c is None,
    {
        Unzip3Buffers { buffered_a: None, buffered_b: None, buffered_c: None }
    }

    /// The first buffer, in order, that holds a part; or polling the input when none does.
    pub open spec fn spec_next_step(&self) -> Unzip3Step {
        if self.buffered_a is Some {
            Unzip3Step::FlushFirst
        } else if self.buffered_b is Some {
            Unzip3Step::FlushSecond
        } else if self.buffered_c is Some {
            Unzip3Step::FlushThird
        } else {
            Unzip3Step::PollInput
        }
    }

    /// What to do next: see `spec_next_step`.
    pub fn next_step(&self) -> (r: Unzip3Step)
        ensures
            r == self.spec_next_step(),
    {
        if self.buffered_a.is_some() {
            Unzip3Step::FlushFirst
        } else if self.buffered_b.is_some() {
            Unzip3Step::FlushSecond
        } else if self.buffered_c.is_some() {
            Unzip3Step::FlushThird
        } else {
            Unzip3Step::PollInput
        }
    }

    /// Splits the next input item into the three buffers.
    pub fn fill(&mut self, item: (A, B, C))
        requires
            old(self).buffered_a is None,
            old(self).buffered_b is None,
            old(self).buffered_c is None,
        ensures
            final(self).buffered_a == Some(item.0),
            final(self).buffered_b == Some(item.1),
            final(self).buffered_c == Some(item.2),
    {
        let (a, b, c) = item;
        self.buffered_a = Some(a);
        self.buffered_b = Some(b);
        self.buffered_c = Some(c);
    }

    /// Takes what polling the input gave, once every buffer is empty: the next triplet is
    /// split into the buffers, and the end of the input finishes the unzip.
    pub fn accept(&mut self, next: Option<(A, B, C)>) -> (finished: bool)
        requires
            old(self).buffered_a is None,
            old(self).buffered_b is None,
            old(self).buffered_c is None,
        ensures
            finished == next is None,
            match next {
                Some(item) => {
                    &&& final(self).buffered_a == Some(item.0)
                    &&& final(self).buffered_b == Some(item.1)
                    &&& final(self).buffered_c == Some(item.2)
                },
                None => *final(self) == *old(self),
            },
    {
        match next {
            Some(item) => {
                self.fill(item);
                false
            },
            None => true,
        }
    }

    /// Releases the first part according to its channel's readiness: it leaves its buffer only
    /// when the channel is ready, and no part is lost otherwise.
    pub fn release_first<E>(&mut self, readiness: Readiness<E>) -> (r: Release<A, E>)
        requires
            old(self).buffered_a is Some,
        ensures
            final(self).buffered_b == old(self).buffered_b,
            final(self).buffered_c == old(self).buffered_c,
            match readiness {
                Readiness::Ready => r == Release::<A, E>::Send(old(self).buffered_a->0)
                    && final(self).buffered_a is None,
                Readiness::Pending => r == Release::<A, E>::Wait && final(self).buffered_a
                    == old(self).buffered_a,
                Readiness::Failed(e) => r == Release::<A, E>::Fail(e) && final(self).buffered_a
                    == old(self).buffered_a,
            },
    {
        match readiness {
            Readiness::Ready => Release::Send(self.take_first()),
            Readiness::Pending => Release::Wait,
            Readiness::Failed(e) => Release::Fail(e),
        }
    }

    /// Releases the second part according to its channel's readiness; see `release_first`.
    pub fn release_second<E>(&mut self, readiness: Readiness<E>) -> (r: Release<B, E>)
        requires
            old(self).buffered_b is Some,
        ensures
            final(self).buffered_a == old(self).buffered_a,
            final(self).buffered_c == old(self).buffered_c,
            match readiness {
                Readiness::Ready => r == Release::<B, E>::Send(old(self).buffered_b->0)
                    && final(self).buffered_b is None,
                Readiness::Pending => r == Release::<B, E>::Wait && final(self).buffered_b
                    == old(self).buffered_b,
                Readiness::Failed(e) => r == Release::<B, E>::Fail(e) && final(self).buffered_b
                    == old(self).buffered_b,
            },
    {
        match readiness {
            Readiness::Ready => Release::Send(self.take_second()),
            Readiness::Pending => Release::Wait,
            Readiness::Failed(e) => Release::Fail(e),
        }
    }

    /// Releases the third part according to its channel's readiness; see `release_first`.
    pub fn release_third<E>(&mut self, readiness: Readiness<E>) -> (r: Release<C, E>)
        requires
            old(self).buffered_c is Some,
        ensures
            final(self).buffered_a == old(self).buffered_a,
            final(self).buffered_b == old(self).buffered_b,
            match readiness {
                Readiness::Ready => r == Release::<C, E>::Send(old(self).buffered_c->0)
                    && final(self).buffered_c is None,
                Readiness::Pending => r == Release::<C, E>::Wait && final(self).buffered_c
                    == old(self).buffered_c,
                Readiness::Failed(e) => r == Release::<C, E>::Fail(e) && final(self).buffered_c
                    == old(self).buffered_c,
            },
    {
        match readiness {
            Readiness::Ready => Release::Send(self.take_third()),
            Readiness::Pending => Release::Wait,
            Readiness::Failed(e) => Release::Fail(e),
        }
    }

    /// Takes the first part out, once its channel has room for it.
    pub fn take_first(&mut self) -> (r: A)
        requires
            old(self).buffered_a is Some,
        ensures
            r == old(self).buffered_a->0,
            final(self).buffered_a is None,
            final(self).buffered_b == old(self).buffered_b,
            final(self).buffered_c == old(self).buffered_c,
    {
        self.buffered_a.take().unwrap()
    }

    /// Takes the second part out, once its channel has room for it.
    pub fn take_second(&mut self) -> (r: B)
        requires
            old(self).buffered_b is Some,
        ensures
            r == old(self).buffered_b->0,
            final(self).buffered_a == old(self).buffered_a,
            final(self).buffered_b is None,
            final(self).buffered_c == old(self).buffered_c,
    {
        self.buffered_b.take().unwrap()
    }

    /// Takes the third part out, once its channel has room for it.
    pub fn take_third(&mut self) -> (r: C)
        requires
            old(self).buffered_c is Some,
        ensures
            r == old(self).buffered_c->0,
            final(self).buffered_a == old(self).buffered_a,
            final(self).buffered_b == old(self).buffered_b,
            final(self).buffered_c is None,
    {
        self.buffered_c.take().unwrap()
    }
}

/// Parts leave in the order they were split: after an item is filled in, the steps are to
/// flush the first, second and third part, in that order, and then to poll the input again.
pub proof fn law_parts_flush_in_order<A, B, C>(a: A, b: B, c: C)
    ensures
        ({
            let full = Unzip3Buffers { buffered_a: Some(a), buffered_b: Some(b), buffered_c: Some(c) };
            let after_first = Unzip3Buffers {
                buffered_a: None::<A>,
                buffered_b: Some(b),
                buffered_c: Some(c),
            };
            let after_second = Unzip3Buffers {
                buffered_a: None::<A>,
                buffered_b: None::<B>,
                buffered_c: Some(c),
            };
            let empty = Unzip3Buffers {
                buffered_a: None::<A>,
                buffered_b: None::<B>,
                buffered_c: None::<C>,
            };
            &&& full.spec_next_step() == Unzip3Step::FlushFirst
            &&& after_first.spec_next_step() == Unzip3Step::FlushSecond
            &&& after_second.spec_next_step() == Unzip3Step::FlushThird
            &&& empty.spec_next_step() == Unzip3Step::PollInput
        }),
{
}

/// One output's share of the routing: `parts` are that output's parts of every input item
/// split so far, and `sent` what has been handed to its channel. Either everything has been
/// sent, or all but the last part, which waits in `buffered`.
pub open spec fn routed<T>(buffered: Option<T>, parts: Seq<T>, sent: Seq<T>) -> bool {
    match buffered {
        Some(x) => parts.len() > 0 && x == parts.last() && sent == parts.drop_last(),
        None => sent == parts,
    }
}

/// The unzip has split `inputs` and handed `sent_a`, `sent_b`, `sent_c` to the three channels.
pub open spec fn routes<A, B, C>(
    buffers: Unzip3Buffers<A, B, C>,
    inputs: Seq<(A, B, C)>,
    sent_a: Seq<A>,
    sent_b: Seq<B>,
    sent_c: Seq<C>,
) -> bool {
    &&& routed(buffers.buffered_a, inputs.map_values(|t: (A, B, C)| t.0), sent_a)
    &&& routed(buffers.buffered_b, inputs.map_values(|t: (A, B, C)| t.1), sent_b)
    &&& routed(buffers.buffered_c, inputs.map_values(|t: (A, B, C)| t.2), sent_c)
}

/// Each channel receives its own part of every input item, in input order and nothing else:
/// splitting an item and taking a part out, as `fill` and `take_*` do, keep the parts sent on
/// each channel equal to that channel's parts of the items split so far, save the one that
/// waits. When nothing waits, each channel has received exactly its parts.
pub proof fn law_unzip_routes_parts_in_order<A, B, C>(
    buffers: Unzip3Buffers<A, B, C>,
    inputs: Seq<(A, B, C)>,
    sent_a: Seq<A>,
    sent_b: Seq<B>,
    sent_c: Seq<C>,
    item: (A, B, C),
)
    requires
        routes(buffers, inputs, sent_a, sent_b, sent_c),
    ensures
        buffers.buffered_a is None && buffers.buffered_b is None && buffers.buffered_c is None
            ==> routes(
            Unzip3Buffers {
                buffered_a: Some(item.0),
                buffered_b: Some(item.1),
                buffered_c: Some(item.2),
            },
            inputs.push(item),
            sent_a,
            sent_b,
            sent_c,
        ),
        buffers.buffered_a matches Some(x) ==> routes(
            Unzip3Buffers {
                buffered_a: None,
                buffered_b: buffers.buffered_b,
                buffered_c: buffers.buffered_c,
            },
            inputs,
            sent_a.push(x),
            sent_b,
            sent_c,
        ),
        buffers.buffered_b matches Some(x) ==> routes(
            Unzip3Buffers {
                buffered_a: buffers.buffered_a,
                buffered_b: None,
                buffered_c: buffers.buffered_c,
            },
            inputs,
            sent_a,
            sent_b.push(x),
            sent_c,
        ),
        buffers.buffered_c matches Some(x) ==> routes(
            Unzip3Buffers {
                buffered_a: buffers.buffered_a,
                buffered_b: buffers.buffered_b,
                buffered_c: None,
            },
            inputs,
            sent_a,
            sent_b,
            sent_c.push(x),
        ),
        buffers.buffered_a is None ==> sent_a == inputs.map_values(|t: (A, B, C)| t.0),
        buffers.buffered_b is None ==> sent_b == inputs.map_values(|t: (A, B, C)| t.1),
        buffers.buffered_c is None ==> sent_c == inputs.map_values(|t: (A, B, C)| t.2),
{
    let pa = inputs.map_values(|t: (A, B, C)| t.0);
    let pb = inputs.map_values(|t: (A, B, C)| t.1);
    let pc = inputs.map_values(|t: (A, B, C)| t.2);
    let pushed = inputs.push(item);
    assert(pushed.map_values(|t: (A, B, C)| t.0) =~= pa.push(item.0));
    assert(pushed.map_values(|t: (A, B, C)| t.1) =~= pb.push(item.1));
    assert(pushed.map_values(|t: (A, B, C)| t.2) =~= pc.push(item.2));
    assert(pa.push(item.0).drop_last() =~= pa);
    assert(pb.push(item.1).drop_last() =~= pb);
    assert(pc.push(item.2).drop_last() =~= pc);
    if buffers.buffered_a is Some {
        assert(pa.drop_last().push(pa.last()) =~= pa);
    }
    if buffers.buffered_b is Some {
        assert(pb.drop_last().push(pb.last()) =~= pb);
    }
    if buffers.buffered_c is Some {
        assert(pc.drop_last().push(pc.last()) =~= pc);
    }
}

/// The state of an unzip whose channels are always ready and whose input gives `inputs`
/// without pending: its buffers, how many input items it has taken, and what it has handed to
/// each channel.
pub type UnzipRun<A, B, C> = (Unzip3Buffers<A, B, C>, nat, Seq<A>, Seq<B>, Seq<C>);

/// One turn of the unzip's loop in such a run: the step that `next_step` picks, with the part
/// sent at once, or the next input item split into the buffers. At the end of the input the
/// state stays as it is (the unzip has finished).
pub open spec fn unzip_turn<A, B, C>(inputs: Seq<(A, B, C)>, st: UnzipRun<A, B, C>) -> UnzipRun<
    A,
    B,
    C,
> {
    let (buf, pos, sa, sb, sc) = st;
    match buf.spec_next_step() {
        Unzip3Step::FlushFirst => (
            Unzip3Buffers {
                buffered_a: None,
                buffered_b: buf.buffered_b,
                buffered_c: buf.buffered_c,
            },
            pos,
            sa.push(buf.buffered_a->0),
            sb,
            sc,
        ),
        Unzip3Step::FlushSecond => (
            Unzip3Buffers {
                buffered_a: buf.buffered_a,
                buffered_b: None,
                buffered_c: buf.buffered_c,
            },
            pos,
            sa,
            sb.push(buf.buffered_b->0),
            sc,
        ),
        Unzip3Step::FlushThird => (
            Unzip3Buffers {
                buffered_a: buf.buffered_a,
                buffered_b: buf.buffered_b,
                buffered_c: None,
            },
            pos,
            sa,
            sb,
            sc.push(buf.buffered_c->0),
        ),
        Unzip3Step::PollInput => if pos < inputs.len() {
            (
                Unzip3Buffers {
                    buffered_a: Some(inputs[pos as int].0),
                    buffered_b: Some(inputs[pos as int].1),
                    buffered_c: Some(inputs[pos as int].2),
                },
                pos + 1,
                sa,
                sb,
                sc,
            )
        } else {
            st
        },
    }
}

/// The state after `k` turns of a new unzip in such a run.
pub open spec fn unzip_run<A, B, C>(inputs: Seq<(A, B, C)>, k: nat) -> UnzipRun<A, B, C>
    decreases k,
{
    if k == 0 {
        (
            Unzip3Buffers { buffered_a: None, buffered_b: None, buffered_c: None },
            0,
            Seq::empty(),
            Seq::empty(),
            Seq::empty(),
        )
    } else {
        unzip_turn(inputs, unzip_run(inputs, (k - 1) as nat))
    }
}

/// After every part of the first `i` input items has been sent, and nothing waits.
pub open spec fn delivered<A, B, C>(inputs: Seq<(A, B, C)>, i: nat, st: UnzipRun<A, B, C>) -> bool {
    &&& st.0.buffered_a is None
    &&& st.0.buffered_b is None
    &&& st.0.buffered_c is None
    &&& st.1 == i
    &&& st.2 == inputs.take(i as int).map_values(|t: (A, B, C)| t.0)
    &&& st.3 == inputs.take(i as int).map_values(|t: (A, B, C)| t.1)
    &&& st.4 == inputs.take(i as int).map_values(|t: (A, B, C)| t.2)
}

proof fn lemma_unzip_run_item<A, B, C>(inputs: Seq<(A, B, C)>, i: nat)
    requires
        i <= inputs.len(),
    ensures
        delivered(inputs, i, unzip_run(inputs, 4 * i)),
    decreases i,
{
    if i > 0 {
        let j = (i - 1) as nat;
        lemma_unzip_run_item(inputs, j);
        let st0 = unzip_run(inputs, 4 * j);
        let st1 = unzip_run(inputs, 4 * j + 1);
        let st2 = unzip_run(inputs, 4 * j + 2);
        let st3 = unzip_run(inputs, 4 * j + 3);
        let st4 = unzip_run(inputs, 4 * j + 4);
        assert(st1 == unzip_turn(inputs, st0));
        assert(st2 == unzip_turn(inputs, st1));
        assert(st3 == unzip_turn(inputs, st2));
        assert(st4 == unzip_turn(inputs, st3));
        let item = inputs[j as int];
        assert(inputs.take(i as int) =~= inputs.take(j as int).push(item));
        assert(inputs.take(i as int).map_values(|t: (A, B, C)| t.0) =~= inputs.take(
            j as int,
        ).map_values(|t: (A, B, C)| t.0).push(item.0));
        assert(inputs.take(i as int).map_values(|t: (A, B, C)| t.1) =~= inputs.take(
            j as int,
        ).map_values(|t: (A, B, C)| t.1).push(item.1));
        assert(inputs.take(i as int).map_values(|t: (A, B, C)| t.2) =~= inputs.take(
            j as int,
        ).map_values(|t: (A, B, C)| t.2).push(item.2));
        assert(4 * i == 4 * j + 4);
    } else {
        assert(inputs.take(0).map_values(|t: (A, B, C)| t.0) =~= Seq::<A>::empty());
        assert(inputs.take(0).map_values(|t: (A, B, C)| t.1) =~= Seq::<B>::empty());
        assert(inputs.take(0).map_values(|t: (A, B, C)| t.2) =~= Seq::<C>::empty());
    }
}

/// With channels that are always ready and an input that gives `inputs` without pending and
/// then ends, the unzip hands each channel its own part of every input item, in input order
/// and nothing else: after four turns per item, every part has been sent and nothing waits,
/// and the next turn polls the input, whose end finishes the unzip. It finishes only then.
pub proof fn law_unzip_run_delivers_all<A, B, C>(inputs: Seq<(A, B, C)>)
    ensures
        ({
            let st = unzip_run(inputs, 4 * inputs.len());
            &&& st.0.spec_next_step() == Unzip3Step::PollInput
            &&& st.1 == inputs.len()
            &&& st.2 == inputs.map_values(|t: (A, B, C)| t.0)
            &&& st.3 == inputs.map_values(|t: (A, B, C)| t.1)
            &&& st.4 == inputs.map_values(|t: (A, B, C)| t.2)
        }),
{
    lemma_unzip_run_item(inputs, inputs.len());
    assert(inputs.take(inputs.len() as int) =~= inputs);
}

} // verus!
