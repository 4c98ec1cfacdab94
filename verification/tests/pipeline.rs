use raw_ipa::pipeline::unzip3::{Readiness, Release, Unzip3Buffers, Unzip3Step};
use raw_ipa::pipeline::zip3::{Polled, Zip3Queues, ZipPoll};

#[test]
fn zip_emits_once_all_three_have_an_item() {
    let mut q: Zip3Queues<u8, char, bool> = Zip3Queues::new();
    let r = q.advance(Polled::Item(1), Polled::Pending, Polled::Item(true), false, false, false);
    assert_eq!(r, ZipPoll::Pending);
    assert_eq!(q.queued1, Some(1));
    assert_eq!(q.queued3, Some(true));
    let r = q.advance(Polled::Pending, Polled::Item('x'), Polled::Pending, false, false, false);
    assert_eq!(r, ZipPoll::Ready(Some((1, 'x', true))));
    assert_eq!((q.queued1, q.queued2, q.queued3), (None, None, None));
}

#[test]
fn zip_ends_when_a_stream_ends() {
    let mut q: Zip3Queues<u8, u8, u8> = Zip3Queues::new();
    let r = q.advance(Polled::Item(1), Polled::Exhausted, Polled::Item(3), false, true, false);
    assert_eq!(r, ZipPoll::Ready(None));
    assert_eq!(q.queued1, Some(1));
    assert_eq!(q.queued2, None);
}

#[test]
fn zip_size_hint() {
    let q: Zip3Queues<u8, u8, u8> = Zip3Queues::new();
    assert_eq!(q.size_hint((3, Some(3)), (5, Some(7)), (4, None)), (3, Some(3)));
    assert_eq!(q.size_hint((0, None), (0, None), (0, None)), (0, None));
    let mut q: Zip3Queues<u8, u8, u8> = Zip3Queues::new();
    q.queued1 = Some(0);
    q.queued2 = Some(0);
    assert_eq!(q.size_hint((2, Some(2)), (usize::MAX, Some(usize::MAX)), (9, Some(9))), (3, Some(3)));
    assert_eq!(q.size_hint((2, None), (1, Some(4)), (9, None)), (2, Some(5)));
}

#[test]
fn zip_size_hint_overflowing_lone_bound_is_no_bound() {
    let mut q: Zip3Queues<u8, u8, u8> = Zip3Queues::new();
    q.queued1 = Some(0);
    assert_eq!(q.size_hint((0, Some(usize::MAX)), (0, None), (0, None)), (0, None));
    assert_eq!(q.size_hint((0, Some(5)), (0, None), (0, None)), (0, Some(6)));
}

#[test]
fn zip_size_hint_with_a_pending_stream() {
    // Items wait for the first and third streams; the second has nothing more to give.
    let mut q: Zip3Queues<u8, u8, u8> = Zip3Queues::new();
    let r = q.advance(Polled::Item(1), Polled::Pending, Polled::Item(3), false, false, false);
    assert_eq!(r, ZipPoll::Pending);
    assert_eq!(q.size_hint((0, Some(0)), (0, Some(0)), (0, Some(0))), (0, Some(0)));
}

#[test]
fn unzip_flushes_parts_in_order() {
    let mut b: Unzip3Buffers<u8, char, bool> = Unzip3Buffers::new();
    assert_eq!(b.next_step(), Unzip3Step::PollInput);
    b.fill((5, 'z', false));
    assert_eq!(b.next_step(), Unzip3Step::FlushFirst);
    assert_eq!(b.take_first(), 5);
    assert_eq!(b.next_step(), Unzip3Step::FlushSecond);
    assert_eq!(b.take_second(), 'z');
    assert_eq!(b.next_step(), Unzip3Step::FlushThird);
    assert!(!b.take_third());
    assert_eq!(b.next_step(), Unzip3Step::PollInput);
}

#[test]
fn zip_polls_only_streams_without_a_waiting_item() {
    let mut q: Zip3Queues<u8, u8, u8> = Zip3Queues::new();
    assert_eq!(q.to_poll(), (true, true, true));
    q.advance(Polled::Item(1), Polled::Pending, Polled::Item(3), false, false, false);
    assert_eq!(q.to_poll(), (false, true, false));
}

/// Drives the zip as its stream does, over streams that never pend.
fn run_zip(a: &[u8], b: &[u8], c: &[u8], polls: usize) -> Vec<ZipPoll<(u8, u8, u8)>> {
    let mut q: Zip3Queues<u8, u8, u8> = Zip3Queues::new();
    let (mut p1, mut p2, mut p3) = (0, 0, 0);
    let mut answers = Vec::new();
    for _ in 0..polls {
        let (poll1, poll2, poll3) = q.to_poll();
        let next = |poll: bool, items: &[u8], pos: &mut usize| {
            if !poll {
                (Polled::Pending, false)
            } else if *pos < items.len() {
                *pos += 1;
                (Polled::Item(items[*pos - 1]), false)
            } else {
                (Polled::Exhausted, true)
            }
        };
        let (polled1, done1) = next(poll1, a, &mut p1);
        let (polled2, done2) = next(poll2, b, &mut p2);
        let (polled3, done3) = next(poll3, c, &mut p3);
        answers.push(q.advance(polled1, polled2, polled3, done1, done2, done3));
    }
    answers
}

#[test]
fn zip_of_ready_streams_gives_the_shortest_run_then_ends() {
    let answers = run_zip(&[1, 2], &[3, 4, 5], &[6, 7], 5);
    assert_eq!(
        answers,
        vec![
            ZipPoll::Ready(Some((1, 3, 6))),
            ZipPoll::Ready(Some((2, 4, 7))),
            ZipPoll::Ready(None),
            ZipPoll::Ready(None),
            ZipPoll::Ready(None),
        ]
    );
}

#[test]
fn unzip_releases_a_part_only_when_its_channel_is_ready() {
    let mut b: Unzip3Buffers<u8, u8, u8> = Unzip3Buffers::new();
    assert!(!b.accept(Some((1, 2, 3))));
    assert_eq!(b.release_first::<&str>(Readiness::Pending), Release::Wait);
    assert_eq!(b.buffered_a, Some(1));
    assert_eq!(b.release_first(Readiness::Failed("closed")), Release::Fail("closed"));
    assert_eq!(b.buffered_a, Some(1));
    assert_eq!(b.release_first::<&str>(Readiness::Ready), Release::Send(1));
    assert_eq!(b.buffered_a, None);
    assert_eq!(b.release_second::<&str>(Readiness::Ready), Release::Send(2));
    assert_eq!(b.release_third::<&str>(Readiness::Ready), Release::Send(3));
    assert_eq!(b.next_step(), Unzip3Step::PollInput);
    assert!(b.accept(None));
}

#[test]
fn unzip_with_ready_channels_delivers_every_part_in_order() {
    let inputs = vec![(1u8, 'a', true), (2, 'b', false), (3, 'c', true)];
    let mut b: Unzip3Buffers<u8, char, bool> = Unzip3Buffers::new();
    let (mut sa, mut sb, mut sc) = (Vec::new(), Vec::new(), Vec::new());
    let mut input = inputs.clone().into_iter();
    loop {
        match b.next_step() {
            Unzip3Step::FlushFirst => match b.release_first::<()>(Readiness::Ready) {
                Release::Send(x) => sa.push(x),
                _ => unreachable!(),
            },
            Unzip3Step::FlushSecond => match b.release_second::<()>(Readiness::Ready) {
                Release::Send(x) => sb.push(x),
                _ => unreachable!(),
            },
            Unzip3Step::FlushThird => match b.release_third::<()>(Readiness::Ready) {
                Release::Send(x) => sc.push(x),
                _ => unreachable!(),
            },
            Unzip3Step::PollInput => {
                if b.accept(input.next()) {
                    break;
                }
            }
        }
    }
    assert_eq!(sa, vec![1, 2, 3]);
    assert_eq!(sb, vec!['a', 'b', 'c']);
    assert_eq!(sc, vec![true, false, true]);
}
