use learn_async_rust::future::{join_all, Future, JoinAll, PollState};

/// A task that is done at its `n`-th poll and counts how often it is polled.
struct Countdown {
    left: usize,
    polls: usize,
}

impl Countdown {
    fn new(n: usize) -> Self {
        Countdown { left: n, polls: 0 }
    }
}

impl Future for Countdown {
    type Output = usize;

    fn poll(&mut self) -> PollState<usize> {
        self.polls += 1;
        if self.left <= 1 {
            self.left = 0;
            PollState::Ready(self.polls)
        } else {
            self.left -= 1;
            PollState::NotReady
        }
    }
}

fn flags(all: &JoinAll<Countdown>) -> Vec<bool> {
    all.futures.iter().map(|(done, _)| *done).collect()
}

fn polls(all: &JoinAll<Countdown>) -> Vec<usize> {
    all.futures.iter().map(|(_, f)| f.polls).collect()
}

fn is_ready_with_empty_text(state: &PollState<String>) -> bool {
    matches!(state, PollState::Ready(text) if text.is_empty())
}

#[test]
fn join_all_pairs_every_child_with_a_cleared_flag_in_order() {
    let all = join_all(vec![Countdown::new(3), Countdown::new(1), Countdown::new(2)]);
    assert_eq!(all.finished_count, 0);
    assert_eq!(flags(&all), vec![false, false, false]);
    let left: Vec<usize> = all.futures.iter().map(|(_, f)| f.left).collect();
    assert_eq!(left, vec![3, 1, 2]);
    assert_eq!(polls(&all), vec![0, 0, 0]);
}

#[test]
fn join_all_of_nothing_is_ready_at_once() {
    let mut all = join_all(Vec::<Countdown>::new());
    assert!(is_ready_with_empty_text(&all.poll()));
    assert_eq!(all.finished_count, 0);
    assert!(is_ready_with_empty_text(&all.status()));
}

#[test]
fn join_all_is_ready_once_every_child_is() {
    let mut all = join_all(vec![Countdown::new(3), Countdown::new(1), Countdown::new(2)]);
    assert!(!all.poll().is_ready());
    assert_eq!(flags(&all), vec![false, true, false]);
    assert_eq!(all.finished_count, 1);
    assert!(!all.poll().is_ready());
    assert_eq!(flags(&all), vec![false, true, true]);
    assert_eq!(all.finished_count, 2);
    assert!(is_ready_with_empty_text(&all.poll()));
    assert_eq!(flags(&all), vec![true, true, true]);
    assert_eq!(all.finished_count, 3);
}

#[test]
fn join_all_polls_no_child_again_that_was_done() {
    let mut all = join_all(vec![Countdown::new(3), Countdown::new(1), Countdown::new(2)]);
    all.poll();
    all.poll();
    all.poll();
    assert_eq!(polls(&all), vec![3, 1, 2]);
    assert!(is_ready_with_empty_text(&all.poll()));
    assert_eq!(polls(&all), vec![3, 1, 2]);
    assert_eq!(all.finished_count, 3);
}

#[test]
fn settle_counts_only_children_that_are_done() {
    let mut all = join_all(vec![Countdown::new(1), Countdown::new(1)]);
    all.settle(1, false);
    assert_eq!(flags(&all), vec![false, false]);
    assert_eq!(all.finished_count, 0);
    assert!(!all.status().is_ready());
    all.settle(1, true);
    assert_eq!(flags(&all), vec![false, true]);
    assert_eq!(all.finished_count, 1);
    assert!(!all.status().is_ready());
    all.settle(0, true);
    assert_eq!(all.finished_count, 2);
    assert!(is_ready_with_empty_text(&all.status()));
}

#[test]
fn poll_state_knows_whether_it_is_ready() {
    assert!(PollState::Ready(7).is_ready());
    assert!(!PollState::<u8>::NotReady.is_ready());
}
