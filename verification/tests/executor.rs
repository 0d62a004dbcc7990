use learn_async_rust::executor::{spawn, Executor, ExecutorCore, Turn, Waker};
use learn_async_rust::runtime_two::init;

#[test]
fn new_executor_is_empty_and_counts_ids_from_zero() {
    let e = Executor::<&str>::new();
    assert_eq!(e.task_count(), 0);
    assert!(e.core.ready_queue.is_empty());
    assert!(e.core.tasks.is_empty());
    assert_eq!(e.core.next_id, 0);
    let core = ExecutorCore::<u8>::default();
    assert!(core.tasks.is_empty());
    assert!(core.ready_queue.is_empty());
    assert_eq!(core.next_id, 0);
}

#[test]
fn spawn_stores_the_task_and_queues_its_id() {
    let mut e = Executor::new();
    spawn(&mut e.core, "a");
    spawn(&mut e.core, "b");
    assert_eq!(e.core.next_id, 2);
    assert_eq!(e.core.ready_queue, vec![0, 1]);
    assert_eq!(e.core.tasks.get(&0), Some(&"a"));
    assert_eq!(e.core.tasks.get(&1), Some(&"b"));
    assert_eq!(e.task_count(), 2);
}

#[test]
fn pop_ready_takes_the_id_queued_last() {
    let mut e = Executor::new();
    spawn(&mut e.core, "a");
    spawn(&mut e.core, "b");
    spawn(&mut e.core, "c");
    assert_eq!(e.pop_ready(), Some(2));
    assert_eq!(e.pop_ready(), Some(1));
    assert_eq!(e.pop_ready(), Some(0));
    assert_eq!(e.pop_ready(), None);
    assert_eq!(e.task_count(), 3);
}

#[test]
fn get_future_takes_the_task_out() {
    let mut e = Executor::new();
    spawn(&mut e.core, "a");
    assert_eq!(e.get_future(0), Some("a"));
    assert_eq!(e.get_future(0), None);
    assert_eq!(e.get_future(7), None);
    assert_eq!(e.task_count(), 0);
    e.insert_task(0, "again");
    assert_eq!(e.task_count(), 1);
    e.insert_task(0, "replaced");
    assert_eq!(e.task_count(), 1);
    assert_eq!(e.get_future(0), Some("replaced"));
}

#[test]
fn waker_queues_its_id_at_the_back() {
    let e = Executor::<u8>::new();
    let waker = e.make_waker(5);
    assert_eq!(waker, Waker { id: 5 });
    let mut queue = vec![1, 2];
    waker.wake(&mut queue);
    waker.wake(&mut queue);
    assert_eq!(queue, vec![1, 2, 5, 5]);
}

#[test]
fn next_turn_hands_out_the_task_woken_last() {
    let mut e = Executor::new();
    spawn(&mut e.core, "a");
    spawn(&mut e.core, "b");
    match e.next_turn() {
        Turn::Poll(id, task) => {
            assert_eq!(id, 1);
            assert_eq!(task, "b");
        }
        _ => panic!("a task is due"),
    }
    assert_eq!(e.core.ready_queue, vec![0]);
    assert_eq!(e.task_count(), 1);
}

#[test]
fn next_turn_drops_wakeups_of_tasks_that_are_gone() {
    let mut e = Executor::new();
    spawn(&mut e.core, "a");
    spawn(&mut e.core, "b");
    e.make_waker(9).wake(&mut e.core.ready_queue);
    assert_eq!(e.get_future(1), Some("b"));
    assert_eq!(e.core.ready_queue, vec![0, 1, 9]);
    match e.next_turn() {
        Turn::Poll(id, task) => {
            assert_eq!(id, 0);
            assert_eq!(task, "a");
        }
        _ => panic!("a task is due"),
    }
    assert!(e.core.ready_queue.is_empty());
    assert_eq!(e.task_count(), 0);
}

#[test]
fn next_turn_parks_while_tasks_wait_and_finishes_when_none_is_left() {
    let mut e = Executor::new();
    spawn(&mut e.core, "a");
    spawn(&mut e.core, "b");
    let (first, a) = match e.next_turn() {
        Turn::Poll(id, task) => (id, task),
        _ => panic!("a task is due"),
    };
    e.settle(first, a, false);
    let (second, b) = match e.next_turn() {
        Turn::Poll(id, task) => (id, task),
        _ => panic!("a task is due"),
    };
    e.settle(second, b, false);
    assert_eq!((first, second), (1, 0));
    assert!(matches!(e.next_turn(), Turn::Park(2)));
    e.make_waker(0).wake(&mut e.core.ready_queue);
    let (id, task) = match e.next_turn() {
        Turn::Poll(id, task) => (id, task),
        _ => panic!("a task is due"),
    };
    assert_eq!((id, task), (0, "a"));
    e.settle(id, task, true);
    assert!(matches!(e.next_turn(), Turn::Park(1)));
    e.make_waker(1).wake(&mut e.core.ready_queue);
    e.make_waker(0).wake(&mut e.core.ready_queue);
    let (id, task) = match e.next_turn() {
        Turn::Poll(id, task) => (id, task),
        _ => panic!("a task is due"),
    };
    assert_eq!((id, task), (1, "b"));
    e.settle(id, task, true);
    assert!(matches!(e.next_turn(), Turn::Finished));
    assert!(e.core.ready_queue.is_empty());
    assert_eq!(e.core.next_id, 2);
}

#[test]
fn executor_without_tasks_is_finished() {
    let mut e = Executor::<u8>::new();
    assert!(matches!(e.next_turn(), Turn::Finished));
}

#[test]
fn init_gives_an_empty_reactor_and_an_empty_executor() {
    let (reactor, executor) = init::<u8>();
    assert!(reactor.wakers.is_empty());
    assert_eq!(reactor.next_id, 1);
    assert_eq!(executor.task_count(), 0);
    assert!(executor.core.ready_queue.is_empty());
    assert_eq!(executor.core.next_id, 0);
}
