use vst3_view::run_loop::{
    FdAction, FdEvent, Notification, Registration, RunLoopEventHandler, Teardown,
};

const READ: FdAction = FdAction::ReadSocket { fd: 10, size: 128 };

fn handler(capacity: usize) -> RunLoopEventHandler {
    RunLoopEventHandler::new([10, 11], capacity)
}

#[test]
fn posting_notifies_the_host() {
    let mut handler = handler(4);
    assert_eq!(handler.post_task(7), Ok(Notification { fd: 11, value: 1, size: 1 }));
}

#[test]
fn a_full_queue_returns_the_task() {
    let mut handler = handler(2);
    assert!(handler.post_task(7).is_ok());
    assert!(handler.post_task(8).is_ok());
    assert_eq!(handler.post_task(9), Err(9));
    assert_eq!(handler.drain_tasks(), vec![7, 8]);
    assert!(handler.post_task(9).is_ok());
}

#[test]
fn the_socket_is_cleared_before_tasks_run() {
    let mut handler = handler(4);
    for task in [3, 1, 2] {
        assert!(handler.post_task(task).is_ok());
    }
    assert_eq!(handler.on_fd_is_set(FdEvent::Ready), READ);
    assert_eq!(handler.on_fd_is_set(FdEvent::SocketRead(128)), READ);
    assert_eq!(handler.on_fd_is_set(FdEvent::SocketRead(1)), READ);
    assert_eq!(handler.on_fd_is_set(FdEvent::SocketRead(-1)), FdAction::Execute(3));
    assert_eq!(handler.on_fd_is_set(FdEvent::TaskExecuted), FdAction::Execute(1));
    assert_eq!(handler.on_fd_is_set(FdEvent::TaskExecuted), FdAction::Execute(2));
    assert_eq!(handler.on_fd_is_set(FdEvent::TaskExecuted), FdAction::Finish);
    assert_eq!(handler.drain_tasks(), Vec::<u64>::new());
}

#[test]
fn an_end_of_file_counts_as_empty() {
    let mut handler = handler(1);
    assert_eq!(handler.on_fd_is_set(FdEvent::SocketRead(0)), FdAction::Finish);
}

#[test]
fn tasks_posted_by_tasks_run_too() {
    let mut handler = handler(1);
    assert!(handler.post_task(5).is_ok());
    assert_eq!(handler.on_fd_is_set(FdEvent::Ready), READ);
    assert_eq!(handler.on_fd_is_set(FdEvent::SocketRead(-1)), FdAction::Execute(5));
    assert!(handler.post_task(6).is_ok());
    assert_eq!(handler.on_fd_is_set(FdEvent::TaskExecuted), FdAction::Execute(6));
    assert_eq!(handler.on_fd_is_set(FdEvent::TaskExecuted), FdAction::Finish);
}

#[test]
fn no_task_is_lost() {
    let mut handler = handler(3);
    let mut accepted = vec![];
    let mut released = vec![];
    for task in 0..20 {
        if handler.post_task(task).is_ok() {
            accepted.push(task);
        }
        if task % 3 == 0 {
            if let FdAction::Execute(next) = handler.on_fd_is_set(FdEvent::TaskExecuted) {
                released.push(next);
            }
        }
    }
    released.extend(handler.drain_tasks());
    assert_eq!(released, accepted);
    assert!(accepted.len() < 20);
}

#[test]
fn waiting_tasks_are_always_announced() {
    let mut handler = handler(8);
    let mut socket = 0isize;
    let mut waiting = 0isize;

    // The byte for the second task arrives only after that task has been executed
    assert!(handler.post_task(1).is_ok());
    waiting += 1;
    socket += 1;
    assert_eq!(handler.on_fd_is_set(FdEvent::Ready), READ);
    let mut action = handler.on_fd_is_set(FdEvent::SocketRead(socket));
    assert_eq!(action, READ);
    socket = 0;
    assert!(handler.post_task(2).is_ok());
    waiting += 1;
    action = handler.on_fd_is_set(FdEvent::SocketRead(-1));
    while let FdAction::Execute(_) = action {
        waiting -= 1;
        action = handler.on_fd_is_set(FdEvent::TaskExecuted);
    }
    socket += 1;
    assert_eq!(action, FdAction::Finish);
    assert!(waiting <= socket);

    // So the host makes another call, which finds nothing to do
    assert_eq!(handler.on_fd_is_set(FdEvent::Ready), READ);
    assert_eq!(handler.on_fd_is_set(FdEvent::SocketRead(socket)), READ);
    assert_eq!(handler.on_fd_is_set(FdEvent::SocketRead(-1)), FdAction::Finish);
}

#[test]
fn registration_is_undone_on_teardown() {
    let mut handler = handler(4);
    assert_eq!(handler.register(0xBEEF), Registration { event_handler: 0xBEEF, fd: 10 });
    assert!(handler.post_task(1).is_ok());
    assert_eq!(handler.drain_tasks(), vec![1]);
    assert_eq!(
        handler.teardown(&vec![true]),
        Teardown {
            posting_failed: false,
            socket_read_fd: 10,
            socket_write_fd: 11,
            unregister: Some(0xBEEF),
        }
    );
}

#[test]
fn an_unregistered_handler_is_only_closed() {
    let handler = handler(4);
    let teardown = handler.teardown(&vec![]);
    assert_eq!(teardown.unregister, None);
    assert!(!teardown.posting_failed);
}

#[test]
fn dropped_tasks_are_reported() {
    let handler = handler(4);
    assert!(handler.teardown(&vec![true, false, true]).posting_failed);
    assert!(handler.teardown(&vec![false]).posting_failed);
    assert!(!handler.teardown(&vec![true, true]).posting_failed);
}

#[test]
fn calls_are_counted() {
    let mut handler = handler(2);
    assert!(!handler.is_in_call());
    handler.on_fd_is_set(FdEvent::Ready);
    handler.on_fd_is_set(FdEvent::Ready);
    assert!(handler.is_in_call());
    assert_eq!(handler.on_fd_is_set(FdEvent::SocketRead(-1)), FdAction::Finish);
    assert!(handler.is_in_call());
    assert_eq!(handler.on_fd_is_set(FdEvent::TaskExecuted), FdAction::Finish);
    assert!(!handler.is_in_call());
    assert_eq!(handler.on_fd_is_set(FdEvent::TaskExecuted), FdAction::Finish);
    assert!(!handler.is_in_call());
}

#[test]
fn nested_calls_leave_no_task_unannounced() {
    let mut handler = handler(8);
    assert!(handler.post_task(1).is_ok());
    assert!(handler.post_task(2).is_ok());
    assert_eq!(handler.on_fd_is_set(FdEvent::Ready), READ);
    assert_eq!(handler.on_fd_is_set(FdEvent::SocketRead(2)), READ);
    assert_eq!(handler.on_fd_is_set(FdEvent::SocketRead(-1)), FdAction::Execute(1));

    // The first task posts another one and makes the host call again, which takes its byte
    assert!(handler.post_task(3).is_ok());
    assert_eq!(handler.on_fd_is_set(FdEvent::Ready), READ);
    assert_eq!(handler.on_fd_is_set(FdEvent::SocketRead(1)), READ);
    assert_eq!(handler.on_fd_is_set(FdEvent::SocketRead(-1)), FdAction::Execute(2));
    assert_eq!(handler.on_fd_is_set(FdEvent::TaskExecuted), FdAction::Execute(3));
    assert_eq!(handler.on_fd_is_set(FdEvent::TaskExecuted), FdAction::Finish);

    // The socket is empty now. What is posted before the outer call returns still runs in it.
    assert!(handler.post_task(4).is_ok());
    assert_eq!(handler.on_fd_is_set(FdEvent::TaskExecuted), FdAction::Execute(4));
    assert_eq!(handler.on_fd_is_set(FdEvent::TaskExecuted), FdAction::Finish);
    assert!(!handler.is_in_call());
    assert_eq!(handler.drain_tasks(), Vec::<u64>::new());
}
