use std::time::Instant;

use firefox_session_ui_egui::background::EguiBackgroundWork;

#[test]
fn poll_on_empty_mailbox_returns_none_without_blocking() {
    let mut work: EguiBackgroundWork<u32> = EguiBackgroundWork::default();

    let started = Instant::now();
    assert!(work.poll_work().is_none());
    let elapsed = started.elapsed();

    // A poll never waits for anything; even a generous deadline makes the
    // point that it returned immediately.
    assert!(elapsed.as_secs() < 1, "poll_work took {elapsed:?}");
}

#[test]
fn commands_are_delivered_in_send_order() {
    let mut work: EguiBackgroundWork<u32> = EguiBackgroundWork::default();
    work.sender().send(1);
    work.sender().send(2);
    work.sender().send_without_repaint(3);

    assert_eq!(work.poll_work(), Some(1));
    assert_eq!(work.poll_work(), Some(2));
    assert_eq!(work.poll_work(), Some(3));
    assert_eq!(work.poll_work(), None);
}

#[test]
fn send_requests_repaint_and_send_without_repaint_does_not() {
    let mut work: EguiBackgroundWork<u32> = EguiBackgroundWork::default();
    assert!(!work.take_repaint_request());

    work.sender().send_without_repaint(1);
    assert!(!work.take_repaint_request());

    work.sender().send(2);
    assert!(work.take_repaint_request());
    // Collecting the request clears it.
    assert!(!work.take_repaint_request());

    // Clearing the request loses no queued command.
    assert_eq!(work.poll_work(), Some(1));
    assert_eq!(work.poll_work(), Some(2));
}

#[test]
fn sender_handle_remains_usable_across_borrows() {
    let mut work: EguiBackgroundWork<u32> = EguiBackgroundWork::default();

    {
        let sender = work.sender();
        sender.send(10);
    }
    // The first handle is gone; a later handle still reaches the same
    // mailbox and its sends are observable in order.
    {
        let sender = work.sender();
        sender.send(20);
        sender.send(30);
    }

    assert_eq!(work.poll_work(), Some(10));
    assert_eq!(work.poll_work(), Some(20));
    assert_eq!(work.poll_work(), Some(30));
    assert_eq!(work.poll_work(), None);
}

#[test]
fn poll_after_drain_sees_later_sends() {
    let mut work: EguiBackgroundWork<u32> = EguiBackgroundWork::default();
    work.sender().send(1);
    assert_eq!(work.poll_work(), Some(1));
    assert_eq!(work.poll_work(), None);

    work.sender().send(2);
    assert_eq!(work.poll_work(), Some(2));
}
