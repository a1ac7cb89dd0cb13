use dungeon_rs::channel::{command_queue, merge_queues, report_progress, split_batch, ReportError, TrackedMessage};

struct FooEvent {
    pub bar: String,
}

#[test]
fn test_report_progress_success() {
    let (sender, receiver) = command_queue();

    let result = report_progress(
        &sender,
        FooEvent {
            bar: "test progress".to_string(),
        },
    );

    assert!(result.is_ok(), "report_progress should succeed");

    let event = receiver.try_recv().ok();
    assert!(event.is_some(), "Event should have been sent");
    assert_eq!(event.unwrap().bar, "test progress");
}

#[test]
fn test_report_progress_sender_disconnected() {
    let (sender, receiver) = command_queue();
    drop(receiver);

    let result = report_progress(
        &sender,
        FooEvent {
            bar: "test".to_string(),
        },
    );

    assert!(
        result.is_err(),
        "report_progress should fail when receiver is dropped"
    );
}

#[test]
fn report_progress_error_is_disconnected() {
    let (sender, receiver) = command_queue::<u32>();
    drop(receiver);
    assert_eq!(report_progress(&sender, 7), Err(ReportError::Disconnected));
}

#[test]
fn report_progress_keeps_order() {
    let (sender, receiver) = command_queue::<u32>();
    report_progress(&sender, 1).unwrap();
    report_progress(&sender, 2).unwrap();
    assert_eq!(receiver.try_recv().ok(), Some(1));
    assert_eq!(receiver.try_recv().ok(), Some(2));
}

#[test]
fn merge_queues_of_nothing_is_none() {
    let queues: Vec<Vec<u32>> = Vec::new();
    assert_eq!(merge_queues(queues), None);
}

#[test]
fn merge_queues_keeps_order() {
    let queues = vec![vec![1, 2], vec![], vec![3], vec![4, 5]];
    assert_eq!(merge_queues(queues), Some(vec![1, 2, 3, 4, 5]));
}

#[test]
fn merge_queues_of_empty_queues_is_some_empty() {
    let queues: Vec<Vec<u32>> = vec![vec![], vec![]];
    assert_eq!(merge_queues(queues), Some(vec![]));
}

#[test]
fn batch_is_split_progress_then_errors_then_first_completion() {
    let batch: Vec<TrackedMessage<u32, &str, char>> = vec![
        TrackedMessage::Progress(1),
        TrackedMessage::Error("late"),
        TrackedMessage::Complete('a'),
        TrackedMessage::Progress(2),
        TrackedMessage::Complete('b'),
        TrackedMessage::Error("later"),
    ];
    let (progress, errors, completion) = split_batch(batch);
    assert_eq!(progress, vec![1, 2]);
    assert_eq!(errors, vec!["late", "later"]);
    assert_eq!(completion, Some('a'));
}

#[test]
fn batch_without_completion() {
    let batch: Vec<TrackedMessage<u32, &str, char>> = vec![TrackedMessage::Progress(3)];
    let (progress, errors, completion) = split_batch(batch);
    assert_eq!(progress, vec![3]);
    assert!(errors.is_empty());
    assert_eq!(completion, None);
}

#[test]
fn follower_stops_at_the_first_completion() {
    let mut follower: dungeon_rs::channel::Follower<u32, &str, char> = dungeon_rs::channel::Follower::new();
    let (progress, errors, completion) =
        follower.on_batch(vec![TrackedMessage::Progress(1), TrackedMessage::Error("slow")]);
    assert_eq!((progress, errors, completion), (vec![1], vec!["slow"], None));
    assert!(!follower.done());
    let (progress, _, completion) = follower.on_batch(vec![
        TrackedMessage::Progress(2),
        TrackedMessage::Complete('a'),
        TrackedMessage::Progress(3),
    ]);
    assert_eq!(progress, vec![2, 3]);
    assert_eq!(completion, Some('a'));
    assert!(follower.done());
}
