use rssbot::delivery::chat_is_unavailable;
use rssbot::delivery::is_unreachable;
use rssbot::delivery::Effect;
use rssbot::delivery::Fanout;
use rssbot::delivery::Next;
use rssbot::delivery::SendError;
use std::collections::VecDeque;
use std::time::Duration;

/// What a scripted run of one fan-out did.
#[derive(Debug, Default)]
struct Run {
    sent_to: Vec<i64>,
    delivered: Vec<i64>,
    deleted: Vec<i64>,
    updated: Vec<(i64, i64)>,
    slept: Vec<Duration>,
    failed: Option<SendError>,
}

/// Drives a fan-out against a transport that answers with `script`, one
/// entry per send, and succeeds once the script has run out.
fn run(subscribers: Vec<i64>, script: Vec<Result<(), SendError>>) -> Run {
    let mut script: VecDeque<Result<(), SendError>> = script.into();
    let mut out = Run::default();
    let mut fanout = Fanout::new(subscribers);
    let mut target = fanout.target();
    while let Some(chat) = target {
        out.sent_to.push(chat);
        let result = script.pop_front().unwrap_or(Ok(()));
        if result.is_ok() {
            out.delivered.push(chat);
        }
        let step = fanout.on_result(result);
        match step.effect {
            Effect::Nothing => {}
            Effect::DeleteSubscriber(id) => out.deleted.push(id),
            Effect::UpdateSubscriber { old_id, new_id } => out.updated.push((old_id, new_id)),
            Effect::Sleep(delay) => out.slept.push(delay),
        }
        target = match step.next {
            Next::Send(id) => Some(id),
            Next::Finished => None,
            Next::Failed(e) => {
                out.failed = Some(e);
                None
            }
        };
        assert_eq!(target, fanout.target());
    }
    out
}

#[test]
fn phrases_of_a_lost_chat() {
    assert!(chat_is_unavailable("Forbidden: bot was blocked by the user"));
    assert!(chat_is_unavailable("Bad Request: chat not found"));
    assert!(chat_is_unavailable("Bad Request: have no rights to send a message"));
    assert!(chat_is_unavailable("Bad Request: need administrator rights in the channel chat"));
    assert!(chat_is_unavailable("Forbidden"));
}

#[test]
fn other_descriptions_are_not_a_lost_chat() {
    assert!(!chat_is_unavailable(""));
    assert!(!chat_is_unavailable("forbidden"));
    assert!(!chat_is_unavailable("Bad Request: message is too long"));
    assert!(!chat_is_unavailable("Chat Not Found"));
    assert!(!chat_is_unavailable("Forbidde"));
}

#[test]
fn classification_of_errors() {
    assert!(is_unreachable(&SendError::Blocked));
    assert!(is_unreachable(&SendError::Kicked));
    assert!(is_unreachable(&SendError::Deactivated));
    assert!(is_unreachable(&SendError::ChatNotFound));
    assert!(is_unreachable(&SendError::NoRights));
    assert!(is_unreachable(&SendError::Other("Forbidden: bot is not a member".to_string())));
    assert!(!is_unreachable(&SendError::Other("Bad Request: message is too long".to_string())));
    assert!(!is_unreachable(&SendError::Migrated(5)));
    assert!(!is_unreachable(&SendError::RateLimited(Duration::from_secs(1))));
}

#[test]
fn empty_fanout_sends_nothing() {
    let fanout = Fanout::new(vec![]);
    assert_eq!(fanout.target(), None);
    let out = run(vec![], vec![]);
    assert!(out.sent_to.is_empty());
    assert!(out.failed.is_none());
}

#[test]
fn healthy_subscribers_get_one_message_each() {
    let out = run(vec![10, 20, 30], vec![]);
    assert_eq!(out.sent_to, vec![10, 20, 30]);
    assert_eq!(out.delivered, vec![10, 20, 30]);
    assert!(out.deleted.is_empty());
    assert!(out.failed.is_none());
}

#[test]
fn rate_limit_then_success_delivers_once_after_the_delay() {
    let delay = Duration::from_secs(7);
    let out = run(vec![10], vec![Err(SendError::RateLimited(delay)), Ok(())]);
    assert_eq!(out.sent_to, vec![10, 10]);
    assert_eq!(out.delivered, vec![10]);
    assert_eq!(out.slept, vec![delay]);
    assert!(out.sent_to.len() <= 3);
    assert!(out.failed.is_none());
}

#[test]
fn unreachable_subscriber_is_deleted_once() {
    let out = run(vec![10], vec![Err(SendError::Blocked)]);
    assert_eq!(out.sent_to, vec![10]);
    assert_eq!(out.deleted, vec![10]);
    assert!(out.delivered.is_empty());
    assert!(out.failed.is_none());
}

#[test]
fn healthy_and_blocked_subscriber_on_one_feed() {
    let out = run(vec![1, 2], vec![Ok(()), Err(SendError::Blocked)]);
    assert_eq!(out.delivered, vec![1]);
    assert_eq!(out.deleted, vec![2]);
    assert_eq!(out.sent_to, vec![1, 2]);
    assert!(out.failed.is_none());
}

#[test]
fn blocked_subscriber_does_not_stall_the_next() {
    let out = run(vec![2, 1], vec![Err(SendError::Kicked), Ok(())]);
    assert_eq!(out.deleted, vec![2]);
    assert_eq!(out.delivered, vec![1]);
}

#[test]
fn description_of_a_lost_chat_deletes_the_subscriber() {
    let out = run(
        vec![10, 20],
        vec![Err(SendError::Other("Bad Request: chat not found".to_string()))],
    );
    assert_eq!(out.deleted, vec![10]);
    assert_eq!(out.delivered, vec![20]);
    assert!(out.failed.is_none());
}

#[test]
fn migration_rewrites_the_subscriber_and_retries() {
    let out = run(vec![10, 20], vec![Err(SendError::Migrated(-100)), Ok(())]);
    assert_eq!(out.updated, vec![(10, -100)]);
    assert_eq!(out.sent_to, vec![10, -100, 20]);
    assert_eq!(out.delivered, vec![-100, 20]);
}

#[test]
fn migrated_chat_that_is_blocked_is_deleted_under_its_new_name() {
    let out = run(
        vec![10],
        vec![Err(SendError::Migrated(11)), Err(SendError::Blocked)],
    );
    assert_eq!(out.updated, vec![(10, 11)]);
    assert_eq!(out.deleted, vec![11]);
}

#[test]
fn three_attempts_and_no_more() {
    let second = Duration::from_secs(1);
    let out = run(
        vec![10, 20],
        vec![
            Err(SendError::RateLimited(second)),
            Err(SendError::RateLimited(second)),
            Err(SendError::RateLimited(second)),
        ],
    );
    assert_eq!(out.sent_to, vec![10, 10, 10, 20]);
    assert_eq!(out.slept.len(), 3);
    assert_eq!(out.delivered, vec![20]);
    assert!(out.failed.is_none());
}

#[test]
fn third_attempt_that_migrates_still_rewrites() {
    let second = Duration::from_secs(1);
    let out = run(
        vec![10, 20],
        vec![
            Err(SendError::RateLimited(second)),
            Err(SendError::Migrated(11)),
            Err(SendError::Migrated(12)),
        ],
    );
    assert_eq!(out.updated, vec![(10, 11), (11, 12)]);
    assert_eq!(out.sent_to, vec![10, 10, 11, 20]);
    assert_eq!(out.delivered, vec![20]);
}

#[test]
fn other_error_aborts_the_rest() {
    let out = run(
        vec![10, 20, 30],
        vec![
            Ok(()),
            Err(SendError::Other("Bad Request: message is too long".to_string())),
        ],
    );
    assert_eq!(out.sent_to, vec![10, 20]);
    assert_eq!(out.delivered, vec![10]);
    assert!(out.deleted.is_empty());
    assert!(matches!(out.failed, Some(SendError::Other(ref d)) if d == "Bad Request: message is too long"));
}
