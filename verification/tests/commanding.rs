use rssbot::commands::admin_check;
use rssbot::commands::channel_command;
use rssbot::commands::channel_verdict;
use rssbot::commands::check_access;
use rssbot::commands::feed_args;
use rssbot::commands::feed_command;
use rssbot::commands::first_arg;
use rssbot::commands::is_from_bot_admin;
use rssbot::commands::is_listed;
use rssbot::commands::is_member;
use rssbot::commands::Access;
use rssbot::commands::AdminCheck;
use rssbot::commands::ChannelVerdict;
use rssbot::commands::ChatKind;
use rssbot::commands::Command;
use rssbot::commands::FeedArgs;
use rssbot::commands::MsgTarget;
use rssbot::commands::Sender;
use rssbot::config::Opt;
use rssbot::gardener::is_gone;
use rssbot::gardener::needs_membership;
use rssbot::gardener::Membership;

fn words(list: &[&str]) -> Vec<String> {
    list.iter().map(|w| w.to_string()).collect()
}

#[test]
fn commands_are_distinct() {
    assert_ne!(Command::Sub, Command::Unsub);
    assert_eq!(Command::Rss, Command::Rss);
    let all = [Command::Start, Command::Sub, Command::Unsub, Command::Export, Command::Rss];
    assert_eq!(all.len(), 5);
}

#[test]
fn options_hold_their_values() {
    let opt = Opt {
        token: "SECRET-REDACTED".to_string(),
        database: "./rssbot.json".to_string(),
        min_interval: 300,
        max_interval: 43200,
        max_feed_size: 2097152,
        admin: vec![],
        restricted: false,
        insecure: false,
    };
    assert_eq!(opt.clone().min_interval, 300);
    assert_eq!(opt.max_interval, 43200);
}

#[test]
fn message_target_replies_first_and_edits_after() {
    let mut target = MsgTarget::new(-5, 10);
    assert_eq!(target, MsgTarget { chat_id: -5, message_id: 10, first_time: true });
    target.update(11);
    assert_eq!(target, MsgTarget { chat_id: -5, message_id: 11, first_time: false });
    target.update(12);
    assert_eq!(target, MsgTarget { chat_id: -5, message_id: 12, first_time: false });
}

#[test]
fn membership_in_lists() {
    assert!(is_listed(&vec![3, -4, 5], -4));
    assert!(!is_listed(&vec![3, -4, 5], 4));
    assert!(!is_listed(&vec![], 0));
    assert!(is_member(&vec![7, 8], 8));
    assert!(!is_member(&vec![7, 8], 9));
}

#[test]
fn bot_admin_is_told_by_the_sender() {
    assert!(is_from_bot_admin(Some(42), &vec![1, 42]));
    assert!(!is_from_bot_admin(Some(43), &vec![1, 42]));
    assert!(!is_from_bot_admin(None, &vec![1, 42]));
    assert!(!is_from_bot_admin(Some(42), &vec![]));
}

#[test]
fn private_bot_ignores_strangers() {
    assert_eq!(check_access(&vec![1], false, Some(2), ChatKind::Private), Access::Unauthenticated);
    assert_eq!(check_access(&vec![1], true, None, ChatKind::Channel), Access::Unauthenticated);
    assert_eq!(check_access(&vec![1], false, Some(1), ChatKind::Private), Access::Granted);
}

#[test]
fn channels_are_refused_and_groups_restricted() {
    assert_eq!(check_access(&vec![], false, None, ChatKind::Channel), Access::ChannelRefused);
    assert_eq!(check_access(&vec![1], false, Some(1), ChatKind::Channel), Access::ChannelRefused);
    assert_eq!(check_access(&vec![], true, Some(9), ChatKind::Group), Access::AdminsOnly);
    assert_eq!(check_access(&vec![], true, Some(9), ChatKind::Supergroup), Access::AdminsOnly);
    assert_eq!(check_access(&vec![], false, Some(9), ChatKind::Group), Access::Granted);
    assert_eq!(check_access(&vec![], true, Some(9), ChatKind::Private), Access::Granted);
}

#[test]
fn chat_admin_check_by_sender() {
    assert_eq!(admin_check(None), AdminCheck::Denied);
    assert_eq!(admin_check(Some(Sender { id: 5, anonymous: true })), AdminCheck::Confirmed);
    assert_eq!(admin_check(Some(Sender { id: 5, anonymous: false })), AdminCheck::Lookup(5));
}

#[test]
fn channel_needs_user_and_bot_as_admins() {
    assert_eq!(channel_verdict(&vec![1, 2], 1, 2), ChannelVerdict::Allowed);
    assert_eq!(channel_verdict(&vec![1], 1, 2), ChannelVerdict::BotNotAdmin);
    assert_eq!(channel_verdict(&vec![2], 1, 2), ChannelVerdict::UserNotAdmin);
    assert_eq!(channel_verdict(&vec![], 1, 2), ChannelVerdict::UserNotAdmin);
}

#[test]
fn feed_arguments_by_count() {
    assert_eq!(
        feed_args(&words(&["https://a.example/feed"])),
        FeedArgs::Here { url: "https://a.example/feed".to_string() }
    );
    assert_eq!(
        feed_args(&words(&["@chan", "https://a.example/feed"])),
        FeedArgs::Channel {
            channel: "@chan".to_string(),
            url: "https://a.example/feed".to_string()
        }
    );
    assert_eq!(feed_args(&words(&[])), FeedArgs::Usage);
    assert_eq!(feed_args(&words(&["a", "b", "c"])), FeedArgs::Usage);
}

#[test]
fn feed_command_is_split_into_arguments() {
    assert_eq!(
        feed_command("/sub https://a.example/feed", "mybot"),
        Some(FeedArgs::Here { url: "https://a.example/feed".to_string() })
    );
    assert_eq!(
        feed_command("/sub@MyBot  @chan   https://a.example/feed", "mybot"),
        Some(FeedArgs::Channel {
            channel: "@chan".to_string(),
            url: "https://a.example/feed".to_string()
        })
    );
    assert_eq!(feed_command("/unsub", "mybot"), Some(FeedArgs::Usage));
}

#[test]
fn command_for_another_bot_is_none() {
    assert_eq!(feed_command("/sub@otherbot https://a.example/feed", "mybot"), None);
    assert_eq!(feed_command("sub https://a.example/feed", "mybot"), None);
    assert_eq!(channel_command("/rss@otherbot", "mybot"), None);
}

#[test]
fn channel_command_takes_the_first_argument() {
    assert_eq!(channel_command("/rss", "mybot"), Some(None));
    assert_eq!(channel_command("/export @chan", "mybot"), Some(Some("@chan".to_string())));
    assert_eq!(channel_command("/rss -100123 extra", "mybot"), Some(Some("-100123".to_string())));
    assert_eq!(first_arg(&words(&["x", "y"])), Some("x".to_string()));
    assert_eq!(first_arg(&words(&[])), None);
}

#[test]
fn only_public_chats_need_a_membership_lookup() {
    assert!(!needs_membership(ChatKind::Private));
    assert!(needs_membership(ChatKind::Group));
    assert!(needs_membership(ChatKind::Supergroup));
    assert!(needs_membership(ChatKind::Channel));
}

#[test]
fn left_and_banned_are_pruned() {
    assert!(is_gone(Membership::Left));
    assert!(is_gone(Membership::Banned));
    assert!(!is_gone(Membership::Owner));
    assert!(!is_gone(Membership::Administrator));
    assert!(!is_gone(Membership::Member));
    assert!(!is_gone(Membership::Restricted));
}
