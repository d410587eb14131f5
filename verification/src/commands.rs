use vstd::prelude::*;

verus! {

/// The commands that the bot understands.
#[derive(Clone, Copy, Debug, PartialEq, Eq, Structural)]
pub enum Command {
    /// Start the bot.
    Start,
    /// Subscribe to a feed.
    Sub,
    /// Unsubscribe from a feed.
    Unsub,
    /// Export the subscriptions.
    Export,
    /// Show the list of subscribed feeds.
    Rss,
}

/// The kind of chat that a command came from.
#[derive(Clone, Copy, Debug, PartialEq, Eq, Structural)]
pub enum ChatKind {
    Private,
    Group,
    Supergroup,
    Channel,
}

/// Whether a command is carried out.
#[derive(Clone, Copy, Debug, PartialEq, Eq, Structural)]
pub enum Access {
    /// Carry it out.
    Granted,
    /// The bot is private and the sender is none of its admins: drop the
    /// command without an answer.
    Unauthenticated,
    /// Commands are not taken from inside a channel: say so and stop.
    ChannelRefused,
    /// The bot is restricted and the chat is a group: carry the command out
    /// only where the sender is an administrator of the chat.
    AdminsOnly,
}

/// Where the answers to one command go: first a reply to the command, from
/// then on edits of that reply.
#[derive(Clone, Copy, Debug, PartialEq, Eq, Structural)]
pub struct MsgTarget {
    pub chat_id: i64,
    pub message_id: i32,
    pub first_time: bool,
}

impl MsgTarget {
    /// The target before anything was sent: a reply to `message_id`.
    pub fn new(chat_id: i64, message_id: i32) -> (target: MsgTarget)
        ensures
            target == (MsgTarget { chat_id, message_id, first_time: true }),
    {
        MsgTarget { chat_id, message_id, first_time: true }
    }

    /// Records the message that was sent: the next answer edits it.
    pub fn update(&mut self, message_id: i32)
        ensures
            *final(self) == (MsgTarget {
                chat_id: old(self).chat_id,
                message_id,
                first_time: false,
            }),
    {
        self.message_id = message_id;
        self.first_time = false;
    }
}

/// The sender is one of the bot's admins. A message without a sender is
/// from nobody.
pub open spec fn spec_is_from_bot_admin(from: Option<u64>, admins: Seq<i64>) -> bool {
    match from {
        None => false,
        Some(id) => admins.contains(id as i64),
    }
}

/// Whether the chat `id` is among `ids`.
pub fn is_listed(ids: &Vec<i64>, id: i64) -> (listed: bool)
    ensures
        listed == ids@.contains(id),
{
    let mut i: usize = 0;
    while i < ids.len()
        invariant
            i <= ids@.len(),
            forall|j: int| 0 <= j < i ==> ids@[j] != id,
        decreases ids@.len() - i,
    {
        if ids[i] == id {
            return true;
        }
        i = i + 1;
    }
    false
}

/// Whether the user `id` is among `users`.
pub fn is_member(users: &Vec<u64>, id: u64) -> (member: bool)
    ensures
        member == users@.contains(id),
{
    let mut i: usize = 0;
    while i < users.len()
        invariant
            i <= users@.len(),
            forall|j: int| 0 <= j < i ==> users@[j] != id,
        decreases users@.len() - i,
    {
        if users[i] == id {
            return true;
        }
        i = i + 1;
    }
    false
}

/// Whether a message comes from one of the bot's admins.
pub fn is_from_bot_admin(from: Option<u64>, admins: &Vec<i64>) -> (admin: bool)
    ensures
        admin == spec_is_from_bot_admin(from, admins@),
{
    match from {
        None => false,
        Some(id) => is_listed(admins, id as i64),
    }
}

/// The rule by which a command is let through.
pub open spec fn spec_check_access(
    admins: Seq<i64>,
    restricted: bool,
    from: Option<u64>,
    chat: ChatKind,
) -> Access {
    if admins.len() > 0 && !spec_is_from_bot_admin(from, admins) {
        Access::Unauthenticated
    } else {
        match chat {
            ChatKind::Channel => Access::ChannelRefused,
            ChatKind::Group | ChatKind::Supergroup => if restricted {
                Access::AdminsOnly
            } else {
                Access::Granted
            },
            ChatKind::Private => Access::Granted,
        }
    }
}

/// Decides whether a command is carried out, from the bot's admins (empty
/// where the bot is open to everyone), the restricted mode, the sender and
/// the kind of chat.
pub fn check_access(admins: &Vec<i64>, restricted: bool, from: Option<u64>, chat: ChatKind) -> (access:
    Access)
    ensures
        access == spec_check_access(admins@, restricted, from, chat),
{
    if admins.len() > 0 && !is_from_bot_admin(from, admins) {
        return Access::Unauthenticated;
    }
    match chat {
        ChatKind::Channel => Access::ChannelRefused,
        ChatKind::Group | ChatKind::Supergroup => {
            if restricted {
                Access::AdminsOnly
            } else {
                Access::Granted
            }
        },
        ChatKind::Private => Access::Granted,
    }
}

/// Who sent a message, as far as the rules on administrators read it.
#[derive(Clone, Copy, Debug, PartialEq, Eq, Structural)]
pub struct Sender {
    pub id: u64,
    /// The sender acts in the name of the group itself.
    pub anonymous: bool,
}

/// What is known of the sender's standing in a chat before the chat's
/// administrators are looked up.
#[derive(Clone, Copy, Debug, PartialEq, Eq, Structural)]
pub enum AdminCheck {
    /// No sender: not an administrator.
    Denied,
    /// An anonymous sender can only be an administrator.
    Confirmed,
    /// Look the user up among the chat's administrators.
    Lookup(u64),
}

/// First half of the test for a chat administrator; `is_member` on the
/// chat's administrators is the second.
pub fn admin_check(from: Option<Sender>) -> (check: AdminCheck)
    ensures
        check == match from {
            None => AdminCheck::Denied,
            Some(sender) => if sender.anonymous {
                AdminCheck::Confirmed
            } else {
                AdminCheck::Lookup(sender.id)
            },
        },
{
    match from {
        None => AdminCheck::Denied,
        Some(sender) => {
            if sender.anonymous {
                AdminCheck::Confirmed
            } else {
                AdminCheck::Lookup(sender.id)
            }
        },
    }
}

/// Whether a user may manage a channel's subscriptions through the bot.
#[derive(Clone, Copy, Debug, PartialEq, Eq, Structural)]
pub enum ChannelVerdict {
    /// The user is no administrator of the channel.
    UserNotAdmin,
    /// The bot is no administrator of the channel.
    BotNotAdmin,
    Allowed,
}

/// Both the user and the bot must be among the channel's administrators;
/// the user is looked at first.
pub fn channel_verdict(admins: &Vec<u64>, user: u64, bot: u64) -> (verdict: ChannelVerdict)
    ensures
        verdict == if !admins@.contains(user) {
            ChannelVerdict::UserNotAdmin
        } else if !admins@.contains(bot) {
            ChannelVerdict::BotNotAdmin
        } else {
            ChannelVerdict::Allowed
        },
{
    if !is_member(admins, user) {
        ChannelVerdict::UserNotAdmin
    } else if !is_member(admins, bot) {
        ChannelVerdict::BotNotAdmin
    } else {
        ChannelVerdict::Allowed
    }
}

/// The arguments of a subscribe or unsubscribe command.
#[derive(Clone, Debug, PartialEq, Eq)]
pub enum FeedArgs {
    /// A feed for the chat that the command came from.
    Here { url: String },
    /// A feed for a channel.
    Channel { channel: String, url: String },
    /// Neither one nor two arguments: answer with the usage.
    Usage,
}

/// Reads the arguments of a subscribe or unsubscribe command: a feed URL,
/// or a channel and a feed URL.
pub fn feed_args(args: &Vec<String>) -> (parsed: FeedArgs)
    ensures
        args@.len() == 1 ==> parsed == (FeedArgs::Here { url: args@[0] }),
        args@.len() == 2 ==> parsed == (FeedArgs::Channel { channel: args@[0], url: args@[1] }),
        args@.len() != 1 && args@.len() != 2 ==> parsed == FeedArgs::Usage,
{
    if args.len() == 1 {
        FeedArgs::Here { url: args[0].clone() }
    } else if args.len() == 2 {
        FeedArgs::Channel { channel: args[0].clone(), url: args[1].clone() }
    } else {
        FeedArgs::Usage
    }
}

/// What splitting a command message gives: the command's name and its
/// arguments, or `None` where the text is no command or is addressed to
/// another bot.
pub uninterp spec fn parsed_command(text: Seq<char>, bot_name: Seq<char>) -> Option<
    (Seq<char>, Seq<Seq<char>>),
>;

/// The arguments as sequences of characters.
pub open spec fn arg_views(args: Seq<String>) -> Seq<Seq<char>> {
    Seq::new(args.len(), |i: int| args[i]@)
}

/// `teloxide::utils::command::parse_command`: splits a message that starts
/// with `/` into the command's name and the words after it, and accepts a
/// bot name behind `@` only where it is this bot's.
#[verifier::external_body]
fn parse_command(text: &str, bot_name: &str) -> (parsed: Option<(String, Vec<String>)>)
    ensures
        match parsed {
            Some((name, args)) => parsed_command(text@, bot_name@) == Some(
                (name@, arg_views(args@)),
            ),
            None => parsed_command(text@, bot_name@) is None,
        },
{
    match teloxide::utils::command::parse_command(text, bot_name) {
        Some((name, args)) => {
            let mut owned: Vec<String> = Vec::new();
            for arg in args {
                owned.push(arg.to_string());
            }
            Some((name.to_string(), owned))
        },
        None => None,
    }
}

/// The arguments `args` read as those of a subscribe or unsubscribe
/// command.
pub open spec fn spec_feed_args(parsed: FeedArgs, args: Seq<Seq<char>>) -> bool {
    match parsed {
        FeedArgs::Here { url } => args.len() == 1 && url@ == args[0],
        FeedArgs::Channel { channel, url } => args.len() == 2 && channel@ == args[0] && url@
            == args[1],
        FeedArgs::Usage => args.len() != 1 && args.len() != 2,
    }
}

/// Reads a subscribe or unsubscribe message. `None` where the text is no
/// command for this bot.
pub fn feed_command(text: &str, bot_name: &str) -> (parsed: Option<FeedArgs>)
    ensures
        match parsed_command(text@, bot_name@) {
            Some((_, args)) => parsed is Some && spec_feed_args(parsed->0, args),
            None => parsed is None,
        },
{
    match parse_command(text, bot_name) {
        Some((_, args)) => Some(feed_args(&args)),
        None => None,
    }
}

/// The first of `args`, if there is any.
pub fn first_arg(args: &Vec<String>) -> (first: Option<String>)
    ensures
        first == if args@.len() > 0 {
            Some(args@[0])
        } else {
            None
        },
{
    if args.len() > 0 {
        Some(args[0].clone())
    } else {
        None
    }
}

/// Reads a message that lists or exports subscriptions: the channel it
/// names, if it names one. The outer `None` where the text is no command
/// for this bot.
pub fn channel_command(text: &str, bot_name: &str) -> (parsed: Option<Option<String>>)
    ensures
        match parsed_command(text@, bot_name@) {
            Some((_, args)) => parsed is Some && match parsed->0 {
                Some(channel) => args.len() > 0 && channel@ == args[0],
                None => args.len() == 0,
            },
            None => parsed is None,
        },
{
    match parse_command(text, bot_name) {
        Some((_, args)) => Some(first_arg(&args)),
        None => None,
    }
}

} // verus!
