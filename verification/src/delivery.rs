use vstd::prelude::*;
use crate::text::contains;
use crate::text::occurs_in;
use std::time::Duration;

verus! {

/// A transport error description that tells of a chat the bot can no longer
/// post to.
pub open spec fn spec_chat_is_unavailable(s: Seq<char>) -> bool {
    occurs_in("Forbidden"@, s) || occurs_in("chat not found"@, s) || occurs_in(
        "have no rights"@,
        s,
    ) || occurs_in("need administrator rights"@, s)
}

/// Whether an error description matches one of the phrases by which the
/// platform reports that a chat is gone or closed to the bot.
pub fn chat_is_unavailable(s: &str) -> (unavailable: bool)
    ensures
        unavailable == spec_chat_is_unavailable(s@),
{
    contains(s, "Forbidden") || contains(s, "chat not found") || contains(s, "have no rights")
        || contains(s, "need administrator rights")
}

/// Why the transport did not deliver a message.
#[derive(Debug)]
pub enum SendError {
    /// The recipient blocked the bot.
    Blocked,
    /// The bot was removed from the chat.
    Kicked,
    /// The recipient's account is deactivated.
    Deactivated,
    /// The chat does not exist.
    ChatNotFound,
    /// The bot may not post in the chat.
    NoRights,
    /// The chat was upgraded and now goes by this identifier.
    Migrated(i64),
    /// The platform asks to wait this long before the next request.
    RateLimited(Duration),
    /// Anything else, with the transport's description of it.
    Other(String),
}

/// What the caller does before the next send.
#[derive(Debug)]
pub enum Effect {
    /// Nothing.
    Nothing,
    /// Remove this chat from every feed it is subscribed to.
    DeleteSubscriber(i64),
    /// Rewrite the chat's identifier in every feed that names it.
    UpdateSubscriber { old_id: i64, new_id: i64 },
    /// Wait this long.
    Sleep(Duration),
}

/// How the fan-out goes on.
#[derive(Debug)]
pub enum Next {
    /// Send the message to this chat and report the result.
    Send(i64),
    /// Every subscriber was served or given up for this round.
    Finished,
    /// The fan-out is aborted with this error; the subscribers not yet
    /// served get nothing.
    Failed(SendError),
}

/// The answer to one send result.
#[derive(Debug)]
pub struct Step {
    pub effect: Effect,
    pub next: Next,
}

/// Attempts allowed for one subscriber within one fan-out.
pub const MAX_ATTEMPTS: u8 = 3;

/// The error says that the chat will not be reachable again.
pub open spec fn spec_is_unreachable(e: SendError) -> bool {
    match e {
        SendError::Blocked => true,
        SendError::Kicked => true,
        SendError::Deactivated => true,
        SendError::ChatNotFound => true,
        SendError::NoRights => true,
        SendError::Other(description) => spec_chat_is_unavailable(description@),
        _ => false,
    }
}

/// Tells a permanent loss of the recipient from every other error.
pub fn is_unreachable(e: &SendError) -> (unreachable: bool)
    ensures
        unreachable == spec_is_unreachable(*e),
{
    match e {
        SendError::Blocked => true,
        SendError::Kicked => true,
        SendError::Deactivated => true,
        SendError::ChatNotFound => true,
        SendError::NoRights => true,
        SendError::Other(description) => chat_is_unavailable(description.as_str()),
        _ => false,
    }
}

/// The delivery of one message to a list of subscribers, one send at a time.
/// The caller performs each send and hands the result to `on_result`.
#[derive(Debug)]
pub struct Fanout {
    /// The subscribers in delivery order.
    pub subscribers: Vec<i64>,
    /// Index of the subscriber being served; the length where none is left.
    pub position: usize,
    /// Identifier that the next attempt goes to: the subscriber's own, or
    /// the one it migrated to.
    pub current: i64,
    /// Attempts already made for the subscriber being served.
    pub attempts: u8,
}

impl Fanout {
    pub open spec fn wf(self) -> bool {
        &&& self.position <= self.subscribers@.len() <= usize::MAX
        &&& self.attempts < MAX_ATTEMPTS
        &&& self.position == self.subscribers@.len() ==> self.attempts == 0
    }

    /// No send is outstanding.
    pub open spec fn finished(self) -> bool {
        self.position >= self.subscribers@.len()
    }

    /// Sends that the fan-out may still ask for, at most.
    pub open spec fn budget(self) -> int {
        (self.subscribers@.len() - self.position) * 3 - self.attempts
    }

    /// The state in which the subscriber at `position` is served next, and
    /// what is asked of the caller then.
    pub open spec fn turn_to(self, position: int) -> (Fanout, Next) {
        if position < self.subscribers@.len() {
            (
                Fanout {
                    subscribers: self.subscribers,
                    position: position as usize,
                    current: self.subscribers@[position],
                    attempts: 0,
                },
                Next::Send(self.subscribers@[position]),
            )
        } else {
            (
                Fanout {
                    subscribers: self.subscribers,
                    position: self.subscribers@.len() as usize,
                    current: self.current,
                    attempts: 0,
                },
                Next::Finished,
            )
        }
    }

    /// Another attempt for the subscriber being served, addressed to
    /// `target`, while the attempts last; else the next subscriber's turn.
    pub open spec fn retry_or_advance(self, target: i64) -> (Fanout, Next) {
        if self.attempts + 1 < MAX_ATTEMPTS {
            (
                Fanout {
                    subscribers: self.subscribers,
                    position: self.position,
                    current: target,
                    attempts: (self.attempts + 1) as u8,
                },
                Next::Send(target),
            )
        } else {
            self.turn_to(self.position + 1)
        }
    }

    /// The state and the answer that follow the result of one send.
    pub open spec fn spec_on_result(self, result: Result<(), SendError>) -> (Fanout, Step) {
        match result {
            Ok(_) => {
                let (state, next) = self.turn_to(self.position + 1);
                (state, Step { effect: Effect::Nothing, next })
            },
            Err(e) => if spec_is_unreachable(e) {
                let (state, next) = self.turn_to(self.position + 1);
                (state, Step { effect: Effect::DeleteSubscriber(self.current), next })
            } else {
                match e {
                    SendError::Migrated(new_id) => {
                        let (state, next) = self.retry_or_advance(new_id);
                        (
                            state,
                            Step {
                                effect: Effect::UpdateSubscriber { old_id: self.current, new_id },
                                next,
                            },
                        )
                    },
                    SendError::RateLimited(delay) => {
                        let (state, next) = self.retry_or_advance(self.current);
                        (state, Step { effect: Effect::Sleep(delay), next })
                    },
                    _ => {
                        let (state, _) = self.turn_to(self.subscribers@.len() as int);
                        (state, Step { effect: Effect::Nothing, next: Next::Failed(e) })
                    },
                }
            },
        }
    }

    /// Starts a fan-out to `subscribers`, in the order given.
    pub fn new(subscribers: Vec<i64>) -> (fanout: Fanout)
        ensures
            fanout.wf(),
            fanout == (Fanout {
                subscribers,
                position: 0,
                current: if subscribers@.len() > 0 {
                    subscribers@[0]
                } else {
                    0
                },
                attempts: 0,
            }),
    {
        let current: i64 = if subscribers.len() > 0 { subscribers[0] } else { 0 };
        Fanout { subscribers, position: 0, current, attempts: 0 }
    }

    /// The chat that the next send goes to, or `None` where the fan-out has
    /// ended.
    pub fn target(&self) -> (target: Option<i64>)
        ensures
            target == if self.finished() {
                None
            } else {
                Some(self.current)
            },
    {
        if self.position >= self.subscribers.len() {
            None
        } else {
            Some(self.current)
        }
    }

    fn advance(&mut self, position: usize) -> (next: Next)
        requires
            position <= old(self).subscribers@.len(),
        ensures
            (*final(self), next) == old(self).turn_to(position as int),
    {
        if position < self.subscribers.len() {
            let id: i64 = self.subscribers[position];
            self.position = position;
            self.current = id;
            self.attempts = 0;
            Next::Send(id)
        } else {
            self.position = self.subscribers.len();
            self.attempts = 0;
            Next::Finished
        }
    }

    fn retry(&mut self, target: i64) -> (next: Next)
        requires
            old(self).wf(),
            !old(self).finished(),
        ensures
            (*final(self), next) == old(self).retry_or_advance(target),
    {
        if self.attempts + 1 < MAX_ATTEMPTS {
            self.current = target;
            self.attempts = self.attempts + 1;
            Next::Send(target)
        } else {
            let total: usize = self.subscribers.len();
            let position: usize = if self.position < total { self.position + 1 } else { total };
            self.advance(position)
        }
    }

    /// Takes the result of the send that was asked for and says what to do
    /// next. A delivered message and a recipient lost for good end the
    /// subscriber's turn; a migration and a rate limit cost one attempt and
    /// are tried again while attempts are left; any other error ends the
    /// fan-out.
    pub fn on_result(&mut self, result: Result<(), SendError>) -> (step: Step)
        requires
            old(self).wf(),
            !old(self).finished(),
        ensures
            (*final(self), step) == old(self).spec_on_result(result),
            final(self).wf(),
            final(self).subscribers@ == old(self).subscribers@,
            0 <= final(self).budget() < old(self).budget(),
    {
        let served: i64 = self.current;
        let total: usize = self.subscribers.len();
        let following: usize = if self.position < total { self.position + 1 } else { total };
        match result {
            Ok(_) => {
                let next = self.advance(following);
                Step { effect: Effect::Nothing, next }
            },
            Err(e) => {
                if is_unreachable(&e) {
                    let next = self.advance(following);
                    Step { effect: Effect::DeleteSubscriber(served), next }
                } else {
                    match e {
                        SendError::Migrated(new_id) => {
                            let next = self.retry(new_id);
                            Step {
                                effect: Effect::UpdateSubscriber { old_id: served, new_id },
                                next,
                            }
                        },
                        SendError::RateLimited(delay) => {
                            let next = self.retry(served);
                            Step { effect: Effect::Sleep(delay), next }
                        },
                        other => {
                            let _ = self.advance(total);
                            Step { effect: Effect::Nothing, next: Next::Failed(other) }
                        },
                    }
                }
            },
        }
    }
}

/// A rate limit followed by a delivery: the caller sleeps for the delay
/// that the platform named, sends again to the same chat, and the
/// subscriber's turn ends with that one delivery; two sends were used, and
/// nothing is deleted or rewritten.
pub proof fn lemma_rate_limit_then_delivery(fanout: Fanout, delay: Duration)
    requires
        fanout.wf(),
        !fanout.finished(),
        fanout.attempts + 1 < MAX_ATTEMPTS,
    ensures
        ({
            let (waiting, first) = fanout.spec_on_result(Err(SendError::RateLimited(delay)));
            let (after, second) = waiting.spec_on_result(Ok(()));
            &&& first.effect == Effect::Sleep(delay)
            &&& first.next == Next::Send(fanout.current)
            &&& waiting.position == fanout.position
            &&& waiting.attempts == fanout.attempts + 1
            &&& second.effect == Effect::Nothing
            &&& second.next == fanout.turn_to(fanout.position + 1).1
            &&& after.position == fanout.position + 1
            &&& after.attempts == 0
        }),
{
}

/// A recipient that is lost for good is deleted once, under the identifier
/// that the send went to, and the fan-out goes on with the next subscriber
/// instead of failing.
pub proof fn lemma_unreachable_is_deleted_once(fanout: Fanout, e: SendError)
    requires
        fanout.wf(),
        !fanout.finished(),
        spec_is_unreachable(e),
    ensures
        ({
            let (after, step) = fanout.spec_on_result(Err(e));
            &&& step.effect == Effect::DeleteSubscriber(fanout.current)
            &&& !(step.next is Failed)
            &&& step.next == fanout.turn_to(fanout.position + 1).1
            &&& after.position == fanout.position + 1
            &&& after.attempts == 0
            &&& after.subscribers == fanout.subscribers
        }),
{
}

/// Whatever the transport answers, one subscriber costs at most three
/// sends: each answer either ends the subscriber's turn or uses up one of
/// the attempts that are left.
pub proof fn lemma_attempts_are_bounded(fanout: Fanout, result: Result<(), SendError>)
    requires
        fanout.wf(),
        !fanout.finished(),
    ensures
        ({
            let (after, step) = fanout.spec_on_result(result);
            &&& after.wf()
            &&& after.position > fanout.position || (after.position == fanout.position
                && after.attempts == fanout.attempts + 1)
            &&& after.budget() < fanout.budget()
            &&& step.next is Send <==> !after.finished()
            &&& step.next is Send ==> step.next == Next::Send(after.current)
        }),
{
}

} // verus!
