//! The actor: the behaviour the bot follows with the reviewed profiles.
use vstd::prelude::*;
use crate::entities::profile_reviewer::ProfileReviewer;
use crate::ids::{is_uuid_v4, new_uuid_v4};
use crate::entities::dv_bot::{DvBot, is_bot_message_task};
use crate::entities::task::Task;
use crate::messages::{dislike_text, super_like_text};
use crate::prompts::{ANALYZE_ALT_PROMPT, Prompt};

verus! {

/// The kinds of actor.
#[derive(Debug, Clone, Copy, PartialEq, Eq, Structural)]
pub enum ActorType {
    Default,
    Analyzer,
}

/// An actor: a behaviour with the score from which a profile is liked.
#[derive(Debug)]
pub struct Actor {
    id: u128,
    actor_type: ActorType,
    score_threshold: i32,
}

/// What the actor answers to a reviewed profile.
#[derive(Debug, Clone, Copy, PartialEq, Eq, Structural)]
pub enum Verdict {
    /// A super like (a like with a message).
    SuperLike,
    /// A dislike.
    Dislike,
}

/// The verdict on a score: a super like from the threshold on.
pub open spec fn verdict_of(score: i32, threshold: i32) -> Verdict {
    if score >= threshold {
        Verdict::SuperLike
    } else {
        Verdict::Dislike
    }
}

impl Actor {
    pub closed spec fn spec_id(&self) -> u128 {
        self.id
    }

    pub closed spec fn spec_actor_type(&self) -> ActorType {
        self.actor_type
    }

    pub closed spec fn spec_score_threshold(&self) -> i32 {
        self.score_threshold
    }

    /// An actor of the given kind and threshold, with a fresh random id.
    pub fn new(actor_type: ActorType, score_threshold: i32) -> (r: Actor)
        ensures
            r.spec_actor_type() == actor_type,
            r.spec_score_threshold() == score_threshold,
            is_uuid_v4(r.spec_id()),
    {
        Actor { id: new_uuid_v4(), actor_type, score_threshold }
    }

    /// The prompt scoring photos; every kind of actor uses the same.
    pub fn prompt(&self) -> (r: Prompt)
        ensures
            r.system matches Some(s) && s@ == ANALYZE_ALT_PROMPT@,
            r.user@ == ANALYZE_ALT_PROMPT@,
    {
        match self.actor_type {
            ActorType::Analyzer => Prompt::analyze_alt(),
            _ => Prompt::analyze_alt(),
        }
    }

    /// The verdict on a completed review: none where it has no score (it
    /// is left for later), else by the score against the threshold.
    pub fn verdict(&self, completed: &ProfileReviewer) -> (r: Option<Verdict>)
        ensures
            match completed.spec_score() {
                None => r is None,
                Some(score) => r == Some(verdict_of(score, self.spec_score_threshold())),
            },
    {
        match completed.score() {
            Some(score) => {
                if *score >= self.score_threshold {
                    Some(Verdict::SuperLike)
                } else {
                    Some(Verdict::Dislike)
                }
            },
            None => None,
        }
    }
}

impl Actor {
    /// The task answering a completed review, to queue before the review
    /// is marked processed: none where it has no score (it is left for
    /// later), else a super like from the threshold on and a dislike
    /// below it.
    pub fn answer_task(&self, completed: &ProfileReviewer) -> (r: Option<Task>)
        ensures
            match completed.spec_score() {
                None => r is None,
                Some(score) => r matches Some(t) && is_bot_message_task(
                    t,
                    if verdict_of(score, self.spec_score_threshold()) == Verdict::SuperLike {
                        super_like_text()
                    } else {
                        dislike_text()
                    },
                ),
            },
    {
        match self.verdict(completed) {
            Some(Verdict::SuperLike) => Some(DvBot::send_superlike()),
            Some(Verdict::Dislike) => Some(DvBot::send_dislike()),
            None => None,
        }
    }
}

/// One thing the actor does, in the order of its round.
#[derive(Debug)]
pub enum ActorAction {
    /// Restart the dating bot (queue `DvBot::refresh`).
    Restart,
    /// Read the dating bot's last message (queue `DvBot::read_last_message`).
    ReadLastMessage,
    /// Mark every review processed.
    CleanUpReviews,
    /// Queue the task it holds.
    Queue(Task),
    /// Mark the review with the id it holds processed.
    MarkProcessed(u128),
}

impl Actor {
    /// What the actor does when it starts: restart the dating bot, then
    /// read its last message.
    pub fn start_actions(&self) -> (r: Vec<ActorAction>)
        ensures
            r@.len() == 2,
            r@[0] is Restart,
            r@[1] is ReadLastMessage,
    {
        let mut r: Vec<ActorAction> = Vec::new();
        r.push(ActorAction::Restart);
        r.push(ActorAction::ReadLastMessage);
        r
    }

    /// What the actor does in one round, in order: where the review
    /// pipeline is stuck, restart the dating bot, read its last message
    /// and mark every review processed; then, for a completed review with
    /// a score, queue its answer (`answer_task`), mark it processed and
    /// read the bot's next message. A completed review without a score is
    /// left for a later round.
    pub fn actor_step(&self, stuck: bool, completed: Option<&ProfileReviewer>) -> (r: Vec<ActorAction>)
        ensures
            stuck ==> r@.len() >= 3 && r@[0] is Restart && r@[1] is ReadLastMessage && r@[2] is CleanUpReviews,
            ({
                let n: int = if stuck { 3 } else { 0 };
                match completed {
                    None => r@.len() == n,
                    Some(c) => match c.spec_score() {
                        None => r@.len() == n,
                        Some(score) => {
                            &&& r@.len() == n + 3
                            &&& r@[n] matches ActorAction::Queue(t) && is_bot_message_task(
                                t,
                                if verdict_of(score, self.spec_score_threshold()) == Verdict::SuperLike {
                                    super_like_text()
                                } else {
                                    dislike_text()
                                },
                            )
                            &&& r@[n + 1] matches ActorAction::MarkProcessed(id) && id == c.spec_id()
                            &&& r@[n + 2] is ReadLastMessage
                        },
                    },
                }
            }),
    {
        let mut r: Vec<ActorAction> = Vec::new();
        if stuck {
            r.push(ActorAction::Restart);
            r.push(ActorAction::ReadLastMessage);
            r.push(ActorAction::CleanUpReviews);
        }
        match completed {
            Some(c) => match self.answer_task(c) {
                Some(task) => {
                    r.push(ActorAction::Queue(task));
                    r.push(ActorAction::MarkProcessed(c.id()));
                    r.push(ActorAction::ReadLastMessage);
                },
                None => {},
            },
            None => {},
        }
        r
    }
}

/// A profile that scores at least as high as a super-liked one is super
/// liked too.
pub proof fn verdict_monotone(low: i32, high: i32, threshold: i32)
    requires
        low <= high,
        verdict_of(low, threshold) == Verdict::SuperLike,
    ensures
        verdict_of(high, threshold) == Verdict::SuperLike,
{
}

} // verus!
