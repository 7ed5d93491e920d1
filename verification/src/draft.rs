//! Starting a poll: what was asked for is checked, then the initiator is
//! asked for a title and a description.

use vstd::prelude::*;
use crate::channel::{channel_of, parse_channel};
use crate::duration::{duration_from_shortened, duration_seconds};
use crate::engine::InputError;
use crate::poll::{valid_candidate_count, Candidate, PollSpec, MAX_CANDIDATES, MIN_CANDIDATES};
use crate::text::same_text;

verus! {

/// The word by which the initiator gives a poll up while being prompted.
pub const CANCEL_KEYWORD: &'static str = "anuluj";

/// A poll as it is asked for: the channel and the duration are still the
/// tokens that were typed.
#[derive(Debug)]
pub struct PollRequest {
    /// The channel in which the poll was asked for.
    pub prompt_channel: u64,
    /// The user who asked for it.
    pub initiator: u64,
    /// When it was asked for, in seconds since the epoch.
    pub created_at: u64,
    /// The token that names the channel to post in.
    pub channel: String,
    /// The duration token.
    pub duration: String,
    /// The options, each with its emoji.
    pub candidates: Vec<Candidate>,
    /// The emoji by which the initiator ends the poll early.
    pub cancel_emoji: String,
    /// Whether a voter is kept from choosing the option that mentions them.
    pub self_vote_block: bool,
}

/// Where and until when a poll runs.
#[derive(Clone, Copy, Debug, PartialEq, Eq, Structural)]
pub struct Schedule {
    /// The channel to post in.
    pub channel: u64,
    /// How long votes are collected, in seconds.
    pub duration_secs: u64,
    /// The moment collection ends, in seconds since the epoch.
    pub deadline: u64,
}

/// The schedule of a poll that is asked for at `created_at`, or the reason
/// it is turned down. The number of candidates is looked at first, then the
/// duration, then the channel.
pub open spec fn schedule_of(
    candidates: nat,
    duration: Seq<char>,
    channel: Seq<char>,
    created_at: u64,
) -> Result<Schedule, InputError> {
    if !valid_candidate_count(candidates) {
        Err(InputError::CandidateCount)
    } else {
        match duration_seconds(duration) {
            None => Err(InputError::InvalidDuration),
            Some(secs) => {
                if created_at + secs > u64::MAX {
                    Err(InputError::InvalidDuration)
                } else {
                    match channel_of(channel) {
                        None => Err(InputError::InvalidChannel),
                        Some(id) => Ok(
                            Schedule {
                                channel: id,
                                duration_secs: secs as u64,
                                deadline: (created_at + secs) as u64,
                            },
                        ),
                    }
                }
            },
        }
    }
}

/// The number of candidates decides first: with two to eight a request is
/// never turned down for its number of candidates, and with any other number
/// it always is, whatever the duration and the channel.
pub proof fn lemma_candidate_count_decides(
    candidates: nat,
    duration: Seq<char>,
    channel: Seq<char>,
    created_at: u64,
)
    ensures
        (2 <= candidates <= 8) <==> schedule_of(candidates, duration, channel, created_at) != Err::<
            Schedule,
            InputError,
        >(InputError::CandidateCount),
{
}

/// Checks the number of candidates, the duration token and the channel
/// token, and fixes the deadline.
pub fn schedule(candidates: usize, duration: &str, channel: &str, created_at: u64) -> (r: Result<
    Schedule,
    InputError,
>)
    ensures
        r == schedule_of(candidates as nat, duration@, channel@, created_at),
{
    if candidates < MIN_CANDIDATES || candidates > MAX_CANDIDATES {
        return Err(InputError::CandidateCount);
    }
    let secs: u64 = match duration_from_shortened(duration) {
        Some(secs) => secs,
        None => {
            return Err(InputError::InvalidDuration);
        },
    };
    let deadline: u64 = match created_at.checked_add(secs) {
        Some(deadline) => deadline,
        None => {
            return Err(InputError::InvalidDuration);
        },
    };
    match parse_channel(channel) {
        Some(id) => Ok(Schedule { channel: id, duration_secs: secs, deadline }),
        None => Err(InputError::InvalidChannel),
    }
}

/// What the initiator is asked for.
#[derive(Clone, Copy, Debug, PartialEq, Eq, Structural)]
pub enum Prompt {
    Title,
    Description,
}

/// How far a draft has come.
#[derive(Clone, Copy, Debug, PartialEq, Eq, Structural)]
pub enum DraftStage {
    /// The title is asked for.
    AwaitingTitle,
    /// The description is asked for.
    AwaitingDescription,
    /// Title and description are there.
    Ready,
    /// The initiator gave the poll up.
    Cancelled,
}

/// The stage a draft is in after a reply: the cancel keyword gives the poll
/// up, any other reply answers the pending prompt. A draft that is ready or
/// cancelled stays so.
pub open spec fn stage_after(stage: DraftStage, reply: Seq<char>) -> DraftStage {
    match stage {
        DraftStage::AwaitingTitle => if reply == CANCEL_KEYWORD@ {
            DraftStage::Cancelled
        } else {
            DraftStage::AwaitingDescription
        },
        DraftStage::AwaitingDescription => if reply == CANCEL_KEYWORD@ {
            DraftStage::Cancelled
        } else {
            DraftStage::Ready
        },
        DraftStage::Ready => DraftStage::Ready,
        DraftStage::Cancelled => DraftStage::Cancelled,
    }
}

/// How a reply changes the definition that a draft holds: an answer to the
/// title prompt becomes the title, one to the description prompt the
/// description, and nothing else changes.
pub open spec fn answered(
    before: PollSpec,
    stage: DraftStage,
    reply: Seq<char>,
    after: PollSpec,
) -> bool {
    if reply == CANCEL_KEYWORD@ {
        after == before
    } else {
        match stage {
            DraftStage::AwaitingTitle => after.title@ == reply && after == (PollSpec {
                title: after.title,
                ..before
            }),
            DraftStage::AwaitingDescription => after.description@ == reply && after == (PollSpec {
                description: after.description,
                ..before
            }),
            _ => after == before,
        }
    }
}

/// A poll that was accepted and waits for its title and description.
pub struct PollDraft {
    spec: PollSpec,
    stage: DraftStage,
}

impl PollDraft {
    /// The definition as far as it is known.
    pub closed spec fn spec(&self) -> PollSpec {
        self.spec
    }

    /// The stage of the draft.
    pub closed spec fn stage_spec(&self) -> DraftStage {
        self.stage
    }

    /// Accepts or turns down a request. An accepted one has its schedule
    /// fixed and an empty title and description, and asks for the title.
    pub fn start(request: PollRequest) -> (r: Result<PollDraft, InputError>)
        ensures
            match schedule_of(
                request.candidates@.len(),
                request.duration@,
                request.channel@,
                request.created_at,
            ) {
                Ok(plan) => {
                    &&& r matches Ok(draft)
                    &&& draft.stage_spec() == DraftStage::AwaitingTitle
                    &&& draft.spec().title@ == Seq::<char>::empty()
                    &&& draft.spec().description@ == Seq::<char>::empty()
                    &&& draft.spec().candidates == request.candidates
                    &&& draft.spec().cancel_emoji == request.cancel_emoji
                    &&& draft.spec().duration_secs == plan.duration_secs
                    &&& draft.spec().deadline == plan.deadline
                    &&& draft.spec().self_vote_block == request.self_vote_block
                    &&& draft.spec().initiator == request.initiator
                    &&& draft.spec().target_channel == plan.channel
                    &&& draft.spec().prompt_channel == request.prompt_channel
                },
                Err(e) => r matches Err(f) && f == e,
            },
    {
        let plan: Schedule = match schedule(
            request.candidates.len(),
            request.duration.as_str(),
            request.channel.as_str(),
            request.created_at,
        ) {
            Ok(plan) => plan,
            Err(e) => {
                return Err(e);
            },
        };
        Ok(
            PollDraft {
                spec: PollSpec {
                    title: String::new(),
                    description: String::new(),
                    candidates: request.candidates,
                    cancel_emoji: request.cancel_emoji,
                    duration_secs: plan.duration_secs,
                    deadline: plan.deadline,
                    self_vote_block: request.self_vote_block,
                    initiator: request.initiator,
                    target_channel: plan.channel,
                    prompt_channel: request.prompt_channel,
                },
                stage: DraftStage::AwaitingTitle,
            },
        )
    }

    /// The stage of the draft.
    pub fn stage(&self) -> (stage: DraftStage)
        ensures
            stage == self.stage_spec(),
    {
        self.stage
    }

    /// What the initiator is to be asked next, if anything.
    pub fn pending_prompt(&self) -> (prompt: Option<Prompt>)
        ensures
            prompt == match self.stage_spec() {
                DraftStage::AwaitingTitle => Some(Prompt::Title),
                DraftStage::AwaitingDescription => Some(Prompt::Description),
                _ => None::<Prompt>,
            },
    {
        match self.stage {
            DraftStage::AwaitingTitle => Some(Prompt::Title),
            DraftStage::AwaitingDescription => Some(Prompt::Description),
            _ => None,
        }
    }

    /// Takes the initiator's reply to the pending prompt.
    pub fn answer(&mut self, reply: &str) -> (stage: DraftStage)
        ensures
            stage == final(self).stage_spec(),
            stage == stage_after(old(self).stage_spec(), reply@),
            answered(old(self).spec(), old(self).stage_spec(), reply@, final(self).spec()),
    {
        match self.stage {
            DraftStage::AwaitingTitle => {
                if same_text(reply, CANCEL_KEYWORD) {
                    self.stage = DraftStage::Cancelled;
                } else {
                    self.spec.title = reply.to_owned();
                    self.stage = DraftStage::AwaitingDescription;
                }
            },
            DraftStage::AwaitingDescription => {
                if same_text(reply, CANCEL_KEYWORD) {
                    self.stage = DraftStage::Cancelled;
                } else {
                    self.spec.description = reply.to_owned();
                    self.stage = DraftStage::Ready;
                }
            },
            _ => {},
        }
        self.stage
    }

    /// The finished definition, if the draft is ready.
    pub fn into_spec(self) -> (spec: Option<PollSpec>)
        ensures
            self.stage_spec() == DraftStage::Ready ==> spec == Some(self.spec()),
            self.stage_spec() != DraftStage::Ready ==> spec is None,
    {
        match self.stage {
            DraftStage::Ready => Some(self.spec),
            _ => None,
        }
    }
}

} // verus!
