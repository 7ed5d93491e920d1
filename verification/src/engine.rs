//! The poll engine: the life of one poll from its creation to the published
//! result, as a state machine that is fed reactions and the deadline.

use vstd::prelude::*;
use crate::ledger::{choice_in, lemma_revote_counts_last, total_votes, votes_for, VoteLedger};
use crate::mention::{denotes, label_denotes};
use crate::poll::{
    lemma_first_match, resolution, valid_candidate_count, PollRules, PollSpec, Resolution,
    MAX_CANDIDATES, MIN_CANDIDATES,
};
use crate::tally::{is_tally_of, tally, PollResult};

verus! {

/// Where a poll stands in its life.
#[derive(Clone, Copy, Debug, PartialEq, Eq, Structural)]
pub enum Phase {
    /// The definition was accepted; nothing is posted yet.
    Created,
    /// The poll message exists.
    Posted,
    /// Reactions are counted as votes.
    CollectingVotes,
    /// Collection has ended; the result is due.
    Finalizing,
    /// The poll is over; nothing changes any more.
    Completed,
}

/// What ended the collection of votes.
#[derive(Clone, Copy, Debug, PartialEq, Eq, Structural)]
pub enum Trigger {
    /// The deadline passed.
    Deadline,
    /// The initiator reacted with the cancel emoji.
    Cancelled,
}

/// A reason for which a poll is never started.
#[derive(Clone, Copy, Debug, PartialEq, Eq, Structural)]
pub enum InputError {
    /// Fewer than two or more than eight candidates.
    CandidateCount,
    /// The duration token is malformed, or the poll would end after the
    /// last moment a clock of 64 bits can hold.
    InvalidDuration,
    /// The channel token names no channel.
    InvalidChannel,
}

/// A failure of the chat platform while a poll runs.
#[derive(Clone, Copy, Debug, PartialEq, Eq, Structural)]
pub enum Failure {
    /// Posting, editing, adding or removing reactions, or receiving events
    /// failed.
    Transport,
    /// A direct notice to a user could not be sent.
    Notify,
}

/// The handle of a posted poll message.
#[derive(Clone, Copy, Debug, PartialEq, Eq, Structural)]
pub struct PollMessage {
    /// The channel the message is in.
    pub channel: u64,
    /// The message itself.
    pub message: u64,
    /// The account that posted it.
    pub author: u64,
}

/// Which reactions a poll listens to: those on its message, by anyone but
/// the account that posted it.
#[derive(Clone, Copy, Debug, PartialEq, Eq, Structural)]
pub struct ReactionFilter {
    pub message: u64,
    pub excluded_user: u64,
}

impl ReactionFilter {
    /// Whether a reaction by `user` on `message` passes the filter.
    pub open spec fn admits_spec(self, message: u64, user: u64) -> bool {
        message == self.message && user != self.excluded_user
    }

    /// Whether a reaction by `user` on `message` passes the filter.
    #[verifier::when_used_as_spec(admits_spec)]
    pub fn admits(self, message: u64, user: u64) -> (b: bool)
        ensures
            b == self.admits_spec(message, user),
    {
        message == self.message && user != self.excluded_user
    }
}

/// The emoji of a reaction.
#[derive(Debug)]
pub enum Emoji {
    /// A Unicode emoji, by its text.
    Unicode(String),
    /// An emoji defined by a community; never a vote.
    Custom,
}

/// A reaction that a user added to a message.
#[derive(Debug)]
pub struct Reaction {
    pub message: u64,
    pub user: u64,
    pub emoji: Emoji,
}

/// What the engine made of one reaction. Unless the reaction was ignored,
/// the caller removes it from the message, whatever the verdict.
#[derive(Clone, Copy, Debug, PartialEq, Eq, Structural)]
pub enum Verdict {
    /// The poll is not collecting, or the reaction does not pass its filter.
    /// Nothing is to be done.
    Ignored,
    /// The emoji stands for nothing in this poll.
    Unrecognized,
    /// The initiator cancelled: collection is over.
    Cancelled,
    /// Someone else tried to cancel; they are told that they may not.
    CancelDenied,
    /// The voter chose the candidate that mentions them; they are told that
    /// this is not allowed, and the ledger is as before.
    SelfVoteRejected { candidate: usize },
    /// A first vote was recorded.
    VoteSet { candidate: usize },
    /// A vote replaced the voter's earlier one.
    VoteChanged { from: usize, to: usize },
}

impl Verdict {
    /// Whether the reaction is to be removed from the message.
    pub open spec fn removes_reaction_spec(self) -> bool {
        self != Verdict::Ignored
    }

    /// Whether the reaction is to be removed from the message.
    #[verifier::when_used_as_spec(removes_reaction_spec)]
    pub fn removes_reaction(self) -> (b: bool)
        ensures
            b == self.removes_reaction_spec(),
    {
        match self {
            Verdict::Ignored => false,
            _ => true,
        }
    }
}

/// The state of a poll.
pub struct PollState {
    pub phase: Phase,
    pub votes: Map<u64, usize>,
    pub trigger: Option<Trigger>,
    pub message: Option<PollMessage>,
}

/// The text of a reaction's emoji, if it is a Unicode emoji.
pub open spec fn emoji_text(emoji: Emoji) -> Option<Seq<char>> {
    match emoji {
        Emoji::Unicode(name) => Some(name@),
        Emoji::Custom => None,
    }
}

/// The state of a poll that was just created.
pub open spec fn initial_state() -> PollState {
    PollState {
        phase: Phase::Created,
        votes: Map::<u64, usize>::empty(),
        trigger: None,
        message: None,
    }
}

/// The poll is collecting votes and the reaction is on its message, by
/// someone other than the account that posted it.
pub open spec fn listens(state: PollState, message: u64, user: u64) -> bool {
    &&& state.phase == Phase::CollectingVotes
    &&& state.message matches Some(m)
    &&& m.message == message
    &&& m.author != user
}

/// The verdict on a reaction by `user` on `message`.
pub open spec fn verdict_on(
    rules: PollRules,
    state: PollState,
    message: u64,
    user: u64,
    emoji: Option<Seq<char>>,
) -> Verdict {
    if !listens(state, message, user) {
        Verdict::Ignored
    } else {
        match emoji {
            None => Verdict::Unrecognized,
            Some(text) => match resolution(rules, text) {
                Resolution::Candidate(i) => {
                    if rules.self_vote_block && denotes(rules.labels[i as int], user) {
                        Verdict::SelfVoteRejected { candidate: i }
                    } else {
                        match choice_in(state.votes, user) {
                            Some(from) => Verdict::VoteChanged { from, to: i },
                            None => Verdict::VoteSet { candidate: i },
                        }
                    }
                },
                Resolution::Cancel => {
                    if user == rules.initiator {
                        Verdict::Cancelled
                    } else {
                        Verdict::CancelDenied
                    }
                },
                Resolution::Unknown => Verdict::Unrecognized,
            },
        }
    }
}

/// The candidate that a verdict wrote to the ledger, if it wrote one.
pub open spec fn recorded_vote(verdict: Verdict) -> Option<usize> {
    match verdict {
        Verdict::VoteSet { candidate } => Some(candidate),
        Verdict::VoteChanged { from, to } => Some(to),
        _ => None,
    }
}

/// The state after a verdict on a reaction by `user`: a vote is written to
/// the ledger, a cancellation ends the collection, and everything else
/// leaves the state as it was.
pub open spec fn after_verdict(state: PollState, user: u64, verdict: Verdict) -> PollState {
    match verdict {
        Verdict::VoteSet { candidate } => PollState {
            votes: state.votes.insert(user, candidate),
            ..state
        },
        Verdict::VoteChanged { from, to } => PollState {
            votes: state.votes.insert(user, to),
            ..state
        },
        Verdict::Cancelled => PollState {
            phase: Phase::Finalizing,
            trigger: Some(Trigger::Cancelled),
            ..state
        },
        _ => state,
    }
}

/// The state after a reaction.
pub open spec fn after_reaction(
    rules: PollRules,
    state: PollState,
    message: u64,
    user: u64,
    emoji: Option<Seq<char>>,
) -> PollState {
    after_verdict(state, user, verdict_on(rules, state, message, user, emoji))
}

/// The state after the deadline has passed: collection ends if it was still
/// going on, and nothing changes otherwise.
pub open spec fn after_deadline(state: PollState) -> PollState {
    if state.phase == Phase::CollectingVotes {
        PollState { phase: Phase::Finalizing, trigger: Some(Trigger::Deadline), ..state }
    } else {
        state
    }
}

/// The state after the poll message was posted.
pub open spec fn after_posted(state: PollState, message: PollMessage) -> PollState {
    if state.phase == Phase::Created {
        PollState { phase: Phase::Posted, message: Some(message), ..state }
    } else {
        state
    }
}

/// The state after the reactions were seeded and collection was opened.
pub open spec fn after_open(state: PollState) -> PollState {
    if state.phase == Phase::Posted {
        PollState { phase: Phase::CollectingVotes, ..state }
    } else {
        state
    }
}

/// The state after the result was drawn up.
pub open spec fn after_finalize(state: PollState) -> PollState {
    if state.phase == Phase::Finalizing {
        PollState { phase: Phase::Completed, ..state }
    } else {
        state
    }
}

/// The state after the poll was given up.
pub open spec fn after_abort(state: PollState) -> PollState {
    PollState { phase: Phase::Completed, ..state }
}

/// The state after a failure: a failed notice changes nothing, any other
/// failure ends the poll at once.
pub open spec fn after_failure(state: PollState, failure: Failure) -> PollState {
    match failure {
        Failure::Transport => after_abort(state),
        Failure::Notify => state,
    }
}

/// No voter backs a candidate whose label stands for themselves.
pub open spec fn no_self_votes(rules: PollRules, votes: Map<u64, usize>) -> bool {
    forall|voter: u64| #[trigger]
        votes.contains_key(voter) && votes[voter] < rules.labels.len() ==> !denotes(
            rules.labels[votes[voter] as int],
            voter,
        )
}

/// What holds of every poll at every moment.
pub open spec fn well_formed(rules: PollRules, state: PollState) -> bool {
    &&& rules.labels.len() == rules.emojis.len()
    &&& valid_candidate_count(rules.labels.len())
    &&& state.votes.dom().finite()
    &&& forall|voter: u64| #[trigger]
        state.votes.contains_key(voter) ==> state.votes[voter] < rules.labels.len()
    &&& rules.self_vote_block ==> no_self_votes(rules, state.votes)
    &&& state.phase == Phase::Created ==> state.message is None
    &&& (state.phase == Phase::Posted || state.phase == Phase::CollectingVotes || state.phase
        == Phase::Finalizing) ==> state.message is Some
    &&& (state.phase == Phase::Created || state.phase == Phase::Posted) ==> state.votes
        == Map::<u64, usize>::empty()
    &&& state.phase == Phase::Finalizing ==> state.trigger is Some
    &&& (state.phase == Phase::Created || state.phase == Phase::Posted || state.phase
        == Phase::CollectingVotes) ==> state.trigger is None
}

/// A reaction as the engine sees it.
pub struct ReactionEvent {
    pub message: u64,
    pub user: u64,
    pub emoji: Option<Seq<char>>,
}

/// The state after a series of reactions, taken one after the other.
pub open spec fn after_reactions(rules: PollRules, state: PollState, events: Seq<ReactionEvent>) -> PollState
    decreases events.len(),
{
    if events.len() == 0 {
        state
    } else {
        let before = after_reactions(rules, state, events.drop_last());
        let last = events.last();
        after_reaction(rules, before, last.message, last.user, last.emoji)
    }
}

/// A poll that was just created is well-formed, whatever its rules, as long
/// as every candidate has an emoji and there are two to eight of them.
pub proof fn lemma_initial_state_well_formed(rules: PollRules)
    requires
        rules.labels.len() == rules.emojis.len(),
        valid_candidate_count(rules.labels.len()),
    ensures
        well_formed(rules, initial_state()),
{
}

/// A reaction leaves a well-formed poll well-formed.
pub proof fn lemma_reaction_keeps_well_formed(
    rules: PollRules,
    state: PollState,
    message: u64,
    user: u64,
    emoji: Option<Seq<char>>,
)
    requires
        well_formed(rules, state),
    ensures
        well_formed(rules, after_reaction(rules, state, message, user, emoji)),
{
    if emoji is Some {
        lemma_first_match(rules.emojis, emoji.unwrap());
    }
    let after = after_reaction(rules, state, message, user, emoji);
    assert(after.votes.dom().finite());
}

/// Any number of reactions leaves a well-formed poll well-formed.
pub proof fn lemma_reactions_keep_well_formed(
    rules: PollRules,
    state: PollState,
    events: Seq<ReactionEvent>,
)
    requires
        well_formed(rules, state),
    ensures
        well_formed(rules, after_reactions(rules, state, events)),
    decreases events.len(),
{
    if events.len() > 0 {
        lemma_reactions_keep_well_formed(rules, state, events.drop_last());
        let before = after_reactions(rules, state, events.drop_last());
        let last = events.last();
        lemma_reaction_keeps_well_formed(rules, before, last.message, last.user, last.emoji);
    }
}

/// With the self-vote block on, the ledger never holds a vote for the
/// candidate that stands for the voter, after any number of reactions,
/// whoever reacts and however often.
pub proof fn lemma_self_votes_never_recorded(
    rules: PollRules,
    state: PollState,
    events: Seq<ReactionEvent>,
)
    requires
        well_formed(rules, state),
        rules.self_vote_block,
    ensures
        forall|voter: u64|
            #![trigger after_reactions(rules, state, events).votes.contains_key(voter)]
            after_reactions(rules, state, events).votes.contains_key(voter) ==> !denotes(
                rules.labels[after_reactions(rules, state, events).votes[voter] as int],
                voter,
            ),
{
    lemma_reactions_keep_well_formed(rules, state, events);
}

/// A reaction that is turned down, for whatever reason, leaves the state of
/// the poll exactly as it was.
pub proof fn lemma_rejection_changes_nothing(
    rules: PollRules,
    state: PollState,
    message: u64,
    user: u64,
    emoji: Option<Seq<char>>,
)
    requires
        recorded_vote(verdict_on(rules, state, message, user, emoji)) is None,
        verdict_on(rules, state, message, user, emoji) != Verdict::Cancelled,
    ensures
        after_reaction(rules, state, message, user, emoji) == state,
{
}

/// A voter who casts two different votes, one after the other, is counted
/// once, for the second: the ledger is as if only the second vote had been
/// cast, the first choice has no vote from them and the second exactly one.
pub proof fn lemma_revote_replaces(
    rules: PollRules,
    state: PollState,
    message: u64,
    voter: u64,
    first: Seq<char>,
    second: Seq<char>,
)
    requires
        state.votes.dom().finite(),
        recorded_vote(verdict_on(rules, state, message, voter, Some(first))) is Some,
        recorded_vote(
            verdict_on(
                rules,
                after_reaction(rules, state, message, voter, Some(first)),
                message,
                voter,
                Some(second),
            ),
        ) is Some,
        resolution(rules, first) != resolution(rules, second),
    ensures
        ({
            let between = after_reaction(rules, state, message, voter, Some(first));
            let after = after_reaction(rules, between, message, voter, Some(second));
            let others = state.votes.remove(voter);
            &&& resolution(rules, first) matches Resolution::Candidate(a)
            &&& resolution(rules, second) matches Resolution::Candidate(b)
            &&& verdict_on(rules, between, message, voter, Some(second)) == (Verdict::VoteChanged {
                from: a,
                to: b,
            })
            &&& after.votes == state.votes.insert(voter, b)
            &&& choice_in(after.votes, voter) == Some(b)
            &&& votes_for(after.votes, b) == votes_for(others, b) + 1
            &&& votes_for(after.votes, a) == votes_for(others, a)
            &&& total_votes(after.votes) == total_votes(others) + 1
        }),
{
    let a = resolution(rules, first)->Candidate_0;
    let b = resolution(rules, second)->Candidate_0;
    lemma_revote_counts_last(state.votes, voter, a, b);
}

/// Once the initiator has cancelled, the ledger is final: the poll is
/// finalizing with the votes as they stood at that moment, the deadline that
/// passes later changes nothing, and neither does any later reaction.
pub proof fn lemma_cancel_precedes_deadline(
    rules: PollRules,
    state: PollState,
    message: u64,
    user: u64,
    emoji: Option<Seq<char>>,
    later: Seq<ReactionEvent>,
)
    requires
        verdict_on(rules, state, message, user, emoji) == Verdict::Cancelled,
    ensures
        ({
            let cancelled = after_reaction(rules, state, message, user, emoji);
            &&& user == rules.initiator
            &&& state.phase == Phase::CollectingVotes
            &&& cancelled.phase == Phase::Finalizing
            &&& cancelled.trigger == Some(Trigger::Cancelled)
            &&& cancelled.votes == state.votes
            &&& after_deadline(cancelled) == cancelled
            &&& after_reactions(rules, cancelled, later) == cancelled
            &&& after_finalize(cancelled).votes == state.votes
            &&& after_finalize(cancelled).trigger == Some(Trigger::Cancelled)
        }),
{
    let cancelled = after_reaction(rules, state, message, user, emoji);
    lemma_reactions_ignored_unless_collecting(rules, cancelled, later);
}

/// Once the deadline has ended the collection, the ledger is final: a cancel
/// reaction that comes later, like any other reaction, changes nothing.
pub proof fn lemma_deadline_precedes_cancel(
    rules: PollRules,
    state: PollState,
    later: Seq<ReactionEvent>,
)
    requires
        state.phase == Phase::CollectingVotes,
    ensures
        ({
            let ended = after_deadline(state);
            &&& ended.phase == Phase::Finalizing
            &&& ended.trigger == Some(Trigger::Deadline)
            &&& ended.votes == state.votes
            &&& after_reactions(rules, ended, later) == ended
            &&& after_deadline(ended) == ended
        }),
{
    lemma_reactions_ignored_unless_collecting(rules, after_deadline(state), later);
}

/// A poll that is not collecting votes ignores every reaction.
pub proof fn lemma_reactions_ignored_unless_collecting(
    rules: PollRules,
    state: PollState,
    events: Seq<ReactionEvent>,
)
    requires
        state.phase != Phase::CollectingVotes,
    ensures
        after_reactions(rules, state, events) == state,
    decreases events.len(),
{
    if events.len() > 0 {
        lemma_reactions_ignored_unless_collecting(rules, state, events.drop_last());
    }
}

/// A poll is finalized once: after the result was drawn up the poll is
/// completed, and no event brings it back.
pub proof fn lemma_finalized_once(rules: PollRules, state: PollState, later: Seq<ReactionEvent>)
    requires
        state.phase == Phase::Finalizing,
    ensures
        ({
            let done = after_finalize(state);
            &&& done.phase == Phase::Completed
            &&& done.votes == state.votes
            &&& after_finalize(done) == done
            &&& after_deadline(done) == done
            &&& after_reactions(rules, done, later) == done
        }),
{
    lemma_reactions_ignored_unless_collecting(rules, after_finalize(state), later);
}

/// One running poll. It owns its ledger; nothing else changes it.
pub struct PollEngine {
    spec: PollSpec,
    phase: Phase,
    message: Option<PollMessage>,
    ledger: VoteLedger,
    trigger: Option<Trigger>,
}

impl View for PollEngine {
    type V = PollState;

    /// The state of the poll.
    closed spec fn view(&self) -> PollState {
        PollState {
            phase: self.phase,
            votes: self.ledger@,
            trigger: self.trigger,
            message: self.message,
        }
    }
}

impl PollEngine {
    /// The definition of the poll.
    pub closed spec fn spec(&self) -> PollSpec {
        self.spec
    }

    /// The rules of the poll.
    pub open spec fn rules(&self) -> PollRules {
        self.spec().rules()
    }

    /// The engine's invariant.
    pub open spec fn wf(&self) -> bool {
        well_formed(self.rules(), self@)
    }

    /// Creates the engine for a poll. The number of candidates is checked
    /// here, whoever checked it before.
    pub fn new(spec: PollSpec) -> (r: Result<PollEngine, InputError>)
        ensures
            valid_candidate_count(spec.candidates@.len()) ==> (r matches Ok(engine) && engine.spec()
                == spec && engine@ == initial_state() && engine.wf()),
            !valid_candidate_count(spec.candidates@.len()) ==> r matches Err(
                InputError::CandidateCount,
            ),
    {
        let n: usize = spec.candidates.len();
        if n < MIN_CANDIDATES || n > MAX_CANDIDATES {
            return Err(InputError::CandidateCount);
        }
        let engine = PollEngine {
            spec,
            phase: Phase::Created,
            message: None,
            ledger: VoteLedger::new(),
            trigger: None,
        };
        proof {
            engine.ledger.lemma_finite();
        }
        Ok(engine)
    }

    /// The phase the poll is in.
    pub fn phase(&self) -> (phase: Phase)
        ensures
            phase == self@.phase,
    {
        self.phase
    }

    /// What ended the collection, once it has ended.
    pub fn trigger(&self) -> (trigger: Option<Trigger>)
        ensures
            trigger == self@.trigger,
    {
        self.trigger
    }

    /// The handle of the poll message, once it is posted.
    pub fn message(&self) -> (message: Option<PollMessage>)
        ensures
            message == self@.message,
    {
        self.message
    }

    /// The definition of the poll.
    pub fn definition(&self) -> (spec: &PollSpec)
        ensures
            *spec == self.spec(),
    {
        &self.spec
    }

    /// The ledger of the poll.
    pub fn ledger(&self) -> (ledger: &VoteLedger)
        ensures
            ledger@ == self@.votes,
    {
        &self.ledger
    }

    /// The reactions the poll listens to, once its message is posted.
    pub fn reaction_filter(&self) -> (filter: Option<ReactionFilter>)
        ensures
            match self@.message {
                Some(m) => filter == Some(
                    (ReactionFilter { message: m.message, excluded_user: m.author }),
                ),
                None => filter is None,
            },
    {
        match self.message {
            Some(m) => Some(ReactionFilter { message: m.message, excluded_user: m.author }),
            None => None,
        }
    }

    /// Records that the poll message was posted. Returns whether the poll
    /// was waiting for that.
    pub fn posted(&mut self, message: PollMessage) -> (accepted: bool)
        ensures
            final(self).spec() == old(self).spec(),
            final(self)@ == after_posted(old(self)@, message),
            accepted == (old(self)@.phase == Phase::Created),
            old(self).wf() ==> final(self).wf(),
    {
        match self.phase {
            Phase::Created => {
                self.message = Some(message);
                self.phase = Phase::Posted;
                true
            },
            _ => false,
        }
    }

    /// Opens the collection of votes, once the reactions are seeded. Returns
    /// whether the poll was waiting for that.
    pub fn open(&mut self) -> (accepted: bool)
        ensures
            final(self).spec() == old(self).spec(),
            final(self)@ == after_open(old(self)@),
            accepted == (old(self)@.phase == Phase::Posted),
            old(self).wf() ==> final(self).wf(),
    {
        match self.phase {
            Phase::Posted => {
                self.phase = Phase::CollectingVotes;
                true
            },
            _ => false,
        }
    }

    /// Takes one reaction and says what is to be done about it.
    pub fn on_reaction(&mut self, reaction: &Reaction) -> (verdict: Verdict)
        ensures
            final(self).spec() == old(self).spec(),
            verdict == verdict_on(
                old(self).rules(),
                old(self)@,
                reaction.message,
                reaction.user,
                emoji_text(reaction.emoji),
            ),
            final(self)@ == after_verdict(old(self)@, reaction.user, verdict),
            old(self).wf() ==> final(self).wf(),
    {
        let user: u64 = reaction.user;
        let heard: bool = match self.phase {
            Phase::CollectingVotes => match self.message {
                Some(m) => m.message == reaction.message && m.author != user,
                None => false,
            },
            _ => false,
        };
        if !heard {
            return Verdict::Ignored;
        }
        let name: &str = match &reaction.emoji {
            Emoji::Unicode(name) => name.as_str(),
            Emoji::Custom => {
                return Verdict::Unrecognized;
            },
        };
        proof {
            lemma_first_match(self.spec.emojis(), name@);
            self.ledger.lemma_finite();
        }
        match self.spec.resolve(name) {
            Resolution::Candidate(i) => {
                assert(self.spec.labels()[i as int] == self.spec.candidates@[i as int].label@);
                if self.spec.self_vote_block && label_denotes(
                    self.spec.candidates[i].label.as_str(),
                    user,
                ) {
                    return Verdict::SelfVoteRejected { candidate: i };
                }
                match self.ledger.cast(user, i) {
                    Some(from) => Verdict::VoteChanged { from, to: i },
                    None => Verdict::VoteSet { candidate: i },
                }
            },
            Resolution::Cancel => {
                if user == self.spec.initiator {
                    self.phase = Phase::Finalizing;
                    self.trigger = Some(Trigger::Cancelled);
                    Verdict::Cancelled
                } else {
                    Verdict::CancelDenied
                }
            },
            Resolution::Unknown => Verdict::Unrecognized,
        }
    }

    /// Tells the engine that the deadline has passed. Returns whether this
    /// ended the collection; it does not when the poll was cancelled before.
    pub fn on_deadline(&mut self) -> (ended: bool)
        ensures
            final(self).spec() == old(self).spec(),
            final(self)@ == after_deadline(old(self)@),
            ended == (old(self)@.phase == Phase::CollectingVotes),
            old(self).wf() ==> final(self).wf(),
    {
        match self.phase {
            Phase::CollectingVotes => {
                self.phase = Phase::Finalizing;
                self.trigger = Some(Trigger::Deadline);
                true
            },
            _ => false,
        }
    }

    /// Draws up the result once collection has ended, and completes the
    /// poll. At any other moment there is no result and nothing changes.
    pub fn finalize(&mut self) -> (result: Option<PollResult>)
        ensures
            final(self).spec() == old(self).spec(),
            final(self)@ == after_finalize(old(self)@),
            old(self)@.phase == Phase::Finalizing ==> (result matches Some(r) && is_tally_of(
                r,
                old(self)@.votes,
                old(self).rules().labels,
            )),
            old(self)@.phase != Phase::Finalizing ==> result is None,
            old(self).wf() ==> final(self).wf(),
    {
        match self.phase {
            Phase::Finalizing => {
                let labels: Vec<String> = self.spec.label_list();
                let result: PollResult = tally(&self.ledger, labels.as_slice());
                self.phase = Phase::Completed;
                Some(result)
            },
            _ => None,
        }
    }

    /// Takes note of a failure and says whether it is fatal. A notice that
    /// could not be sent is not: the poll goes on and the vote counts. Every
    /// other failure ends the poll at once, without a result.
    pub fn on_failure(&mut self, failure: Failure) -> (fatal: bool)
        ensures
            final(self).spec() == old(self).spec(),
            final(self)@ == after_failure(old(self)@, failure),
            fatal == (failure == Failure::Transport),
            old(self).wf() ==> final(self).wf(),
    {
        match failure {
            Failure::Transport => {
                self.phase = Phase::Completed;
                true
            },
            Failure::Notify => false,
        }
    }

    /// Gives the poll up: it is over at once and has no result.
    pub fn abort(&mut self)
        ensures
            final(self).spec() == old(self).spec(),
            final(self)@ == after_abort(old(self)@),
            old(self).wf() ==> final(self).wf(),
    {
        self.phase = Phase::Completed;
    }
}

} // verus!
