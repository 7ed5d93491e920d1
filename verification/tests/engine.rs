use lkxvbot::draft::{DraftStage, PollDraft, PollRequest};
use lkxvbot::engine::{
    Emoji, Failure, InputError, Phase, PollEngine, PollMessage, Reaction, ReactionFilter, Trigger,
    Verdict,
};
use lkxvbot::poll::{Candidate, PollSpec, Resolution};

const BOT: u64 = 999;
const INITIATOR: u64 = 1;
const MESSAGE: u64 = 5000;
const CHANNEL: u64 = 77;

fn candidates(labels: &[&str]) -> Vec<Candidate> {
    let emojis = ["\u{1f535}", "\u{1f7e1}", "\u{1f7e2}", "\u{1f534}", "\u{26aa}", "\u{1f7e0}",
        "\u{1f7e4}", "\u{1f7e3}", "\u{2b50}", "\u{2b55}"];
    labels
        .iter()
        .enumerate()
        .map(|(i, l)| Candidate { label: l.to_string(), emoji: emojis[i].to_string() })
        .collect()
}

fn spec(labels: &[&str], self_vote_block: bool) -> PollSpec {
    PollSpec {
        title: "Title".to_string(),
        description: "Description".to_string(),
        candidates: candidates(labels),
        cancel_emoji: "\u{274c}".to_string(),
        duration_secs: 10,
        deadline: 1010,
        self_vote_block,
        initiator: INITIATOR,
        target_channel: CHANNEL,
        prompt_channel: 78,
    }
}

fn collecting(labels: &[&str], self_vote_block: bool) -> PollEngine {
    let mut engine = PollEngine::new(spec(labels, self_vote_block)).unwrap();
    assert!(engine.posted(PollMessage { channel: CHANNEL, message: MESSAGE, author: BOT }));
    assert!(engine.open());
    engine
}

fn react(user: u64, emoji: &str) -> Reaction {
    Reaction { message: MESSAGE, user, emoji: Emoji::Unicode(emoji.to_string()) }
}

const BLUE: &str = "\u{1f535}";
const YELLOW: &str = "\u{1f7e1}";
const GREEN: &str = "\u{1f7e2}";
const CROSS: &str = "\u{274c}";

#[test]
fn scenario_two_voters_one_change() {
    // X votes B; Y votes B, then changes to C; the deadline ends the poll.
    let request = PollRequest {
        prompt_channel: 78,
        initiator: INITIATOR,
        created_at: 1000,
        channel: "77".to_string(),
        duration: "10s".to_string(),
        candidates: candidates(&["@A", "@B", "@C"]),
        cancel_emoji: CROSS.to_string(),
        self_vote_block: true,
    };
    let mut draft = PollDraft::start(request).unwrap();
    assert_eq!(draft.answer("Vote"), DraftStage::AwaitingDescription);
    assert_eq!(draft.answer("Pick one"), DraftStage::Ready);
    let spec = draft.into_spec().unwrap();
    assert_eq!(spec.duration_secs, 10);
    assert_eq!(spec.deadline, 1010);
    assert_eq!(spec.target_channel, 77);
    let mut engine = PollEngine::new(spec).unwrap();
    assert!(engine.posted(PollMessage { channel: 77, message: MESSAGE, author: BOT }));
    assert!(engine.open());
    let x = 100;
    let y = 200;
    assert_eq!(engine.on_reaction(&react(x, YELLOW)), Verdict::VoteSet { candidate: 1 });
    assert_eq!(engine.on_reaction(&react(y, YELLOW)), Verdict::VoteSet { candidate: 1 });
    assert_eq!(engine.on_reaction(&react(y, GREEN)), Verdict::VoteChanged { from: 1, to: 2 });
    assert!(engine.on_deadline());
    assert_eq!(engine.trigger(), Some(Trigger::Deadline));
    let result = engine.finalize().unwrap();
    assert_eq!(result.total, 2);
    let ranked: Vec<(&str, usize, u8)> =
        result.ranking.iter().map(|e| (e.label.as_str(), e.count, e.percent)).collect();
    assert_eq!(ranked, vec![("@B", 1, 50), ("@C", 1, 50), ("@A", 0, 0)]);
    let order: Vec<usize> = result.ranking.iter().map(|e| e.candidate).collect();
    assert_eq!(order, vec![1, 2, 0]);
    assert_eq!(engine.phase(), Phase::Completed);
}

#[test]
fn candidate_counts_from_two_to_eight_are_accepted() {
    let all = ["a", "b", "c", "d", "e", "f", "g", "h", "i", "j"];
    for n in 0..=10usize {
        let r = PollEngine::new(spec(&all[..n], false));
        if (2..=8).contains(&n) {
            let engine = r.ok().unwrap();
            assert_eq!(engine.phase(), Phase::Created);
            assert_eq!(engine.definition().candidates.len(), n);
            assert!(engine.ledger().is_empty());
        } else {
            assert_eq!(r.err(), Some(InputError::CandidateCount));
        }
    }
}

#[test]
fn life_cycle_goes_through_every_phase() {
    let mut engine = PollEngine::new(spec(&["a", "b"], false)).unwrap();
    assert_eq!(engine.phase(), Phase::Created);
    assert_eq!(engine.message(), None);
    assert_eq!(engine.reaction_filter(), None);
    let message = PollMessage { channel: CHANNEL, message: MESSAGE, author: BOT };
    assert!(engine.posted(message));
    assert_eq!(engine.phase(), Phase::Posted);
    assert_eq!(engine.message(), Some(message));
    assert_eq!(
        engine.reaction_filter(),
        Some(ReactionFilter { message: MESSAGE, excluded_user: BOT })
    );
    assert!(engine.open());
    assert_eq!(engine.phase(), Phase::CollectingVotes);
    assert_eq!(engine.trigger(), None);
    assert!(engine.on_deadline());
    assert_eq!(engine.phase(), Phase::Finalizing);
    assert!(engine.finalize().is_some());
    assert_eq!(engine.phase(), Phase::Completed);
}

#[test]
fn steps_out_of_turn_change_nothing() {
    let mut engine = PollEngine::new(spec(&["a", "b"], false)).unwrap();
    assert!(!engine.open());
    assert!(!engine.on_deadline());
    assert!(engine.finalize().is_none());
    assert_eq!(engine.on_reaction(&react(5, BLUE)), Verdict::Ignored);
    assert_eq!(engine.phase(), Phase::Created);
    let message = PollMessage { channel: CHANNEL, message: MESSAGE, author: BOT };
    assert!(engine.posted(message));
    assert!(!engine.posted(PollMessage { channel: 1, message: 2, author: 3 }));
    assert_eq!(engine.message(), Some(message));
    assert_eq!(engine.on_reaction(&react(5, BLUE)), Verdict::Ignored);
    assert!(!engine.on_deadline());
    assert!(engine.finalize().is_none());
    assert_eq!(engine.phase(), Phase::Posted);
    assert!(engine.ledger().is_empty());
}

#[test]
fn reactions_are_resolved_to_candidates() {
    let engine = collecting(&["a", "b", "c"], false);
    let spec = engine.definition();
    assert_eq!(spec.resolve(BLUE), Resolution::Candidate(0));
    assert_eq!(spec.resolve(YELLOW), Resolution::Candidate(1));
    assert_eq!(spec.resolve(GREEN), Resolution::Candidate(2));
    assert_eq!(spec.resolve(CROSS), Resolution::Cancel);
    assert_eq!(spec.resolve("\u{1f534}"), Resolution::Unknown);
    assert_eq!(spec.resolve(""), Resolution::Unknown);
}

#[test]
fn candidate_emoji_wins_over_cancel_emoji_and_first_match_wins() {
    let mut spec = spec(&["a", "b", "c"], false);
    spec.candidates[1].emoji = CROSS.to_string();
    spec.candidates[2].emoji = CROSS.to_string();
    assert_eq!(spec.resolve(CROSS), Resolution::Candidate(1));
}

#[test]
fn seeds_are_candidate_emojis_then_cancel() {
    let spec = spec(&["a", "b", "c"], false);
    assert_eq!(spec.seed_reactions(), vec![BLUE, YELLOW, GREEN, CROSS]);
    assert_eq!(spec.label_list(), vec!["a", "b", "c"]);
}

#[test]
fn every_heard_reaction_is_removed() {
    let mut engine = collecting(&["a", "b"], false);
    let verdicts = [
        engine.on_reaction(&react(5, BLUE)),
        engine.on_reaction(&react(5, YELLOW)),
        engine.on_reaction(&react(5, "\u{1f600}")),
        engine.on_reaction(&Reaction { message: MESSAGE, user: 5, emoji: Emoji::Custom }),
        engine.on_reaction(&react(5, CROSS)),
        engine.on_reaction(&react(INITIATOR, CROSS)),
    ];
    assert_eq!(
        verdicts,
        [
            Verdict::VoteSet { candidate: 0 },
            Verdict::VoteChanged { from: 0, to: 1 },
            Verdict::Unrecognized,
            Verdict::Unrecognized,
            Verdict::CancelDenied,
            Verdict::Cancelled,
        ]
    );
    for v in verdicts {
        assert!(v.removes_reaction());
    }
    assert!(!Verdict::Ignored.removes_reaction());
}

#[test]
fn reactions_outside_the_filter_are_ignored() {
    let mut engine = collecting(&["a", "b"], false);
    assert_eq!(engine.on_reaction(&react(BOT, BLUE)), Verdict::Ignored);
    let elsewhere = Reaction { message: MESSAGE + 1, user: 5, emoji: Emoji::Unicode(BLUE.into()) };
    assert_eq!(engine.on_reaction(&elsewhere), Verdict::Ignored);
    assert!(engine.ledger().is_empty());
    let filter = engine.reaction_filter().unwrap();
    assert!(filter.admits(MESSAGE, 5));
    assert!(!filter.admits(MESSAGE, BOT));
    assert!(!filter.admits(MESSAGE + 1, 5));
}

#[test]
fn revote_leaves_one_vote_for_the_last_choice() {
    let mut engine = collecting(&["a", "b", "c"], false);
    assert_eq!(engine.on_reaction(&react(5, BLUE)), Verdict::VoteSet { candidate: 0 });
    assert_eq!(engine.on_reaction(&react(5, GREEN)), Verdict::VoteChanged { from: 0, to: 2 });
    assert_eq!(engine.ledger().len(), 1);
    assert_eq!(engine.ledger().choice_of(5), Some(2));
    assert_eq!(engine.ledger().count_for(0), 0);
    assert_eq!(engine.ledger().count_for(2), 1);
    engine.on_deadline();
    let result = engine.finalize().unwrap();
    assert_eq!(result.total, 1);
    assert_eq!(result.ranking[0].label, "c");
    assert_eq!(result.ranking[0].count, 1);
    assert_eq!(result.ranking[0].percent, 100);
}

#[test]
fn revote_for_the_same_candidate_is_reported_as_a_change() {
    let mut engine = collecting(&["a", "b"], false);
    assert_eq!(engine.on_reaction(&react(5, BLUE)), Verdict::VoteSet { candidate: 0 });
    assert_eq!(engine.on_reaction(&react(5, BLUE)), Verdict::VoteChanged { from: 0, to: 0 });
    assert_eq!(engine.ledger().len(), 1);
}

#[test]
fn self_vote_is_rejected_and_leaves_the_ledger_alone() {
    let mut engine = collecting(&["<@!100>", "<@!200>", "<@!300>"], true);
    assert_eq!(engine.on_reaction(&react(100, BLUE)), Verdict::SelfVoteRejected { candidate: 0 });
    assert_eq!(engine.ledger().choice_of(100), None);
    assert!(engine.ledger().is_empty());
    assert_eq!(engine.on_reaction(&react(100, YELLOW)), Verdict::VoteSet { candidate: 1 });
    for _ in 0..5 {
        assert_eq!(
            engine.on_reaction(&react(100, BLUE)),
            Verdict::SelfVoteRejected { candidate: 0 }
        );
        assert_eq!(engine.ledger().choice_of(100), Some(1));
    }
    assert_eq!(engine.on_reaction(&react(200, BLUE)), Verdict::VoteSet { candidate: 0 });
    assert_eq!(engine.on_reaction(&react(200, YELLOW)), Verdict::SelfVoteRejected { candidate: 1 });
    assert_eq!(engine.ledger().choice_of(200), Some(0));
    assert_eq!(engine.ledger().len(), 2);
}

#[test]
fn self_vote_is_allowed_without_the_block() {
    let mut engine = collecting(&["<@!100>", "<@!200>"], false);
    assert_eq!(engine.on_reaction(&react(100, BLUE)), Verdict::VoteSet { candidate: 0 });
    assert_eq!(engine.ledger().choice_of(100), Some(0));
}

#[test]
fn block_only_matches_the_exact_mention() {
    let mut engine = collecting(&["<@100>", "100", "<@!1000>"], true);
    assert_eq!(engine.on_reaction(&react(100, BLUE)), Verdict::VoteSet { candidate: 0 });
    assert_eq!(engine.on_reaction(&react(100, YELLOW)), Verdict::VoteChanged { from: 0, to: 1 });
    assert_eq!(engine.on_reaction(&react(100, GREEN)), Verdict::VoteChanged { from: 1, to: 2 });
}

#[test]
fn cancel_by_initiator_ends_collection_with_ledger_as_it_stands() {
    let mut engine = collecting(&["a", "b"], false);
    engine.on_reaction(&react(5, BLUE));
    engine.on_reaction(&react(6, YELLOW));
    engine.on_reaction(&react(7, YELLOW));
    assert_eq!(engine.on_reaction(&react(INITIATOR, CROSS)), Verdict::Cancelled);
    assert_eq!(engine.phase(), Phase::Finalizing);
    assert_eq!(engine.trigger(), Some(Trigger::Cancelled));
    // The timer fires later, and people go on reacting: nothing changes.
    assert!(!engine.on_deadline());
    assert_eq!(engine.on_reaction(&react(8, BLUE)), Verdict::Ignored);
    assert_eq!(engine.on_reaction(&react(5, YELLOW)), Verdict::Ignored);
    assert_eq!(engine.trigger(), Some(Trigger::Cancelled));
    assert_eq!(engine.ledger().len(), 3);
    let result = engine.finalize().unwrap();
    assert_eq!(result.total, 3);
    assert_eq!(result.ranking[0].label, "b");
    assert_eq!(result.ranking[0].count, 2);
    assert_eq!(result.ranking[0].percent, 66);
    assert_eq!(result.ranking[1].label, "a");
    assert_eq!(result.ranking[1].count, 1);
    assert_eq!(result.ranking[1].percent, 33);
}

#[test]
fn cancel_by_someone_else_is_denied() {
    let mut engine = collecting(&["a", "b"], false);
    engine.on_reaction(&react(5, BLUE));
    assert_eq!(engine.on_reaction(&react(5, CROSS)), Verdict::CancelDenied);
    assert_eq!(engine.phase(), Phase::CollectingVotes);
    assert_eq!(engine.trigger(), None);
    assert_eq!(engine.ledger().choice_of(5), Some(0));
}

#[test]
fn the_initiator_may_vote() {
    let mut engine = collecting(&["a", "b"], false);
    assert_eq!(engine.on_reaction(&react(INITIATOR, BLUE)), Verdict::VoteSet { candidate: 0 });
    assert_eq!(engine.phase(), Phase::CollectingVotes);
}

#[test]
fn deadline_first_makes_a_late_cancel_void() {
    let mut engine = collecting(&["a", "b"], false);
    engine.on_reaction(&react(5, BLUE));
    assert!(engine.on_deadline());
    assert_eq!(engine.on_reaction(&react(INITIATOR, CROSS)), Verdict::Ignored);
    assert_eq!(engine.trigger(), Some(Trigger::Deadline));
}

#[test]
fn a_poll_is_finalized_once() {
    let mut engine = collecting(&["a", "b"], false);
    engine.on_reaction(&react(5, BLUE));
    assert!(engine.finalize().is_none());
    assert!(engine.on_deadline());
    assert!(engine.finalize().is_some());
    assert!(engine.finalize().is_none());
    assert!(!engine.on_deadline());
    assert_eq!(engine.on_reaction(&react(6, BLUE)), Verdict::Ignored);
    assert_eq!(engine.phase(), Phase::Completed);
    assert_eq!(engine.ledger().len(), 1);
}

#[test]
fn finalizing_without_votes_gives_the_no_votes_result() {
    let mut engine = collecting(&["a", "b", "c"], false);
    assert!(engine.on_deadline());
    let result = engine.finalize().unwrap();
    assert!(result.is_no_votes());
    assert_eq!(result.total, 0);
    let rows: Vec<(usize, usize, u8)> =
        result.ranking.iter().map(|e| (e.candidate, e.count, e.percent)).collect();
    assert_eq!(rows, vec![(0, 0, 0), (1, 0, 0), (2, 0, 0)]);
}

#[test]
fn an_aborted_poll_is_over_without_a_result() {
    let mut engine = collecting(&["a", "b"], false);
    engine.on_reaction(&react(5, BLUE));
    engine.abort();
    assert_eq!(engine.phase(), Phase::Completed);
    assert!(engine.finalize().is_none());
    assert!(!engine.on_deadline());
    assert_eq!(engine.on_reaction(&react(6, BLUE)), Verdict::Ignored);
    assert_eq!(engine.trigger(), None);
}

#[test]
fn a_failed_notice_is_swallowed() {
    let mut engine = collecting(&["a", "b"], false);
    assert_eq!(engine.on_reaction(&react(5, BLUE)), Verdict::VoteSet { candidate: 0 });
    assert!(!engine.on_failure(Failure::Notify));
    assert_eq!(engine.phase(), Phase::CollectingVotes);
    assert_eq!(engine.ledger().choice_of(5), Some(0));
    assert_eq!(engine.on_reaction(&react(6, YELLOW)), Verdict::VoteSet { candidate: 1 });
    assert!(engine.on_deadline());
    assert_eq!(engine.finalize().unwrap().total, 2);
}

#[test]
fn any_other_failure_ends_the_poll() {
    let mut engine = collecting(&["a", "b"], false);
    engine.on_reaction(&react(5, BLUE));
    assert!(engine.on_failure(Failure::Transport));
    assert_eq!(engine.phase(), Phase::Completed);
    assert!(engine.finalize().is_none());
    assert_eq!(engine.on_reaction(&react(6, BLUE)), Verdict::Ignored);
    let mut created = PollEngine::new(spec(&["a", "b"], false)).unwrap();
    assert!(created.on_failure(Failure::Transport));
    assert_eq!(created.phase(), Phase::Completed);
    assert!(!created.posted(PollMessage { channel: 1, message: 2, author: 3 }));
}

#[test]
fn time_left_counts_down_to_the_fixed_deadline() {
    let spec = spec(&["a", "b"], false);
    assert_eq!(spec.deadline, 1010);
    assert_eq!(spec.time_left(1000), 10);
    assert_eq!(spec.time_left(1009), 1);
    assert_eq!(spec.time_left(1010), 0);
    assert_eq!(spec.time_left(5000), 0);
    assert_eq!(spec.time_left(0), 1010);
}
