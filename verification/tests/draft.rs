use lkxvbot::draft::{schedule, DraftStage, PollDraft, PollRequest, Prompt, Schedule, CANCEL_KEYWORD};
use lkxvbot::engine::InputError;
use lkxvbot::poll::Candidate;

fn request(n: usize, channel: &str, duration: &str, created_at: u64) -> PollRequest {
    PollRequest {
        prompt_channel: 78,
        initiator: 1,
        created_at,
        channel: channel.to_string(),
        duration: duration.to_string(),
        candidates: (0..n)
            .map(|i| Candidate { label: format!("option {}", i), emoji: format!("e{}", i) })
            .collect(),
        cancel_emoji: "\u{274c}".to_string(),
        self_vote_block: true,
    }
}

#[test]
fn schedule_fixes_channel_duration_and_deadline() {
    assert_eq!(
        schedule(3, "2h", "77", 1000),
        Ok(Schedule { channel: 77, duration_secs: 7200, deadline: 8200 })
    );
    assert_eq!(
        schedule(2, "0s", "1", 0),
        Ok(Schedule { channel: 1, duration_secs: 0, deadline: 0 })
    );
}

#[test]
fn schedule_rejects_candidate_counts_outside_two_to_eight() {
    for n in [0usize, 1, 9, 10, 100, usize::MAX] {
        assert_eq!(schedule(n, "10s", "77", 1000), Err(InputError::CandidateCount));
    }
    for n in 2..=8usize {
        assert!(schedule(n, "10s", "77", 1000).is_ok());
    }
}

#[test]
fn schedule_rejects_a_bad_duration() {
    assert_eq!(schedule(2, "ten", "77", 1000), Err(InputError::InvalidDuration));
    assert_eq!(schedule(2, "10", "77", 1000), Err(InputError::InvalidDuration));
    assert_eq!(schedule(2, "", "77", 1000), Err(InputError::InvalidDuration));
}

#[test]
fn schedule_rejects_a_bad_channel() {
    assert_eq!(schedule(2, "10s", "general", 1000), Err(InputError::InvalidChannel));
    assert_eq!(schedule(2, "10s", "0", 1000), Err(InputError::InvalidChannel));
    assert_eq!(schedule(2, "10s", "", 1000), Err(InputError::InvalidChannel));
}

#[test]
fn schedule_reports_the_first_fault() {
    assert_eq!(schedule(1, "bad", "bad", 1000), Err(InputError::CandidateCount));
    assert_eq!(schedule(2, "bad", "bad", 1000), Err(InputError::InvalidDuration));
}

#[test]
fn schedule_rejects_a_deadline_beyond_the_clock() {
    assert_eq!(schedule(2, "10s", "77", u64::MAX - 9), Err(InputError::InvalidDuration));
    assert_eq!(
        schedule(2, "10s", "77", u64::MAX - 10),
        Ok(Schedule { channel: 77, duration_secs: 10, deadline: u64::MAX })
    );
    assert_eq!(schedule(2, "213503982334602d", "77", 0), Err(InputError::InvalidDuration));
}

#[test]
fn start_turns_down_what_schedule_turns_down() {
    assert_eq!(PollDraft::start(request(1, "77", "10s", 0)).err(), Some(InputError::CandidateCount));
    assert_eq!(PollDraft::start(request(9, "77", "10s", 0)).err(), Some(InputError::CandidateCount));
    assert_eq!(PollDraft::start(request(2, "77", "1y", 0)).err(), Some(InputError::InvalidDuration));
    assert_eq!(PollDraft::start(request(2, "x", "10s", 0)).err(), Some(InputError::InvalidChannel));
}

#[test]
fn draft_asks_for_title_then_description() {
    let mut draft = PollDraft::start(request(3, "77", "15m", 500)).ok().unwrap();
    assert_eq!(draft.stage(), DraftStage::AwaitingTitle);
    assert_eq!(draft.pending_prompt(), Some(Prompt::Title));
    assert_eq!(draft.answer("Best colour"), DraftStage::AwaitingDescription);
    assert_eq!(draft.pending_prompt(), Some(Prompt::Description));
    assert_eq!(draft.answer("Choose wisely"), DraftStage::Ready);
    assert_eq!(draft.pending_prompt(), None);
    assert_eq!(draft.answer("too late"), DraftStage::Ready);
    let spec = draft.into_spec().unwrap();
    assert_eq!(spec.title, "Best colour");
    assert_eq!(spec.description, "Choose wisely");
    assert_eq!(spec.candidates.len(), 3);
    assert_eq!(spec.candidates[1].label, "option 1");
    assert_eq!(spec.candidates[1].emoji, "e1");
    assert_eq!(spec.cancel_emoji, "\u{274c}");
    assert_eq!(spec.duration_secs, 900);
    assert_eq!(spec.deadline, 1400);
    assert!(spec.self_vote_block);
    assert_eq!(spec.initiator, 1);
    assert_eq!(spec.target_channel, 77);
    assert_eq!(spec.prompt_channel, 78);
}

#[test]
fn cancel_keyword_at_the_title_gives_the_poll_up() {
    let mut draft = PollDraft::start(request(3, "77", "15m", 500)).ok().unwrap();
    assert_eq!(draft.answer(CANCEL_KEYWORD), DraftStage::Cancelled);
    assert_eq!(draft.pending_prompt(), None);
    assert_eq!(draft.answer("Title after all"), DraftStage::Cancelled);
    assert!(draft.into_spec().is_none());
}

#[test]
fn cancel_keyword_at_the_description_gives_the_poll_up() {
    let mut draft = PollDraft::start(request(3, "77", "15m", 500)).ok().unwrap();
    assert_eq!(draft.answer("Title"), DraftStage::AwaitingDescription);
    assert_eq!(draft.answer("anuluj"), DraftStage::Cancelled);
    assert!(draft.into_spec().is_none());
}

#[test]
fn only_the_exact_keyword_cancels() {
    let mut draft = PollDraft::start(request(3, "77", "15m", 500)).ok().unwrap();
    assert_eq!(draft.answer("Anuluj"), DraftStage::AwaitingDescription);
    assert_eq!(draft.answer("anuluj "), DraftStage::Ready);
    let spec = draft.into_spec().unwrap();
    assert_eq!(spec.title, "Anuluj");
    assert_eq!(spec.description, "anuluj ");
}

#[test]
fn an_unfinished_draft_gives_no_definition() {
    let draft = PollDraft::start(request(3, "77", "15m", 500)).ok().unwrap();
    assert!(draft.into_spec().is_none());
}
