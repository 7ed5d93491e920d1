//! The commands that are typed in a channel, and what each asks for.

use vstd::prelude::*;
use crate::draft::PollRequest;
use crate::emoji::{assign_emojis, EmojiSet, CANCEL_EMOJI};
use crate::engine::InputError;
use crate::poll::{valid_candidate_count, MAX_CANDIDATES, MIN_CANDIDATES};
use crate::text::{chars_of, same_text, texts_of};
use crate::words::{split_words, words_of};

verus! {

/// What every command starts with.
pub const COMMAND_PREFIX: &'static str = "lbot ";

/// The word that asks for the list of commands.
pub const HELP_WORD: &'static str = "help";

/// The word that asks for a poll among mentioned users.
pub const ELECTION_WORD: &'static str = "wybory";

/// The word that asks for a referendum.
pub const REFERENDUM_WORD: &'static str = "referendum";

/// The word that makes a referendum a question of yes or no.
pub const YES_NO_WORD: &'static str = "tn";

/// The word that makes a referendum a survey with options of its own.
pub const SURVEY_WORD: &'static str = "ankieta";

/// The word that ends the list of a survey's options.
pub const END_WORD: &'static str = "koniec";

/// The label of the option in favour, in a question of yes or no.
pub const YES_LABEL: &'static str = "Za";

/// The label of the option against, in a question of yes or no.
pub const NO_LABEL: &'static str = "Przeciw";

/// The two ways to hold a referendum.
#[derive(Clone, Copy, Debug, PartialEq, Eq, Structural)]
pub enum ReferendumKind {
    /// In favour or against.
    YesNo,
    /// With options that the initiator types one by one.
    Survey,
}

/// What a message asks for.
#[derive(Debug)]
pub enum Command {
    /// The message is no command.
    Ignore,
    /// The list of commands.
    Help,
    /// A poll among the mentioned users.
    Election { channel: String, duration: String, labels: Vec<String> },
    /// A referendum.
    Referendum { channel: String, duration: String, kind: ReferendumKind },
    /// A poll, asked for by someone who may not.
    Denied,
    /// An election whose words and mentions do not add up.
    BadUsage,
    /// An election with fewer than two or more than eight mentions.
    CandidateCount,
    /// A referendum of a kind there is not.
    UnknownReferendumKind,
    /// Anything else after the prefix.
    Unknown,
}

/// A command, with its texts as sequences of characters.
pub enum CommandView {
    Ignore,
    Help,
    Election { channel: Seq<char>, duration: Seq<char>, labels: Seq<Seq<char>> },
    Referendum { channel: Seq<char>, duration: Seq<char>, kind: ReferendumKind },
    Denied,
    BadUsage,
    CandidateCount,
    UnknownReferendumKind,
    Unknown,
}

impl View for Command {
    type V = CommandView;

    open spec fn view(&self) -> CommandView {
        match *self {
            Command::Ignore => CommandView::Ignore,
            Command::Help => CommandView::Help,
            Command::Election { channel, duration, labels } => CommandView::Election {
                channel: channel@,
                duration: duration@,
                labels: texts_of(labels@),
            },
            Command::Referendum { channel, duration, kind } => CommandView::Referendum {
                channel: channel@,
                duration: duration@,
                kind,
            },
            Command::Denied => CommandView::Denied,
            Command::BadUsage => CommandView::BadUsage,
            Command::CandidateCount => CommandView::CandidateCount,
            Command::UnknownReferendumKind => CommandView::UnknownReferendumKind,
            Command::Unknown => CommandView::Unknown,
        }
    }
}

/// `text` begins with `prefix`.
pub open spec fn starts_with(text: Seq<char>, prefix: Seq<char>) -> bool {
    prefix.len() <= text.len() && text.subrange(0, prefix.len() as int) == prefix
}

/// Whether `text` begins with `prefix`.
pub fn has_prefix(text: &str, prefix: &str) -> (b: bool)
    ensures
        b == starts_with(text@, prefix@),
{
    let t: Vec<char> = chars_of(text);
    let p: Vec<char> = chars_of(prefix);
    if p.len() > t.len() {
        return false;
    }
    let mut i: usize = 0;
    while i < p.len()
        invariant
            i <= p.len() <= t.len(),
            t@ == text@,
            p@ == prefix@,
            t@.subrange(0, i as int) == p@.subrange(0, i as int),
        decreases p.len() - i,
    {
        if t[i] != p[i] {
            assert(t@.subrange(0, p.len() as int)[i as int] != p@[i as int]);
            return false;
        }
        assert(t@.subrange(0, i + 1) == t@.subrange(0, i as int).push(t@[i as int]));
        assert(p@.subrange(0, i + 1) == p@.subrange(0, i as int).push(p@[i as int]));
        i += 1;
    }
    assert(p@.subrange(0, p.len() as int) == p@);
    true
}

/// What the words of a message ask for, the first word being the prefix.
///
/// The second word decides. The help word asks for help, whatever follows.
/// The election word, with at least three words after the prefix, asks for
/// an election: only the owner may ask; the words after the channel and the
/// duration must be as many as the users the message mentions; and there
/// must be two to eight of them. The referendum word, with exactly four
/// words after the prefix, asks for a referendum of the kind that the last
/// word names: only the owner may ask. Everything else is unknown.
pub open spec fn command_for(words: Seq<Seq<char>>, author: u64, owner: u64, mentions: nat) -> CommandView {
    if words.len() < 2 {
        CommandView::Ignore
    } else if words[1] == HELP_WORD@ {
        CommandView::Help
    } else if words[1] == ELECTION_WORD@ && words.len() > 3 {
        if author != owner {
            CommandView::Denied
        } else if words.len() != mentions + 4 {
            CommandView::BadUsage
        } else if !valid_candidate_count(mentions) {
            CommandView::CandidateCount
        } else {
            CommandView::Election {
                channel: words[2],
                duration: words[3],
                labels: words.skip(4),
            }
        }
    } else if words[1] == REFERENDUM_WORD@ && words.len() == 5 {
        if author != owner {
            CommandView::Denied
        } else if words[4] == YES_NO_WORD@ {
            CommandView::Referendum {
                channel: words[2],
                duration: words[3],
                kind: ReferendumKind::YesNo,
            }
        } else if words[4] == SURVEY_WORD@ {
            CommandView::Referendum {
                channel: words[2],
                duration: words[3],
                kind: ReferendumKind::Survey,
            }
        } else {
            CommandView::UnknownReferendumKind
        }
    } else {
        CommandView::Unknown
    }
}

/// What a message asks for: nothing unless it begins with the prefix, else
/// what its words ask for.
pub open spec fn command_of(content: Seq<char>, author: u64, owner: u64, mentions: nat) -> CommandView {
    if starts_with(content, COMMAND_PREFIX@) {
        command_for(words_of(content), author, owner, mentions)
    } else {
        CommandView::Ignore
    }
}

/// Reads the command that the words of a message make up.
pub fn interpret_words(words: &[String], author: u64, owner: u64, mentions: usize) -> (command:
    Command)
    ensures
        command@ == command_for(texts_of(words@), author, owner, mentions as nat),
{
    let n: usize = words.len();
    let ghost texts = texts_of(words@);
    if n < 2 {
        return Command::Ignore;
    }
    assert(texts[1] == words@[1]@);
    let verb: &str = words[1].as_str();
    if same_text(verb, HELP_WORD) {
        Command::Help
    } else if same_text(verb, ELECTION_WORD) && n > 3 {
        if author != owner {
            Command::Denied
        } else if n - 4 != mentions {
            Command::BadUsage
        } else if mentions < MIN_CANDIDATES || mentions > MAX_CANDIDATES {
            Command::CandidateCount
        } else {
            let mut labels: Vec<String> = Vec::new();
            let mut i: usize = 4;
            while i < n
                invariant
                    4 <= i <= n,
                    n == words@.len(),
                    labels@.len() == i - 4,
                    forall|j: int| 0 <= j < i - 4 ==> (#[trigger] labels@[j])@ == words@[j + 4]@,
                decreases n - i,
            {
                labels.push(words[i].clone());
                i += 1;
            }
            assert(texts_of(labels@) =~= texts.skip(4));
            assert(texts[2] == words@[2]@ && texts[3] == words@[3]@);
            Command::Election { channel: words[2].clone(), duration: words[3].clone(), labels }
        }
    } else if same_text(verb, REFERENDUM_WORD) && n == 5 {
        assert(texts[2] == words@[2]@ && texts[3] == words@[3]@ && texts[4] == words@[4]@);
        if author != owner {
            Command::Denied
        } else if same_text(words[4].as_str(), YES_NO_WORD) {
            Command::Referendum {
                channel: words[2].clone(),
                duration: words[3].clone(),
                kind: ReferendumKind::YesNo,
            }
        } else if same_text(words[4].as_str(), SURVEY_WORD) {
            Command::Referendum {
                channel: words[2].clone(),
                duration: words[3].clone(),
                kind: ReferendumKind::Survey,
            }
        } else {
            Command::UnknownReferendumKind
        }
    } else {
        Command::Unknown
    }
}

/// Reads the command in a message.
///
/// `author` wrote the message, `owner` is the one user who may start polls,
/// and `mentions` is the number of users the message mentions.
pub fn interpret(content: &str, author: u64, owner: u64, mentions: usize) -> (command: Command)
    ensures
        command@ == command_of(content@, author, owner, mentions as nat),
{
    if !has_prefix(content, COMMAND_PREFIX) {
        return Command::Ignore;
    }
    let words: Vec<String> = split_words(content);
    interpret_words(words.as_slice(), author, owner, mentions)
}

/// Where and when a command was given.
#[derive(Clone, Copy, Debug, PartialEq, Eq, Structural)]
pub struct Origin {
    /// The channel the message was written in.
    pub channel: u64,
    /// The user who wrote it.
    pub author: u64,
    /// When it was written, in seconds since the epoch.
    pub created_at: u64,
}

/// `request` asks for a poll with these labels, each with the emoji at its
/// place in `set`, with the cross mark as cancel emoji, and with everything
/// else as given.
pub open spec fn is_request_for(
    request: PollRequest,
    origin: Origin,
    channel: Seq<char>,
    duration: Seq<char>,
    labels: Seq<Seq<char>>,
    set: EmojiSet,
    self_vote_block: bool,
) -> bool {
    &&& request.prompt_channel == origin.channel
    &&& request.initiator == origin.author
    &&& request.created_at == origin.created_at
    &&& request.channel@ == channel
    &&& request.duration@ == duration
    &&& request.cancel_emoji@ == CANCEL_EMOJI@
    &&& request.self_vote_block == self_vote_block
    &&& request.candidates@.len() == labels.len()
    &&& forall|i: int|
        0 <= i < labels.len() ==> (#[trigger] request.candidates@[i]).label@ == labels[i]
            && request.candidates@[i].emoji@ == set.emojis()[i]
}

/// The request for a poll with the given labels and emojis from `set`. It is
/// turned down when the labels outnumber the emojis of the set.
pub fn request_for(
    origin: Origin,
    channel: String,
    duration: String,
    labels: &[String],
    set: EmojiSet,
    self_vote_block: bool,
) -> (r: Result<PollRequest, InputError>)
    ensures
        labels@.len() <= set.emojis().len() ==> (r matches Ok(request) && is_request_for(
            request,
            origin,
            channel@,
            duration@,
            texts_of(labels@),
            set,
            self_vote_block,
        )),
        labels@.len() > set.emojis().len() ==> r matches Err(InputError::CandidateCount),
{
    match assign_emojis(labels, set) {
        Some(candidates) => Ok(
            PollRequest {
                prompt_channel: origin.channel,
                initiator: origin.author,
                created_at: origin.created_at,
                channel,
                duration,
                candidates,
                cancel_emoji: CANCEL_EMOJI.to_owned(),
                self_vote_block,
            },
        ),
        None => Err(InputError::CandidateCount),
    }
}

/// The request that an election makes: the mentions are the candidates, they
/// get the coloured circles, and nobody may vote for their own mention.
pub fn election_request(origin: Origin, channel: String, duration: String, labels: &[String]) -> (r:
    Result<PollRequest, InputError>)
    ensures
        labels@.len() <= 8 ==> (r matches Ok(request) && is_request_for(
            request,
            origin,
            channel@,
            duration@,
            texts_of(labels@),
            EmojiSet::Circles,
            true,
        )),
        labels@.len() > 8 ==> r matches Err(InputError::CandidateCount),
{
    request_for(origin, channel, duration, labels, EmojiSet::Circles, true)
}

/// The request that a question of yes or no makes: the two options are in
/// favour and against, with the emojis for yes and no, and anyone may vote
/// for either.
pub fn yes_no_request(origin: Origin, channel: String, duration: String) -> (r: Result<
    PollRequest,
    InputError,
>)
    ensures
        r matches Ok(request) && is_request_for(
            request,
            origin,
            channel@,
            duration@,
            seq![YES_LABEL@, NO_LABEL@],
            EmojiSet::YesNo,
            false,
        ),
{
    let labels: Vec<String> = yes_no_labels();
    assert(texts_of(labels@).len() == 2);
    assert(EmojiSet::YesNo.emojis().len() == 2);
    request_for(origin, channel, duration, labels.as_slice(), EmojiSet::YesNo, false)
}

/// The request that a survey makes: the options that were typed are the
/// candidates, they get the coloured circles, and anyone may vote for any.
pub fn survey_request(origin: Origin, channel: String, duration: String, options: &[String]) -> (r:
    Result<PollRequest, InputError>)
    ensures
        options@.len() <= 8 ==> (r matches Ok(request) && is_request_for(
            request,
            origin,
            channel@,
            duration@,
            texts_of(options@),
            EmojiSet::Circles,
            false,
        )),
        options@.len() > 8 ==> r matches Err(InputError::CandidateCount),
{
    request_for(origin, channel, duration, options, EmojiSet::Circles, false)
}

/// The two options of a question of yes or no.
pub fn yes_no_labels() -> (labels: Vec<String>)
    ensures
        texts_of(labels@) == seq![YES_LABEL@, NO_LABEL@],
{
    let mut labels: Vec<String> = Vec::new();
    labels.push(YES_LABEL.to_owned());
    labels.push(NO_LABEL.to_owned());
    assert(texts_of(labels@) =~= seq![YES_LABEL@, NO_LABEL@]);
    labels
}

/// The options a collector holds after a message: a closed list and the end
/// word add nothing; any other message is added as an option.
pub open spec fn taken(done: bool, options: Seq<Seq<char>>, content: Seq<char>) -> Seq<Seq<char>> {
    if done || content == END_WORD@ {
        options
    } else {
        options.push(content)
    }
}

/// Whether a collector's list is closed after a message: it stays closed,
/// the end word closes it, and so does the eighth option.
pub open spec fn closes(done: bool, options: Seq<Seq<char>>, content: Seq<char>) -> bool {
    done || content == END_WORD@ || options.len() + 1 >= MAX_CANDIDATES
}

/// Collects the options of a survey, one message at a time: up to eight, or
/// fewer when the end word comes first.
pub struct OptionCollector {
    options: Vec<String>,
    done: bool,
}

impl OptionCollector {
    /// The options taken so far.
    pub closed spec fn options(&self) -> Seq<Seq<char>> {
        texts_of(self.options@)
    }

    /// Whether the list is closed.
    pub closed spec fn is_done(&self) -> bool {
        self.done
    }

    /// A collector that has taken nothing yet.
    pub fn new() -> (collector: Self)
        ensures
            collector.options() == Seq::<Seq<char>>::empty(),
            !collector.is_done(),
    {
        let collector = OptionCollector { options: Vec::new(), done: false };
        assert(collector.options() =~= Seq::<Seq<char>>::empty());
        collector
    }

    /// Takes the next message and says whether another one is awaited. The
    /// end word closes the list; any other message is an option, and the
    /// eighth option closes the list too. A closed list takes nothing.
    pub fn offer(&mut self, content: &str) -> (more: bool)
        ensures
            more == !final(self).is_done(),
            final(self).is_done() == closes(old(self).is_done(), old(self).options(), content@),
            final(self).options() == taken(old(self).is_done(), old(self).options(), content@),
    {
        if self.done {
            return false;
        }
        if same_text(content, END_WORD) {
            self.done = true;
            return false;
        }
        self.options.push(content.to_owned());
        assert(texts_of(self.options@) =~= texts_of(old(self).options@).push(content@));
        if self.options.len() >= MAX_CANDIDATES {
            self.done = true;
        }
        !self.done
    }

    /// The options that were taken, or nothing if there are none.
    pub fn finish(self) -> (options: Option<Vec<String>>)
        ensures
            self.options().len() > 0 ==> (options matches Some(list) && texts_of(list@)
                == self.options()),
            self.options().len() == 0 ==> options is None,
    {
        if self.options.len() == 0 {
            None
        } else {
            Some(self.options)
        }
    }
}

} // verus!
