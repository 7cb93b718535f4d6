//! The work on one event, as a machine: each step takes what the outside
//! world handed back and says what is to be done next. Whoever drives it does
//! the downloads, the backend calls and the deliveries.

use crate::chunk::{
    chunk_at, chunk_views, chunks_of, joined, lemma_chunk_count_positive, lemma_chunks_rebuild,
    owned_chunks, sub_strings,
};
use crate::classify::{classify, context_of, outcome_of, Outcome};
use crate::event::{EventView, InboundEvent, Policy};
use crate::history::{appended, ensured, turn_views, HistoryStore, Role, StoreView, Turn, TurnView};
use crate::prompt::{base_prompt, compose, with_descriptions};
use crate::summarize::{base64_standard, encode_image, fits_encoding, next_image, next_image_from};
use crate::text::string_views;
use vstd::prelude::*;
use vstd::string::*;

verus! {

/// The most scalars that one delivered message may hold.
pub const REPLY_WIDTH: usize = 2000;

/// The most scalars that the title of a sub-conversation may hold.
pub const TITLE_WIDTH: usize = 100;

/// What a job is waiting for.
#[derive(Clone, Copy, Debug, PartialEq, Eq, Structural)]
pub enum Phase {
    /// The bytes of the attachment at `next`.
    Downloading,
    /// The description of the attachment at `next`.
    Describing,
    /// The backend's reply to the prompt.
    Replying,
    /// The summary from which the title is made. It is asked for in the hub
    /// whether the backend replied or not.
    Titling,
    /// The sub-conversation to be opened.
    Opening,
    /// Nothing: the job is over.
    Done,
}

/// What the driver is asked to do next.
#[derive(Debug)]
pub enum Action {
    /// Fetch the bytes of the attachment at this index.
    Download { attachment: usize },
    /// Ask the backend to describe an image.
    Describe { model: String, prompt: String, image: String },
    /// Ask the backend for the reply to `prompt`, given the turns so far.
    Chat { channel: u64, model: String, history: Vec<Turn>, prompt: String },
    /// Ask the backend for a summary of the message.
    Summarize { model: String, prompt: String },
    /// Open a sub-conversation at the message.
    OpenThread { channel: u64, message: u64, title: String },
    /// Post the chunks, in order, and end the job.
    Deliver { channel: u64, chunks: Vec<String> },
    /// End the job without a reply.
    Stop,
}

/// An action as a plain value.
pub enum ActionView {
    Download { attachment: int },
    Describe { model: Seq<char>, prompt: Seq<char>, image: Seq<char> },
    Chat { channel: u64, model: Seq<char>, history: Seq<TurnView>, prompt: Seq<char> },
    Summarize { model: Seq<char>, prompt: Seq<char> },
    OpenThread { channel: u64, message: u64, title: Seq<char> },
    Deliver { channel: u64, chunks: Seq<Seq<char>> },
    Stop,
}

impl View for Action {
    type V = ActionView;

    open spec fn view(&self) -> ActionView {
        match *self {
            Action::Download { attachment } => ActionView::Download {
                attachment: attachment as int,
            },
            Action::Describe { model, prompt, image } => ActionView::Describe {
                model: model@,
                prompt: prompt@,
                image: image@,
            },
            Action::Chat { channel, model, history, prompt } => ActionView::Chat {
                channel,
                model: model@,
                history: turn_views(history@),
                prompt: prompt@,
            },
            Action::Summarize { model, prompt } => ActionView::Summarize {
                model: model@,
                prompt: prompt@,
            },
            Action::OpenThread { channel, message, title } => ActionView::OpenThread {
                channel,
                message,
                title: title@,
            },
            Action::Deliver { channel, chunks } => ActionView::Deliver {
                channel,
                chunks: string_views(chunks@),
            },
            Action::Stop => ActionView::Stop,
        }
    }
}

/// Whether nothing is left to do once the action is carried out.
pub open spec fn is_last(action: ActionView) -> bool {
    action is Deliver || action is Stop
}

impl Action {
    /// Whether the job is over once this action is carried out: the sign that
    /// the driver may stop showing that a reply is being composed.
    pub fn ends_job(&self) -> (last: bool)
        ensures
            last == is_last(self@),
    {
        match self {
            Action::Deliver { .. } => true,
            Action::Stop => true,
            _ => false,
        }
    }
}

/// What the outside world handed back. `None` stands for a failure.
#[derive(Debug)]
pub enum Feedback {
    Downloaded(Option<Vec<u8>>),
    Described(Option<String>),
    Replied(Option<String>),
    Summarized(Option<String>),
    Opened(Option<u64>),
}

/// The work on one event.
#[derive(Debug)]
pub struct Job {
    pub event: InboundEvent,
    /// `HubEntry` or `HubChild`, as the event was classified.
    pub flow: Outcome,
    /// The image descriptions received so far, in attachment order.
    pub descriptions: Vec<String>,
    /// The attachment that is being worked on.
    pub next: usize,
    /// The backend's reply, once one came.
    pub reply: Option<String>,
    pub phase: Phase,
}

/// The part of a job that changes, as a plain value.
pub struct JobState {
    pub flow: Outcome,
    pub descriptions: Seq<Seq<char>>,
    pub next: int,
    pub reply: Option<Seq<char>>,
    pub phase: Phase,
}

/// The prompt of an event with the given image descriptions.
pub open spec fn prompt_for(event: EventView, descriptions: Seq<Seq<char>>) -> Seq<char> {
    with_descriptions(base_prompt(event.content, event.referenced, event.author), descriptions)
}

/// The job ends without a reply.
pub open spec fn halted(s: JobState, store: StoreView) -> (JobState, StoreView, ActionView) {
    (JobState { phase: Phase::Done, ..s }, store, ActionView::Stop)
}

/// The index behind `next`, where `next` is one.
pub open spec fn behind(event: EventView, next: int) -> int {
    if next < event.attachments.len() {
        next + 1
    } else {
        next
    }
}

/// The attachments before `from` are dealt with: the next image is fetched,
/// or, where none is left, the backend is asked for the reply, with the
/// turns that the conversation has so far.
pub open spec fn settled(event: EventView, s: JobState, store: StoreView, from: int) -> (
    JobState,
    StoreView,
    ActionView,
) {
    let at = next_image(event.attachments, from);
    if at < event.attachments.len() {
        (
            JobState { next: at, phase: Phase::Downloading, ..s },
            store,
            ActionView::Download { attachment: at },
        )
    } else {
        let known = ensured(store, event.channel);
        (
            JobState { next: at, phase: Phase::Replying, ..s },
            known,
            ActionView::Chat {
                channel: event.channel,
                model: "taco"@,
                history: known[event.channel],
                prompt: prompt_for(event, s.descriptions),
            },
        )
    }
}

/// An event arrived: one that asks for no answer ends at once; for any other
/// the conversation gets its transcript and the attachments are taken up.
pub open spec fn started(policy: Policy, event: EventView, store: StoreView) -> (
    JobState,
    StoreView,
    ActionView,
) {
    let flow = outcome_of(event.author == policy.bot, context_of(policy, event));
    let s = JobState {
        flow,
        descriptions: Seq::empty(),
        next: 0,
        reply: None,
        phase: Phase::Done,
    };
    if flow == Outcome::HubEntry || flow == Outcome::HubChild {
        settled(event, s, ensured(store, event.channel), 0)
    } else {
        halted(s, store)
    }
}

/// A download ended: its bytes go to the backend to be described; after a
/// failure, or where the bytes are too many to encode, the attachment is
/// passed over.
pub open spec fn after_download(
    event: EventView,
    s: JobState,
    store: StoreView,
    bytes: Option<Seq<u8>>,
) -> (JobState, StoreView, ActionView) {
    if s.phase != Phase::Downloading {
        halted(s, store)
    } else if bytes is Some && fits_encoding(bytes->0.len()) {
        (
            JobState { phase: Phase::Describing, ..s },
            store,
            ActionView::Describe {
                model: "image"@,
                prompt: "Describe the following image in detail:"@,
                image: base64_standard(bytes->0),
            },
        )
    } else {
        settled(event, s, store, behind(event, s.next))
    }
}

/// A description came, or failed to: one that came is kept, under the next
/// number; either way the next attachment is taken up.
pub open spec fn after_description(
    event: EventView,
    s: JobState,
    store: StoreView,
    description: Option<Seq<char>>,
) -> (JobState, StoreView, ActionView) {
    if s.phase != Phase::Describing {
        halted(s, store)
    } else {
        let kept = match description {
            Some(text) => JobState { descriptions: s.descriptions.push(text), ..s },
            None => s,
        };
        settled(event, kept, store, behind(event, s.next))
    }
}

/// The store after the backend was asked: a reply is appended to the
/// transcript behind the prompt that asked for it; without a reply nothing is
/// appended.
pub open spec fn recorded(
    event: EventView,
    s: JobState,
    store: StoreView,
    reply: Option<Seq<char>>,
) -> StoreView {
    match reply {
        Some(text) => appended(
            appended(store, event.channel, (Role::User, prompt_for(event, s.descriptions))),
            event.channel,
            (Role::Assistant, text),
        ),
        None => store,
    }
}

/// The backend replied, or failed to. In the hub the summary for the title
/// is asked for next, whether a reply came or not, and the job remembers
/// which. Elsewhere a reply is delivered where the event arrived, and
/// without one the job ends.
pub open spec fn after_reply(
    event: EventView,
    s: JobState,
    store: StoreView,
    reply: Option<Seq<char>>,
) -> (JobState, StoreView, ActionView) {
    if s.phase != Phase::Replying {
        halted(s, store)
    } else if s.flow == Outcome::HubEntry {
        (
            JobState { reply, phase: Phase::Titling, ..s },
            recorded(event, s, store, reply),
            ActionView::Summarize { model: "summary"@, prompt: event.content },
        )
    } else {
        match reply {
            None => halted(s, store),
            Some(text) => (
                JobState { reply, phase: Phase::Done, ..s },
                recorded(event, s, store, reply),
                ActionView::Deliver {
                    channel: event.channel,
                    chunks: chunks_of(text, REPLY_WIDTH as nat),
                },
            ),
        }
    }
}

/// The summary came, or failed to. Where a reply is there to deliver, the
/// first piece of the summary becomes the title of the sub-conversation.
/// Without a reply, without a summary, or with an empty one, nothing is
/// opened and nothing delivered.
pub open spec fn after_summary(event: EventView, s: JobState, summary: Option<Seq<char>>) -> (
    JobState,
    ActionView,
) {
    if s.phase == Phase::Titling && s.reply is Some && summary is Some && summary->0.len() > 0 {
        (
            JobState { phase: Phase::Opening, ..s },
            ActionView::OpenThread {
                channel: event.channel,
                message: event.message,
                title: chunk_at(summary->0, TITLE_WIDTH as nat, 0),
            },
        )
    } else {
        (JobState { phase: Phase::Done, ..s }, ActionView::Stop)
    }
}

/// The sub-conversation was opened, or not: the reply is delivered into it.
pub open spec fn after_opening(s: JobState, thread: Option<u64>) -> (JobState, ActionView) {
    if s.phase == Phase::Opening && s.reply is Some && thread is Some {
        (
            JobState { phase: Phase::Done, ..s },
            ActionView::Deliver {
                channel: thread->0,
                chunks: chunks_of(s.reply->0, REPLY_WIDTH as nat),
            },
        )
    } else {
        (JobState { phase: Phase::Done, ..s }, ActionView::Stop)
    }
}

/// What was handed back, as a plain value.
pub open spec fn bytes_view(bytes: Option<Vec<u8>>) -> Option<Seq<u8>> {
    match bytes {
        Some(b) => Some(b@),
        None => None,
    }
}

/// What was handed back, as a plain value.
pub open spec fn text_view(text: Option<String>) -> Option<Seq<char>> {
    match text {
        Some(t) => Some(t@),
        None => None,
    }
}

/// What was handed back, as a plain value.
pub enum FeedbackView {
    Downloaded(Option<Seq<u8>>),
    Described(Option<Seq<char>>),
    Replied(Option<Seq<char>>),
    Summarized(Option<Seq<char>>),
    Opened(Option<u64>),
}

impl View for Feedback {
    type V = FeedbackView;

    open spec fn view(&self) -> FeedbackView {
        match *self {
            Feedback::Downloaded(bytes) => FeedbackView::Downloaded(bytes_view(bytes)),
            Feedback::Described(text) => FeedbackView::Described(text_view(text)),
            Feedback::Replied(text) => FeedbackView::Replied(text_view(text)),
            Feedback::Summarized(text) => FeedbackView::Summarized(text_view(text)),
            Feedback::Opened(thread) => FeedbackView::Opened(thread),
        }
    }
}

/// The step that `feedback` asks for.
pub open spec fn after(event: EventView, s: JobState, store: StoreView, feedback: FeedbackView) -> (
    JobState,
    StoreView,
    ActionView,
) {
    match feedback {
        FeedbackView::Downloaded(bytes) => after_download(event, s, store, bytes),
        FeedbackView::Described(text) => after_description(event, s, store, text),
        FeedbackView::Replied(text) => after_reply(event, s, store, text),
        FeedbackView::Summarized(text) => {
            let next = after_summary(event, s, text);
            (next.0, store, next.1)
        },
        FeedbackView::Opened(thread) => {
            let next = after_opening(s, thread);
            (next.0, store, next.1)
        },
    }
}

/// A job is over exactly when its last action was handed out, whatever came
/// back and in whatever state it was: every run of steps ends with `Deliver`
/// or `Stop`, and nothing is asked for after either.
pub proof fn lemma_job_ends_with_last_action(
    policy: Policy,
    event: EventView,
    s: JobState,
    store: StoreView,
    feedback: FeedbackView,
)
    ensures
        is_last(started(policy, event, store).2) <==> started(policy, event, store).0.phase
            == Phase::Done,
        is_last(after(event, s, store, feedback).2) <==> after(event, s, store, feedback).0.phase
            == Phase::Done,
        s.phase == Phase::Done ==> after(event, s, store, feedback).2 == ActionView::Stop,
{
}

/// A download or a description that fails costs only that attachment: the
/// job goes on with the next image or with the request for the reply, and
/// what is remembered of the conversation so far is not touched.
pub proof fn lemma_attachment_failure_is_passed_over(
    event: EventView,
    s: JobState,
    store: StoreView,
)
    requires
        s.phase == Phase::Downloading || s.phase == Phase::Describing,
    ensures
        ({
            let next = if s.phase == Phase::Downloading {
                after_download(event, s, store, None)
            } else {
                after_description(event, s, store, None)
            };
            &&& !is_last(next.2)
            &&& next.0.descriptions == s.descriptions
            &&& next.1 == ensured(store, event.channel) || next.1 == store
            &&& next.2 is Download || next.2 is Chat
        }),
{
}

/// In the hub the summary is asked for once the backend was asked for the
/// reply, whatever came of that: with the raw text of the message, and
/// nothing of the prompt around it. Where no reply came, nothing is appended
/// to the transcript, and whatever the summary is, nothing is opened and
/// nothing delivered.
pub proof fn lemma_hub_summary_is_always_asked(
    event: EventView,
    s: JobState,
    store: StoreView,
    reply: Option<Seq<char>>,
    summary: Option<Seq<char>>,
)
    requires
        s.flow == Outcome::HubEntry,
        s.phase == Phase::Replying,
    ensures
        after_reply(event, s, store, reply).2 == (ActionView::Summarize {
            model: "summary"@,
            prompt: event.content,
        }),
        after_reply(event, s, store, reply).0.phase == Phase::Titling,
        reply is None ==> after_reply(event, s, store, reply).1 == store,
        reply is None ==> after_summary(
            event,
            after_reply(event, s, store, reply).0,
            summary,
        ).1 == ActionView::Stop,
{
}

/// In the hub, once the backend has replied and summarised, exactly one
/// sub-conversation is asked for, under the first piece of the summary; the
/// whole reply goes into it, in order and in pieces that hold no more than a
/// message may; and the transcript has grown by the prompt and the reply.
pub proof fn lemma_hub_entry_run(
    event: EventView,
    s: JobState,
    store: StoreView,
    reply: Seq<char>,
    summary: Seq<char>,
    thread: u64,
)
    requires
        s.flow == Outcome::HubEntry,
        s.phase == Phase::Replying,
        summary.len() > 0,
    ensures
        ({
            let first = after_reply(event, s, store, Some(reply));
            let second = after_summary(event, first.0, Some(summary));
            let third = after_opening(second.0, Some(thread));
            &&& first.2 == (ActionView::Summarize { model: "summary"@, prompt: event.content })
            &&& first.1.contains_key(event.channel)
            &&& first.1[event.channel] == ensured(store, event.channel)[event.channel].push(
                (Role::User, prompt_for(event, s.descriptions)),
            ).push((Role::Assistant, reply))
            &&& forall|other: u64|
                other != event.channel ==> first.1.contains_key(other) == store.contains_key(other)
                    && first.1[other] == store[other]
            &&& second.1 == (ActionView::OpenThread {
                channel: event.channel,
                message: event.message,
                title: summary.subrange(
                    0,
                    if summary.len() <= TITLE_WIDTH {
                        summary.len() as int
                    } else {
                        TITLE_WIDTH as int
                    },
                ),
            })
            &&& third.1 == (ActionView::Deliver {
                channel: thread,
                chunks: chunks_of(reply, REPLY_WIDTH as nat),
            })
            &&& joined(chunks_of(reply, REPLY_WIDTH as nat)) == reply
            &&& third.0.phase == Phase::Done
        }),
{
    lemma_chunks_rebuild(reply, REPLY_WIDTH as nat);
    assert(0 * (TITLE_WIDTH as nat) == 0) by (nonlinear_arith);
}

/// The request to describe an encoded image.
pub fn describe_request(image: String) -> (action: Action)
    ensures
        action@ == (ActionView::Describe {
            model: "image"@,
            prompt: "Describe the following image in detail:"@,
            image: image@,
        }),
{
    Action::Describe {
        model: String::from_str("image"),
        prompt: String::from_str("Describe the following image in detail:"),
        image,
    }
}

/// The title of a sub-conversation: the first piece of the summary, if it has
/// one.
pub fn title_of(summary: &str) -> (title: Option<String>)
    ensures
        title is Some <==> summary@.len() > 0,
        title matches Some(t) ==> t@ == chunk_at(summary@, TITLE_WIDTH as nat, 0),
{
    let pieces = sub_strings(summary, TITLE_WIDTH);
    proof {
        lemma_chunk_count_positive(summary@.len(), TITLE_WIDTH as nat);
        assert(chunk_views(pieces@).len() == chunks_of(summary@, TITLE_WIDTH as nat).len());
    }
    if pieces.len() == 0 {
        None
    } else {
        assert(chunk_views(pieces@)[0] == chunks_of(summary@, TITLE_WIDTH as nat)[0]);
        Some(String::from_str(pieces[0]))
    }
}

impl Job {
    /// The part of the job that changes.
    pub open spec fn state(&self) -> JobState {
        JobState {
            flow: self.flow,
            descriptions: string_views(self.descriptions@),
            next: self.next as int,
            reply: text_view(self.reply),
            phase: self.phase,
        }
    }

    /// Takes up a new event.
    pub fn begin(policy: &Policy, event: InboundEvent, store: &mut HistoryStore) -> (out: (
        Job,
        Action,
    ))
        ensures
            out.0.event == event,
            (out.0.state(), final(store)@, out.1@) == started(*policy, event@, old(store)@),
    {
        let flow = classify(policy, &event);
        let mut job = Job {
            event,
            flow,
            descriptions: Vec::new(),
            next: 0,
            reply: None,
            phase: Phase::Done,
        };
        assert(job.state().descriptions =~= Seq::<Seq<char>>::empty());
        if flow.triggers_reply() {
            let _ = store.get_or_create(job.event.channel);
            let action = job.settle(store, 0);
            (job, action)
        } else {
            (job, Action::Stop)
        }
    }

    /// Ends the job without a reply.
    fn halt(&mut self) -> (action: Action)
        ensures
            final(self).event == old(self).event,
            final(self).state() == (JobState { phase: Phase::Done, ..old(self).state() }),
            action@ == ActionView::Stop,
    {
        self.phase = Phase::Done;
        Action::Stop
    }

    /// Goes on with the attachments from `from`.
    fn settle(&mut self, store: &mut HistoryStore, from: usize) -> (action: Action)
        ensures
            final(self).event == old(self).event,
            (final(self).state(), final(store)@, action@) == settled(
                old(self).event@,
                old(self).state(),
                old(store)@,
                from as int,
            ),
    {
        let at = next_image_from(&self.event.attachments, from);
        self.next = at;
        if at < self.event.attachments.len() {
            self.phase = Phase::Downloading;
            Action::Download { attachment: at }
        } else {
            self.phase = Phase::Replying;
            let prompt = compose(
                self.event.content.as_str(),
                &self.event.referenced,
                self.event.author,
                &self.descriptions,
            );
            let history = store.get_or_create(self.event.channel);
            Action::Chat {
                channel: self.event.channel,
                model: String::from_str("taco"),
                history,
                prompt,
            }
        }
    }

    /// The attachment at `next` is dealt with.
    fn pass_over(&mut self, store: &mut HistoryStore) -> (action: Action)
        ensures
            final(self).event == old(self).event,
            (final(self).state(), final(store)@, action@) == settled(
                old(self).event@,
                old(self).state(),
                old(store)@,
                behind(old(self).event@, old(self).next as int),
            ),
    {
        let from: usize = if self.next < self.event.attachments.len() {
            self.next + 1
        } else {
            self.next
        };
        self.settle(store, from)
    }

    /// A download ended with `bytes`, or failed.
    pub fn downloaded(&mut self, store: &mut HistoryStore, bytes: Option<Vec<u8>>) -> (action:
        Action)
        ensures
            final(self).event == old(self).event,
            (final(self).state(), final(store)@, action@) == after_download(
                old(self).event@,
                old(self).state(),
                old(store)@,
                bytes_view(bytes),
            ),
    {
        if self.phase != Phase::Downloading {
            return self.halt();
        }
        let encoded = match &bytes {
            Some(b) => encode_image(b.as_slice()),
            None => None,
        };
        match encoded {
            Some(image) => {
                self.phase = Phase::Describing;
                describe_request(image)
            },
            None => self.pass_over(store),
        }
    }

    /// The description of an image came, or failed to.
    pub fn described(&mut self, store: &mut HistoryStore, description: Option<String>) -> (action:
        Action)
        ensures
            final(self).event == old(self).event,
            (final(self).state(), final(store)@, action@) == after_description(
                old(self).event@,
                old(self).state(),
                old(store)@,
                text_view(description),
            ),
    {
        if self.phase != Phase::Describing {
            return self.halt();
        }
        match description {
            Some(text) => {
                self.descriptions.push(text);
                assert(string_views(self.descriptions@) =~= string_views(
                    old(self).descriptions@,
                ).push(text@));
            },
            None => {},
        }
        self.pass_over(store)
    }

    /// The backend's reply came, or failed to. In the hub the summary is
    /// asked for either way.
    pub fn replied(&mut self, store: &mut HistoryStore, reply: Option<String>) -> (action: Action)
        ensures
            final(self).event == old(self).event,
            (final(self).state(), final(store)@, action@) == after_reply(
                old(self).event@,
                old(self).state(),
                old(store)@,
                text_view(reply),
            ),
    {
        if self.phase != Phase::Replying {
            return self.halt();
        }
        let in_hub = self.flow == Outcome::HubEntry;
        let chunks = match &reply {
            Some(text) => {
                let prompt = compose(
                    self.event.content.as_str(),
                    &self.event.referenced,
                    self.event.author,
                    &self.descriptions,
                );
                store.append(self.event.channel, Turn::user(prompt));
                store.append(self.event.channel, Turn::assistant(text.clone()));
                Some(owned_chunks(text.as_str(), REPLY_WIDTH))
            },
            None => None,
        };
        if in_hub {
            self.reply = reply;
            self.phase = Phase::Titling;
            Action::Summarize {
                model: String::from_str("summary"),
                prompt: self.event.content.clone(),
            }
        } else {
            match chunks {
                Some(chunks) => {
                    self.reply = reply;
                    self.phase = Phase::Done;
                    Action::Deliver { channel: self.event.channel, chunks }
                },
                None => self.halt(),
            }
        }
    }

    /// The summary for the title came, or failed to.
    pub fn summarized(&mut self, summary: Option<String>) -> (action: Action)
        ensures
            final(self).event == old(self).event,
            (final(self).state(), action@) == after_summary(
                old(self).event@,
                old(self).state(),
                text_view(summary),
            ),
    {
        if self.phase != Phase::Titling || self.reply.is_none() {
            return self.halt();
        }
        let title = match &summary {
            Some(text) => title_of(text.as_str()),
            None => None,
        };
        match title {
            Some(title) => {
                self.phase = Phase::Opening;
                Action::OpenThread {
                    channel: self.event.channel,
                    message: self.event.message,
                    title,
                }
            },
            None => self.halt(),
        }
    }

    /// The sub-conversation was opened as `thread`, or could not be.
    pub fn opened(&mut self, thread: Option<u64>) -> (action: Action)
        ensures
            final(self).event == old(self).event,
            (final(self).state(), action@) == after_opening(old(self).state(), thread),
    {
        if self.phase != Phase::Opening {
            return self.halt();
        }
        let chunks = match &self.reply {
            Some(text) => Some(owned_chunks(text.as_str(), REPLY_WIDTH)),
            None => None,
        };
        match (thread, chunks) {
            (Some(channel), Some(chunks)) => {
                self.phase = Phase::Done;
                Action::Deliver { channel, chunks }
            },
            _ => self.halt(),
        }
    }

    /// One step of the job: takes what was handed back and says what to do
    /// next. Feedback that the job is not waiting for ends it.
    pub fn step(&mut self, store: &mut HistoryStore, feedback: Feedback) -> (action: Action)
        ensures
            final(self).event == old(self).event,
            (final(self).state(), final(store)@, action@) == after(
                old(self).event@,
                old(self).state(),
                old(store)@,
                feedback@,
            ),
    {
        match feedback {
            Feedback::Downloaded(bytes) => self.downloaded(store, bytes),
            Feedback::Described(text) => self.described(store, text),
            Feedback::Replied(text) => self.replied(store, text),
            Feedback::Summarized(text) => self.summarized(text),
            Feedback::Opened(thread) => self.opened(thread),
        }
    }
}

} // verus!
