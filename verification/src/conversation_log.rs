//! The conversation log: the messages in the order in which they were said,
//! the window through which they are seen, and the folding of streamed
//! response fragments into one message per assistant turn.

use crate::message::messages_view;
use crate::message::Author;
use crate::message::ChatRequest;
use crate::message::ChatRequestView;
use crate::message::Fragment;
use crate::message::FragmentView;
use crate::message::Message;
use crate::message::MessageChunk;
use crate::message::MessageChunkView;
use crate::message::MessageView;
use crate::message::Payload;
use crate::message::PayloadView;
use crate::message::SessionError;
use crate::message::SessionErrorView;
use crate::message::chunks_view;
use vstd::prelude::*;
use vstd::string::*;

verus! {

/// How the fragments of one assistant turn reach the log.
#[derive(Clone, Copy, Debug, PartialEq, Eq, Structural)]
pub enum FoldPolicy {
    /// Each fragment is added at once to one growing message in the log.
    IncrementalAppend,
    /// The fragments are held back and enter the log as one message when
    /// the turn is complete.
    BatchFold,
}

/// Where the turn in flight stands.
#[derive(Clone, Copy, Debug, PartialEq, Eq, Structural)]
pub enum TurnPhase {
    /// No turn has begun yet.
    Idle,
    AwaitingFirstFragment,
    Accumulating,
    Complete,
    Failed,
}

/// The texts of the fragments, one after the other.
pub open spec fn concat_text(fragments: Seq<FragmentView>) -> Seq<char>
    decreases fragments.len(),
{
    if fragments.len() == 0 {
        Seq::empty()
    } else {
        concat_text(fragments.drop_last()) + fragments.last().content
    }
}

pub open spec fn fragment_payloads(fragments: Seq<FragmentView>) -> Seq<PayloadView> {
    fragments.map_values(|f: FragmentView| PayloadView::ResponseFragment(f))
}

/// The one assistant message that a turn's fragments make: it shows their
/// texts one after the other and keeps every fragment.
pub open spec fn folded(fragments: Seq<FragmentView>) -> MessageView {
    MessageView {
        author: Author::Assistant,
        content: concat_text(fragments),
        payloads: fragment_payloads(fragments),
    }
}

/// The assistant message that a turn's first fragment makes.
pub open spec fn started(fragment: FragmentView) -> MessageView {
    MessageView {
        author: Author::Assistant,
        content: fragment.content,
        payloads: seq![PayloadView::ResponseFragment(fragment)],
    }
}

/// A message with one more fragment folded into it.
pub open spec fn grown(message: MessageView, fragment: FragmentView) -> MessageView {
    MessageView {
        author: message.author,
        content: message.content + fragment.content,
        payloads: message.payloads.push(PayloadView::ResponseFragment(fragment)),
    }
}

/// A message with several more fragments folded into it.
pub open spec fn grown_by(message: MessageView, fragments: Seq<FragmentView>) -> MessageView {
    MessageView {
        author: message.author,
        content: message.content + concat_text(fragments),
        payloads: message.payloads + fragment_payloads(fragments),
    }
}

/// The turns so far as a request carries them: the messages of the user and
/// of the assistant, in order. What the session itself said is not a turn.
pub open spec fn history(messages: Seq<MessageView>) -> Seq<MessageChunkView>
    decreases messages.len(),
{
    if messages.len() == 0 {
        Seq::empty()
    } else if messages.last().author == Author::System {
        history(messages.drop_last())
    } else {
        history(messages.drop_last()).push(messages.last().chunk())
    }
}

/// What a log is, mathematically.
pub struct LogView {
    pub messages: Seq<MessageView>,
    pub scroll_offset: nat,
    pub viewport_height: nat,
    pub policy: FoldPolicy,
    pub phase: TurnPhase,
    /// Under `BatchFold`, the message that is held back while its turn runs.
    pub pending: Option<MessageView>,
}

impl LogView {
    /// One message is one line of the log.
    pub open spec fn total_lines(self) -> nat {
        self.messages.len()
    }

    /// The largest offset at which the window is still full, or 0 where the
    /// log is shorter than the window.
    pub open spec fn max_offset(self) -> nat {
        if self.total_lines() > self.viewport_height {
            (self.total_lines() - self.viewport_height) as nat
        } else {
            0
        }
    }

    /// A request is out and its reply is not complete.
    pub open spec fn in_flight(self) -> bool {
        self.phase == TurnPhase::AwaitingFirstFragment || self.phase == TurnPhase::Accumulating
    }

    /// The last message of the log is the assistant's, and the fragments of
    /// its turn go to it.
    pub open spec fn tail_open(self) -> bool {
        self.phase == TurnPhase::Complete || (self.phase == TurnPhase::Accumulating && self.policy
            == FoldPolicy::IncrementalAppend)
    }

    pub open spec fn wf(self) -> bool {
        &&& self.scroll_offset <= self.max_offset()
        &&& self.tail_open() ==> self.messages.len() > 0 && self.messages.last().author
            == Author::Assistant
        &&& self.pending is Some <==> self.policy == FoldPolicy::BatchFold && self.phase
            == TurnPhase::Accumulating
        &&& self.pending matches Some(m) ==> m.author == Author::Assistant
    }

    pub open spec fn empty(policy: FoldPolicy) -> LogView {
        LogView {
            messages: Seq::empty(),
            scroll_offset: 0,
            viewport_height: 0,
            policy,
            phase: TurnPhase::Idle,
            pending: None,
        }
    }

    /// A message that was held back enters the log as it is.
    pub open spec fn flush(self) -> LogView {
        match self.pending {
            Some(m) => LogView { messages: self.messages.push(m), pending: None, ..self },
            None => self,
        }
    }

    /// The request that a user turn with this text sends: the model, and the
    /// turns so far with the new one at their end.
    pub open spec fn request_for(self, model: Seq<char>, text: Seq<char>) -> ChatRequestView {
        ChatRequestView {
            model,
            messages: history(self.flush().messages).push(
                MessageChunkView { role: Author::User, content: text },
            ),
        }
    }

    /// A user turn begins: what was held back of the turn before enters the
    /// log, then the user's message with the request it sends, and the log
    /// waits for the first fragment of the reply.
    pub open spec fn append_user_turn(self, model: Seq<char>, text: Seq<char>) -> LogView {
        let base = self.flush();
        LogView {
            messages: base.messages.push(
                MessageView {
                    author: Author::User,
                    content: text,
                    payloads: seq![PayloadView::OutgoingRequest(self.request_for(model, text))],
                },
            ),
            phase: TurnPhase::AwaitingFirstFragment,
            ..base
        }
    }

    /// One fragment is folded in. A turn has one message: the first fragment
    /// makes it, each later one grows it, also one that comes after the turn
    /// was complete. Under `IncrementalAppend` the message stands in the
    /// log from the first fragment on; under `BatchFold` it is held back
    /// until a fragment says that the turn is complete.
    pub open spec fn append_assistant_fragment(self, fragment: FragmentView) -> LogView {
        if self.tail_open() {
            LogView {
                messages: self.messages.update(
                    self.messages.len() - 1,
                    grown(self.messages.last(), fragment),
                ),
                phase: if fragment.done || self.phase == TurnPhase::Complete {
                    TurnPhase::Complete
                } else {
                    TurnPhase::Accumulating
                },
                ..self
            }
        } else if self.policy == FoldPolicy::IncrementalAppend {
            LogView {
                messages: self.messages.push(started(fragment)),
                phase: if fragment.done {
                    TurnPhase::Complete
                } else {
                    TurnPhase::Accumulating
                },
                ..self
            }
        } else {
            let held = match self.pending {
                Some(m) => grown(m, fragment),
                None => started(fragment),
            };
            if fragment.done {
                LogView {
                    messages: self.messages.push(held),
                    pending: None,
                    phase: TurnPhase::Complete,
                    ..self
                }
            } else {
                LogView { pending: Some(held), phase: TurnPhase::Accumulating, ..self }
            }
        }
    }

    /// The fragments of `fragments` folded in, first to last.
    pub open spec fn append_fragments(self, fragments: Seq<FragmentView>) -> LogView
        decreases fragments.len(),
    {
        if fragments.len() == 0 {
            self
        } else {
            self.append_fragments(fragments.drop_last()).append_assistant_fragment(
                fragments.last(),
            )
        }
    }

    /// The turn has failed: what came of the reply stays, a message that was
    /// held back enters the log as it is, and one message of the session
    /// tells of the error.
    pub open spec fn fail_turn(self, error: SessionErrorView) -> LogView {
        let base = self.flush();
        LogView {
            messages: base.messages.push(
                MessageView {
                    author: Author::System,
                    content: error.message(),
                    payloads: seq![PayloadView::Failure(error)],
                },
            ),
            phase: TurnPhase::Failed,
            ..base
        }
    }

    /// The window moves by `delta` lines and stops at either end.
    pub open spec fn scroll_by(self, delta: int) -> LogView {
        let target = self.scroll_offset + delta;
        LogView {
            scroll_offset: if target < 0 {
                0
            } else if target > self.max_offset() {
                self.max_offset()
            } else {
                target as nat
            },
            ..self
        }
    }

    /// The window moves as far down as it goes, which shows the last line.
    pub open spec fn scroll_to_end(self) -> LogView {
        LogView { scroll_offset: self.max_offset(), ..self }
    }

    /// The window gets a new height, and an offset that is now too far down
    /// comes back to the largest one that the new height allows.
    pub open spec fn set_viewport_height(self, height: nat) -> LogView {
        let resized = LogView { viewport_height: height, ..self };
        LogView {
            scroll_offset: if self.scroll_offset > resized.max_offset() {
                resized.max_offset()
            } else {
                self.scroll_offset
            },
            ..resized
        }
    }
}

proof fn lemma_folded_grows(fragments: Seq<FragmentView>)
    requires
        fragments.len() > 0,
    ensures
        grown(folded(fragments.drop_last()), fragments.last()) == folded(fragments),
        fragments.len() == 1 ==> started(fragments[0]) == folded(fragments),
{
    let init = fragments.drop_last();
    let last = fragments.last();
    assert(fragment_payloads(init).push(PayloadView::ResponseFragment(last)) =~= fragment_payloads(
        fragments,
    ));
    if fragments.len() == 1 {
        assert(seq![PayloadView::ResponseFragment(last)] =~= fragment_payloads(fragments));
    }
}

proof fn lemma_grown_by_grows(message: MessageView, fragments: Seq<FragmentView>)
    requires
        fragments.len() > 0,
    ensures
        grown(grown_by(message, fragments.drop_last()), fragments.last()) == grown_by(
            message,
            fragments,
        ),
        grown_by(message, Seq::empty()) == message,
{
    let init = fragments.drop_last();
    let last = fragments.last();
    assert((message.payloads + fragment_payloads(init)).push(PayloadView::ResponseFragment(last))
        =~= message.payloads + fragment_payloads(fragments));
    assert((message.content + concat_text(init)) + last.content =~= message.content + concat_text(
        fragments,
    ));
}

proof fn lemma_open_tail_grows(log: LogView, fragments: Seq<FragmentView>)
    requires
        log.wf(),
        log.tail_open(),
    ensures
        log.append_fragments(fragments) == (LogView {
            messages: log.messages.update(
                log.messages.len() - 1,
                grown_by(log.messages.last(), fragments),
            ),
            phase: log.append_fragments(fragments).phase,
            ..log
        }),
        log.append_fragments(fragments).tail_open(),
        log.append_fragments(fragments).wf(),
    decreases fragments.len(),
{
    let tail = log.messages.last();
    if fragments.len() == 0 {
        assert(log.messages.update(log.messages.len() - 1, tail) =~= log.messages);
    } else {
        let init = fragments.drop_last();
        lemma_open_tail_grows(log, init);
        lemma_grown_by_grows(tail, fragments);
        let mid = log.append_fragments(init);
        assert(mid.messages.update(
            mid.messages.len() - 1,
            grown(mid.messages.last(), fragments.last()),
        ) =~= log.messages.update(log.messages.len() - 1, grown_by(tail, fragments)));
    }
}

/// Under `IncrementalAppend`, the fragments of a turn make exactly one
/// message, whatever their number and their flags. Where the reply had not
/// begun, the log gains one assistant message that shows the texts of all the
/// fragments, one after the other and in order, and keeps every fragment;
/// where the reply's message was already growing, that message grows by the
/// same text and no message is added. Nothing else in the log changes but
/// the phase of the turn.
pub proof fn lemma_incremental_append_yields_one_message(
    log: LogView,
    fragments: Seq<FragmentView>,
)
    requires
        log.wf(),
        log.policy == FoldPolicy::IncrementalAppend,
        fragments.len() > 0,
    ensures
        !log.tail_open() ==> log.append_fragments(fragments).messages == log.messages.push(
            folded(fragments),
        ),
        log.tail_open() ==> log.append_fragments(fragments).messages == log.messages.update(
            log.messages.len() - 1,
            grown_by(log.messages.last(), fragments),
        ),
        log.append_fragments(fragments) == (LogView {
            messages: log.append_fragments(fragments).messages,
            phase: log.append_fragments(fragments).phase,
            ..log
        }),
        log.append_fragments(fragments).tail_open(),
        log.append_fragments(fragments).wf(),
    decreases fragments.len(),
{
    if log.tail_open() {
        lemma_open_tail_grows(log, fragments);
    } else {
        lemma_folded_grows(fragments);
        if fragments.len() > 1 {
            lemma_incremental_append_yields_one_message(log, fragments.drop_last());
        }
    }
}

/// Under `BatchFold`, while no fragment of a turn says that the turn is
/// complete, the log's messages stay as they are and the fragments are held
/// back as one message.
pub proof fn lemma_batch_fold_holds_back(log: LogView, fragments: Seq<FragmentView>)
    requires
        log.wf(),
        log.policy == FoldPolicy::BatchFold,
        !log.tail_open(),
        log.pending is None,
        fragments.len() > 0,
        forall|i: int| 0 <= i < fragments.len() ==> !(#[trigger] fragments[i]).done,
    ensures
        log.append_fragments(fragments) == (LogView {
            pending: Some(folded(fragments)),
            phase: TurnPhase::Accumulating,
            ..log
        }),
        log.append_fragments(fragments).wf(),
    decreases fragments.len(),
{
    let init = fragments.drop_last();
    lemma_folded_grows(fragments);
    if init.len() == 0 {
        assert(log.append_fragments(init) == log);
    } else {
        lemma_batch_fold_holds_back(log, init);
    }
}

/// Under `BatchFold`, a turn whose last fragment, and no earlier one, says
/// that it is complete adds exactly one assistant message to the log: it
/// shows the texts of all the fragments, one after the other and in order,
/// and keeps every fragment. It is the message that `IncrementalAppend`
/// makes of the same fragments.
pub proof fn lemma_batch_fold_yields_one_message(log: LogView, fragments: Seq<FragmentView>)
    requires
        log.wf(),
        log.policy == FoldPolicy::BatchFold,
        !log.tail_open(),
        log.pending is None,
        fragments.len() > 0,
        fragments.last().done,
        forall|i: int| 0 <= i < fragments.len() - 1 ==> !(#[trigger] fragments[i]).done,
    ensures
        log.append_fragments(fragments) == (LogView {
            messages: log.messages.push(folded(fragments)),
            phase: TurnPhase::Complete,
            ..log
        }),
        log.append_fragments(fragments).wf(),
{
    let init = fragments.drop_last();
    lemma_folded_grows(fragments);
    if init.len() == 0 {
        assert(log.append_fragments(init) == log);
    } else {
        lemma_batch_fold_holds_back(log, init);
    }
}

/// Every message of `before` still stands at its place in `after`, from the
/// same author, and shows and keeps what it did, with at most more behind it.
pub open spec fn extends(before: Seq<MessageView>, after: Seq<MessageView>) -> bool {
    &&& before.len() <= after.len()
    &&& forall|i: int|
        0 <= i < before.len() ==> {
            &&& (#[trigger] after[i]).author == before[i].author
            &&& before[i].content.is_prefix_of(after[i].content)
            &&& before[i].payloads.is_prefix_of(after[i].payloads)
        }
}

/// The log only grows: whatever is done to it, no message leaves, none
/// changes its place, and none loses text or a payload. Scrolling and a new
/// height of the window leave the messages as they are.
pub proof fn lemma_log_only_grows(
    log: LogView,
    model: Seq<char>,
    text: Seq<char>,
    fragment: FragmentView,
    error: SessionErrorView,
    delta: int,
    height: nat,
)
    requires
        log.wf(),
    ensures
        extends(log.messages, log.append_user_turn(model, text).messages),
        extends(log.messages, log.append_assistant_fragment(fragment).messages),
        extends(log.messages, log.fail_turn(error).messages),
        log.scroll_by(delta).messages == log.messages,
        log.scroll_to_end().messages == log.messages,
        log.set_viewport_height(height).messages == log.messages,
{
}

pub open spec fn option_message_view(m: Option<Message>) -> Option<MessageView> {
    match m {
        Some(m) => Some(m@),
        None => None,
    }
}

/// The log itself.
pub struct ConversationLog {
    messages: Vec<Message>,
    scroll_offset: usize,
    viewport_height: usize,
    policy: FoldPolicy,
    phase: TurnPhase,
    pending: Option<Message>,
}

impl View for ConversationLog {
    type V = LogView;

    closed spec fn view(&self) -> LogView {
        LogView {
            messages: messages_view(self.messages@),
            scroll_offset: self.scroll_offset as nat,
            viewport_height: self.viewport_height as nat,
            policy: self.policy,
            phase: self.phase,
            pending: option_message_view(self.pending),
        }
    }
}

fn start_message(fragment: Fragment) -> (message: Message)
    ensures
        message@ == started(fragment@),
{
    let content = fragment.content.clone();
    let mut payloads: Vec<Payload> = Vec::new();
    payloads.push(Payload::ResponseFragment(fragment));
    let message = Message { author: Author::Assistant, content, payloads };
    assert(message@.payloads =~= seq![PayloadView::ResponseFragment(fragment@)]);
    message
}

fn grow_message(message: &mut Message, fragment: Fragment)
    ensures
        final(message)@ == grown(old(message)@, fragment@),
{
    message.content.append(fragment.content.as_str());
    message.payloads.push(Payload::ResponseFragment(fragment));
    assert(final(message)@.payloads =~= old(message)@.payloads.push(
        PayloadView::ResponseFragment(fragment@),
    ));
}

impl ConversationLog {
    pub open spec fn wf(&self) -> bool {
        self@.wf()
    }

    pub fn new(policy: FoldPolicy) -> (log: ConversationLog)
        ensures
            log@ == LogView::empty(policy),
            log.wf(),
    {
        let log = ConversationLog {
            messages: Vec::new(),
            scroll_offset: 0,
            viewport_height: 0,
            policy,
            phase: TurnPhase::Idle,
            pending: None,
        };
        assert(log@.messages =~= Seq::empty());
        log
    }

    pub fn messages(&self) -> (messages: &Vec<Message>)
        ensures
            messages_view(messages@) == self@.messages,
    {
        &self.messages
    }

    pub fn total_lines(&self) -> (n: usize)
        ensures
            n == self@.total_lines(),
    {
        self.messages.len()
    }

    pub fn scroll_offset(&self) -> (offset: usize)
        ensures
            offset == self@.scroll_offset,
    {
        self.scroll_offset
    }

    pub fn viewport_height(&self) -> (height: usize)
        ensures
            height == self@.viewport_height,
    {
        self.viewport_height
    }

    pub fn policy(&self) -> (policy: FoldPolicy)
        ensures
            policy == self@.policy,
    {
        self.policy
    }

    pub fn phase(&self) -> (phase: TurnPhase)
        ensures
            phase == self@.phase,
    {
        self.phase
    }

    /// Whether a request is out whose reply is not complete.
    pub fn in_flight(&self) -> (b: bool)
        ensures
            b == self@.in_flight(),
    {
        match self.phase {
            TurnPhase::AwaitingFirstFragment => true,
            TurnPhase::Accumulating => true,
            _ => false,
        }
    }

    /// The largest offset that the window can have now.
    pub fn max_scroll_offset(&self) -> (max: usize)
        ensures
            max == self@.max_offset(),
    {
        let total = self.messages.len();
        if total > self.viewport_height {
            total - self.viewport_height
        } else {
            0
        }
    }

    fn flush(&mut self)
        requires
            old(self).wf(),
        ensures
            final(self)@ == old(self)@.flush(),
            final(self)@.scroll_offset <= final(self)@.max_offset(),
    {
        match self.pending.take() {
            Some(message) => {
                assert(messages_view(self.messages@.push(message)) =~= messages_view(
                    self.messages@,
                ).push(message@));
                self.messages.push(message);
            },
            None => {},
        }
    }

    fn history(&self) -> (chunks: Vec<MessageChunk>)
        ensures
            chunks_view(chunks@) == history(self@.messages),
    {
        let mut chunks: Vec<MessageChunk> = Vec::new();
        let mut i: usize = 0;
        while i < self.messages.len()
            invariant
                i <= self.messages.len(),
                chunks_view(chunks@) == history(messages_view(self.messages@).take(i as int)),
            decreases self.messages.len() - i,
        {
            let message = &self.messages[i];
            assert(messages_view(self.messages@).take(i + 1).drop_last() =~= messages_view(
                self.messages@,
            ).take(i as int));
            match message.author {
                Author::System => {},
                _ => {
                    let chunk = MessageChunk {
                        role: message.author,
                        content: message.content.clone(),
                    };
                    chunks.push(chunk);
                },
            }
            i = i + 1;
        }
        assert(messages_view(self.messages@).take(i as int) =~= messages_view(self.messages@));
        chunks
    }

    /// Appends the user's message with the request that it sends, and hands
    /// that request out for the chat service.
    pub fn append_user_turn(&mut self, model: &str, text: String) -> (request: ChatRequest)
        requires
            old(self).wf(),
        ensures
            final(self)@ == old(self)@.append_user_turn(model@, text@),
            request@ == old(self)@.request_for(model@, text@),
            final(self).wf(),
    {
        self.flush();
        let mut turns = self.history();
        let chunk = MessageChunk { role: Author::User, content: text.clone() };
        assert(chunks_view(turns@.push(chunk)) =~= chunks_view(turns@).push(chunk@));
        turns.push(chunk);
        let request = ChatRequest { model: String::from_str(model), messages: turns };
        let kept = request.clone();
        let mut payloads: Vec<Payload> = Vec::new();
        payloads.push(Payload::OutgoingRequest(kept));
        let message = Message { author: Author::User, content: text, payloads };
        assert(message@.payloads =~= seq![PayloadView::OutgoingRequest(request@)]);
        assert(messages_view(self.messages@.push(message)) =~= messages_view(
            self.messages@,
        ).push(message@));
        self.messages.push(message);
        self.phase = TurnPhase::AwaitingFirstFragment;
        request
    }

    /// Folds one fragment of the assistant's reply into the log.
    pub fn append_assistant_fragment(&mut self, fragment: Fragment)
        requires
            old(self).wf(),
        ensures
            final(self)@ == old(self)@.append_assistant_fragment(fragment@),
            final(self).wf(),
    {
        let done = fragment.done;
        let complete = match self.phase {
            TurnPhase::Complete => true,
            _ => false,
        };
        let accumulating = match self.phase {
            TurnPhase::Accumulating => true,
            _ => false,
        };
        let incremental = match self.policy {
            FoldPolicy::IncrementalAppend => true,
            FoldPolicy::BatchFold => false,
        };
        if complete || (accumulating && incremental) {
            let ghost before = self.messages@;
            let mut tail = self.messages.pop().unwrap();
            grow_message(&mut tail, fragment);
            assert(messages_view(self.messages@.push(tail)) =~= messages_view(before).update(
                before.len() - 1,
                tail@,
            ));
            self.messages.push(tail);
            if done || complete {
                self.phase = TurnPhase::Complete;
            } else {
                self.phase = TurnPhase::Accumulating;
            }
        } else if incremental {
            let message = start_message(fragment);
            assert(messages_view(self.messages@.push(message)) =~= messages_view(
                self.messages@,
            ).push(message@));
            self.messages.push(message);
            if done {
                self.phase = TurnPhase::Complete;
            } else {
                self.phase = TurnPhase::Accumulating;
            }
        } else {
            let held = match self.pending.take() {
                Some(mut message) => {
                    grow_message(&mut message, fragment);
                    message
                },
                None => start_message(fragment),
            };
            if done {
                assert(messages_view(self.messages@.push(held)) =~= messages_view(
                    self.messages@,
                ).push(held@));
                self.messages.push(held);
                self.phase = TurnPhase::Complete;
            } else {
                self.pending = Some(held);
                self.phase = TurnPhase::Accumulating;
            }
        }
    }

    /// Ends the turn in flight as failed and tells of the error in the log.
    pub fn fail_turn(&mut self, error: SessionError)
        requires
            old(self).wf(),
        ensures
            final(self)@ == old(self)@.fail_turn(error@),
            final(self).wf(),
    {
        self.flush();
        let content = error.message();
        let mut payloads: Vec<Payload> = Vec::new();
        payloads.push(Payload::Failure(error));
        let message = Message { author: Author::System, content, payloads };
        assert(message@.payloads =~= seq![PayloadView::Failure(error@)]);
        assert(messages_view(self.messages@.push(message)) =~= messages_view(
            self.messages@,
        ).push(message@));
        self.messages.push(message);
        self.phase = TurnPhase::Failed;
    }

    pub fn scroll_by(&mut self, delta: isize)
        requires
            old(self).wf(),
        ensures
            final(self)@ == old(self)@.scroll_by(delta as int),
            final(self).wf(),
    {
        let max = self.max_scroll_offset();
        if delta >= 0 {
            let step: usize = delta as usize;
            if step >= max - self.scroll_offset {
                self.scroll_offset = max;
            } else {
                self.scroll_offset = self.scroll_offset + step;
            }
        } else {
            let back: usize = if delta == isize::MIN {
                isize::MAX as usize + 1
            } else {
                (-delta) as usize
            };
            if back >= self.scroll_offset {
                self.scroll_offset = 0;
            } else {
                self.scroll_offset = self.scroll_offset - back;
            }
        }
    }

    pub fn scroll_to_end(&mut self)
        ensures
            final(self)@ == old(self)@.scroll_to_end(),
            final(self)@.scroll_offset <= final(self)@.max_offset(),
            final(self)@.scroll_offset + final(self)@.viewport_height >= final(self)@.total_lines(),
            old(self).wf() ==> final(self).wf(),
    {
        self.scroll_offset = self.max_scroll_offset();
    }

    pub fn set_viewport_height(&mut self, height: usize)
        ensures
            final(self)@ == old(self)@.set_viewport_height(height as nat),
            final(self)@.scroll_offset <= final(self)@.max_offset(),
            old(self).wf() ==> final(self).wf(),
    {
        self.viewport_height = height;
        let max = self.max_scroll_offset();
        if self.scroll_offset > max {
            self.scroll_offset = max;
        }
    }
}

} // verus!
