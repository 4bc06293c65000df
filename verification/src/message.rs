//! What is said in a conversation: messages, the requests and response
//! fragments they were made from, and the errors a session can meet.

use vstd::prelude::*;
use vstd::string::*;

verus! {

/// Who a message is from.
#[derive(Clone, Copy, Debug, PartialEq, Eq, Structural)]
pub enum Author {
    User,
    Assistant,
    System,
}

impl Author {
    /// The tag under which the chat protocol knows the author.
    pub open spec fn tag(self) -> Seq<char> {
        match self {
            Author::User => "user"@,
            Author::Assistant => "assistant"@,
            Author::System => "system"@,
        }
    }

    pub fn as_str(&self) -> (s: &'static str)
        ensures
            s@ == self.tag(),
    {
        match self {
            Author::User => "user",
            Author::Assistant => "assistant",
            Author::System => "system",
        }
    }
}

/// One entry of the history that goes out with a request.
#[derive(Debug)]
pub struct MessageChunk {
    pub role: Author,
    pub content: String,
}

pub struct MessageChunkView {
    pub role: Author,
    pub content: Seq<char>,
}

impl View for MessageChunk {
    type V = MessageChunkView;

    open spec fn view(&self) -> MessageChunkView {
        MessageChunkView { role: self.role, content: self.content@ }
    }
}

impl Clone for MessageChunk {
    fn clone(&self) -> (copy: MessageChunk)
        ensures
            copy@ == self@,
    {
        MessageChunk { role: self.role, content: self.content.clone() }
    }
}

pub open spec fn chunks_view(chunks: Seq<MessageChunk>) -> Seq<MessageChunkView> {
    chunks.map_values(|c: MessageChunk| c@)
}

/// What is sent to the chat service: the model to ask and the turns so far.
#[derive(Debug)]
pub struct ChatRequest {
    pub model: String,
    pub messages: Vec<MessageChunk>,
}

pub struct ChatRequestView {
    pub model: Seq<char>,
    pub messages: Seq<MessageChunkView>,
}

impl View for ChatRequest {
    type V = ChatRequestView;

    open spec fn view(&self) -> ChatRequestView {
        ChatRequestView { model: self.model@, messages: chunks_view(self.messages@) }
    }
}

impl Clone for ChatRequest {
    fn clone(&self) -> (copy: ChatRequest)
        ensures
            copy@ == self@,
    {
        let mut messages: Vec<MessageChunk> = Vec::new();
        let mut i: usize = 0;
        while i < self.messages.len()
            invariant
                i <= self.messages.len(),
                chunks_view(messages@) == chunks_view(self.messages@.take(i as int)),
            decreases self.messages.len() - i,
        {
            let chunk = self.messages[i].clone();
            assert(chunks_view(messages@.push(chunk)) =~= chunks_view(messages@).push(chunk@));
            messages.push(chunk);
            i = i + 1;
        }
        assert(self.messages@.take(i as int) =~= self.messages@);
        ChatRequest { model: self.model.clone(), messages }
    }
}

/// One unit of a streamed response.
#[derive(Debug)]
pub struct Fragment {
    pub model: String,
    pub created_at: String,
    pub content: String,
    pub done: bool,
}

pub struct FragmentView {
    pub model: Seq<char>,
    pub created_at: Seq<char>,
    pub content: Seq<char>,
    pub done: bool,
}

impl View for Fragment {
    type V = FragmentView;

    open spec fn view(&self) -> FragmentView {
        FragmentView {
            model: self.model@,
            created_at: self.created_at@,
            content: self.content@,
            done: self.done,
        }
    }
}

impl Clone for Fragment {
    fn clone(&self) -> (copy: Fragment)
        ensures
            copy@ == self@,
    {
        Fragment {
            model: self.model.clone(),
            created_at: self.created_at.clone(),
            content: self.content.clone(),
            done: self.done,
        }
    }
}

pub open spec fn fragments_view(fragments: Seq<Fragment>) -> Seq<FragmentView> {
    fragments.map_values(|f: Fragment| f@)
}

/// What went wrong, with what the collaborator said of it.
#[derive(Debug)]
pub enum SessionError {
    /// The list of models could not be fetched.
    Load(String),
    /// The chat request failed, or the connection dropped in mid-stream.
    Transport(String),
    /// A fragment arrived that could not be read.
    Decode(String),
}

pub enum SessionErrorView {
    Load(Seq<char>),
    Transport(Seq<char>),
    Decode(Seq<char>),
}

impl SessionErrorView {
    /// The line that tells the user of the error.
    pub open spec fn message(self) -> Seq<char> {
        match self {
            SessionErrorView::Load(detail) => "load error: "@ + detail,
            SessionErrorView::Transport(detail) => "transport error: "@ + detail,
            SessionErrorView::Decode(detail) => "decode error: "@ + detail,
        }
    }
}

impl View for SessionError {
    type V = SessionErrorView;

    open spec fn view(&self) -> SessionErrorView {
        match self {
            SessionError::Load(detail) => SessionErrorView::Load(detail@),
            SessionError::Transport(detail) => SessionErrorView::Transport(detail@),
            SessionError::Decode(detail) => SessionErrorView::Decode(detail@),
        }
    }
}

impl Clone for SessionError {
    fn clone(&self) -> (copy: SessionError)
        ensures
            copy@ == self@,
    {
        match self {
            SessionError::Load(detail) => SessionError::Load(detail.clone()),
            SessionError::Transport(detail) => SessionError::Transport(detail.clone()),
            SessionError::Decode(detail) => SessionError::Decode(detail.clone()),
        }
    }
}

impl SessionError {
    pub fn message(&self) -> (line: String)
        ensures
            line@ == self@.message(),
    {
        match self {
            SessionError::Load(detail) => {
                let mut line = String::from_str("load error: ");
                line.append(detail.as_str());
                line
            },
            SessionError::Transport(detail) => {
                let mut line = String::from_str("transport error: ");
                line.append(detail.as_str());
                line
            },
            SessionError::Decode(detail) => {
                let mut line = String::from_str("decode error: ");
                line.append(detail.as_str());
                line
            },
        }
    }
}

/// What a message was made from. The log keeps these and never reads them
/// again.
#[derive(Debug)]
pub enum Payload {
    OutgoingRequest(ChatRequest),
    ResponseFragment(Fragment),
    Failure(SessionError),
}

pub enum PayloadView {
    OutgoingRequest(ChatRequestView),
    ResponseFragment(FragmentView),
    Failure(SessionErrorView),
}

impl View for Payload {
    type V = PayloadView;

    open spec fn view(&self) -> PayloadView {
        match self {
            Payload::OutgoingRequest(r) => PayloadView::OutgoingRequest(r@),
            Payload::ResponseFragment(f) => PayloadView::ResponseFragment(f@),
            Payload::Failure(e) => PayloadView::Failure(e@),
        }
    }
}

impl Clone for Payload {
    fn clone(&self) -> (copy: Payload)
        ensures
            copy@ == self@,
    {
        match self {
            Payload::OutgoingRequest(r) => Payload::OutgoingRequest(r.clone()),
            Payload::ResponseFragment(f) => Payload::ResponseFragment(f.clone()),
            Payload::Failure(e) => Payload::Failure(e.clone()),
        }
    }
}

pub open spec fn payloads_view(payloads: Seq<Payload>) -> Seq<PayloadView> {
    payloads.map_values(|p: Payload| p@)
}

/// One message of the log: who said it, the text that is shown, and the
/// payloads it was made from, in the order in which they came.
#[derive(Debug)]
pub struct Message {
    pub author: Author,
    pub content: String,
    pub payloads: Vec<Payload>,
}

pub struct MessageView {
    pub author: Author,
    pub content: Seq<char>,
    pub payloads: Seq<PayloadView>,
}

impl View for Message {
    type V = MessageView;

    open spec fn view(&self) -> MessageView {
        MessageView {
            author: self.author,
            content: self.content@,
            payloads: payloads_view(self.payloads@),
        }
    }
}

impl Clone for Message {
    fn clone(&self) -> (copy: Message)
        ensures
            copy@ == self@,
    {
        let mut payloads: Vec<Payload> = Vec::new();
        let mut i: usize = 0;
        while i < self.payloads.len()
            invariant
                i <= self.payloads.len(),
                payloads_view(payloads@) == payloads_view(self.payloads@.take(i as int)),
            decreases self.payloads.len() - i,
        {
            let payload = self.payloads[i].clone();
            assert(payloads_view(payloads@.push(payload)) =~= payloads_view(payloads@).push(
                payload@,
            ));
            payloads.push(payload);
            i = i + 1;
        }
        assert(self.payloads@.take(i as int) =~= self.payloads@);
        Message { author: self.author, content: self.content.clone(), payloads }
    }
}

pub open spec fn messages_view(messages: Seq<Message>) -> Seq<MessageView> {
    messages.map_values(|m: Message| m@)
}

impl MessageView {
    /// The entry that stands for this message in the history of a request.
    pub open spec fn chunk(self) -> MessageChunkView {
        MessageChunkView { role: self.author, content: self.content }
    }
}

} // verus!
