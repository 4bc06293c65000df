//! The session controller: the two modes of the session, the key presses
//! that move between them and reach the editor, the catalog and the log, and
//! the turn of the conversation that a submitted message begins.
//!
//! The controller neither reads keys nor talks to the chat service. Its
//! caller hands it each key event and gets back what to do next; it sends
//! the request that a submission hands out and gives the controller each
//! fragment, or the failure, that comes back. A new request while a reply
//! is still arriving replaces the old one: the caller drops the old stream,
//! and what had arrived of the old reply stays in the log.

use crate::conversation_log::ConversationLog;
use crate::conversation_log::FoldPolicy;
use crate::conversation_log::LogView;
use crate::conversation_log::TurnPhase;
use crate::conversation_log::folded;
use crate::conversation_log::lemma_incremental_append_yields_one_message;
use crate::message::ChatRequest;
use crate::message::ChatRequestView;
use crate::message::Fragment;
use crate::message::FragmentView;
use crate::message::fragments_view;
use crate::message::SessionError;
use crate::message::SessionErrorView;
use crate::model_catalog::models_view;
use crate::model_catalog::CatalogView;
use crate::model_catalog::Model;
use crate::model_catalog::ModelCatalog;
use crate::model_catalog::ModelView;
use crate::text_editor::EditorView;
use crate::text_editor::TextEditor;
use vstd::prelude::*;
use vstd::string::*;

verus! {

/// What the keys mean at the moment.
#[derive(Clone, Copy, Debug, PartialEq, Eq, Structural)]
pub enum Mode {
    /// The keys browse the catalog.
    Normal,
    /// The keys edit the message and scroll the log.
    Editing,
}

/// The keys that the session knows.
#[derive(Clone, Copy, Debug, PartialEq, Eq, Structural)]
pub enum Key {
    Char(char),
    Enter,
    Backspace,
    Left,
    Right,
    Up,
    Down,
    Esc,
    Other,
}

#[derive(Clone, Copy, Debug, PartialEq, Eq, Structural)]
pub enum KeyKind {
    Press,
    Repeat,
    Release,
}

#[derive(Clone, Copy, Debug, PartialEq, Eq, Structural)]
pub struct KeyEvent {
    pub code: Key,
    pub kind: KeyKind,
}

/// What the caller is to do after a key.
#[derive(Debug)]
pub enum Action {
    /// Nothing but to go on.
    Continue,
    /// End the session.
    Quit,
    /// Ask the model loader again and hand back what it comes back with.
    Reload,
    /// Send this request to the chat service and hand back what it yields.
    Send(ChatRequest),
}

pub enum ActionView {
    Continue,
    Quit,
    Reload,
    Send(ChatRequestView),
}

impl View for Action {
    type V = ActionView;

    open spec fn view(&self) -> ActionView {
        match self {
            Action::Continue => ActionView::Continue,
            Action::Quit => ActionView::Quit,
            Action::Reload => ActionView::Reload,
            Action::Send(request) => ActionView::Send(request@),
        }
    }
}

/// What the chat service yielded for the request in flight.
#[derive(Debug)]
pub enum ServiceEvent {
    /// The next fragment of the reply.
    Fragment(Fragment),
    /// The request failed, or the connection dropped; with the reason.
    TransportFailed(String),
    /// What arrived could not be read as a fragment; with the reason.
    DecodeFailed(String),
    /// The service has nothing more to yield.
    Ended,
}

pub enum ServiceEventView {
    Fragment(FragmentView),
    TransportFailed(Seq<char>),
    DecodeFailed(Seq<char>),
    Ended,
}

impl View for ServiceEvent {
    type V = ServiceEventView;

    open spec fn view(&self) -> ServiceEventView {
        match self {
            ServiceEvent::Fragment(fragment) => ServiceEventView::Fragment(fragment@),
            ServiceEvent::TransportFailed(reason) => ServiceEventView::TransportFailed(reason@),
            ServiceEvent::DecodeFailed(reason) => ServiceEventView::DecodeFailed(reason@),
            ServiceEvent::Ended => ServiceEventView::Ended,
        }
    }
}

/// What the model loader came back with: the models, or why there are none.
pub open spec fn load_outcome_view(outcome: Result<Vec<Model>, String>) -> Result<
    Seq<ModelView>,
    Seq<char>,
> {
    match outcome {
        Ok(models) => Ok(models_view(models@)),
        Err(reason) => Err(reason@),
    }
}

/// What the chat service came back with when the whole reply was awaited:
/// the fragments in the order in which they came, or why there are none.
pub open spec fn reply_view(reply: Result<Vec<Fragment>, String>) -> Result<
    Seq<FragmentView>,
    Seq<char>,
> {
    match reply {
        Ok(fragments) => Ok(fragments_view(fragments@)),
        Err(reason) => Err(reason@),
    }
}

/// What the log says of a reply that ended before its turn was complete.
pub const ENDED_EARLY: &'static str = "the reply ended early";

/// A key that went down.
pub open spec fn press(code: Key) -> KeyEvent {
    KeyEvent { code, kind: KeyKind::Press }
}

/// What a session is, mathematically.
pub struct SessionView {
    pub mode: Mode,
    pub catalog: CatalogView,
    pub editor: EditorView,
    pub log: LogView,
    pub exit: bool,
    /// Why the catalog could not be loaded, until a load succeeds.
    pub load_error: Option<SessionErrorView>,
}

impl SessionView {
    /// The parts are well-formed, and a message is only edited for a model
    /// that was confirmed.
    pub open spec fn wf(self) -> bool {
        &&& self.catalog.wf()
        &&& self.editor.wf()
        &&& self.log.wf()
        &&& self.mode == Mode::Editing ==> self.catalog.active is Some
    }

    pub open spec fn initial(policy: FoldPolicy) -> SessionView {
        SessionView {
            mode: Mode::Normal,
            catalog: CatalogView::empty(),
            editor: EditorView::empty(),
            log: LogView::empty(policy),
            exit: false,
            load_error: None,
        }
    }

    /// A loaded list replaces the catalog's and clears the load error; a
    /// failed load leaves the catalog as it is and keeps the reason for the
    /// display.
    pub open spec fn load_models(self, outcome: Result<Seq<ModelView>, Seq<char>>) -> SessionView {
        match outcome {
            Ok(models) => SessionView {
                catalog: self.catalog.replace_all(models),
                load_error: None,
                ..self
            },
            Err(reason) => SessionView {
                load_error: Some(SessionErrorView::Load(reason)),
                ..self
            },
        }
    }

    /// The message in the editor is submitted. An empty buffer, or a session
    /// without a confirmed model, changes nothing. Else the text becomes a
    /// user turn of the log, the editor is cleared, and the request for the
    /// confirmed model, with all turns so far, is to be sent.
    pub open spec fn submit(self) -> (SessionView, ActionView) {
        if self.editor.text.len() == 0 {
            (self, ActionView::Continue)
        } else {
            match self.catalog.active {
                None => (self, ActionView::Continue),
                Some(model) => (
                    SessionView {
                        log: self.log.append_user_turn(model.name, self.editor.text),
                        editor: EditorView::empty(),
                        ..self
                    },
                    ActionView::Send(self.log.request_for(model.name, self.editor.text)),
                ),
            }
        }
    }

    /// A key press while the catalog is browsed: the arrows move the
    /// highlight, Enter confirms the highlighted model, `e` begins to edit
    /// once a model is confirmed, `r` asks for the catalog to be loaded
    /// again, and Esc ends the session.
    pub open spec fn normal_key(self, code: Key) -> (SessionView, ActionView) {
        match code {
            Key::Esc => (SessionView { exit: true, ..self }, ActionView::Quit),
            Key::Down => (
                SessionView { catalog: self.catalog.select_next(), ..self },
                ActionView::Continue,
            ),
            Key::Up => (
                SessionView { catalog: self.catalog.select_previous(), ..self },
                ActionView::Continue,
            ),
            Key::Enter => (
                SessionView { catalog: self.catalog.confirm(), ..self },
                ActionView::Continue,
            ),
            Key::Char(c) => if c == 'e' && self.catalog.active is Some {
                (SessionView { mode: Mode::Editing, ..self }, ActionView::Continue)
            } else if c == 'r' {
                (self, ActionView::Reload)
            } else {
                (self, ActionView::Continue)
            },
            _ => (self, ActionView::Continue),
        }
    }

    /// A key press while the message is edited: characters, Backspace and
    /// the horizontal arrows reach the editor, the vertical arrows scroll the
    /// log by one line, Enter submits, and Esc goes back to the catalog.
    pub open spec fn editing_key(self, code: Key) -> (SessionView, ActionView) {
        match code {
            Key::Enter => self.submit(),
            Key::Char(c) => (
                SessionView { editor: self.editor.insert(c), ..self },
                ActionView::Continue,
            ),
            Key::Backspace => (
                SessionView { editor: self.editor.delete_before_cursor(), ..self },
                ActionView::Continue,
            ),
            Key::Left => (
                SessionView { editor: self.editor.move_left(), ..self },
                ActionView::Continue,
            ),
            Key::Right => (
                SessionView { editor: self.editor.move_right(), ..self },
                ActionView::Continue,
            ),
            Key::Up => (SessionView { log: self.log.scroll_by(-1), ..self }, ActionView::Continue),
            Key::Down => (SessionView { log: self.log.scroll_by(1), ..self }, ActionView::Continue),
            Key::Esc => (SessionView { mode: Mode::Normal, ..self }, ActionView::Continue),
            Key::Other => (self, ActionView::Continue),
        }
    }

    /// One key event: only presses count, and what a press does depends on
    /// the mode.
    pub open spec fn handle_key(self, event: KeyEvent) -> (SessionView, ActionView) {
        if event.kind != KeyKind::Press {
            (self, ActionView::Continue)
        } else {
            match self.mode {
                Mode::Normal => self.normal_key(event.code),
                Mode::Editing => self.editing_key(event.code),
            }
        }
    }

    /// What the chat service yielded is taken in. A fragment is folded into
    /// the log, and when the turn is complete with it the log scrolls to its
    /// end. A failure ends the turn and is told in the log; so does the end
    /// of the reply while the turn still waits for its completion, which is
    /// a dropped connection. The mode, the editor and the catalog stay as
    /// they are.
    pub open spec fn receive(self, event: ServiceEventView) -> SessionView {
        match event {
            ServiceEventView::Fragment(fragment) => {
                let log = self.log.append_assistant_fragment(fragment);
                SessionView {
                    log: if log.phase == TurnPhase::Complete {
                        log.scroll_to_end()
                    } else {
                        log
                    },
                    ..self
                }
            },
            ServiceEventView::TransportFailed(reason) => SessionView {
                log: self.log.fail_turn(SessionErrorView::Transport(reason)),
                ..self
            },
            ServiceEventView::DecodeFailed(reason) => SessionView {
                log: self.log.fail_turn(SessionErrorView::Decode(reason)),
                ..self
            },
            ServiceEventView::Ended => if self.log.in_flight() {
                SessionView {
                    log: self.log.fail_turn(SessionErrorView::Transport(ENDED_EARLY@)),
                    ..self
                }
            } else {
                self
            },
        }
    }

    /// The fragments of `fragments` taken in, first to last.
    pub open spec fn receive_fragments(self, fragments: Seq<FragmentView>) -> SessionView
        decreases fragments.len(),
    {
        if fragments.len() == 0 {
            self
        } else {
            self.receive_fragments(fragments.drop_last()).receive(
                ServiceEventView::Fragment(fragments.last()),
            )
        }
    }

    /// A reply that was awaited as a whole is taken in: each of its
    /// fragments in order, or the failure of the request.
    pub open spec fn take_reply(self, reply: Result<Seq<FragmentView>, Seq<char>>) -> SessionView {
        match reply {
            Ok(fragments) => self.receive_fragments(fragments),
            Err(reason) => self.receive(ServiceEventView::TransportFailed(reason)),
        }
    }

    pub open spec fn set_viewport_height(self, height: nat) -> SessionView {
        SessionView { log: self.log.set_viewport_height(height), ..self }
    }
}

/// Enter on an empty buffer changes nothing in the session: not the log,
/// not the editor, not the place to which the log is scrolled.
pub proof fn lemma_empty_submission_changes_nothing(session: SessionView)
    requires
        session.editor.text.len() == 0,
    ensures
        session.submit() == (session, ActionView::Continue),
        session.mode == Mode::Editing ==> session.handle_key(press(Key::Enter)) == (
            session,
            ActionView::Continue,
        ),
{
}

proof fn lemma_receiving_folds_up_to_scrolling(session: SessionView, fragments: Seq<FragmentView>)
    requires
        session.wf(),
    ensures
        session.receive_fragments(fragments).wf(),
        session.receive_fragments(fragments) == (SessionView {
            log: LogView {
                scroll_offset: session.receive_fragments(fragments).log.scroll_offset,
                ..session.log.append_fragments(fragments)
            },
            ..session
        }),
    decreases fragments.len(),
{
    if fragments.len() > 0 {
        lemma_receiving_folds_up_to_scrolling(session, fragments.drop_last());
    }
}

/// Under `IncrementalAppend`, the fragments that come back for a request
/// whose reply had not begun add exactly one assistant message to the log,
/// which shows their texts one after the other and keeps every fragment.
/// Where the last fragment says that the turn is complete, the log is then
/// scrolled to its end. The mode, the editor and the catalog are as before.
pub proof fn lemma_reply_becomes_one_message(session: SessionView, fragments: Seq<FragmentView>)
    requires
        session.wf(),
        session.log.policy == FoldPolicy::IncrementalAppend,
        !session.log.tail_open(),
        fragments.len() > 0,
    ensures
        session.receive_fragments(fragments).log.messages == session.log.messages.push(
            folded(fragments),
        ),
        fragments.last().done ==> session.receive_fragments(fragments).log.phase
            == TurnPhase::Complete && session.receive_fragments(fragments).log.scroll_offset
            == session.receive_fragments(fragments).log.max_offset(),
        session.receive_fragments(fragments).mode == session.mode,
        session.receive_fragments(fragments).editor == session.editor,
        session.receive_fragments(fragments).catalog == session.catalog,
        session.receive_fragments(fragments).wf(),
{
    lemma_receiving_folds_up_to_scrolling(session, fragments);
    lemma_incremental_append_yields_one_message(session.log, fragments);
}

/// Whatever reaches a well-formed session leaves it well-formed: a key
/// event, what the chat service yields, what the model loader comes back
/// with, a new height of the window. So the cursor is always within the
/// text, the highlight within the catalog and the scroll offset within its
/// range.
pub proof fn lemma_steps_keep_session_well_formed(
    session: SessionView,
    key: KeyEvent,
    event: ServiceEventView,
    outcome: Result<Seq<ModelView>, Seq<char>>,
    height: nat,
)
    requires
        session.wf(),
    ensures
        session.handle_key(key).0.wf(),
        session.receive(event).wf(),
        session.load_models(outcome).wf(),
        session.set_viewport_height(height).wf(),
{
}

pub open spec fn option_error_view(error: Option<&SessionError>) -> Option<SessionErrorView> {
    match error {
        Some(e) => Some(e@),
        None => None,
    }
}

/// The controller: it owns the catalog, the editor and the log for the
/// whole session.
pub struct SessionController {
    mode: Mode,
    catalog: ModelCatalog,
    editor: TextEditor,
    log: ConversationLog,
    exit: bool,
    load_error: Option<SessionError>,
}

impl View for SessionController {
    type V = SessionView;

    closed spec fn view(&self) -> SessionView {
        SessionView {
            mode: self.mode,
            catalog: self.catalog@,
            editor: self.editor@,
            log: self.log@,
            exit: self.exit,
            load_error: match self.load_error {
                Some(e) => Some(e@),
                None => None,
            },
        }
    }
}

impl SessionController {
    pub open spec fn wf(&self) -> bool {
        self@.wf()
    }

    /// A session at its start: browsing, with nothing loaded, typed or said.
    pub fn new(policy: FoldPolicy) -> (session: SessionController)
        ensures
            session@ == SessionView::initial(policy),
            session.wf(),
    {
        SessionController {
            mode: Mode::Normal,
            catalog: ModelCatalog::new(),
            editor: TextEditor::new(),
            log: ConversationLog::new(policy),
            exit: false,
            load_error: None,
        }
    }

    pub fn mode(&self) -> (mode: Mode)
        ensures
            mode == self@.mode,
    {
        self.mode
    }

    pub fn catalog(&self) -> (catalog: &ModelCatalog)
        ensures
            catalog@ == self@.catalog,
    {
        &self.catalog
    }

    pub fn editor(&self) -> (editor: &TextEditor)
        ensures
            editor@ == self@.editor,
    {
        &self.editor
    }

    pub fn log(&self) -> (log: &ConversationLog)
        ensures
            log@ == self@.log,
    {
        &self.log
    }

    pub fn should_exit(&self) -> (exit: bool)
        ensures
            exit == self@.exit,
    {
        self.exit
    }

    pub fn load_error(&self) -> (error: Option<&SessionError>)
        ensures
            option_error_view(error) == self@.load_error,
    {
        self.load_error.as_ref()
    }

    /// Takes in what the model loader came back with.
    pub fn load_models(&mut self, outcome: Result<Vec<Model>, String>)
        requires
            old(self).wf(),
        ensures
            final(self)@ == old(self)@.load_models(load_outcome_view(outcome)),
            final(self).wf(),
    {
        match outcome {
            Ok(models) => {
                self.catalog.replace_all(models);
                self.load_error = None;
            },
            Err(reason) => {
                self.load_error = Some(SessionError::Load(reason));
            },
        }
    }

    /// Runs the submission of the message in the editor.
    pub fn submit(&mut self) -> (action: Action)
        requires
            old(self).wf(),
        ensures
            (final(self)@, action@) == old(self)@.submit(),
            old(self)@.editor.text.len() == 0 ==> final(self)@ == old(self)@ && action@
                == ActionView::Continue,
            final(self).wf(),
    {
        if self.editor.is_empty() {
            return Action::Continue;
        }
        match self.catalog.active_model() {
            None => Action::Continue,
            Some(model) => {
                let text = String::from_str(self.editor.content());
                let request = self.log.append_user_turn(model.name.as_str(), text);
                self.editor.clear();
                Action::Send(request)
            },
        }
    }

    /// Routes one key event and says what the caller is to do next.
    pub fn handle_key(&mut self, event: KeyEvent) -> (action: Action)
        requires
            old(self).wf(),
        ensures
            (final(self)@, action@) == old(self)@.handle_key(event),
            final(self).wf(),
    {
        match event.kind {
            KeyKind::Press => {},
            _ => {
                return Action::Continue;
            },
        }
        match self.mode {
            Mode::Normal => match event.code {
                Key::Esc => {
                    self.exit = true;
                    Action::Quit
                },
                Key::Down => {
                    self.catalog.select_next();
                    Action::Continue
                },
                Key::Up => {
                    self.catalog.select_previous();
                    Action::Continue
                },
                Key::Enter => {
                    self.catalog.confirm_selection();
                    Action::Continue
                },
                Key::Char(c) => {
                    if c == 'e' && self.catalog.active_model().is_some() {
                        self.mode = Mode::Editing;
                        Action::Continue
                    } else if c == 'r' {
                        Action::Reload
                    } else {
                        Action::Continue
                    }
                },
                _ => Action::Continue,
            },
            Mode::Editing => match event.code {
                Key::Enter => self.submit(),
                Key::Char(c) => {
                    self.editor.insert(c);
                    Action::Continue
                },
                Key::Backspace => {
                    self.editor.delete_before_cursor();
                    Action::Continue
                },
                Key::Left => {
                    self.editor.move_left();
                    Action::Continue
                },
                Key::Right => {
                    self.editor.move_right();
                    Action::Continue
                },
                Key::Up => {
                    self.log.scroll_by(-1);
                    Action::Continue
                },
                Key::Down => {
                    self.log.scroll_by(1);
                    Action::Continue
                },
                Key::Esc => {
                    self.mode = Mode::Normal;
                    Action::Continue
                },
                Key::Other => Action::Continue,
            },
        }
    }

    /// Takes in what the chat service yielded for the request in flight.
    pub fn receive(&mut self, event: ServiceEvent)
        requires
            old(self).wf(),
        ensures
            final(self)@ == old(self)@.receive(event@),
            final(self)@.mode == old(self)@.mode,
            final(self).wf(),
    {
        match event {
            ServiceEvent::Fragment(fragment) => {
                self.log.append_assistant_fragment(fragment);
                match self.log.phase() {
                    TurnPhase::Complete => {
                        self.log.scroll_to_end();
                    },
                    _ => {},
                }
            },
            ServiceEvent::TransportFailed(reason) => {
                self.log.fail_turn(SessionError::Transport(reason));
            },
            ServiceEvent::DecodeFailed(reason) => {
                self.log.fail_turn(SessionError::Decode(reason));
            },
            ServiceEvent::Ended => {
                if self.log.in_flight() {
                    self.log.fail_turn(SessionError::Transport(String::from_str(ENDED_EARLY)));
                }
            },
        }
    }

    /// Takes in a reply that the caller awaited as a whole.
    pub fn take_reply(&mut self, reply: Result<Vec<Fragment>, String>)
        requires
            old(self).wf(),
        ensures
            final(self)@ == old(self)@.take_reply(reply_view(reply)),
            final(self)@.mode == old(self)@.mode,
            final(self).wf(),
    {
        match reply {
            Ok(fragments) => {
                let mut i: usize = 0;
                while i < fragments.len()
                    invariant
                        i <= fragments.len(),
                        self.wf(),
                        self@.mode == old(self)@.mode,
                        self@ == old(self)@.receive_fragments(
                            fragments_view(fragments@).take(i as int),
                        ),
                    decreases fragments.len() - i,
                {
                    let fragment = fragments[i].clone();
                    assert(fragments_view(fragments@).take(i + 1).drop_last() =~= fragments_view(
                        fragments@,
                    ).take(i as int));
                    self.receive(ServiceEvent::Fragment(fragment));
                    i = i + 1;
                }
                assert(fragments_view(fragments@).take(i as int) =~= fragments_view(fragments@));
            },
            Err(reason) => {
                self.receive(ServiceEvent::TransportFailed(reason));
            },
        }
    }

    /// Tells the log how many lines the display shows of it now.
    pub fn set_viewport_height(&mut self, height: usize)
        requires
            old(self).wf(),
        ensures
            final(self)@ == old(self)@.set_viewport_height(height as nat),
            final(self).wf(),
    {
        self.log.set_viewport_height(height);
    }
}

} // verus!
