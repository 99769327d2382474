use vstd::prelude::*;
use vstd::string::StringExecFns;
use crate::event::{Action, AppEvent, KeyCode, KeyEvent};
use crate::message::{Message, MessageView};
use crate::textbuffer::{
    TextBuffer, TextView, cursor_down_step, cursor_up_step, empty_text, first_line_of, input_step,
    insert_text_step, scroll_down_step, scroll_left_step, scroll_right_step, scroll_up_step,
};

verus! {

/// The controller's current screen and interaction context. Exactly one mode
/// is active at a time; it determines which keystrokes are legal. Every
/// (mode, key) pair not named in [`key_step`] is a no-op.
#[derive(Clone, Debug, PartialEq, Eq)]
pub enum Mode {
    LoadingMessages,
    MessageTable(MessageTableMode),
    Message(usize),
    Compose(ComposeFocus),
}

/// Sub-state of the message table: browsing, or showing the outcome of the
/// latest send as a transient banner.
#[derive(Clone, Debug, PartialEq, Eq)]
pub enum MessageTableMode {
    Normal,
    MessageSent(MessageSentStatus),
}

/// Outcome of a send attempt, as shown in the table banner.
#[derive(Clone, Debug, PartialEq, Eq)]
pub enum MessageSentStatus {
    Success,
    Failed(String),
}

/// Which compose field has focus, and whether it is being edited.
#[derive(Clone, Copy, Debug, PartialEq, Eq)]
pub enum ComposeFocus {
    To(ComposeMode),
    Subject(ComposeMode),
    Message(ComposeMode),
}

/// Within a focused compose field: navigating between fields, or inserting
/// text into the focused one.
#[derive(Clone, Copy, Debug, PartialEq, Eq)]
pub enum ComposeMode {
    Normal,
    Editing,
}

/// Mathematical value of the whole controller state.
#[verifier::ext_equal]
pub ghost struct AppView {
    pub running: bool,
    pub needs_render: bool,
    pub mode: Mode,
    pub table_selected: Option<usize>,
    pub compose_to: TextView,
    pub compose_subject: TextView,
    pub compose_body: TextView,
    pub detail: TextView,
    pub current_message: MessageView,
    pub loaded: Seq<MessageView>,
    /// The reason of the latest background failure, shown until the next
    /// key-press.
    pub last_error: Option<String>,
}

impl AppView {
    /// Validity: the selection cursor is an index into the loaded list (so
    /// it is absent while the list is empty), the list fits the machine, and
    /// the text buffers are well formed.
    pub open spec fn wf(self) -> bool {
        &&& self.loaded.len() <= usize::MAX
        &&& (self.table_selected matches Some(i) ==> (i as int) < self.loaded.len())
        &&& self.compose_to.wf()
        &&& self.compose_subject.wf()
        &&& self.compose_body.wf()
        &&& self.detail.wf()
    }
}

/// The state the controller starts in: running, in the plain message table,
/// no row selected until a list arrives, everything else blank.
pub open spec fn initial_app() -> AppView {
    AppView {
        running: true,
        needs_render: true,
        mode: Mode::MessageTable(MessageTableMode::Normal),
        table_selected: None,
        compose_to: empty_text(),
        compose_subject: empty_text(),
        compose_body: empty_text(),
        detail: empty_text(),
        current_message: MessageView {
            id: 0,
            from: Seq::empty(),
            to: Seq::empty(),
            subject: Seq::empty(),
            body: Seq::empty(),
        },
        loaded: Seq::empty(),
        last_error: None,
    }
}

/// The selection index after moving forward: one past `i`, wrapping to 0 at
/// the end of a list of `len` rows.
pub open spec fn next_index(i: int, len: int) -> int {
    if i >= len - 1 {
        0
    } else {
        i + 1
    }
}

/// The selection index after moving backward: one before `i`, wrapping to the
/// last row of a list of `len` rows.
pub open spec fn previous_index(i: int, len: int) -> int {
    if i == 0 {
        if len == 0 {
            0
        } else {
            len - 1
        }
    } else {
        i - 1
    }
}

pub open spec fn next_selection(sel: Option<usize>, len: int) -> int {
    match sel {
        Some(i) => next_index(i as int, len),
        None => 0,
    }
}

pub open spec fn previous_selection(sel: Option<usize>, len: int) -> int {
    match sel {
        Some(i) => previous_index(i as int, len),
        None => 0,
    }
}

/// The compose field after `Tab`: focus advances in the cyclic order
/// To, Subject, Message, To, always entering the next field navigating.
pub open spec fn tab_focus(f: ComposeFocus) -> ComposeFocus {
    match f {
        ComposeFocus::To(_) => ComposeFocus::Subject(ComposeMode::Normal),
        ComposeFocus::Subject(_) => ComposeFocus::Message(ComposeMode::Normal),
        ComposeFocus::Message(_) => ComposeFocus::To(ComposeMode::Normal),
    }
}

/// Selection moved forward; any send-result banner is dismissed. On an
/// empty list the selection (absent, by validity) is untouched.
pub open spec fn select_next(s: AppView) -> AppView {
    AppView {
        table_selected: if s.loaded.len() == 0 {
            s.table_selected
        } else {
            Some(next_selection(s.table_selected, s.loaded.len() as int) as usize)
        },
        mode: Mode::MessageTable(MessageTableMode::Normal),
        needs_render: true,
        ..s
    }
}

/// Selection moved backward; any send-result banner is dismissed. On an
/// empty list the selection is untouched.
pub open spec fn select_previous(s: AppView) -> AppView {
    AppView {
        table_selected: if s.loaded.len() == 0 {
            s.table_selected
        } else {
            Some(previous_selection(s.table_selected, s.loaded.len() as int) as usize)
        },
        mode: Mode::MessageTable(MessageTableMode::Normal),
        ..s
    }
}

pub open spec fn to_table(s: AppView) -> AppView {
    AppView { mode: Mode::MessageTable(MessageTableMode::Normal), ..s }
}

pub open spec fn with_focus(s: AppView, f: ComposeFocus) -> AppView {
    AppView { mode: Mode::Compose(f), ..s }
}

/// Keys in the message table: `Enter` starts viewing the selected row (the
/// detail buffer is cleared eagerly and the row's body is requested from
/// the store by its id; with nothing selected — in particular on an empty
/// table — it is a silent no-op), `c` opens compose, `j`/`Down` and
/// `k`/`Up` move the selection, `q` asks to quit.
pub open spec fn table_key_step(s: AppView, key: KeyEvent) -> (AppView, Option<Action>) {
    match key.code {
        KeyCode::Enter => match s.table_selected {
            Some(i) => (
                AppView { detail: empty_text(), mode: Mode::Message(i), needs_render: true, ..s },
                Some(Action::LoadBody(s.loaded[i as int].id)),
            ),
            None => (s, None),
        },
        KeyCode::Down => (select_next(s), None),
        KeyCode::Up => (select_previous(s), None),
        KeyCode::Char(c) => if c == 'c' {
            (with_focus(s, ComposeFocus::To(ComposeMode::Normal)), None)
        } else if c == 'j' {
            (select_next(s), None)
        } else if c == 'k' {
            (select_previous(s), None)
        } else if c == 'q' {
            (s, Some(Action::Emit(AppEvent::Quit)))
        } else {
            (s, None)
        },
        _ => (s, None),
    }
}

/// Keys while viewing one message: `Esc`/`q` return to the table, the scroll
/// keys move the detail view only; the mode never changes on a scroll.
pub open spec fn detail_key_step(s: AppView, key: KeyEvent) -> (AppView, Option<Action>) {
    match key.code {
        KeyCode::Esc => (to_table(s), None),
        KeyCode::Up | KeyCode::PageUp => (AppView { detail: scroll_up_step(s.detail), ..s }, None),
        KeyCode::Down | KeyCode::PageDown => (
            AppView { detail: scroll_down_step(s.detail), ..s },
            None,
        ),
        KeyCode::Left => (AppView { detail: scroll_left_step(s.detail), ..s }, None),
        KeyCode::Right => (AppView { detail: scroll_right_step(s.detail), ..s }, None),
        KeyCode::Char(c) => if c == 'q' {
            (to_table(s), None)
        } else if c == 'k' {
            (AppView { detail: scroll_up_step(s.detail), ..s }, None)
        } else if c == 'j' {
            (AppView { detail: scroll_down_step(s.detail), ..s }, None)
        } else if c == 'h' {
            (AppView { detail: scroll_left_step(s.detail), ..s }, None)
        } else if c == 'l' {
            (AppView { detail: scroll_right_step(s.detail), ..s }, None)
        } else {
            (s, None)
        },
        _ => (s, None),
    }
}

/// Keys while composing, by focused field and edit mode. Navigating:
/// `Esc`/`q` abandon the draft, `Enter` starts editing the focused field,
/// `Tab` advances focus cyclically, and in the message field `S` submits the
/// draft while `Up`/`Down` scroll. Editing: `Esc` commits and stops editing,
/// `Enter`/`Tab` commit and advance (except in the message field, where they
/// insert), `Up`/`Down` in the message field move the cursor, and any other
/// key goes to the focused buffer.
pub open spec fn compose_key_step(s: AppView, f: ComposeFocus, key: KeyEvent) -> (
    AppView,
    Option<Action>,
) {
    match f {
        ComposeFocus::To(ComposeMode::Normal) => match key.code {
            KeyCode::Esc => (to_table(s), None),
            KeyCode::Enter => (with_focus(s, ComposeFocus::To(ComposeMode::Editing)), None),
            KeyCode::Tab => (with_focus(s, tab_focus(f)), None),
            KeyCode::Char(c) => if c == 'q' {
                (to_table(s), None)
            } else {
                (s, None)
            },
            _ => (s, None),
        },
        ComposeFocus::To(ComposeMode::Editing) => match key.code {
            KeyCode::Esc => (with_focus(s, ComposeFocus::To(ComposeMode::Normal)), None),
            KeyCode::Enter | KeyCode::Tab => (with_focus(s, tab_focus(f)), None),
            _ => (AppView { compose_to: input_step(s.compose_to, key), ..s }, None),
        },
        ComposeFocus::Subject(ComposeMode::Normal) => match key.code {
            KeyCode::Esc => (to_table(s), None),
            KeyCode::Enter => (with_focus(s, ComposeFocus::Subject(ComposeMode::Editing)), None),
            KeyCode::Tab => (with_focus(s, tab_focus(f)), None),
            KeyCode::Char(c) => if c == 'q' {
                (to_table(s), None)
            } else {
                (s, None)
            },
            _ => (s, None),
        },
        ComposeFocus::Subject(ComposeMode::Editing) => match key.code {
            KeyCode::Esc => (with_focus(s, ComposeFocus::Subject(ComposeMode::Normal)), None),
            KeyCode::Enter | KeyCode::Tab => (with_focus(s, tab_focus(f)), None),
            _ => (AppView { compose_subject: input_step(s.compose_subject, key), ..s }, None),
        },
        ComposeFocus::Message(ComposeMode::Normal) => match key.code {
            KeyCode::Esc => (to_table(s), None),
            KeyCode::Enter => (with_focus(s, ComposeFocus::Message(ComposeMode::Editing)), None),
            KeyCode::Tab => (with_focus(s, tab_focus(f)), None),
            KeyCode::Up => (AppView { compose_body: scroll_up_step(s.compose_body), ..s }, None),
            KeyCode::Down => (
                AppView { compose_body: scroll_down_step(s.compose_body), ..s },
                None,
            ),
            KeyCode::Char(c) => if c == 'q' {
                (to_table(s), None)
            } else if c == 'S' {
                (s, Some(Action::Emit(AppEvent::SendMessage)))
            } else {
                (s, None)
            },
            _ => (s, None),
        },
        ComposeFocus::Message(ComposeMode::Editing) => match key.code {
            KeyCode::Esc => (with_focus(s, ComposeFocus::Message(ComposeMode::Normal)), None),
            KeyCode::Up => (AppView { compose_body: cursor_up_step(s.compose_body), ..s }, None),
            KeyCode::Down => (
                AppView { compose_body: cursor_down_step(s.compose_body), ..s },
                None,
            ),
            _ => (AppView { compose_body: input_step(s.compose_body, key), ..s }, None),
        },
    }
}

/// The whole key transition: Control-c unconditionally asks to quit, before
/// any mode dispatch and without touching the state; every other key marks
/// the state dirty, dismisses a shown error, and is dispatched on the
/// current mode.
pub open spec fn key_step(s: AppView, key: KeyEvent) -> (AppView, Option<Action>) {
    if key.ctrl && key.code == (KeyCode::Char('c')) {
        (s, Some(Action::Emit(AppEvent::Quit)))
    } else {
        let s1 = AppView { needs_render: true, last_error: None, ..s };
        match s.mode {
            Mode::LoadingMessages => (s1, None),
            Mode::MessageTable(_) => table_key_step(s1, key),
            Mode::Message(_) => detail_key_step(s1, key),
            Mode::Compose(f) => compose_key_step(s1, f, key),
        }
    }
}

/// The index of the first message with the given id, or -1 when there is
/// none.
pub open spec fn first_index_of_id(msgs: Seq<MessageView>, id: u64) -> int
    decreases msgs.len(),
{
    if msgs.len() == 0 {
        -1
    } else if msgs[0].id == id {
        0
    } else {
        let r = first_index_of_id(msgs.drop_first(), id);
        if r < 0 {
            -1
        } else {
            r + 1
        }
    }
}

/// The text shown when viewing a message: a From/To/Subject header, a blank
/// line, then the body.
pub open spec fn header_text(m: MessageView) -> Seq<char> {
    "From: "@ + m.from + "\nTo: "@ + m.to + "\nSubject: "@ + m.subject + "\n\n"@ + m.body
}

/// The message cached for detail viewing after a body arrives for `id`: if
/// `id` is already cached it is kept as it is; otherwise the first loaded
/// message with that id, with the fetched body attached; a body for an
/// unknown id leaves the cache alone.
pub open spec fn body_loaded_current(s: AppView, id: u64, body: Seq<char>) -> MessageView {
    if id == s.current_message.id {
        s.current_message
    } else {
        let k = first_index_of_id(s.loaded, id);
        if k >= 0 {
            MessageView { body: body, ..s.loaded[k] }
        } else {
            s.current_message
        }
    }
}

/// The whole state after a body arrives: the detail cache updates as
/// [`body_loaded_current`] says, the mode switches to viewing the selected
/// row if one is selected, and the detail text for the (possibly unchanged)
/// cached message is appended to the detail buffer.
pub open spec fn body_loaded_step(s: AppView, id: u64, body: Seq<char>) -> AppView {
    let cur = body_loaded_current(s, id, body);
    let moded = match s.table_selected {
        Some(t) => AppView { mode: Mode::Message(t), needs_render: true, ..s },
        None => s,
    };
    AppView {
        current_message: cur,
        detail: insert_text_step(moded.detail, header_text(cur)),
        ..moded
    }
}

/// The selection cursor after the list changes to `len` rows: absent when
/// the list is empty; row 0 when nothing was selected; otherwise the old
/// index, clamped to the last row when the list shrank past it.
pub open spec fn clamp_selection(sel: Option<usize>, len: int) -> Option<usize> {
    if len == 0 {
        None
    } else {
        match sel {
            None => Some(0usize),
            Some(i) => if (i as int) < len {
                Some(i)
            } else {
                Some((len - 1) as usize)
            },
        }
    }
}

/// The state after the message list arrives: the cache is replaced and the
/// selection cursor is clamped into the new list.
pub open spec fn messages_loaded_step(s: AppView, msgs: Seq<MessageView>) -> AppView {
    AppView {
        loaded: msgs,
        table_selected: clamp_selection(s.table_selected, msgs.len() as int),
        ..s
    }
}

/// The mode after a send outcome arrives: a banner appears only when the
/// table is still showing; in any other mode the event is dropped and the
/// mode is unchanged.
pub open spec fn sent_mode(mode: Mode, outcome: Option<String>) -> Mode {
    match mode {
        Mode::MessageTable(_) => Mode::MessageTable(
            MessageTableMode::MessageSent(
                match outcome {
                    Some(e) => MessageSentStatus::Failed(e),
                    None => MessageSentStatus::Success,
                },
            ),
        ),
        _ => mode,
    }
}

/// The message built from the compose buffers when the draft is submitted:
/// id 0 until the store assigns one, no sender yet, the first line of the To
/// and Subject buffers, and the whole Message buffer as the body.
pub open spec fn draft_view(s: AppView) -> MessageView {
    MessageView {
        id: 0,
        from: Seq::empty(),
        to: first_line_of(s.compose_to.text),
        subject: first_line_of(s.compose_subject.text),
        body: s.compose_body.text,
    }
}

/// The state after the draft is submitted: all three compose buffers are
/// reset and the controller returns to the plain table at once, without
/// waiting for the send to finish.
pub open spec fn send_message_step(s: AppView) -> AppView {
    AppView {
        compose_to: empty_text(),
        compose_subject: empty_text(),
        compose_body: empty_text(),
        mode: Mode::MessageTable(MessageTableMode::Normal),
        ..s
    }
}

/// The mode/state controller: the single authority for interpreting
/// keystrokes, applying the results of asynchronous store work, deciding
/// when a redraw is needed and when the process stops. It owns all
/// UI-relevant state; the surrounding program only performs the [`Action`]s
/// it returns and feeds events back in.
#[derive(Debug)]
pub struct App {
    running: bool,
    needs_render: bool,
    mode: Mode,
    table_selected: Option<usize>,
    compose_to: TextBuffer,
    compose_subject: TextBuffer,
    compose_body: TextBuffer,
    detail: TextBuffer,
    current_message: Message,
    loaded_messages: Vec<Message>,
    last_error: Option<String>,
}

impl View for App {
    type V = AppView;

    closed spec fn view(&self) -> AppView {
        AppView {
            running: self.running,
            needs_render: self.needs_render,
            mode: self.mode,
            table_selected: self.table_selected,
            compose_to: self.compose_to@,
            compose_subject: self.compose_subject@,
            compose_body: self.compose_body@,
            detail: self.detail@,
            current_message: self.current_message@,
            loaded: self.loaded_messages.deep_view(),
            last_error: self.last_error,
        }
    }
}

impl Default for App {
    fn default() -> (r: Self)
        ensures
            r@ == initial_app(),
            r@.wf(),
    {
        let r = App {
            running: true,
            needs_render: true,
            mode: Mode::MessageTable(MessageTableMode::Normal),
            table_selected: None,
            compose_to: TextBuffer::new(),
            compose_subject: TextBuffer::new(),
            compose_body: TextBuffer::new(),
            detail: TextBuffer::new(),
            current_message: Message::empty(),
            loaded_messages: Vec::new(),
            last_error: None,
        };
        proof {
            assert(r@.loaded =~= Seq::<MessageView>::empty());
            assert(r@ =~= initial_app());
        }
        r
    }
}

impl App {
    pub fn new() -> (r: Self)
        ensures
            r@ == initial_app(),
            r@.wf(),
    {
        Self::default()
    }

    pub fn running(&self) -> (r: bool)
        ensures
            r == self@.running,
    {
        self.running
    }

    pub fn needs_render(&self) -> (r: bool)
        ensures
            r == self@.needs_render,
    {
        self.needs_render
    }

    pub fn mode(&self) -> (r: &Mode)
        ensures
            *r == self@.mode,
    {
        &self.mode
    }

    pub fn messages(&self) -> (r: &Vec<Message>)
        ensures
            r.deep_view() == self@.loaded,
    {
        &self.loaded_messages
    }

    /// The selected table row, if any.
    pub fn message_table_state(&self) -> (r: Option<usize>)
        ensures
            r == self@.table_selected,
    {
        self.table_selected
    }

    /// The body draft as one string.
    pub fn compose_message_text(&self) -> (r: String)
        ensures
            r@ == self@.compose_body.text,
    {
        self.compose_body.text()
    }

    pub fn compose_message_input(&self) -> (r: &TextBuffer)
        ensures
            r@ == self@.compose_body,
    {
        &self.compose_body
    }

    pub fn compose_to_input(&self) -> (r: &TextBuffer)
        ensures
            r@ == self@.compose_to,
    {
        &self.compose_to
    }

    pub fn compose_subject_input(&self) -> (r: &TextBuffer)
        ensures
            r@ == self@.compose_subject,
    {
        &self.compose_subject
    }

    pub fn message_textarea(&self) -> (r: &TextBuffer)
        ensures
            r@ == self@.detail,
    {
        &self.detail
    }

    pub fn current_message(&self) -> (r: &Message)
        ensures
            r@ == self@.current_message,
    {
        &self.current_message
    }

    /// The reason of the latest background failure, until a key dismisses
    /// it.
    pub fn last_error(&self) -> (r: &Option<String>)
        ensures
            *r == self@.last_error,
    {
        &self.last_error
    }

    /// Hook for periodic work at the tick rate; the controller has none.
    pub fn tick(&self) {
    }

    /// Interpret one key-press in the current mode, as [`key_step`] says.
    pub fn handle_key_events(&mut self, key: KeyEvent) -> (r: Option<Action>)
        requires
            old(self)@.wf(),
        ensures
            final(self)@.wf(),
            (final(self)@, r) == key_step(old(self)@, key),
    {
        if key.ctrl {
            if let KeyCode::Char(c) = key.code {
                if c == 'c' {
                    return Some(Action::Emit(AppEvent::Quit));
                }
            }
        }
        self.needs_render = true;
        self.last_error = None;
        proof {
            assert(self@ =~= (AppView { needs_render: true, last_error: None, ..old(self)@ }));
        }
        match &self.mode {
            Mode::LoadingMessages => None,
            Mode::MessageTable(_) => self.handle_table_key(key),
            Mode::Message(_) => self.handle_detail_key(key),
            Mode::Compose(focus) => {
                let f = *focus;
                self.handle_compose_key(f, key)
            },
        }
    }

    /// Apply one application-level event. Store results mutate the cached
    /// state; a submit intent builds the draft message and hands it back as
    /// the send action; a background error is recorded for display and
    /// never stops the event loop.
    pub fn handle_app_event(&mut self, event: AppEvent) -> (r: Option<Action>)
        requires
            old(self)@.wf(),
        ensures
            final(self)@.wf(),
            ({
                let s1 = AppView { needs_render: true, ..old(self)@ };
                match event {
                    AppEvent::MessagesLoaded(msgs) => final(self)@ == messages_loaded_step(
                        s1,
                        msgs.deep_view(),
                    ) && r is None,
                    AppEvent::MessageBodyLoaded(id, body) => final(self)@ == body_loaded_step(
                        s1,
                        id,
                        body@,
                    ) && r is None,
                    AppEvent::MessageSent(outcome) => final(self)@ == (AppView {
                        mode: sent_mode(s1.mode, outcome),
                        ..s1
                    }) && r is None,
                    AppEvent::SendMessage => final(self)@ == send_message_step(s1) && (match r {
                        Some(Action::SendMail(m)) => m@ == draft_view(old(self)@),
                        _ => false,
                    }),
                    AppEvent::Quit => final(self)@ == (AppView { running: false, ..s1 }) && r
                        is None,
                    AppEvent::Error(e) => final(self)@ == (AppView {
                        last_error: Some(e),
                        ..s1
                    }) && r is None,
                }
            }),
    {
        self.needs_render = true;
        proof {
            assert(self@ =~= (AppView { needs_render: true, ..old(self)@ }));
        }
        match event {
            AppEvent::MessagesLoaded(messages) => {
                self.set_loaded_messages(messages);
                None
            },
            AppEvent::MessageBodyLoaded(id, body) => {
                self.set_current_message(id, body);
                None
            },
            AppEvent::MessageSent(outcome) => {
                self.set_message_sent_status(outcome);
                None
            },
            AppEvent::SendMessage => Some(Action::SendMail(self.send_message())),
            AppEvent::Quit => {
                self.quit();
                None
            },
            AppEvent::Error(e) => {
                self.show_error(e);
                None
            },
        }
    }

    fn handle_table_key(&mut self, key: KeyEvent) -> (r: Option<Action>)
        requires
            old(self)@.wf(),
        ensures
            final(self)@.wf(),
            (final(self)@, r) == table_key_step(old(self)@, key),
    {
        match key.code {
            KeyCode::Enter => self.view_message(),
            KeyCode::Down => {
                self.next_message();
                None
            },
            KeyCode::Up => {
                self.previous_message();
                None
            },
            KeyCode::Char(c) => {
                if c == 'c' {
                    self.compose_message();
                    None
                } else if c == 'j' {
                    self.next_message();
                    None
                } else if c == 'k' {
                    self.previous_message();
                    None
                } else if c == 'q' {
                    Some(Action::Emit(AppEvent::Quit))
                } else {
                    None
                }
            },
            _ => None,
        }
    }

    fn handle_detail_key(&mut self, key: KeyEvent) -> (r: Option<Action>)
        requires
            old(self)@.wf(),
        ensures
            final(self)@.wf(),
            (final(self)@, r) == detail_key_step(old(self)@, key),
    {
        match key.code {
            KeyCode::Esc => {
                self.mode = Mode::MessageTable(MessageTableMode::Normal);
            },
            KeyCode::Up | KeyCode::PageUp => self.detail.scroll_up(),
            KeyCode::Down | KeyCode::PageDown => self.detail.scroll_down(),
            KeyCode::Left => self.detail.scroll_left(),
            KeyCode::Right => self.detail.scroll_right(),
            KeyCode::Char(c) => {
                if c == 'q' {
                    self.mode = Mode::MessageTable(MessageTableMode::Normal);
                } else if c == 'k' {
                    self.detail.scroll_up();
                } else if c == 'j' {
                    self.detail.scroll_down();
                } else if c == 'h' {
                    self.detail.scroll_left();
                } else if c == 'l' {
                    self.detail.scroll_right();
                }
            },
            _ => {},
        }
        None
    }

    fn handle_compose_key(&mut self, f: ComposeFocus, key: KeyEvent) -> (r: Option<Action>)
        requires
            old(self)@.wf(),
        ensures
            final(self)@.wf(),
            (final(self)@, r) == compose_key_step(old(self)@, f, key),
    {
        match f {
            ComposeFocus::To(ComposeMode::Normal) => {
                match key.code {
                    KeyCode::Esc => self.mode = Mode::MessageTable(MessageTableMode::Normal),
                    KeyCode::Enter => self.mode = Mode::Compose(
                        ComposeFocus::To(ComposeMode::Editing),
                    ),
                    KeyCode::Tab => self.mode = Mode::Compose(
                        ComposeFocus::Subject(ComposeMode::Normal),
                    ),
                    KeyCode::Char(c) => {
                        if c == 'q' {
                            self.mode = Mode::MessageTable(MessageTableMode::Normal);
                        }
                    },
                    _ => {},
                }
                None
            },
            ComposeFocus::To(ComposeMode::Editing) => {
                match key.code {
                    KeyCode::Esc => self.mode = Mode::Compose(
                        ComposeFocus::To(ComposeMode::Normal),
                    ),
                    KeyCode::Enter | KeyCode::Tab => self.mode = Mode::Compose(
                        ComposeFocus::Subject(ComposeMode::Normal),
                    ),
                    _ => self.compose_to.input(key),
                }
                None
            },
            ComposeFocus::Subject(ComposeMode::Normal) => {
                match key.code {
                    KeyCode::Esc => self.mode = Mode::MessageTable(MessageTableMode::Normal),
                    KeyCode::Enter => self.mode = Mode::Compose(
                        ComposeFocus::Subject(ComposeMode::Editing),
                    ),
                    KeyCode::Tab => self.mode = Mode::Compose(
                        ComposeFocus::Message(ComposeMode::Normal),
                    ),
                    KeyCode::Char(c) => {
                        if c == 'q' {
                            self.mode = Mode::MessageTable(MessageTableMode::Normal);
                        }
                    },
                    _ => {},
                }
                None
            },
            ComposeFocus::Subject(ComposeMode::Editing) => {
                match key.code {
                    KeyCode::Esc => self.mode = Mode::Compose(
                        ComposeFocus::Subject(ComposeMode::Normal),
                    ),
                    KeyCode::Enter | KeyCode::Tab => self.mode = Mode::Compose(
                        ComposeFocus::Message(ComposeMode::Normal),
                    ),
                    _ => self.compose_subject.input(key),
                }
                None
            },
            ComposeFocus::Message(ComposeMode::Normal) => {
                match key.code {
                    KeyCode::Esc => {
                        self.mode = Mode::MessageTable(MessageTableMode::Normal);
                        None
                    },
                    KeyCode::Enter => {
                        self.mode = Mode::Compose(ComposeFocus::Message(ComposeMode::Editing));
                        None
                    },
                    KeyCode::Tab => {
                        self.mode = Mode::Compose(ComposeFocus::To(ComposeMode::Normal));
                        None
                    },
                    KeyCode::Up => {
                        self.compose_body.scroll_up();
                        None
                    },
                    KeyCode::Down => {
                        self.compose_body.scroll_down();
                        None
                    },
                    KeyCode::Char(c) => {
                        if c == 'q' {
                            self.mode = Mode::MessageTable(MessageTableMode::Normal);
                            None
                        } else if c == 'S' {
                            Some(Action::Emit(AppEvent::SendMessage))
                        } else {
                            None
                        }
                    },
                    _ => None,
                }
            },
            ComposeFocus::Message(ComposeMode::Editing) => {
                match key.code {
                    KeyCode::Esc => self.mode = Mode::Compose(
                        ComposeFocus::Message(ComposeMode::Normal),
                    ),
                    KeyCode::Up => self.compose_body.cursor_up(),
                    KeyCode::Down => self.compose_body.cursor_down(),
                    _ => self.compose_body.input(key),
                }
                None
            },
        }
    }

    /// Begin viewing the selected row: clear the detail buffer eagerly so a
    /// stale scroll position is never shown, switch to the detail mode, and
    /// ask the store for the row's body by its id. With nothing selected
    /// this is a silent no-op.
    fn view_message(&mut self) -> (r: Option<Action>)
        requires
            old(self)@.wf(),
        ensures
            final(self)@.wf(),
            (final(self)@, r) == (match old(self)@.table_selected {
                Some(i) => (
                    AppView {
                        detail: empty_text(),
                        mode: Mode::Message(i),
                        needs_render: true,
                        ..old(self)@
                    },
                    Some(Action::LoadBody(old(self)@.loaded[i as int].id)),
                ),
                None => (old(self)@, None),
            }),
    {
        match self.table_selected {
            Some(i) => {
                self.detail = TextBuffer::new();
                let message_id = self.loaded_messages[i].id();
                self.mode = Mode::Message(i);
                self.needs_render = true;
                Some(Action::LoadBody(message_id))
            },
            None => None,
        }
    }

    /// Move the selection one row forward, wrapping at the end; any
    /// send-result banner is dismissed. On an empty list the (absent)
    /// selection stays put.
    pub fn next_message(&mut self)
        requires
            old(self)@.wf(),
        ensures
            final(self)@.wf(),
            final(self)@ == select_next(old(self)@),
    {
        let len = self.loaded_messages.len();
        if len > 0 {
            let i: usize = match self.table_selected {
                Some(i) => if i >= len - 1 {
                    0
                } else {
                    i + 1
                },
                None => 0,
            };
            self.table_selected = Some(i);
        }
        self.mode = Mode::MessageTable(MessageTableMode::Normal);
        self.needs_render = true;
    }

    /// Move the selection one row backward, wrapping at the start; any
    /// send-result banner is dismissed. On an empty list the (absent)
    /// selection stays put.
    pub fn previous_message(&mut self)
        requires
            old(self)@.wf(),
        ensures
            final(self)@.wf(),
            final(self)@ == select_previous(old(self)@),
    {
        let len = self.loaded_messages.len();
        if len > 0 {
            let i: usize = match self.table_selected {
                Some(i) => if i == 0 {
                    len - 1
                } else {
                    i - 1
                },
                None => 0,
            };
            self.table_selected = Some(i);
        }
        self.mode = Mode::MessageTable(MessageTableMode::Normal);
    }

    fn compose_message(&mut self)
        ensures
            final(self)@ == with_focus(old(self)@, ComposeFocus::To(ComposeMode::Normal)),
    {
        self.mode = Mode::Compose(ComposeFocus::To(ComposeMode::Normal));
    }

    /// Stop the event loop; handling `AppEvent::Quit` is the sole way the
    /// running flag ever goes false.
    fn quit(&mut self)
        ensures
            final(self)@ == (AppView { running: false, ..old(self)@ }),
    {
        self.running = false;
    }

    /// The first loaded message with the given id, if any.
    fn find_message_index(&self, id: u64) -> (r: Option<usize>)
        ensures
            match r {
                Some(k) => k < self@.loaded.len() && self@.loaded[k as int].id == id && (forall|
                    j: int,
                |
                    0 <= j < k ==> self@.loaded[j].id != id),
                None => forall|j: int| 0 <= j < self@.loaded.len() ==> self@.loaded[j].id != id,
            },
    {
        let n = self.loaded_messages.len();
        let mut k: usize = 0;
        while k < n
            invariant
                k <= n,
                n == self@.loaded.len(),
                forall|j: int| 0 <= j < k ==> self@.loaded[j].id != id,
            decreases n - k,
        {
            if self.loaded_messages[k].id() == id {
                return Some(k);
            }
            k = k + 1;
        }
        None
    }

    /// Apply a fetched body, as [`body_loaded_step`] says.
    fn set_current_message(&mut self, id: u64, body: String)
        requires
            old(self)@.wf(),
        ensures
            final(self)@.wf(),
            final(self)@ == body_loaded_step(old(self)@, id, body@),
    {
        if id != self.current_message.id() {
            match self.find_message_index(id) {
                Some(k) => {
                    proof {
                        lemma_first_index_of_id_found(old(self)@.loaded, id, k as int);
                    }
                    let mut m = self.loaded_messages[k].clone();
                    m.set_body(body);
                    self.current_message = m;
                },
                None => {
                    proof {
                        lemma_first_index_of_id_none(old(self)@.loaded, id);
                    }
                },
            }
        }
        proof {
            assert(self@.current_message =~= body_loaded_current(old(self)@, id, body@));
        }
        match self.table_selected {
            Some(t) => {
                self.mode = Mode::Message(t);
                self.needs_render = true;
            },
            None => {},
        }
        let mut h = String::new();
        h.append("From: ");
        h.append(self.current_message.from());
        h.append("\nTo: ");
        h.append(self.current_message.to());
        h.append("\nSubject: ");
        h.append(self.current_message.subject());
        h.append("\n\n");
        h.append(self.current_message.body());
        proof {
            assert(h@ =~= header_text(self@.current_message));
        }
        self.detail.insert_str(h.as_str());
        proof {
            assert(self@ =~= body_loaded_step(old(self)@, id, body@));
        }
    }

    /// Replace the message cache and clamp the selection into the new list,
    /// as [`messages_loaded_step`] says.
    fn set_loaded_messages(&mut self, messages: Vec<Message>)
        requires
            old(self)@.wf(),
        ensures
            final(self)@.wf(),
            final(self)@ == messages_loaded_step(old(self)@, messages.deep_view()),
    {
        self.loaded_messages = messages;
        let len = self.loaded_messages.len();
        if len == 0 {
            self.table_selected = None;
        } else {
            match self.table_selected {
                None => self.table_selected = Some(0),
                Some(i) => if i >= len {
                    self.table_selected = Some(len - 1);
                },
            }
        }
    }

    /// Record a background failure for display; the event loop carries on,
    /// and the next key-press dismisses the message.
    fn show_error(&mut self, error_message: String)
        ensures
            final(self)@ == (AppView { last_error: Some(error_message), ..old(self)@ }),
    {
        self.last_error = Some(error_message);
    }

    /// Record a send outcome in the table banner, as [`sent_mode`] says; the
    /// outcome is dropped when the user has already navigated away from the
    /// table.
    fn set_message_sent_status(&mut self, status: Option<String>)
        ensures
            final(self)@ == (AppView { mode: sent_mode(old(self)@.mode, status), ..old(self)@ }),
    {
        let sent_status = match status {
            Some(s) => MessageSentStatus::Failed(s),
            None => MessageSentStatus::Success,
        };
        let table_mode = MessageTableMode::MessageSent(sent_status);
        let app_mode = Mode::MessageTable(table_mode);
        if matches!(self.mode, Mode::MessageTable(_)) {
            self.mode = app_mode;
        }
    }

    /// Build the draft message from the compose buffers, reset them, and
    /// return to the plain table at once; the send outcome arrives later as
    /// `AppEvent::MessageSent`.
    fn send_message(&mut self) -> (m: Message)
        requires
            old(self)@.wf(),
        ensures
            final(self)@.wf(),
            final(self)@ == send_message_step(old(self)@),
            m@ == draft_view(old(self)@),
    {
        let mut message = Message::empty();
        message.set_to(self.compose_to.first_line());
        message.set_subject(self.compose_subject.first_line());
        message.set_body(self.compose_body.text());
        self.compose_to = TextBuffer::new();
        self.compose_subject = TextBuffer::new();
        self.compose_body = TextBuffer::new();
        self.mode = Mode::MessageTable(MessageTableMode::Normal);
        message
    }
}

/// When a message with the wanted id stands at `k` and none does before it,
/// `k` is the first index with that id.
pub proof fn lemma_first_index_of_id_found(msgs: Seq<MessageView>, id: u64, k: int)
    requires
        0 <= k < msgs.len(),
        msgs[k].id == id,
        forall|j: int| 0 <= j < k ==> msgs[j].id != id,
    ensures
        first_index_of_id(msgs, id) == k,
    decreases k,
{
    if k > 0 {
        lemma_first_index_of_id_found(msgs.drop_first(), id, k - 1);
    }
}

/// When no loaded message has the wanted id, the first index is -1.
pub proof fn lemma_first_index_of_id_none(msgs: Seq<MessageView>, id: u64)
    requires
        forall|j: int| 0 <= j < msgs.len() ==> msgs[j].id != id,
    ensures
        first_index_of_id(msgs, id) == -1,
    decreases msgs.len(),
{
    if msgs.len() > 0 {
        lemma_first_index_of_id_none(msgs.drop_first(), id);
    }
}

} // verus!
