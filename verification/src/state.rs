//! The focus/edit state machine of the form.
//!
//! A [`FormState`] owns the three field values, the focus target, the input
//! mode and the cursor offset. Every accepted key press mutates it in place
//! through [`FormState::on_key`]; the caller learns from the returned
//! [`Action`] whether to keep looping, to cancel, or to hand the confirmed
//! triple out.

use vstd::prelude::*;

verus! {

/// Which of the three fields currently receives key events.
#[derive(Clone, Copy, PartialEq, Eq, Structural, Debug)]
pub enum Focus {
    Account,
    Password,
    Mileage,
}

/// Navigate moves the focus between fields; Edit alters the focused field.
#[derive(Clone, Copy, PartialEq, Eq, Structural, Debug)]
pub enum Mode {
    Navigate,
    Edit,
}

/// An abstract input symbol. `Other` stands for every key the form ignores.
#[derive(Clone, Copy, PartialEq, Eq, Structural, Debug)]
pub enum Key {
    Char(char),
    Backspace,
    Enter,
    Tab,
    Esc,
    Left,
    Right,
    Up,
    Down,
    Other,
}

/// A key event: the symbol plus the press/release discriminator. Some
/// platforms deliver both a press and a release for one keystroke; only the
/// press is actionable.
#[derive(Clone, Copy, PartialEq, Eq, Structural, Debug)]
pub struct KeyEvent {
    pub key: Key,
    pub press: bool,
}

/// What the input poll yielded: a key event, some other event kind, or
/// nothing within the timeout.
#[derive(Clone, Copy, PartialEq, Eq, Structural, Debug)]
pub enum InputEvent {
    Key(KeyEvent),
    Other,
    Timeout,
}

/// The confirmed triple, produced exactly once, on `Enter` while editing the
/// mileage field.
#[derive(Debug)]
pub struct FormResult {
    pub account: Vec<char>,
    pub password: Vec<char>,
    pub mileage: u16,
}

/// Mathematical model of a [`FormResult`].
pub struct ResultModel {
    pub account: Seq<char>,
    pub password: Seq<char>,
    pub mileage: int,
}

impl View for FormResult {
    type V = ResultModel;

    open spec fn view(&self) -> ResultModel {
        ResultModel { account: self.account@, password: self.password@, mileage: self.mileage as int }
    }
}

/// What the caller must do after a key event was handled.
#[derive(Debug)]
pub enum Action {
    /// Keep looping: the event was consumed (or ignored).
    Continue,
    /// The user asked to quit; no result is produced.
    Cancel,
    /// The user confirmed the form; the triple is final.
    Submit(FormResult),
}

/// Mathematical model of an [`Action`].
pub enum ActionModel {
    Continue,
    Cancel,
    Submit(ResultModel),
}

impl View for Action {
    type V = ActionModel;

    open spec fn view(&self) -> ActionModel {
        match self {
            Action::Continue => ActionModel::Continue,
            Action::Cancel => ActionModel::Cancel,
            Action::Submit(res) => ActionModel::Submit(res@),
        }
    }
}

/// Mathematical model of a [`FormState`].
pub struct StateModel {
    pub account: Seq<char>,
    pub password: Seq<char>,
    pub mileage: int,
    pub focus: Focus,
    pub mode: Mode,
    pub cursor: int,
}

impl StateModel {
    /// The text buffer the cursor refers to; empty for the mileage field,
    /// where the cursor is irrelevant.
    pub open spec fn focused_text(self) -> Seq<char> {
        match self.focus {
            Focus::Account => self.account,
            Focus::Password => self.password,
            Focus::Mileage => Seq::empty(),
        }
    }

    /// The state invariant: the mileage percentage is clamped to [0, 100],
    /// and while a text field is being edited the cursor lies within its
    /// buffer. (In Navigate mode the cursor is dead state — entering Edit
    /// mode always repositions it — so no bound is claimed there.)
    pub open spec fn wf(self) -> bool {
        &&& 0 <= self.mileage <= 100
        &&& 0 <= self.cursor
        &&& self.mode == Mode::Edit && self.focus != Focus::Mileage ==> self.cursor
            <= self.focused_text().len()
    }
}

/// The state every run starts from: empty buffers, full mileage, focus on
/// the account field, Navigate mode.
pub open spec fn init_model() -> StateModel {
    StateModel {
        account: Seq::empty(),
        password: Seq::empty(),
        mileage: 100,
        focus: Focus::Account,
        mode: Mode::Navigate,
        cursor: 0,
    }
}

/// Position of a focus target on the linear chain Account – Password – Mileage.
pub open spec fn focus_index(f: Focus) -> int {
    match f {
        Focus::Account => 0,
        Focus::Password => 1,
        Focus::Mileage => 2,
    }
}

/// One step toward Mileage; saturates at the end of the chain.
pub open spec fn focus_next(f: Focus) -> Focus {
    match f {
        Focus::Account => Focus::Password,
        Focus::Password => Focus::Mileage,
        Focus::Mileage => Focus::Mileage,
    }
}

/// One step toward Account; saturates at the start of the chain.
pub open spec fn focus_prev(f: Focus) -> Focus {
    match f {
        Focus::Account => Focus::Account,
        Focus::Password => Focus::Account,
        Focus::Mileage => Focus::Password,
    }
}

/// Where `Up`/`Down` (and `k`/`j`) move the focus; any other key leaves it.
pub open spec fn select_focus(f: Focus, direction: Key) -> Focus {
    match direction {
        Key::Up => focus_prev(f),
        Key::Down => focus_next(f),
        _ => f,
    }
}

/// Switching from Navigate to Edit mode: editing resumes at the tail of the
/// focused text field; for the mileage field the cursor is reset to zero.
pub open spec fn enter_edit(m: StateModel) -> StateModel {
    StateModel {
        mode: Mode::Edit,
        cursor: match m.focus {
            Focus::Account => m.account.len() as int,
            Focus::Password => m.password.len() as int,
            Focus::Mileage => 0,
        },
        ..m
    }
}

/// The state after one key press in Navigate mode.
pub open spec fn navigate_step(m: StateModel, key: Key) -> StateModel {
    match key {
        Key::Up => StateModel { focus: focus_prev(m.focus), ..m },
        Key::Down => StateModel { focus: focus_next(m.focus), ..m },
        Key::Enter => enter_edit(m),
        Key::Char(c) => if c == 'k' {
            StateModel { focus: focus_prev(m.focus), ..m }
        } else if c == 'j' {
            StateModel { focus: focus_next(m.focus), ..m }
        } else if c == 'i' || c == 'a' {
            enter_edit(m)
        } else {
            m
        },
        _ => m,
    }
}

/// Whether a key press in Navigate mode asks to quit the form.
pub open spec fn navigate_exit(key: Key) -> bool {
    key == Key::Esc || key == Key::Char('q')
}

/// One saturating decrement of the mileage percentage.
pub open spec fn mileage_dec(m: StateModel) -> StateModel {
    if m.mileage > 0 {
        StateModel { mileage: m.mileage - 1, ..m }
    } else {
        m
    }
}

/// One saturating increment of the mileage percentage.
pub open spec fn mileage_inc(m: StateModel) -> StateModel {
    if m.mileage < 100 {
        StateModel { mileage: m.mileage + 1, ..m }
    } else {
        m
    }
}

/// `Enter` and `Tab` while editing a text field: advance to the next field,
/// staying in Edit mode; moving onto the password field repositions the
/// cursor to its tail.
pub open spec fn advance_field(m: StateModel) -> StateModel {
    match m.focus {
        Focus::Account => StateModel {
            focus: Focus::Password,
            cursor: m.password.len() as int,
            ..m
        },
        Focus::Password => StateModel { focus: Focus::Mileage, ..m },
        Focus::Mileage => m,
    }
}

/// The state after one key press in Edit mode.
pub open spec fn edit_step(m: StateModel, key: Key) -> StateModel {
    match key {
        Key::Esc => StateModel { mode: Mode::Navigate, ..m },
        Key::Enter => match m.focus {
            Focus::Mileage => StateModel { mode: Mode::Navigate, ..m },
            _ => advance_field(m),
        },
        Key::Tab => advance_field(m),
        Key::Backspace => match m.focus {
            Focus::Account => if m.cursor > 0 {
                StateModel { account: m.account.remove(m.cursor - 1), cursor: m.cursor - 1, ..m }
            } else {
                m
            },
            Focus::Password => if m.cursor > 0 {
                StateModel { password: m.password.remove(m.cursor - 1), cursor: m.cursor - 1, ..m }
            } else {
                m
            },
            Focus::Mileage => m,
        },
        Key::Char(c) => match m.focus {
            Focus::Account => StateModel {
                account: m.account.insert(m.cursor, c),
                cursor: m.cursor + 1,
                ..m
            },
            Focus::Password => StateModel {
                password: m.password.insert(m.cursor, c),
                cursor: m.cursor + 1,
                ..m
            },
            Focus::Mileage => if c == 'h' {
                mileage_dec(m)
            } else if c == 'l' {
                mileage_inc(m)
            } else {
                m
            },
        },
        Key::Left => match m.focus {
            Focus::Mileage => mileage_dec(m),
            _ => if m.cursor > 0 {
                StateModel { cursor: m.cursor - 1, ..m }
            } else {
                m
            },
        },
        Key::Right => match m.focus {
            Focus::Mileage => mileage_inc(m),
            _ => if m.cursor < m.focused_text().len() {
                StateModel { cursor: m.cursor + 1, ..m }
            } else {
                m
            },
        },
        _ => m,
    }
}

/// Whether a key press in Edit mode confirms the form.
pub open spec fn edit_submits(m: StateModel, key: Key) -> bool {
    key == Key::Enter && m.focus == Focus::Mileage
}

/// The state after one key press, in either mode.
pub open spec fn step(m: StateModel, key: Key) -> StateModel {
    match m.mode {
        Mode::Navigate => navigate_step(m, key),
        Mode::Edit => edit_step(m, key),
    }
}

/// The action one key press produces, in either mode.
pub open spec fn step_action(m: StateModel, key: Key) -> ActionModel {
    match m.mode {
        Mode::Navigate => if navigate_exit(key) {
            ActionModel::Cancel
        } else {
            ActionModel::Continue
        },
        Mode::Edit => if edit_submits(m, key) {
            ActionModel::Submit(
                ResultModel { account: m.account, password: m.password, mileage: m.mileage },
            )
        } else {
            ActionModel::Continue
        },
    }
}

/// The state after one key event: a release (or any non-press kind) is inert.
pub open spec fn event_step(m: StateModel, ev: KeyEvent) -> StateModel {
    if ev.press {
        step(m, ev.key)
    } else {
        m
    }
}

/// The action one key event produces.
pub open spec fn event_action(m: StateModel, ev: KeyEvent) -> ActionModel {
    if ev.press {
        step_action(m, ev.key)
    } else {
        ActionModel::Continue
    }
}

/// The state after one poll outcome: only a key event can change anything.
pub open spec fn input_step(m: StateModel, ev: InputEvent) -> StateModel {
    match ev {
        InputEvent::Key(kev) => event_step(m, kev),
        _ => m,
    }
}

/// The action one poll outcome produces.
pub open spec fn input_action(m: StateModel, ev: InputEvent) -> ActionModel {
    match ev {
        InputEvent::Key(kev) => event_action(m, kev),
        _ => ActionModel::Continue,
    }
}

/// The form state: three field values, the focus target, the mode and the
/// cursor offset into the focused text field.
pub struct FormState {
    account: Vec<char>,
    password: Vec<char>,
    mileage: u16,
    focus: Focus,
    mode: Mode,
    cursor: usize,
}

impl View for FormState {
    type V = StateModel;

    closed spec fn view(&self) -> StateModel {
        StateModel {
            account: self.account@,
            password: self.password@,
            mileage: self.mileage as int,
            focus: self.focus,
            mode: self.mode,
            cursor: self.cursor as int,
        }
    }
}

impl FormState {
    /// A fresh form: empty buffers, mileage 100, focus on Account, Navigate mode.
    pub fn init() -> (r: FormState)
        ensures
            r@ == init_model(),
            r@.wf(),
    {
        FormState {
            account: Vec::new(),
            password: Vec::new(),
            mileage: 100,
            focus: Focus::Account,
            mode: Mode::Navigate,
            cursor: 0,
        }
    }

    /// Move the focus one step along the chain, as `Up`/`Down` ask; saturates
    /// at both ends.
    fn select(&mut self, direction: Key)
        ensures
            final(self)@ == (StateModel { focus: select_focus(old(self)@.focus, direction), ..old(self)@ }),
    {
        match direction {
            Key::Up => {
                self.focus = match self.focus {
                    Focus::Account => Focus::Account,
                    Focus::Password => Focus::Account,
                    Focus::Mileage => Focus::Password,
                };
            }
            Key::Down => {
                self.focus = match self.focus {
                    Focus::Account => Focus::Password,
                    Focus::Password => Focus::Mileage,
                    Focus::Mileage => Focus::Mileage,
                };
            }
            _ => {}
        }
    }

    /// Handle one key press in Navigate mode. Returns true when the user
    /// asked to quit (Escape or `q`); the state is then unchanged.
    pub fn handle_normal(&mut self, key: Key) -> (exit: bool)
        requires
            old(self)@.wf(),
            old(self)@.mode == Mode::Navigate,
        ensures
            final(self)@ == navigate_step(old(self)@, key),
            exit == navigate_exit(key),
            final(self)@.wf(),
    {
        match key {
            Key::Esc => true,
            Key::Up => {
                self.select(Key::Up);
                false
            }
            Key::Down => {
                self.select(Key::Down);
                false
            }
            Key::Char(c) => {
                if c == 'q' {
                    true
                } else if c == 'j' {
                    self.select(Key::Down);
                    false
                } else if c == 'k' {
                    self.select(Key::Up);
                    false
                } else if c == 'i' || c == 'a' {
                    self.begin_edit();
                    false
                } else {
                    false
                }
            }
            Key::Enter => {
                self.begin_edit();
                false
            }
            _ => false,
        }
    }

    /// Switch to Edit mode, repositioning the cursor to the tail of the
    /// focused text field (zero for the mileage field).
    fn begin_edit(&mut self)
        ensures
            final(self)@ == enter_edit(old(self)@),
    {
        self.mode = Mode::Edit;
        self.cursor = match self.focus {
            Focus::Account => self.account.len(),
            Focus::Password => self.password.len(),
            Focus::Mileage => 0,
        };
    }

    /// Handle one key press in Edit mode. Returns the confirmed triple
    /// exactly when the key is `Enter` and the focus is on the mileage
    /// field; every other press returns `None`.
    pub fn handle_editing(&mut self, key: Key) -> (r: Option<FormResult>)
        requires
            old(self)@.wf(),
            old(self)@.mode == Mode::Edit,
        ensures
            final(self)@ == edit_step(old(self)@, key),
            final(self)@.wf(),
            r is Some <==> edit_submits(old(self)@, key),
            r is Some ==> r->0@ == (ResultModel {
                account: old(self)@.account,
                password: old(self)@.password,
                mileage: old(self)@.mileage,
            }),
    {
        match key {
            Key::Esc => {
                self.mode = Mode::Navigate;
                None
            }
            Key::Enter => {
                match self.focus {
                    Focus::Mileage => {
                        self.mode = Mode::Navigate;
                        Some(
                            FormResult {
                                account: clone_chars(&self.account),
                                password: clone_chars(&self.password),
                                mileage: self.mileage,
                            },
                        )
                    }
                    _ => {
                        self.advance();
                        None
                    }
                }
            }
            Key::Tab => {
                self.advance();
                None
            }
            Key::Backspace => {
                match self.focus {
                    Focus::Account => {
                        if self.cursor > 0 {
                            self.cursor = self.cursor - 1;
                            self.account.remove(self.cursor);
                        }
                    }
                    Focus::Password => {
                        if self.cursor > 0 {
                            self.cursor = self.cursor - 1;
                            self.password.remove(self.cursor);
                        }
                    }
                    Focus::Mileage => {}
                }
                None
            }
            Key::Char(c) => {
                match self.focus {
                    Focus::Account => {
                        self.account.insert(self.cursor, c);
                        let n = self.account.len();
                        assert(self.cursor < n);
                        self.cursor = self.cursor + 1;
                    }
                    Focus::Password => {
                        self.password.insert(self.cursor, c);
                        let n = self.password.len();
                        assert(self.cursor < n);
                        self.cursor = self.cursor + 1;
                    }
                    Focus::Mileage => {
                        if c == 'h' {
                            if self.mileage > 0 {
                                self.mileage = self.mileage - 1;
                            }
                        } else if c == 'l' {
                            if self.mileage < 100 {
                                self.mileage = self.mileage + 1;
                            }
                        }
                    }
                }
                None
            }
            Key::Left => {
                match self.focus {
                    Focus::Mileage => {
                        if self.mileage > 0 {
                            self.mileage = self.mileage - 1;
                        }
                    }
                    _ => {
                        if self.cursor > 0 {
                            self.cursor = self.cursor - 1;
                        }
                    }
                }
                None
            }
            Key::Right => {
                match self.focus {
                    Focus::Mileage => {
                        if self.mileage < 100 {
                            self.mileage = self.mileage + 1;
                        }
                    }
                    Focus::Account => {
                        if self.cursor < self.account.len() {
                            self.cursor = self.cursor + 1;
                        }
                    }
                    Focus::Password => {
                        if self.cursor < self.password.len() {
                            self.cursor = self.cursor + 1;
                        }
                    }
                }
                None
            }
            _ => None,
        }
    }

    /// Advance from the focused text field to the next one, staying in Edit
    /// mode; used by `Enter` and `Tab` while editing.
    fn advance(&mut self)
        ensures
            final(self)@ == advance_field(old(self)@),
    {
        match self.focus {
            Focus::Account => {
                self.focus = Focus::Password;
                self.cursor = self.password.len();
            }
            Focus::Password => {
                self.focus = Focus::Mileage;
            }
            Focus::Mileage => {}
        }
    }

    /// Handle one key press, dispatching on the current mode.
    pub fn on_key(&mut self, key: Key) -> (r: Action)
        requires
            old(self)@.wf(),
        ensures
            final(self)@ == step(old(self)@, key),
            r@ == step_action(old(self)@, key),
            final(self)@.wf(),
    {
        match self.mode {
            Mode::Navigate => {
                if self.handle_normal(key) {
                    Action::Cancel
                } else {
                    Action::Continue
                }
            }
            Mode::Edit => {
                match self.handle_editing(key) {
                    Some(res) => Action::Submit(res),
                    None => Action::Continue,
                }
            }
        }
    }

    /// Handle one key event: a release (or any non-press kind) is inert.
    pub fn on_event(&mut self, ev: KeyEvent) -> (r: Action)
        requires
            old(self)@.wf(),
        ensures
            final(self)@ == event_step(old(self)@, ev),
            r@ == event_action(old(self)@, ev),
            final(self)@.wf(),
    {
        if ev.press {
            self.on_key(ev.key)
        } else {
            Action::Continue
        }
    }

    /// The account field's current text.
    pub fn account(&self) -> (r: &Vec<char>)
        ensures
            r@ == self@.account,
    {
        &self.account
    }

    /// The password field's current text.
    pub fn password(&self) -> (r: &Vec<char>)
        ensures
            r@ == self@.password,
    {
        &self.password
    }

    /// The mileage percentage, always in [0, 100] for a well-formed state.
    pub fn mileage(&self) -> (r: u16)
        ensures
            r as int == self@.mileage,
    {
        self.mileage
    }

    /// The field that currently receives key events.
    pub fn focus(&self) -> (r: Focus)
        ensures
            r == self@.focus,
    {
        self.focus
    }

    /// The current input mode.
    pub fn mode(&self) -> (r: Mode)
        ensures
            r == self@.mode,
    {
        self.mode
    }

    /// The cursor offset into the focused text field.
    pub fn cursor(&self) -> (r: usize)
        ensures
            r as int == self@.cursor,
    {
        self.cursor
    }

    /// Handle one poll outcome: the loop's single decision step. Timeouts
    /// and non-key events only cause a re-render.
    pub fn on_input(&mut self, ev: InputEvent) -> (r: Action)
        requires
            old(self)@.wf(),
        ensures
            final(self)@ == input_step(old(self)@, ev),
            r@ == input_action(old(self)@, ev),
            final(self)@.wf(),
    {
        match ev {
            InputEvent::Key(kev) => self.on_event(kev),
            _ => Action::Continue,
        }
    }
}

/// Whether the welcome screen may hand control on: exactly when the poll
/// yielded a key press. Release events (delivered in addition to the press
/// on some platforms) and everything else are read and discarded.
pub fn welcome_done(ev: InputEvent) -> (r: bool)
    ensures
        r == (ev matches InputEvent::Key(kev) && kev.press),
{
    match ev {
        InputEvent::Key(kev) => kev.press,
        _ => false,
    }
}

/// Copy a character buffer; the confirmed triple and the render model are
/// handed out while the form keeps its own buffers.
pub(crate) fn clone_chars(v: &Vec<char>) -> (r: Vec<char>)
    ensures
        r@ == v@,
{
    let mut out: Vec<char> = Vec::new();
    let mut i: usize = 0;
    while i < v.len()
        invariant
            i <= v@.len(),
            out@ == v@.subrange(0, i as int),
        decreases v@.len() - i,
    {
        out.push(v[i]);
        i = i + 1;
    }
    assert(out@ =~= v@);
    out
}

} // verus!
