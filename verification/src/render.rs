//! Construction of the render model: everything a frame shows that is
//! computed from the form state. The backend that actually draws styled text
//! consumes these plain values.

use vstd::prelude::*;

use crate::state::Focus;
use crate::state::FormState;
use crate::state::Mode;
use crate::state::clone_chars;

verus! {

/// How a field panel's border is styled: unfocused, focused while
/// navigating, or focused while editing.
#[derive(Clone, Copy, PartialEq, Eq, Structural, Debug)]
pub enum PanelStyle {
    Plain,
    FocusedNavigate,
    FocusedEdit,
}

/// One line of the help block. Each hint names a key binding and what it
/// does; the drawing layer owns the exact glyphs.
#[derive(Clone, Copy, PartialEq, Eq, Structural, Debug)]
pub enum HelpHint {
    /// Escape or `q`: quit without a result.
    Quit,
    /// Up or `k`: move the focus up.
    FocusUp,
    /// Down or `j`: move the focus down.
    FocusDown,
    /// Enter, `i` or `a`: switch to Edit mode.
    EnterEdit,
    /// Escape: back to Navigate mode.
    LeaveEdit,
    /// Enter: confirm the focused field.
    Confirm,
    /// Left or `h`: reduce the mileage.
    Reduce,
    /// Right or `l`: increase the mileage.
    Increase,
}

/// The style a panel's border must show for a given focus and mode.
pub open spec fn panel_style_of(focus: Focus, mode: Mode, panel: Focus) -> PanelStyle {
    if focus == panel {
        match mode {
            Mode::Navigate => PanelStyle::FocusedNavigate,
            Mode::Edit => PanelStyle::FocusedEdit,
        }
    } else {
        PanelStyle::Plain
    }
}

/// The help lines shown for a given mode and focus: Navigate mode lists the
/// quit, navigation and edit-entry bindings; Edit mode lists the leave and
/// confirm bindings, plus the mileage bindings when that field is focused.
pub open spec fn help_hints_of(mode: Mode, focus: Focus) -> Seq<HelpHint> {
    match mode {
        Mode::Navigate => seq![
            HelpHint::Quit,
            HelpHint::FocusUp,
            HelpHint::FocusDown,
            HelpHint::EnterEdit,
        ],
        Mode::Edit => if focus == Focus::Mileage {
            seq![HelpHint::LeaveEdit, HelpHint::Confirm, HelpHint::Reduce, HelpHint::Increase]
        } else {
            seq![HelpHint::LeaveEdit, HelpHint::Confirm]
        },
    }
}

/// The key-binding column of a help line.
pub open spec fn hint_keys_of(h: HelpHint) -> Seq<char> {
    match h {
        HelpHint::Quit => "<Esc>, q: "@,
        HelpHint::FocusUp => "<Up>, k: "@,
        HelpHint::FocusDown => "<Down>, j: "@,
        HelpHint::EnterEdit => "<Enter>, i, a: "@,
        HelpHint::LeaveEdit => "<Esc>: "@,
        HelpHint::Confirm => "<Cr> (Also named Enter): "@,
        HelpHint::Reduce => "<Left>, h: "@,
        HelpHint::Increase => "<Right>, l: "@,
    }
}

/// The description column of a help line.
pub open spec fn hint_label_of(h: HelpHint) -> Seq<char> {
    match h {
        HelpHint::Quit => "quit"@,
        HelpHint::FocusUp => "up"@,
        HelpHint::FocusDown => "down"@,
        HelpHint::EnterEdit => "edit mode"@,
        HelpHint::LeaveEdit => "normal mode"@,
        HelpHint::Confirm => "confirm"@,
        HelpHint::Reduce => "reduce"@,
        HelpHint::Increase => "increase"@,
    }
}

/// The two columns of one help line: the key binding, drawn bold, and what
/// it does.
pub fn hint_text(h: HelpHint) -> (r: (&'static str, &'static str))
    ensures
        r.0@ == hint_keys_of(h),
        r.1@ == hint_label_of(h),
{
    match h {
        HelpHint::Quit => ("<Esc>, q: ", "quit"),
        HelpHint::FocusUp => ("<Up>, k: ", "up"),
        HelpHint::FocusDown => ("<Down>, j: ", "down"),
        HelpHint::EnterEdit => ("<Enter>, i, a: ", "edit mode"),
        HelpHint::LeaveEdit => ("<Esc>: ", "normal mode"),
        HelpHint::Confirm => ("<Cr> (Also named Enter): ", "confirm"),
        HelpHint::Reduce => ("<Left>, h: ", "reduce"),
        HelpHint::Increase => ("<Right>, l: ", "increase"),
    }
}

/// Whether the backend must place the terminal cursor inside a field panel:
/// only while a text field is being edited.
pub open spec fn cursor_visible(mode: Mode, focus: Focus) -> bool {
    mode == Mode::Edit && focus != Focus::Mileage
}

/// The decimal digit characters.
pub open spec fn digit_char(d: int) -> char {
    if d == 0 {
        '0'
    } else if d == 1 {
        '1'
    } else if d == 2 {
        '2'
    } else if d == 3 {
        '3'
    } else if d == 4 {
        '4'
    } else if d == 5 {
        '5'
    } else if d == 6 {
        '6'
    } else if d == 7 {
        '7'
    } else if d == 8 {
        '8'
    } else {
        '9'
    }
}

/// The fractional part of the gauge label, from the hundredths remainder:
/// nothing for a whole number, one digit when the hundredths digit is zero,
/// two digits otherwise — the shortest exact decimal.
pub open spec fn frac_chars(rem: int) -> Seq<char> {
    if rem == 0 {
        Seq::empty()
    } else if rem % 10 == 0 {
        seq!['.', digit_char(rem / 10)]
    } else {
        seq!['.', digit_char(rem / 10), digit_char(rem % 10)]
    }
}

/// The gauge label for a mileage percentage: the distance it stands for out
/// of 5 km, as `<km>/5 km` with the shortest exact decimal (one percent is
/// 0.05 km).
pub open spec fn gauge_label_of(mileage: int) -> Seq<char> {
    seq![digit_char(mileage * 5 / 100)] + frac_chars(mileage * 5 % 100) + seq![
        '/',
        '5',
        ' ',
        'k',
        'm',
    ]
}

/// Where the log panel's visible window starts: the most recent `rows`
/// messages are shown, all of them when they fit.
pub open spec fn log_start_of(len: int, rows: int) -> int {
    if len > rows {
        len - rows
    } else {
        0
    }
}

/// Everything one frame shows that depends on the form state: the help
/// lines, the three panel styles, the masked password, the gauge label, and
/// where to place the terminal cursor.
pub struct RenderModel {
    /// The help block's lines, top to bottom.
    pub help: Vec<HelpHint>,
    /// Border style of the account panel.
    pub account_style: PanelStyle,
    /// Border style of the password panel.
    pub password_style: PanelStyle,
    /// Border style of the mileage panel.
    pub mileage_style: PanelStyle,
    /// The account text, shown verbatim.
    pub account: Vec<char>,
    /// One masking character per password character; the real text is never
    /// part of the model.
    pub password_mask: Vec<char>,
    /// The gauge's percentage.
    pub mileage: u16,
    /// The gauge's textual label.
    pub gauge_label: Vec<char>,
    /// Which panel the terminal cursor sits in, if any: the focused text
    /// field while editing.
    pub cursor_panel: Option<Focus>,
    /// The cursor's offset within that panel's text.
    pub cursor: usize,
}

/// The style a panel's border must show: its field focused and being edited,
/// focused under navigation, or not focused.
pub fn panel_style(focus: Focus, mode: Mode, panel: Focus) -> (r: PanelStyle)
    ensures
        r == panel_style_of(focus, mode, panel),
{
    if focus == panel {
        match mode {
            Mode::Navigate => PanelStyle::FocusedNavigate,
            Mode::Edit => PanelStyle::FocusedEdit,
        }
    } else {
        PanelStyle::Plain
    }
}

/// The help lines for a given mode and focus.
pub fn help_hints(mode: Mode, focus: Focus) -> (r: Vec<HelpHint>)
    ensures
        r@ == help_hints_of(mode, focus),
{
    let mut out: Vec<HelpHint> = Vec::new();
    match mode {
        Mode::Navigate => {
            out.push(HelpHint::Quit);
            out.push(HelpHint::FocusUp);
            out.push(HelpHint::FocusDown);
            out.push(HelpHint::EnterEdit);
        }
        Mode::Edit => {
            out.push(HelpHint::LeaveEdit);
            out.push(HelpHint::Confirm);
            if focus == Focus::Mileage {
                out.push(HelpHint::Reduce);
                out.push(HelpHint::Increase);
            }
        }
    }
    assert(out@ =~= help_hints_of(mode, focus));
    out
}

/// One masking character per password character, whatever the password
/// holds.
pub fn password_mask(len: usize) -> (r: Vec<char>)
    ensures
        r@ == Seq::new(len as nat, |i: int| '*'),
{
    let mut out: Vec<char> = Vec::new();
    let mut i: usize = 0;
    while i < len
        invariant
            i <= len,
            out@ == Seq::new(i as nat, |j: int| '*'),
        decreases len - i,
    {
        out.push('*');
        i = i + 1;
        assert(out@ =~= Seq::new(i as nat, |j: int| '*'));
    }
    out
}

/// The decimal digit character for `d`.
fn digit(d: u16) -> (c: char)
    requires
        d <= 9,
    ensures
        c == digit_char(d as int),
{
    match d {
        0 => '0',
        1 => '1',
        2 => '2',
        3 => '3',
        4 => '4',
        5 => '5',
        6 => '6',
        7 => '7',
        8 => '8',
        _ => '9',
    }
}

/// The gauge label for a mileage percentage, e.g. `4.75/5 km` for 95.
pub fn gauge_label(mileage: u16) -> (r: Vec<char>)
    requires
        mileage <= 100,
    ensures
        r@ == gauge_label_of(mileage as int),
{
    let hundredths: u16 = mileage * 5;
    let whole: u16 = hundredths / 100;
    let rem: u16 = hundredths % 100;
    let mut out: Vec<char> = Vec::new();
    out.push(digit(whole));
    if rem != 0 {
        out.push('.');
        out.push(digit(rem / 10));
        if rem % 10 != 0 {
            out.push(digit(rem % 10));
        }
    }
    out.push('/');
    out.push('5');
    out.push(' ');
    out.push('k');
    out.push('m');
    assert(out@ =~= gauge_label_of(mileage as int));
    out
}

/// Where the log panel's visible window starts, so that only the tail of the
/// message list is shown when it exceeds the visible rows.
pub fn log_start(len: usize, rows: usize) -> (start: usize)
    ensures
        start as int == log_start_of(len as int, rows as int),
        start <= len,
        len - start <= rows,
{
    if len > rows {
        len - rows
    } else {
        0
    }
}

/// The screen position of the terminal cursor inside a field panel: one cell
/// right of and below the panel's origin, advanced by the cursor offset.
pub fn cursor_screen_pos(panel_x: u16, panel_y: u16, cursor: u16) -> (r: (u16, u16))
    requires
        panel_x + cursor + 1 <= u16::MAX,
        panel_y + 1 <= u16::MAX,
    ensures
        r.0 == panel_x + cursor + 1,
        r.1 == panel_y + 1,
{
    (panel_x + cursor + 1, panel_y + 1)
}

/// Build the whole render model for one frame from the current form state.
pub fn build_render_model(st: &FormState) -> (r: RenderModel)
    requires
        st@.wf(),
    ensures
        r.help@ == help_hints_of(st@.mode, st@.focus),
        r.account_style == panel_style_of(st@.focus, st@.mode, Focus::Account),
        r.password_style == panel_style_of(st@.focus, st@.mode, Focus::Password),
        r.mileage_style == panel_style_of(st@.focus, st@.mode, Focus::Mileage),
        r.account@ == st@.account,
        r.password_mask@ == Seq::new(st@.password.len(), |i: int| '*'),
        r.mileage as int == st@.mileage,
        r.gauge_label@ == gauge_label_of(st@.mileage),
        r.cursor_panel == (if cursor_visible(st@.mode, st@.focus) {
            Some(st@.focus)
        } else {
            Option::<Focus>::None
        }),
        r.cursor as int == st@.cursor,
{
    let focus = st.focus();
    let mode = st.mode();
    let cursor_panel = if mode == Mode::Edit && !(focus == Focus::Mileage) {
        Some(focus)
    } else {
        None
    };
    RenderModel {
        help: help_hints(mode, focus),
        account_style: panel_style(focus, mode, Focus::Account),
        password_style: panel_style(focus, mode, Focus::Password),
        mileage_style: panel_style(focus, mode, Focus::Mileage),
        account: clone_chars(st.account()),
        password_mask: password_mask(st.password().len()),
        mileage: st.mileage(),
        gauge_label: gauge_label(st.mileage()),
        cursor_panel,
        cursor: st.cursor(),
    }
}

} // verus!
