//! Tests of the render-model construction.

use pretty_tui::render::{
    build_render_model, cursor_screen_pos, gauge_label, help_hints, hint_text, log_start,
    panel_style, password_mask, HelpHint, PanelStyle,
};
use pretty_tui::{Focus, FormState, Key, Mode};

fn text_of(v: &Vec<char>) -> String {
    v.iter().collect()
}

#[test]
fn password_renders_as_masks_only() {
    let mask = password_mask(3);
    assert_eq!(mask.len(), 3);
    assert!(mask.iter().all(|&c| c == '*'));

    // the mask depends on the length alone, never on the content
    let mut st = FormState::init();
    st.on_key(Key::Down);
    st.on_key(Key::Char('i'));
    for c in "s3c".chars() {
        st.on_key(Key::Char(c));
    }
    let model = build_render_model(&st);
    assert_eq!(text_of(&model.password_mask), "***");

    let mut st2 = FormState::init();
    st2.on_key(Key::Down);
    st2.on_key(Key::Char('i'));
    for c in "abc".chars() {
        st2.on_key(Key::Char(c));
    }
    let model2 = build_render_model(&st2);
    assert_eq!(model.password_mask, model2.password_mask);
}

#[test]
fn empty_password_has_empty_mask() {
    let mask = password_mask(0);
    assert!(mask.is_empty());
}

#[test]
fn gauge_label_exact_values() {
    assert_eq!(text_of(&gauge_label(100)), "5/5 km");
    assert_eq!(text_of(&gauge_label(95)), "4.75/5 km");
    assert_eq!(text_of(&gauge_label(90)), "4.5/5 km");
    assert_eq!(text_of(&gauge_label(50)), "2.5/5 km");
    assert_eq!(text_of(&gauge_label(1)), "0.05/5 km");
    assert_eq!(text_of(&gauge_label(0)), "0/5 km");
}

#[test]
fn panel_style_encodes_focus_and_mode() {
    assert_eq!(
        panel_style(Focus::Account, Mode::Navigate, Focus::Account),
        PanelStyle::FocusedNavigate
    );
    assert_eq!(panel_style(Focus::Account, Mode::Edit, Focus::Account), PanelStyle::FocusedEdit);
    assert_eq!(panel_style(Focus::Account, Mode::Edit, Focus::Password), PanelStyle::Plain);
    assert_eq!(panel_style(Focus::Mileage, Mode::Navigate, Focus::Password), PanelStyle::Plain);
    assert_eq!(
        panel_style(Focus::Mileage, Mode::Edit, Focus::Mileage),
        PanelStyle::FocusedEdit
    );
}

#[test]
fn help_hints_follow_mode_and_focus() {
    assert_eq!(
        help_hints(Mode::Navigate, Focus::Account),
        vec![HelpHint::Quit, HelpHint::FocusUp, HelpHint::FocusDown, HelpHint::EnterEdit]
    );
    assert_eq!(
        help_hints(Mode::Navigate, Focus::Mileage),
        vec![HelpHint::Quit, HelpHint::FocusUp, HelpHint::FocusDown, HelpHint::EnterEdit]
    );
    assert_eq!(
        help_hints(Mode::Edit, Focus::Account),
        vec![HelpHint::LeaveEdit, HelpHint::Confirm]
    );
    assert_eq!(
        help_hints(Mode::Edit, Focus::Mileage),
        vec![HelpHint::LeaveEdit, HelpHint::Confirm, HelpHint::Reduce, HelpHint::Increase]
    );
}

#[test]
fn hint_text_matches_bindings() {
    assert_eq!(hint_text(HelpHint::Quit), ("<Esc>, q: ", "quit"));
    assert_eq!(hint_text(HelpHint::FocusUp), ("<Up>, k: ", "up"));
    assert_eq!(hint_text(HelpHint::FocusDown), ("<Down>, j: ", "down"));
    assert_eq!(hint_text(HelpHint::EnterEdit), ("<Enter>, i, a: ", "edit mode"));
    assert_eq!(hint_text(HelpHint::LeaveEdit), ("<Esc>: ", "normal mode"));
    assert_eq!(hint_text(HelpHint::Confirm), ("<Cr> (Also named Enter): ", "confirm"));
    assert_eq!(hint_text(HelpHint::Reduce), ("<Left>, h: ", "reduce"));
    assert_eq!(hint_text(HelpHint::Increase), ("<Right>, l: ", "increase"));
}

#[test]
fn log_shows_only_the_tail() {
    assert_eq!(log_start(10, 4), 6);
    assert_eq!(log_start(4, 4), 0);
    assert_eq!(log_start(0, 4), 0);
    assert_eq!(log_start(3, 10), 0);
    assert_eq!(log_start(10, 0), 10);
}

#[test]
fn cursor_position_derives_from_panel_origin() {
    assert_eq!(cursor_screen_pos(4, 7, 3), (8, 8));
    assert_eq!(cursor_screen_pos(0, 0, 0), (1, 1));
}

#[test]
fn render_model_of_fresh_form() {
    let st = FormState::init();
    let model = build_render_model(&st);
    assert_eq!(model.account_style, PanelStyle::FocusedNavigate);
    assert_eq!(model.password_style, PanelStyle::Plain);
    assert_eq!(model.mileage_style, PanelStyle::Plain);
    assert_eq!(text_of(&model.account), "");
    assert!(model.password_mask.is_empty());
    assert_eq!(model.mileage, 100);
    assert_eq!(text_of(&model.gauge_label), "5/5 km");
    assert_eq!(model.cursor_panel, None);
    assert_eq!(model.cursor, 0);
}

#[test]
fn render_model_while_editing_account() {
    let mut st = FormState::init();
    st.on_key(Key::Char('i'));
    for c in "abc".chars() {
        st.on_key(Key::Char(c));
    }
    let model = build_render_model(&st);
    assert_eq!(model.account_style, PanelStyle::FocusedEdit);
    assert_eq!(text_of(&model.account), "abc");
    assert_eq!(model.cursor_panel, Some(Focus::Account));
    assert_eq!(model.cursor, 3);
    assert_eq!(
        model.help,
        vec![HelpHint::LeaveEdit, HelpHint::Confirm]
    );
}

#[test]
fn render_model_while_editing_mileage() {
    let mut st = FormState::init();
    st.on_key(Key::Down);
    st.on_key(Key::Down);
    st.on_key(Key::Char('i'));
    st.on_key(Key::Char('h'));
    let model = build_render_model(&st);
    assert_eq!(model.mileage_style, PanelStyle::FocusedEdit);
    assert_eq!(model.mileage, 99);
    assert_eq!(text_of(&model.gauge_label), "4.95/5 km");
    assert_eq!(model.cursor_panel, None);
    assert_eq!(
        model.help,
        vec![HelpHint::LeaveEdit, HelpHint::Confirm, HelpHint::Reduce, HelpHint::Increase]
    );
}
