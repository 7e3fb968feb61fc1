use kalk::forms::{InputField, Screen};
use kalk::keys::{command_for, Command, Key, KeyContext, KeyPress};
use kalk::nav::Focus;

fn press(key: Key) -> KeyPress {
    KeyPress { key, ctrl: false, shift: false }
}

fn ctrl(c: char) -> KeyPress {
    KeyPress { key: Key::Char(c), ctrl: true, shift: false }
}

fn cx(focus: Focus) -> KeyContext {
    KeyContext {
        focus,
        on_virtual_global: false,
        has_course: true,
        field: InputField::Name,
        prompt_fullscreen: false,
    }
}

#[test]
fn main_view_shortcuts() {
    let c = cx(Focus::Courses);
    assert_eq!(command_for(Screen::Main, ctrl('z'), c), Command::Undo);
    assert_eq!(command_for(Screen::Main, ctrl('y'), c), Command::Redo);
    assert_eq!(command_for(Screen::Main, press(Key::Char('q')), c), Command::Quit);
    assert_eq!(command_for(Screen::Main, press(Key::Tab), c), Command::CycleFocus);
    assert_eq!(command_for(Screen::Main, press(Key::Char('?')), c), Command::ShowHelp);
    assert_eq!(command_for(Screen::Help, press(Key::Char('?')), c), Command::CloseHelp);
    let shift_l = KeyPress { key: Key::Char('L'), ctrl: false, shift: true };
    assert_eq!(command_for(Screen::Main, shift_l, c), Command::ShowLanguagePopup);
    assert_eq!(command_for(Screen::Main, press(Key::Char('g')), c), Command::OpenGlobalGrade);
    assert_eq!(command_for(Screen::Main, press(Key::Left), c), Command::ShowHome);
    assert_eq!(
        command_for(Screen::Main, press(Key::Left), cx(Focus::Evaluations)),
        Command::FocusLeft
    );
}

#[test]
fn virtual_global_row_redirects_creation() {
    let mut c = cx(Focus::Categories);
    assert_eq!(command_for(Screen::Main, press(Key::Char('n')), c), Command::New);
    assert_eq!(command_for(Screen::Main, ctrl('n'), c), Command::BulkAdd);
    c.on_virtual_global = true;
    assert_eq!(command_for(Screen::Main, press(Key::Char('n')), c), Command::OpenGlobalGrade);
    assert_eq!(command_for(Screen::Main, press(Key::Enter), c), Command::OpenGlobalGrade);
    assert_eq!(command_for(Screen::Main, press(Key::Char('d')), c), Command::Nothing);
    assert_eq!(command_for(Screen::Main, ctrl('n'), c), Command::Nothing);
    assert_eq!(command_for(Screen::Main, ctrl('n'), cx(Focus::Courses)), Command::Nothing);
}

#[test]
fn yank_and_paste_only_on_evaluations() {
    assert_eq!(command_for(Screen::Main, press(Key::Char('y')), cx(Focus::Evaluations)), Command::Yank);
    assert_eq!(command_for(Screen::Main, press(Key::Char('p')), cx(Focus::Evaluations)), Command::Paste);
    assert_eq!(command_for(Screen::Main, press(Key::Char('y')), cx(Focus::Courses)), Command::Nothing);
}

#[test]
fn forms_filter_typed_characters() {
    let mut c = cx(Focus::Courses);
    c.field = InputField::Grade;
    let eval = Screen::EditingEvaluation { is_new: true };
    assert_eq!(command_for(eval, press(Key::Char('7')), c), Command::TypeChar('7'));
    assert_eq!(command_for(eval, press(Key::Char('x')), c), Command::Nothing);
    assert_eq!(command_for(eval, press(Key::Backspace), c), Command::DeleteChar);
    assert_eq!(command_for(eval, press(Key::Tab), c), Command::NextField);
    c.field = InputField::Name;
    assert_eq!(command_for(eval, press(Key::Char('x')), c), Command::TypeChar('x'));
}

#[test]
fn toggle_fields_cycle_instead_of_typing() {
    let mut c = cx(Focus::Categories);
    c.field = InputField::DropLowest;
    let cat = Screen::EditingCategory { is_new: false };
    assert_eq!(command_for(cat, press(Key::Char(' ')), c), Command::CycleToggle);
    assert_eq!(command_for(cat, press(Key::Left), c), Command::CycleToggleBack);
    assert_eq!(command_for(cat, press(Key::Char('x')), c), Command::Nothing);
    assert_eq!(command_for(cat, ctrl('r'), c), Command::ToggleAdvancedRules);
    assert_eq!(command_for(cat, press(Key::Char('?')), c), Command::ToggleFieldHelp);
}

#[test]
fn bulk_add_and_global_grade_popups() {
    let mut c = cx(Focus::Evaluations);
    let bulk = Screen::BulkAddEvaluations;
    assert_eq!(command_for(bulk, press(Key::Tab), c), Command::SetField(InputField::Grade));
    assert_eq!(command_for(bulk, press(Key::Char('a')), c), Command::TypeChar('a'));
    c.field = InputField::Grade;
    assert_eq!(command_for(bulk, press(Key::Tab), c), Command::SetField(InputField::Name));
    assert_eq!(command_for(bulk, press(Key::Char('a')), c), Command::Nothing);
    assert_eq!(command_for(bulk, press(Key::Char('4')), c), Command::TypeChar('4'));
    let g = Screen::EnteringGlobalGrade;
    assert_eq!(command_for(g, press(Key::Char(',')), c), Command::TypeChar(','));
    assert_eq!(command_for(g, press(Key::Char('e')), c), Command::Nothing);
}

#[test]
fn import_wizard_keys() {
    let mut c = cx(Focus::Courses);
    let p = Screen::ImportPrompt;
    assert_eq!(command_for(p, press(Key::Char('c')), c), Command::CopyPrompt);
    assert_eq!(command_for(p, press(Key::Enter), c), Command::GotoPaste);
    assert_eq!(command_for(p, press(Key::PageDown), c), Command::ScrollDown(10));
    c.prompt_fullscreen = true;
    assert_eq!(command_for(p, press(Key::Esc), c), Command::ToggleFullscreen);
    assert_eq!(command_for(p, press(Key::Char(' ')), c), Command::ScrollDown(10));
    assert_eq!(command_for(p, press(Key::Enter), c), Command::Nothing);
    assert_eq!(command_for(Screen::ImportPaste, press(Key::Char('b')), c), Command::BackToPrompt);
    assert_eq!(command_for(Screen::ImportPreview, press(Key::Enter), c), Command::Confirm);
}

#[test]
fn lists_and_confirmations() {
    let c = cx(Focus::Courses);
    assert_eq!(command_for(Screen::SelectingTemplate, press(Key::Char('j')), c), Command::MoveDown);
    assert_eq!(
        command_for(Screen::SelectingTemplate, press(Key::Char('d')), c),
        Command::RequestDeleteTemplate
    );
    assert_eq!(command_for(Screen::ConfirmDelete, press(Key::Char('y')), c), Command::Confirm);
    assert_eq!(command_for(Screen::ConfirmDelete, press(Key::Char('n')), c), Command::Cancel);
    assert_eq!(command_for(Screen::Settings, press(Key::Char('l')), c), Command::CycleToggle);
    assert_eq!(command_for(Screen::Home, press(Key::Char('q')), c), Command::Quit);
    assert_eq!(command_for(Screen::Home, press(Key::Char('K')), c), Command::MoveItemUp);
    assert_eq!(command_for(Screen::WelcomeFonts, press(Key::Char('y')), c), Command::SetFonts(true));
    assert_eq!(command_for(Screen::Settings, press(Key::Char('q')), c), Command::Nothing);
}

#[test]
fn compact_shortcut_and_no_attendance_key() {
    let c = cx(Focus::Categories);
    assert_eq!(command_for(Screen::Main, press(Key::Char('c')), c), Command::ToggleCompact);
    assert_eq!(command_for(Screen::Main, press(Key::Char('a')), c), Command::Nothing);
}

#[test]
fn escape_leaves_every_popup() {
    let c = cx(Focus::Courses);
    let esc = press(Key::Esc);
    for screen in [
        Screen::SelectingTemplate,
        Screen::EditingCourse { is_new: true },
        Screen::EditingCategory { is_new: false },
        Screen::EditingEvaluation { is_new: true },
        Screen::ConfirmDelete,
        Screen::SavingTemplate,
        Screen::SelectingLanguage,
        Screen::Settings,
        Screen::BulkAddEvaluations,
        Screen::EnteringGlobalGrade,
        Screen::ImportPaste,
        Screen::ImportPreview,
        Screen::Home,
        Screen::EditingSemester { is_new: true },
        Screen::ConfirmDeleteSemester,
        Screen::EditingAttendance,
    ] {
        assert_eq!(command_for(screen, esc, c), Command::Cancel, "{screen:?}");
    }
    assert_eq!(command_for(Screen::Help, esc, c), Command::CloseHelp);
    assert_eq!(command_for(Screen::WelcomeFonts, esc, c), Command::Back);
    let full = KeyContext { prompt_fullscreen: true, ..c };
    assert_eq!(command_for(Screen::ImportPrompt, esc, full), Command::ToggleFullscreen);
    assert_eq!(command_for(Screen::ImportPrompt, esc, c), Command::Cancel);
}
