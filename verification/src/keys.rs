use vstd::prelude::*;
use crate::forms::{spec_accepts, spec_is_numeric, spec_is_toggle, InputField, Screen};
use crate::nav::Focus;

verus! {

/// A key, as far as the application tells keys apart.
#[derive(Debug, Clone, Copy, PartialEq, Eq, Structural)]
pub enum Key {
    Char(char),
    Enter,
    Esc,
    Tab,
    Backspace,
    Left,
    Right,
    Up,
    Down,
    Home,
    End,
    PageUp,
    PageDown,
    Other,
}

/// A key press with the modifiers the application looks at.
#[derive(Debug, Clone, Copy, PartialEq, Eq, Structural)]
pub struct KeyPress {
    pub key: Key,
    pub ctrl: bool,
    pub shift: bool,
}

/// What a key press asks the application to do.
#[derive(Debug, Clone, Copy, PartialEq, Eq, Structural)]
pub enum Command {
    Nothing,
    Quit,
    Undo,
    Redo,
    ShowLanguagePopup,
    ShowSettings,
    ToggleAdvancedRules,
    ToggleFieldHelp,
    ShowHelp,
    CloseHelp,
    ShowHome,
    CycleFocus,
    FocusLeft,
    FocusRight,
    MoveUp,
    MoveDown,
    GotoFirst,
    GotoLast,
    /// Create an item in the focused panel (or the semester list).
    New,
    /// Edit the selected item.
    Edit,
    /// Open the global-exam grade entry.
    OpenGlobalGrade,
    RequestDelete,
    AutoBalance,
    SaveAsTemplate,
    Yank,
    Paste,
    BulkAdd,
    Cancel,
    Confirm,
    NextField,
    SetField(InputField),
    DeleteChar,
    TypeChar(char),
    CycleToggle,
    CycleToggleBack,
    RequestDeleteTemplate,
    CopyPrompt,
    ToggleFullscreen,
    ScrollDown(u16),
    ScrollUp(u16),
    ScrollTop,
    ScrollBottom,
    GotoPaste,
    BackToPrompt,
    BackToPaste,
    MoveItemUp,
    MoveItemDown,
    Rename,
    ToggleFonts,
    SetFonts(bool),
    Back,
    /// Switch the courses panel between its full and compact layout.
    ToggleCompact,
}

/// What the key bindings depend on besides the screen and the key.
#[derive(Debug, Clone, Copy, PartialEq, Eq, Structural)]
pub struct KeyContext {
    /// The focused panel of the main view.
    pub focus: Focus,
    /// Whether the virtual global-exam row is selected.
    pub on_virtual_global: bool,
    /// Whether a course is selected.
    pub has_course: bool,
    /// The focused form field.
    pub field: InputField,
    /// Whether the import prompt is shown full screen.
    pub prompt_fullscreen: bool,
}

/// Keys shared by every text form: Esc cancels, Tab moves on, Enter
/// confirms, Backspace deletes, and a character is typed when the field
/// takes it.
pub open spec fn spec_form_keys(key: Key, field: InputField) -> Command {
    match key {
        Key::Esc => Command::Cancel,
        Key::Tab => Command::NextField,
        Key::Enter => Command::Confirm,
        Key::Backspace => Command::DeleteChar,
        Key::Char(c) => if spec_accepts(spec_is_numeric(field), c) {
            Command::TypeChar(c)
        } else {
            Command::Nothing
        },
        _ => Command::Nothing,
    }
}

/// Keys of a form whose focused field may be a toggle: toggles cycle with
/// Space, Right, `l` (forward) and Left, `h` (backward).
pub open spec fn spec_toggle_form_keys(key: Key, field: InputField) -> Command {
    if spec_is_toggle(field) {
        match key {
            Key::Esc => Command::Cancel,
            Key::Tab => Command::NextField,
            Key::Enter => Command::Confirm,
            Key::Char(' ') | Key::Right | Key::Char('l') => Command::CycleToggle,
            Key::Left | Key::Char('h') => Command::CycleToggleBack,
            _ => Command::Nothing,
        }
    } else {
        spec_form_keys(key, field)
    }
}

/// Keys of the main three-panel view.
pub open spec fn spec_main_keys(k: KeyPress, cx: KeyContext) -> Command {
    let in_items = cx.focus == Focus::Evaluations || cx.focus == Focus::Categories;
    if k.key == Key::Char('n') && k.ctrl {
        if in_items && !cx.on_virtual_global {
            Command::BulkAdd
        } else {
            Command::Nothing
        }
    } else {
        match k.key {
            Key::Char('q') => Command::Quit,
            Key::Tab => Command::CycleFocus,
            Key::Left | Key::Char('h') => if cx.focus == Focus::Courses {
                Command::ShowHome
            } else {
                Command::FocusLeft
            },
            Key::Right | Key::Char('l') => Command::FocusRight,
            Key::Up | Key::Char('k') => Command::MoveUp,
            Key::Down | Key::Char('j') => Command::MoveDown,
            Key::Home => Command::GotoFirst,
            Key::End | Key::Char('G') => Command::GotoLast,
            Key::Char('n') => if in_items && cx.on_virtual_global {
                Command::OpenGlobalGrade
            } else {
                Command::New
            },
            Key::Enter => if in_items && cx.on_virtual_global {
                Command::OpenGlobalGrade
            } else {
                Command::Edit
            },
            Key::Char('d') => if cx.on_virtual_global {
                Command::Nothing
            } else {
                Command::RequestDelete
            },
            Key::Char('b') => if cx.has_course {
                Command::AutoBalance
            } else {
                Command::Nothing
            },
            Key::Char('t') => if cx.has_course {
                Command::SaveAsTemplate
            } else {
                Command::Nothing
            },
            Key::Char('g') => if cx.focus == Focus::Courses && cx.has_course {
                Command::OpenGlobalGrade
            } else {
                Command::Nothing
            },
            Key::Char('y') => if cx.focus == Focus::Evaluations && !cx.on_virtual_global {
                Command::Yank
            } else {
                Command::Nothing
            },
            Key::Char('p') => if cx.focus == Focus::Evaluations && !cx.on_virtual_global {
                Command::Paste
            } else {
                Command::Nothing
            },
            Key::Char('c') => Command::ToggleCompact,
            _ => Command::Nothing,
        }
    }
}

/// Keys of the list screens (templates, languages, settings, semesters):
/// Up/`k` and Down/`j`/Tab move, Enter confirms, Esc cancels.
pub open spec fn spec_list_keys(key: Key) -> Command {
    match key {
        Key::Esc => Command::Cancel,
        Key::Up | Key::Char('k') => Command::MoveUp,
        Key::Down | Key::Char('j') | Key::Tab => Command::MoveDown,
        Key::Enter => Command::Confirm,
        _ => Command::Nothing,
    }
}

/// Keys of the import prompt step.
pub open spec fn spec_prompt_keys(key: Key, fullscreen: bool) -> Command {
    if fullscreen {
        match key {
            Key::Esc | Key::Char('q') | Key::Char('f') | Key::Char('F') => Command::ToggleFullscreen,
            Key::Down | Key::Char('j') => Command::ScrollDown(1),
            Key::Up | Key::Char('k') => Command::ScrollUp(1),
            Key::PageDown | Key::Char(' ') => Command::ScrollDown(10),
            Key::PageUp => Command::ScrollUp(10),
            Key::Home | Key::Char('g') => Command::ScrollTop,
            Key::End | Key::Char('G') => Command::ScrollBottom,
            _ => Command::Nothing,
        }
    } else {
        match key {
            Key::Esc => Command::Cancel,
            Key::Char('c') | Key::Char('y') => Command::CopyPrompt,
            Key::Char('f') | Key::Char('F') => Command::ToggleFullscreen,
            Key::Down | Key::Char('j') => Command::ScrollDown(1),
            Key::Up | Key::Char('k') => Command::ScrollUp(1),
            Key::PageDown => Command::ScrollDown(10),
            Key::PageUp => Command::ScrollUp(10),
            Key::Home => Command::ScrollTop,
            Key::End => Command::ScrollBottom,
            Key::Enter => Command::GotoPaste,
            _ => Command::Nothing,
        }
    }
}

/// Keys of a screen, before the shortcuts that apply across screens.
pub open spec fn spec_screen_keys(screen: Screen, k: KeyPress, cx: KeyContext) -> Command {
    let key = k.key;
    match screen {
        Screen::Main => spec_main_keys(k, cx),
        Screen::SelectingTemplate => match key {
            Key::Char('d') => Command::RequestDeleteTemplate,
            _ => spec_list_keys(key),
        },
        Screen::EditingCourse { .. } | Screen::EditingCategory { .. }
        | Screen::EditingAttendance => spec_toggle_form_keys(key, cx.field),
        Screen::EditingEvaluation { .. } | Screen::SavingTemplate | Screen::EditingSemester {
            ..
        } => spec_form_keys(key, cx.field),
        Screen::ConfirmDelete | Screen::ConfirmDeleteTemplate | Screen::ConfirmDeleteSemester => {
            match key {
                Key::Enter | Key::Char('y') => Command::Confirm,
                Key::Esc | Key::Char('n') => Command::Cancel,
                _ => Command::Nothing,
            }
        },
        Screen::SelectingLanguage => spec_list_keys(key),
        Screen::Settings => match key {
            Key::Char(' ') | Key::Right | Key::Char('l') => Command::CycleToggle,
            Key::Left | Key::Char('h') => Command::CycleToggleBack,
            _ => spec_list_keys(key),
        },
        Screen::BulkAddEvaluations => {
            let on_name = cx.field == InputField::Name;
            match key {
                Key::Esc => Command::Cancel,
                Key::Enter => Command::Confirm,
                Key::Tab => Command::SetField(
                    if on_name {
                        InputField::Grade
                    } else {
                        InputField::Name
                    },
                ),
                Key::Backspace => Command::DeleteChar,
                Key::Char(c) => if on_name || ('0' <= c <= '9') {
                    Command::TypeChar(c)
                } else {
                    Command::Nothing
                },
                _ => Command::Nothing,
            }
        },
        Screen::EnteringGlobalGrade => match key {
            Key::Esc => Command::Cancel,
            Key::Enter => Command::Confirm,
            Key::Backspace => Command::DeleteChar,
            Key::Char(c) => if ('0' <= c <= '9') || c == '.' || c == ',' {
                Command::TypeChar(c)
            } else {
                Command::Nothing
            },
            _ => Command::Nothing,
        },
        Screen::Help => match key {
            Key::Esc | Key::Char('q') | Key::Enter => Command::CloseHelp,
            _ => Command::Nothing,
        },
        Screen::ImportPrompt => spec_prompt_keys(key, cx.prompt_fullscreen),
        Screen::ImportPaste => match key {
            Key::Esc => Command::Cancel,
            Key::Char('b') => Command::BackToPrompt,
            _ => Command::Nothing,
        },
        Screen::ImportPreview => match key {
            Key::Esc => Command::Cancel,
            Key::Char('b') => Command::BackToPaste,
            Key::Enter => Command::Confirm,
            _ => Command::Nothing,
        },
        Screen::Home => match key {
            Key::Char('q') => Command::Quit,
            Key::Char('n') => Command::New,
            Key::Char('r') => Command::Rename,
            Key::Char('d') => Command::RequestDelete,
            Key::Char('K') => Command::MoveItemUp,
            Key::Char('J') => Command::MoveItemDown,
            Key::Right | Key::Char('l') => Command::Confirm,
            _ => spec_list_keys(key),
        },
        Screen::Welcome => spec_list_keys(key),
        Screen::WelcomeFonts => match key {
            Key::Char('y') => Command::SetFonts(true),
            Key::Char('n') => Command::SetFonts(false),
            Key::Char(' ') | Key::Left | Key::Right | Key::Up | Key::Down => Command::ToggleFonts,
            Key::Enter => Command::Confirm,
            Key::Esc => Command::Back,
            _ => Command::Nothing,
        },
    }
}

/// What a key press on `screen` asks for. Shortcuts that apply across
/// screens come first: Ctrl+Z / Ctrl+Y undo and redo on the main view,
/// Shift+L and Shift+S open the language and settings popups there, Ctrl+R
/// toggles the advanced rules of the category form, and `?` toggles the
/// field help of the course and category forms and the help overlay.
pub open spec fn spec_command(screen: Screen, k: KeyPress, cx: KeyContext) -> Command {
    if screen == Screen::Main && k.ctrl && k.key == Key::Char('z') {
        Command::Undo
    } else if screen == Screen::Main && k.ctrl && k.key == Key::Char('y') {
        Command::Redo
    } else if k.key == Key::Char('L') && k.shift && screen == Screen::Main {
        Command::ShowLanguagePopup
    } else if k.key == Key::Char('S') && k.shift && screen == Screen::Main {
        Command::ShowSettings
    } else if k.key == Key::Char('r') && k.ctrl && screen is EditingCategory {
        Command::ToggleAdvancedRules
    } else if k.key == Key::Char('?') && (screen is EditingCategory || screen is EditingCourse) {
        Command::ToggleFieldHelp
    } else if k.key == Key::Char('?') && screen == Screen::Main {
        Command::ShowHelp
    } else if k.key == Key::Char('?') && screen == Screen::Help {
        Command::CloseHelp
    } else {
        spec_screen_keys(screen, k, cx)
    }
}

fn form_keys(key: Key, field: InputField) -> (c: Command)
    ensures
        c == spec_form_keys(key, field),
{
    match key {
        Key::Esc => Command::Cancel,
        Key::Tab => Command::NextField,
        Key::Enter => Command::Confirm,
        Key::Backspace => Command::DeleteChar,
        Key::Char(c) => if field.accepts(c) {
            Command::TypeChar(c)
        } else {
            Command::Nothing
        },
        _ => Command::Nothing,
    }
}

fn toggle_form_keys(key: Key, field: InputField) -> (c: Command)
    ensures
        c == spec_toggle_form_keys(key, field),
{
    if field.is_toggle() {
        match key {
            Key::Esc => Command::Cancel,
            Key::Tab => Command::NextField,
            Key::Enter => Command::Confirm,
            Key::Char(' ') | Key::Right | Key::Char('l') => Command::CycleToggle,
            Key::Left | Key::Char('h') => Command::CycleToggleBack,
            _ => Command::Nothing,
        }
    } else {
        form_keys(key, field)
    }
}

fn main_keys(k: KeyPress, cx: KeyContext) -> (c: Command)
    ensures
        c == spec_main_keys(k, cx),
{
    let in_items = cx.focus == Focus::Evaluations || cx.focus == Focus::Categories;
    if k.key == Key::Char('n') && k.ctrl {
        return if in_items && !cx.on_virtual_global {
            Command::BulkAdd
        } else {
            Command::Nothing
        };
    }
    match k.key {
        Key::Char('q') => Command::Quit,
        Key::Tab => Command::CycleFocus,
        Key::Left | Key::Char('h') => if cx.focus == Focus::Courses {
            Command::ShowHome
        } else {
            Command::FocusLeft
        },
        Key::Right | Key::Char('l') => Command::FocusRight,
        Key::Up | Key::Char('k') => Command::MoveUp,
        Key::Down | Key::Char('j') => Command::MoveDown,
        Key::Home => Command::GotoFirst,
        Key::End | Key::Char('G') => Command::GotoLast,
        Key::Char('n') => if in_items && cx.on_virtual_global {
            Command::OpenGlobalGrade
        } else {
            Command::New
        },
        Key::Enter => if in_items && cx.on_virtual_global {
            Command::OpenGlobalGrade
        } else {
            Command::Edit
        },
        Key::Char('d') => if cx.on_virtual_global {
            Command::Nothing
        } else {
            Command::RequestDelete
        },
        Key::Char('b') => if cx.has_course {
            Command::AutoBalance
        } else {
            Command::Nothing
        },
        Key::Char('t') => if cx.has_course {
            Command::SaveAsTemplate
        } else {
            Command::Nothing
        },
        Key::Char('g') => if cx.focus == Focus::Courses && cx.has_course {
            Command::OpenGlobalGrade
        } else {
            Command::Nothing
        },
        Key::Char('y') => if cx.focus == Focus::Evaluations && !cx.on_virtual_global {
            Command::Yank
        } else {
            Command::Nothing
        },
        Key::Char('p') => if cx.focus == Focus::Evaluations && !cx.on_virtual_global {
            Command::Paste
        } else {
            Command::Nothing
        },
        Key::Char('c') => Command::ToggleCompact,
        _ => Command::Nothing,
    }
}

fn list_keys(key: Key) -> (c: Command)
    ensures
        c == spec_list_keys(key),
{
    match key {
        Key::Esc => Command::Cancel,
        Key::Up | Key::Char('k') => Command::MoveUp,
        Key::Down | Key::Char('j') | Key::Tab => Command::MoveDown,
        Key::Enter => Command::Confirm,
        _ => Command::Nothing,
    }
}

fn prompt_keys(key: Key, fullscreen: bool) -> (c: Command)
    ensures
        c == spec_prompt_keys(key, fullscreen),
{
    if fullscreen {
        match key {
            Key::Esc | Key::Char('q') | Key::Char('f') | Key::Char('F') => Command::ToggleFullscreen,
            Key::Down | Key::Char('j') => Command::ScrollDown(1),
            Key::Up | Key::Char('k') => Command::ScrollUp(1),
            Key::PageDown | Key::Char(' ') => Command::ScrollDown(10),
            Key::PageUp => Command::ScrollUp(10),
            Key::Home | Key::Char('g') => Command::ScrollTop,
            Key::End | Key::Char('G') => Command::ScrollBottom,
            _ => Command::Nothing,
        }
    } else {
        match key {
            Key::Esc => Command::Cancel,
            Key::Char('c') | Key::Char('y') => Command::CopyPrompt,
            Key::Char('f') | Key::Char('F') => Command::ToggleFullscreen,
            Key::Down | Key::Char('j') => Command::ScrollDown(1),
            Key::Up | Key::Char('k') => Command::ScrollUp(1),
            Key::PageDown => Command::ScrollDown(10),
            Key::PageUp => Command::ScrollUp(10),
            Key::Home => Command::ScrollTop,
            Key::End => Command::ScrollBottom,
            Key::Enter => Command::GotoPaste,
            _ => Command::Nothing,
        }
    }
}

fn screen_keys(screen: Screen, k: KeyPress, cx: KeyContext) -> (c: Command)
    ensures
        c == spec_screen_keys(screen, k, cx),
{
    let key = k.key;
    match screen {
        Screen::Main => main_keys(k, cx),
        Screen::SelectingTemplate => match key {
            Key::Char('d') => Command::RequestDeleteTemplate,
            _ => list_keys(key),
        },
        Screen::EditingCourse { .. } | Screen::EditingCategory { .. }
        | Screen::EditingAttendance => toggle_form_keys(key, cx.field),
        Screen::EditingEvaluation { .. } | Screen::SavingTemplate | Screen::EditingSemester {
            ..
        } => form_keys(key, cx.field),
        Screen::ConfirmDelete | Screen::ConfirmDeleteTemplate | Screen::ConfirmDeleteSemester => {
            match key {
                Key::Enter | Key::Char('y') => Command::Confirm,
                Key::Esc | Key::Char('n') => Command::Cancel,
                _ => Command::Nothing,
            }
        },
        Screen::SelectingLanguage => list_keys(key),
        Screen::Settings => match key {
            Key::Char(' ') | Key::Right | Key::Char('l') => Command::CycleToggle,
            Key::Left | Key::Char('h') => Command::CycleToggleBack,
            _ => list_keys(key),
        },
        Screen::BulkAddEvaluations => {
            let on_name = cx.field == InputField::Name;
            match key {
                Key::Esc => Command::Cancel,
                Key::Enter => Command::Confirm,
                Key::Tab => Command::SetField(
                    if on_name {
                        InputField::Grade
                    } else {
                        InputField::Name
                    },
                ),
                Key::Backspace => Command::DeleteChar,
                Key::Char(c) => if on_name || ('0' <= c && c <= '9') {
                    Command::TypeChar(c)
                } else {
                    Command::Nothing
                },
                _ => Command::Nothing,
            }
        },
        Screen::EnteringGlobalGrade => match key {
            Key::Esc => Command::Cancel,
            Key::Enter => Command::Confirm,
            Key::Backspace => Command::DeleteChar,
            Key::Char(c) => if ('0' <= c && c <= '9') || c == '.' || c == ',' {
                Command::TypeChar(c)
            } else {
                Command::Nothing
            },
            _ => Command::Nothing,
        },
        Screen::Help => match key {
            Key::Esc | Key::Char('q') | Key::Enter => Command::CloseHelp,
            _ => Command::Nothing,
        },
        Screen::ImportPrompt => prompt_keys(key, cx.prompt_fullscreen),
        Screen::ImportPaste => match key {
            Key::Esc => Command::Cancel,
            Key::Char('b') => Command::BackToPrompt,
            _ => Command::Nothing,
        },
        Screen::ImportPreview => match key {
            Key::Esc => Command::Cancel,
            Key::Char('b') => Command::BackToPaste,
            Key::Enter => Command::Confirm,
            _ => Command::Nothing,
        },
        Screen::Home => match key {
            Key::Char('q') => Command::Quit,
            Key::Char('n') => Command::New,
            Key::Char('r') => Command::Rename,
            Key::Char('d') => Command::RequestDelete,
            Key::Char('K') => Command::MoveItemUp,
            Key::Char('J') => Command::MoveItemDown,
            Key::Right | Key::Char('l') => Command::Confirm,
            _ => list_keys(key),
        },
        Screen::Welcome => list_keys(key),
        Screen::WelcomeFonts => match key {
            Key::Char('y') => Command::SetFonts(true),
            Key::Char('n') => Command::SetFonts(false),
            Key::Char(' ') | Key::Left | Key::Right | Key::Up | Key::Down => Command::ToggleFonts,
            Key::Enter => Command::Confirm,
            Key::Esc => Command::Back,
            _ => Command::Nothing,
        },
    }
}

/// What a key press on `screen` asks for (see [`spec_command`]).
pub fn command_for(screen: Screen, k: KeyPress, cx: KeyContext) -> (c: Command)
    ensures
        c == spec_command(screen, k, cx),
{
    if screen == Screen::Main && k.ctrl && k.key == Key::Char('z') {
        Command::Undo
    } else if screen == Screen::Main && k.ctrl && k.key == Key::Char('y') {
        Command::Redo
    } else if k.key == Key::Char('L') && k.shift && screen == Screen::Main {
        Command::ShowLanguagePopup
    } else if k.key == Key::Char('S') && k.shift && screen == Screen::Main {
        Command::ShowSettings
    } else if k.key == Key::Char('r') && k.ctrl && matches!(screen, Screen::EditingCategory { .. }) {
        Command::ToggleAdvancedRules
    } else if k.key == Key::Char('?') && (matches!(screen, Screen::EditingCategory { .. })
        || matches!(screen, Screen::EditingCourse { .. })) {
        Command::ToggleFieldHelp
    } else if k.key == Key::Char('?') && screen == Screen::Main {
        Command::ShowHelp
    } else if k.key == Key::Char('?') && screen == Screen::Help {
        Command::CloseHelp
    } else {
        screen_keys(screen, k, cx)
    }
}

/// A typed character reaches a form only if the focused field takes it:
/// numeric fields never receive anything but digits, dots and commas, and
/// in the forms that have toggles, a toggle never receives typed text.
pub proof fn lemma_typed_text_fits_the_field(screen: Screen, k: KeyPress, cx: KeyContext, c: char)
    requires
        spec_command(screen, k, cx) == Command::TypeChar(c),
        screen is EditingCourse || screen is EditingCategory || screen is EditingEvaluation
            || screen == Screen::SavingTemplate || screen is EditingSemester || screen
            == Screen::EditingAttendance,
    ensures
        spec_accepts(spec_is_numeric(cx.field), c),
        (screen is EditingCourse || screen is EditingCategory || screen
            == Screen::EditingAttendance) ==> !spec_is_toggle(cx.field),
{
}

/// Quitting is only ever asked for from the main view or the dashboard.
pub proof fn lemma_quit_only_from_main_or_home(screen: Screen, k: KeyPress, cx: KeyContext)
    requires
        spec_command(screen, k, cx) == Command::Quit,
    ensures
        screen == Screen::Main || screen == Screen::Home,
{
}

/// Whether a command leaves the popup or wizard step it is given on.
pub open spec fn leaves(c: Command) -> bool {
    c == Command::Cancel || c == Command::Back || c == Command::CloseHelp || c
        == Command::ToggleFullscreen
}

/// Esc never traps the user: on every screen but the main view and the
/// first wizard step (which has nothing to go back to), it cancels, goes
/// back, closes the help or leaves full-screen view, whatever the modifiers.
pub proof fn lemma_escape_leaves(screen: Screen, k: KeyPress, cx: KeyContext)
    requires
        k.key == Key::Esc,
        screen != Screen::Main,
        screen != Screen::Welcome,
    ensures
        leaves(spec_command(screen, k, cx)),
{
}

/// On the main view, without Ctrl, Down and `j` move the selection down and
/// Up and `k` move it up, whatever panel has the focus; Home and End (or `G`)
/// jump to the first and last rows.
pub proof fn lemma_main_arrows_move_the_selection(k: KeyPress, cx: KeyContext)
    requires
        !k.ctrl,
    ensures
        k.key == Key::Down || k.key == Key::Char('j') ==> spec_command(Screen::Main, k, cx)
            == Command::MoveDown,
        k.key == Key::Up || k.key == Key::Char('k') ==> spec_command(Screen::Main, k, cx)
            == Command::MoveUp,
        k.key == Key::Home ==> spec_command(Screen::Main, k, cx) == Command::GotoFirst,
        k.key == Key::End || k.key == Key::Char('G') ==> spec_command(Screen::Main, k, cx)
            == Command::GotoLast,
        k.key == Key::Tab ==> spec_command(Screen::Main, k, cx) == Command::CycleFocus,
        k.key == Key::Right || k.key == Key::Char('l') ==> spec_command(Screen::Main, k, cx)
            == Command::FocusRight,
        (k.key == Key::Left || k.key == Key::Char('h')) && cx.focus != Focus::Courses
            ==> spec_command(Screen::Main, k, cx) == Command::FocusLeft,
        k.key == Key::Char('q') ==> spec_command(Screen::Main, k, cx) == Command::Quit,
{
}

/// Enter confirms every form and every confirmation popup, and Tab in a
/// form moves to another field.
pub proof fn lemma_enter_confirms_forms(screen: Screen, k: KeyPress, cx: KeyContext)
    requires
        screen is EditingCourse || screen is EditingCategory || screen is EditingEvaluation
            || screen == Screen::SavingTemplate || screen is EditingSemester || screen
            == Screen::EditingAttendance || screen == Screen::ConfirmDelete || screen
            == Screen::ConfirmDeleteTemplate || screen == Screen::ConfirmDeleteSemester || screen
            == Screen::BulkAddEvaluations || screen == Screen::EnteringGlobalGrade,
    ensures
        k.key == Key::Enter ==> spec_command(screen, k, cx) == Command::Confirm,
        k.key == Key::Tab && !(screen == Screen::ConfirmDelete || screen
            == Screen::ConfirmDeleteTemplate || screen == Screen::ConfirmDeleteSemester || screen
            == Screen::EnteringGlobalGrade || screen == Screen::BulkAddEvaluations) ==> spec_command(
            screen,
            k,
            cx,
        ) == Command::NextField,
{
}

} // verus!
