//! Key handling: matching key presses against configured key bindings and
//! turning key presses in input modes into actions.
use vstd::prelude::*;
use vstd::string::*;
use crate::ids::AgentId;
use crate::action::{Action, ActionView, InputMode};
use crate::agent::texts;
use crate::text::str_eq;

verus! {

/// A key, as far as the key handlers tell keys apart.
#[derive(Debug, Clone, Copy, PartialEq, Eq, Structural)]
pub enum KeyCode {
    Char(char),
    Up,
    Down,
    Left,
    Right,
    Enter,
    Backspace,
    Tab,
    Esc,
    Delete,
    Home,
    End,
    PageUp,
    PageDown,
    BackTab,
    F(u8),
    Other,
}

/// A key press with its modifier keys.
#[derive(Debug, Clone, Copy, PartialEq, Eq, Structural)]
pub struct KeyInput {
    pub code: KeyCode,
    pub ctrl: bool,
    pub shift: bool,
    pub alt: bool,
}

/// A configured key binding: a key name (or a character) and modifier names.
#[derive(Debug)]
pub struct Keybind {
    pub key: String,
    pub modifiers: Vec<String>,
}

/// The ASCII lowercase of a character; other characters stay as they are.
pub open spec fn ascii_lower(c: char) -> char {
    if 'A' <= c <= 'Z' {
        ((c as u32) + 32) as char
    } else {
        c
    }
}

/// Whether a character is an ASCII letter.
pub open spec fn is_ascii_letter(c: char) -> bool {
    ('a' <= c <= 'z') || ('A' <= c <= 'Z')
}

/// The ASCII lowercase of a character: `A`..`Z` become `a`..`z`, every
/// other character stays as it is.
pub(crate) fn to_ascii_lowercase(c: char) -> (r: char)
    ensures
        r == ascii_lower(c),
{
    if 'A' <= c && c <= 'Z' {
        let b: u8 = c as u8;
        assert(b as u32 == c as u32);
        (b + 32) as char
    } else {
        c
    }
}

/// The key that a named key binding stands for, if the name is one of the named keys.
pub open spec fn named_key(name: Seq<char>) -> Option<KeyCode> {
    if name == "Up"@ { Some(KeyCode::Up) }
    else if name == "Down"@ { Some(KeyCode::Down) }
    else if name == "Left"@ { Some(KeyCode::Left) }
    else if name == "Right"@ { Some(KeyCode::Right) }
    else if name == "Enter"@ { Some(KeyCode::Enter) }
    else if name == "Backspace"@ { Some(KeyCode::Backspace) }
    else if name == "Tab"@ { Some(KeyCode::Tab) }
    else if name == "Esc"@ { Some(KeyCode::Esc) }
    else if name == "Delete"@ { Some(KeyCode::Delete) }
    else if name == "Home"@ { Some(KeyCode::Home) }
    else if name == "End"@ { Some(KeyCode::End) }
    else if name == "PageUp"@ { Some(KeyCode::PageUp) }
    else if name == "PageDown"@ { Some(KeyCode::PageDown) }
    else { None }
}

/// Whether a key press matches a binding: Control and Alt exactly as the
/// binding lists them; a named key by its code; otherwise the binding's first
/// character, a letter compared without case and with Shift exactly as
/// listed, any other character compared as it is.
pub open spec fn keybind_matches(key: KeyInput, bind_key: Seq<char>, modifiers: Seq<Seq<char>>) -> bool {
    let expected_ctrl = modifiers.contains("Control"@);
    let expected_shift = modifiers.contains("Shift"@);
    let expected_alt = modifiers.contains("Alt"@);
    if key.ctrl != expected_ctrl || key.alt != expected_alt {
        false
    } else {
        match named_key(bind_key) {
            Some(code) => key.code == code,
            None => {
                if bind_key.len() == 0 {
                    false
                } else {
                    let ch = bind_key[0];
                    match key.code {
                        KeyCode::Char(input) => {
                            if is_ascii_letter(ch) {
                                ascii_lower(ch) == ascii_lower(input) && key.shift == expected_shift
                            } else {
                                ch == input
                            }
                        },
                        _ => false,
                    }
                }
            },
        }
    }
}

fn any_named(names: &Vec<String>, name: &str) -> (r: bool)
    ensures
        r == texts(names@).contains(name@),
{
    let ghost v = texts(names@);
    let mut k: usize = 0;
    while k < names.len()
        invariant
            k <= names@.len(),
            v == texts(names@),
            forall|j: int| 0 <= j < k ==> v[j] != name@,
        decreases names.len() - k,
    {
        if str_eq(names[k].as_str(), name) {
            assert(v[k as int] == name@);
            return true;
        }
        k = k + 1;
    }
    assert(!v.contains(name@)) by {
        if v.contains(name@) {
            let j = choose|j: int| 0 <= j < v.len() && v[j] == name@;
        }
    }
    false
}

/// The code of a named key.
fn named_key_code(name: &str) -> (r: Option<KeyCode>)
    ensures
        r == named_key(name@),
{
    if str_eq(name, "Up") { Some(KeyCode::Up) }
    else if str_eq(name, "Down") { Some(KeyCode::Down) }
    else if str_eq(name, "Left") { Some(KeyCode::Left) }
    else if str_eq(name, "Right") { Some(KeyCode::Right) }
    else if str_eq(name, "Enter") { Some(KeyCode::Enter) }
    else if str_eq(name, "Backspace") { Some(KeyCode::Backspace) }
    else if str_eq(name, "Tab") { Some(KeyCode::Tab) }
    else if str_eq(name, "Esc") { Some(KeyCode::Esc) }
    else if str_eq(name, "Delete") { Some(KeyCode::Delete) }
    else if str_eq(name, "Home") { Some(KeyCode::Home) }
    else if str_eq(name, "End") { Some(KeyCode::End) }
    else if str_eq(name, "PageUp") { Some(KeyCode::PageUp) }
    else if str_eq(name, "PageDown") { Some(KeyCode::PageDown) }
    else { None }
}

/// Whether a key press matches a configured key binding.
pub fn matches_keybind(key: KeyInput, keybind: &Keybind) -> (r: bool)
    ensures
        r == keybind_matches(key, keybind.key@, texts(keybind.modifiers@)),
{
    let expected_ctrl = any_named(&keybind.modifiers, "Control");
    let expected_shift = any_named(&keybind.modifiers, "Shift");
    let expected_alt = any_named(&keybind.modifiers, "Alt");
    if key.ctrl != expected_ctrl || key.alt != expected_alt {
        return false;
    }
    let k = keybind.key.as_str();
    match named_key_code(k) {
        Some(code) => key.code == code,
        None => {
            if k.unicode_len() == 0 {
                false
            } else {
                let ch = k.get_char(0);
                match key.code {
                    KeyCode::Char(input) => {
                        let letter = ('a' <= ch && ch <= 'z') || ('A' <= ch && ch <= 'Z');
                        if letter {
                            to_ascii_lowercase(ch) == to_ascii_lowercase(input) && key.shift == expected_shift
                        } else {
                            ch == input
                        }
                    },
                    _ => false,
                }
            }
        },
    }
}

} // verus!

verus! {

/// What the input-mode key handler reads of the application state.
#[derive(Debug)]
pub struct InputState {
    pub input_mode: Option<InputMode>,
    pub selected_agent_id: Option<AgentId>,
    pub task_list_filter_open: bool,
    pub task_list_status_options: Vec<String>,
    pub task_list_filter_selected: usize,
    pub input_buffer: String,
}

/// Whether the key is the character `c` in either case.
pub open spec fn is_char_either_case(key: KeyCode, lower: char, upper: char) -> bool {
    key == KeyCode::Char(lower) || key == KeyCode::Char(upper)
}

/// The action for a yes/no confirmation of deleting the selected agent:
/// yes does `yes(id)`, no deletes the agent only, Esc leaves the mode.
pub open spec fn confirm_delete_action(
    key: KeyCode,
    selected: Option<AgentId>,
    yes: spec_fn(AgentId) -> ActionView,
) -> Option<ActionView> {
    if is_char_either_case(key, 'y', 'Y') {
        match selected {
            Some(id) => Some(yes(id)),
            None => None,
        }
    } else if is_char_either_case(key, 'n', 'N') {
        match selected {
            Some(id) => Some(ActionView::DeleteAgent { id }),
            None => None,
        }
    } else if key == KeyCode::Esc {
        Some(ActionView::ExitInputMode)
    } else {
        None
    }
}

/// The action for a key press in an input mode.
pub open spec fn input_mode_action(
    key: KeyCode,
    mode: Option<InputMode>,
    selected: Option<AgentId>,
    filter_open: bool,
    status_options: Seq<Seq<char>>,
    filter_selected: int,
    buffer: Seq<char>,
) -> Option<ActionView> {
    if mode == Some(InputMode::ConfirmDeleteTask) {
        confirm_delete_action(key, selected, |id: AgentId| ActionView::DeleteAgentAndCompleteTask { id })
    } else if mode == Some(InputMode::ConfirmDeleteAsana) {
        confirm_delete_action(key, selected, |id: AgentId| ActionView::DeleteAgentAndCompleteAsana { id })
    } else if mode == Some(InputMode::BrowseTasks) {
        if filter_open {
            if key == KeyCode::Char('j') || key == KeyCode::Down {
                Some(ActionView::TaskListFilterNext)
            } else if key == KeyCode::Char('k') || key == KeyCode::Up {
                Some(ActionView::TaskListFilterPrev)
            } else if key == KeyCode::Enter || key == KeyCode::Char(' ') {
                if 0 <= filter_selected < status_options.len() {
                    Some(ActionView::ToggleTaskStatusFilter { status_name: status_options[filter_selected] })
                } else {
                    None
                }
            } else if key == KeyCode::Char('f') || key == KeyCode::Esc {
                Some(ActionView::ToggleTaskListFilter)
            } else {
                None
            }
        } else if key == KeyCode::Char('j') || key == KeyCode::Down {
            Some(ActionView::SelectTaskNext)
        } else if key == KeyCode::Char('k') || key == KeyCode::Up {
            Some(ActionView::SelectTaskPrev)
        } else if key == KeyCode::Char('a') {
            Some(ActionView::AssignSelectedTaskToAgent)
        } else if key == KeyCode::Char('s') {
            Some(ActionView::ToggleSubtaskStatus)
        } else if key == KeyCode::Char('r') {
            Some(ActionView::RefreshTaskList)
        } else if key == KeyCode::Char('f') {
            Some(ActionView::ToggleTaskListFilter)
        } else if key == KeyCode::Enter {
            Some(ActionView::CreateAgentFromSelectedTask)
        } else if key == KeyCode::Left || key == KeyCode::Right {
            Some(ActionView::ToggleTaskExpand)
        } else if key == KeyCode::Esc {
            Some(ActionView::ExitInputMode)
        } else {
            None
        }
    } else if mode == Some(InputMode::SelectTaskStatus) {
        if key == KeyCode::Char('j') || key == KeyCode::Down {
            Some(ActionView::TaskStatusDropdownNext)
        } else if key == KeyCode::Char('k') || key == KeyCode::Up {
            Some(ActionView::TaskStatusDropdownPrev)
        } else if key == KeyCode::Enter {
            Some(ActionView::TaskStatusDropdownSelect)
        } else if key == KeyCode::Esc {
            Some(ActionView::ExitInputMode)
        } else {
            None
        }
    } else if mode == Some(InputMode::ConfirmDelete) || mode == Some(InputMode::ConfirmMerge)
        || mode == Some(InputMode::ConfirmPush) {
        if is_char_either_case(key, 'y', 'Y') {
            Some(ActionView::SubmitInput)
        } else if is_char_either_case(key, 'n', 'N') || key == KeyCode::Esc {
            Some(ActionView::ExitInputMode)
        } else {
            None
        }
    } else {
        match key {
            KeyCode::Enter => Some(ActionView::SubmitInput),
            KeyCode::Esc => Some(ActionView::ExitInputMode),
            KeyCode::Backspace => Some(ActionView::UpdateInput(
                if buffer.len() > 0 { buffer.drop_last() } else { buffer },
            )),
            KeyCode::Char(c) => Some(ActionView::UpdateInput(buffer.push(c))),
            _ => None,
        }
    }
}

/// Appends a character, by `String::push`.
#[verifier::external_body]
pub(crate) fn push_char(s: &mut String, c: char)
    ensures
        final(s)@ == old(s)@.push(c),
{
    s.push(c);
}

/// Removes the last character, if any, by `String::pop`.
#[verifier::external_body]
pub(crate) fn pop_char(s: &mut String)
    ensures
        final(s)@ == if old(s)@.len() > 0 { old(s)@.drop_last() } else { old(s)@ },
{
    s.pop();
}

fn confirm_delete(key: KeyCode, selected: Option<AgentId>, complete_task: bool) -> (r: Option<Action>)
    ensures
        match r {
            Some(a) => confirm_delete_action(
                key,
                selected,
                if complete_task {
                    |id: AgentId| ActionView::DeleteAgentAndCompleteTask { id }
                } else {
                    |id: AgentId| ActionView::DeleteAgentAndCompleteAsana { id }
                },
            ) == Some(a@),
            None => confirm_delete_action(
                key,
                selected,
                if complete_task {
                    |id: AgentId| ActionView::DeleteAgentAndCompleteTask { id }
                } else {
                    |id: AgentId| ActionView::DeleteAgentAndCompleteAsana { id }
                },
            ) is None,
        },
{
    match key {
        KeyCode::Char('y') | KeyCode::Char('Y') => match selected {
            Some(id) => if complete_task {
                Some(Action::DeleteAgentAndCompleteTask { id })
            } else {
                Some(Action::DeleteAgentAndCompleteAsana { id })
            },
            None => None,
        },
        KeyCode::Char('n') | KeyCode::Char('N') => match selected {
            Some(id) => Some(Action::DeleteAgent { id }),
            None => None,
        },
        KeyCode::Esc => Some(Action::ExitInputMode),
        _ => None,
    }
}

/// The action for a key press while an input mode is active.
pub fn handle_input_mode_key(key: KeyCode, state: &InputState) -> (r: Option<Action>)
    ensures
        match r {
            Some(a) => input_mode_action(
                key,
                state.input_mode,
                state.selected_agent_id,
                state.task_list_filter_open,
                texts(state.task_list_status_options@),
                state.task_list_filter_selected as int,
                state.input_buffer@,
            ) == Some(a@),
            None => input_mode_action(
                key,
                state.input_mode,
                state.selected_agent_id,
                state.task_list_filter_open,
                texts(state.task_list_status_options@),
                state.task_list_filter_selected as int,
                state.input_buffer@,
            ) is None,
        },
{
    let mode = state.input_mode;
    if mode == Some(InputMode::ConfirmDeleteTask) {
        return confirm_delete(key, state.selected_agent_id, true);
    }
    if mode == Some(InputMode::ConfirmDeleteAsana) {
        return confirm_delete(key, state.selected_agent_id, false);
    }
    if mode == Some(InputMode::BrowseTasks) {
        if state.task_list_filter_open {
            return match key {
                KeyCode::Char('j') | KeyCode::Down => Some(Action::TaskListFilterNext),
                KeyCode::Char('k') | KeyCode::Up => Some(Action::TaskListFilterPrev),
                KeyCode::Enter | KeyCode::Char(' ') => {
                    let i = state.task_list_filter_selected;
                    if i < state.task_list_status_options.len() {
                        Some(Action::ToggleTaskStatusFilter {
                            status_name: state.task_list_status_options[i].clone(),
                        })
                    } else {
                        None
                    }
                },
                KeyCode::Char('f') | KeyCode::Esc => Some(Action::ToggleTaskListFilter),
                _ => None,
            };
        }
        return match key {
            KeyCode::Char('j') | KeyCode::Down => Some(Action::SelectTaskNext),
            KeyCode::Char('k') | KeyCode::Up => Some(Action::SelectTaskPrev),
            KeyCode::Char('a') => Some(Action::AssignSelectedTaskToAgent),
            KeyCode::Char('s') => Some(Action::ToggleSubtaskStatus),
            KeyCode::Char('r') => Some(Action::RefreshTaskList),
            KeyCode::Char('f') => Some(Action::ToggleTaskListFilter),
            KeyCode::Enter => Some(Action::CreateAgentFromSelectedTask),
            KeyCode::Left | KeyCode::Right => Some(Action::ToggleTaskExpand),
            KeyCode::Esc => Some(Action::ExitInputMode),
            _ => None,
        };
    }
    if mode == Some(InputMode::SelectTaskStatus) {
        return match key {
            KeyCode::Char('j') | KeyCode::Down => Some(Action::TaskStatusDropdownNext),
            KeyCode::Char('k') | KeyCode::Up => Some(Action::TaskStatusDropdownPrev),
            KeyCode::Enter => Some(Action::TaskStatusDropdownSelect),
            KeyCode::Esc => Some(Action::ExitInputMode),
            _ => None,
        };
    }
    let is_confirm_mode = mode == Some(InputMode::ConfirmDelete) || mode == Some(InputMode::ConfirmMerge)
        || mode == Some(InputMode::ConfirmPush);
    if is_confirm_mode {
        match key {
            KeyCode::Char('y') | KeyCode::Char('Y') => Some(Action::SubmitInput),
            KeyCode::Char('n') | KeyCode::Char('N') | KeyCode::Esc => Some(Action::ExitInputMode),
            _ => None,
        }
    } else {
        match key {
            KeyCode::Enter => Some(Action::SubmitInput),
            KeyCode::Esc => Some(Action::ExitInputMode),
            KeyCode::Backspace => {
                let mut new_input = state.input_buffer.clone();
                pop_char(&mut new_input);
                Some(Action::UpdateInput(new_input))
            },
            KeyCode::Char(c) => {
                let mut new_input = state.input_buffer.clone();
                push_char(&mut new_input, c);
                Some(Action::UpdateInput(new_input))
            },
            _ => None,
        }
    }
}

} // verus!
