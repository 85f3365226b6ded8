//! Key handling in the settings screen.
use vstd::prelude::*;
use vstd::string::*;
use crate::action::{Action, ActionView, ResetType};
use crate::agent::texts;
use crate::keys::{ascii_lower, is_ascii_letter, keybind_matches, named_key, push_char, to_ascii_lowercase, KeyCode, KeyInput};
use crate::setup_keys::opt_action;
use crate::decimal::{decimal_text, u64_text};

verus! {

/// The buttons that the settings screen can show in place of a field.
#[derive(Debug, Clone, Copy, PartialEq, Eq, Structural)]
pub enum ActionButtonType {
    ResetTab,
    ResetAll,
    SetupPm,
    SetupGit,
    ResetTutorial,
}

/// What the settings key handler reads of the settings screen.
#[derive(Debug, Clone, Copy, PartialEq, Eq, Structural)]
pub struct SettingsKeyState {
    pub reset_pending: bool,
    pub editing_prompt: bool,
    pub editing_text: bool,
    pub dropdown_open: bool,
    pub file_browser_active: bool,
    pub capturing_keybind: bool,
    pub on_appearance_row: bool,
    pub action_button: Option<ActionButtonType>,
    pub field_is_keybind: bool,
}

/// The name that a captured key binding records for a named key.
pub open spec fn captured_key_name(c: KeyCode) -> Option<Seq<char>> {
    match c {
        KeyCode::Enter => Some("Enter"@),
        KeyCode::Backspace => Some("Backspace"@),
        KeyCode::Tab => Some("Tab"@),
        KeyCode::Delete => Some("Delete"@),
        KeyCode::Home => Some("Home"@),
        KeyCode::End => Some("End"@),
        KeyCode::PageUp => Some("PageUp"@),
        KeyCode::PageDown => Some("PageDown"@),
        KeyCode::Up => Some("Up"@),
        KeyCode::Down => Some("Down"@),
        KeyCode::Left => Some("Left"@),
        KeyCode::Right => Some("Right"@),
        KeyCode::Esc => Some("Esc"@),
        _ => None,
    }
}

/// The modifier names recorded for a key press, in the order Control, Shift, Alt,
/// Shift only when `with_shift`.
pub open spec fn modifier_names(key: KeyInput, with_shift: bool) -> Seq<Seq<char>> {
    (if key.ctrl { seq!["Control"@] } else { Seq::empty() })
        + (if with_shift && key.shift { seq!["Shift"@] } else { Seq::empty() })
        + (if key.alt { seq!["Alt"@] } else { Seq::empty() })
}

/// The key binding captured from a key press, if the key can be bound.
pub open spec fn captured_keybind(key: KeyInput) -> Option<ActionView> {
    match key.code {
        KeyCode::Char(c) => {
            let letter_with_shift = is_ascii_letter(c) && key.shift;
            let mods = (if key.ctrl { seq!["Control"@] } else { Seq::empty() })
                + (if key.alt { seq!["Alt"@] } else { Seq::empty() })
                + (if letter_with_shift { seq!["Shift"@] } else { Seq::empty() });
            Some(ActionView::SettingsCaptureKeybind {
                key: if letter_with_shift { seq![ascii_lower(c)] } else { seq![c] },
                modifiers: mods,
            })
        },
        KeyCode::F(n) => Some(ActionView::SettingsCaptureKeybind {
            key: "F"@ + decimal_text(n as nat),
            modifiers: Seq::empty(),
        }),
        _ => match captured_key_name(key.code) {
            Some(name) => Some(ActionView::SettingsCaptureKeybind { key: name, modifiers: modifier_names(key, true) }),
            None => None,
        },
    }
}

/// The action for a key in the settings screen.
pub open spec fn settings_action(key: KeyInput, st: SettingsKeyState) -> Option<ActionView> {
    let c = key.code;
    if st.reset_pending {
        if c == KeyCode::Esc {
            Some(ActionView::SettingsCancelReset)
        } else if c == KeyCode::Enter {
            Some(ActionView::SettingsConfirmReset)
        } else {
            None
        }
    } else if st.editing_prompt {
        if c == KeyCode::Esc {
            Some(ActionView::SettingsCancelSelection)
        } else if c == KeyCode::Enter {
            Some(if key.shift { ActionView::SettingsInputChar('\n') } else { ActionView::SettingsPromptSave })
        } else if c == KeyCode::Backspace {
            Some(ActionView::SettingsBackspace)
        } else if c == KeyCode::Char('s') && key.ctrl {
            Some(ActionView::SettingsConfirmSelection)
        } else if c matches KeyCode::Char(ch) {
            Some(ActionView::SettingsInputChar(c->Char_0))
        } else {
            None
        }
    } else if st.editing_text {
        if c == KeyCode::Esc {
            Some(ActionView::SettingsCancelSelection)
        } else if c == KeyCode::Enter {
            Some(ActionView::SettingsConfirmSelection)
        } else if c == KeyCode::Backspace {
            Some(ActionView::SettingsBackspace)
        } else if c matches KeyCode::Char(ch) {
            Some(ActionView::SettingsInputChar(c->Char_0))
        } else {
            None
        }
    } else if st.dropdown_open {
        if c == KeyCode::Esc {
            Some(ActionView::SettingsCancelSelection)
        } else if c == KeyCode::Enter {
            Some(ActionView::SettingsConfirmSelection)
        } else if c == KeyCode::Up || c == KeyCode::Char('k') {
            Some(ActionView::SettingsDropdownPrev)
        } else if c == KeyCode::Down || c == KeyCode::Char('j') {
            Some(ActionView::SettingsDropdownNext)
        } else {
            None
        }
    } else if st.file_browser_active {
        if c == KeyCode::Esc {
            Some(ActionView::SettingsCloseFileBrowser)
        } else if c == KeyCode::Enter || c == KeyCode::Char(' ') {
            Some(ActionView::FileBrowserToggle)
        } else if c == KeyCode::Up || c == KeyCode::Char('k') {
            Some(ActionView::FileBrowserSelectPrev)
        } else if c == KeyCode::Down || c == KeyCode::Char('j') {
            Some(ActionView::FileBrowserSelectNext)
        } else if c == KeyCode::Right {
            Some(ActionView::FileBrowserEnterDir)
        } else if c == KeyCode::Left {
            Some(ActionView::FileBrowserGoParent)
        } else {
            None
        }
    } else if st.capturing_keybind {
        if c == KeyCode::Esc {
            Some(ActionView::SettingsCancelKeybindCapture)
        } else {
            captured_keybind(key)
        }
    } else if c == KeyCode::Esc {
        Some(ActionView::SettingsClose)
    } else if c == KeyCode::Char('c') {
        Some(ActionView::SettingsSave)
    } else if c == KeyCode::Tab {
        Some(ActionView::SettingsSwitchSection)
    } else if c == KeyCode::BackTab {
        Some(ActionView::SettingsSwitchSectionBack)
    } else if c == KeyCode::Up || c == KeyCode::Char('k') {
        Some(ActionView::SettingsSelectPrev)
    } else if c == KeyCode::Down || c == KeyCode::Char('j') {
        Some(ActionView::SettingsSelectNext)
    } else if c == KeyCode::Left || c == KeyCode::Char('h') {
        if st.on_appearance_row { Some(ActionView::AppearancePrevColumn) } else { None }
    } else if c == KeyCode::Right || c == KeyCode::Char('l') {
        if st.on_appearance_row { Some(ActionView::AppearanceNextColumn) } else { None }
    } else if c == KeyCode::Enter {
        match st.action_button {
            Some(ActionButtonType::ResetTab) => Some(ActionView::SettingsRequestReset { reset_type: ResetType::CurrentTab }),
            Some(ActionButtonType::ResetAll) => Some(ActionView::SettingsRequestReset { reset_type: ResetType::AllSettings }),
            Some(ActionButtonType::SetupPm) => Some(ActionView::SettingsSelectField),
            Some(ActionButtonType::SetupGit) => Some(ActionView::OpenGitSetup),
            Some(ActionButtonType::ResetTutorial) => Some(ActionView::ResetTutorial),
            None => Some(if st.field_is_keybind { ActionView::SettingsStartKeybindCapture } else { ActionView::SettingsSelectField }),
        }
    } else {
        None
    }
}

fn push_name(v: &mut Vec<String>, name: &str)
    ensures
        texts(final(v)@) == texts(old(v)@).push(name@),
{
    v.push(String::from_str(name));
    assert(texts(v@) =~= texts(old(v)@).push(name@));
}

fn capture_keybind(key: KeyInput) -> (r: Option<Action>)
    ensures
        opt_action(r) == captured_keybind(key),
{
    match key.code {
        KeyCode::Char(c) => {
            let mut modifiers: Vec<String> = Vec::new();
            assert(texts(modifiers@) =~= Seq::<Seq<char>>::empty());
            if key.ctrl {
                push_name(&mut modifiers, "Control");
            }
            if key.alt {
                push_name(&mut modifiers, "Alt");
            }
            let letter = ('a' <= c && c <= 'z') || ('A' <= c && c <= 'Z');
            let mut key_text = String::new();
            if letter && key.shift {
                push_name(&mut modifiers, "Shift");
                push_char(&mut key_text, to_ascii_lowercase(c));
            } else {
                push_char(&mut key_text, c);
            }
            let r = Some(Action::SettingsCaptureKeybind { key: key_text, modifiers });
            proof {
                let mods = (if key.ctrl { seq!["Control"@] } else { Seq::<Seq<char>>::empty() })
                    + (if key.alt { seq!["Alt"@] } else { Seq::<Seq<char>>::empty() })
                    + (if letter && key.shift { seq!["Shift"@] } else { Seq::<Seq<char>>::empty() });
                assert(texts(modifiers@) =~= mods);
            }
            r
        },
        KeyCode::F(n) => {
            let digits = u64_text(n as u64);
            let name = String::from_str("F").concat(digits.as_str());
            let modifiers: Vec<String> = Vec::new();
            assert(texts(modifiers@) =~= Seq::<Seq<char>>::empty());
            Some(Action::SettingsCaptureKeybind { key: name, modifiers })
        },
        _ => {
            let name: &str = match key.code {
                KeyCode::Enter => "Enter",
                KeyCode::Backspace => "Backspace",
                KeyCode::Tab => "Tab",
                KeyCode::Delete => "Delete",
                KeyCode::Home => "Home",
                KeyCode::End => "End",
                KeyCode::PageUp => "PageUp",
                KeyCode::PageDown => "PageDown",
                KeyCode::Up => "Up",
                KeyCode::Down => "Down",
                KeyCode::Left => "Left",
                KeyCode::Right => "Right",
                KeyCode::Esc => "Esc",
                _ => {
                    return None;
                },
            };
            let mut modifiers: Vec<String> = Vec::new();
            assert(texts(modifiers@) =~= Seq::<Seq<char>>::empty());
            if key.ctrl {
                push_name(&mut modifiers, "Control");
            }
            if key.shift {
                push_name(&mut modifiers, "Shift");
            }
            if key.alt {
                push_name(&mut modifiers, "Alt");
            }
            assert(texts(modifiers@) =~= modifier_names(key, true));
            Some(Action::SettingsCaptureKeybind { key: String::from_str(name), modifiers })
        },
    }
}

/// The action for a key in the settings screen.
pub fn handle_settings_key(key: KeyInput, settings: &SettingsKeyState) -> (r: Option<Action>)
    ensures
        opt_action(r) == settings_action(key, *settings),
{
    if settings.reset_pending {
        return match key.code {
            KeyCode::Esc => Some(Action::SettingsCancelReset),
            KeyCode::Enter => Some(Action::SettingsConfirmReset),
            _ => None,
        };
    }
    if settings.editing_prompt {
        return match key.code {
            KeyCode::Esc => Some(Action::SettingsCancelSelection),
            KeyCode::Enter => {
                if key.shift {
                    Some(Action::SettingsInputChar('\n'))
                } else {
                    Some(Action::SettingsPromptSave)
                }
            },
            KeyCode::Backspace => Some(Action::SettingsBackspace),
            KeyCode::Char('s') if key.ctrl => Some(Action::SettingsConfirmSelection),
            KeyCode::Char(c) => Some(Action::SettingsInputChar(c)),
            _ => None,
        };
    }
    if settings.editing_text {
        return match key.code {
            KeyCode::Esc => Some(Action::SettingsCancelSelection),
            KeyCode::Enter => Some(Action::SettingsConfirmSelection),
            KeyCode::Backspace => Some(Action::SettingsBackspace),
            KeyCode::Char(c) => Some(Action::SettingsInputChar(c)),
            _ => None,
        };
    }
    if settings.dropdown_open {
        return match key.code {
            KeyCode::Esc => Some(Action::SettingsCancelSelection),
            KeyCode::Enter => Some(Action::SettingsConfirmSelection),
            KeyCode::Up | KeyCode::Char('k') => Some(Action::SettingsDropdownPrev),
            KeyCode::Down | KeyCode::Char('j') => Some(Action::SettingsDropdownNext),
            _ => None,
        };
    }
    if settings.file_browser_active {
        return match key.code {
            KeyCode::Esc => Some(Action::SettingsCloseFileBrowser),
            KeyCode::Enter => Some(Action::FileBrowserToggle),
            KeyCode::Char(' ') => Some(Action::FileBrowserToggle),
            KeyCode::Up | KeyCode::Char('k') => Some(Action::FileBrowserSelectPrev),
            KeyCode::Down | KeyCode::Char('j') => Some(Action::FileBrowserSelectNext),
            KeyCode::Right => Some(Action::FileBrowserEnterDir),
            KeyCode::Left => Some(Action::FileBrowserGoParent),
            _ => None,
        };
    }
    if settings.capturing_keybind {
        return match key.code {
            KeyCode::Esc => Some(Action::SettingsCancelKeybindCapture),
            _ => capture_keybind(key),
        };
    }
    match key.code {
        KeyCode::Esc => Some(Action::SettingsClose),
        KeyCode::Char('c') => Some(Action::SettingsSave),
        KeyCode::Tab => Some(Action::SettingsSwitchSection),
        KeyCode::BackTab => Some(Action::SettingsSwitchSectionBack),
        KeyCode::Up | KeyCode::Char('k') => Some(Action::SettingsSelectPrev),
        KeyCode::Down | KeyCode::Char('j') => Some(Action::SettingsSelectNext),
        KeyCode::Left | KeyCode::Char('h') => {
            if settings.on_appearance_row {
                Some(Action::AppearancePrevColumn)
            } else {
                None
            }
        },
        KeyCode::Right | KeyCode::Char('l') => {
            if settings.on_appearance_row {
                Some(Action::AppearanceNextColumn)
            } else {
                None
            }
        },
        KeyCode::Enter => {
            match settings.action_button {
                Some(ActionButtonType::ResetTab) => Some(Action::SettingsRequestReset { reset_type: ResetType::CurrentTab }),
                Some(ActionButtonType::ResetAll) => Some(Action::SettingsRequestReset { reset_type: ResetType::AllSettings }),
                Some(ActionButtonType::SetupPm) => Some(Action::SettingsSelectField),
                Some(ActionButtonType::SetupGit) => Some(Action::OpenGitSetup),
                Some(ActionButtonType::ResetTutorial) => Some(Action::ResetTutorial),
                None => {
                    if settings.field_is_keybind {
                        Some(Action::SettingsStartKeybindCapture)
                    } else {
                        Some(Action::SettingsSelectField)
                    }
                },
            }
        },
        _ => None,
    }
}

} // verus!

verus! {

/// A key binding captured from a key press matches that same key press,
/// whatever modifiers were held, for every key that can be captured but the
/// function keys; a binding captured from a function key never matches it.
pub proof fn lemma_captured_keybind_matches(key: KeyInput)
    ensures
        captured_keybind(key) matches Some(ActionView::SettingsCaptureKeybind { key: k, modifiers: m })
            ==> (keybind_matches(key, k, m) <==> !(key.code is F)),
{
    reveal_strlit("Control");
    assert("Control"@.len() == 7 && "Control"@[0] == 'C' && "Control"@[1] == 'o');
    reveal_strlit("Shift");
    assert("Shift"@.len() == 5 && "Shift"@[0] == 'S' && "Shift"@[1] == 'h');
    reveal_strlit("Alt");
    assert("Alt"@.len() == 3 && "Alt"@[0] == 'A' && "Alt"@[1] == 'l');
    reveal_strlit("Up");
    assert("Up"@.len() == 2 && "Up"@[0] == 'U' && "Up"@[1] == 'p');
    reveal_strlit("Down");
    assert("Down"@.len() == 4 && "Down"@[0] == 'D' && "Down"@[1] == 'o');
    reveal_strlit("Left");
    assert("Left"@.len() == 4 && "Left"@[0] == 'L' && "Left"@[1] == 'e');
    reveal_strlit("Right");
    assert("Right"@.len() == 5 && "Right"@[0] == 'R' && "Right"@[1] == 'i');
    reveal_strlit("Enter");
    assert("Enter"@.len() == 5 && "Enter"@[0] == 'E' && "Enter"@[1] == 'n');
    reveal_strlit("Backspace");
    assert("Backspace"@.len() == 9 && "Backspace"@[0] == 'B' && "Backspace"@[1] == 'a');
    reveal_strlit("Tab");
    assert("Tab"@.len() == 3 && "Tab"@[0] == 'T' && "Tab"@[1] == 'a');
    reveal_strlit("Esc");
    assert("Esc"@.len() == 3 && "Esc"@[0] == 'E' && "Esc"@[1] == 's');
    reveal_strlit("Delete");
    assert("Delete"@.len() == 6 && "Delete"@[0] == 'D' && "Delete"@[1] == 'e');
    reveal_strlit("Home");
    assert("Home"@.len() == 4 && "Home"@[0] == 'H' && "Home"@[1] == 'o');
    reveal_strlit("End");
    assert("End"@.len() == 3 && "End"@[0] == 'E' && "End"@[1] == 'n');
    reveal_strlit("PageUp");
    assert("PageUp"@.len() == 6 && "PageUp"@[0] == 'P' && "PageUp"@[1] == 'a');
    reveal_strlit("PageDown");
    assert("PageDown"@.len() == 8 && "PageDown"@[0] == 'P' && "PageDown"@[1] == 'a');
    let ctrl_only: Seq<Seq<char>> = if key.ctrl { seq!["Control"@] } else { Seq::empty() };
    let alt_only: Seq<Seq<char>> = if key.alt { seq!["Alt"@] } else { Seq::empty() };
    match key.code {
        KeyCode::Char(c) => {
            let letter_with_shift = is_ascii_letter(c) && key.shift;
            let shift_only: Seq<Seq<char>> = if letter_with_shift { seq!["Shift"@] } else { Seq::empty() };
            let m = ctrl_only + alt_only + shift_only;
            let k: Seq<char> = if letter_with_shift { seq![ascii_lower(c)] } else { seq![c] };
            assert(m.contains("Control"@) == key.ctrl) by {
                if key.ctrl {
                    assert(m[0] == "Control"@);
                } else if m.contains("Control"@) {
                    let j = choose|j: int| 0 <= j < m.len() && m[j] == "Control"@;
                    assert(m[j] == "Alt"@ || m[j] == "Shift"@);
                }
            }
            assert(m.contains("Alt"@) == key.alt) by {
                if key.alt {
                    assert(m[ctrl_only.len() as int] == "Alt"@);
                } else if m.contains("Alt"@) {
                    let j = choose|j: int| 0 <= j < m.len() && m[j] == "Alt"@;
                    assert(m[j] == "Control"@ || m[j] == "Shift"@);
                }
            }
            assert(m.contains("Shift"@) == letter_with_shift) by {
                if letter_with_shift {
                    assert(m[(ctrl_only.len() + alt_only.len()) as int] == "Shift"@);
                } else if m.contains("Shift"@) {
                    let j = choose|j: int| 0 <= j < m.len() && m[j] == "Shift"@;
                    assert(m[j] == "Control"@ || m[j] == "Alt"@);
                }
            }
            assert(named_key(k) is None);
            assert(k[0] == (if letter_with_shift { ascii_lower(c) } else { c }));
        },
        KeyCode::F(n) => {},
        _ => {
            if let Some(name) = captured_key_name(key.code) {
                let shift_only: Seq<Seq<char>> = if key.shift { seq!["Shift"@] } else { Seq::empty() };
                let m = ctrl_only + shift_only + alt_only;
                assert(m == modifier_names(key, true));
                assert(m.contains("Control"@) == key.ctrl) by {
                    if key.ctrl {
                        assert(m[0] == "Control"@);
                    } else if m.contains("Control"@) {
                        let j = choose|j: int| 0 <= j < m.len() && m[j] == "Control"@;
                        assert(m[j] == "Alt"@ || m[j] == "Shift"@);
                    }
                }
                assert(m.contains("Alt"@) == key.alt) by {
                    if key.alt {
                        assert(m[(ctrl_only.len() + shift_only.len()) as int] == "Alt"@);
                    } else if m.contains("Alt"@) {
                        let j = choose|j: int| 0 <= j < m.len() && m[j] == "Alt"@;
                        assert(m[j] == "Control"@ || m[j] == "Shift"@);
                    }
                }
                assert(named_key(name) == Some(key.code));
            }
        },
    }
}

} // verus!
