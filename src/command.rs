//! Client commands and their translation into input actions.
//!
//! A decoded command names a kind (`mouse`, `click`, `scroll`, `key`, or
//! anything else) and carries optional fields. Translation picks at most one
//! input action for it; kinds and keys outside the vocabulary translate to no
//! action at all, which the connection acknowledges as a success.
use vstd::prelude::*;
use crate::text::text_is;

verus! {

/// A command as the client sent it, fields absent where the client left
/// them out.
pub struct ClientMessage {
    pub msg_type: String,
    pub dx: Option<i32>,
    pub dy: Option<i32>,
    pub button: Option<String>,
    pub key: Option<String>,
}

#[derive(Clone, Copy, Debug, PartialEq, Eq, Structural)]
pub enum MouseButton {
    Left,
    Middle,
    Right,
}

/// The named keys that a client may press.
#[derive(Clone, Copy, Debug, PartialEq, Eq, Structural)]
pub enum KeyName {
    Space,
    Enter,
    Escape,
    Tab,
    Backspace,
    Delete,
    Up,
    Down,
    Left,
    Right,
    Ctrl,
    Alt,
    Shift,
}

/// One call into the input backend.
#[derive(Debug)]
pub enum InputAction {
    MoveRelative { dx: i32, dy: i32 },
    Click(MouseButton),
    ScrollUp,
    ScrollDown,
    /// Types the text literally.
    TypeText(String),
    /// Presses and releases a named key.
    PressKey(KeyName),
}

/// The mathematical value of an [`InputAction`].
pub enum ActionModel {
    MoveRelative { dx: int, dy: int },
    Click(MouseButton),
    ScrollUp,
    ScrollDown,
    TypeText(Seq<char>),
    PressKey(KeyName),
}

impl View for InputAction {
    type V = ActionModel;

    open spec fn view(&self) -> ActionModel {
        match self {
            InputAction::MoveRelative { dx, dy } => ActionModel::MoveRelative {
                dx: *dx as int,
                dy: *dy as int,
            },
            InputAction::Click(b) => ActionModel::Click(*b),
            InputAction::ScrollUp => ActionModel::ScrollUp,
            InputAction::ScrollDown => ActionModel::ScrollDown,
            InputAction::TypeText(s) => ActionModel::TypeText(s@),
            InputAction::PressKey(k) => ActionModel::PressKey(*k),
        }
    }
}

pub open spec fn text_opt(o: Option<String>) -> Option<Seq<char>> {
    match o {
        Some(s) => Some(s@),
        None => None,
    }
}

pub open spec fn action_opt(o: Option<InputAction>) -> Option<ActionModel> {
    match o {
        Some(a) => Some(a@),
        None => None,
    }
}

pub open spec fn or_zero(o: Option<i32>) -> int {
    match o {
        Some(v) => v as int,
        None => 0,
    }
}

/// The button that a button name selects: unknown names select the left one.
pub open spec fn button_of(name: Seq<char>) -> MouseButton {
    if name == "left"@ {
        MouseButton::Left
    } else if name == "middle"@ {
        MouseButton::Middle
    } else if name == "right"@ {
        MouseButton::Right
    } else {
        MouseButton::Left
    }
}

/// The named key that a key name selects, if it is in the vocabulary.
pub open spec fn key_name_of(name: Seq<char>) -> Option<KeyName> {
    if name == "space"@ {
        Some(KeyName::Space)
    } else if name == "enter"@ {
        Some(KeyName::Enter)
    } else if name == "escape"@ {
        Some(KeyName::Escape)
    } else if name == "tab"@ {
        Some(KeyName::Tab)
    } else if name == "backspace"@ {
        Some(KeyName::Backspace)
    } else if name == "delete"@ {
        Some(KeyName::Delete)
    } else if name == "up"@ {
        Some(KeyName::Up)
    } else if name == "down"@ {
        Some(KeyName::Down)
    } else if name == "left"@ {
        Some(KeyName::Left)
    } else if name == "right"@ {
        Some(KeyName::Right)
    } else if name == "ctrl"@ {
        Some(KeyName::Ctrl)
    } else if name == "alt"@ {
        Some(KeyName::Alt)
    } else if name == "shift"@ {
        Some(KeyName::Shift)
    } else {
        None
    }
}

/// What a `key` command does with its key: a named key is pressed, a single
/// character is typed, anything else does nothing.
pub open spec fn key_action_of(name: Seq<char>) -> Option<ActionModel> {
    match key_name_of(name) {
        Some(k) => Some(ActionModel::PressKey(k)),
        None => if name.len() == 1 {
            Some(ActionModel::TypeText(name))
        } else {
            None
        },
    }
}

/// The action that a command translates to, if any.
pub open spec fn action_of(m: ClientMessage) -> Option<ActionModel> {
    let kind = m.msg_type@;
    if kind == "mouse"@ {
        Some(ActionModel::MoveRelative { dx: or_zero(m.dx), dy: or_zero(m.dy) })
    } else if kind == "click"@ {
        match text_opt(m.button) {
            Some(b) => Some(ActionModel::Click(button_of(b))),
            None => Some(ActionModel::Click(MouseButton::Left)),
        }
    } else if kind == "scroll"@ {
        if or_zero(m.dy) > 0 {
            Some(ActionModel::ScrollUp)
        } else if or_zero(m.dy) < 0 {
            Some(ActionModel::ScrollDown)
        } else {
            None
        }
    } else if kind == "key"@ {
        match text_opt(m.key) {
            Some(k) => key_action_of(k),
            None => None,
        }
    } else {
        None
    }
}

/// Maps a button name to a button; unknown names give the left button.
pub fn map_button(name: &str) -> (r: MouseButton)
    ensures
        r == button_of(name@),
{
    if text_is(name, "left") {
        MouseButton::Left
    } else if text_is(name, "middle") {
        MouseButton::Middle
    } else if text_is(name, "right") {
        MouseButton::Right
    } else {
        MouseButton::Left
    }
}

/// Maps a key name to a named key, if it is in the vocabulary.
pub fn map_key(name: &str) -> (r: Option<KeyName>)
    ensures
        r == key_name_of(name@),
{
    if text_is(name, "space") {
        Some(KeyName::Space)
    } else if text_is(name, "enter") {
        Some(KeyName::Enter)
    } else if text_is(name, "escape") {
        Some(KeyName::Escape)
    } else if text_is(name, "tab") {
        Some(KeyName::Tab)
    } else if text_is(name, "backspace") {
        Some(KeyName::Backspace)
    } else if text_is(name, "delete") {
        Some(KeyName::Delete)
    } else if text_is(name, "up") {
        Some(KeyName::Up)
    } else if text_is(name, "down") {
        Some(KeyName::Down)
    } else if text_is(name, "left") {
        Some(KeyName::Left)
    } else if text_is(name, "right") {
        Some(KeyName::Right)
    } else if text_is(name, "ctrl") {
        Some(KeyName::Ctrl)
    } else if text_is(name, "alt") {
        Some(KeyName::Alt)
    } else if text_is(name, "shift") {
        Some(KeyName::Shift)
    } else {
        None
    }
}

/// Translates a command into the input action it asks for, or into none
/// where its kind or its key is not in the vocabulary, where a `key`
/// command has no key, or where a `scroll` command has no vertical offset.
pub fn translate(m: &ClientMessage) -> (r: Option<InputAction>)
    ensures
        action_opt(r) == action_of(*m),
{
    let kind = m.msg_type.as_str();
    if text_is(kind, "mouse") {
        let dx = match m.dx {
            Some(v) => v,
            None => 0,
        };
        let dy = match m.dy {
            Some(v) => v,
            None => 0,
        };
        Some(InputAction::MoveRelative { dx, dy })
    } else if text_is(kind, "click") {
        let button = match &m.button {
            Some(b) => map_button(b.as_str()),
            None => MouseButton::Left,
        };
        Some(InputAction::Click(button))
    } else if text_is(kind, "scroll") {
        let dy = match m.dy {
            Some(v) => v,
            None => 0,
        };
        if dy > 0 {
            Some(InputAction::ScrollUp)
        } else if dy < 0 {
            Some(InputAction::ScrollDown)
        } else {
            None
        }
    } else if text_is(kind, "key") {
        match &m.key {
            Some(k) => match map_key(k.as_str()) {
                Some(name) => Some(InputAction::PressKey(name)),
                None => if k.as_str().unicode_len() == 1 {
                    Some(InputAction::TypeText(k.clone()))
                } else {
                    None
                },
            },
            None => None,
        }
    } else {
        None
    }
}

} // verus!
