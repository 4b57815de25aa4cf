//! The command-line input tool backend: each input action becomes one run of
//! the tool, with arguments fixed by the action.
use vstd::prelude::*;
use crate::command::{ActionModel, InputAction, KeyName, MouseButton};
use crate::decimal::{i32_decimal, int_decimal};

verus! {

/// The program that performs the input actions.
pub const INPUT_TOOL: &'static str = "xdotool";

/// The display session that every run of the input tool targets, given to it
/// in the `DISPLAY` variable.
pub const TARGET_DISPLAY: &'static str = ":99";

/// The tool's number for a mouse button.
pub open spec fn button_number(b: MouseButton) -> Seq<char> {
    match b {
        MouseButton::Left => "1"@,
        MouseButton::Middle => "2"@,
        MouseButton::Right => "3"@,
    }
}

/// The tool's symbol for a named key.
pub open spec fn key_symbol(k: KeyName) -> Seq<char> {
    match k {
        KeyName::Space => "space"@,
        KeyName::Enter => "Return"@,
        KeyName::Escape => "Escape"@,
        KeyName::Tab => "Tab"@,
        KeyName::Backspace => "BackSpace"@,
        KeyName::Delete => "Delete"@,
        KeyName::Up => "Up"@,
        KeyName::Down => "Down"@,
        KeyName::Left => "Left"@,
        KeyName::Right => "Right"@,
        KeyName::Ctrl => "ctrl"@,
        KeyName::Alt => "alt"@,
        KeyName::Shift => "shift"@,
    }
}

/// The arguments of the tool run that performs an action. Scrolling is one
/// wheel click in either direction, whatever the offset's magnitude.
pub open spec fn tool_args_of(a: ActionModel) -> Seq<Seq<char>> {
    match a {
        ActionModel::MoveRelative { dx, dy } => seq![
            "mousemove_relative"@,
            "--"@,
            int_decimal(dx),
            int_decimal(dy),
        ],
        ActionModel::Click(b) => seq!["click"@, button_number(b)],
        ActionModel::ScrollUp => seq!["click"@, "4"@],
        ActionModel::ScrollDown => seq!["click"@, "5"@],
        ActionModel::TypeText(t) => seq!["type"@, t],
        ActionModel::PressKey(k) => seq!["key"@, key_symbol(k)],
    }
}

/// The character views of a list of strings.
pub open spec fn texts_of(v: Seq<String>) -> Seq<Seq<char>> {
    v.map_values(|s: String| s@)
}

pub fn button_number_text(b: MouseButton) -> (r: &'static str)
    ensures
        r@ == button_number(b),
{
    match b {
        MouseButton::Left => "1",
        MouseButton::Middle => "2",
        MouseButton::Right => "3",
    }
}

pub fn key_symbol_text(k: KeyName) -> (r: &'static str)
    ensures
        r@ == key_symbol(k),
{
    match k {
        KeyName::Space => "space",
        KeyName::Enter => "Return",
        KeyName::Escape => "Escape",
        KeyName::Tab => "Tab",
        KeyName::Backspace => "BackSpace",
        KeyName::Delete => "Delete",
        KeyName::Up => "Up",
        KeyName::Down => "Down",
        KeyName::Left => "Left",
        KeyName::Right => "Right",
        KeyName::Ctrl => "ctrl",
        KeyName::Alt => "alt",
        KeyName::Shift => "shift",
    }
}

fn pair(first: &str, second: String) -> (r: Vec<String>)
    ensures
        texts_of(r@) == seq![first@, second@],
{
    let mut r: Vec<String> = Vec::new();
    r.push(String::from_str(first));
    r.push(second);
    assert(texts_of(r@) =~= seq![first@, second@]);
    r
}

/// The arguments of the tool run that performs the action.
pub fn tool_args(a: &InputAction) -> (r: Vec<String>)
    ensures
        texts_of(r@) == tool_args_of(a@),
{
    match a {
        InputAction::MoveRelative { dx, dy } => {
            let mut r: Vec<String> = Vec::new();
            r.push(String::from_str("mousemove_relative"));
            r.push(String::from_str("--"));
            r.push(i32_decimal(*dx));
            r.push(i32_decimal(*dy));
            assert(texts_of(r@) =~= tool_args_of(a@));
            r
        },
        InputAction::Click(b) => pair("click", String::from_str(button_number_text(*b))),
        InputAction::ScrollUp => pair("click", String::from_str("4")),
        InputAction::ScrollDown => pair("click", String::from_str("5")),
        InputAction::TypeText(t) => pair("type", t.clone()),
        InputAction::PressKey(k) => pair("key", String::from_str(key_symbol_text(*k))),
    }
}

} // verus!
