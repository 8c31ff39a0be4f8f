//! The keyboard-shortcut decision: which action a key press triggers,
//! given whether a text input currently has focus.
use vstd::prelude::*;
use vstd::string::*;

verus! {

use crate::text::str_eq;

/// What a key press makes the page do.
#[derive(Clone, Copy, Debug, PartialEq, Eq, Structural)]
pub enum ShortcutAction {
    FocusSearch,
    ToggleTheme,
    Nothing,
}

/// Decides the action of a key press: "q" outside any text input focuses
/// the search field, "x" outside any text input toggles the theme unless
/// the press itself landed on a text input, and every other press does
/// nothing. The key is expected lower-cased.
pub fn shortcut_action(key: &str, input_active: bool, target_is_text_input: bool) -> (r:
    ShortcutAction)
    ensures
        key@ == "q"@ && !input_active ==> r is FocusSearch,
        key@ == "x"@ && !input_active && !target_is_text_input ==> r is ToggleTheme,
        key@ == "x"@ && !input_active && target_is_text_input ==> r is Nothing,
        input_active || (key@ != "q"@ && key@ != "x"@) ==> r is Nothing,
{
    proof {
        reveal_strlit("q");
        reveal_strlit("x");
        assert("q"@ != "x"@) by {
            assert("q"@[0] == 'q');
            assert("x"@[0] == 'x');
        }
    }
    if input_active {
        ShortcutAction::Nothing
    } else if str_eq(key, "q") {
        ShortcutAction::FocusSearch
    } else if str_eq(key, "x") {
        if target_is_text_input {
            ShortcutAction::Nothing
        } else {
            ShortcutAction::ToggleTheme
        }
    } else {
        ShortcutAction::Nothing
    }
}

} // verus!
