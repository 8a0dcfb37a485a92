//! Keyboard handling: which key names the viewer reacts to, and how.

use vstd::prelude::*;

verus! {

/// A navigation step through the file.
#[derive(Clone, Copy, Debug, PartialEq, Eq, Structural, Hash)]
pub enum Nav {
    Left,
    Right,
    Up,
    Down,
    PageUp,
    PageDown,
    Home,
    End,
}

/// What a handled key asks the viewer to do.
#[derive(Clone, Copy, Debug, PartialEq, Eq, Structural, Hash)]
pub enum KeyAction {
    /// Move the selection.
    Navigate(Nav),
    /// Enlarge the zoom column's pixels.
    ZoomIn,
    /// Shrink the zoom column's pixels.
    ZoomOut,
}

/// The action bound to the key named `key` (as a browser reports it), if any.
pub open spec fn spec_key_action(key: Seq<char>) -> Option<KeyAction> {
    if key == "ArrowLeft"@ {
        Some(KeyAction::Navigate(Nav::Left))
    } else if key == "ArrowRight"@ {
        Some(KeyAction::Navigate(Nav::Right))
    } else if key == "ArrowUp"@ {
        Some(KeyAction::Navigate(Nav::Up))
    } else if key == "ArrowDown"@ {
        Some(KeyAction::Navigate(Nav::Down))
    } else if key == "PageUp"@ {
        Some(KeyAction::Navigate(Nav::PageUp))
    } else if key == "PageDown"@ {
        Some(KeyAction::Navigate(Nav::PageDown))
    } else if key == "Home"@ {
        Some(KeyAction::Navigate(Nav::Home))
    } else if key == "End"@ {
        Some(KeyAction::Navigate(Nav::End))
    } else if key == "="@ || key == "+"@ {
        Some(KeyAction::ZoomIn)
    } else if key == "-"@ {
        Some(KeyAction::ZoomOut)
    } else {
        None
    }
}

/// Whether two strings hold the same characters.
fn same_text(a: &str, b: &str) -> (r: bool)
    ensures
        r == (a@ == b@),
{
    let n = a.unicode_len();
    if n != b.unicode_len() {
        return false;
    }
    let mut i: usize = 0;
    while i < n
        invariant
            n == a@.len(),
            n == b@.len(),
            i <= n,
            forall|j: int| 0 <= j < i ==> a@[j] == b@[j],
        decreases n - i,
    {
        if a.get_char(i) != b.get_char(i) {
            return false;
        }
        i = i + 1;
    }
    assert(a@ =~= b@);
    true
}

/// Map a key name to what the viewer does with it: the arrow keys, PageUp,
/// PageDown, Home and End navigate; `=` and `+` zoom in; `-` zooms out; any
/// other key is not handled.
pub fn key_action(key: &str) -> (r: Option<KeyAction>)
    ensures
        r == spec_key_action(key@),
{
    if same_text(key, "ArrowLeft") {
        Some(KeyAction::Navigate(Nav::Left))
    } else if same_text(key, "ArrowRight") {
        Some(KeyAction::Navigate(Nav::Right))
    } else if same_text(key, "ArrowUp") {
        Some(KeyAction::Navigate(Nav::Up))
    } else if same_text(key, "ArrowDown") {
        Some(KeyAction::Navigate(Nav::Down))
    } else if same_text(key, "PageUp") {
        Some(KeyAction::Navigate(Nav::PageUp))
    } else if same_text(key, "PageDown") {
        Some(KeyAction::Navigate(Nav::PageDown))
    } else if same_text(key, "Home") {
        Some(KeyAction::Navigate(Nav::Home))
    } else if same_text(key, "End") {
        Some(KeyAction::Navigate(Nav::End))
    } else if same_text(key, "=") || same_text(key, "+") {
        Some(KeyAction::ZoomIn)
    } else if same_text(key, "-") {
        Some(KeyAction::ZoomOut)
    } else {
        None
    }
}

/// Only the eleven key names the viewer documents are handled: the four
/// arrows, PageUp, PageDown, Home, End, `=`, `+` and `-`. Every other key
/// (Space, letters, Tab, ...) is left to the browser.
pub proof fn lemma_only_listed_keys_handled(key: Seq<char>)
    ensures
        spec_key_action(key) is Some ==> key == "ArrowLeft"@ || key == "ArrowRight"@ || key
            == "ArrowUp"@ || key == "ArrowDown"@ || key == "PageUp"@ || key == "PageDown"@ || key
            == "Home"@ || key == "End"@ || key == "="@ || key == "+"@ || key == "-"@,
        !(key == "ArrowLeft"@ || key == "ArrowRight"@ || key == "ArrowUp"@ || key == "ArrowDown"@
            || key == "PageUp"@ || key == "PageDown"@ || key == "Home"@ || key == "End"@ || key
            == "="@ || key == "+"@ || key == "-"@) ==> spec_key_action(key) is None,
{
}

/// Each listed key does what it names: the arrows move the selection in
/// their direction, PageUp/PageDown by a page, Home/End to the ends, `=` and
/// `+` zoom in and `-` zooms out.
pub proof fn lemma_listed_keys_actions()
    ensures
        spec_key_action("ArrowLeft"@) == Some(KeyAction::Navigate(Nav::Left)),
        spec_key_action("ArrowRight"@) == Some(KeyAction::Navigate(Nav::Right)),
        spec_key_action("ArrowUp"@) == Some(KeyAction::Navigate(Nav::Up)),
        spec_key_action("ArrowDown"@) == Some(KeyAction::Navigate(Nav::Down)),
        spec_key_action("PageUp"@) == Some(KeyAction::Navigate(Nav::PageUp)),
        spec_key_action("PageDown"@) == Some(KeyAction::Navigate(Nav::PageDown)),
        spec_key_action("Home"@) == Some(KeyAction::Navigate(Nav::Home)),
        spec_key_action("End"@) == Some(KeyAction::Navigate(Nav::End)),
        spec_key_action("="@) == Some(KeyAction::ZoomIn),
        spec_key_action("+"@) == Some(KeyAction::ZoomIn),
        spec_key_action("-"@) == Some(KeyAction::ZoomOut),
{
    reveal_strlit("ArrowLeft");
    reveal_strlit("ArrowRight");
    reveal_strlit("ArrowUp");
    reveal_strlit("ArrowDown");
    reveal_strlit("PageUp");
    reveal_strlit("PageDown");
    reveal_strlit("Home");
    reveal_strlit("End");
    reveal_strlit("=");
    reveal_strlit("+");
    reveal_strlit("-");
    assert("ArrowRight"@[5] != "ArrowLeft"@[5]);
    assert("ArrowUp"@.len() != "ArrowLeft"@.len());
    assert("ArrowUp"@.len() != "ArrowRight"@.len());
    assert("ArrowDown"@[5] != "ArrowLeft"@[5]);
    assert("ArrowDown"@.len() != "ArrowRight"@.len());
    assert("ArrowDown"@.len() != "ArrowUp"@.len());
    assert("PageUp"@[0] != "ArrowLeft"@[0]);
    assert("PageUp"@.len() != "ArrowRight"@.len());
    assert("PageUp"@[0] != "ArrowUp"@[0]);
    assert("PageUp"@.len() != "ArrowDown"@.len());
    assert("PageDown"@[0] != "ArrowLeft"@[0]);
    assert("PageDown"@.len() != "ArrowRight"@.len());
    assert("PageDown"@.len() != "ArrowUp"@.len());
    assert("PageDown"@[0] != "ArrowDown"@[0]);
    assert("PageDown"@.len() != "PageUp"@.len());
    assert("Home"@.len() != "ArrowLeft"@.len());
    assert("Home"@.len() != "ArrowRight"@.len());
    assert("Home"@.len() != "ArrowUp"@.len());
    assert("Home"@.len() != "ArrowDown"@.len());
    assert("Home"@.len() != "PageUp"@.len());
    assert("Home"@.len() != "PageDown"@.len());
    assert("End"@.len() != "ArrowLeft"@.len());
    assert("End"@.len() != "ArrowRight"@.len());
    assert("End"@.len() != "ArrowUp"@.len());
    assert("End"@.len() != "ArrowDown"@.len());
    assert("End"@.len() != "PageUp"@.len());
    assert("End"@.len() != "PageDown"@.len());
    assert("End"@.len() != "Home"@.len());
    assert("="@.len() != "ArrowLeft"@.len());
    assert("="@.len() != "ArrowRight"@.len());
    assert("="@.len() != "ArrowUp"@.len());
    assert("="@.len() != "ArrowDown"@.len());
    assert("="@.len() != "PageUp"@.len());
    assert("="@.len() != "PageDown"@.len());
    assert("="@.len() != "Home"@.len());
    assert("="@.len() != "End"@.len());
    assert("+"@.len() != "ArrowLeft"@.len());
    assert("+"@.len() != "ArrowRight"@.len());
    assert("+"@.len() != "ArrowUp"@.len());
    assert("+"@.len() != "ArrowDown"@.len());
    assert("+"@.len() != "PageUp"@.len());
    assert("+"@.len() != "PageDown"@.len());
    assert("+"@.len() != "Home"@.len());
    assert("+"@.len() != "End"@.len());
    assert("+"@[0] != "="@[0]);
    assert("-"@.len() != "ArrowLeft"@.len());
    assert("-"@.len() != "ArrowRight"@.len());
    assert("-"@.len() != "ArrowUp"@.len());
    assert("-"@.len() != "ArrowDown"@.len());
    assert("-"@.len() != "PageUp"@.len());
    assert("-"@.len() != "PageDown"@.len());
    assert("-"@.len() != "Home"@.len());
    assert("-"@.len() != "End"@.len());
    assert("-"@[0] != "="@[0]);
    assert("-"@[0] != "+"@[0]);
}

} // verus!
