//! The main window's show/hide toggle and the global shortcuts that may
//! trigger it.
use vstd::prelude::*;

verus! {

/// What the toggle does to the main window.
#[derive(Clone, Copy, Debug, PartialEq, Eq, Structural)]
pub enum WindowAction {
    /// Hide the window.
    Hide,
    /// Show the window and bring it to the front with focus.
    Show,
}

/// The toggle hides a window that is visible and focused, and otherwise
/// brings it to the front.
pub fn toggle_action(visible: bool, focused: bool) -> (r: WindowAction)
    ensures
        r == (if visible && focused { WindowAction::Hide } else { WindowAction::Show }),
{
    if visible && focused {
        WindowAction::Hide
    } else {
        WindowAction::Show
    }
}

/// The key of a shortcut.
#[derive(Clone, Copy, Debug, PartialEq, Eq, Structural)]
pub enum ShortcutKey {
    M,
    Space,
}

/// A global shortcut to try for the window toggle: its label, the held
/// modifiers and the key.
#[derive(Clone, Debug)]
pub struct ShortcutCandidate {
    pub label: String,
    pub control: bool,
    pub shift: bool,
    pub alt: bool,
    pub super_key: bool,
    pub key: ShortcutKey,
}

/// The view of a candidate: label, control, shift, alt, super, key.
pub open spec fn candidate_view(c: ShortcutCandidate) -> (Seq<char>, bool, bool, bool, bool, ShortcutKey) {
    (c.label@, c.control, c.shift, c.alt, c.super_key, c.key)
}

/// The shortcuts tried for the window toggle, in order of preference.
pub open spec fn shortcut_candidates() -> Seq<(Seq<char>, bool, bool, bool, bool, ShortcutKey)> {
    seq![
        ("Alt+Space"@, false, false, true, false, ShortcutKey::Space),
        ("Ctrl+Alt+M"@, true, false, true, false, ShortcutKey::M),
        ("Ctrl+Shift+Alt+M"@, true, true, true, false, ShortcutKey::M),
        ("Win+Alt+M"@, false, false, true, true, ShortcutKey::M),
        ("Ctrl+Shift+Alt+Space"@, true, true, true, false, ShortcutKey::Space),
    ]
}

fn candidate(label: &str, control: bool, shift: bool, alt: bool, super_key: bool, key: ShortcutKey) -> (r: ShortcutCandidate)
    ensures
        candidate_view(r) == (label@, control, shift, alt, super_key, key),
{
    ShortcutCandidate { label: label.to_owned(), control, shift, alt, super_key, key }
}

/// The shortcuts tried, in order, for the window toggle: Alt+Space first,
/// then fallbacks for when it is taken; the first that can be registered
/// is used.
pub fn toggle_shortcut_candidates() -> (r: Vec<ShortcutCandidate>)
    ensures
        r@.len() == shortcut_candidates().len(),
        forall|i: int| 0 <= i < r@.len() ==> candidate_view(#[trigger] r@[i]) == shortcut_candidates()[i],
{
    let mut v: Vec<ShortcutCandidate> = Vec::new();
    v.push(candidate("Alt+Space", false, false, true, false, ShortcutKey::Space));
    v.push(candidate("Ctrl+Alt+M", true, false, true, false, ShortcutKey::M));
    v.push(candidate("Ctrl+Shift+Alt+M", true, true, true, false, ShortcutKey::M));
    v.push(candidate("Win+Alt+M", false, false, true, true, ShortcutKey::M));
    v.push(candidate("Ctrl+Shift+Alt+Space", true, true, true, false, ShortcutKey::Space));
    v
}

} // verus!
