use muku::window::{toggle_action, toggle_shortcut_candidates, ShortcutKey, WindowAction};

#[test]
fn toggle_hides_only_visible_focused_window() {
    assert_eq!(toggle_action(true, true), WindowAction::Hide);
    assert_eq!(toggle_action(true, false), WindowAction::Show);
    assert_eq!(toggle_action(false, true), WindowAction::Show);
    assert_eq!(toggle_action(false, false), WindowAction::Show);
}

#[test]
fn shortcut_candidates_in_order() {
    let c = toggle_shortcut_candidates();
    let labels: Vec<&str> = c.iter().map(|x| x.label.as_str()).collect();
    assert_eq!(labels, vec!["Alt+Space", "Ctrl+Alt+M", "Ctrl+Shift+Alt+M", "Win+Alt+M", "Ctrl+Shift+Alt+Space"]);
    assert!(c[0].alt && !c[0].control && !c[0].shift && !c[0].super_key && c[0].key == ShortcutKey::Space);
    assert!(c[1].control && c[1].alt && !c[1].shift && !c[1].super_key && c[1].key == ShortcutKey::M);
    assert!(c[3].super_key && c[3].alt && !c[3].control);
    assert_eq!(c[4].key, ShortcutKey::Space);
    assert!(c[4].control && c[4].shift && c[4].alt);
}
