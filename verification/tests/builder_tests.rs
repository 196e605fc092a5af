use menu_core::builder::{build, validate};
use menu_core::menu::{
    MenuBuildError, MenuEntry, MenuTree, PlatformProfile, PredefinedKind, ShortcutSpec, Submenu,
};

fn primary(key: char) -> ShortcutSpec {
    ShortcutSpec { cmd_or_ctrl: true, shift: false, alt: false, key }
}

fn action(id: &str, label: &str, shortcut: Option<ShortcutSpec>) -> MenuEntry {
    MenuEntry::Action { id: id.to_owned(), label: label.to_owned(), enabled: true, shortcut }
}

fn collect_ids(tree: &MenuTree) -> Vec<String> {
    let mut ids = Vec::new();
    for sub in &tree.submenus {
        for entry in &sub.entries {
            if let MenuEntry::Action { id, .. } = entry {
                ids.push(id.clone());
            }
        }
    }
    ids
}

fn collect_chords(tree: &MenuTree) -> Vec<ShortcutSpec> {
    let mut chords = Vec::new();
    for sub in &tree.submenus {
        for entry in &sub.entries {
            if let MenuEntry::Action { shortcut: Some(c), .. } = entry {
                chords.push(*c);
            }
        }
    }
    chords
}

fn titles(tree: &MenuTree) -> Vec<String> {
    tree.submenus.iter().map(|s| s.title.clone()).collect()
}

#[test]
fn build_succeeds_with_unique_ids_on_macos() {
    let tree = build(PlatformProfile::MacOS).unwrap();
    let ids = collect_ids(&tree);
    assert_eq!(
        ids,
        vec![
            "preferences", "open", "close", "zoom_in", "zoom_out", "actual_size", "next_page",
            "prev_page"
        ]
    );
    for i in 0..ids.len() {
        for j in i + 1..ids.len() {
            assert_ne!(ids[i], ids[j]);
        }
    }
}

#[test]
fn build_succeeds_with_unique_ids_on_other() {
    let tree = build(PlatformProfile::Other).unwrap();
    let ids = collect_ids(&tree);
    assert_eq!(
        ids,
        vec![
            "open", "close", "zoom_in", "zoom_out", "actual_size", "next_page", "prev_page",
            "about"
        ]
    );
    for i in 0..ids.len() {
        for j in i + 1..ids.len() {
            assert_ne!(ids[i], ids[j]);
        }
    }
}

#[test]
fn macos_has_app_identity_submenu_and_no_help() {
    let tree = build(PlatformProfile::MacOS).unwrap();
    assert_eq!(titles(&tree), vec!["PDF Reader", "File", "View"]);
}

#[test]
fn other_has_no_app_identity_and_help_is_last() {
    let tree = build(PlatformProfile::Other).unwrap();
    assert_eq!(titles(&tree), vec!["File", "View", "Help"]);
}

#[test]
fn file_submenu_ends_with_quit_on_other() {
    let tree = build(PlatformProfile::Other).unwrap();
    let file = &tree.submenus[0];
    assert_eq!(file.title, "File");
    let n = file.entries.len();
    assert_eq!(file.entries[n - 2], MenuEntry::Separator);
    assert_eq!(
        file.entries[n - 1],
        MenuEntry::PredefinedAction { kind: PredefinedKind::Quit }
    );
}

#[test]
fn file_submenu_has_no_quit_on_macos() {
    let tree = build(PlatformProfile::MacOS).unwrap();
    let file = &tree.submenus[1];
    assert_eq!(file.title, "File");
    for entry in &file.entries {
        assert_ne!(
            *entry,
            MenuEntry::PredefinedAction { kind: PredefinedKind::Quit }
        );
    }
}

#[test]
fn build_is_deterministic() {
    let mac_a = build(PlatformProfile::MacOS).unwrap();
    let mac_b = build(PlatformProfile::MacOS).unwrap();
    assert_eq!(mac_a, mac_b);
    let other_a = build(PlatformProfile::Other).unwrap();
    let other_b = build(PlatformProfile::Other).unwrap();
    assert_eq!(other_a, other_b);
}

#[test]
fn shortcut_chords_are_unique_and_exact() {
    let tree = build(PlatformProfile::MacOS).unwrap();
    let chords = collect_chords(&tree);
    assert_eq!(
        chords,
        vec![
            primary(','),
            primary('O'),
            primary('W'),
            primary('+'),
            primary('-'),
            primary('0'),
            primary(']'),
            primary('[')
        ]
    );
    for i in 0..chords.len() {
        for j in i + 1..chords.len() {
            assert_ne!(chords[i], chords[j]);
        }
    }
    let other = build(PlatformProfile::Other).unwrap();
    let other_chords = collect_chords(&other);
    for i in 0..other_chords.len() {
        for j in i + 1..other_chords.len() {
            assert_ne!(other_chords[i], other_chords[j]);
        }
    }
}

#[test]
fn view_submenu_entries_are_exact() {
    let tree = build(PlatformProfile::Other).unwrap();
    let view = &tree.submenus[1];
    assert_eq!(view.title, "View");
    assert_eq!(
        view.entries,
        vec![
            action("zoom_in", "Zoom In", Some(primary('+'))),
            action("zoom_out", "Zoom Out", Some(primary('-'))),
            MenuEntry::Separator,
            action("actual_size", "Actual Size", Some(primary('0'))),
            MenuEntry::Separator,
            action("next_page", "Next Page", Some(primary(']'))),
            action("prev_page", "Previous Page", Some(primary('['))),
        ]
    );
}

#[test]
fn app_identity_submenu_entries_are_exact() {
    let tree = build(PlatformProfile::MacOS).unwrap();
    let app = &tree.submenus[0];
    assert_eq!(app.title, "PDF Reader");
    assert_eq!(
        app.entries,
        vec![
            MenuEntry::PredefinedAction { kind: PredefinedKind::About },
            MenuEntry::Separator,
            action("preferences", "Preferences...", Some(primary(','))),
            MenuEntry::Separator,
            MenuEntry::PredefinedAction { kind: PredefinedKind::Services },
            MenuEntry::Separator,
            MenuEntry::PredefinedAction { kind: PredefinedKind::Hide },
            MenuEntry::PredefinedAction { kind: PredefinedKind::HideOthers },
            MenuEntry::PredefinedAction { kind: PredefinedKind::ShowAll },
            MenuEntry::Separator,
            MenuEntry::PredefinedAction { kind: PredefinedKind::Quit },
        ]
    );
}

#[test]
fn validate_accepts_built_trees() {
    let mac = build(PlatformProfile::MacOS).unwrap();
    assert_eq!(validate(&mac), Ok(()));
    let other = build(PlatformProfile::Other).unwrap();
    assert_eq!(validate(&other), Ok(()));
}

#[test]
fn validate_rejects_duplicate_ids() {
    let tree = MenuTree {
        submenus: vec![Submenu {
            title: "File".to_owned(),
            entries: vec![
                action("open", "Open...", Some(primary('O'))),
                action("open", "Open Again", Some(primary('P'))),
            ],
        }],
    };
    assert_eq!(validate(&tree), Err(MenuBuildError::DuplicateId));
}

#[test]
fn validate_rejects_duplicate_chords() {
    let tree = MenuTree {
        submenus: vec![Submenu {
            title: "File".to_owned(),
            entries: vec![
                action("open", "Open...", Some(primary('O'))),
                action("other", "Other", Some(primary('O'))),
            ],
        }],
    };
    assert_eq!(validate(&tree), Err(MenuBuildError::DuplicateShortcut));
}

#[test]
fn validate_reports_duplicate_id_before_duplicate_chord() {
    let tree = MenuTree {
        submenus: vec![Submenu {
            title: "File".to_owned(),
            entries: vec![
                action("open", "Open...", Some(primary('O'))),
                action("open", "Open Again", Some(primary('O'))),
            ],
        }],
    };
    assert_eq!(validate(&tree), Err(MenuBuildError::DuplicateId));
}

#[test]
fn validate_accepts_empty_tree() {
    let tree = MenuTree { submenus: Vec::new() };
    assert_eq!(validate(&tree), Ok(()));
}
