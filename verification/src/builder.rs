//! The executable menu tree builder. Each constructor is proved to return
//! exactly the submenu that [`crate::topology`] specifies, and [`build`] is
//! proved to return the complete topology for the requested profile, after a
//! runtime validation pass that rejects duplicate action ids and duplicate
//! shortcut chords (proved never to fire on this topology).

use vstd::prelude::*;

use crate::menu::{
    MenuBuildError, MenuEntry, MenuTree, PlatformProfile, PredefinedKind, ShortcutSpec, Submenu,
    SubmenuView, distinct, entry_chords, entry_ids, primary_chord, submenu_chords,
    submenu_chords_upto, submenu_ids, submenu_ids_upto, tree_chords, tree_chords_upto, tree_ids,
    tree_ids_upto,
};
use crate::topology::{
    app_identity_submenu_spec, file_submenu_spec, help_submenu_spec, topology, view_submenu_spec,
};

verus! {

/// The chord `CmdOrCtrl+key` as a runtime value.
fn primary(key: char) -> (c: ShortcutSpec)
    ensures
        c == primary_chord(key),
{
    ShortcutSpec { cmd_or_ctrl: true, shift: false, alt: false, key }
}

/// Builds the macOS application-identity submenu.
fn app_identity_submenu() -> (m: Submenu)
    ensures
        m@ == app_identity_submenu_spec(),
{
    let mut entries: Vec<MenuEntry> = Vec::new();
    entries.push(MenuEntry::PredefinedAction { kind: PredefinedKind::About });
    entries.push(MenuEntry::Separator);
    entries.push(MenuEntry::Action {
        id: "preferences".to_owned(),
        label: "Preferences...".to_owned(),
        enabled: true,
        shortcut: Some(primary(',')),
    });
    entries.push(MenuEntry::Separator);
    entries.push(MenuEntry::PredefinedAction { kind: PredefinedKind::Services });
    entries.push(MenuEntry::Separator);
    entries.push(MenuEntry::PredefinedAction { kind: PredefinedKind::Hide });
    entries.push(MenuEntry::PredefinedAction { kind: PredefinedKind::HideOthers });
    entries.push(MenuEntry::PredefinedAction { kind: PredefinedKind::ShowAll });
    entries.push(MenuEntry::Separator);
    entries.push(MenuEntry::PredefinedAction { kind: PredefinedKind::Quit });
    let m = Submenu { title: "PDF Reader".to_owned(), entries };
    proof {
        assert(m@ =~~= app_identity_submenu_spec());
    }
    m
}

/// Builds the File submenu; away from macOS it carries the trailing Quit
/// entry.
fn file_submenu(profile: PlatformProfile) -> (m: Submenu)
    ensures
        m@ == file_submenu_spec(profile),
{
    let mut entries: Vec<MenuEntry> = Vec::new();
    entries.push(MenuEntry::Action {
        id: "open".to_owned(),
        label: "Open...".to_owned(),
        enabled: true,
        shortcut: Some(primary('O')),
    });
    entries.push(MenuEntry::Separator);
    entries.push(MenuEntry::Action {
        id: "close".to_owned(),
        label: "Close".to_owned(),
        enabled: true,
        shortcut: Some(primary('W')),
    });
    match profile {
        PlatformProfile::MacOS => {},
        PlatformProfile::Other => {
            entries.push(MenuEntry::Separator);
            entries.push(MenuEntry::PredefinedAction { kind: PredefinedKind::Quit });
        },
    }
    let m = Submenu { title: "File".to_owned(), entries };
    proof {
        assert(m@ =~~= file_submenu_spec(profile));
    }
    m
}

/// Builds the Help submenu used away from macOS.
fn help_submenu() -> (m: Submenu)
    ensures
        m@ == help_submenu_spec(),
{
    let mut entries: Vec<MenuEntry> = Vec::new();
    entries.push(MenuEntry::Action {
        id: "about".to_owned(),
        label: "About PDF Reader".to_owned(),
        enabled: true,
        shortcut: None,
    });
    let m = Submenu { title: "Help".to_owned(), entries };
    proof {
        assert(m@ =~~= help_submenu_spec());
    }
    m
}

/// Builds the View submenu.
fn view_submenu() -> (m: Submenu)
    ensures
        m@ == view_submenu_spec(),
{
    let mut entries: Vec<MenuEntry> = Vec::new();
    entries.push(MenuEntry::Action {
        id: "zoom_in".to_owned(),
        label: "Zoom In".to_owned(),
        enabled: true,
        shortcut: Some(primary('+')),
    });
    entries.push(MenuEntry::Action {
        id: "zoom_out".to_owned(),
        label: "Zoom Out".to_owned(),
        enabled: true,
        shortcut: Some(primary('-')),
    });
    entries.push(MenuEntry::Separator);
    entries.push(MenuEntry::Action {
        id: "actual_size".to_owned(),
        label: "Actual Size".to_owned(),
        enabled: true,
        shortcut: Some(primary('0')),
    });
    entries.push(MenuEntry::Separator);
    entries.push(MenuEntry::Action {
        id: "next_page".to_owned(),
        label: "Next Page".to_owned(),
        enabled: true,
        shortcut: Some(primary(']')),
    });
    entries.push(MenuEntry::Action {
        id: "prev_page".to_owned(),
        label: "Previous Page".to_owned(),
        enabled: true,
        shortcut: Some(primary('[')),
    });
    let m = Submenu { title: "View".to_owned(), entries };
    proof {
        assert(m@ =~~= view_submenu_spec());
    }
    m
}

/// Walks a tree and collects every action id and every bound shortcut chord,
/// in tree order.
fn collect_ids_and_chords(tree: &MenuTree) -> (out: (Vec<String>, Vec<ShortcutSpec>))
    ensures
        out.0.deep_view() == tree_ids(tree@),
        out.1@ == tree_chords(tree@),
{
    let mut ids: Vec<String> = Vec::new();
    let mut chords: Vec<ShortcutSpec> = Vec::new();
    proof {
        assert(ids.deep_view() =~= tree_ids_upto(tree@, 0));
        assert(chords@ =~= tree_chords_upto(tree@, 0));
    }
    let mut a: usize = 0;
    while a < tree.submenus.len()
        invariant
            a <= tree.submenus.len(),
            ids.deep_view() == tree_ids_upto(tree@, a as int),
            chords@ == tree_chords_upto(tree@, a as int),
        decreases tree.submenus.len() - a,
    {
        let sub = &tree.submenus[a];
        proof {
            assert(sub@ == tree@[a as int]);
        }
        let mut i: usize = 0;
        while i < sub.entries.len()
            invariant
                a < tree.submenus.len(),
                sub@ == tree@[a as int],
                sub == &tree.submenus[a as int],
                i <= sub.entries.len(),
                ids.deep_view() == tree_ids_upto(tree@, a as int) + submenu_ids_upto(
                    sub@.entries,
                    i as int,
                ),
                chords@ == tree_chords_upto(tree@, a as int) + submenu_chords_upto(
                    sub@.entries,
                    i as int,
                ),
            decreases sub.entries.len() - i,
        {
            let ghost prev_ids = ids.deep_view();
            let ghost prev_chords = chords@;
            match &sub.entries[i] {
                MenuEntry::Action { id, shortcut, .. } => {
                    ids.push(id.clone());
                    proof {
                        assert(ids.deep_view() =~= prev_ids.push(id@));
                    }
                    match shortcut {
                        Some(c) => {
                            chords.push(*c);
                        },
                        None => {},
                    }
                },
                _ => {},
            }
            proof {
                assert(sub@.entries[i as int] == sub.entries@[i as int]@);
                assert(prev_ids + entry_ids(sub@.entries[i as int]) =~= ids.deep_view());
                assert(prev_chords + entry_chords(sub@.entries[i as int]) =~= chords@);
            }
            i += 1;
        }
        proof {
            assert(submenu_ids_upto(sub@.entries, sub@.entries.len() as int) == submenu_ids(
                sub@,
            ));
            assert(tree_ids_upto(tree@, a as int + 1) == tree_ids_upto(tree@, a as int)
                + submenu_ids(tree@[a as int]));
            assert(tree_chords_upto(tree@, a as int + 1) == tree_chords_upto(tree@, a as int)
                + submenu_chords(tree@[a as int]));
        }
        a += 1;
    }
    proof {
        assert(tree_ids_upto(tree@, tree@.len() as int) == tree_ids(tree@));
        assert(tree_chords_upto(tree@, tree@.len() as int) == tree_chords(tree@));
    }
    (ids, chords)
}

/// Reports whether two positions of `v` hold the same string.
fn find_string_duplicate(v: &Vec<String>) -> (dup: bool)
    ensures
        dup <==> !distinct(v.deep_view()),
{
    let mut i: usize = 0;
    while i < v.len()
        invariant
            i <= v.len(),
            forall|p: int, q: int|
                0 <= p < q < v.deep_view().len() && p < i ==> v.deep_view()[p]
                    != v.deep_view()[q],
        decreases v.len() - i,
    {
        let mut j: usize = i + 1;
        while j < v.len()
            invariant
                i < v.len(),
                i < j <= v.len(),
                forall|p: int, q: int|
                    0 <= p < q < v.deep_view().len() && p < i ==> v.deep_view()[p]
                        != v.deep_view()[q],
                forall|q: int|
                    i < q < j ==> v.deep_view()[i as int] != v.deep_view()[q],
            decreases v.len() - j,
        {
            if v[i] == v[j] {
                proof {
                    assert(v.deep_view()[i as int] == v.deep_view()[j as int]);
                }
                return true;
            }
            j += 1;
        }
        i += 1;
    }
    false
}

/// Reports whether two positions of `v` hold the same chord.
fn find_chord_duplicate(v: &Vec<ShortcutSpec>) -> (dup: bool)
    ensures
        dup <==> !distinct(v@),
{
    let mut i: usize = 0;
    while i < v.len()
        invariant
            i <= v.len(),
            forall|p: int, q: int| 0 <= p < q < v@.len() && p < i ==> v@[p] != v@[q],
        decreases v.len() - i,
    {
        let mut j: usize = i + 1;
        while j < v.len()
            invariant
                i < v.len(),
                i < j <= v.len(),
                forall|p: int, q: int| 0 <= p < q < v@.len() && p < i ==> v@[p] != v@[q],
                forall|q: int| i < q < j ==> v@[i as int] != v@[q],
            decreases v.len() - j,
        {
            if v[i] == v[j] {
                return true;
            }
            j += 1;
        }
        i += 1;
    }
    false
}

/// Checks a fully assembled tree for the two internal-consistency faults the
/// data model rules out: a repeated action id and a repeated shortcut chord.
/// A tree with a repeated id is reported as such even when its chords are
/// also faulty.
pub fn validate(tree: &MenuTree) -> (r: Result<(), MenuBuildError>)
    ensures
        r is Ok <==> distinct(tree_ids(tree@)) && distinct(tree_chords(tree@)),
        r matches Err(e) ==> (e is DuplicateId <==> !distinct(tree_ids(tree@))) && (
        e is DuplicateShortcut <==> distinct(tree_ids(tree@)) && !distinct(
            tree_chords(tree@),
        )),
{
    let (ids, chords) = collect_ids_and_chords(tree);
    if find_string_duplicate(&ids) {
        return Err(MenuBuildError::DuplicateId);
    }
    if find_chord_duplicate(&chords) {
        return Err(MenuBuildError::DuplicateShortcut);
    }
    Ok(())
}

/// Evaluates the action-id collection of each fixed submenu.
proof fn lemma_submenu_ids_values()
    ensures
        submenu_ids(app_identity_submenu_spec()) == seq!["preferences"@],
        submenu_ids(file_submenu_spec(PlatformProfile::MacOS)) == seq!["open"@, "close"@],
        submenu_ids(file_submenu_spec(PlatformProfile::Other)) == seq!["open"@, "close"@],
        submenu_ids(view_submenu_spec()) == seq![
            "zoom_in"@,
            "zoom_out"@,
            "actual_size"@,
            "next_page"@,
            "prev_page"@,
        ],
        submenu_ids(help_submenu_spec()) == seq!["about"@],
{
    reveal_with_fuel(submenu_ids_upto, 12);
    assert(submenu_ids(app_identity_submenu_spec()) =~= seq!["preferences"@]);
    assert(submenu_ids(file_submenu_spec(PlatformProfile::MacOS)) =~= seq!["open"@, "close"@]);
    assert(submenu_ids(file_submenu_spec(PlatformProfile::Other)) =~= seq!["open"@, "close"@]);
    assert(submenu_ids(view_submenu_spec()) =~= seq![
        "zoom_in"@,
        "zoom_out"@,
        "actual_size"@,
        "next_page"@,
        "prev_page"@,
    ]);
    assert(submenu_ids(help_submenu_spec()) =~= seq!["about"@]);
}

/// Evaluates the shortcut-chord collection of each fixed submenu.
proof fn lemma_submenu_chords_values()
    ensures
        submenu_chords(app_identity_submenu_spec()) == seq![primary_chord(',')],
        submenu_chords(file_submenu_spec(PlatformProfile::MacOS)) == seq![
            primary_chord('O'),
            primary_chord('W'),
        ],
        submenu_chords(file_submenu_spec(PlatformProfile::Other)) == seq![
            primary_chord('O'),
            primary_chord('W'),
        ],
        submenu_chords(view_submenu_spec()) == seq![
            primary_chord('+'),
            primary_chord('-'),
            primary_chord('0'),
            primary_chord(']'),
            primary_chord('['),
        ],
        submenu_chords(help_submenu_spec()) == Seq::<ShortcutSpec>::empty(),
{
    reveal_with_fuel(submenu_chords_upto, 12);
    assert(submenu_chords(app_identity_submenu_spec()) =~= seq![primary_chord(',')]);
    assert(submenu_chords(file_submenu_spec(PlatformProfile::MacOS)) =~= seq![
        primary_chord('O'),
        primary_chord('W'),
    ]);
    assert(submenu_chords(file_submenu_spec(PlatformProfile::Other)) =~= seq![
        primary_chord('O'),
        primary_chord('W'),
    ]);
    assert(submenu_chords(view_submenu_spec()) =~= seq![
        primary_chord('+'),
        primary_chord('-'),
        primary_chord('0'),
        primary_chord(']'),
        primary_chord('['),
    ]);
    assert(submenu_chords(help_submenu_spec()) =~= Seq::<ShortcutSpec>::empty());
}

/// Evaluates the id and chord collections of both fixed topologies.
proof fn lemma_topology_collections()
    ensures
        tree_ids(topology(PlatformProfile::MacOS)) == seq![
            "preferences"@,
            "open"@,
            "close"@,
            "zoom_in"@,
            "zoom_out"@,
            "actual_size"@,
            "next_page"@,
            "prev_page"@,
        ],
        tree_ids(topology(PlatformProfile::Other)) == seq![
            "open"@,
            "close"@,
            "zoom_in"@,
            "zoom_out"@,
            "actual_size"@,
            "next_page"@,
            "prev_page"@,
            "about"@,
        ],
        tree_chords(topology(PlatformProfile::MacOS)) == seq![
            primary_chord(','),
            primary_chord('O'),
            primary_chord('W'),
            primary_chord('+'),
            primary_chord('-'),
            primary_chord('0'),
            primary_chord(']'),
            primary_chord('['),
        ],
        tree_chords(topology(PlatformProfile::Other)) == seq![
            primary_chord('O'),
            primary_chord('W'),
            primary_chord('+'),
            primary_chord('-'),
            primary_chord('0'),
            primary_chord(']'),
            primary_chord('['),
        ],
{
    lemma_submenu_ids_values();
    lemma_submenu_chords_values();
    reveal_with_fuel(tree_ids_upto, 4);
    reveal_with_fuel(tree_chords_upto, 4);
    assert(tree_ids(topology(PlatformProfile::MacOS)) =~= seq![
        "preferences"@,
        "open"@,
        "close"@,
        "zoom_in"@,
        "zoom_out"@,
        "actual_size"@,
        "next_page"@,
        "prev_page"@,
    ]);
    assert(tree_ids(topology(PlatformProfile::Other)) =~= seq![
        "open"@,
        "close"@,
        "zoom_in"@,
        "zoom_out"@,
        "actual_size"@,
        "next_page"@,
        "prev_page"@,
        "about"@,
    ]);
    assert(tree_chords(topology(PlatformProfile::MacOS)) =~= seq![
        primary_chord(','),
        primary_chord('O'),
        primary_chord('W'),
        primary_chord('+'),
        primary_chord('-'),
        primary_chord('0'),
        primary_chord(']'),
        primary_chord('['),
    ]);
    assert(tree_chords(topology(PlatformProfile::Other)) =~= seq![
        primary_chord('O'),
        primary_chord('W'),
        primary_chord('+'),
        primary_chord('-'),
        primary_chord('0'),
        primary_chord(']'),
        primary_chord('['),
    ]);
}

/// The nine action ids of this menu are pairwise different character
/// sequences.
proof fn lemma_id_literals_distinct()
    ensures
        "preferences"@ != "open"@,
        "preferences"@ != "close"@,
        "preferences"@ != "zoom_in"@,
        "preferences"@ != "zoom_out"@,
        "preferences"@ != "actual_size"@,
        "preferences"@ != "next_page"@,
        "preferences"@ != "prev_page"@,
        "preferences"@ != "about"@,
        "open"@ != "close"@,
        "open"@ != "zoom_in"@,
        "open"@ != "zoom_out"@,
        "open"@ != "actual_size"@,
        "open"@ != "next_page"@,
        "open"@ != "prev_page"@,
        "open"@ != "about"@,
        "close"@ != "zoom_in"@,
        "close"@ != "zoom_out"@,
        "close"@ != "actual_size"@,
        "close"@ != "next_page"@,
        "close"@ != "prev_page"@,
        "close"@ != "about"@,
        "zoom_in"@ != "zoom_out"@,
        "zoom_in"@ != "actual_size"@,
        "zoom_in"@ != "next_page"@,
        "zoom_in"@ != "prev_page"@,
        "zoom_in"@ != "about"@,
        "zoom_out"@ != "actual_size"@,
        "zoom_out"@ != "next_page"@,
        "zoom_out"@ != "prev_page"@,
        "zoom_out"@ != "about"@,
        "actual_size"@ != "next_page"@,
        "actual_size"@ != "prev_page"@,
        "actual_size"@ != "about"@,
        "next_page"@ != "prev_page"@,
        "next_page"@ != "about"@,
        "prev_page"@ != "about"@,
{
    reveal_strlit("preferences");
    reveal_strlit("open");
    reveal_strlit("close");
    reveal_strlit("zoom_in");
    reveal_strlit("zoom_out");
    reveal_strlit("actual_size");
    reveal_strlit("next_page");
    reveal_strlit("prev_page");
    reveal_strlit("about");
    assert("preferences"@.len() == 11);
    assert("open"@.len() == 4);
    assert("close"@.len() == 5);
    assert("zoom_in"@.len() == 7);
    assert("zoom_out"@.len() == 8);
    assert("actual_size"@.len() == 11);
    assert("next_page"@.len() == 9);
    assert("prev_page"@.len() == 9);
    assert("about"@.len() == 5);
    assert("preferences"@[0] == 'p' && "actual_size"@[0] == 'a');
    assert("next_page"@[0] == 'n' && "prev_page"@[0] == 'p');
    assert("close"@[0] == 'c' && "about"@[0] == 'a');
}

/// Every tree the builder produces has pairwise-distinct action ids, on every
/// platform profile: no two actions in one topology share an id.
pub proof fn lemma_action_ids_distinct(profile: PlatformProfile)
    ensures
        distinct(tree_ids(topology(profile))),
{
    lemma_topology_collections();
    lemma_id_literals_distinct();
    let s = tree_ids(topology(profile));
    assert(s.len() == 8);
    match profile {
        PlatformProfile::MacOS => {
            assert(s[0] == "preferences"@);
            assert(s[1] == "open"@);
            assert(s[2] == "close"@);
            assert(s[3] == "zoom_in"@);
            assert(s[4] == "zoom_out"@);
            assert(s[5] == "actual_size"@);
            assert(s[6] == "next_page"@);
            assert(s[7] == "prev_page"@);
        },
        PlatformProfile::Other => {
            assert(s[0] == "open"@);
            assert(s[1] == "close"@);
            assert(s[2] == "zoom_in"@);
            assert(s[3] == "zoom_out"@);
            assert(s[4] == "actual_size"@);
            assert(s[5] == "next_page"@);
            assert(s[6] == "prev_page"@);
            assert(s[7] == "about"@);
        },
    }
    assert forall|i: int, j: int| 0 <= i < j < s.len() implies s[i] != s[j] by {
        assert(s[i] != s[j]);
    }
}

/// Every tree the builder produces binds pairwise-distinct shortcut chords,
/// on every platform profile: no two actions in one topology share a chord.
pub proof fn lemma_shortcut_chords_distinct(profile: PlatformProfile)
    ensures
        distinct(tree_chords(topology(profile))),
{
    lemma_topology_collections();
    let s = tree_chords(topology(profile));
    assert forall|i: int, j: int| 0 <= i < j < s.len() implies s[i] != s[j] by {
        assert(s[i].key != s[j].key);
    }
}

/// Building twice with the same profile is deterministic: any two trees that
/// meet `build`'s postcondition for one profile are equal, and so carry
/// identical action ids in identical order and identical shortcut bindings.
pub proof fn lemma_build_deterministic(
    profile: PlatformProfile,
    t1: Seq<SubmenuView>,
    t2: Seq<SubmenuView>,
)
    requires
        t1 == topology(profile),
        t2 == topology(profile),
    ensures
        t1 == t2,
        tree_ids(t1) == tree_ids(t2),
        tree_chords(t1) == tree_chords(t2),
{
}

/// Builds the complete menu tree for `profile`.
///
/// The returned tree is exactly the fixed topology for that profile:
/// `[AppIdentity?, File, View, Help?]` with the optional submenus present
/// only under their platform condition. Assembly always succeeds — the
/// validation pass that guards against duplicate action ids and duplicate
/// shortcut chords is proved never to fire on this topology — so the same
/// profile always yields the same tree.
pub fn build(profile: PlatformProfile) -> (r: Result<MenuTree, MenuBuildError>)
    ensures
        r matches Ok(tree) && tree@ == topology(profile),
        r matches Ok(tree) ==> distinct(tree_ids(tree@)) && distinct(tree_chords(tree@)),
{
    let mut submenus: Vec<Submenu> = Vec::new();
    match profile {
        PlatformProfile::MacOS => {
            submenus.push(app_identity_submenu());
            submenus.push(file_submenu(profile));
            submenus.push(view_submenu());
        },
        PlatformProfile::Other => {
            submenus.push(file_submenu(profile));
            submenus.push(view_submenu());
            submenus.push(help_submenu());
        },
    }
    let tree = MenuTree { submenus };
    proof {
        assert(tree@ =~= topology(profile));
        lemma_action_ids_distinct(profile);
        lemma_shortcut_chords_distinct(profile);
    }
    match validate(&tree) {
        Ok(()) => Ok(tree),
        Err(e) => Err(e),
    }
}

} // verus!
