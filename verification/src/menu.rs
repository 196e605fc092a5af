//! The data model of the menu subsystem: platform profiles, shortcut chords,
//! menu entries, submenus and whole menu trees, together with their
//! mathematical views and the spec-level collections (action ids, shortcut
//! chords) that the builder's contracts are stated over.

use vstd::prelude::*;

verus! {

/// The platform the menu is built for, resolved once at startup and immutable
/// afterwards. It decides which optional submenus are present and where the
/// Quit entry lives.
#[derive(Clone, Copy, Debug, PartialEq, Eq, Structural)]
pub enum PlatformProfile {
    MacOS,
    Other,
}

/// An OS-supplied standard menu action. Its label and behaviour come from the
/// host platform; this core only places it in the tree.
#[derive(Clone, Copy, Debug, PartialEq, Eq, Structural)]
pub enum PredefinedKind {
    About,
    Quit,
    Hide,
    Services,
    HideOthers,
    ShowAll,
}

/// A normalized keyboard chord: a set of modifiers plus a key. Two chords are
/// equal exactly when all their fields are equal.
#[derive(Clone, Copy, Debug, PartialEq, Eq, Structural)]
pub struct ShortcutSpec {
    /// The platform's primary command modifier (Cmd on macOS, Ctrl elsewhere).
    pub cmd_or_ctrl: bool,
    pub shift: bool,
    pub alt: bool,
    pub key: char,
}

/// The chord `CmdOrCtrl+key`, the only modifier shape this menu uses.
pub open spec fn primary_chord(key: char) -> ShortcutSpec {
    ShortcutSpec { cmd_or_ctrl: true, shift: false, alt: false, key }
}

/// One entry of a submenu.
#[derive(Debug, PartialEq, Eq)]
pub enum MenuEntry {
    /// A clickable command. `id` is the stable identifier the router forwards
    /// on activation.
    Action { id: String, label: String, enabled: bool, shortcut: Option<ShortcutSpec> },
    /// A visual divider with no identity.
    Separator,
    /// An OS-supplied standard action.
    PredefinedAction { kind: PredefinedKind },
}

/// A named, ordered group of entries.
#[derive(Debug, PartialEq, Eq)]
pub struct Submenu {
    pub title: String,
    pub entries: Vec<MenuEntry>,
}

/// The root of the menu: an ordered sequence of top-level submenus. Built once
/// at startup and handed to the window host, which owns it thereafter.
#[derive(Debug, PartialEq, Eq)]
pub struct MenuTree {
    pub submenus: Vec<Submenu>,
}

/// The mathematical value of a [`MenuEntry`]: the same shape with strings
/// replaced by their character sequences.
#[verifier::ext_equal]
pub enum EntryView {
    Action { id: Seq<char>, label: Seq<char>, enabled: bool, shortcut: Option<ShortcutSpec> },
    Separator,
    PredefinedAction { kind: PredefinedKind },
}

/// The mathematical value of a [`Submenu`].
#[verifier::ext_equal]
pub struct SubmenuView {
    pub title: Seq<char>,
    pub entries: Seq<EntryView>,
}

impl View for MenuEntry {
    type V = EntryView;

    open spec fn view(&self) -> EntryView {
        match self {
            MenuEntry::Action { id, label, enabled, shortcut } => EntryView::Action {
                id: id@,
                label: label@,
                enabled: *enabled,
                shortcut: *shortcut,
            },
            MenuEntry::Separator => EntryView::Separator,
            MenuEntry::PredefinedAction { kind } => EntryView::PredefinedAction { kind: *kind },
        }
    }
}

impl View for Submenu {
    type V = SubmenuView;

    open spec fn view(&self) -> SubmenuView {
        SubmenuView {
            title: self.title@,
            entries: self.entries@.map(|i: int, e: MenuEntry| e@),
        }
    }
}

impl View for MenuTree {
    type V = Seq<SubmenuView>;

    open spec fn view(&self) -> Seq<SubmenuView> {
        self.submenus@.map(|i: int, m: Submenu| m@)
    }
}

/// Why a menu tree was rejected during assembly.
#[derive(Debug, Clone, Copy, PartialEq, Eq, Structural)]
pub enum MenuBuildError {
    /// Two actions in the same tree carry the same id; downstream dispatch
    /// would be ambiguous.
    DuplicateId,
    /// Two actions in the same tree bind the same shortcut chord.
    DuplicateShortcut,
}

/// The action ids contributed by one entry: one id for an action, none for a
/// separator or a predefined action.
pub open spec fn entry_ids(e: EntryView) -> Seq<Seq<char>> {
    match e {
        EntryView::Action { id, .. } => seq![id],
        _ => Seq::empty(),
    }
}

/// The shortcut chords contributed by one entry.
pub open spec fn entry_chords(e: EntryView) -> Seq<ShortcutSpec> {
    match e {
        EntryView::Action { shortcut: Some(c), .. } => seq![c],
        _ => Seq::empty(),
    }
}

/// The ids of the first `k` entries of a submenu, in entry order.
pub open spec fn submenu_ids_upto(entries: Seq<EntryView>, k: int) -> Seq<Seq<char>>
    decreases k,
{
    if k <= 0 {
        Seq::empty()
    } else {
        submenu_ids_upto(entries, k - 1) + entry_ids(entries[k - 1])
    }
}

/// All action ids of a submenu, in entry order.
pub open spec fn submenu_ids(m: SubmenuView) -> Seq<Seq<char>> {
    submenu_ids_upto(m.entries, m.entries.len() as int)
}

/// The ids of the first `k` submenus of a tree, in order.
pub open spec fn tree_ids_upto(t: Seq<SubmenuView>, k: int) -> Seq<Seq<char>>
    decreases k,
{
    if k <= 0 {
        Seq::empty()
    } else {
        tree_ids_upto(t, k - 1) + submenu_ids(t[k - 1])
    }
}

/// All action ids of a tree, in top-to-bottom, left-to-right order.
pub open spec fn tree_ids(t: Seq<SubmenuView>) -> Seq<Seq<char>> {
    tree_ids_upto(t, t.len() as int)
}

/// The chords of the first `k` entries of a submenu, in entry order.
pub open spec fn submenu_chords_upto(entries: Seq<EntryView>, k: int) -> Seq<ShortcutSpec>
    decreases k,
{
    if k <= 0 {
        Seq::empty()
    } else {
        submenu_chords_upto(entries, k - 1) + entry_chords(entries[k - 1])
    }
}

/// All shortcut chords bound in a submenu, in entry order.
pub open spec fn submenu_chords(m: SubmenuView) -> Seq<ShortcutSpec> {
    submenu_chords_upto(m.entries, m.entries.len() as int)
}

/// The chords of the first `k` submenus of a tree, in order.
pub open spec fn tree_chords_upto(t: Seq<SubmenuView>, k: int) -> Seq<ShortcutSpec>
    decreases k,
{
    if k <= 0 {
        Seq::empty()
    } else {
        tree_chords_upto(t, k - 1) + submenu_chords(t[k - 1])
    }
}

/// All shortcut chords bound in a tree, in order.
pub open spec fn tree_chords(t: Seq<SubmenuView>) -> Seq<ShortcutSpec> {
    tree_chords_upto(t, t.len() as int)
}

/// No element of the sequence occurs twice.
pub open spec fn distinct<A>(s: Seq<A>) -> bool {
    forall|i: int, j: int| 0 <= i < j < s.len() ==> s[i] != s[j]
}

} // verus!
