//! The fixed menu topology, stated as spec functions: the exact tree of
//! submenus and entries that the builder must produce for each platform
//! profile. These functions are the reference the executable builder is
//! verified against.

use vstd::prelude::*;

use crate::menu::{
    EntryView, PlatformProfile, PredefinedKind, SubmenuView, primary_chord,
};

verus! {

/// The macOS-only application-identity submenu: About, Preferences, Services,
/// the Hide group, and Quit, in their conventional order.
pub open spec fn app_identity_submenu_spec() -> SubmenuView {
    SubmenuView {
        title: "PDF Reader"@,
        entries: seq![
            (EntryView::PredefinedAction { kind: PredefinedKind::About }),
            EntryView::Separator,
            (EntryView::Action {
                id: "preferences"@,
                label: "Preferences..."@,
                enabled: true,
                shortcut: Some(primary_chord(',')),
            }),
            EntryView::Separator,
            (EntryView::PredefinedAction { kind: PredefinedKind::Services }),
            EntryView::Separator,
            (EntryView::PredefinedAction { kind: PredefinedKind::Hide }),
            (EntryView::PredefinedAction { kind: PredefinedKind::HideOthers }),
            (EntryView::PredefinedAction { kind: PredefinedKind::ShowAll }),
            EntryView::Separator,
            (EntryView::PredefinedAction { kind: PredefinedKind::Quit }),
        ],
    }
}

/// The File submenu. On platforms other than macOS it ends with a separator
/// and a Quit entry, since those platforms have no application-identity
/// submenu to carry Quit.
pub open spec fn file_submenu_spec(profile: PlatformProfile) -> SubmenuView {
    SubmenuView {
        title: "File"@,
        entries: seq![
            (EntryView::Action {
                id: "open"@,
                label: "Open..."@,
                enabled: true,
                shortcut: Some(primary_chord('O')),
            }),
            EntryView::Separator,
            (EntryView::Action {
                id: "close"@,
                label: "Close"@,
                enabled: true,
                shortcut: Some(primary_chord('W')),
            }),
        ] + if profile is Other {
            seq![
                EntryView::Separator,
                (EntryView::PredefinedAction { kind: PredefinedKind::Quit }),
            ]
        } else {
            Seq::empty()
        },
    }
}

/// The View submenu: zoom controls and page navigation, identical on all
/// platforms.
pub open spec fn view_submenu_spec() -> SubmenuView {
    SubmenuView {
        title: "View"@,
        entries: seq![
            (EntryView::Action {
                id: "zoom_in"@,
                label: "Zoom In"@,
                enabled: true,
                shortcut: Some(primary_chord('+')),
            }),
            (EntryView::Action {
                id: "zoom_out"@,
                label: "Zoom Out"@,
                enabled: true,
                shortcut: Some(primary_chord('-')),
            }),
            EntryView::Separator,
            (EntryView::Action {
                id: "actual_size"@,
                label: "Actual Size"@,
                enabled: true,
                shortcut: Some(primary_chord('0')),
            }),
            EntryView::Separator,
            (EntryView::Action {
                id: "next_page"@,
                label: "Next Page"@,
                enabled: true,
                shortcut: Some(primary_chord(']')),
            }),
            (EntryView::Action {
                id: "prev_page"@,
                label: "Previous Page"@,
                enabled: true,
                shortcut: Some(primary_chord('[')),
            }),
        ],
    }
}

/// The Help submenu, present only away from macOS, where About is not already
/// offered by an application-identity submenu.
pub open spec fn help_submenu_spec() -> SubmenuView {
    SubmenuView {
        title: "Help"@,
        entries: seq![
            (EntryView::Action {
                id: "about"@,
                label: "About PDF Reader"@,
                enabled: true,
                shortcut: None,
            }),
        ],
    }
}

/// The complete top-level topology for a profile:
/// `[AppIdentity?, File, View, Help?]`, with the optional submenus present
/// only under their platform condition.
pub open spec fn topology(profile: PlatformProfile) -> Seq<SubmenuView> {
    match profile {
        PlatformProfile::MacOS => seq![
            app_identity_submenu_spec(),
            file_submenu_spec(profile),
            view_submenu_spec(),
        ],
        PlatformProfile::Other => seq![
            file_submenu_spec(profile),
            view_submenu_spec(),
            help_submenu_spec(),
        ],
    }
}

/// A macOS tree opens with the application-identity submenu; any other
/// platform's tree carries no submenu of that title and instead ends with the
/// Help submenu, which in turn never appears on macOS.
pub proof fn lemma_platform_conditioning()
    ensures
        topology(PlatformProfile::MacOS)[0] == app_identity_submenu_spec(),
        forall|k: int|
            0 <= k < topology(PlatformProfile::Other).len() ==> topology(
                PlatformProfile::Other,
            )[k].title != "PDF Reader"@,
        topology(PlatformProfile::Other).last() == help_submenu_spec(),
        forall|k: int|
            0 <= k < topology(PlatformProfile::MacOS).len() ==> topology(
                PlatformProfile::MacOS,
            )[k].title != "Help"@,
{
    reveal_strlit("PDF Reader");
    reveal_strlit("File");
    reveal_strlit("View");
    reveal_strlit("Help");
    assert("PDF Reader"@.len() == 10);
    assert("File"@.len() == 4);
    assert("View"@.len() == 4);
    assert("Help"@.len() == 4);
    assert("File"@[0] == 'F' && "View"@[0] == 'V' && "Help"@[0] == 'H');
    let mac = topology(PlatformProfile::MacOS);
    let other = topology(PlatformProfile::Other);
    assert(mac.len() == 3 && other.len() == 3);
    assert(other[0].title == "File"@);
    assert(other[1].title == "View"@);
    assert(other[2].title == "Help"@);
    assert(mac[0].title == "PDF Reader"@);
    assert(mac[1].title == "File"@);
    assert(mac[2].title == "View"@);
    assert forall|k: int| 0 <= k < other.len() implies other[k].title != "PDF Reader"@ by {
        assert(other[k].title != "PDF Reader"@);
    }
    assert forall|k: int| 0 <= k < mac.len() implies mac[k].title != "Help"@ by {
        assert(mac[k].title != "Help"@);
    }
}

/// Away from macOS the File submenu ends with a separator followed by the
/// Quit entry; on macOS it contains no Quit entry at all, since Quit lives in
/// the application-identity submenu there.
pub proof fn lemma_file_quit_placement()
    ensures
        ({
            let e = file_submenu_spec(PlatformProfile::Other).entries;
            &&& e.len() == 5
            &&& e[4] == (EntryView::PredefinedAction { kind: PredefinedKind::Quit })
            &&& e[3] == EntryView::Separator
        }),
        forall|k: int|
            0 <= k < file_submenu_spec(PlatformProfile::MacOS).entries.len()
                ==> file_submenu_spec(PlatformProfile::MacOS).entries[k] != (
            EntryView::PredefinedAction { kind: PredefinedKind::Quit }),
{
    let mac = file_submenu_spec(PlatformProfile::MacOS).entries;
    assert(mac.len() == 3);
    assert(mac[0] is Action);
    assert(mac[1] == EntryView::Separator);
    assert(mac[2] is Action);
    assert forall|k: int|
        0 <= k < mac.len() implies mac[k] != (EntryView::PredefinedAction {
        kind: PredefinedKind::Quit,
    }) by {
        assert(mac[k] != (EntryView::PredefinedAction { kind: PredefinedKind::Quit }));
    }
}

} // verus!
