use menu_core::builder::build;
use menu_core::menu::{MenuEntry, PlatformProfile};
use menu_core::router::{MenuActivationEvent, Router, Surface, route};

fn event(id: &str) -> MenuActivationEvent {
    MenuActivationEvent { id: id.to_owned() }
}

#[test]
fn forwards_zoom_in_exactly_once() {
    let tree = build(PlatformProfile::MacOS).unwrap();
    let has_zoom_in = tree.submenus.iter().any(|s| {
        s.entries.iter().any(|e| matches!(e, MenuEntry::Action { id, .. } if id == "zoom_in"))
    });
    assert!(has_zoom_in);
    let mut router = Router::new();
    router.register(Surface::new());
    router.dispatch(event("zoom_in"));
    let surface = router.unregister().unwrap();
    assert_eq!(surface.received, vec!["zoom_in"]);
}

#[test]
fn forwards_ids_in_dispatch_order() {
    let mut router = Router::new();
    router.register(Surface::new());
    router.dispatch(event("open"));
    router.dispatch(event("next_page"));
    router.dispatch(event("close"));
    let surface = router.unregister().unwrap();
    assert_eq!(surface.received, vec!["open", "next_page", "close"]);
}

#[test]
fn forwards_unknown_id_verbatim() {
    let tree = build(PlatformProfile::Other).unwrap();
    let known = tree.submenus.iter().any(|s| {
        s.entries.iter().any(|e| matches!(e, MenuEntry::Action { id, .. } if id == "mystery"))
    });
    assert!(!known);
    let mut router = Router::new();
    router.register(Surface::new());
    router.dispatch(event("mystery"));
    let surface = router.unregister().unwrap();
    assert_eq!(surface.received, vec!["mystery"]);
}

#[test]
fn drops_activation_without_surface() {
    let mut router = Router::new();
    router.dispatch(event("zoom_in"));
    assert!(router.surface.is_none());
    router.register(Surface::new());
    let surface = router.unregister().unwrap();
    assert!(surface.received.is_empty());
}

#[test]
fn drops_activation_after_unregister() {
    let mut router = Router::new();
    router.register(Surface::new());
    router.dispatch(event("open"));
    let first = router.unregister().unwrap();
    assert_eq!(first.received, vec!["open"]);
    router.dispatch(event("close"));
    assert!(router.unregister().is_none());
}

#[test]
fn route_hands_id_on_when_surface_present() {
    assert_eq!(route(true, event("zoom_in")), Some("zoom_in".to_owned()));
}

#[test]
fn route_drops_id_when_no_surface() {
    assert_eq!(route(false, event("zoom_in")), None);
}
