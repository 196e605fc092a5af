//! The menu event router: a standing subscription that forwards the stable
//! string id of every activated menu action, verbatim, to the registered
//! receiving surface. The router performs no transformation, filtering or
//! validation against the built tree; when no surface is registered, the
//! notification is dropped silently by design.

use vstd::prelude::*;

use crate::menu::SubmenuView;
use crate::menu::tree_ids;

verus! {

/// The platform's signal that a user triggered a menu action, identified by
/// the action's stable string id. Produced and consumed within one dispatch.
pub struct MenuActivationEvent {
    pub id: String,
}

/// The receiving endpoint of forwarded activation ids: an ordered log of the
/// ids delivered to it, oldest first. It stands for the UI surface that owns
/// the semantics of each id; this core only appends to it.
pub struct Surface {
    pub received: Vec<String>,
}

impl View for Surface {
    type V = Seq<Seq<char>>;

    open spec fn view(&self) -> Seq<Seq<char>> {
        self.received.deep_view()
    }
}

impl Surface {
    /// A fresh surface that has received nothing.
    pub fn new() -> (s: Surface)
        ensures
            s@ == Seq::<Seq<char>>::empty(),
    {
        let s = Surface { received: Vec::new() };
        proof {
            assert(s@ =~= Seq::<Seq<char>>::empty());
        }
        s
    }
}

/// Decides what to do with one activation notification: when a receiving
/// surface is present the id is handed on unchanged, otherwise the
/// notification is dropped.
pub fn route(surface_present: bool, event: MenuActivationEvent) -> (r: Option<String>)
    ensures
        surface_present ==> r == Some(event.id),
        !surface_present ==> r is None,
{
    if surface_present {
        Some(event.id)
    } else {
        None
    }
}

/// The router's whole observable state: `None` while no surface is
/// registered, otherwise the registered surface's log of received ids.
pub struct Router {
    pub surface: Option<Surface>,
}

impl View for Router {
    type V = Option<Seq<Seq<char>>>;

    open spec fn view(&self) -> Option<Seq<Seq<char>>> {
        match self.surface {
            Some(s) => Some(s@),
            None => None,
        }
    }
}

/// How one dispatch relates the router's state before and after handling an
/// activation carrying `id`: with a surface registered, exactly `id` is
/// appended to its log, once; without one, the state is unchanged.
pub open spec fn dispatched(
    pre: Option<Seq<Seq<char>>>,
    post: Option<Seq<Seq<char>>>,
    id: Seq<char>,
) -> bool {
    match pre {
        Some(log) => post == Some(log.push(id)),
        None => post is None,
    }
}

impl Router {
    /// A router with no receiving surface registered yet.
    pub fn new() -> (r: Router)
        ensures
            r@ is None,
    {
        Router { surface: None }
    }

    /// Registers `surface` as the sole receiver of forwarded ids, replacing
    /// any previous one.
    pub fn register(&mut self, surface: Surface)
        ensures
            final(self)@ == Some(surface@),
    {
        self.surface = Some(surface);
    }

    /// Withdraws the receiving surface, returning it with its log intact;
    /// later activations are dropped until a surface is registered again.
    pub fn unregister(&mut self) -> (s: Option<Surface>)
        ensures
            final(self)@ is None,
            s == old(self).surface,
    {
        self.surface.take()
    }

    /// Handles one activation notification: forwards the event's id verbatim
    /// to the registered surface, or drops the event, silently and without
    /// error, when no surface is registered.
    pub fn dispatch(&mut self, event: MenuActivationEvent)
        ensures
            dispatched(old(self)@, final(self)@, event.id@),
            old(self)@ matches Some(log) ==> final(self)@ == Some(log.push(event.id@)),
            old(self)@ is None ==> *final(self) == *old(self),
    {
        let ghost pre = self@;
        let forwarded = route(self.surface.is_some(), event);
        match forwarded {
            Some(id) => {
                match &mut self.surface {
                    Some(s) => {
                        let ghost prev = s.received.deep_view();
                        s.received.push(id);
                        proof {
                            assert(s.received.deep_view() =~= prev.push(id@));
                        }
                    },
                    None => {},
                }
            },
            None => {},
        }
    }
}

/// The router forwards without validating against the built tree: an id that
/// does not occur in the tree is appended to the surface's log, verbatim, all
/// the same.
pub proof fn lemma_dispatch_ignores_tree(
    pre: Option<Seq<Seq<char>>>,
    post: Option<Seq<Seq<char>>>,
    id: Seq<char>,
    tree: Seq<SubmenuView>,
)
    requires
        dispatched(pre, post, id),
        !tree_ids(tree).contains(id),
    ensures
        pre matches Some(log) ==> post == Some(log.push(id)),
{
}

} // verus!
