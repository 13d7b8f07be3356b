use vstd::prelude::*;
use crate::ephemeral_roles::ERVersion;

verus! {

/// A resource-change notification, as the watch transport delivers it.
pub enum WatchEvent {
    /// The desired version was created or updated.
    Applied(ERVersion),
    /// The desired version was deleted.
    Deleted(ERVersion),
    /// The watch resynchronised; purely informational.
    Resynced,
}

/// What the dispatcher decides for one notification: reconcile the version,
/// run the removal path, or do nothing.
pub enum HandlerAction {
    Deploy(ERVersion),
    Remove(ERVersion),
    Ignore,
}

/// Event Dispatcher: routes a created-or-updated notification to
/// reconciliation, a deletion to the removal path, and treats a resync as a
/// no-op trigger.
pub fn handle(watch_event: WatchEvent) -> (a: HandlerAction)
    ensures
        watch_event matches WatchEvent::Applied(v) ==> a == HandlerAction::Deploy(v),
        watch_event matches WatchEvent::Deleted(v) ==> a == HandlerAction::Remove(v),
        watch_event is Resynced ==> a == HandlerAction::Ignore,
{
    match watch_event {
        WatchEvent::Applied(er_version) => HandlerAction::Deploy(er_version),
        WatchEvent::Deleted(er_version) => HandlerAction::Remove(er_version),
        WatchEvent::Resynced => HandlerAction::Ignore,
    }
}

} // verus!
