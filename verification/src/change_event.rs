//! Normalizing raw watch notifications into change events.
//!
//! The watcher reports an event kind and the affected paths; only kinds
//! that carry a modification signal pass, the last attached path is taken
//! (a rename carries old and new, the destination last), and the event is
//! dropped when that path no longer exists on disk. The existence check
//! itself happens outside; its verdict is handed in as a plain flag.

use vstd::prelude::*;

verus! {

/// The kind of a raw watch notification, as the watcher classifies it.
pub enum EventKind {
    /// Unclassified catch-all.
    Any,
    /// A read or metadata access; no modification signal.
    Access,
    /// Something was created.
    Create,
    /// Contents or attributes changed, or the path was renamed.
    Modify,
    /// Something was removed.
    Remove,
    /// Some other, unclassified change.
    Other,
}

/// Kinds that signal an actionable modification: everything but access,
/// the generic catch-all, and the unclassified rest.
pub open spec fn spec_is_actionable(k: EventKind) -> bool {
    match k {
        EventKind::Access => false,
        EventKind::Any => false,
        EventKind::Other => false,
        _ => true,
    }
}

/// One accepted filesystem change: the affected path and when the filter
/// observed it, in milliseconds of the supervisor's clock.
pub struct ChangeEvent {
    /// The changed path.
    pub path: String,
    /// When the change was observed, in clock milliseconds.
    pub time: u64,
}

impl ChangeEvent {
    /// A change event for `path` observed at `time`.
    pub fn new(path: String, time: u64) -> (e: ChangeEvent)
        ensures
            e.path == path,
            e.time == time,
    {
        ChangeEvent { path, time }
    }
}

/// The path a raw event is about, when its kind is actionable: the last
/// path attached to the event. The caller checks this path on disk before
/// handing the event to [`convert`].
pub fn candidate_path(kind: &EventKind, paths: &Vec<String>) -> (r: Option<String>)
    ensures
        r is Some <==> (spec_is_actionable(*kind) && paths@.len() > 0),
        r matches Some(p) ==> p@ == paths@.last()@,
{
    match kind {
        EventKind::Access => return None,
        EventKind::Any => return None,
        EventKind::Other => return None,
        _ => {},
    }
    if paths.len() == 0 {
        return None;
    }
    Some(paths[paths.len() - 1].clone())
}

/// Converts a raw event to a change event: `Some` exactly when the kind is
/// actionable, a path is attached, and the last attached path still exists
/// on disk (`last_path_exists`, established by the caller); the event then
/// carries that path, observed at `observed_at`.
pub fn convert(kind: &EventKind, paths: Vec<String>, last_path_exists: bool, observed_at: u64) -> (r:
    Option<ChangeEvent>)
    ensures
        r is Some <==> (spec_is_actionable(*kind) && paths@.len() > 0 && last_path_exists),
        r matches Some(e) ==> e.path@ == paths@.last()@ && e.time == observed_at,
{
    let mut paths = paths;
    match kind {
        EventKind::Access => return None,
        EventKind::Any => return None,
        EventKind::Other => return None,
        _ => {},
    }
    match paths.pop() {
        Some(p) => if last_path_exists {
            Some(ChangeEvent::new(p, observed_at))
        } else {
            None
        },
        None => None,
    }
}

} // verus!
