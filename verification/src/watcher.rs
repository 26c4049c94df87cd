//! The source watcher's decision logic: what to do with each observation of
//! the watched path. The OS watch primitive and the poll timer live in the
//! embedding program; this module decides, and drives the engine, so that a
//! transient read failure skips one cycle and keeps the previous artifact,
//! and a successful read ends in exactly one commit-and-publish.

use vstd::prelude::*;
use crate::render::render_markdown_to_html;
use crate::render::rendered_html;
use crate::sync::SyncState;
use crate::sync::update_rel;

verus! {

/// What the preview watches: a real filesystem path, or the sentinel for an
/// ephemeral source (a snapshot of the clipboard or of standard input) with
/// watching disabled. Fixed for the process lifetime once serving starts.
pub enum WatchTarget {
    File(String),
    Ephemeral,
}

impl WatchTarget {
    /// Whether a watcher runs at all: only a real path is observed; an
    /// ephemeral source leaves the artifact permanently static.
    pub fn is_watched(&self) -> (b: bool)
        ensures
            b == (self is File),
    {
        match self {
            WatchTarget::File(_) => true,
            WatchTarget::Ephemeral => false,
        }
    }
}

/// The attempt to re-read the source after a modification was observed.
/// `Failed` covers every transient condition — the file briefly missing
/// during an editor's atomic save, a momentary permission error.
pub enum ReadOutcome {
    Content(String),
    Failed,
}

/// One observation handed over by the OS watch primitive or the poll
/// fallback.
pub enum WatchEvent {
    /// A modification burst on the watched path, with the re-read outcome.
    Modified(ReadOutcome),
    /// Some other event on the path (metadata access, and the like).
    Other,
    /// An error reported by the watch primitive itself; logged by the
    /// embedding program, never fatal.
    WatchError,
}

/// The watcher's decision for one cycle.
pub enum WatchAction {
    /// Re-render this source text and commit it with one signal fan-out.
    Publish(String),
    /// Keep the previous artifact and wait for the next cycle.
    Skip,
}

/// One watcher cycle decision: only a modification whose re-read succeeded
/// is published; everything else — a failed read, an unrelated event, a
/// watch error — skips the cycle and retains the previous artifact.
pub fn watch_step(e: WatchEvent) -> (a: WatchAction)
    ensures
        (match e {
            WatchEvent::Modified(ReadOutcome::Content(s)) => a == WatchAction::Publish(s),
            _ => a == WatchAction::Skip,
        }),
{
    match e {
        WatchEvent::Modified(ReadOutcome::Content(s)) => WatchAction::Publish(s),
        WatchEvent::Modified(ReadOutcome::Failed) => WatchAction::Skip,
        WatchEvent::Other => WatchAction::Skip,
        WatchEvent::WatchError => WatchAction::Skip,
    }
}

/// Applies one watcher decision to the engine: a `Publish` renders the new
/// source and commits it atomically with its signal fan-out; a `Skip`
/// leaves the engine exactly as it was.
pub fn apply_watch_action(s: &mut SyncState, a: WatchAction)
    requires
        old(s).wf(),
        old(s).version < u64::MAX,
    ensures
        final(s).wf(),
        (match a {
            WatchAction::Publish(src) => update_rel(*old(s), *final(s), rendered_html(src@)),
            WatchAction::Skip => *final(s) == *old(s),
        }),
{
    match a {
        WatchAction::Publish(src) => {
            let html = render_markdown_to_html(src.as_str());
            s.update_and_publish(html);
        },
        WatchAction::Skip => {},
    }
}

/// One full watcher cycle on the engine: decide from the observation, then
/// apply. A successful re-read ends in one commit-and-publish of its
/// rendering; every other observation leaves the engine untouched.
pub fn on_watch_event(s: &mut SyncState, e: WatchEvent)
    requires
        old(s).wf(),
        old(s).version < u64::MAX,
    ensures
        final(s).wf(),
        (match e {
            WatchEvent::Modified(ReadOutcome::Content(src)) => update_rel(
                *old(s),
                *final(s),
                rendered_html(src@),
            ),
            _ => *final(s) == *old(s),
        }),
{
    let a = watch_step(e);
    apply_watch_action(s, a);
}

} // verus!
