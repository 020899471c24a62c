//! The decisions of the directory watcher: which directory it watches, and
//! which paths of a filesystem event are announced to the UI layer.
use vstd::prelude::*;
use vstd::string::*;
use crate::matcher::{path_matches, PatternMatcher};

verus! {

/// Topic under which a qualifying path is announced.
pub const SCREENSHOT_TOPIC: &'static str = "screenshot-created";

/// Seconds between two scans when the watcher polls.
pub const POLL_INTERVAL_SECS: u64 = 1;

/// `base` followed by the component `name`, with one `/` between them
/// unless `base` is empty or already ends with `/`.
pub open spec fn joined(base: Seq<char>, name: Seq<char>) -> Seq<char> {
    if base.len() > 0 && base.last() != '/' {
        base + seq!['/'] + name
    } else {
        base + name
    }
}

/// The watched directory: `Desktop` under the home directory, or the
/// filesystem root when no home directory is known.
pub open spec fn watch_root_of(home: Option<Seq<char>>) -> Seq<char> {
    match home {
        Some(h) => joined(h, "Desktop"@),
        None => seq!['/'],
    }
}

/// Resolves the watched directory from the value of the home-directory variable.
pub fn resolve_watch_root(home: Option<&str>) -> (r: String)
    ensures
        r@ == watch_root_of(
            match home {
                Some(h) => Some(h@),
                None => None,
            },
        ),
{
    match home {
        Some(h) => {
            let n = h.unicode_len();
            let mut root = String::from_str(h);
            if n > 0 && h.get_char(n - 1) != '/' {
                root.append("/");
            }
            root.append("Desktop");
            proof {
                reveal_strlit("/");
            }
            root
        },
        None => {
            proof {
                reveal_strlit("/");
            }
            String::from_str("/")
        },
    }
}

/// Why the watcher could not do its work.
#[derive(PartialEq, Eq, Structural, Clone, Copy, Debug)]
pub enum WatchError {
    /// The watched directory could not be subscribed to: missing, or not permitted.
    SetupFailed,
    /// One event could not be read; the watch goes on.
    DeliveryFault,
}

/// The kinds of filesystem event that the watcher tells apart.
#[derive(PartialEq, Eq, Structural, Clone, Copy, Debug)]
pub enum FsEventKind {
    Create,
    Other,
}

/// A filesystem event as the watcher receives it: its kind and the paths it
/// concerns, in the order the filesystem reported them.
pub struct FsEvent {
    pub kind: FsEventKind,
    pub paths: Vec<String>,
}

/// The qualifying paths among `paths`, in their order.
pub open spec fn qualifying(paths: Seq<Seq<char>>) -> Seq<Seq<char>>
    decreases paths.len(),
{
    if paths.len() == 0 {
        seq![]
    } else {
        let rest = qualifying(paths.drop_last());
        if path_matches(paths.last()) {
            rest.push(paths.last())
        } else {
            rest
        }
    }
}

/// The paths to announce for an event: the qualifying ones of a creation
/// event, none for any other event.
pub open spec fn announced(kind: FsEventKind, paths: Seq<Seq<char>>) -> Seq<Seq<char>> {
    if kind == FsEventKind::Create {
        qualifying(paths)
    } else {
        seq![]
    }
}

pub open spec fn path_views(v: Seq<String>) -> Seq<Seq<char>> {
    v.map_values(|s: String| s@)
}

/// The paths of `event` to announce, each once, in the event's order.
pub fn paths_to_announce(matcher: &PatternMatcher, event: &FsEvent) -> (r: Vec<String>)
    requires
        matcher.wf(),
    ensures
        path_views(r@) == announced(event.kind, path_views(event.paths@)),
{
    let mut out: Vec<String> = Vec::new();
    if event.kind != FsEventKind::Create {
        assert(path_views(out@) =~= seq![]);
        return out;
    }
    let n = event.paths.len();
    let mut i: usize = 0;
    while i < n
        invariant
            matcher.wf(),
            n == event.paths@.len(),
            i <= n,
            path_views(out@) == qualifying(path_views(event.paths@.subrange(0, i as int))),
        decreases n - i,
    {
        let p = &event.paths[i];
        assert(path_views(event.paths@.subrange(0, i + 1)).drop_last() =~= path_views(
            event.paths@.subrange(0, i as int),
        ));
        assert(path_views(event.paths@.subrange(0, i + 1)).last() == p@);
        if matcher.matches(p.as_str()) {
            out.push(p.clone());
            assert(path_views(out@) =~= qualifying(path_views(event.paths@.subrange(0, i as int))).push(p@));
        }
        i = i + 1;
    }
    assert(event.paths@.subrange(0, n as int) =~= event.paths@);
    out
}

/// A creation event for a path that does not qualify announces nothing.
pub proof fn lemma_non_matching_creation_announces_nothing(p: Seq<char>)
    requires
        !path_matches(p),
    ensures
        announced(FsEventKind::Create, seq![p]) == Seq::<Seq<char>>::empty(),
{
    assert(seq![p].drop_last() =~= Seq::<Seq<char>>::empty());
    assert(qualifying(Seq::<Seq<char>>::empty()) == Seq::<Seq<char>>::empty());
    assert(seq![p].last() == p);
}

/// A creation event for a qualifying path announces that path exactly once.
pub proof fn lemma_matching_creation_announces_once(p: Seq<char>)
    requires
        path_matches(p),
    ensures
        announced(FsEventKind::Create, seq![p]) == seq![p],
{
    assert(seq![p].drop_last() =~= Seq::<Seq<char>>::empty());
    assert(qualifying(Seq::<Seq<char>>::empty()) == Seq::<Seq<char>>::empty());
    assert(seq![p].last() == p);
    assert(Seq::<Seq<char>>::empty().push(p) =~= seq![p]);
}

} // verus!
