//! The path resolver: what a request path names under the root, and whether
//! that may be served, run, or neither.

use vstd::prelude::*;

use crate::path::{
    components, has_parent_segment, is_within, join, keep_components, lemma_components_of_join,
    lemma_empty_has_no_component, lemma_keep_components_of_concat, lemma_segments_of_joined,
    lemma_segments_without_slash, lemma_target_is_within_root, segments, spec_has_parent_segment,
    spec_is_within, spec_join, spec_target_path, spec_trim_leading_slashes, split_components,
    target_path, views,
};
use crate::text::{chars_of, option_text, same_text};

verus! {

/// What the filesystem holds at a path.
#[derive(Clone, Copy, Debug, PartialEq, Eq, Structural)]
pub enum EntryKind {
    /// Nothing.
    Missing,
    /// A directory.
    Directory,
    /// A regular file.
    File,
    /// Something else that can be opened.
    Other,
}

/// What a look at the filesystem found at the target of a request.
#[derive(Debug, PartialEq, Eq)]
pub struct Probe {
    /// The kind of entry at the target, links followed.
    pub kind: EntryKind,
    /// The canonical path of that entry, where the filesystem gave one.
    pub real_path: Option<String>,
}

/// What a `Probe` holds.
pub struct ProbeView {
    pub kind: EntryKind,
    pub real_path: Option<Seq<char>>,
}

impl View for Probe {
    type V = ProbeView;

    open spec fn view(&self) -> ProbeView {
        ProbeView {
            kind: self.kind,
            real_path: option_text(self.real_path),
        }
    }
}

/// What a request path turned out to name.
#[derive(Clone, Copy, Debug, PartialEq, Eq, Structural)]
pub enum TargetKind {
    /// An entry that is read and sent as it is.
    Static,
    /// A file under the scripts directory, which is run.
    Script,
    /// Something that is never served.
    Forbidden,
    /// Nothing.
    NotFound,
}

/// A resolved request path: its kind and the filesystem path it stands for.
#[derive(Debug, PartialEq, Eq)]
pub struct ResolvedTarget {
    pub kind: TargetKind,
    pub path: String,
}

/// The request path that is refused whatever the filesystem holds.
pub open spec fn denied_path() -> Seq<char> {
    "/forbidden.html"@
}

/// The directory under `root` whose files are run instead of sent.
pub open spec fn scripts_directory(root: Seq<char>) -> Seq<char> {
    spec_join(root, "scripts"@)
}

/// Whether the target of `request_path` lies at or below the scripts
/// directory of `root`.
pub open spec fn is_script_path(root: Seq<char>, request_path: Seq<char>) -> bool {
    spec_is_within(spec_target_path(root, request_path), scripts_directory(root))
}

/// Whether the filesystem resolved the target to a place outside `root`.
pub open spec fn escapes_root(root: Seq<char>, probe: ProbeView) -> bool {
    match probe.real_path {
        Some(resolved) => !spec_is_within(resolved, root),
        None => false,
    }
}

/// Whether a request path names the root itself: it has no component.
pub open spec fn names_root(request_path: Seq<char>) -> bool {
    components(request_path).len() == 0
}

/// Whether a request path is refused: it holds a `..` segment, it is the
/// denied path, it names a directory or the root itself where anything
/// exists there, or it resolves outside the root.
pub open spec fn is_denied(root: Seq<char>, request_path: Seq<char>, probe: ProbeView) -> bool {
    ||| spec_has_parent_segment(request_path)
    ||| request_path == denied_path()
    ||| probe.kind == EntryKind::Directory
    ||| names_root(request_path) && probe.kind != EntryKind::Missing
    ||| escapes_root(root, probe)
}

/// The kind of what `request_path` names under `root`, given what the
/// filesystem holds there. The request's method plays no part.
pub open spec fn spec_classify(root: Seq<char>, request_path: Seq<char>, probe: ProbeView)
    -> TargetKind {
    if is_denied(root, request_path, probe) {
        TargetKind::Forbidden
    } else if is_script_path(root, request_path) && probe.kind == EntryKind::File {
        TargetKind::Script
    } else if probe.kind == EntryKind::Missing {
        TargetKind::NotFound
    } else {
        TargetKind::Static
    }
}

/// Whether `path` lies below `base` and is not `base` itself.
pub open spec fn is_strictly_within(path: Seq<char>, base: Seq<char>) -> bool {
    spec_is_within(path, base) && components(path).len() > components(base).len()
}

/// Leading slashes add no component.
pub proof fn lemma_trimming_keeps_components(s: Seq<char>)
    ensures
        components(spec_trim_leading_slashes(s)) == components(s),
    decreases s.len(),
{
    if s.len() > 0 && s[0] == '/' {
        let rest = s.drop_first();
        lemma_trimming_keeps_components(rest);
        let nothing = Seq::<char>::empty();
        assert(s =~= nothing + seq!['/'] + rest);
        lemma_segments_of_joined(nothing, rest);
        lemma_keep_components_of_concat(segments(nothing), segments(rest));
        lemma_empty_has_no_component();
        assert(components(nothing) + components(rest) =~= components(rest));
    }
}

/// The components of a target are those of the root followed by those of
/// the request path.
pub proof fn lemma_components_of_target(root: Seq<char>, request_path: Seq<char>)
    ensures
        components(spec_target_path(root, request_path)) == components(root) + components(
            request_path,
        ),
{
    lemma_trimming_keeps_components(request_path);
    lemma_components_of_join(root, spec_trim_leading_slashes(request_path));
}

/// A target lies within the root, and strictly so unless the request path
/// names the root itself, which no script path does.
pub proof fn lemma_target_below_root(root: Seq<char>, request_path: Seq<char>)
    ensures
        spec_is_within(spec_target_path(root, request_path), root),
        !names_root(request_path) ==> is_strictly_within(
            spec_target_path(root, request_path),
            root,
        ),
        is_script_path(root, request_path) ==> !names_root(request_path),
{
    lemma_target_is_within_root(root, request_path);
    lemma_components_of_target(root, request_path);
    if is_script_path(root, request_path) {
        lemma_components_of_join(root, "scripts"@);
        lemma_scripts_is_one_component();
    }
}

/// The name `scripts` is a path of one component.
pub proof fn lemma_scripts_is_one_component()
    ensures
        components("scripts"@) == seq!["scripts"@],
{
    reveal_strlit("scripts");
    let name = "scripts"@;
    assert(name.len() == 7);
    lemma_segments_without_slash(name);
    assert(seq![name].drop_last() =~= Seq::<Seq<char>>::empty());
    reveal_with_fuel(keep_components, 3);
    assert(components(name) =~= seq![name]);
}

/// Resolves a request path against the root, given what the filesystem
/// holds at its target. The target is the request path joined onto the
/// root, which cannot lead out of the root by itself; what could, a `..`
/// segment or a link, is refused. What is to be sent or run therefore lies
/// strictly within the root.
pub fn resolve(root: &str, request_path: &str, probe: &Probe) -> (target: ResolvedTarget)
    ensures
        target.path@ == spec_target_path(root@, request_path@),
        target.kind == spec_classify(root@, request_path@, probe@),
        spec_is_within(target.path@, root@),
        target.kind == TargetKind::Static || target.kind == TargetKind::Script
            ==> is_strictly_within(target.path@, root@) && !spec_has_parent_segment(
            request_path@,
        ),
{
    proof {
        lemma_target_below_root(root@, request_path@);
    }
    let path = target_path(root, request_path);
    let parts = split_components(&chars_of(request_path));
    assert(views(parts@).len() == parts@.len());
    let at_root = parts.len() == 0;
    let escapes = match &probe.real_path {
        Some(resolved) => !is_within(resolved.as_str(), root),
        None => false,
    };
    let denied = has_parent_segment(request_path) || same_text(request_path, "/forbidden.html")
        || probe.kind == EntryKind::Directory || (at_root && probe.kind != EntryKind::Missing)
        || escapes;
    let kind = if denied {
        TargetKind::Forbidden
    } else {
        let scripts = join(root, "scripts");
        if probe.kind == EntryKind::File && is_within(path.as_str(), scripts.as_str()) {
            TargetKind::Script
        } else if probe.kind == EntryKind::Missing {
            TargetKind::NotFound
        } else {
            TargetKind::Static
        }
    };
    ResolvedTarget { kind, path }
}

} // verus!
