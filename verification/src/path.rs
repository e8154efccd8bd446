//! Lexical rules on slash-separated paths: segments, components, containment
//! and the join of a request path onto a root directory.
//!
//! Nothing here touches the filesystem. A path is a sequence of characters;
//! its *segments* are the pieces between slashes, its *components* are the
//! segments that name something (neither empty nor `.`).

use vstd::prelude::*;

use crate::text::{chars_of, text_of};

verus! {

/// The pieces of `s` between its slashes, in order. A path without a slash
/// has one segment; a leading, trailing or doubled slash gives an empty one.
pub open spec fn segments(s: Seq<char>) -> Seq<Seq<char>>
    decreases s.len(),
{
    if s.len() == 0 {
        seq![Seq::<char>::empty()]
    } else {
        let before = segments(s.drop_last());
        if s.last() == '/' {
            before.push(Seq::<char>::empty())
        } else {
            before.drop_last().push(before.last().push(s.last()))
        }
    }
}

/// The segment `..`, which names the parent directory.
pub open spec fn parent_segment() -> Seq<char> {
    seq!['.', '.']
}

/// A segment that names an entry: not empty and not `.`.
pub open spec fn is_component(segment: Seq<char>) -> bool {
    segment.len() > 0 && segment != seq!['.']
}

/// The members of `segs` that are components, in order.
pub open spec fn keep_components(segs: Seq<Seq<char>>) -> Seq<Seq<char>>
    decreases segs.len(),
{
    if segs.len() == 0 {
        Seq::<Seq<char>>::empty()
    } else {
        let before = keep_components(segs.drop_last());
        if is_component(segs.last()) {
            before.push(segs.last())
        } else {
            before
        }
    }
}

/// The components of a path, in order.
pub open spec fn components(s: Seq<char>) -> Seq<Seq<char>> {
    keep_components(segments(s))
}

/// Whether a path starts at the filesystem root.
pub open spec fn is_absolute(s: Seq<char>) -> bool {
    s.len() > 0 && s[0] == '/'
}

/// Whether `path` lies at or below `base`, component by component.
pub open spec fn spec_is_within(path: Seq<char>, base: Seq<char>) -> bool {
    &&& is_absolute(path) == is_absolute(base)
    &&& components(base).is_prefix_of(components(path))
}

/// Whether one of the segments of `path` is `..`.
pub open spec fn spec_has_parent_segment(path: Seq<char>) -> bool {
    segments(path).contains(parent_segment())
}

/// `s` without its leading slashes.
pub open spec fn spec_trim_leading_slashes(s: Seq<char>) -> Seq<char>
    decreases s.len(),
{
    if s.len() > 0 && s[0] == '/' {
        spec_trim_leading_slashes(s.drop_first())
    } else {
        s
    }
}

/// `rel` appended to `root`, with one slash between them unless `root` is
/// empty or already ends in one.
pub open spec fn spec_join(root: Seq<char>, rel: Seq<char>) -> Seq<char> {
    if root.len() == 0 || root.last() == '/' {
        root + rel
    } else {
        root + seq!['/'] + rel
    }
}

/// The filesystem path that a request path names under `root`: the request
/// path without its leading slashes, joined onto the root.
pub open spec fn spec_target_path(root: Seq<char>, request_path: Seq<char>) -> Seq<char> {
    spec_join(root, spec_trim_leading_slashes(request_path))
}

/// The segments written out again with a slash between neighbours.
pub open spec fn rejoined(segs: Seq<Seq<char>>) -> Seq<char>
    decreases segs.len(),
{
    if segs.len() == 0 {
        Seq::<char>::empty()
    } else if segs.len() == 1 {
        segs[0]
    } else {
        rejoined(segs.drop_last()) + seq!['/'] + segs.last()
    }
}

/// The character views of a vector of character vectors.
pub open spec fn views(parts: Seq<Vec<char>>) -> Seq<Seq<char>> {
    Seq::new(parts.len(), |i: int| parts[i]@)
}

/// A path always has at least one segment.
pub proof fn lemma_segments_nonempty(s: Seq<char>)
    ensures
        segments(s).len() > 0,
    decreases s.len(),
{
    if s.len() > 0 {
        lemma_segments_nonempty(s.drop_last());
    }
}

/// Splitting loses nothing: the segments of a path, written out with a
/// slash between neighbours, are the path.
pub proof fn lemma_segments_rejoin(s: Seq<char>)
    ensures
        rejoined(segments(s)) == s,
    decreases s.len(),
{
    if s.len() == 0 {
        assert(rejoined(segments(s)) =~= s);
    } else {
        let shorter = s.drop_last();
        let before = segments(shorter);
        lemma_segments_rejoin(shorter);
        lemma_segments_nonempty(shorter);
        assert(shorter.push(s.last()) =~= s);
        if s.last() == '/' {
            let after = before.push(Seq::<char>::empty());
            assert(after.drop_last() =~= before);
            assert(rejoined(after) =~= rejoined(before) + seq!['/']);
            assert(rejoined(before) + seq!['/'] =~= shorter.push('/'));
        } else {
            let grown = before.last().push(s.last());
            let after = before.drop_last().push(grown);
            if before.len() == 1 {
                assert(rejoined(after) =~= rejoined(before).push(s.last()));
            } else {
                assert(after.drop_last() =~= before.drop_last());
                assert(rejoined(after) =~= (rejoined(before.drop_last()) + seq!['/']
                    + before.last()).push(s.last()));
            }
        }
    }
}

/// A path without a slash is its own and only segment.
pub proof fn lemma_segments_without_slash(s: Seq<char>)
    requires
        forall|i: int| 0 <= i < s.len() ==> s[i] != '/',
    ensures
        segments(s) == seq![s],
    decreases s.len(),
{
    if s.len() == 0 {
        assert(s =~= Seq::<char>::empty());
    } else {
        let shorter = s.drop_last();
        lemma_segments_without_slash(shorter);
        assert(shorter.push(s.last()) =~= s);
        assert(seq![shorter].drop_last().push(shorter.push(s.last())) =~= seq![s]);
    }
}

/// No segment holds a slash.
pub proof fn lemma_segments_hold_no_slash(s: Seq<char>, i: int)
    requires
        0 <= i < segments(s).len(),
    ensures
        !segments(s)[i].contains('/'),
    decreases s.len(),
{
    if s.len() > 0 {
        let before = segments(s.drop_last());
        lemma_segments_nonempty(s.drop_last());
        if s.last() == '/' {
            if i < before.len() {
                lemma_segments_hold_no_slash(s.drop_last(), i);
            }
        } else {
            if i < before.len() - 1 {
                lemma_segments_hold_no_slash(s.drop_last(), i);
            } else {
                lemma_segments_hold_no_slash(s.drop_last(), before.len() - 1);
                let grown = before.last().push(s.last());
                assert forall|k: int| 0 <= k < grown.len() implies grown[k] != '/' by {
                    if k < before.last().len() {
                        assert(before.last().contains(before.last()[k]));
                    }
                }
            }
        }
    }
}

/// The empty path has no component.
pub proof fn lemma_empty_has_no_component()
    ensures
        components(Seq::<char>::empty()) == Seq::<Seq<char>>::empty(),
{
    let nothing = Seq::<char>::empty();
    reveal_with_fuel(keep_components, 2);
    assert(segments(nothing).len() == 1);
    assert(!is_component(segments(nothing).last()));
    assert(segments(nothing).drop_last() =~= Seq::<Seq<char>>::empty());
}

/// Splitting at a slash: the segments of `a/b` are those of `a` followed by
/// those of `b`.
pub proof fn lemma_segments_of_joined(a: Seq<char>, b: Seq<char>)
    ensures
        segments(a + seq!['/'] + b) == segments(a) + segments(b),
    decreases b.len(),
{
    let whole = a + seq!['/'] + b;
    if b.len() == 0 {
        assert(whole.drop_last() =~= a);
        assert(segments(whole) == segments(a).push(Seq::<char>::empty()));
        assert(segments(b) =~= seq![Seq::<char>::empty()]);
        assert(segments(whole) =~= segments(a) + segments(b));
    } else {
        assert(whole.drop_last() =~= a + seq!['/'] + b.drop_last());
        assert(whole.last() == b.last());
        lemma_segments_of_joined(a, b.drop_last());
        lemma_segments_nonempty(b.drop_last());
        lemma_segments_nonempty(a);
        let sa = segments(a);
        let sb = segments(b.drop_last());
        if b.last() == '/' {
            assert(segments(whole) =~= segments(a) + segments(b));
        } else {
            assert((sa + sb).drop_last() =~= sa + sb.drop_last());
            assert((sa + sb).last() == sb.last());
            assert(segments(whole) =~= segments(a) + segments(b));
        }
    }
}

/// Keeping the components of a concatenation keeps those of each part.
pub proof fn lemma_keep_components_of_concat(x: Seq<Seq<char>>, y: Seq<Seq<char>>)
    ensures
        keep_components(x + y) == keep_components(x) + keep_components(y),
    decreases y.len(),
{
    if y.len() == 0 {
        assert(x + y =~= x);
        assert(keep_components(x) + keep_components(y) =~= keep_components(x));
    } else {
        assert((x + y).drop_last() =~= x + y.drop_last());
        assert((x + y).last() == y.last());
        lemma_keep_components_of_concat(x, y.drop_last());
        assert(keep_components(x + y) =~= keep_components(x) + keep_components(y));
    }
}

/// A component is among the segments exactly when it is among the
/// components.
pub proof fn lemma_component_is_kept(segs: Seq<Seq<char>>, x: Seq<char>)
    requires
        is_component(x),
    ensures
        keep_components(segs).contains(x) <==> segs.contains(x),
    decreases segs.len(),
{
    if segs.len() > 0 {
        let before = segs.drop_last();
        lemma_component_is_kept(before, x);
        if segs.contains(x) {
            let i = choose|i: int| 0 <= i < segs.len() && segs[i] == x;
            if i < before.len() {
                assert(before[i] == x);
                assert(before.contains(x));
                let j = choose|j: int|
                    0 <= j < keep_components(before).len() && keep_components(before)[j] == x;
                assert(keep_components(segs)[j] == x);
            } else {
                assert(segs.last() == x);
                assert(keep_components(segs).last() == x);
            }
        }
        if keep_components(segs).contains(x) {
            let j = choose|j: int|
                0 <= j < keep_components(segs).len() && keep_components(segs)[j] == x;
            if j < keep_components(before).len() {
                assert(keep_components(before)[j] == x);
                assert(keep_components(before).contains(x));
                let i = choose|i: int| 0 <= i < before.len() && before[i] == x;
                assert(segs[i] == x);
            } else {
                assert(segs[segs.len() - 1] == x);
            }
        }
    }
}

/// The components of a joined path are those of the root followed by those
/// of what was joined onto it.
pub proof fn lemma_components_of_join(root: Seq<char>, rel: Seq<char>)
    ensures
        components(spec_join(root, rel)) == components(root) + components(rel),
{
    if root.len() == 0 {
        assert(root + rel =~= rel);
        assert(root =~= Seq::<char>::empty());
        lemma_empty_has_no_component();
        assert(components(root) + components(rel) =~= components(rel));
    } else if root.last() == '/' {
        let stem = root.drop_last();
        assert(root + rel =~= stem + seq!['/'] + rel);
        lemma_segments_of_joined(stem, rel);
        lemma_keep_components_of_concat(segments(stem), segments(rel));
        assert(segments(root) == segments(stem).push(Seq::<char>::empty()));
        assert(segments(root).drop_last() =~= segments(stem));
    } else {
        lemma_segments_of_joined(root, rel);
        lemma_keep_components_of_concat(segments(root), segments(rel));
    }
}

/// A path joined onto a root lies within that root, provided what was joined
/// does not itself start with a slash.
pub proof fn lemma_join_is_within(root: Seq<char>, rel: Seq<char>)
    requires
        !is_absolute(rel),
    ensures
        spec_is_within(spec_join(root, rel), root),
{
    lemma_components_of_join(root, rel);
    let joined = spec_join(root, rel);
    assert((components(root) + components(rel)).subrange(0, components(root).len() as int)
        =~= components(root));
    if root.len() == 0 {
        assert(joined =~= rel);
    } else {
        assert(joined[0] == root[0]);
    }
}

/// What is left after trimming does not start with a slash.
pub proof fn lemma_trimmed_is_relative(s: Seq<char>)
    ensures
        !is_absolute(spec_trim_leading_slashes(s)),
    decreases s.len(),
{
    if s.len() > 0 && s[0] == '/' {
        lemma_trimmed_is_relative(s.drop_first());
    }
}

/// The target of every request path lies within the root.
pub proof fn lemma_target_is_within_root(root: Seq<char>, request_path: Seq<char>)
    ensures
        spec_is_within(spec_target_path(root, request_path), root),
{
    lemma_trimmed_is_relative(request_path);
    lemma_join_is_within(root, spec_trim_leading_slashes(request_path));
}

fn is_component_chars(segment: &Vec<char>) -> (yes: bool)
    ensures
        yes == is_component(segment@),
{
    if segment.len() == 0 {
        false
    } else if segment.len() == 1 && segment[0] == '.' {
        assert(segment@ =~= seq!['.']);
        false
    } else {
        if segment.len() == 1 {
            assert(segment@[0] != seq!['.'][0]);
        } else {
            assert(segment@.len() != seq!['.'].len());
        }
        true
    }
}

/// Splits a path into its components in one pass.
pub fn split_components(path: &Vec<char>) -> (parts: Vec<Vec<char>>)
    ensures
        views(parts@) == components(path@),
{
    let mut parts: Vec<Vec<char>> = Vec::new();
    let mut current: Vec<char> = Vec::new();
    let mut i: usize = 0;
    assert(path@.take(0) =~= Seq::<char>::empty());
    assert(segments(path@.take(0)).drop_last() =~= Seq::<Seq<char>>::empty());
    assert(views(parts@) =~= keep_components(segments(path@.take(0)).drop_last()));
    while i < path.len()
        invariant
            i <= path.len(),
            segments(path@.take(i as int)).len() > 0,
            views(parts@) == keep_components(segments(path@.take(i as int)).drop_last()),
            current@ == segments(path@.take(i as int)).last(),
        decreases path.len() - i,
    {
        let c = path[i];
        let ghost before = segments(path@.take(i as int));
        proof {
            assert(path@.take(i + 1).drop_last() =~= path@.take(i as int));
            assert(path@.take(i + 1).last() == c);
            lemma_segments_nonempty(path@.take(i + 1));
        }
        if c == '/' {
            proof {
                assert(segments(path@.take(i + 1)) == before.push(Seq::<char>::empty()));
                assert(segments(path@.take(i + 1)).drop_last() =~= before);
            }
            let keep = is_component_chars(&current);
            if keep {
                let ghost old_parts = parts@;
                parts.push(current);
                assert(views(parts@) =~= views(old_parts).push(before.last()));
            }
            current = Vec::new();
        } else {
            current.push(c);
            proof {
                let after = before.drop_last().push(before.last().push(c));
                assert(segments(path@.take(i + 1)) == after);
                assert(after.drop_last() =~= before.drop_last());
            }
        }
        i += 1;
    }
    assert(path@.take(path.len() as int) =~= path@);
    let keep = is_component_chars(&current);
    if keep {
        let ghost old_parts = parts@;
        parts.push(current);
        assert(views(parts@) =~= views(old_parts).push(segments(path@).last()));
    }
    parts
}

fn same_chars(a: &Vec<char>, b: &Vec<char>) -> (same: bool)
    ensures
        same == (a@ == b@),
{
    if a.len() != b.len() {
        return false;
    }
    let mut i: usize = 0;
    while i < a.len()
        invariant
            a.len() == b.len(),
            i <= a.len(),
            forall|j: int| 0 <= j < i ==> a@[j] == b@[j],
        decreases a.len() - i,
    {
        if a[i] != b[i] {
            return false;
        }
        i += 1;
    }
    assert(a@ =~= b@);
    true
}

fn starts_at_root(path: &Vec<char>) -> (yes: bool)
    ensures
        yes == is_absolute(path@),
{
    path.len() > 0 && path[0] == '/'
}

fn within_chars(path: &Vec<char>, base: &Vec<char>) -> (yes: bool)
    ensures
        yes == spec_is_within(path@, base@),
{
    if starts_at_root(path) != starts_at_root(base) {
        return false;
    }
    let have = split_components(path);
    let want = split_components(base);
    if want.len() > have.len() {
        return false;
    }
    let mut i: usize = 0;
    while i < want.len()
        invariant
            want.len() <= have.len(),
            i <= want.len(),
            views(have@) == components(path@),
            views(want@) == components(base@),
            forall|j: int| 0 <= j < i ==> components(base@)[j] == components(path@)[j],
        decreases want.len() - i,
    {
        let same = same_chars(&want[i], &have[i]);
        proof {
            assert(views(want@)[i as int] == want@[i as int]@);
            assert(views(have@)[i as int] == have@[i as int]@);
        }
        if !same {
            proof {
                let prefix = components(path@).subrange(0, components(base@).len() as int);
                assert(prefix[i as int] == components(path@)[i as int]);
            }
            return false;
        }
        i += 1;
    }
    proof {
        assert(views(want@).len() == want@.len());
        assert(views(have@).len() == have@.len());
        assert(components(base@) =~= components(path@).subrange(
            0,
            components(base@).len() as int,
        ));
    }
    true
}

fn has_parent_chars(path: &Vec<char>) -> (found: bool)
    ensures
        found == spec_has_parent_segment(path@),
{
    let parts = split_components(path);
    proof {
        assert(parent_segment().len() == 2);
        assert(is_component(parent_segment()));
        lemma_component_is_kept(segments(path@), parent_segment());
    }
    let mut i: usize = 0;
    while i < parts.len()
        invariant
            i <= parts.len(),
            views(parts@) == components(path@),
            components(path@).contains(parent_segment()) <==> spec_has_parent_segment(path@),
            forall|j: int| 0 <= j < i ==> components(path@)[j] != parent_segment(),
        decreases parts.len() - i,
    {
        let part = &parts[i];
        proof {
            assert(views(parts@)[i as int] == parts@[i as int]@);
        }
        if part.len() == 2 && part[0] == '.' && part[1] == '.' {
            assert(part@ =~= parent_segment());
            assert(components(path@).contains(parent_segment()));
            return true;
        }
        proof {
            if part@ == parent_segment() {
                assert(part@[0] == '.' && part@[1] == '.');
            }
        }
        i += 1;
    }
    proof {
        assert(views(parts@).len() == parts@.len());
    }
    false
}

fn trim_chars(path: &Vec<char>) -> (out: Vec<char>)
    ensures
        out@ == spec_trim_leading_slashes(path@),
{
    let mut start: usize = 0;
    assert(path@.skip(0) =~= path@);
    while start < path.len() && path[start] == '/'
        invariant
            start <= path.len(),
            spec_trim_leading_slashes(path@) == spec_trim_leading_slashes(path@.skip(start as int)),
        decreases path.len() - start,
    {
        assert(path@.skip(start as int).drop_first() =~= path@.skip(start + 1));
        start += 1;
    }
    let mut out: Vec<char> = Vec::new();
    let mut i: usize = start;
    while i < path.len()
        invariant
            start <= i <= path.len(),
            out@ == path@.subrange(start as int, i as int),
        decreases path.len() - i,
    {
        out.push(path[i]);
        assert(out@ =~= path@.subrange(start as int, i + 1));
        i += 1;
    }
    assert(out@ =~= path@.skip(start as int));
    out
}

fn append_chars(out: &mut Vec<char>, more: &Vec<char>)
    ensures
        final(out)@ == old(out)@ + more@,
{
    let mut i: usize = 0;
    assert(out@ =~= old(out)@ + more@.take(0));
    while i < more.len()
        invariant
            i <= more.len(),
            out@ == old(out)@ + more@.take(i as int),
        decreases more.len() - i,
    {
        out.push(more[i]);
        assert(out@ =~= old(out)@ + more@.take(i + 1));
        i += 1;
    }
    assert(more@.take(more.len() as int) =~= more@);
}

fn join_chars(root: &Vec<char>, rel: &Vec<char>) -> (out: Vec<char>)
    ensures
        out@ == spec_join(root@, rel@),
{
    let mut out: Vec<char> = Vec::new();
    append_chars(&mut out, root);
    if root.len() > 0 && root[root.len() - 1] != '/' {
        out.push('/');
    }
    append_chars(&mut out, rel);
    assert(out@ =~= spec_join(root@, rel@));
    out
}

/// Whether one of the segments of `path` is `..`.
pub fn has_parent_segment(path: &str) -> (found: bool)
    ensures
        found == spec_has_parent_segment(path@),
{
    has_parent_chars(&chars_of(path))
}

/// Whether `path` lies at or below `base`, component by component.
pub fn is_within(path: &str, base: &str) -> (yes: bool)
    ensures
        yes == spec_is_within(path@, base@),
{
    within_chars(&chars_of(path), &chars_of(base))
}

/// `rel` appended to `root`, with one slash between them where needed.
pub fn join(root: &str, rel: &str) -> (joined: String)
    ensures
        joined@ == spec_join(root@, rel@),
{
    text_of(join_chars(&chars_of(root), &chars_of(rel)))
}

/// The filesystem path that `request_path` names under `root`. It lies
/// within the root whatever the request path holds.
pub fn target_path(root: &str, request_path: &str) -> (target: String)
    ensures
        target@ == spec_target_path(root@, request_path@),
        spec_is_within(target@, root@),
{
    let rel = trim_chars(&chars_of(request_path));
    proof {
        lemma_target_is_within_root(root@, request_path@);
    }
    text_of(join_chars(&chars_of(root), &rel))
}

} // verus!
