//! Where a path leads that was put together out of others, on a system with Unix paths.
use crate::components::{
    PathPartModel, PathStyle, PlacedModel, bare, body_start, components, head_end, lemma_head_end,
    parts_from, placed, placed_parts, separates, single_part, start_part,
};
use crate::paths::{TargetPaths, base_dir, joined, needs_separator, relative_path, workspace_target};
use vstd::prelude::*;

verus! {

/// Whether a text is the name of a file or folder.
pub open spec fn is_name(text: Seq<char>) -> bool {
    &&& text.len() > 0
    &&& text != seq!['.']
    &&& text != seq!['.', '.']
    &&& forall|i: int| 0 <= i < text.len() ==> #[trigger] text[i] != '/'
}

/// The names among some components.
pub open spec fn names_among(parts: Seq<PathPartModel>) -> Seq<PathPartModel>
    decreases parts.len(),
{
    if parts.len() == 0 {
        Seq::empty()
    } else if parts.last() is Normal {
        names_among(parts.drop_last()).push(parts.last())
    } else {
        names_among(parts.drop_last())
    }
}

/// Whether each name among some components is one.
pub open spec fn well_named(parts: Seq<PathPartModel>) -> bool {
    forall|i: int|
        0 <= i < parts.len() ==> (#[trigger] parts[i] matches PathPartModel::Normal(name)
            ==> is_name(name))
}

/// Whether a character separates components.
pub open spec fn slash(c: char) -> bool {
    separates(c, PathStyle::Unix, false)
}

/// The next separator, or the end of the text.
pub open spec fn unix_end(text: Seq<char>, from: int) -> int {
    head_end(text, from, PathStyle::Unix, false)
}

/// The components from a place on.
pub open spec fn unix_parts(text: Seq<char>, from: int) -> Seq<PathPartModel> {
    bare(parts_from(text, from, PathStyle::Unix, false))
}

proof fn lemma_bare_joined(a: Seq<PlacedModel>, b: Seq<PlacedModel>)
    ensures
        bare(a + b) == bare(a) + bare(b),
{
    assert(bare(a + b) =~= bare(a) + bare(b));
}

proof fn lemma_unix_parts_step(text: Seq<char>, from: int)
    requires
        0 <= from < text.len(),
    ensures
        from <= unix_end(text, from) <= text.len(),
        unix_parts(text, from) == bare(
            placed(single_part(text.subrange(from, unix_end(text, from)), false), 0),
        ) + unix_parts(text, unix_end(text, from) + 1),
{
    lemma_head_end(text, from, PathStyle::Unix, false);
    let end = unix_end(text, from);
    let part = single_part(text.subrange(from, end), false);
    lemma_bare_joined(placed(part, end), parts_from(text, end + 1, PathStyle::Unix, false));
    assert(bare(placed(part, end)) =~= bare(placed(part, 0)));
}

pub proof fn lemma_unix_parts_end(text: Seq<char>, from: int)
    requires
        from >= text.len(),
    ensures
        unix_parts(text, from) == Seq::<PathPartModel>::empty(),
{
    assert(unix_parts(text, from) =~= Seq::<PathPartModel>::empty());
}

/// A separator is found in the same place where more is written behind it.
proof fn lemma_end_in_longer(text: Seq<char>, more: Seq<char>, from: int)
    requires
        0 <= from <= text.len(),
    ensures
        unix_end(text, from) < text.len() ==> unix_end(text + more, from) == unix_end(text, from),
        unix_end(text, from) == text.len() && more.len() > 0 && slash(more[0]) ==> unix_end(
            text + more,
            from,
        ) == text.len(),
    decreases text.len() - from,
{
    let whole = text + more;
    if from < text.len() {
        assert(whole[from] == text[from]);
        if !slash(text[from]) {
            lemma_end_in_longer(text, more, from + 1);
        }
    } else if more.len() > 0 {
        assert(whole[from] == more[0]);
    }
}

proof fn lemma_end_shifted(start: Seq<char>, text: Seq<char>, from: int)
    requires
        0 <= from <= text.len(),
    ensures
        unix_end(start + text, start.len() + from) == start.len() + unix_end(text, from),
    decreases text.len() - from,
{
    if from < text.len() {
        assert((start + text)[start.len() + from] == text[from]);
        if !slash(text[from]) {
            lemma_end_shifted(start, text, from + 1);
        }
    }
}

proof fn lemma_parts_shifted(start: Seq<char>, text: Seq<char>, from: int)
    requires
        0 <= from <= text.len() + 1,
    ensures
        unix_parts(start + text, start.len() + from) == unix_parts(text, from),
    decreases text.len() + 1 - from,
{
    let whole = start + text;
    if from < text.len() {
        lemma_unix_parts_step(text, from);
        lemma_unix_parts_step(whole, start.len() + from);
        lemma_end_shifted(start, text, from);
        let end = unix_end(text, from);
        assert(whole.subrange(start.len() + from, start.len() + end) =~= text.subrange(from, end));
        lemma_parts_shifted(start, text, end + 1);
    } else {
        lemma_unix_parts_end(text, from);
        lemma_unix_parts_end(whole, start.len() + from);
    }
}

/// Behind a separator the components of two texts follow one another.
proof fn lemma_parts_behind_separator(start: Seq<char>, text: Seq<char>, from: int)
    requires
        start.len() > 0,
        slash(start.last()),
        0 <= from <= start.len(),
    ensures
        unix_parts(start + text, from) == unix_parts(start, from) + unix_parts(text, 0),
    decreases start.len() - from,
{
    let whole = start + text;
    if from < start.len() {
        lemma_unix_parts_step(start, from);
        lemma_unix_parts_step(whole, from);
        lemma_head_end(start, from, PathStyle::Unix, false);
        let end = unix_end(start, from);
        assert(end < start.len()) by {
            if end == start.len() {
                assert(!slash(start[start.len() - 1]));
            }
        }
        lemma_end_in_longer(start, text, from);
        assert(whole.subrange(from, end) =~= start.subrange(from, end));
        lemma_parts_behind_separator(start, text, end + 1);
        let first = bare(placed(single_part(start.subrange(from, end), false), 0));
        assert(first + (unix_parts(start, end + 1) + unix_parts(text, 0)) =~= (first + unix_parts(
            start,
            end + 1,
        )) + unix_parts(text, 0));
    } else {
        lemma_unix_parts_end(start, from);
        lemma_parts_shifted(start, text, 0);
        assert(Seq::<PathPartModel>::empty() + unix_parts(text, 0) =~= unix_parts(text, 0));
    }
}

/// A separator at the end adds no component.
pub proof fn lemma_parts_with_separator(text: Seq<char>, from: int)
    requires
        0 <= from <= text.len(),
    ensures
        unix_parts(text + seq!['/'], from) == unix_parts(text, from),
    decreases text.len() - from,
{
    let whole = text + seq!['/'];
    lemma_unix_parts_step(whole, from);
    lemma_end_in_longer(text, seq!['/'], from);
    if from < text.len() {
        lemma_unix_parts_step(text, from);
        let end = unix_end(text, from);
        assert(whole.subrange(from, end) =~= text.subrange(from, end));
        if end < text.len() {
            lemma_parts_with_separator(text, end + 1);
        } else {
            lemma_unix_parts_end(text, end + 1);
            lemma_unix_parts_end(whole, end + 1);
        }
    } else {
        lemma_unix_parts_end(text, from);
        lemma_unix_parts_end(whole, from + 1);
        assert(whole.subrange(from, from).len() == 0);
        assert(bare(Seq::<PlacedModel>::empty()) =~= Seq::<PathPartModel>::empty());
        assert(unix_parts(whole, from) =~= Seq::<PathPartModel>::empty());
    }
}

/// The components of a path are what it starts with and its names.
pub proof fn lemma_unix_components(text: Seq<char>)
    ensures
        components(text, PathStyle::Unix) == bare(placed(start_part(text, PathStyle::Unix), 0))
            + unix_parts(text, body_start(text, PathStyle::Unix)),
{
    let style = PathStyle::Unix;
    let start = placed(start_part(text, style), body_start(text, style));
    let names = parts_from(text, body_start(text, style), style, false);
    assert(placed_parts(text, style) =~= start + names);
    lemma_bare_joined(start, names);
    assert(bare(start) =~= bare(placed(start_part(text, style), 0)));
}

/// The components of a path behind another are those of the other, then its own, where it begins
/// with a name.
pub proof fn law_components_joined(path: Seq<char>, name: Seq<char>)
    requires
        start_part(name, PathStyle::Unix) is None,
    ensures
        components(joined(path, name, PathStyle::Unix), PathStyle::Unix) == components(
            path,
            PathStyle::Unix,
        ) + components(name, PathStyle::Unix),
        start_part(path, PathStyle::Unix) is None ==> start_part(
            joined(path, name, PathStyle::Unix),
            PathStyle::Unix,
        ) is None,
{
    let style = PathStyle::Unix;
    let whole = joined(path, name, style);
    lemma_unix_components(path);
    lemma_unix_components(name);
    lemma_unix_components(whole);
    assert(bare(Seq::<PlacedModel>::empty()) =~= Seq::<PathPartModel>::empty());
    assert(Seq::<PathPartModel>::empty() + unix_parts(name, 0) =~= unix_parts(name, 0));
    if path.len() == 0 {
        assert(whole =~= name);
        lemma_unix_parts_end(path, 0);
        assert(components(path, style) =~= Seq::<PathPartModel>::empty());
        assert(Seq::<PathPartModel>::empty() + components(name, style) =~= components(name, style));
    } else {
        let head = if needs_separator(path, style) {
            path + seq!['/']
        } else {
            path
        };
        assert(whole =~= head + name);
        assert(slash(head.last()));
        let from = body_start(path, style);
        assert(whole[0] == path[0]);
        if path.len() > 1 {
            assert(whole[1] == path[1]);
        }
        assert(start_part(whole, style) == start_part(path, style));
        assert(body_start(whole, style) == from);
        lemma_parts_with_separator(path, from);
        lemma_parts_behind_separator(head, name, from);
        let start = bare(placed(start_part(path, style), 0));
        assert(start + (unix_parts(path, from) + unix_parts(name, 0)) =~= (start + unix_parts(
            path,
            from,
        )) + unix_parts(name, 0));
    }
}

proof fn lemma_parts_are_names(text: Seq<char>, from: int)
    requires
        0 <= from,
    ensures
        well_named(unix_parts(text, from)),
    decreases text.len() + 1 - from,
{
    if from < text.len() {
        lemma_unix_parts_step(text, from);
        lemma_head_end(text, from, PathStyle::Unix, false);
        let end = unix_end(text, from);
        lemma_parts_are_names(text, end + 1);
        let between = text.subrange(from, end);
        assert(forall|i: int| 0 <= i < between.len() ==> #[trigger] between[i] == text[from + i]
            && !slash(text[from + i]));
        let first = bare(placed(single_part(between, false), 0));
        assert(first.len() > 0 ==> first[0] == single_part(between, false)->Some_0);
    } else {
        lemma_unix_parts_end(text, from);
    }
}

pub proof fn lemma_components_are_names(text: Seq<char>)
    ensures
        well_named(components(text, PathStyle::Unix)),
{
    lemma_unix_components(text);
    lemma_parts_are_names(text, body_start(text, PathStyle::Unix));
    let start = bare(placed(start_part(text, PathStyle::Unix), 0));
    assert(start.len() > 0 ==> start[0] == start_part(text, PathStyle::Unix)->Some_0);
}

pub proof fn lemma_name_is_one_component(name: Seq<char>)
    requires
        is_name(name),
    ensures
        start_part(name, PathStyle::Unix) is None,
        components(name, PathStyle::Unix) == seq![PathPartModel::Normal(name)],
{
    lemma_unix_components(name);
    lemma_unix_parts_step(name, 0);
    let end = unix_end(name, 0);
    lemma_end_found(name, 0);
    if name.len() == 1 {
        assert(name =~= seq![name[0]]);
    } else {
        assert(name[1] != '/');
    }
    assert(name[0] != '/');
    assert(name.subrange(0, end) =~= name);
    lemma_unix_parts_end(name, end + 1);
    assert(components(name, PathStyle::Unix) =~= seq![PathPartModel::Normal(name)]);
}

/// Where there is no separator before it, the end of the text is found.
proof fn lemma_end_found(text: Seq<char>, from: int)
    requires
        0 <= from <= text.len(),
        forall|i: int| from <= i < text.len() ==> #[trigger] text[i] != '/',
    ensures
        unix_end(text, from) == text.len(),
    decreases text.len() - from,
{
    if from < text.len() {
        lemma_end_found(text, from + 1);
    }
}

pub proof fn lemma_relative_path(parts: Seq<PathPartModel>)
    requires
        well_named(parts),
    ensures
        start_part(relative_path(parts, PathStyle::Unix), PathStyle::Unix) is None,
        components(relative_path(parts, PathStyle::Unix), PathStyle::Unix) == names_among(parts),
    decreases parts.len(),
{
    if parts.len() > 0 {
        let before = parts.drop_last();
        assert(well_named(before)) by {
            assert(forall|i: int| 0 <= i < before.len() ==> #[trigger] before[i] == parts[i]);
        }
        lemma_relative_path(before);
        if let PathPartModel::Normal(name) = parts.last() {
            assert(is_name(name));
            lemma_name_is_one_component(name);
            law_components_joined(relative_path(before, PathStyle::Unix), name);
            assert(names_among(before) + seq![parts.last()] =~= names_among(before).push(
                parts.last(),
            ));
        }
    } else {
        let nothing = relative_path(parts, PathStyle::Unix);
        lemma_unix_components(nothing);
        lemma_unix_parts_end(nothing, 0);
        assert(components(nothing, PathStyle::Unix) =~= Seq::<PathPartModel>::empty());
    }
}

/// A new entry is put right below the folder that it goes to, under the names that were typed and
/// nothing else.
pub proof fn law_target_below_base(name: Seq<char>, paths: TargetPaths)
    ensures
        workspace_target(name, paths, PathStyle::Unix) matches Ok(target) ==> {
            &&& base_dir(paths) matches Ok(base) && components(target, PathStyle::Unix)
                == components(base, PathStyle::Unix) + names_among(
                components(name, PathStyle::Unix),
            )
            &&& names_among(components(name, PathStyle::Unix)).len() > 0
        },
{
    if let Ok(target) = workspace_target(name, paths, PathStyle::Unix) {
        let parts = components(name, PathStyle::Unix);
        let relative = relative_path(parts, PathStyle::Unix);
        lemma_components_are_names(name);
        lemma_relative_path(parts);
        law_components_joined(base_dir(paths)->Ok_0, relative);
        if names_among(parts).len() == 0 {
            lemma_no_names(parts);
        }
    }
}

proof fn lemma_no_names(parts: Seq<PathPartModel>)
    requires
        names_among(parts).len() == 0,
    ensures
        relative_path(parts, PathStyle::Unix).len() == 0,
    decreases parts.len(),
{
    if parts.len() > 0 {
        lemma_no_names(parts.drop_last());
    }
}

} // verus!
