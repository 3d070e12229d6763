//! What holds of paths: the names of files, the folders above them, and how paths are put together.
use crate::breakpoints::{
    FileBreakpointsModel, breakpoints_wf, lemma_file_place, lines_in, toggled, toggled_in,
};
use crate::components::{
    PathPartModel, PathStyle, PlacedModel, Prefix, PrefixKind, PrefixModel, bare, body_start,
    components, dot_first, first_parts, fixed_parts, folders_above, has_root, head, head_end,
    is_absolute, is_letter, is_verbatim, is_verbatim_start, lemma_head_end, parts_from, placed,
    placed_parts, prefix_end, prefix_len, prefix_of, prefix_part, root_written, separates,
    share_prefix, single_part, start_part, verbatim_prefix,
};
use crate::paths::{
    TargetPaths, base_dir, extension_of, joined, last_dot, launch_folders, path_extension,
    path_stem, real_path, relative_path, source_path_of_real, spelled, stays_inside, stem_of,
    with_part, with_parts, workspace_target,
};
use crate::placement::{
    law_components_joined, lemma_components_are_names, lemma_parts_with_separator,
    lemma_relative_path, lemma_unix_components, lemma_unix_parts_end, names_among, slash,
    unix_end,
};
use crate::request::breakpoints_json;
use crate::sync::sync_requests;
use vstd::prelude::*;

verus! {

// ---------------------------------------------------------------------------------------------
// Names
// ---------------------------------------------------------------------------------------------
proof fn lemma_last_dot(name: Seq<char>)
    ensures
        -1 <= last_dot(name) < name.len(),
        last_dot(name) >= 0 ==> name[last_dot(name)] == '.',
        forall|i: int| last_dot(name) < i < name.len() ==> #[trigger] name[i] != '.',
    decreases name.len(),
{
    if name.len() > 0 && name.last() != '.' {
        let rest = name.drop_last();
        lemma_last_dot(rest);
        assert forall|i: int| last_dot(name) < i < name.len() implies #[trigger] name[i] != '.' by {
            if i < rest.len() {
                assert(rest[i] == name[i]);
            }
        }
        if last_dot(name) >= 0 {
            assert(name[last_dot(name)] == rest[last_dot(name)]);
        }
    }
}

/// A name is its stem, a dot and its extension, in which there is no further dot. A name without an
/// extension is its own stem, and has a dot at most in front.
pub proof fn law_stem_and_extension(name: Seq<char>)
    ensures
        match extension_of(name) {
            Some(extension) => stem_of(name).len() > 0 && name == stem_of(name) + seq!['.']
                + extension && forall|i: int|
                0 <= i < extension.len() ==> #[trigger] extension[i] != '.',
            None => stem_of(name) == name && forall|i: int|
                0 < i < name.len() ==> #[trigger] name[i] != '.',
        },
{
    lemma_last_dot(name);
    let dot = last_dot(name);
    if dot > 0 {
        let extension = name.skip(dot + 1);
        assert(name =~= stem_of(name) + seq!['.'] + extension);
        assert forall|i: int| 0 <= i < extension.len() implies #[trigger] extension[i] != '.' by {
            assert(extension[i] == name[dot + 1 + i]);
        }
    }
}

/// The extension and the stem of a file are those of the last component of its path, where that is a
/// name.
pub proof fn law_file_by_its_last_component(path: Seq<char>, style: PathStyle)
    ensures
        ({
            let parts = components(path, style);
            if parts.len() > 0 && parts.last() is Normal {
                let name = parts.last()->Normal_0;
                &&& path_extension(path, style) == extension_of(name)
                &&& path_stem(path, style) == Some(stem_of(name))
            } else {
                path_extension(path, style) is None && path_stem(path, style) is None
            }
        }),
{
}

// ---------------------------------------------------------------------------------------------
// Folders
// ---------------------------------------------------------------------------------------------
spec fn unix_placed(text: Seq<char>, from: int) -> Seq<PlacedModel> {
    parts_from(text, from, PathStyle::Unix, false)
}

proof fn lemma_end_in_shorter(text: Seq<char>, from: int, cut: int)
    requires
        0 <= from <= cut <= text.len(),
    ensures
        unix_end(text, from) < cut ==> unix_end(text.take(cut), from) == unix_end(text, from),
        unix_end(text, from) >= cut ==> unix_end(text.take(cut), from) == cut,
    decreases cut - from,
{
    if from < cut {
        assert(text.take(cut)[from] == text[from]);
        if !slash(text[from]) {
            lemma_end_in_shorter(text, from + 1, cut);
        }
    } else {
        lemma_head_end(text, from, PathStyle::Unix, false);
    }
}

/// Up to the end of a component, a text has the components up to that one.
proof fn lemma_parts_cut(text: Seq<char>, from: int, k: int)
    requires
        0 <= from,
        0 <= k < unix_placed(text, from).len(),
    ensures
        from < unix_placed(text, from)[k].end <= text.len(),
        unix_placed(text.take(unix_placed(text, from)[k].end), from) == unix_placed(
            text,
            from,
        ).take(k + 1),
    decreases text.len() + 1 - from,
{
    let style = PathStyle::Unix;
    lemma_head_end(text, from, style, false);
    let end = unix_end(text, from);
    let first = placed(single_part(text.subrange(from, end), false), end);
    let rest = unix_placed(text, end + 1);
    assert(unix_placed(text, from) == first + rest);
    let cut = unix_placed(text, from)[k].end;
    if k < first.len() {
        assert(cut == end);
        lemma_end_in_shorter(text, from, cut);
        let short = text.take(cut);
        assert(short.subrange(from, end) =~= text.subrange(from, end));
        assert(unix_placed(short, end + 1) =~= Seq::<PlacedModel>::empty());
        assert(unix_placed(short, from) =~= first);
        assert((first + rest).take(k + 1) =~= first);
    } else {
        let next = k - first.len();
        assert((first + rest)[k] == rest[next]);
        lemma_parts_cut(text, end + 1, next);
        let short = text.take(cut);
        lemma_end_in_shorter(text, from, cut);
        assert(short.subrange(from, end) =~= text.subrange(from, end));
        assert(unix_placed(short, from) == first + unix_placed(short, end + 1));
        assert(first + rest.take(next + 1) =~= (first + rest).take(k + 1));
    }
}

proof fn lemma_unix_placed(text: Seq<char>)
    ensures
        placed_parts(text, PathStyle::Unix) == placed(
            start_part(text, PathStyle::Unix),
            body_start(text, PathStyle::Unix),
        ) + unix_placed(text, body_start(text, PathStyle::Unix)),
{
    assert(placed_parts(text, PathStyle::Unix) =~= placed(
        start_part(text, PathStyle::Unix),
        body_start(text, PathStyle::Unix),
    ) + unix_placed(text, body_start(text, PathStyle::Unix)));
}

proof fn lemma_placed_cut(text: Seq<char>, k: int)
    requires
        0 <= k < placed_parts(text, PathStyle::Unix).len(),
    ensures
        0 < placed_parts(text, PathStyle::Unix)[k].end <= text.len(),
        placed_parts(text.take(placed_parts(text, PathStyle::Unix)[k].end), PathStyle::Unix)
            == placed_parts(text, PathStyle::Unix).take(k + 1),
{
    let style = PathStyle::Unix;
    lemma_unix_placed(text);
    let body = body_start(text, style);
    let start = placed(start_part(text, style), body);
    let names = unix_placed(text, body);
    let all = placed_parts(text, style);
    let cut = all[k].end;
    if k < start.len() {
        let short = text.take(cut);
        assert(cut == 1);
        lemma_unix_placed(short);
        assert(unix_placed(short, 1) =~= Seq::<PlacedModel>::empty());
        assert(placed_parts(short, style) =~= start);
        assert((start + names).take(k + 1) =~= start);
    } else {
        let next = k - start.len();
        assert(all[k] == names[next]);
        lemma_parts_cut(text, body, next);
        let short = text.take(cut);
        lemma_unix_placed(short);
        assert(short[0] == text[0]);
        if text[0] == '.' && start_part(text, style) is None {
            assert(cut > 1) by {
                lemma_head_end(text, 0, style, false);
                if text.len() > 1 {
                    assert(!slash(text[1]));
                }
                if cut == 1 {
                    lemma_first_end(text);
                }
            }
            assert(short[1] == text[1]);
        } else if cut > 1 {
            assert(short[1] == text[1]);
        }
        assert(start_part(short, style) == start_part(text, style));
        assert(body_start(short, style) == body);
        assert(start + names.take(next + 1) =~= (start + names).take(k + 1));
    }
}

/// A name of two letters or more does not end behind its first.
proof fn lemma_first_end(text: Seq<char>)
    requires
        text.len() > 0,
        text[0] == '.',
        start_part(text, PathStyle::Unix) is None,
    ensures
        forall|k: int| 0 <= k < unix_placed(text, 0).len() ==> #[trigger] unix_placed(text, 0)[k].end
            > 1,
{
    let style = PathStyle::Unix;
    lemma_head_end(text, 0, style, false);
    let end = unix_end(text, 0);
    assert(text.len() > 1 && !slash(text[1]));
    assert(unix_end(text, 0) == unix_end(text, 1));
    assert(unix_end(text, 1) == unix_end(text, 2));
    lemma_head_end(text, 2, style, false);
    assert(end >= 2);
    let first = placed(single_part(text.subrange(0, end), false), end);
    let rest = unix_placed(text, end + 1);
    assert(unix_placed(text, 0) == first + rest);
    assert forall|k: int| 0 <= k < unix_placed(text, 0).len() implies #[trigger] unix_placed(
        text,
        0,
    )[k].end > 1 by {
        if k >= first.len() {
            lemma_parts_cut(text, end + 1, k - first.len());
            assert((first + rest)[k] == rest[k - first.len()]);
        }
    }
}

/// On Unix, each folder above a path is the path without its last components, one more each time, and
/// the folders above it are those that follow it.
pub proof fn law_folders_above_one_another(text: Seq<char>, i: int)
    requires
        0 <= i < folders_above(text, PathStyle::Unix).len(),
    ensures
        ({
            let folders = folders_above(text, PathStyle::Unix);
            let parts = components(text, PathStyle::Unix);
            &&& folders[i].is_prefix_of(text)
            &&& components(folders[i], PathStyle::Unix) == parts.take(parts.len() - 1 - i)
            &&& folders_above(folders[i], PathStyle::Unix) == folders.skip(i + 1)
        }),
{
    let style = PathStyle::Unix;
    let folders = folders_above(text, style);
    let all = placed_parts(text, style);
    let kept = all.len() - 1 - i;
    let folder = folders[i];
    assert(folder == first_parts(text, style, kept));
    lemma_unix_placed(text);
    if kept > 0 {
        lemma_placed_cut(text, kept - 1);
        assert(placed_parts(folder, style) == all.take(kept));
        assert(folder =~= text.take(folder.len() as int));
    } else {
        lemma_unix_placed(folder);
        assert(unix_placed(folder, 0) =~= Seq::<PlacedModel>::empty());
        assert(placed_parts(folder, style) =~= all.take(kept));
    }
    assert(bare(all.take(kept)) =~= bare(all).take(kept));
    let higher = folders_above(folder, style);
    assert(fixed_parts(folder, style) == fixed_parts(text, style)) by {
        lemma_unix_placed(folder);
        if start_part(text, style) == Some(PathPartModel::RootDir) {
            assert(kept >= 1);
            assert(placed_parts(folder, style)[0] == all[0]);
            assert(folder[0] == text[0]);
        } else if kept > 0 {
            assert(folder[0] == text[0]);
        }
    }
    assert(higher.len() == folders.skip(i + 1).len());
    assert forall|j: int| 0 <= j < higher.len() implies #[trigger] higher[j] == folders.skip(
        i + 1,
    )[j] by {
        let left = kept - 1 - j;
        assert(higher[j] == first_parts(folder, style, left));
        assert(folders.skip(i + 1)[j] == first_parts(text, style, left));
        if left > 0 {
            assert(all.take(kept)[left - 1] == all[left - 1]);
            lemma_placed_cut(text, left - 1);
            lemma_placed_cut(folder, left - 1);
            assert(folder.take(all[left - 1].end) =~= text.take(all[left - 1].end));
        }
    }
    assert(higher =~= folders.skip(i + 1));
}

/// The folders that a Go program may be launched from begin with that of its file, or with the workspace
/// where the file lies in none. Each is followed by the folders above it.
pub proof fn law_launch_folders(file: Seq<char>, workspace: Seq<char>, i: int)
    ensures
        ({
            let folders = launch_folders(Some(file), workspace, PathStyle::Unix);
            &&& folders.len() > 0
            &&& folders[0] == if folders_above(file, PathStyle::Unix).len() > 0 {
                folders_above(file, PathStyle::Unix)[0]
            } else {
                workspace
            }
            &&& 0 <= i < folders.len() ==> folders_above(folders[i], PathStyle::Unix)
                == folders.skip(i + 1)
            &&& launch_folders(None, workspace, PathStyle::Unix).len() == 0
        }),
{
    let above = folders_above(file, PathStyle::Unix);
    let folders = launch_folders(Some(file), workspace, PathStyle::Unix);
    if 0 <= i < folders.len() {
        if above.len() > 0 {
            law_folders_above_one_another(file, i);
        } else if i == 0 {
            assert(folders.skip(1) =~= folders_above(workspace, PathStyle::Unix));
        } else {
            law_folders_above_one_another(workspace, i - 1);
            assert(folders.skip(i + 1) =~= folders_above(workspace, PathStyle::Unix).skip(i));
        }
    }
}

// ---------------------------------------------------------------------------------------------
// Putting together
// ---------------------------------------------------------------------------------------------
/// A name is put behind a path with one separator between them, unless the path is empty, ends in a
/// separator or is a bare drive.
pub proof fn law_joined_by_one_separator(path: Seq<char>, name: Seq<char>, style: PathStyle)
    requires
        prefix_of(name, style) is None,
        !has_root(name, style),
        !is_verbatim(prefix_of(path, style)),
    ensures
        joined(path, name, style) == if path.len() == 0 || path.last() == '/' || (style
            == PathStyle::Windows && path.last() == '\\') || (style == PathStyle::Windows
            && path.len() == 2 && is_letter(path[0]) && path[1] == ':') {
            path + name
        } else if style == PathStyle::Windows {
            path + seq!['\\'] + name
        } else {
            path + seq!['/'] + name
        },
{
    assert(path.push('/') =~= path + seq!['/']);
    assert(path.push('\\') =~= path + seq!['\\']);
}

/// A path that starts from a root of its own is not put behind another. On Windows one without a drive
/// stays on that of the other.
pub proof fn law_absolute_paths_stay(path: Seq<char>, name: Seq<char>)
    requires
        name.len() > 0,
        name[0] == '/',
    ensures
        joined(path, name, PathStyle::Unix) == name,
        is_absolute(name, PathStyle::Unix),
{
}

/// A drive is told by a letter and a colon, whatever the case of the letter.
pub proof fn law_drives(letter: char, rest: Seq<char>)
    requires
        'a' <= letter <= 'z' || 'A' <= letter <= 'Z',
    ensures
        ({
            let text = seq![letter, ':'] + rest;
            &&& prefix_of(text, PathStyle::Windows) matches Some(prefix) && prefix.kind
                == PrefixKind::Disk && prefix.name.len() == 1 && 'A' <= prefix.name[0] <= 'Z' && (
            prefix.name[0] == letter || prefix.name[0] as int + 32 == letter as int)
            &&& prefix_of(text, PathStyle::Unix) is None
            &&& is_absolute(text, PathStyle::Windows) <==> rest.len() > 0 && (rest[0] == '\\'
                || rest[0] == '/')
        }),
{
    let text = seq![letter, ':'] + rest;
    assert(text[0] == letter && text[1] == ':');
    if rest.len() > 0 {
        assert(text[2] == rest[0]);
    }
}

/// A separator more at the end makes no other path.
pub proof fn law_separator_at_the_end(path: Seq<char>)
    requires
        path.len() > 0,
    ensures
        components(path + seq!['/'], PathStyle::Unix) == components(path, PathStyle::Unix),
{
    let style = PathStyle::Unix;
    let whole = path + seq!['/'];
    assert(whole[0] == path[0]);
    if path.len() > 1 {
        assert(whole[1] == path[1]);
    }
    lemma_unix_components(path);
    lemma_unix_components(whole);
    assert(start_part(whole, style) == start_part(path, style));
    assert(body_start(whole, style) == body_start(path, style));
    lemma_parts_with_separator(path, body_start(path, style));
}

// ---------------------------------------------------------------------------------------------
// Components
// ---------------------------------------------------------------------------------------------
/// Whether a text holds no separator.
pub open spec fn unseparated(text: Seq<char>, style: PathStyle) -> bool {
    forall|i: int|
        0 <= i < text.len() ==> #[trigger] text[i] != '/' && (style == PathStyle::Windows ==> text[i]
            != '\\')
}

/// Whether a character stands between components.
pub open spec fn stands_between(c: char, style: PathStyle) -> bool {
    c == '/' || (style == PathStyle::Windows && c == '\\')
}

/// The component that a text without separators is behind another: none where it is empty or a dot.
pub open spec fn part_behind(text: Seq<char>) -> Seq<PathPartModel> {
    if text.len() == 0 || text == seq!['.'] {
        Seq::empty()
    } else if text == seq!['.', '.'] {
        seq![PathPartModel::ParentDir]
    } else {
        seq![PathPartModel::Normal(text)]
    }
}

proof fn lemma_end_at(text: Seq<char>, from: int, end: int, style: PathStyle, verbatim: bool)
    requires
        0 <= from <= end <= text.len(),
        forall|i: int| from <= i < end ==> !separates(#[trigger] text[i], style, verbatim),
        end == text.len() || separates(text[end], style, verbatim),
    ensures
        head_end(text, from, style, verbatim) == end,
    decreases end - from,
{
    if from < end {
        assert(!separates(text[from], style, verbatim));
        lemma_end_at(text, from + 1, end, style, verbatim);
    }
}

proof fn lemma_stops_there(text: Seq<char>, from: int, style: PathStyle, verbatim: bool)
    requires
        0 <= from <= text.len(),
    ensures
        ({
            let end = head_end(text, from, style, verbatim);
            end == text.len() || (end < text.len() && separates(text[end], style, verbatim))
        }),
    decreases text.len() - from,
{
    if from < text.len() && !separates(text[from], style, verbatim) {
        lemma_stops_there(text, from + 1, style, verbatim);
    }
}

proof fn lemma_parts_appended(text: Seq<char>, c: char, more: Seq<char>, from: int, style: PathStyle)
    requires
        0 <= from <= text.len() + 1,
        stands_between(c, style),
    ensures
        bare(parts_from(text + seq![c] + more, from, style, false)) == bare(
            parts_from(text, from, style, false),
        ) + bare(parts_from(text + seq![c] + more, (text.len() + 1) as int, style, false)),
    decreases text.len() + 1 - from,
{
    let whole = text + seq![c] + more;
    let last = bare(parts_from(whole, (text.len() + 1) as int, style, false));
    assert(whole[text.len() as int] == c);
    if from == text.len() + 1 {
        assert(parts_from(text, from, style, false) =~= Seq::<PlacedModel>::empty());
        assert(bare(parts_from(text, from, style, false)) + last =~= last);
    } else if from == text.len() {
        lemma_end_at(whole, from, from, style, false);
        assert(whole.subrange(from, from) =~= Seq::<char>::empty());
        assert(parts_from(whole, from, style, false) =~= parts_from(whole, from + 1, style, false));
        assert(parts_from(text, from, style, false) =~= Seq::<PlacedModel>::empty());
        assert(bare(parts_from(text, from, style, false)) + last =~= last);
    } else {
        lemma_head_end(text, from, style, false);
        lemma_stops_there(text, from, style, false);
        let end = head_end(text, from, style, false);
        assert forall|i: int| from <= i < end implies !separates(#[trigger] whole[i], style, false) by {
            assert(whole[i] == text[i]);
        }
        if end < text.len() {
            assert(whole[end] == text[end]);
        }
        lemma_end_at(whole, from, end, style, false);
        assert(whole.subrange(from, end) =~= text.subrange(from, end));
        lemma_parts_appended(text, c, more, end + 1, style);
        let first = placed(single_part(text.subrange(from, end), false), end);
        let rest = parts_from(text, end + 1, style, false);
        let further = parts_from(whole, end + 1, style, false);
        assert(parts_from(text, from, style, false) == first + rest);
        assert(parts_from(whole, from, style, false) == first + further);
        assert(bare(first + rest) =~= bare(first) + bare(rest));
        assert(bare(first + further) =~= bare(first) + bare(further));
        assert(bare(first) + (bare(rest) + last) =~= (bare(first) + bare(rest)) + last);
    }
}

/// A text without separators at the end is one component, or none.
proof fn lemma_last_part(text: Seq<char>, from: int, style: PathStyle)
    requires
        0 <= from <= text.len(),
        unseparated(text.skip(from), style),
    ensures
        bare(parts_from(text, from, style, false)) == part_behind(text.skip(from)),
{
    let more = text.skip(from);
    assert forall|i: int| from <= i < text.len() implies !separates(
        #[trigger] text[i],
        style,
        false,
    ) by {
        assert(more[i - from] == text[i]);
    }
    lemma_end_at(text, from, text.len() as int, style, false);
    if from < text.len() {
        assert(text.subrange(from, text.len() as int) =~= more);
        assert(parts_from(text, (text.len() + 1) as int, style, false) =~= Seq::<PlacedModel>::empty());
        let part = placed(single_part(more, false), text.len() as int);
        assert(parts_from(text, from, style, false) =~= part);
        assert(bare(part) =~= part_behind(more));
    } else {
        assert(parts_from(text, from, style, false) =~= Seq::<PlacedModel>::empty());
        assert(bare(parts_from(text, from, style, false)) =~= part_behind(more));
    }
}

proof fn lemma_without_prefix(text: Seq<char>, style: PathStyle)
    requires
        prefix_of(text, style) is None,
    ensures
        components(text, style) == bare(placed(start_part(text, style), body_start(text, style)))
            + bare(parts_from(text, body_start(text, style), style, false)),
{
    let start = placed(start_part(text, style), body_start(text, style));
    let rest = parts_from(text, body_start(text, style), style, false);
    assert(placed_parts(text, style) =~= start + rest);
    assert(bare(start + rest) =~= bare(start) + bare(rest));
}

/// A path of one text without separators has one component: the current folder for a dot, the folder
/// above for two, and else what the text names.
pub proof fn law_first_part(text: Seq<char>, style: PathStyle)
    requires
        unseparated(text, style),
        prefix_of(text, style) is None,
    ensures
        components(text, style) == if text == seq!['.'] {
            seq![PathPartModel::CurDir]
        } else {
            part_behind(text)
        },
{
    lemma_without_prefix(text, style);
    if text == seq!['.'] {
        assert(start_part(text, style) == Some(PathPartModel::CurDir));
        assert(parts_from(text, 1, style, false) =~= Seq::<PlacedModel>::empty());
        assert(components(text, style) =~= seq![PathPartModel::CurDir]);
    } else {
        if text.len() == 1 && text[0] == '.' {
            assert(text =~= seq!['.']);
        }
        assert(start_part(text, style) is None);
        assert(text.skip(0) =~= text);
        lemma_last_part(text, 0, style);
        assert(components(text, style) =~= part_behind(text));
    }
}

/// A separator in front is the root.
pub proof fn law_part_behind_the_root(c: char, text: Seq<char>, style: PathStyle)
    requires
        stands_between(c, style),
        unseparated(text, style),
        prefix_of(seq![c] + text, style) is None,
    ensures
        components(seq![c] + text, style) == seq![PathPartModel::RootDir] + part_behind(text),
{
    let whole = seq![c] + text;
    lemma_without_prefix(whole, style);
    assert(whole[0] == c);
    assert(whole.skip(1) =~= text);
    lemma_last_part(whole, 1, style);
    assert(components(whole, style) =~= seq![PathPartModel::RootDir] + part_behind(text));
}

/// A text without separators behind a path and a separator adds its component to those of the path.
pub proof fn law_one_more_part(path: Seq<char>, c: char, text: Seq<char>, style: PathStyle)
    requires
        path.len() > 0,
        stands_between(c, style),
        unseparated(text, style),
        prefix_of(path, style) is None,
        prefix_of(path + seq![c] + text, style) is None,
    ensures
        components(path + seq![c] + text, style) == components(path, style) + part_behind(text),
{
    let whole = path + seq![c] + text;
    let body = body_start(path, style);
    lemma_without_prefix(path, style);
    lemma_without_prefix(whole, style);
    assert(whole[0] == path[0]);
    if path.len() > 1 {
        assert(whole[1] == path[1]);
    } else {
        assert(whole[1] == c);
    }
    assert(start_part(whole, style) == start_part(path, style));
    assert(body_start(whole, style) == body);
    lemma_parts_appended(path, c, text, body, style);
    assert(whole.skip((path.len() + 1) as int) =~= text);
    lemma_last_part(whole, (path.len() + 1) as int, style);
    let start = bare(placed(start_part(path, style), body));
    let rest = bare(parts_from(path, body, style, false));
    assert(start + (rest + part_behind(text)) =~= (start + rest) + part_behind(text));
}

proof fn lemma_parts_shifted(before: Seq<char>, text: Seq<char>, from: int, style: PathStyle)
    requires
        0 <= from <= text.len() + 1,
    ensures
        bare(parts_from(before + text, before.len() + from, style, false)) == bare(
            parts_from(text, from, style, false),
        ),
    decreases text.len() + 1 - from,
{
    let whole = before + text;
    let n = before.len() as int;
    if from < text.len() {
        lemma_head_end(text, from, style, false);
        lemma_stops_there(text, from, style, false);
        let end = head_end(text, from, style, false);
        assert forall|i: int| n + from <= i < n + end implies !separates(
            #[trigger] whole[i],
            style,
            false,
        ) by {
            assert(whole[i] == text[i - n]);
        }
        if end < text.len() {
            assert(whole[n + end] == text[end]);
        }
        lemma_end_at(whole, n + from, n + end, style, false);
        assert(whole.subrange(n + from, n + end) =~= text.subrange(from, end));
        lemma_parts_shifted(before, text, end + 1, style);
        let part = single_part(text.subrange(from, end), false);
        let rest = parts_from(text, end + 1, style, false);
        let further = parts_from(whole, n + end + 1, style, false);
        assert(parts_from(text, from, style, false) == placed(part, end) + rest);
        assert(parts_from(whole, n + from, style, false) == placed(part, n + end) + further);
        assert(bare(placed(part, end) + rest) =~= bare(placed(part, end)) + bare(rest));
        assert(bare(placed(part, n + end) + further) =~= bare(placed(part, n + end)) + bare(further));
        assert(bare(placed(part, n + end)) =~= bare(placed(part, end)));
    } else {
        assert(bare(parts_from(whole, n + from, style, false)) =~= bare(
            parts_from(text, from, style, false),
        ));
    }
}

/// Behind a drive a path has the components that it has without one, but for a dot in front, which
/// is none there.
pub proof fn law_parts_behind_a_drive(letter: char, path: Seq<char>)
    requires
        'a' <= letter <= 'z' || 'A' <= letter <= 'Z',
        prefix_of(path, PathStyle::Windows) is None,
    ensures
        ({
            let parts = components(path, PathStyle::Windows);
            let all = components(seq![letter, ':'] + path, PathStyle::Windows);
            &&& all.len() > 0 && all[0] is Prefix
            &&& all.skip(1) == if parts.len() > 0 && parts[0] is CurDir {
                parts.skip(1)
            } else {
                parts
            }
        }),
{
    let style = PathStyle::Windows;
    let drive = seq![letter, ':'];
    let whole = drive + path;
    let body = body_start(path, style);
    lemma_without_prefix(path, style);
    assert(whole[0] == letter && whole[1] == ':');
    if path.len() > 0 {
        assert(whole[2] == path[0]);
    }
    if path.len() > 1 {
        assert(whole[3] == path[1]);
    }
    assert(root_written(whole, style) == root_written(path, style));
    assert(dot_first(whole, style) == dot_first(path, style));
    assert(body_start(whole, style) == 2 + body);
    lemma_parts_shifted(drive, path, body, style);
    let rest = bare(parts_from(path, body, style, false));
    let front = bare(placed(prefix_part(whole, style), prefix_end(whole, style)));
    let start = bare(placed(start_part(whole, style), 2 + body));
    let all = components(whole, style);
    assert(all =~= front + start + rest);
    assert(front.len() == 1);
    assert(all.skip(1) =~= start + rest);
    if dot_first(path, style) {
        assert(start.len() == 0);
        assert(components(path, style).skip(1) =~= rest);
        assert(all.skip(1) =~= rest);
    } else {
        let parts = bare(placed(start_part(path, style), body));
        assert(start =~= parts);
        assert forall|i: int| 0 <= i < rest.len() implies !(#[trigger] rest[i] is CurDir) by {
            lemma_no_dots(path, body, style);
        }
        assert(parts.len() > 0 ==> parts[0] is RootDir);
    }
}

proof fn lemma_no_dots(text: Seq<char>, from: int, style: PathStyle)
    requires
        0 <= from,
    ensures
        forall|i: int|
            0 <= i < bare(parts_from(text, from, style, false)).len() ==> !(#[trigger] bare(
                parts_from(text, from, style, false),
            )[i] is CurDir),
    decreases text.len() + 1 - from,
{
    if from < text.len() {
        lemma_head_end(text, from, style, false);
        let end = head_end(text, from, style, false);
        lemma_no_dots(text, end + 1, style);
        let first = placed(single_part(text.subrange(from, end), false), end);
        let rest = parts_from(text, end + 1, style, false);
        assert(parts_from(text, from, style, false) == first + rest);
        assert(bare(first + rest) =~= bare(first) + bare(rest));
    }
}

proof fn lemma_same_end(text: Seq<char>, from: int)
    requires
        0 <= from <= text.len(),
        !text.contains('\\'),
    ensures
        head_end(text, from, PathStyle::Windows, false) == head_end(
            text,
            from,
            PathStyle::Unix,
            false,
        ),
    decreases text.len() - from,
{
    if from < text.len() {
        assert(text.contains(text[from]));
        lemma_same_end(text, from + 1);
    }
}

proof fn lemma_same_parts(text: Seq<char>, from: int)
    requires
        0 <= from,
        !text.contains('\\'),
    ensures
        parts_from(text, from, PathStyle::Windows, false) == parts_from(
            text,
            from,
            PathStyle::Unix,
            false,
        ),
    decreases text.len() + 1 - from,
{
    if from < text.len() {
        lemma_same_end(text, from);
        lemma_head_end(text, from, PathStyle::Unix, false);
        lemma_same_parts(text, head_end(text, from, PathStyle::Unix, false) + 1);
    }
}

/// A path without a prefix that is written with slashes alone has the same components and the same
/// folders above it in both styles.
pub proof fn law_slashes_in_both_styles(text: Seq<char>)
    requires
        !text.contains('\\'),
        prefix_of(text, PathStyle::Windows) is None,
    ensures
        components(text, PathStyle::Windows) == components(text, PathStyle::Unix),
        folders_above(text, PathStyle::Windows) == folders_above(text, PathStyle::Unix),
{
    if text.len() > 0 {
        assert(text.contains(text[0]));
    }
    if text.len() > 1 {
        assert(text.contains(text[1]));
    }
    let body = body_start(text, PathStyle::Unix);
    assert(body_start(text, PathStyle::Windows) == body);
    assert(start_part(text, PathStyle::Windows) == start_part(text, PathStyle::Unix));
    lemma_same_parts(text, body);
    assert(placed_parts(text, PathStyle::Windows) =~= placed_parts(text, PathStyle::Unix));
    assert(folders_above(text, PathStyle::Windows) =~= folders_above(text, PathStyle::Unix));
}

// ---------------------------------------------------------------------------------------------
// Prefixes
// ---------------------------------------------------------------------------------------------
/// Whether a text is empty or goes on with a backslash.
pub open spec fn goes_on(text: Seq<char>) -> bool {
    text.len() == 0 || text[0] == '\\'
}

proof fn lemma_name_between(before: Seq<char>, name: Seq<char>, rest: Seq<char>, verbatim: bool)
    requires
        unseparated(name, PathStyle::Windows),
        goes_on(rest),
    ensures
        head_end(before + name + rest, before.len() as int, PathStyle::Windows, verbatim)
            == before.len() + name.len(),
        head(before + name + rest, before.len() as int, PathStyle::Windows, verbatim) == name,
{
    let text = before + name + rest;
    let from = before.len() as int;
    let end = from + name.len();
    assert forall|i: int| from <= i < end implies !separates(
        #[trigger] text[i],
        PathStyle::Windows,
        verbatim,
    ) by {
        assert(text[i] == name[i - from]);
    }
    if rest.len() > 0 {
        assert(text[end] == rest[0]);
    }
    lemma_end_at(text, from, end, PathStyle::Windows, verbatim);
    assert(text.subrange(from, end) =~= name);
}

proof fn lemma_share(
    kind: PrefixKind,
    before: Seq<char>,
    server: Seq<char>,
    share: Seq<char>,
    rest: Seq<char>,
    verbatim: bool,
)
    requires
        unseparated(server, PathStyle::Windows),
        unseparated(share, PathStyle::Windows),
        goes_on(rest),
    ensures
        share_prefix(
            kind,
            before + server + seq!['\\'] + share + rest,
            before.len() as int,
            verbatim,
        ) == (PrefixModel { kind, name: server, share }),
{
    let text = before + server + seq!['\\'] + share + rest;
    let behind = seq!['\\'] + share + rest;
    let start = before + server + seq!['\\'];
    assert(text =~= before + server + behind);
    assert(text =~= start + share + rest);
    lemma_name_between(before, server, behind, verbatim);
    lemma_name_between(start, share, rest, verbatim);
}

/// Two backslashes, a server, a backslash and a share are the prefix of a path that has a root.
pub proof fn law_shares(server: Seq<char>, share: Seq<char>, rest: Seq<char>)
    requires
        server.len() > 0 && unseparated(server, PathStyle::Windows),
        share.len() > 0 && unseparated(share, PathStyle::Windows),
        server != seq!['?'] && server != seq!['.'],
        goes_on(rest),
    ensures
        ({
            let text = seq!['\\', '\\'] + server + seq!['\\'] + share + rest;
            &&& prefix_of(text, PathStyle::Windows) == Some(
                PrefixModel { kind: PrefixKind::Unc, name: server, share },
            )
            &&& is_absolute(text, PathStyle::Windows)
        }),
{
    let text = seq!['\\', '\\'] + server + seq!['\\'] + share + rest;
    lemma_share(PrefixKind::Unc, seq!['\\', '\\'], server, share, rest, false);
    assert(text[0] == '\\' && text[1] == '\\' && text[2] == server[0]);
    if server.len() == 1 {
        assert(server =~= seq![server[0]]);
    } else {
        assert(text[3] == server[1]);
    }
}

/// Two backslashes, a question mark and a backslash in front say that a path is to be taken verbatim:
/// one on a drive, one on a share, or one below any other name.
pub proof fn law_verbatim_prefixes(
    letter: char,
    server: Seq<char>,
    share: Seq<char>,
    name: Seq<char>,
    rest: Seq<char>,
)
    requires
        'a' <= letter <= 'z' || 'A' <= letter <= 'Z',
        unseparated(server, PathStyle::Windows),
        unseparated(share, PathStyle::Windows),
        unseparated(name, PathStyle::Windows),
        name != seq!['U', 'N', 'C'],
        !(name.len() == 2 && name[1] == ':'),
        goes_on(rest),
    ensures
        ({
            let start = seq!['\\', '\\', '?', '\\'];
            let on_share = start + seq!['U', 'N', 'C', '\\'] + server + seq!['\\'] + share + rest;
            &&& prefix_of(start + seq![letter, ':'] + rest, PathStyle::Windows) matches Some(drive)
                && drive.kind == PrefixKind::VerbatimDisk && drive.name.len() == 1 && 'A'
                <= drive.name[0] <= 'Z' && (drive.name[0] == letter || drive.name[0] as int + 32
                == letter as int)
            &&& prefix_of(on_share, PathStyle::Windows) == Some(
                PrefixModel { kind: PrefixKind::VerbatimUnc, name: server, share },
            )
            &&& prefix_of(start + name + rest, PathStyle::Windows) == Some(
                PrefixModel { kind: PrefixKind::Verbatim, name, share: Seq::empty() },
            )
        }),
{
    let start = seq!['\\', '\\', '?', '\\'];
    let drive = start + seq![letter, ':'] + rest;
    assert(drive[4] == letter && drive[5] == ':');
    if rest.len() > 0 {
        assert(drive[6] == rest[0]);
    }
    let long = start + seq!['U', 'N', 'C', '\\'];
    lemma_share(PrefixKind::VerbatimUnc, long, server, share, rest, true);
    let text = start + name + rest;
    lemma_name_between(start, name, rest, true);
    assert(text[0] == '\\' && text[1] == '\\' && text[2] == '?' && text[3] == '\\');
    assert(verbatim_prefix(text).kind == PrefixKind::Verbatim) by {
        if name.len() == 3 {
            assert(text[4] == name[0] && text[5] == name[1] && text[6] == name[2]);
            if name[0] == 'U' && name[1] == 'N' && name[2] == 'C' {
                assert(name =~= seq!['U', 'N', 'C']);
            }
        }
        if name.len() > 3 {
            assert(text[7] == name[3]);
        }
        if name.len() > 2 {
            assert(text[6] == name[2]);
        }
        if name.len() == 2 {
            assert(text[5] == name[1]);
            if rest.len() > 0 {
                assert(text[6] == rest[0]);
            }
        }
        if name.len() == 1 && rest.len() > 0 {
            assert(text[5] == rest[0]);
        }
        if name.len() == 0 && rest.len() > 0 {
            assert(text[4] == rest[0]);
        }
    }
}

/// Two backslashes, a dot and a backslash are followed by the name of a device.
pub proof fn law_devices(name: Seq<char>, rest: Seq<char>)
    requires
        unseparated(name, PathStyle::Windows),
        goes_on(rest),
    ensures
        prefix_of(seq!['\\', '\\', '.', '\\'] + name + rest, PathStyle::Windows) == Some(
            PrefixModel { kind: PrefixKind::Device, name, share: Seq::empty() },
        ),
{
    let start = seq!['\\', '\\', '.', '\\'];
    let text = start + name + rest;
    lemma_name_between(start, name, rest, false);
    assert(text[0] == '\\' && text[1] == '\\' && text[2] == '.' && text[3] == '\\');
}

/// A name is spelled behind other components with a separator, unless it stands first or behind the
/// root or a drive.
pub proof fn law_spelled(
    parts: Seq<PathPartModel>,
    name: Seq<char>,
    prefix: Seq<char>,
    style: PathStyle,
)
    ensures
        spelled(parts.push(PathPartModel::Normal(name)), prefix, style) == if parts.len() == 0 {
            name
        } else if parts.last() is RootDir || (parts.last() matches PathPartModel::Prefix(found)
            && found.kind is Disk) {
            spelled(parts, prefix, style) + name
        } else {
            spelled(parts, prefix, style) + seq![style.separator()] + name
        },
{
    let whole = parts.push(PathPartModel::Normal(name));
    assert(whole.drop_last() =~= parts);
    let start = spelled(parts, prefix, style);
    assert(start.push(style.separator()) =~= start + seq![style.separator()]);
    assert(Seq::<char>::empty() + name =~= name);
}

/// A path that is taken verbatim knows no dots: what is put behind it is resolved, and the whole is
/// spelled anew behind its prefix.
pub proof fn law_joined_to_a_verbatim_path(path: Seq<char>, name: Seq<char>)
    requires
        is_verbatim(prefix_of(path, PathStyle::Windows)),
        name.len() > 0,
        unseparated(name, PathStyle::Windows),
        prefix_of(name, PathStyle::Windows) is None,
    ensures
        ({
            let parts = components(path, PathStyle::Windows);
            let prefix = path.take(prefix_len(prefix_of(path, PathStyle::Windows)));
            joined(path, name, PathStyle::Windows) == spelled(
                if name == seq!['.'] {
                    parts
                } else if name == seq!['.', '.'] {
                    if parts.len() > 0 && parts.last() is Normal {
                        parts.drop_last()
                    } else {
                        parts
                    }
                } else {
                    parts.push(PathPartModel::Normal(name))
                },
                prefix,
                PathStyle::Windows,
            )
        }),
{
    let style = PathStyle::Windows;
    law_first_part(name, style);
    let parts = components(path, style);
    let more = components(name, style);
    assert(more.len() == 1);
    assert(more.drop_last() =~= Seq::<PathPartModel>::empty());
    assert(with_parts(parts, more.drop_last()) == parts);
    assert(with_parts(parts, more) == with_part(parts, more[0]));
}

// ---------------------------------------------------------------------------------------------
// New entries
// ---------------------------------------------------------------------------------------------
/// A new entry goes into the folder that is selected, beside the file that is, and else into the
/// workspace.
pub proof fn law_where_a_new_entry_goes(paths: TargetPaths)
    ensures
        base_dir(paths) == match paths.selected {
            Some(selected) => if selected.is_dir {
                real_path(selected.entry)
            } else if selected.parent is Some {
                real_path(selected.parent->Some_0)
            } else {
                real_path(paths.root)
            },
            None => real_path(paths.root),
        },
        paths.root matches Ok(path) ==> real_path(paths.root) == Ok::<Seq<char>, Seq<char>>(path@),
        paths.root matches Err(error) ==> real_path(paths.root) == Err::<Seq<char>, Seq<char>>(
            error@,
        ),
{
}

/// Why a new entry gets no place: its name is that of another place, leads out of the folder or holds
/// nothing, the workspace or the folder cannot be found, or the folder or the place lies outside the
/// workspace. In all other cases it gets one.
pub proof fn law_why_an_entry_is_refused(name: Seq<char>, paths: TargetPaths, style: PathStyle)
    ensures
        ({
            let parts = components(name, style);
            let target = workspace_target(name, paths, style);
            let inside = forall|i: int|
                0 <= i < parts.len() ==> (#[trigger] parts[i] is Normal || parts[i] is CurDir);
            let relative = relative_path(parts, style);
            let root = real_path(paths.root);
            let base = base_dir(paths);
            if is_absolute(name, style) {
                target == Err::<Seq<char>, Seq<char>>(
                    "Invalid path: absolute paths are not allowed"@,
                )
            } else if !inside {
                target == Err::<Seq<char>, Seq<char>>("Invalid path: outside workspace"@)
            } else if relative.len() == 0 {
                target == Err::<Seq<char>, Seq<char>>("Invalid path: name is empty"@)
            } else if root is Err {
                target == Err::<Seq<char>, Seq<char>>("Workspace path error: "@ + root->Err_0)
            } else if base is Err {
                target == Err::<Seq<char>, Seq<char>>("Base path error: "@ + base->Err_0)
            } else {
                let place = joined(base->Ok_0, relative, style);
                let home = components(root->Ok_0, style);
                target == if home.is_prefix_of(components(base->Ok_0, style)) && home.is_prefix_of(
                    components(place, style),
                ) {
                    Ok::<Seq<char>, Seq<char>>(place)
                } else {
                    Err::<Seq<char>, Seq<char>>("Invalid path: outside workspace"@)
                }
            }
        }),
{
    let parts = components(name, style);
    assert(forall|i: int|
        0 <= i < parts.len() ==> stays_inside(#[trigger] parts[i]) == (parts[i] is Normal
            || parts[i] is CurDir));
}

/// On Unix an entry of the workspace gets a place wherever its name is made of names: below the folder
/// that it goes to, which lies in the workspace.
pub proof fn law_entries_get_a_place(name: Seq<char>, paths: TargetPaths)
    requires
        ({
            let parts = components(name, PathStyle::Unix);
            &&& forall|i: int|
                0 <= i < parts.len() ==> (#[trigger] parts[i] is Normal || parts[i] is CurDir)
            &&& names_among(parts).len() > 0
            &&& real_path(paths.root) is Ok && base_dir(paths) is Ok
            &&& components(real_path(paths.root)->Ok_0, PathStyle::Unix).is_prefix_of(
                components(base_dir(paths)->Ok_0, PathStyle::Unix),
            )
        }),
    ensures
        workspace_target(name, paths, PathStyle::Unix) is Ok,
{
    let style = PathStyle::Unix;
    let parts = components(name, style);
    let relative = relative_path(parts, style);
    let base = base_dir(paths)->Ok_0;
    let home = components(real_path(paths.root)->Ok_0, style);
    law_why_an_entry_is_refused(name, paths, style);
    lemma_components_are_names(name);
    lemma_relative_path(parts);
    law_components_joined(base, relative);
    lemma_unix_components(name);
    if is_absolute(name, style) {
        assert(bare(placed(start_part(name, style), 0))[0] == PathPartModel::RootDir);
        assert(parts[0] == PathPartModel::RootDir);
    }
    if relative.len() == 0 {
        lemma_unix_components(relative);
        lemma_unix_parts_end(relative, 0);
        assert(components(relative, style).len() == 0);
    }
    assert(home.is_prefix_of(components(base, style) + names_among(parts)));
}

// ---------------------------------------------------------------------------------------------
// Debug adapters
// ---------------------------------------------------------------------------------------------
/// Adapters are told real paths without the start that says to take them verbatim, which only Windows
/// paths have.
#[verifier::spinoff_prover]
pub proof fn law_paths_for_adapters(path: Seq<char>)
    ensures
        source_path_of_real(seq!['\\', '\\', '?', '\\'] + path, PathStyle::Windows) == path,
        source_path_of_real(path, PathStyle::Unix) == path,
        !seq!['\\', '\\', '?', '\\'].is_prefix_of(path) ==> source_path_of_real(
            path,
            PathStyle::Windows,
        ) == path,
{
    let start = seq!['\\', '\\', '?', '\\'];
    let whole = start + path;
    assert(whole[0] == '\\' && whole[1] == '\\' && whole[2] == '?' && whole[3] == '\\');
    assert(whole.skip(4) =~= path);
    if is_verbatim_start(path) {
        assert(start =~= path.take(4));
    }
}

/// The request of a file gives its breakpoints under the real path of the file, or under its path where
/// no real one was found.
pub proof fn law_request_of_a_file(
    files: Seq<FileBreakpointsModel>,
    real_paths: Seq<Option<String>>,
    style: PathStyle,
    i: int,
)
    requires
        0 <= i < files.len(),
    ensures
        sync_requests(files, real_paths, style)[i] == breakpoints_json(
            source_path_of_real(
                if i < real_paths.len() && real_paths[i] is Some {
                    real_paths[i]->Some_0@
                } else {
                    files[i].path
                },
                style,
            ),
            files[i].lines,
        ),
{
}

/// The breakpoints of a file are found by the components of its path.
pub proof fn law_breakpoints_by_components(
    files: Seq<FileBreakpointsModel>,
    key: Seq<PathPartModel>,
    i: int,
)
    requires
        breakpoints_wf(files),
    ensures
        0 <= i < files.len() && files[i].parts == key ==> lines_in(files, key) == files[i].lines,
        (forall|j: int| 0 <= j < files.len() ==> (#[trigger] files[j]).parts != key) ==> lines_in(
            files,
            key,
        ).len() == 0,
{
    lemma_file_place(files, key);
}

/// The first breakpoint of a file lists the file, behind those that are listed, under the path that
/// it was given. Any other changes the lines of the file and nothing else.
pub proof fn law_files_of_breakpoints(
    files: Seq<FileBreakpointsModel>,
    path: Seq<char>,
    key: Seq<PathPartModel>,
    line: i64,
    i: int,
)
    requires
        breakpoints_wf(files),
    ensures
        (forall|j: int| 0 <= j < files.len() ==> (#[trigger] files[j]).parts != key) ==> toggled_in(
            files,
            path,
            key,
            line,
        ) == files.push(FileBreakpointsModel { path, parts: key, lines: seq![line] }),
        0 <= i < files.len() && files[i].parts == key ==> toggled_in(files, path, key, line)
            == files.update(
            i,
            FileBreakpointsModel { lines: toggled(files[i].lines, line), ..files[i] },
        ),
{
    lemma_file_place(files, key);
    let none = Seq::<i64>::empty();
    assert(none.insert(0, line) =~= seq![line]);
    assert(!none.contains(line));
}

} // verus!
