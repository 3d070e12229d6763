//! Paths: joining them, where a new file or folder may go, and where a program is launched.
use crate::components::{
    PathPart, PathPartModel, PathStyle, PrefixKind, components, components_of, copy_part,
    folders_above, has_root, is_absolute, is_sep, is_separator, is_verbatim, is_verbatim_start,
    list_folders_above, part_models, path_is_absolute, prefix_len, prefix_of, prefix_size,
    read_prefix, starts_with, text_between,
};
use crate::dap::text_option;
use crate::debug_state::texts_of;
use crate::surroundings::OpenFile;
use crate::text::{chars_of, concat2};
use vstd::prelude::*;

verus! {

// ---------------------------------------------------------------------------------------------
// Joining
// ---------------------------------------------------------------------------------------------
/// Whether a separator goes between a path and a name behind it. None does behind a bare drive.
pub open spec fn needs_separator(path: Seq<char>, style: PathStyle) -> bool {
    &&& path.len() > 0
    &&& !is_separator(path.last(), style)
    &&& !(path.len() == 2 && (prefix_of(path, style) matches Some(prefix) && prefix.kind is Disk))
}

/// Components behind which a further one is put, in a path that is taken verbatim.
pub open spec fn with_part(parts: Seq<PathPartModel>, part: PathPartModel) -> Seq<PathPartModel> {
    match part {
        PathPartModel::RootDir => (if parts.len() > 0 {
            parts.take(1)
        } else {
            parts
        }).push(part),
        PathPartModel::CurDir => parts,
        PathPartModel::ParentDir => if parts.len() > 0 && parts.last() is Normal {
            parts.drop_last()
        } else {
            parts
        },
        _ => parts.push(part),
    }
}

pub open spec fn with_parts(parts: Seq<PathPartModel>, more: Seq<PathPartModel>) -> Seq<
    PathPartModel,
>
    decreases more.len(),
{
    if more.len() == 0 {
        parts
    } else {
        with_part(with_parts(parts, more.drop_last()), more.last())
    }
}

/// The text of a component. That of a prefix is given.
pub open spec fn part_text(part: PathPartModel, prefix: Seq<char>, style: PathStyle) -> Seq<char> {
    match part {
        PathPartModel::Prefix(_) => prefix,
        PathPartModel::RootDir => seq![style.separator()],
        PathPartModel::CurDir => seq!['.'],
        PathPartModel::ParentDir => seq!['.', '.'],
        PathPartModel::Normal(text) => text,
    }
}

/// Whether a separator is written behind a component. The root is one, and a drive needs none.
pub open spec fn separated_behind(part: PathPartModel) -> bool {
    match part {
        PathPartModel::RootDir => false,
        PathPartModel::Prefix(prefix) => !(prefix.kind is Disk),
        _ => true,
    }
}

/// Components written out.
pub open spec fn spelled(parts: Seq<PathPartModel>, prefix: Seq<char>, style: PathStyle) -> Seq<char>
    decreases parts.len(),
{
    if parts.len() == 0 {
        Seq::empty()
    } else {
        let before = parts.drop_last();
        let start = spelled(before, prefix, style);
        let open = if before.len() > 0 && separated_behind(before.last()) && !(
        parts.last() is RootDir) {
            start.push(style.separator())
        } else {
            start
        };
        open + part_text(parts.last(), prefix, style)
    }
}

/// A path behind another. An absolute path, or one with a prefix, takes the place of the other; one
/// that begins with a root keeps only the prefix of the other. Behind a path that is taken verbatim
/// the components are put one by one.
pub open spec fn joined(path: Seq<char>, name: Seq<char>, style: PathStyle) -> Seq<char> {
    let prefix = path.take(prefix_len(prefix_of(path, style)));
    if is_absolute(name, style) || prefix_of(name, style) is Some {
        name
    } else if is_verbatim(prefix_of(path, style)) && name.len() > 0 {
        spelled(with_parts(components(path, style), components(name, style)), prefix, style)
    } else if has_root(name, style) {
        prefix + name
    } else if needs_separator(path, style) {
        path.push(style.separator()) + name
    } else {
        path + name
    }
}

fn put_part(parts: &mut Vec<PathPart>, part: PathPart)
    ensures
        part_models(final(parts)@) == with_part(part_models(old(parts)@), part@),
{
    let ghost before = parts@;
    match part {
        PathPart::RootDir => {
            if parts.len() > 0 {
                parts.truncate(1);
            }
            parts.push(part);
        },
        PathPart::CurDir => {},
        PathPart::ParentDir => {
            let named: bool = parts.len() > 0 && match &parts[parts.len() - 1] {
                PathPart::Normal(_) => true,
                _ => false,
            };
            if named {
                let _ = parts.pop();
            }
        },
        _ => parts.push(part),
    }
    proof {
        if before.len() > 0 {
            assert(part_models(before).last() == before.last()@);
        }
    }
    assert(part_models(parts@) =~= with_part(part_models(before), part@));
}

fn put_parts(parts: &mut Vec<PathPart>, more: &Vec<PathPart>)
    ensures
        part_models(final(parts)@) == with_parts(part_models(old(parts)@), part_models(more@)),
{
    let ghost start = part_models(parts@);
    let ghost all = part_models(more@);
    let mut i: usize = 0;
    assert(all.take(0) =~= Seq::<PathPartModel>::empty());
    while i < more.len()
        invariant
            i <= more@.len(),
            all == part_models(more@),
            part_models(parts@) == with_parts(start, all.take(i as int)),
        decreases more@.len() - i,
    {
        assert(all.take(i + 1).drop_last() =~= all.take(i as int));
        assert(all.take(i + 1).last() == more@[i as int]@);
        put_part(parts, copy_part(&more[i]));
        i += 1;
    }
    assert(all.take(i as int) =~= all);
}

fn spell_part(part: &PathPart, prefix: &str, style: PathStyle) -> (text: String)
    ensures
        text@ == part_text(part@, prefix@, style),
{
    proof {
        reveal_strlit(".");
        reveal_strlit("..");
        assert("."@ =~= seq!['.']);
        assert(".."@ =~= seq!['.', '.']);
    }
    match part {
        PathPart::Prefix(_) => prefix.to_owned(),
        PathPart::RootDir => {
            let mut text = String::new();
            text.push(style.main_separator());
            assert(text@ =~= seq![style.separator()]);
            text
        },
        PathPart::CurDir => ".".to_owned(),
        PathPart::ParentDir => "..".to_owned(),
        PathPart::Normal(text) => text.clone(),
    }
}

fn separated(part: &PathPart) -> (is: bool)
    ensures
        is == separated_behind(part@),
{
    match part {
        PathPart::RootDir => false,
        PathPart::Prefix(prefix) => match prefix.kind {
            PrefixKind::Disk => false,
            _ => true,
        },
        _ => true,
    }
}

/// Components written out.
fn spell(parts: &Vec<PathPart>, prefix: &str, style: PathStyle) -> (text: String)
    ensures
        text@ == spelled(part_models(parts@), prefix@, style),
{
    let ghost all = part_models(parts@);
    let mut text = String::new();
    let mut i: usize = 0;
    assert(all.take(0) =~= Seq::<PathPartModel>::empty());
    assert(text@ =~= Seq::<char>::empty());
    while i < parts.len()
        invariant
            i <= parts@.len(),
            all == part_models(parts@),
            text@ == spelled(all.take(i as int), prefix@, style),
        decreases parts@.len() - i,
    {
        assert(all.take(i + 1).drop_last() =~= all.take(i as int));
        assert(all.take(i + 1).last() == parts@[i as int]@);
        let root: bool = match &parts[i] {
            PathPart::RootDir => true,
            _ => false,
        };
        proof {
            if i > 0 {
                assert(all.take(i as int).last() == parts@[i - 1]@);
            }
        }
        if i > 0 && separated(&parts[i - 1]) && !root {
            text.push(style.main_separator());
        }
        let own = spell_part(&parts[i], prefix, style);
        text = concat2(text.as_str(), own.as_str());
        i += 1;
    }
    assert(all.take(i as int) =~= all);
    text
}

/// A path behind another.
pub fn join_path(path: &str, name: &str, style: PathStyle) -> (whole: String)
    ensures
        whole@ == joined(path@, name@, style),
{
    let chars = chars_of(path);
    let prefix = read_prefix(&chars, style);
    let start: usize = match &prefix {
        Some(found) => prefix_size(found, chars.len()),
        None => 0,
    };
    let name_chars = chars_of(name);
    if path_is_absolute(name, style) || read_prefix(&name_chars, style).is_some() {
        return name.to_owned();
    }
    let raw = text_between(&chars, 0, start);
    assert(raw@ =~= path@.take(start as int));
    let verbatim: bool = match &prefix {
        Some(found) => found.kind.takes_verbatim(),
        None => false,
    };
    if verbatim && name_chars.len() > 0 {
        let mut parts = components_of(path, style);
        put_parts(&mut parts, &components_of(name, style));
        return spell(&parts, raw.as_str(), style);
    }
    if name_chars.len() > 0 && is_sep(name_chars[0], style) {
        return concat2(raw.as_str(), name);
    }
    let bare_drive: bool = match &prefix {
        Some(found) => match found.kind {
            PrefixKind::Disk => chars.len() == 2,
            _ => false,
        },
        None => false,
    };
    if chars.len() > 0 && !is_sep(chars[chars.len() - 1], style) && !bare_drive {
        let mut open: String = path.to_owned();
        open.push(style.main_separator());
        concat2(open.as_str(), name)
    } else {
        concat2(path, name)
    }
}

// ---------------------------------------------------------------------------------------------
// Names of files
// ---------------------------------------------------------------------------------------------
/// The name of the file that a path leads to: its last component, where that is a name.
pub open spec fn file_name_of(path: Seq<char>, style: PathStyle) -> Option<Seq<char>> {
    let parts = components(path, style);
    if parts.len() > 0 {
        match parts.last() {
            PathPartModel::Normal(name) => Some(name),
            _ => None,
        }
    } else {
        None
    }
}

/// The last dot of a name, or a negative number where it has none.
pub open spec fn last_dot(name: Seq<char>) -> int
    decreases name.len(),
{
    if name.len() == 0 {
        -1
    } else if name.last() == '.' {
        name.len() - 1
    } else {
        last_dot(name.drop_last())
    }
}

/// What a name ends in behind its last dot. A name that begins with its only dot has no extension.
pub open spec fn extension_of(name: Seq<char>) -> Option<Seq<char>> {
    if last_dot(name) > 0 {
        Some(name.skip(last_dot(name) + 1))
    } else {
        None
    }
}

/// A name without its extension and the dot before it.
pub open spec fn stem_of(name: Seq<char>) -> Seq<char> {
    if last_dot(name) > 0 {
        name.take(last_dot(name))
    } else {
        name
    }
}

/// The extension of the file that a path leads to.
pub open spec fn path_extension(path: Seq<char>, style: PathStyle) -> Option<Seq<char>> {
    match file_name_of(path, style) {
        Some(name) => extension_of(name),
        None => None,
    }
}

/// The name of the file that a path leads to, without the extension.
pub open spec fn path_stem(path: Seq<char>, style: PathStyle) -> Option<Seq<char>> {
    match file_name_of(path, style) {
        Some(name) => Some(stem_of(name)),
        None => None,
    }
}

fn file_name(path: &str, style: PathStyle) -> (name: Option<String>)
    ensures
        text_option(name) == file_name_of(path@, style),
{
    let parts = components_of(path, style);
    if parts.len() == 0 {
        assert(part_models(parts@).len() == 0);
        return None;
    }
    assert(part_models(parts@).last() == parts@.last()@);
    match &parts[parts.len() - 1] {
        PathPart::Normal(name) => Some(name.clone()),
        _ => None,
    }
}

/// The place of the last dot, where it parts a name in two.
fn find_dot(chars: &Vec<char>) -> (place: Option<usize>)
    ensures
        match place {
            Some(dot) => 0 < dot < chars@.len() && dot == last_dot(chars@),
            None => last_dot(chars@) <= 0,
        },
{
    let mut i: usize = chars.len();
    assert(chars@.take(i as int) =~= chars@);
    while i > 1
        invariant
            i <= chars@.len(),
            last_dot(chars@) == last_dot(chars@.take(i as int)),
        decreases i,
    {
        assert(chars@.take(i as int).drop_last() =~= chars@.take(i - 1));
        if chars[i - 1] == '.' {
            return Some(i - 1);
        }
        i -= 1;
    }
    proof {
        reveal_with_fuel(last_dot, 2);
    }
    None
}

/// The extension of the file that a path leads to.
pub fn extension_text(path: &str, style: PathStyle) -> (extension: Option<String>)
    ensures
        text_option(extension) == path_extension(path@, style),
{
    match file_name(path, style) {
        Some(name) => {
            let chars = chars_of(name.as_str());
            match find_dot(&chars) {
                Some(dot) => {
                    let end: usize = chars.len();
                    let text = text_between(&chars, dot + 1, end);
                    assert(text@ =~= chars@.skip(dot + 1));
                    Some(text)
                },
                None => None,
            }
        },
        None => None,
    }
}

/// The name of the file that a path leads to, without the extension.
pub fn stem_text(path: &str, style: PathStyle) -> (stem: Option<String>)
    ensures
        text_option(stem) == path_stem(path@, style),
{
    match file_name(path, style) {
        Some(name) => {
            let chars = chars_of(name.as_str());
            match find_dot(&chars) {
                Some(dot) => {
                    let text = text_between(&chars, 0, dot);
                    assert(text@ =~= chars@.take(dot as int));
                    Some(text)
                },
                None => Some(name),
            }
        },
        None => None,
    }
}

/// The folder that a path lies in, or a dot where it lies in none.
pub open spec fn folder_or_dot(path: Seq<char>, style: PathStyle) -> Seq<char> {
    let above = folders_above(path, style);
    if above.len() > 0 {
        above[0]
    } else {
        "."@
    }
}

/// The folder that a path lies in, or a dot where it lies in none.
pub fn folder_text(path: &str, style: PathStyle) -> (folder: String)
    ensures
        folder@ == folder_or_dot(path@, style),
{
    let above = list_folders_above(path, style);
    if above.len() > 0 {
        assert(texts_of(above@)[0] == above@[0]@);
        above[0].clone()
    } else {
        ".".to_owned()
    }
}

// ---------------------------------------------------------------------------------------------
// New files and folders
// ---------------------------------------------------------------------------------------------
/// The entry that is selected in the file tree, with the real path of it and of its parent.
pub struct SelectedEntry {
    pub is_dir: bool,
    pub entry: Result<String, String>,
    pub parent: Option<Result<String, String>>,
}

/// The places that a new entry may be put in. A real path that could not be found is an error.
pub struct TargetPaths {
    pub selected: Option<SelectedEntry>,
    pub root: Result<String, String>,
}

/// The text of a real path, or that of the error.
pub open spec fn real_path(path: Result<String, String>) -> Result<Seq<char>, Seq<char>> {
    match path {
        Ok(text) => Ok(text@),
        Err(error) => Err(error@),
    }
}

/// Whether a component stays below the place that a path starts from.
pub open spec fn stays_inside(part: PathPartModel) -> bool {
    part is Normal || part is CurDir
}

/// Where a new entry is put: into the selected folder, else beside the selected entry, else into
/// the workspace.
pub open spec fn base_dir(paths: TargetPaths) -> Result<Seq<char>, Seq<char>> {
    match paths.selected {
        Some(selected) => if selected.is_dir {
            real_path(selected.entry)
        } else {
            match selected.parent {
                Some(parent) => real_path(parent),
                None => real_path(paths.root),
            }
        },
        None => real_path(paths.root),
    }
}

/// The names among some components, one behind the other.
pub open spec fn relative_path(parts: Seq<PathPartModel>, style: PathStyle) -> Seq<char>
    decreases parts.len(),
{
    if parts.len() == 0 {
        Seq::empty()
    } else {
        let before = relative_path(parts.drop_last(), style);
        match parts.last() {
            PathPartModel::Normal(name) => joined(before, name, style),
            _ => before,
        }
    }
}

/// Whether a path lies below another or is the same.
pub open spec fn lies_in(path: Seq<char>, folder: Seq<char>, style: PathStyle) -> bool {
    components(folder, style).is_prefix_of(components(path, style))
}

/// The path that a new entry gets for the name that was typed, or why it gets none.
pub open spec fn workspace_target(name: Seq<char>, paths: TargetPaths, style: PathStyle) -> Result<
    Seq<char>,
    Seq<char>,
> {
    let parts = components(name, style);
    let relative = relative_path(parts, style);
    if is_absolute(name, style) {
        Err("Invalid path: absolute paths are not allowed"@)
    } else if !(forall|i: int| 0 <= i < parts.len() ==> stays_inside(#[trigger] parts[i])) {
        Err("Invalid path: outside workspace"@)
    } else if relative.len() == 0 {
        Err("Invalid path: name is empty"@)
    } else {
        match (real_path(paths.root), base_dir(paths)) {
            (Err(error), _) => Err("Workspace path error: "@ + error),
            (_, Err(error)) => Err("Base path error: "@ + error),
            (Ok(root), Ok(base)) => if lies_in(base, root, style) && lies_in(
                joined(base, relative, style),
                root,
                style,
            ) {
                Ok(joined(base, relative, style))
            } else {
                Err("Invalid path: outside workspace"@)
            },
        }
    }
}

/// Where a new entry is put.
pub fn create_base_dir(paths: &TargetPaths) -> (base: &Result<String, String>)
    ensures
        real_path(*base) == base_dir(*paths),
{
    match &paths.selected {
        Some(selected) => {
            if selected.is_dir {
                return &selected.entry;
            }
            match &selected.parent {
                Some(parent) => parent,
                None => &paths.root,
            }
        },
        None => &paths.root,
    }
}

fn is_inside(path: &str, folder: &str, style: PathStyle) -> (inside: bool)
    ensures
        inside == lies_in(path@, folder@, style),
{
    starts_with(&components_of(path, style), &components_of(folder, style))
}

/// The path that a new entry gets for the name that was typed, or why it gets none.
pub fn resolve_workspace_target(name: &str, paths: &TargetPaths, style: PathStyle) -> (target: Result<
    String,
    String,
>)
    ensures
        real_path(target) == workspace_target(name@, *paths, style),
{
    if path_is_absolute(name, style) {
        return Err("Invalid path: absolute paths are not allowed".to_owned());
    }
    let parts = components_of(name, style);
    let ghost all = part_models(parts@);
    let mut relative = String::new();
    let mut i: usize = 0;
    assert(all.take(0) =~= Seq::<PathPartModel>::empty());
    assert(relative@ =~= Seq::<char>::empty());
    while i < parts.len()
        invariant
            i <= parts@.len(),
            all == part_models(parts@),
            all == components(name@, style),
            !is_absolute(name@, style),
            forall|k: int| 0 <= k < i ==> stays_inside(#[trigger] all[k]),
            relative@ == relative_path(all.take(i as int), style),
        decreases parts@.len() - i,
    {
        assert(all[i as int] == parts@[i as int]@);
        assert(all.take(i + 1).drop_last() =~= all.take(i as int));
        assert(all.take(i + 1).last() == all[i as int]);
        match &parts[i] {
            PathPart::Normal(text) => {
                relative = join_path(relative.as_str(), text.as_str(), style);
            },
            PathPart::CurDir => {},
            _ => {
                assert(!stays_inside(all[i as int]));
                return Err("Invalid path: outside workspace".to_owned());
            },
        }
        i += 1;
    }
    assert(all.take(i as int) =~= all);
    if relative.as_str().is_empty() {
        return Err("Invalid path: name is empty".to_owned());
    }
    let root = match &paths.root {
        Ok(root) => root,
        Err(error) => {
            return Err(concat2("Workspace path error: ", error.as_str()));
        },
    };
    let base = match create_base_dir(paths) {
        Ok(base) => base,
        Err(error) => {
            return Err(concat2("Base path error: ", error.as_str()));
        },
    };
    if !is_inside(base.as_str(), root.as_str(), style) {
        return Err("Invalid path: outside workspace".to_owned());
    }
    let target = join_path(base.as_str(), relative.as_str(), style);
    if !is_inside(target.as_str(), root.as_str(), style) {
        return Err("Invalid path: outside workspace".to_owned());
    }
    Ok(target)
}

/// A new entry is never put outside the workspace: where it gets a path, the path begins with the
/// components of the workspace, and what was typed is made of names alone, but for a dot at its
/// beginning.
pub proof fn law_target_in_workspace(name: Seq<char>, paths: TargetPaths, style: PathStyle)
    ensures
        workspace_target(name, paths, style) matches Ok(target) ==> {
            &&& real_path(paths.root) matches Ok(root) && components(
                root,
                style,
            ).is_prefix_of(components(target, style))
            &&& forall|i: int|
                0 <= i < components(name, style).len() ==> stays_inside(
                    #[trigger] components(name, style)[i],
                )
        },
{
}

// ---------------------------------------------------------------------------------------------
// Launching
// ---------------------------------------------------------------------------------------------
/// The folders that a Go program may be launched from, nearest first: the folder of its file, or
/// the workspace where the file lies in none, and each folder above. Without a file there are none.
pub open spec fn launch_folders(
    file: Option<Seq<char>>,
    workspace: Seq<char>,
    style: PathStyle,
) -> Seq<Seq<char>> {
    match file {
        Some(path) => if folders_above(path, style).len() > 0 {
            folders_above(path, style)
        } else {
            seq![workspace] + folders_above(workspace, style)
        },
        None => Seq::empty(),
    }
}

/// Whether a Go module was found to start in a folder of a list.
pub open spec fn module_at(found: Seq<bool>, i: int) -> bool {
    0 <= i < found.len() && found[i]
}

/// The first folder of a list, from a place on, that a Go module starts in.
pub open spec fn module_dir(folders: Seq<Seq<char>>, found: Seq<bool>, from: int) -> Option<
    Seq<char>,
>
    decreases folders.len() - from,
{
    if from < 0 || from >= folders.len() {
        None
    } else if module_at(found, from) {
        Some(folders[from])
    } else {
        module_dir(folders, found, from + 1)
    }
}

/// The folder that a Go program is launched from, out of those that it may be launched from and
/// whether a module starts in each: the nearest that one starts in, else the nearest, else the
/// workspace.
pub open spec fn go_launch_dir(
    folders: Seq<Seq<char>>,
    found: Seq<bool>,
    workspace: Seq<char>,
) -> Seq<char> {
    match module_dir(folders, found, 0) {
        Some(dir) => dir,
        None => if folders.len() > 0 {
            folders[0]
        } else {
            workspace
        },
    }
}

/// The folders that a Go program may be launched from, nearest first.
pub fn list_launch_folders(file: &Option<OpenFile>, workspace: &str, style: PathStyle) -> (folders:
    Vec<String>)
    ensures
        texts_of(folders@) == launch_folders(file_path_of(*file), workspace@, style),
{
    let path = match file {
        Some(open) => open.path.as_str(),
        None => {
            let none: Vec<String> = Vec::new();
            assert(texts_of(none@) =~= Seq::<Seq<char>>::empty());
            return none;
        },
    };
    let above = list_folders_above(path, style);
    assert(texts_of(above@).len() == above@.len());
    if above.len() > 0 {
        return above;
    }
    let mut higher = list_folders_above(workspace, style);
    let ghost rest = higher@;
    let mut folders: Vec<String> = Vec::new();
    folders.push(workspace.to_owned());
    let ghost first = folders@;
    folders.append(&mut higher);
    assert(folders@ =~= first + rest);
    assert(texts_of(folders@) =~= seq![workspace@] + texts_of(rest));
    folders
}

/// The path of the open file.
pub open spec fn file_path_of(file: Option<OpenFile>) -> Option<Seq<char>> {
    match file {
        Some(open) => Some(open.path@),
        None => None,
    }
}

/// The folder that a Go program is launched from, once it is known in which folders a module starts.
pub fn resolve_go_launch_dir(
    file: &Option<OpenFile>,
    workspace: &str,
    style: PathStyle,
    found: &Vec<bool>,
) -> (dir: String)
    ensures
        dir@ == go_launch_dir(
            launch_folders(file_path_of(*file), workspace@, style),
            found@,
            workspace@,
        ),
{
    let folders = list_launch_folders(file, workspace, style);
    let ghost all = launch_folders(file_path_of(*file), workspace@, style);
    assert(all.len() == folders@.len());
    let mut i: usize = 0;
    while i < folders.len()
        invariant
            i <= folders@.len(),
            all == texts_of(folders@),
            all.len() == folders@.len(),
            all == launch_folders(file_path_of(*file), workspace@, style),
            module_dir(all, found@, 0) == module_dir(all, found@, i as int),
        decreases folders@.len() - i,
    {
        if i < found.len() && found[i] {
            assert(all[i as int] == folders@[i as int]@);
            return folders[i].clone();
        }
        i += 1;
    }
    if folders.len() > 0 {
        assert(all[0] == folders@[0]@);
        folders[0].clone()
    } else {
        workspace.to_owned()
    }
}

proof fn lemma_module_from(folders: Seq<Seq<char>>, found: Seq<bool>, from: int, i: int)
    requires
        0 <= from <= i < folders.len(),
        module_at(found, i),
        forall|j: int| from <= j < i ==> !(#[trigger] module_at(found, j)),
    ensures
        module_dir(folders, found, from) == Some(folders[i]),
    decreases i - from,
{
    if from < i {
        assert(!module_at(found, from));
        lemma_module_from(folders, found, from + 1, i);
    }
}

/// A Go program is launched from the nearest folder that a module starts in, where there is one.
pub proof fn law_nearest_module(
    folders: Seq<Seq<char>>,
    found: Seq<bool>,
    workspace: Seq<char>,
    i: int,
)
    requires
        0 <= i < folders.len(),
        module_at(found, i),
        forall|j: int| 0 <= j < i ==> !(#[trigger] module_at(found, j)),
    ensures
        go_launch_dir(folders, found, workspace) == folders[i],
{
    lemma_module_from(folders, found, 0, i);
}

proof fn lemma_no_module_from(folders: Seq<Seq<char>>, found: Seq<bool>, from: int)
    requires
        0 <= from,
        forall|j: int| from <= j < folders.len() ==> !(#[trigger] module_at(found, j)),
    ensures
        module_dir(folders, found, from) is None,
    decreases folders.len() - from,
{
    if from < folders.len() {
        assert(!module_at(found, from));
        lemma_no_module_from(folders, found, from + 1);
    }
}

/// Without any module, a Go program is launched from the folder of its file, and from the workspace
/// where it has none.
pub proof fn law_no_module(
    file: Option<Seq<char>>,
    found: Seq<bool>,
    workspace: Seq<char>,
    style: PathStyle,
)
    requires
        forall|j: int|
            0 <= j < launch_folders(file, workspace, style).len() ==> !(#[trigger] module_at(
                found,
                j,
            )),
    ensures
        go_launch_dir(launch_folders(file, workspace, style), found, workspace) == match file {
            Some(path) if folders_above(path, style).len() > 0 => folders_above(path, style)[0],
            _ => workspace,
        },
{
    lemma_no_module_from(launch_folders(file, workspace, style), found, 0);
}

// ---------------------------------------------------------------------------------------------
// Debug adapters
// ---------------------------------------------------------------------------------------------
/// The resolved path where it was found, else the path as it was given.
pub open spec fn resolved_or(resolved: Option<String>, given: Seq<char>) -> Seq<char> {
    match resolved {
        Some(path) => path@,
        None => given,
    }
}

pub(crate) fn copy_resolved_or(resolved: &Option<String>, given: &String) -> (path: String)
    ensures
        path@ == resolved_or(*resolved, given@),
{
    match resolved {
        Some(path) => path.clone(),
        None => given.clone(),
    }
}

/// A real path as debug adapters are told it: without the start that says to take it verbatim, which
/// some do not understand.
pub open spec fn source_path_of_real(resolved: Seq<char>, style: PathStyle) -> Seq<char> {
    if style == PathStyle::Windows && is_verbatim_start(resolved) {
        resolved.skip(4)
    } else {
        resolved
    }
}

/// A real path as debug adapters are told it.
pub fn dap_source_path_string(resolved: &str, style: PathStyle) -> (path: String)
    ensures
        path@ == source_path_of_real(resolved@, style),
{
    let chars = chars_of(resolved);
    if style == PathStyle::Windows && chars.len() >= 4 && chars[0] == '\\' && chars[1] == '\\'
        && chars[2] == '?' && chars[3] == '\\' {
        let path = text_between(&chars, 4, chars.len());
        assert(path@ =~= resolved@.skip(4));
        path
    } else {
        resolved.to_owned()
    }
}

} // verus!
