use den::breakpoints::{Breakpoints, FileBreakpoints};
use den::components::{
    components_of, list_folders_above, path_is_absolute, same_parts, split_path, starts_with,
    PathPart, PathStyle, Prefix, PrefixKind,
};
use den::paths::{
    extension_text, folder_text, join_path, list_launch_folders, resolve_go_launch_dir,
    resolve_workspace_target, stem_text, SelectedEntry, TargetPaths,
};
use den::surroundings::OpenFile;
use den::sync::{next_sync_step, SyncStep};
use serde_json::Value;
use std::path::{Component, Path};

const UNIX: PathStyle = PathStyle::Unix;
const WINDOWS: PathStyle = PathStyle::Windows;

fn text(s: &str) -> String {
    String::from(s)
}

fn normal(name: &str) -> PathPart {
    PathPart::Normal(text(name))
}

fn prefix(kind: PrefixKind, name: &str, share: &str) -> PathPart {
    PathPart::Prefix(Prefix { kind, name: text(name), share: text(share) })
}

const TEXTS: [&str; 26] = [
    "", ".", "..", "/", "//", "/.", "/..", "a", "a/", "a//", "./a", "a/.", "a/./b", "a/../b",
    "../a", "/a", "//a", "/a/b", "/a//b/", "a b/c.d", ".hidden", "a.tar.gz", "x/.rc.toml", "a..",
    "...", "C:\\a/b",
];

#[test]
fn unix_paths_split_as_the_system_splits_them() {
    for s in TEXTS {
        let expected: Vec<PathPart> = Path::new(s)
            .components()
            .map(|part| match part {
                Component::RootDir => PathPart::RootDir,
                Component::CurDir => PathPart::CurDir,
                Component::ParentDir => PathPart::ParentDir,
                Component::Normal(name) => normal(name.to_str().unwrap()),
                Component::Prefix(_) => panic!("{s}"),
            })
            .collect();
        assert_eq!(components_of(s, UNIX), expected, "{s}");
        assert_eq!(path_is_absolute(s, UNIX), Path::new(s).is_absolute(), "{s}");
    }
}

#[test]
fn unix_folders_extensions_and_stems_are_those_of_the_system() {
    for s in TEXTS {
        let above: Vec<String> =
            Path::new(s).ancestors().skip(1).map(|dir| text(dir.to_str().unwrap())).collect();
        assert_eq!(list_folders_above(s, UNIX), above, "{s}");
        let folder = Path::new(s).parent().map_or(".", |dir| dir.to_str().unwrap());
        assert_eq!(folder_text(s, UNIX), folder, "{s}");
        let extension = Path::new(s).extension().map(|name| text(name.to_str().unwrap()));
        assert_eq!(extension_text(s, UNIX), extension, "{s}");
        let stem = Path::new(s).file_stem().map(|name| text(name.to_str().unwrap()));
        assert_eq!(stem_text(s, UNIX), stem, "{s}");
    }
}

#[test]
fn unix_paths_join_as_the_system_joins_them() {
    for a in TEXTS {
        for b in TEXTS {
            let whole = Path::new(a).join(b);
            assert_eq!(join_path(a, b, UNIX), whole.to_str().unwrap(), "{a} {b}");
            let inside = starts_with(&components_of(a, UNIX), &components_of(b, UNIX));
            assert_eq!(inside, Path::new(a).starts_with(b), "{a} {b}");
            let same = same_parts(&components_of(a, UNIX), &components_of(b, UNIX));
            assert_eq!(same, Path::new(a) == Path::new(b), "{a} {b}");
        }
    }
}

#[test]
fn components_end_where_they_are_written() {
    let ends: Vec<usize> = split_path("/a//b/", UNIX).iter().map(|placed| placed.end).collect();
    assert_eq!(ends, vec![1, 2, 5]);
}

#[test]
fn windows_paths_have_prefixes() {
    assert_eq!(
        components_of("c:\\a/b", WINDOWS),
        vec![prefix(PrefixKind::Disk, "C", ""), PathPart::RootDir, normal("a"), normal("b")]
    );
    assert_eq!(
        components_of("C:a", WINDOWS),
        vec![prefix(PrefixKind::Disk, "C", ""), normal("a")]
    );
    assert_eq!(
        components_of("\\\\server\\share\\a", WINDOWS),
        vec![prefix(PrefixKind::Unc, "server", "share"), PathPart::RootDir, normal("a")]
    );
    assert_eq!(
        components_of("\\\\?\\C:\\a/b\\.", WINDOWS),
        vec![
            prefix(PrefixKind::VerbatimDisk, "C", ""),
            PathPart::RootDir,
            normal("a/b"),
            PathPart::CurDir,
        ]
    );
    assert_eq!(
        components_of("\\\\?\\UNC\\server\\share\\a", WINDOWS),
        vec![prefix(PrefixKind::VerbatimUnc, "server", "share"), PathPart::RootDir, normal("a")]
    );
    assert_eq!(
        components_of("\\\\.\\COM42\\a", WINDOWS),
        vec![prefix(PrefixKind::Device, "COM42", ""), PathPart::RootDir, normal("a")]
    );
    assert_eq!(
        components_of("\\\\?\\pictures\\a", WINDOWS),
        vec![prefix(PrefixKind::Verbatim, "pictures", ""), PathPart::RootDir, normal("a")]
    );
    assert!(path_is_absolute("C:\\a", WINDOWS));
    assert!(!path_is_absolute("C:a", WINDOWS) && !path_is_absolute("\\a", WINDOWS));
    assert!(path_is_absolute("\\\\server\\share", WINDOWS));
}

#[test]
fn a_dot_behind_a_drive_stays_with_it() {
    let above = |path: &str| list_folders_above(path, WINDOWS);
    assert_eq!(above("C:./a"), vec!["C:."]);
    assert_eq!(above("C:.\\a\\b"), vec!["C:.\\a", "C:."]);
    assert_eq!(above("C:.\\.\\a"), vec!["C:."]);
    assert_eq!(above("C:.a\\b"), vec!["C:.a", "C:"]);
    assert_eq!(above("C:a"), vec!["C:"]);
    assert_eq!(above("C:\\.\\a"), vec!["C:\\"]);
    assert!(above("C:.").is_empty() && above("C:.\\").is_empty());
    assert_eq!(folder_text("C:./a", WINDOWS), "C:.");
    assert_eq!(components_of("C:./a", WINDOWS), components_of("c:a", WINDOWS));
}

#[test]
fn windows_paths_join() {
    let join = |a: &str, b: &str| join_path(a, b, WINDOWS);
    assert_eq!(join("C:\\work", "target"), "C:\\work\\target");
    assert_eq!(join("C:\\work\\", "target"), "C:\\work\\target");
    assert_eq!(join("C:/work/", "target"), "C:/work/target");
    assert_eq!(join("C:", "target"), "C:target");
    assert_eq!(join("C:a", "b"), "C:a\\b");
    assert_eq!(join("C:\\work", "\\x"), "C:\\x");
    assert_eq!(join("C:\\work", "D:x"), "D:x");
    assert_eq!(join("C:\\work", "D:\\x"), "D:\\x");
    assert_eq!(join("", "x"), "x");
    assert_eq!(join("work", ""), "work\\");
    assert_eq!(join("\\\\?\\C:\\work", "a/../b"), "\\\\?\\C:\\work\\b");
    assert_eq!(join("\\\\?\\C:\\work", "./a"), "\\\\?\\C:\\work\\a");
    assert_eq!(join("\\\\?\\C:\\work", "\\x"), "\\\\?\\C:\\x");
}

#[test]
fn a_name_is_typed_in_either_style() {
    let windows = |name: &str| {
        let root = || Ok(text("\\\\?\\C:\\work"));
        let paths = TargetPaths {
            selected: Some(SelectedEntry { is_dir: true, entry: root(), parent: None }),
            root: root(),
        };
        resolve_workspace_target(name, &paths, WINDOWS)
    };
    let outside = || Err(text("Invalid path: outside workspace"));
    assert_eq!(windows("a\\b/c.rs"), Ok(text("\\\\?\\C:\\work\\a\\b\\c.rs")));
    assert_eq!(windows("C:\\x"), Err(text("Invalid path: absolute paths are not allowed")));
    assert_eq!(windows("C:x"), outside());
    assert_eq!(windows("\\x"), outside());
    assert_eq!(windows("a\\..\\x"), outside());
    assert_eq!(windows("a\\C:\\x"), outside());
    assert_eq!(windows(".\\"), Err(text("Invalid path: name is empty")));
    let unix = |name: &str| {
        resolve_workspace_target(
            name,
            &TargetPaths { selected: None, root: Ok(text("/work")) },
            UNIX,
        )
    };
    assert_eq!(unix("a\\b/c.rs"), Ok(text("/work/a\\b/c.rs")));
    assert_eq!(unix("C:x"), Ok(text("/work/C:x")));
    let odd = TargetPaths { selected: None, root: Ok(text("/w\0\u{e9}k")) };
    assert_eq!(resolve_workspace_target("b", &odd, UNIX), Ok(text("/w\0\u{e9}k/b")));
}

#[test]
fn a_program_may_be_launched_from_the_folders_above_its_file() {
    let file = |path: &str| Some(OpenFile::new(text(path), path, UNIX));
    let folders = |path: &str| list_launch_folders(&file(path), "/work", UNIX);
    assert_eq!(folders("/work/m/a.go"), vec!["/work/m", "/work", "/"]);
    assert_eq!(folders("a.go"), vec![""]);
    assert_eq!(folders("m//x/a.go"), vec!["m//x", "m", ""]);
    assert_eq!(folders(""), vec!["/work", "/"]);
    assert!(list_launch_folders(&None, "/work", UNIX).is_empty());
    let dir = |path: &str, found: Vec<bool>| {
        resolve_go_launch_dir(&file(path), "/work", UNIX, &found)
    };
    assert_eq!(dir("/work/m/a.go", vec![false, true, true]), "/work");
    assert_eq!(dir("/work/m/a.go", vec![false, false, false]), "/work/m");
    assert_eq!(dir("", vec![false, true]), "/");
    assert_eq!(resolve_go_launch_dir(&None, "/work", UNIX, &vec![]), "/work");
}

#[test]
fn an_open_file_is_known_by_its_path() {
    let file = OpenFile::new(text("src/a.b.rs"), "/real/src/a.b.rs", UNIX);
    assert_eq!(file.path, "src/a.b.rs");
    assert_eq!(file.source_path, "/real/src/a.b.rs");
    assert_eq!(file.extension, Some(text("rs")));
    assert_eq!(file.stem, Some(text("a.b")));
    let bare = OpenFile::new(text("C:\\x\\Makefile"), "\\\\?\\C:\\x\\Makefile", WINDOWS);
    assert_eq!(bare.source_path, "C:\\x\\Makefile");
    assert_eq!((bare.extension, bare.stem), (None, Some(text("Makefile"))));
}

#[test]
fn one_file_has_one_set_of_breakpoints_however_its_path_is_written() {
    let mut all = Breakpoints::new();
    all.toggle("a/b.rs", UNIX, 3);
    all.toggle("a//b.rs", UNIX, 1);
    assert_eq!(all.lines("a/./b.rs", UNIX), vec![1, 3]);
    assert!(all.lines("a/B.rs", UNIX).is_empty());
    assert_eq!(
        all.copy_files(),
        vec![FileBreakpoints {
            path: text("a/b.rs"),
            parts: vec![normal("a"), normal("b.rs")],
            lines: vec![1, 3],
        }]
    );
    all.toggle("a/b.rs/", UNIX, 3);
    all.toggle("a/b.rs", UNIX, 1);
    let emptied = all.copy_files();
    assert!(emptied.len() == 1 && emptied[0].lines.is_empty());
    all.toggle("C:\\a.rs", WINDOWS, 7);
    assert_eq!(all.lines("c:/a.rs", WINDOWS), vec![7]);
}

fn breakpoints(path: &str, lines: Vec<i64>) -> FileBreakpoints {
    FileBreakpoints { path: text(path), parts: components_of(path, UNIX), lines }
}

fn request(path: &str, lines: &str) -> SyncStep {
    let json = format!("{{\"source\": {{\"path\": \"{path}\"}}, \"breakpoints\": {lines}}}");
    let arguments: Value = serde_json::from_str(&json).unwrap();
    SyncStep::Send(arguments)
}

#[test]
fn each_file_has_one_request() {
    let files = vec![breakpoints("/a.py", vec![1, 2]), breakpoints("/b.py", vec![])];
    let real = vec![Some(text("/real/a.py")), None];
    let mut sent = Vec::new();
    let mut outcomes = Vec::new();
    loop {
        match next_sync_step(&files, &real, UNIX, &outcomes) {
            SyncStep::Done => break,
            step => sent.push(step),
        }
        outcomes.push(Ok(()));
    }
    assert_eq!(
        sent,
        vec![request("/real/a.py", "[{\"line\": 1}, {\"line\": 2}]"), request("/b.py", "[]")]
    );
    assert_eq!(next_sync_step(&vec![], &vec![], UNIX, &vec![]), SyncStep::Done);
}

#[test]
fn a_request_that_cannot_be_sent_is_the_last() {
    let files = vec![breakpoints("/a", vec![1]), breakpoints("/b", vec![2]), breakpoints("/c", vec![3])];
    let real = vec![None, None, None];
    let failed = || SyncStep::Failed(text("closed"));
    let closed = || Err(text("closed"));
    assert_eq!(
        next_sync_step(&files, &real, UNIX, &vec![Ok(())]),
        request("/b", "[{\"line\": 2}]")
    );
    assert_eq!(next_sync_step(&files, &real, UNIX, &vec![Ok(()), closed()]), failed());
    assert_eq!(next_sync_step(&files, &real, UNIX, &vec![Ok(()), Ok(()), closed()]), failed());
}
