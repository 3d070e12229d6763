//! The breakpoints that the user has set, file by file.
use crate::components::{
    PathPart, PathPartModel, PathStyle, components, components_of, copy_parts, part_models,
    same_parts,
};
use vstd::prelude::*;

verus! {

/// The breakpoints of one file.
#[derive(Debug, PartialEq)]
pub struct FileBreakpoints {
    /// The path of the file, as it was first given.
    pub path: String,
    /// The components of the path, by which files are told apart.
    pub parts: Vec<PathPart>,
    pub lines: Vec<i64>,
}

/// The breakpoints of all files. No file is listed twice, and the lines of each ascend.
pub struct Breakpoints {
    files: Vec<FileBreakpoints>,
}

pub struct FileBreakpointsModel {
    pub path: Seq<char>,
    pub parts: Seq<PathPartModel>,
    pub lines: Seq<i64>,
}

impl View for FileBreakpoints {
    type V = FileBreakpointsModel;

    open spec fn view(&self) -> FileBreakpointsModel {
        FileBreakpointsModel {
            path: self.path@,
            parts: part_models(self.parts@),
            lines: self.lines@,
        }
    }
}

pub open spec fn file_models(files: Seq<FileBreakpoints>) -> Seq<FileBreakpointsModel> {
    files.map_values(|file: FileBreakpoints| file@)
}

impl View for Breakpoints {
    type V = Seq<FileBreakpointsModel>;

    closed spec fn view(&self) -> Seq<FileBreakpointsModel> {
        file_models(self.files@)
    }
}

/// Whether each line is smaller than the next.
pub open spec fn ascending(lines: Seq<i64>) -> bool {
    forall|i: int, j: int| 0 <= i < j < lines.len() ==> lines[i] < lines[j]
}

/// The place of a line among ascending lines: behind all that are smaller.
pub open spec fn place_of(lines: Seq<i64>, line: i64) -> int
    decreases lines.len(),
{
    if lines.len() == 0 || lines[0] >= line {
        0
    } else {
        1 + place_of(lines.skip(1), line)
    }
}

/// Ascending lines without a line that was among them, or with one that was not, at its place.
pub open spec fn toggled(lines: Seq<i64>, line: i64) -> Seq<i64> {
    if lines.contains(line) {
        lines.remove(place_of(lines, line))
    } else {
        lines.insert(place_of(lines, line), line)
    }
}

/// The place of a file in the list, by the components of its path. It is the end of the list where
/// the file is not listed.
pub open spec fn file_place(files: Seq<FileBreakpointsModel>, key: Seq<PathPartModel>) -> int
    decreases files.len(),
{
    if files.len() == 0 || files[0].parts == key {
        0
    } else {
        1 + file_place(files.skip(1), key)
    }
}

/// The breakpoints of a file.
pub open spec fn lines_in(files: Seq<FileBreakpointsModel>, key: Seq<PathPartModel>) -> Seq<i64> {
    if file_place(files, key) < files.len() {
        files[file_place(files, key)].lines
    } else {
        Seq::empty()
    }
}

/// The list after the breakpoint at a line of a file was set or removed.
pub open spec fn toggled_in(
    files: Seq<FileBreakpointsModel>,
    path: Seq<char>,
    key: Seq<PathPartModel>,
    line: i64,
) -> Seq<FileBreakpointsModel> {
    let place = file_place(files, key);
    let lines = toggled(lines_in(files, key), line);
    if place < files.len() {
        files.update(place, FileBreakpointsModel { lines, ..files[place] })
    } else {
        files.push(FileBreakpointsModel { path, parts: key, lines })
    }
}

/// No file is listed twice, and the lines of each ascend.
pub open spec fn breakpoints_wf(files: Seq<FileBreakpointsModel>) -> bool {
    &&& forall|i: int, j: int|
        0 <= i < j < files.len() ==> (#[trigger] files[i]).parts != (#[trigger] files[j]).parts
    &&& forall|i: int| 0 <= i < files.len() ==> ascending((#[trigger] files[i]).lines)
}

// ---------------------------------------------------------------------------------------------
// Places
// ---------------------------------------------------------------------------------------------
pub proof fn lemma_place_of(lines: Seq<i64>, line: i64)
    requires
        ascending(lines),
    ensures
        0 <= place_of(lines, line) <= lines.len(),
        forall|i: int| 0 <= i < place_of(lines, line) ==> lines[i] < line,
        forall|i: int| place_of(lines, line) <= i < lines.len() ==> lines[i] >= line,
        lines.contains(line) == (place_of(lines, line) < lines.len() && lines[place_of(
            lines,
            line,
        )] == line),
    decreases lines.len(),
{
    if lines.len() > 0 && lines[0] < line {
        let rest = lines.skip(1);
        lemma_place_of(rest, line);
        assert forall|i: int| 0 <= i < place_of(lines, line) implies lines[i] < line by {
            if i > 0 {
                assert(rest[i - 1] == lines[i]);
            }
        }
        assert forall|i: int| place_of(lines, line) <= i < lines.len() implies lines[i] >= line by {
            assert(rest[i - 1] == lines[i]);
        }
    }
    if lines.contains(line) {
        let k = choose|k: int| 0 <= k < lines.len() && lines[k] == line;
        assert(lines[k] == line);
        assert(place_of(lines, line) <= k);
    }
}

pub proof fn lemma_file_place(files: Seq<FileBreakpointsModel>, key: Seq<PathPartModel>)
    ensures
        0 <= file_place(files, key) <= files.len(),
        forall|i: int| 0 <= i < file_place(files, key) ==> (#[trigger] files[i]).parts != key,
        file_place(files, key) < files.len() ==> files[file_place(files, key)].parts == key,
    decreases files.len(),
{
    if files.len() > 0 && files[0].parts != key {
        let rest = files.skip(1);
        lemma_file_place(rest, key);
        assert forall|i: int| 0 <= i < file_place(files, key) implies (
        #[trigger] files[i]).parts != key by {
            if i > 0 {
                assert(rest[i - 1] == files[i]);
            }
        }
    }
}

/// A place is fixed by what stands before it and at it.
proof fn lemma_file_place_unique(files: Seq<FileBreakpointsModel>, key: Seq<PathPartModel>, place: int)
    requires
        0 <= place <= files.len(),
        forall|i: int| 0 <= i < place ==> (#[trigger] files[i]).parts != key,
        place < files.len() ==> files[place].parts == key,
    ensures
        file_place(files, key) == place,
{
    lemma_file_place(files, key);
    let found = file_place(files, key);
    if found < place {
        assert(files[found].parts == key);
    } else if place < found {
        assert(files[place].parts != key);
    }
}

proof fn lemma_place_unique(lines: Seq<i64>, line: i64, place: int)
    requires
        ascending(lines),
        0 <= place <= lines.len(),
        forall|i: int| 0 <= i < place ==> lines[i] < line,
        place < lines.len() ==> lines[place] >= line,
    ensures
        place_of(lines, line) == place,
{
    lemma_place_of(lines, line);
}

// ---------------------------------------------------------------------------------------------
// Laws
// ---------------------------------------------------------------------------------------------
/// Toggling a line keeps the lines ascending, changes whether that line is among them, and leaves
/// every other line as it was.
pub proof fn law_toggle_changes_one_line(lines: Seq<i64>, line: i64)
    requires
        ascending(lines),
    ensures
        ascending(toggled(lines, line)),
        toggled(lines, line).contains(line) == !lines.contains(line),
        forall|other: i64|
            other != line ==> (toggled(lines, line).contains(other) == lines.contains(other)),
{
    lemma_place_of(lines, line);
    let place = place_of(lines, line);
    let after = toggled(lines, line);
    if lines.contains(line) {
        assert forall|i: int, j: int| 0 <= i < j < after.len() implies after[i] < after[j] by {}
        assert forall|other: i64| other != line implies (after.contains(other) == lines.contains(
            other,
        )) by {
            if lines.contains(other) {
                let k = choose|k: int| 0 <= k < lines.len() && lines[k] == other;
                if k < place {
                    assert(after[k] == other);
                } else {
                    assert(after[k - 1] == other);
                }
            }
            if after.contains(other) {
                let k = choose|k: int| 0 <= k < after.len() && after[k] == other;
                if k < place {
                    assert(lines[k] == other);
                } else {
                    assert(lines[k + 1] == other);
                }
            }
        }
        if after.contains(line) {
            let k = choose|k: int| 0 <= k < after.len() && after[k] == line;
            if k < place {
                assert(lines[k] == line);
            } else {
                assert(lines[k + 1] == line);
                assert(lines[place] < lines[k + 1]);
            }
        }
    } else {
        assert forall|i: int, j: int| 0 <= i < j < after.len() implies after[i] < after[j] by {
            if place < lines.len() {
                assert(lines[place] != line);
            }
            if i == place {
                assert(after[j] == lines[j - 1]);
                assert(lines[j - 1] >= line);
                if lines[j - 1] == line {
                    assert(lines.contains(line));
                }
            }
        }
        assert(after[place] == line);
        assert forall|other: i64| other != line implies (after.contains(other) == lines.contains(
            other,
        )) by {
            if lines.contains(other) {
                let k = choose|k: int| 0 <= k < lines.len() && lines[k] == other;
                if k < place {
                    assert(after[k] == other);
                } else {
                    assert(after[k + 1] == other);
                }
            }
            if after.contains(other) {
                let k = choose|k: int| 0 <= k < after.len() && after[k] == other;
                if k < place {
                    assert(lines[k] == other);
                } else {
                    assert(lines[k - 1] == other);
                }
            }
        }
    }
}

/// Toggling a line twice gives back the lines.
pub proof fn law_toggle_twice(lines: Seq<i64>, line: i64)
    requires
        ascending(lines),
    ensures
        toggled(toggled(lines, line), line) == lines,
{
    lemma_place_of(lines, line);
    law_toggle_changes_one_line(lines, line);
    let place = place_of(lines, line);
    let after = toggled(lines, line);
    if lines.contains(line) {
        assert forall|i: int| 0 <= i < place implies after[i] < line by {
            assert(after[i] == lines[i]);
        }
        if place < after.len() {
            assert(after[place] == lines[place + 1]);
            assert(lines[place] < lines[place + 1]);
        }
    } else {
        assert forall|i: int| 0 <= i < place implies after[i] < line by {
            assert(after[i] == lines[i]);
        }
    }
    lemma_place_unique(after, line, place);
    assert(toggled(after, line) =~= lines);
}

/// Setting or removing a breakpoint keeps the list well formed, changes the lines of its file only,
/// and those as `toggled` says.
pub proof fn law_toggle_changes_one_file(
    files: Seq<FileBreakpointsModel>,
    path: Seq<char>,
    key: Seq<PathPartModel>,
    line: i64,
)
    requires
        breakpoints_wf(files),
    ensures
        breakpoints_wf(toggled_in(files, path, key, line)),
        lines_in(toggled_in(files, path, key, line), key) == toggled(lines_in(files, key), line),
        forall|other: Seq<PathPartModel>|
            other != key ==> lines_in(toggled_in(files, path, key, line), other) == lines_in(
                files,
                other,
            ),
{
    lemma_file_place(files, key);
    let place = file_place(files, key);
    let after = toggled_in(files, path, key, line);
    assert(ascending(lines_in(files, key)));
    law_toggle_changes_one_line(lines_in(files, key), line);
    assert(after[place].parts == key);
    assert forall|i: int| 0 <= i < files.len() && i != place implies after[i] == files[i] by {}
    assert forall|i: int, j: int| 0 <= i < j < after.len() implies (#[trigger] after[i]).parts != (
    #[trigger] after[j]).parts by {
        if i == place {
            assert(files[j].parts != files[i].parts);
        } else if j == place {
            assert(files[i].parts != key);
        } else {
            assert(files[i].parts != files[j].parts);
        }
    }
    lemma_file_place_unique(after, key, place);
    assert forall|other: Seq<PathPartModel>| other != key implies lines_in(after, other) == lines_in(
        files,
        other,
    ) by {
        lemma_file_place(files, other);
        let found = file_place(files, other);
        if found < files.len() {
            lemma_file_place_unique(after, other, found);
        } else {
            lemma_file_place_unique(after, other, after.len() as int);
        }
    }
}

// ---------------------------------------------------------------------------------------------
// The list
// ---------------------------------------------------------------------------------------------
impl Breakpoints {
    /// No breakpoints.
    pub fn new() -> (breakpoints: Breakpoints)
        ensures
            breakpoints@.len() == 0,
            breakpoints_wf(breakpoints@),
    {
        Breakpoints { files: Vec::new() }
    }

    fn find(&self, key: &Vec<PathPart>) -> (place: usize)
        ensures
            place == file_place(self@, part_models(key@)),
            place <= self@.len(),
    {
        let mut i: usize = 0;
        while i < self.files.len()
            invariant
                i <= self.files@.len(),
                forall|k: int| 0 <= k < i ==> (#[trigger] self@[k]).parts != part_models(key@),
            decreases self.files.len() - i,
        {
            assert(self@[i as int] == self.files@[i as int]@);
            if same_parts(&self.files[i].parts, key) {
                assert(self@[i as int].parts == part_models(key@));
                proof {
                    lemma_file_place_unique(self@, part_models(key@), i as int);
                }
                return i;
            }
            i += 1;
        }
        proof {
            lemma_file_place_unique(self@, part_models(key@), i as int);
        }
        i
    }

    /// The breakpoints of a file.
    pub fn lines(&self, path: &str, style: PathStyle) -> (lines: Vec<i64>)
        ensures
            lines@ == lines_in(self@, components(path@, style)),
    {
        let place = self.find(&components_of(path, style));
        if place < self.files.len() {
            self.files[place].lines.clone()
        } else {
            Vec::new()
        }
    }

    /// Sets the breakpoint at a line of a file where there is none, and removes it where there is
    /// one. Returns whether it was set.
    pub fn toggle(&mut self, path: &str, style: PathStyle, line: i64) -> (added: bool)
        requires
            breakpoints_wf(old(self)@),
        ensures
            final(self)@ == toggled_in(old(self)@, path@, components(path@, style), line),
            added == !lines_in(old(self)@, components(path@, style)).contains(line),
            breakpoints_wf(final(self)@),
    {
        let key = components_of(path, style);
        let ghost parts = part_models(key@);
        proof {
            law_toggle_changes_one_file(self@, path@, parts, line);
            lemma_file_place(self@, parts);
        }
        let place = self.find(&key);
        if place == self.files.len() {
            let mut lines: Vec<i64> = Vec::new();
            lines.push(line);
            assert(lines@ =~= Seq::<i64>::empty().insert(0, line));
            let ghost before = self@;
            self.files.push(FileBreakpoints { path: path.to_owned(), parts: key, lines });
            assert(self@ =~= toggled_in(before, path@, parts, line));
            return true;
        }
        let ghost before = self@;
        let ghost lines = self.files@[place as int].lines@;
        assert(before[place as int].lines == lines);
        let mut at: usize = 0;
        while at < self.files[place].lines.len() && self.files[place].lines[at] < line
            invariant
                place < self.files@.len(),
                lines == self.files@[place as int].lines@,
                at <= lines.len(),
                forall|k: int| 0 <= k < at ==> lines[k] < line,
            decreases lines.len() - at,
        {
            at += 1;
        }
        proof {
            lemma_place_unique(lines, line, at as int);
            lemma_place_of(lines, line);
        }
        let present: bool = at < self.files[place].lines.len() && self.files[place].lines[at]
            == line;
        if present {
            self.files[place].lines.remove(at);
        } else {
            self.files[place].lines.insert(at, line);
        }
        assert(self@ =~= toggled_in(before, path@, parts, line));
        !present
    }

    /// A copy of the list.
    pub fn copy_files(&self) -> (files: Vec<FileBreakpoints>)
        ensures
            file_models(files@) == self@,
    {
        let mut files: Vec<FileBreakpoints> = Vec::new();
        let mut i: usize = 0;
        while i < self.files.len()
            invariant
                i <= self.files@.len(),
                files@.len() == i,
                forall|k: int| 0 <= k < i ==> (#[trigger] files@[k])@ == self.files@[k]@,
            decreases self.files.len() - i,
        {
            files.push(
                FileBreakpoints {
                    path: self.files[i].path.clone(),
                    parts: copy_parts(&self.files[i].parts),
                    lines: self.files[i].lines.clone(),
                },
            );
            assert(files@[i as int].lines@ =~= self.files@[i as int].lines@);
            i += 1;
        }
        assert(file_models(files@) =~= self@);
        files
    }
}

} // verus!
