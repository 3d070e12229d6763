//! Paths as lists of components, told apart as the standard library does on each system.
use crate::debug_state::texts_of;
use crate::text::{chars_of, same_text};
use vstd::prelude::*;

verus! {

/// How paths are written. On Windows both slashes separate components, and a path may begin with a
/// prefix.
#[derive(Clone, Copy, PartialEq, Eq, Structural, Debug)]
pub enum PathStyle {
    Unix,
    Windows,
}

/// The forms of a prefix.
#[derive(Clone, Copy, PartialEq, Eq, Structural, Debug)]
pub enum PrefixKind {
    /// `\\?\name`
    Verbatim,
    /// `\\?\UNC\server\share`
    VerbatimUnc,
    /// `\\?\C:`
    VerbatimDisk,
    /// `\\.\name`
    Device,
    /// `\\server\share`
    Unc,
    /// `C:`
    Disk,
}

/// A prefix: its form, its name, server or drive letter in upper case, and its share.
#[derive(Debug, PartialEq)]
pub struct Prefix {
    pub kind: PrefixKind,
    pub name: String,
    pub share: String,
}

/// A component of a path.
#[derive(Debug, PartialEq)]
pub enum PathPart {
    Prefix(Prefix),
    RootDir,
    CurDir,
    ParentDir,
    Normal(String),
}

/// A component, and the place in the text behind it.
pub struct PlacedPart {
    pub part: PathPart,
    pub end: usize,
}

pub struct PrefixModel {
    pub kind: PrefixKind,
    pub name: Seq<char>,
    pub share: Seq<char>,
}

pub enum PathPartModel {
    Prefix(PrefixModel),
    RootDir,
    CurDir,
    ParentDir,
    Normal(Seq<char>),
}

pub struct PlacedModel {
    pub part: PathPartModel,
    pub end: int,
}

impl View for Prefix {
    type V = PrefixModel;

    open spec fn view(&self) -> PrefixModel {
        PrefixModel { kind: self.kind, name: self.name@, share: self.share@ }
    }
}

impl View for PathPart {
    type V = PathPartModel;

    open spec fn view(&self) -> PathPartModel {
        match self {
            PathPart::Prefix(prefix) => PathPartModel::Prefix(prefix@),
            PathPart::RootDir => PathPartModel::RootDir,
            PathPart::CurDir => PathPartModel::CurDir,
            PathPart::ParentDir => PathPartModel::ParentDir,
            PathPart::Normal(text) => PathPartModel::Normal(text@),
        }
    }
}

impl View for PlacedPart {
    type V = PlacedModel;

    open spec fn view(&self) -> PlacedModel {
        PlacedModel { part: self.part@, end: self.end as int }
    }
}

pub open spec fn part_models(parts: Seq<PathPart>) -> Seq<PathPartModel> {
    parts.map_values(|part: PathPart| part@)
}

pub open spec fn placed_models(parts: Seq<PlacedPart>) -> Seq<PlacedModel> {
    parts.map_values(|part: PlacedPart| part@)
}

// ---------------------------------------------------------------------------------------------
// Separators
// ---------------------------------------------------------------------------------------------
impl PathStyle {
    /// The separator that is written between components.
    pub open spec fn separator(self) -> char {
        match self {
            PathStyle::Unix => '/',
            PathStyle::Windows => '\\',
        }
    }

    /// The separator that is written between components.
    pub fn main_separator(&self) -> (c: char)
        ensures
            c == self.separator(),
    {
        match self {
            PathStyle::Unix => '/',
            PathStyle::Windows => '\\',
        }
    }
}

/// Whether a character separates components.
pub open spec fn is_separator(c: char, style: PathStyle) -> bool {
    c == '/' || c == style.separator()
}

/// Whether a character separates components behind a prefix, which only the backslash does where
/// the prefix says that the path is to be taken verbatim.
pub open spec fn separates(c: char, style: PathStyle, verbatim: bool) -> bool {
    if verbatim {
        c == '\\'
    } else {
        is_separator(c, style)
    }
}

/// The next separator, or the end of the text.
pub open spec fn head_end(text: Seq<char>, from: int, style: PathStyle, verbatim: bool) -> int
    decreases text.len() - from,
{
    if from >= text.len() {
        text.len() as int
    } else if separates(text[from], style, verbatim) {
        from
    } else {
        head_end(text, from + 1, style, verbatim)
    }
}

pub proof fn lemma_head_end(text: Seq<char>, from: int, style: PathStyle, verbatim: bool)
    requires
        0 <= from <= text.len(),
    ensures
        from <= head_end(text, from, style, verbatim) <= text.len(),
        forall|i: int|
            from <= i < head_end(text, from, style, verbatim) ==> !separates(
                #[trigger] text[i],
                style,
                verbatim,
            ),
    decreases text.len() - from,
{
    if from < text.len() && !separates(text[from], style, verbatim) {
        lemma_head_end(text, from + 1, style, verbatim);
    }
}

/// The text up to the next separator.
pub open spec fn head(text: Seq<char>, from: int, style: PathStyle, verbatim: bool) -> Seq<char> {
    text.subrange(from, head_end(text, from, style, verbatim))
}

/// The place behind the next separator, or the end of the text.
pub open spec fn tail_start(text: Seq<char>, from: int, style: PathStyle, verbatim: bool) -> int {
    let end = head_end(text, from, style, verbatim);
    if end < text.len() {
        end + 1
    } else {
        end
    }
}

// ---------------------------------------------------------------------------------------------
// Prefixes
// ---------------------------------------------------------------------------------------------
pub open spec fn is_letter(c: char) -> bool {
    'a' <= c <= 'z' || 'A' <= c <= 'Z'
}

pub open spec fn upper(c: char) -> char {
    if 'a' <= c <= 'z' {
        ((c as int) - 32) as char
    } else {
        c
    }
}

/// Whether a drive stands at a place: a letter and a colon.
pub open spec fn drive_at(text: Seq<char>, from: int) -> bool {
    from + 2 <= text.len() && is_letter(text[from]) && text[from + 1] == ':'
}

/// Whether a separator stands at a place.
pub open spec fn separator_at(text: Seq<char>, from: int) -> bool {
    from < text.len() && (text[from] == '/' || text[from] == '\\')
}

pub open spec fn drive_prefix(kind: PrefixKind, letter: char) -> PrefixModel {
    PrefixModel { kind, name: seq![upper(letter)], share: Seq::empty() }
}

pub open spec fn name_prefix(kind: PrefixKind, name: Seq<char>) -> PrefixModel {
    PrefixModel { kind, name, share: Seq::empty() }
}

/// A server and a share, from a place on.
pub open spec fn share_prefix(
    kind: PrefixKind,
    text: Seq<char>,
    from: int,
    verbatim: bool,
) -> PrefixModel {
    let next = tail_start(text, from, PathStyle::Windows, verbatim);
    PrefixModel {
        kind,
        name: head(text, from, PathStyle::Windows, verbatim),
        share: head(text, next, PathStyle::Windows, verbatim),
    }
}

/// Whether a text begins with two backslashes, a question mark and a backslash.
pub open spec fn is_verbatim_start(text: Seq<char>) -> bool {
    text.len() >= 4 && text[0] == '\\' && text[1] == '\\' && text[2] == '?' && text[3] == '\\'
}

/// The prefix of a text that begins so.
pub open spec fn verbatim_prefix(text: Seq<char>) -> PrefixModel {
    if text.len() >= 8 && text[4] == 'U' && text[5] == 'N' && text[6] == 'C' && separator_at(
        text,
        7,
    ) {
        share_prefix(PrefixKind::VerbatimUnc, text, 8, true)
    } else if drive_at(text, 4) && (text.len() == 6 || separator_at(text, 6)) {
        drive_prefix(PrefixKind::VerbatimDisk, text[4])
    } else {
        name_prefix(PrefixKind::Verbatim, head(text, 4, PathStyle::Windows, true))
    }
}

/// The prefix of a path.
pub open spec fn prefix_of(text: Seq<char>, style: PathStyle) -> Option<PrefixModel> {
    if style == PathStyle::Unix {
        None
    } else if separator_at(text, 0) && separator_at(text, 1) {
        if is_verbatim_start(text) {
            Some(verbatim_prefix(text))
        } else if text.len() >= 4 && text[2] == '.' && separator_at(text, 3) {
            Some(name_prefix(PrefixKind::Device, head(text, 4, style, false)))
        } else {
            let found = share_prefix(PrefixKind::Unc, text, 2, false);
            if found.name.len() > 0 && found.share.len() > 0 {
                Some(found)
            } else {
                None
            }
        }
    } else if drive_at(text, 0) {
        Some(drive_prefix(PrefixKind::Disk, text[0]))
    } else {
        None
    }
}

impl PrefixKind {
    /// Whether what follows is taken verbatim.
    pub open spec fn is_verbatim(self) -> bool {
        self is Verbatim || self is VerbatimUnc || self is VerbatimDisk
    }

    pub(crate) fn takes_verbatim(&self) -> (is: bool)
        ensures
            is == self.is_verbatim(),
    {
        match self {
            PrefixKind::Verbatim | PrefixKind::VerbatimUnc | PrefixKind::VerbatimDisk => true,
            _ => false,
        }
    }
}

impl PrefixModel {
    /// How many characters a prefix is made of.
    pub open spec fn len(self) -> nat {
        let share = if self.share.len() > 0 {
            1 + self.share.len()
        } else {
            0
        };
        match self.kind {
            PrefixKind::Verbatim | PrefixKind::Device => 4 + self.name.len(),
            PrefixKind::VerbatimUnc => 8 + self.name.len() + share,
            PrefixKind::VerbatimDisk => 6,
            PrefixKind::Unc => 2 + self.name.len() + share,
            PrefixKind::Disk => 2,
        }
    }
}

pub open spec fn prefix_len(prefix: Option<PrefixModel>) -> int {
    match prefix {
        Some(found) => found.len() as int,
        None => 0,
    }
}

pub open spec fn is_verbatim(prefix: Option<PrefixModel>) -> bool {
    prefix matches Some(found) && found.kind.is_verbatim()
}

/// Whether a separator stands behind the prefix of a path.
pub open spec fn root_written(text: Seq<char>, style: PathStyle) -> bool {
    let start = prefix_len(prefix_of(text, style));
    start < text.len() && is_separator(text[start], style)
}

/// Whether a path starts from a root. Every prefix but that of a drive stands for one.
pub open spec fn has_root(text: Seq<char>, style: PathStyle) -> bool {
    root_written(text, style) || (prefix_of(text, style) matches Some(found) && !(
    found.kind is Disk))
}

/// Whether a path names the same place from everywhere. On Windows it takes a prefix, too.
pub open spec fn is_absolute(text: Seq<char>, style: PathStyle) -> bool {
    has_root(text, style) && (style == PathStyle::Unix || prefix_of(text, style) is Some)
}

// ---------------------------------------------------------------------------------------------
// Components
// ---------------------------------------------------------------------------------------------
/// What stands between two separators. Nothing is no component, and a single dot is one only in a
/// path that is taken verbatim.
pub open spec fn single_part(text: Seq<char>, verbatim: bool) -> Option<PathPartModel> {
    if text.len() == 0 {
        None
    } else if text == seq!['.'] {
        if verbatim {
            Some(PathPartModel::CurDir)
        } else {
            None
        }
    } else if text == seq!['.', '.'] {
        Some(PathPartModel::ParentDir)
    } else {
        Some(PathPartModel::Normal(text))
    }
}

/// A component as a list, or none.
pub open spec fn placed(part: Option<PathPartModel>, end: int) -> Seq<PlacedModel> {
    match part {
        Some(found) => seq![PlacedModel { part: found, end }],
        None => Seq::empty(),
    }
}

/// The components from a place on.
pub open spec fn parts_from(text: Seq<char>, from: int, style: PathStyle, verbatim: bool) -> Seq<
    PlacedModel,
>
    decreases text.len() + 1 - from,
{
    if from < 0 || from >= text.len() {
        Seq::empty()
    } else {
        proof {
            lemma_head_end(text, from, style, verbatim);
        }
        let end = head_end(text, from, style, verbatim);
        placed(single_part(text.subrange(from, end), verbatim), end) + parts_from(
            text,
            end + 1,
            style,
            verbatim,
        )
    }
}

/// Whether a path begins with a single dot, or has one right behind its drive.
pub open spec fn dot_first(text: Seq<char>, style: PathStyle) -> bool {
    let start = prefix_len(prefix_of(text, style));
    &&& !has_root(text, style)
    &&& start < text.len() && text[start] == '.'
    &&& text.len() == start + 1 || is_separator(text[start + 1], style)
}

/// What stands between the prefix of a path and its names: the root, or the dot that a path begins
/// with.
pub open spec fn start_part(text: Seq<char>, style: PathStyle) -> Option<PathPartModel> {
    let prefix = prefix_of(text, style);
    if root_written(text, style) {
        Some(PathPartModel::RootDir)
    } else if prefix is Some {
        if prefix->Some_0.kind is Unc || prefix->Some_0.kind is Device {
            Some(PathPartModel::RootDir)
        } else {
            None
        }
    } else if dot_first(text, style) {
        Some(PathPartModel::CurDir)
    } else {
        None
    }
}

/// Where the names of a path begin.
pub open spec fn body_start(text: Seq<char>, style: PathStyle) -> int {
    let start = prefix_len(prefix_of(text, style));
    if root_written(text, style) || dot_first(text, style) {
        start + 1
    } else {
        start
    }
}

/// Where the prefix of a path ends. A dot right behind a drive is no component of its own and counts
/// as a part of it.
pub open spec fn prefix_end(text: Seq<char>, style: PathStyle) -> int {
    let start = prefix_len(prefix_of(text, style));
    if dot_first(text, style) {
        start + 1
    } else {
        start
    }
}

pub open spec fn prefix_part(text: Seq<char>, style: PathStyle) -> Option<PathPartModel> {
    match prefix_of(text, style) {
        Some(prefix) => Some(PathPartModel::Prefix(prefix)),
        None => None,
    }
}

/// The components of a path, each with the place behind it.
pub open spec fn placed_parts(text: Seq<char>, style: PathStyle) -> Seq<PlacedModel> {
    placed(prefix_part(text, style), prefix_end(text, style)) + placed(
        start_part(text, style),
        body_start(text, style),
    ) + parts_from(text, body_start(text, style), style, is_verbatim(prefix_of(text, style)))
}

/// Components without their places.
pub open spec fn bare(parts: Seq<PlacedModel>) -> Seq<PathPartModel> {
    parts.map_values(|placed: PlacedModel| placed.part)
}

/// The components of a path. Two texts with the same components are the same path.
pub open spec fn components(text: Seq<char>, style: PathStyle) -> Seq<PathPartModel> {
    bare(placed_parts(text, style))
}

// ---------------------------------------------------------------------------------------------
// Splitting
// ---------------------------------------------------------------------------------------------
pub(crate) fn is_sep(c: char, style: PathStyle) -> (is: bool)
    ensures
        is == is_separator(c, style),
{
    c == '/' || c == style.main_separator()
}

fn sep_at(chars: &Vec<char>, from: usize) -> (is: bool)
    ensures
        is == separator_at(chars@, from as int),
{
    from < chars.len() && (chars[from] == '/' || chars[from] == '\\')
}

fn drive_stands_at(chars: &Vec<char>, from: usize) -> (is: bool)
    requires
        from <= 4,
    ensures
        is == drive_at(chars@, from as int),
{
    if from + 2 > chars.len() {
        return false;
    }
    let c: char = chars[from];
    (('a' <= c && c <= 'z') || ('A' <= c && c <= 'Z')) && chars[from + 1] == ':'
}

fn upper_letter(c: char) -> (large: char)
    ensures
        large == upper(c),
{
    if 'a' <= c && c <= 'z' {
        ((c as u8) - 32) as char
    } else {
        c
    }
}

fn find_head_end(chars: &Vec<char>, from: usize, style: PathStyle, verbatim: bool) -> (end: usize)
    requires
        from <= chars@.len(),
    ensures
        end == head_end(chars@, from as int, style, verbatim),
        from <= end <= chars@.len(),
{
    let mut i: usize = from;
    while i < chars.len()
        invariant
            from <= i <= chars@.len(),
            head_end(chars@, from as int, style, verbatim) == head_end(
                chars@,
                i as int,
                style,
                verbatim,
            ),
        decreases chars@.len() - i,
    {
        let c: char = chars[i];
        let stop: bool = if verbatim {
            c == '\\'
        } else {
            is_sep(c, style)
        };
        if stop {
            return i;
        }
        i += 1;
    }
    i
}

/// The characters of a text from one place to another.
pub(crate) fn text_between(chars: &Vec<char>, from: usize, to: usize) -> (text: String)
    requires
        from <= to <= chars@.len(),
    ensures
        text@ == chars@.subrange(from as int, to as int),
{
    let mut text = String::new();
    let mut i: usize = from;
    assert(text@ =~= chars@.subrange(from as int, from as int));
    while i < to
        invariant
            from <= i <= to <= chars@.len(),
            text@ == chars@.subrange(from as int, i as int),
        decreases to - i,
    {
        text.push(chars[i]);
        i += 1;
        assert(chars@.subrange(from as int, i - 1).push(chars@[i - 1]) =~= chars@.subrange(
            from as int,
            i as int,
        ));
    }
    text
}

fn read_share(chars: &Vec<char>, kind: PrefixKind, from: usize, verbatim: bool) -> (prefix: Prefix)
    requires
        from <= chars@.len(),
    ensures
        prefix@ == share_prefix(kind, chars@, from as int, verbatim),
        from + prefix@.name.len() <= chars@.len(),
        prefix@.share.len() > 0 ==> from + prefix@.name.len() + 1 + prefix@.share.len()
            <= chars@.len(),
{
    let end: usize = find_head_end(chars, from, PathStyle::Windows, verbatim);
    let next: usize = if end < chars.len() {
        end + 1
    } else {
        end
    };
    let last: usize = find_head_end(chars, next, PathStyle::Windows, verbatim);
    Prefix {
        kind,
        name: text_between(chars, from, end),
        share: text_between(chars, next, last),
    }
}

fn drive(kind: PrefixKind, letter: char) -> (prefix: Prefix)
    ensures
        prefix@ == drive_prefix(kind, letter),
{
    let mut name = String::new();
    name.push(upper_letter(letter));
    let share = String::new();
    assert(name@ =~= seq![upper(letter)]);
    assert(share@ =~= Seq::<char>::empty());
    Prefix { kind, name, share }
}

fn named(kind: PrefixKind, chars: &Vec<char>, verbatim: bool) -> (prefix: Prefix)
    requires
        chars@.len() >= 4,
    ensures
        prefix@ == name_prefix(kind, head(chars@, 4, PathStyle::Windows, verbatim)),
        4 + prefix@.name.len() <= chars@.len(),
{
    let end: usize = find_head_end(chars, 4, PathStyle::Windows, verbatim);
    let share = String::new();
    assert(share@ =~= Seq::<char>::empty());
    Prefix { kind, name: text_between(chars, 4, end), share }
}

fn read_verbatim(chars: &Vec<char>) -> (prefix: Prefix)
    requires
        is_verbatim_start(chars@),
    ensures
        prefix@ == verbatim_prefix(chars@),
        prefix@.len() <= chars@.len(),
{
    if chars.len() >= 8 && chars[4] == 'U' && chars[5] == 'N' && chars[6] == 'C' && sep_at(
        chars,
        7,
    ) {
        read_share(chars, PrefixKind::VerbatimUnc, 8, true)
    } else if drive_stands_at(chars, 4) && (chars.len() == 6 || sep_at(chars, 6)) {
        drive(PrefixKind::VerbatimDisk, chars[4])
    } else {
        named(PrefixKind::Verbatim, chars, true)
    }
}

/// What an optional prefix is.
pub open spec fn prefix_model(prefix: Option<Prefix>) -> Option<PrefixModel> {
    match prefix {
        Some(found) => Some(found@),
        None => None,
    }
}

pub(crate) fn read_prefix(chars: &Vec<char>, style: PathStyle) -> (prefix: Option<Prefix>)
    ensures
        prefix_model(prefix) == prefix_of(chars@, style),
        prefix_len(prefix_of(chars@, style)) <= chars@.len(),
{
    if style == PathStyle::Unix {
        return None;
    }
    if sep_at(chars, 0) && sep_at(chars, 1) {
        if chars.len() >= 4 && chars[0] == '\\' && chars[1] == '\\' && chars[2] == '?' && chars[3]
            == '\\' {
            return Some(read_verbatim(chars));
        }
        if chars.len() >= 4 && chars[2] == '.' && sep_at(chars, 3) {
            return Some(named(PrefixKind::Device, chars, false));
        }
        let found = read_share(chars, PrefixKind::Unc, 2, false);
        if !found.name.as_str().is_empty() && !found.share.as_str().is_empty() {
            Some(found)
        } else {
            None
        }
    } else if drive_stands_at(chars, 0) {
        Some(drive(PrefixKind::Disk, chars[0]))
    } else {
        None
    }
}

fn count(text: &str) -> (len: usize)
    ensures
        len == text@.len(),
{
    chars_of(text).len()
}

pub(crate) fn prefix_size(prefix: &Prefix, limit: usize) -> (size: usize)
    requires
        prefix@.len() <= limit,
    ensures
        size == prefix@.len(),
{
    let name: usize = count(prefix.name.as_str());
    let share: usize = count(prefix.share.as_str());
    match prefix.kind {
        PrefixKind::Verbatim | PrefixKind::Device => 4 + name,
        PrefixKind::VerbatimUnc => if share > 0 {
            8 + name + 1 + share
        } else {
            8 + name
        },
        PrefixKind::VerbatimDisk => 6,
        PrefixKind::Unc => if share > 0 {
            2 + name + 1 + share
        } else {
            2 + name
        },
        PrefixKind::Disk => 2,
    }
}

fn read_single(text: String, verbatim: bool) -> (part: Option<PathPart>)
    ensures
        match part {
            Some(found) => single_part(text@, verbatim) == Some(found@),
            None => single_part(text@, verbatim) is None,
        },
{
    proof {
        reveal_strlit(".");
        reveal_strlit("..");
        assert("."@ =~= seq!['.']);
        assert(".."@ =~= seq!['.', '.']);
    }
    if text.as_str().is_empty() {
        None
    } else if same_text(text.as_str(), ".") {
        if verbatim {
            Some(PathPart::CurDir)
        } else {
            None
        }
    } else if same_text(text.as_str(), "..") {
        Some(PathPart::ParentDir)
    } else {
        Some(PathPart::Normal(text))
    }
}

fn add_part(parts: &mut Vec<PlacedPart>, part: Option<PathPart>, end: usize)
    ensures
        forall|limit: int|
            end <= limit && all_within(old(parts)@, limit) ==> all_within(final(parts)@, limit),
        placed_models(final(parts)@) == placed_models(old(parts)@) + placed(
            part_option(part),
            end as int,
        ),
{
    let ghost before = parts@;
    if let Some(found) = part {
        parts.push(PlacedPart { part: found, end });
    }
    assert(placed_models(parts@) =~= placed_models(before) + placed(
        part_option(part),
        end as int,
    ));
}

/// Whether all components end within a text of some length.
pub open spec fn all_within(parts: Seq<PlacedPart>, limit: int) -> bool {
    forall|i: int| 0 <= i < parts.len() ==> (#[trigger] parts[i]).end <= limit
}

pub open spec fn part_option(part: Option<PathPart>) -> Option<PathPartModel> {
    match part {
        Some(found) => Some(found@),
        None => None,
    }
}

fn add_names(
    parts: &mut Vec<PlacedPart>,
    chars: &Vec<char>,
    from: usize,
    style: PathStyle,
    verbatim: bool,
)
    requires
        from <= chars@.len(),
        all_within(old(parts)@, chars@.len() as int),
    ensures
        all_within(final(parts)@, chars@.len() as int),
        placed_models(final(parts)@) == placed_models(old(parts)@) + parts_from(
            chars@,
            from as int,
            style,
            verbatim,
        ),
{
    let ghost before = placed_models(parts@);
    let ghost whole = parts_from(chars@, from as int, style, verbatim);
    let mut i: usize = from;
    assert(before + whole =~= placed_models(parts@) + whole);
    while i < chars.len()
        invariant
            i <= chars@.len(),
            all_within(parts@, chars@.len() as int),
            placed_models(parts@) + parts_from(chars@, i as int, style, verbatim) == before
                + whole,
        decreases chars@.len() - i,
    {
        let end: usize = find_head_end(chars, i, style, verbatim);
        let ghost so_far = placed_models(parts@);
        let ghost from_here = placed(
            single_part(chars@.subrange(i as int, end as int), verbatim),
            end as int,
        );
        add_part(parts, read_single(text_between(chars, i, end), verbatim), end);
        assert(so_far + (from_here + parts_from(chars@, end + 1, style, verbatim)) =~= (so_far
            + from_here) + parts_from(chars@, end + 1, style, verbatim));
        if end == chars.len() {
            assert(parts_from(chars@, end + 1, style, verbatim) =~= Seq::<PlacedModel>::empty());
            assert(parts_from(chars@, end as int, style, verbatim) =~= Seq::<PlacedModel>::empty());
            i = end;
        } else {
            i = end + 1;
        }
    }
    assert(parts_from(chars@, i as int, style, verbatim) =~= Seq::<PlacedModel>::empty());
    assert(placed_models(parts@) =~= before + whole);
}

/// The components of a path, each with the place behind it.
pub fn split_path(text: &str, style: PathStyle) -> (parts: Vec<PlacedPart>)
    ensures
        placed_models(parts@) == placed_parts(text@, style),
        all_within(parts@, text@.len() as int),
{
    let chars = chars_of(text);
    let prefix = read_prefix(&chars, style);
    let start: usize = match &prefix {
        Some(found) => prefix_size(found, chars.len()),
        None => 0,
    };
    let verbatim: bool = match &prefix {
        Some(found) => found.kind.takes_verbatim(),
        None => false,
    };
    let rooted: bool = start < chars.len() && is_sep(chars[start], style);
    let relative: bool = !rooted && match &prefix {
        Some(found) => match found.kind {
            PrefixKind::Disk => true,
            _ => false,
        },
        None => true,
    };
    let dotted: bool = relative && start < chars.len() && chars[start] == '.' && (chars.len() - start
        == 1 || is_sep(chars[start + 1], style));
    let first: Option<PathPart> = if rooted {
        Some(PathPart::RootDir)
    } else {
        match &prefix {
            Some(found) => match found.kind {
                PrefixKind::Unc | PrefixKind::Device => Some(PathPart::RootDir),
                _ => None,
            },
            None => if dotted {
                Some(PathPart::CurDir)
            } else {
                None
            },
        }
    };
    let prefix_end: usize = if dotted {
        start + 1
    } else {
        start
    };
    let body: usize = if rooted {
        start + 1
    } else {
        prefix_end
    };
    let mut parts: Vec<PlacedPart> = Vec::new();
    assert(placed_models(parts@) =~= Seq::<PlacedModel>::empty());
    let whole: Option<PathPart> = match prefix {
        Some(found) => Some(PathPart::Prefix(found)),
        None => None,
    };
    add_part(&mut parts, whole, prefix_end);
    add_part(&mut parts, first, body);
    add_names(&mut parts, &chars, body, style, verbatim);
    assert(placed_models(parts@) =~= placed_parts(text@, style));
    parts
}

pub(crate) fn copy_part(part: &PathPart) -> (copy: PathPart)
    ensures
        copy@ == part@,
{
    match part {
        PathPart::Prefix(prefix) => PathPart::Prefix(
            Prefix {
                kind: prefix.kind,
                name: prefix.name.clone(),
                share: prefix.share.clone(),
            },
        ),
        PathPart::RootDir => PathPart::RootDir,
        PathPart::CurDir => PathPart::CurDir,
        PathPart::ParentDir => PathPart::ParentDir,
        PathPart::Normal(text) => PathPart::Normal(text.clone()),
    }
}

/// A copy of some components.
pub(crate) fn copy_parts(parts: &Vec<PathPart>) -> (copy: Vec<PathPart>)
    ensures
        part_models(copy@) == part_models(parts@),
{
    let mut copy: Vec<PathPart> = Vec::new();
    let mut i: usize = 0;
    while i < parts.len()
        invariant
            i <= parts@.len(),
            copy@.len() == i,
            forall|k: int| 0 <= k < i ==> (#[trigger] copy@[k])@ == parts@[k]@,
        decreases parts.len() - i,
    {
        copy.push(copy_part(&parts[i]));
        i += 1;
    }
    assert(part_models(copy@) =~= part_models(parts@));
    copy
}

/// The components of a path.
pub fn components_of(text: &str, style: PathStyle) -> (parts: Vec<PathPart>)
    ensures
        part_models(parts@) == components(text@, style),
{
    let placed = split_path(text, style);
    let mut parts: Vec<PathPart> = Vec::new();
    let mut i: usize = 0;
    while i < placed.len()
        invariant
            i <= placed@.len(),
            parts@.len() == i,
            forall|k: int| 0 <= k < i ==> (#[trigger] parts@[k])@ == placed@[k].part@,
        decreases placed.len() - i,
    {
        parts.push(copy_part(&placed[i].part));
        i += 1;
    }
    assert(placed_models(placed@).len() == placed@.len());
    assert forall|k: int| 0 <= k < parts@.len() implies part_models(parts@)[k] == components(
        text@,
        style,
    )[k] by {
        assert(placed_models(placed@)[k] == placed@[k]@);
    }
    assert(part_models(parts@) =~= components(text@, style));
    parts
}

fn same_part(a: &PathPart, b: &PathPart) -> (same: bool)
    ensures
        same == (a@ == b@),
{
    match (a, b) {
        (PathPart::Prefix(x), PathPart::Prefix(y)) => x.kind == y.kind && same_text(
            x.name.as_str(),
            y.name.as_str(),
        ) && same_text(x.share.as_str(), y.share.as_str()),
        (PathPart::RootDir, PathPart::RootDir) => true,
        (PathPart::CurDir, PathPart::CurDir) => true,
        (PathPart::ParentDir, PathPart::ParentDir) => true,
        (PathPart::Normal(x), PathPart::Normal(y)) => same_text(x.as_str(), y.as_str()),
        _ => false,
    }
}

/// Whether a path begins with the components of another.
pub fn starts_with(path: &Vec<PathPart>, start: &Vec<PathPart>) -> (inside: bool)
    ensures
        inside == part_models(start@).is_prefix_of(part_models(path@)),
{
    if start.len() > path.len() {
        return false;
    }
    let mut i: usize = 0;
    while i < start.len()
        invariant
            i <= start@.len() <= path@.len(),
            forall|k: int| 0 <= k < i ==> (#[trigger] start@[k])@ == path@[k]@,
        decreases start.len() - i,
    {
        if !same_part(&start[i], &path[i]) {
            assert(part_models(start@)[i as int] != part_models(path@)[i as int]);
            assert(part_models(path@).subrange(0, start@.len() as int)[i as int] == part_models(
                path@,
            )[i as int]);
            return false;
        }
        i += 1;
    }
    assert(part_models(start@) =~= part_models(path@).subrange(0, start@.len() as int));
    true
}

/// Whether two paths have the same components.
pub fn same_parts(a: &Vec<PathPart>, b: &Vec<PathPart>) -> (same: bool)
    ensures
        same == (part_models(a@) == part_models(b@)),
{
    if a.len() != b.len() {
        assert(part_models(a@).len() != part_models(b@).len());
        return false;
    }
    let same: bool = starts_with(a, b);
    assert(part_models(a@).subrange(0, a@.len() as int) =~= part_models(a@));
    same
}

/// Whether a path names the same place from everywhere.
pub fn path_is_absolute(text: &str, style: PathStyle) -> (is: bool)
    ensures
        is == is_absolute(text@, style),
{
    let chars = chars_of(text);
    match read_prefix(&chars, style) {
        Some(prefix) => {
            let start: usize = prefix_size(&prefix, chars.len());
            match prefix.kind {
                PrefixKind::Disk => start < chars.len() && is_sep(chars[start], style),
                _ => true,
            }
        },
        None => style == PathStyle::Unix && chars.len() > 0 && is_sep(chars[0], style),
    }
}

// ---------------------------------------------------------------------------------------------
// Folders above
// ---------------------------------------------------------------------------------------------
/// How many components of a path cannot be left: its prefix and its root.
pub open spec fn fixed_parts(text: Seq<char>, style: PathStyle) -> int {
    (if prefix_of(text, style) is Some {
        1int
    } else {
        0
    }) + (if start_part(text, style) == Some(PathPartModel::RootDir) {
        1int
    } else {
        0
    })
}

/// The text of the first components of a path.
pub open spec fn first_parts(text: Seq<char>, style: PathStyle, count: int) -> Seq<char> {
    if count <= 0 {
        Seq::empty()
    } else {
        text.take(placed_parts(text, style)[count - 1].end)
    }
}

/// The folder that a path lies in and those above it, nearest first: the path without its last
/// component, without its last two, and so on down to its prefix and root.
pub open spec fn folders_above(text: Seq<char>, style: PathStyle) -> Seq<Seq<char>> {
    let count = placed_parts(text, style).len();
    Seq::new(
        (count - fixed_parts(text, style)) as nat,
        |i: int| first_parts(text, style, count - 1 - i),
    )
}

/// The folder that a path lies in and those above it, nearest first.
pub fn list_folders_above(text: &str, style: PathStyle) -> (folders: Vec<String>)
    ensures
        texts_of(folders@) == folders_above(text@, style),
{
    let chars = chars_of(text);
    let parts = split_path(text, style);
    let mut fixed: usize = 0;
    if parts.len() > 0 {
        if let PathPart::Prefix(_) = &parts[0].part {
            fixed = 1;
        }
    }
    if parts.len() > fixed {
        if let PathPart::RootDir = &parts[fixed].part {
            fixed = fixed + 1;
        }
    }
    proof {
        lemma_fixed(text@, style, parts@, fixed as int);
    }
    let mut folders: Vec<String> = Vec::new();
    let mut left: usize = parts.len();
    while left > fixed
        invariant
            fixed <= left <= parts@.len(),
            chars@ == text@,
            placed_models(parts@) == placed_parts(text@, style),
            all_within(parts@, chars@.len() as int),
            folders@.len() == parts@.len() - left,
            forall|k: int|
                0 <= k < folders@.len() ==> (#[trigger] folders@[k])@ == first_parts(
                    text@,
                    style,
                    parts@.len() - 1 - k,
                ),
        decreases left,
    {
        left = left - 1;
        let end: usize = if left == 0 {
            0
        } else {
            parts[left - 1].end
        };
        proof {
            if left > 0 {
                assert(placed_models(parts@)[left - 1] == parts@[left - 1]@);
            }
        }
        let folder = text_between(&chars, 0, end);
        assert(folder@ =~= first_parts(text@, style, left as int));
        folders.push(folder);
    }
    assert(placed_models(parts@).len() == parts@.len());
    assert(texts_of(folders@) =~= folders_above(text@, style));
    folders
}

proof fn lemma_fixed(text: Seq<char>, style: PathStyle, parts: Seq<PlacedPart>, fixed: int)
    requires
        placed_models(parts) == placed_parts(text, style),
        fixed == ({
            let first = if parts.len() > 0 && parts[0].part is Prefix {
                1int
            } else {
                0
            };
            if parts.len() > first && parts[first].part is RootDir {
                first + 1
            } else {
                first
            }
        }),
    ensures
        fixed == fixed_parts(text, style),
{
    let all = placed_parts(text, style);
    assert(all.len() == parts.len());
    assert(forall|i: int| 0 <= i < parts.len() ==> all[i] == (#[trigger] parts[i])@);
    lemma_names_only(
        text,
        body_start(text, style),
        style,
        is_verbatim(prefix_of(text, style)),
    );
    let names = parts_from(
        text,
        body_start(text, style),
        style,
        is_verbatim(prefix_of(text, style)),
    );
    let shift = all.len() - names.len();
    assert(forall|i: int| 0 <= i < names.len() ==> all[i + shift] == #[trigger] names[i]);
}

/// No prefix and no root stands among the names of a path.
proof fn lemma_names_only(text: Seq<char>, from: int, style: PathStyle, verbatim: bool)
    ensures
        forall|i: int|
            #![trigger parts_from(text, from, style, verbatim)[i]]
            0 <= i < parts_from(text, from, style, verbatim).len() ==> {
                let part = parts_from(text, from, style, verbatim)[i].part;
                !(part is Prefix) && !(part is RootDir)
            },
    decreases text.len() + 1 - from,
{
    if 0 <= from < text.len() {
        lemma_head_end(text, from, style, verbatim);
        let end = head_end(text, from, style, verbatim);
        lemma_names_only(text, end + 1, style, verbatim);
        let first = placed(single_part(text.subrange(from, end), verbatim), end);
        let rest = parts_from(text, end + 1, style, verbatim);
        assert(parts_from(text, from, style, verbatim) == first + rest);
        assert forall|i: int| 0 <= i < (first + rest).len() implies {
            let part = (#[trigger] (first + rest)[i]).part;
            !(part is Prefix) && !(part is RootDir)
        } by {
            if i >= first.len() {
                assert((first + rest)[i] == rest[i - first.len()]);
            }
        }
    }
}

} // verus!
