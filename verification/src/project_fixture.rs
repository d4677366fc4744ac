//! Changes to the files of a project fixture, and how its paths are
//! written.

use vstd::prelude::*;
use vstd::string::{StrSliceExecFns, StringExecFns};
use fnv::FnvHashMap;
use crate::fixture_map::{
    change_entries, clone_files, file_entries, fixture_change, fixture_file, get_file,
    insert_change, insert_file, list_changes, list_files, new_changes, new_files, remove_file,
};
use crate::source::{compare_texts, text_order, Order};

verus! {

/// A change to a file: new content, or the file is gone.
#[derive(Clone, Debug, PartialEq, Eq)]
pub enum FileChange {
    Change(String),
    Delete,
}

impl FileChange {
    /// The content that the change gives the file; none if the file is
    /// deleted.
    pub fn content(&self) -> (content: Option<&String>)
        ensures
            content == match self {
                FileChange::Change(text) => Some(text),
                FileChange::Delete => None,
            },
    {
        match self {
            FileChange::Change(text) => Some(text),
            FileChange::Delete => None,
        }
    }

    pub fn is_delete(&self) -> (deleted: bool)
        ensures
            deleted == (self is Delete),
    {
        match self {
            FileChange::Change(_) => false,
            FileChange::Delete => true,
        }
    }
}

} // verus!

verus! {

/// `path` with every `separator` turned into a slash.
pub open spec fn spec_format_normalized_path(path: Seq<char>, separator: char) -> Seq<char> {
    Seq::new(
        path.len(),
        |i: int|
            if path[i] == separator {
                '/'
            } else {
                path[i]
            },
    )
}

/// Writes a path so that it reads the same on every system: with slashes
/// where the system's separator `separator` stands.
pub fn format_normalized_path(path: &str, separator: char) -> (text: String)
    ensures
        text@ == spec_format_normalized_path(path@, separator),
{
    let chars = crate::source::chars_of(path);
    let mut text = String::new();
    let mut done: usize = 0;
    let mut i: usize = 0;
    while i < chars.len()
        invariant
            done <= i <= chars.len(),
            chars@ == path@,
            forall|j: int| done <= j < i ==> chars[j] != separator,
            text@ == spec_format_normalized_path(path@, separator).take(done as int),
        decreases chars.len() - i,
    {
        if chars[i] == separator {
            text.append(path.substring_char(done, i));
            text.append("/");
            proof {
                reveal_strlit("/");
                assert(text@ =~= spec_format_normalized_path(path@, separator).take(i + 1));
            }
            done = i + 1;
        }
        i += 1;
    }
    text.append(path.substring_char(done, i));
    proof {
        assert(text@ =~= spec_format_normalized_path(path@, separator));
    }
    text
}

} // verus!

verus! {

/// A file of a fixture: its path and its content.
#[derive(Clone, Debug, PartialEq, Eq)]
pub struct FixtureFile {
    pub path: String,
    pub content: String,
}

pub struct FixtureFileView {
    pub path: Seq<char>,
    pub content: Seq<char>,
}

impl DeepView for FixtureFile {
    type V = FixtureFileView;

    open spec fn deep_view(&self) -> FixtureFileView {
        FixtureFileView { path: self.path@, content: self.content@ }
    }
}

/// What a fixture text holds, in the order of the text: the files, the
/// files with changed content, and the paths of deleted files. Where a
/// path occurs again, what comes later counts; a deletion counts over a
/// change of the same path.
#[derive(Clone, Debug, PartialEq, Eq)]
pub struct ParsedFixture {
    pub files: Vec<FixtureFile>,
    pub file_changes: Vec<FixtureFile>,
    pub file_deletions: Vec<String>,
}

pub struct ParsedFixtureView {
    pub files: Seq<FixtureFileView>,
    pub file_changes: Seq<FixtureFileView>,
    pub file_deletions: Seq<Seq<char>>,
}

impl DeepView for ParsedFixture {
    type V = ParsedFixtureView;

    open spec fn deep_view(&self) -> ParsedFixtureView {
        ParsedFixtureView {
            files: self.files.deep_view(),
            file_changes: self.file_changes.deep_view(),
            file_deletions: self.file_deletions.deep_view(),
        }
    }
}

/// The first position at or after `from` that holds a line feed; the
/// length of the text if there is none.
pub open spec fn spec_line_feed(text: Seq<char>, from: int) -> int
    decreases text.len() - from,
{
    if 0 <= from < text.len() && text[from] != '\n' {
        spec_line_feed(text, from + 1)
    } else {
        from
    }
}

/// Where the line that begins at `from` ends: before its line feed, and
/// before the carriage return that stands right before the line feed.
pub open spec fn spec_line_end(text: Seq<char>, from: int) -> int {
    let feed = spec_line_feed(text, from);
    if from < feed < text.len() && text[feed - 1] == '\r' {
        feed - 1
    } else {
        feed
    }
}

/// Whether `line` begins with `prefix`.
pub open spec fn spec_starts_with(line: Seq<char>, prefix: Seq<char>) -> bool {
    prefix.len() <= line.len() && line.take(prefix.len() as int) == prefix
}

/// `line` without `prefix` at its start, as often as it stands there.
pub open spec fn spec_trim_start_matches(line: Seq<char>, prefix: Seq<char>) -> Seq<char>
    decreases line.len(),
{
    if prefix.len() > 0 && spec_starts_with(line, prefix) {
        spec_trim_start_matches(line.skip(prefix.len() as int), prefix)
    } else {
        line
    }
}

/// The path that a header line names: what stands behind the marker,
/// without white space around it.
pub open spec fn spec_header_path(line: Seq<char>, marker: Seq<char>) -> Seq<char> {
    crate::schema_coordinates::spec_trim(spec_trim_start_matches(line, marker))
}

/// The first `count` of `lines`, with a line feed between one and the
/// next.
pub open spec fn spec_join_lines(lines: Seq<Seq<char>>, count: int) -> Seq<char>
    decreases count,
{
    if count <= 0 {
        Seq::empty()
    } else if count == 1 {
        lines[0]
    } else {
        spec_join_lines(lines, count - 1) + "\n"@ + lines[count - 1]
    }
}

/// What has been read of a fixture text: what is complete, and the file
/// that is being read, with the lines of content met so far.
pub struct FixtureProgress {
    pub parsed: ParsedFixtureView,
    pub file_name: Option<Seq<char>>,
    pub is_file_change: bool,
    pub content: Seq<Seq<char>>,
}

/// The progress with the file that is being read completed. Where no file
/// is being read, the lines of content wait for the next file.
pub open spec fn spec_flush(progress: FixtureProgress) -> FixtureProgress {
    match progress.file_name {
        Some(path) => {
            let file = FixtureFileView {
                path,
                content: spec_join_lines(progress.content, progress.content.len() as int),
            };
            FixtureProgress {
                parsed: if progress.is_file_change {
                    ParsedFixtureView {
                        file_changes: progress.parsed.file_changes.push(file),
                        ..progress.parsed
                    }
                } else {
                    ParsedFixtureView { files: progress.parsed.files.push(file), ..progress.parsed }
                },
                file_name: None,
                is_file_change: progress.is_file_change,
                content: Seq::empty(),
            }
        },
        None => progress,
    }
}

/// The progress after one more line: `//-xx path` deletes a file,
/// `//-++ path` begins a file with changed content, `//- path` begins a
/// file, and every other line is content.
pub open spec fn spec_fixture_line(progress: FixtureProgress, line: Seq<char>) -> FixtureProgress {
    if spec_starts_with(line, "//-xx "@) {
        let flushed = spec_flush(progress);
        FixtureProgress {
            parsed: ParsedFixtureView {
                file_deletions: flushed.parsed.file_deletions.push(
                    spec_header_path(line, "//-xx "@),
                ),
                ..flushed.parsed
            },
            ..flushed
        }
    } else if spec_starts_with(line, "//-++ "@) {
        let flushed = spec_flush(progress);
        FixtureProgress {
            file_name: Some(spec_header_path(line, "//-++ "@)),
            is_file_change: true,
            ..flushed
        }
    } else if spec_starts_with(line, "//- "@) {
        let flushed = spec_flush(progress);
        FixtureProgress {
            file_name: Some(spec_header_path(line, "//- "@)),
            is_file_change: false,
            ..flushed
        }
    } else {
        FixtureProgress { content: progress.content.push(line), ..progress }
    }
}

/// The progress after the lines of `text` from position `from` on.
pub open spec fn spec_fixture_lines(text: Seq<char>, from: int, progress: FixtureProgress) -> FixtureProgress
    decreases text.len() - from,
{
    if 0 <= from < text.len() {
        proof {
            lemma_line_feed(text, from);
        }
        let feed = spec_line_feed(text, from);
        let next = spec_fixture_line(progress, text.subrange(from, spec_line_end(text, from)));
        if feed < text.len() {
            spec_fixture_lines(text, feed + 1, next)
        } else {
            next
        }
    } else {
        progress
    }
}

/// What a fixture text holds.
pub open spec fn spec_parse_fixture(input: Seq<char>) -> ParsedFixtureView {
    spec_flush(
        spec_fixture_lines(
            input,
            0,
            FixtureProgress {
                parsed: ParsedFixtureView {
                    files: Seq::empty(),
                    file_changes: Seq::empty(),
                    file_deletions: Seq::empty(),
                },
                file_name: None,
                is_file_change: false,
                content: Seq::empty(),
            },
        ),
    ).parsed
}

pub proof fn lemma_line_feed(text: Seq<char>, from: int)
    requires
        0 <= from <= text.len(),
    ensures
        from <= spec_line_feed(text, from) <= text.len(),
        from <= spec_line_end(text, from) <= spec_line_feed(text, from),
    decreases text.len() - from,
{
    if from < text.len() && text[from] != '\n' {
        lemma_line_feed(text, from + 1);
    }
}

/// Whether `line` begins with `prefix`.
pub fn starts_with(line: &str, prefix: &str) -> (starts: bool)
    ensures
        starts == spec_starts_with(line@, prefix@),
{
    let a = crate::source::chars_of(line);
    let b = crate::source::chars_of(prefix);
    if b.len() > a.len() {
        return false;
    }
    let mut i: usize = 0;
    while i < b.len()
        invariant
            i <= b.len() <= a.len(),
            a@ == line@,
            b@ == prefix@,
            forall|j: int| 0 <= j < i ==> a[j] == b[j],
        decreases b.len() - i,
    {
        if a[i] != b[i] {
            assert(line@.take(prefix@.len() as int)[i as int] != prefix@[i as int]);
            return false;
        }
        i += 1;
    }
    proof {
        assert(line@.take(prefix@.len() as int) =~= prefix@);
    }
    true
}

fn trim_start_matches<'a>(line: &'a str, prefix: &str) -> (rest: &'a str)
    ensures
        rest@ == spec_trim_start_matches(line@, prefix@),
{
    let width = prefix.unicode_len();
    let mut rest = line;
    if width == 0 {
        return rest;
    }
    while starts_with(rest, prefix)
        invariant
            width == prefix@.len(),
            width > 0,
            spec_trim_start_matches(line@, prefix@) == spec_trim_start_matches(rest@, prefix@),
        decreases rest@.len(),
    {
        let len = rest.unicode_len();
        proof {
            assert(rest@.skip(width as int) =~= rest@.subrange(width as int, len as int));
        }
        rest = rest.substring_char(width, len);
    }
    rest
}

fn header_path(line: &str, marker: &str) -> (path: String)
    ensures
        path@ == spec_header_path(line@, marker@),
{
    String::from_str(crate::schema_coordinates::trim(trim_start_matches(line, marker)))
}

fn join_lines(lines: &Vec<String>) -> (text: String)
    ensures
        text@ == spec_join_lines(lines.deep_view(), lines.len() as int),
{
    let mut text = String::new();
    let ghost views = lines.deep_view();
    let mut i: usize = 0;
    while i < lines.len()
        invariant
            i <= lines.len(),
            views == lines.deep_view(),
            text@ == spec_join_lines(views, i as int),
        decreases lines.len() - i,
    {
        if i > 0 {
            text.append("\n");
        }
        text.append(lines[i].as_str());
        proof {
            if i == 0 {
                assert(Seq::<char>::empty() + views[0] =~= views[0]);
            }
        }
        i += 1;
    }
    text
}

/// Reads a fixture text.
pub fn parse_fixture(input: &str) -> (parsed: ParsedFixture)
    ensures
        parsed.deep_view() == spec_parse_fixture(input@),
{
    let chars = crate::source::chars_of(input);
    let mut parsed = ParsedFixture {
        files: Vec::new(),
        file_changes: Vec::new(),
        file_deletions: Vec::new(),
    };
    let mut file_name: Option<String> = None;
    let mut is_file_change = false;
    let mut content: Vec<String> = Vec::new();
    proof {
        assert(parsed.files.deep_view() =~= Seq::empty());
        assert(parsed.file_changes.deep_view() =~= Seq::empty());
        assert(parsed.file_deletions.deep_view() =~= Seq::empty());
        assert(content.deep_view() =~= Seq::empty());
    }
    let ghost start = FixtureProgress {
        parsed: parsed.deep_view(),
        file_name: None,
        is_file_change: false,
        content: Seq::empty(),
    };
    let mut pos: usize = 0;
    while pos < chars.len()
        invariant
            chars@ == input@,
            spec_fixture_lines(input@, 0, start) == spec_fixture_lines(
                input@,
                pos as int,
                FixtureProgress {
                    parsed: parsed.deep_view(),
                    file_name: file_name.deep_view(),
                    is_file_change,
                    content: content.deep_view(),
                },
            ),
        decreases chars.len() - pos,
    {
        proof {
            lemma_line_feed(chars@, pos as int);
        }
        let mut feed: usize = pos;
        while feed < chars.len() && chars[feed] != '\n'
            invariant
                pos <= feed <= chars.len(),
                spec_line_feed(chars@, pos as int) == spec_line_feed(chars@, feed as int),
            decreases chars.len() - feed,
        {
            feed += 1;
        }
        let end: usize = if pos < feed && feed < chars.len() && chars[feed - 1] == '\r' {
            feed - 1
        } else {
            feed
        };
        let line = input.substring_char(pos, end);
        let deletes = starts_with(line, "//-xx ");
        let changes = !deletes && starts_with(line, "//-++ ");
        let begins = !deletes && !changes && starts_with(line, "//- ");
        if deletes || changes || begins {
            match file_name {
                Some(path) => {
                    let file = FixtureFile { path, content: join_lines(&content) };
                    if is_file_change {
                        let ghost before = parsed.file_changes;
                        parsed.file_changes.push(file);
                        proof {
                            crate::parser::lemma_deep_view_push(before, parsed.file_changes, file);
                        }
                    } else {
                        let ghost before = parsed.files;
                        parsed.files.push(file);
                        proof {
                            crate::parser::lemma_deep_view_push(before, parsed.files, file);
                        }
                    }
                    content = Vec::new();
                    proof {
                        assert(content.deep_view() =~= Seq::empty());
                    }
                },
                None => {},
            }
            if deletes {
                file_name = None;
                let path = header_path(line, "//-xx ");
                let ghost before = parsed.file_deletions;
                parsed.file_deletions.push(path);
                proof {
                    crate::parser::lemma_deep_view_push(before, parsed.file_deletions, path);
                }
            } else if changes {
                file_name = Some(header_path(line, "//-++ "));
                is_file_change = true;
            } else {
                file_name = Some(header_path(line, "//- "));
                is_file_change = false;
            }
        } else {
            let ghost before = content;
            let text = String::from_str(line);
            content.push(text);
            proof {
                crate::parser::lemma_deep_view_push(before, content, text);
            }
        }
        pos = if feed < chars.len() {
            feed + 1
        } else {
            feed
        };
    }
    match file_name {
        Some(path) => {
            let file = FixtureFile { path, content: join_lines(&content) };
            if is_file_change {
                let ghost before = parsed.file_changes;
                parsed.file_changes.push(file);
                proof {
                    crate::parser::lemma_deep_view_push(before, parsed.file_changes, file);
                }
            } else {
                let ghost before = parsed.files;
                parsed.files.push(file);
                proof {
                    crate::parser::lemma_deep_view_push(before, parsed.files, file);
                }
            }
        },
        None => {},
    }
    parsed
}

} // verus!

verus! {

/// A change to the file at `path`.
#[derive(Clone, Debug, PartialEq, Eq)]
pub struct FixtureChange {
    pub path: String,
    pub change: FileChange,
}

/// A change as a plain value: the new content, or nothing for a deleted
/// file.
pub open spec fn change_view(change: FileChange) -> Option<Seq<char>> {
    match change {
        FileChange::Change(content) => Some(content@),
        FileChange::Delete => None,
    }
}

pub struct FixtureChangeView {
    pub path: Seq<char>,
    pub change: Option<Seq<char>>,
}

impl DeepView for FixtureChange {
    type V = FixtureChangeView;

    open spec fn deep_view(&self) -> FixtureChangeView {
        FixtureChangeView { path: self.path@, change: change_view(self.change) }
    }
}

/// The first `count` of `files` as fixture text: for each file a line
/// `//- path` and its content, closed by a line feed.
pub open spec fn spec_serialize_files(files: Seq<FixtureFileView>, count: int) -> Seq<char>
    decreases count,
{
    if count <= 0 {
        Seq::empty()
    } else {
        spec_serialize_files(files, count - 1) + "//- "@ + files[count - 1].path + "\n"@
            + files[count - 1].content + "\n"@
    }
}

/// A change as fixture text: a line `//-++ path` and the new content,
/// closed by a line feed; or a line `//-xx path` for a deleted file.
pub open spec fn spec_serialize_change(change: FixtureChangeView) -> Seq<char> {
    match change.change {
        Some(content) => "//-++ "@ + change.path + "\n"@ + content + "\n"@,
        None => "//-xx "@ + change.path + "\n"@,
    }
}

/// The first `count` of `changes` as fixture text.
pub open spec fn spec_serialize_changes(changes: Seq<FixtureChangeView>, count: int) -> Seq<char>
    decreases count,
{
    if count <= 0 {
        Seq::empty()
    } else {
        spec_serialize_changes(changes, count - 1) + spec_serialize_change(changes[count - 1])
    }
}

/// Writes changes as fixture text, in the order given.
pub fn serialize_changes(changes: &Vec<FixtureChange>) -> (output: String)
    ensures
        output@ == spec_serialize_changes(changes.deep_view(), changes.len() as int),
{
    let mut output = String::new();
    let ghost views = changes.deep_view();
    let mut i: usize = 0;
    while i < changes.len()
        invariant
            i <= changes.len(),
            views == changes.deep_view(),
            output@ == spec_serialize_changes(views, i as int),
        decreases changes.len() - i,
    {
        let ghost before = output@;
        match &changes[i].change {
            FileChange::Change(content) => {
                output.append("//-++ ");
                output.append(changes[i].path.as_str());
                output.append("\n");
                output.append(content.as_str());
                output.append("\n");
                proof {
                    assert(output@ =~= before + spec_serialize_change(views[i as int]));
                }
            },
            FileChange::Delete => {
                output.append("//-xx ");
                output.append(changes[i].path.as_str());
                output.append("\n");
                proof {
                    assert(output@ =~= before + spec_serialize_change(views[i as int]));
                }
            },
        }
        i += 1;
    }
    output
}

/// Writes files and changes as fixture text: the files first, then the
/// changes, each in the order given.
pub fn serialize(files: &Vec<FixtureFile>, changes: &Vec<FixtureChange>) -> (output: String)
    ensures
        output@ == spec_serialize_files(files.deep_view(), files.len() as int)
            + spec_serialize_changes(changes.deep_view(), changes.len() as int),
{
    let mut output = String::new();
    let ghost views = files.deep_view();
    let mut i: usize = 0;
    while i < files.len()
        invariant
            i <= files.len(),
            views == files.deep_view(),
            output@ == spec_serialize_files(views, i as int),
        decreases files.len() - i,
    {
        output.append("//- ");
        output.append(files[i].path.as_str());
        output.append("\n");
        output.append(files[i].content.as_str());
        output.append("\n");
        i += 1;
    }
    let rest = serialize_changes(changes);
    output.append(rest.as_str());
    output
}

} // verus!

verus! {

/// No two of the paths are the same.
pub open spec fn paths_distinct(paths: Seq<Seq<char>>) -> bool {
    forall|i: int, j: int| 0 <= i < j < paths.len() ==> paths[i] != paths[j]
}

/// `place` is one of the first `count` places.
pub open spec fn place_below(place: int, count: int) -> bool {
    0 <= place < count
}

/// `order` names every place of `paths` once, in the ascending order of
/// the paths at the places.
pub open spec fn is_ascending_order(paths: Seq<Seq<char>>, order: Seq<usize>) -> bool {
    &&& order.len() == paths.len()
    &&& forall|i: int| 0 <= i < order.len() ==> #[trigger] order[i] < paths.len()
    &&& forall|i: int, j: int|
        0 <= i < j < order.len() ==> text_order(
            paths[#[trigger] order[i] as int],
            paths[#[trigger] order[j] as int],
        ) == Order::Before
    &&& forall|place: int| #[trigger]
        place_below(place, paths.len() as int) ==> exists|i: int|
            0 <= i < order.len() && #[trigger] order[i] == place
}

/// The places of `paths` in the ascending order of the paths.
pub fn ascending_order(paths: &Vec<String>) -> (order: Vec<usize>)
    requires
        paths_distinct(paths.deep_view()),
    ensures
        is_ascending_order(paths.deep_view(), order@),
{
    let ghost texts = paths.deep_view();
    let mut order: Vec<usize> = Vec::new();
    let mut k: usize = 0;
    while k < paths.len()
        invariant
            k <= paths.len(),
            texts == paths.deep_view(),
            paths_distinct(texts),
            order.len() == k,
            forall|i: int| 0 <= i < order.len() ==> #[trigger] order[i] < k,
            forall|i: int, j: int|
                0 <= i < j < order.len() ==> text_order(
                    texts[#[trigger] order[i] as int],
                    texts[#[trigger] order[j] as int],
                ) == Order::Before,
            forall|place: int| #[trigger]
                place_below(place, k as int) ==> exists|i: int|
                    0 <= i < order.len() && #[trigger] order[i] == place,
        decreases paths.len() - k,
    {
        let mut pos: usize = k;
        while pos > 0 && matches!(
            compare_texts(paths[order[pos - 1]].as_str(), paths[k].as_str()),
            Order::After
        )
            invariant
                pos <= k,
                k < paths.len(),
                order.len() == k,
                texts == paths.deep_view(),
                forall|i: int| 0 <= i < order.len() ==> #[trigger] order[i] < k,
                forall|j: int|
                    pos <= j < k ==> text_order(texts[k as int], texts[#[trigger] order[j] as int])
                        == Order::Before,
            decreases pos,
        {
            proof {
                crate::source::lemma_text_order_flip(
                    texts[order[pos - 1] as int],
                    texts[k as int],
                );
            }
            pos -= 1;
        }
        let ghost before = order@;
        proof {
            if pos > 0 {
                let last = before[pos - 1] as int;
                crate::source::law_text_order_same(texts[last], texts[k as int]);
                assert(text_order(texts[last], texts[k as int]) == Order::Before);
                assert forall|i: int| 0 <= i < pos implies text_order(
                    texts[#[trigger] before[i] as int],
                    texts[k as int],
                ) == Order::Before by {
                    if i < pos - 1 {
                        crate::source::lemma_text_order_transitive(
                            texts[before[i] as int],
                            texts[last],
                            texts[k as int],
                        );
                    }
                }
            }
        }
        order.insert(pos, k);
        proof {
            let after = order@;
            assert forall|i: int| 0 <= i < after.len() implies #[trigger] after[i] < k + 1 by {
                if i < pos {
                    assert(after[i] == before[i]);
                } else if i > pos {
                    assert(after[i] == before[i - 1]);
                }
            }
            assert forall|i: int, j: int| 0 <= i < j < after.len() implies text_order(
                texts[#[trigger] after[i] as int],
                texts[#[trigger] after[j] as int],
            ) == Order::Before by {
                if j < pos {
                    assert(after[i] == before[i] && after[j] == before[j]);
                } else if j == pos {
                    assert(after[i] == before[i]);
                } else if i < pos {
                    assert(after[i] == before[i] && after[j] == before[j - 1]);
                } else if i == pos {
                    assert(after[j] == before[j - 1]);
                } else {
                    assert(after[i] == before[i - 1] && after[j] == before[j - 1]);
                }
            }
            assert forall|place: int| #[trigger] place_below(place, k + 1) implies exists|i: int|
                0 <= i < after.len() && #[trigger] after[i] == place by {
                if place == k {
                    assert(after[pos as int] == place);
                } else {
                    assert(place_below(place, k as int));
                    let at = choose|at: int| 0 <= at < before.len() && before[at] == place;
                    if at < pos {
                        assert(after[at] == place);
                    } else {
                        assert(after[at + 1] == place);
                    }
                }
            }
        }
        k += 1;
    }
    order
}

/// `listing` holds the files of `entries`, each once, in the ascending
/// order of their paths.
pub open spec fn is_file_listing(
    listing: Seq<FixtureFileView>,
    entries: Map<Seq<char>, Seq<char>>,
) -> bool {
    &&& forall|i: int, j: int|
        0 <= i < j < listing.len() ==> text_order(
            (#[trigger] listing[i]).path,
            (#[trigger] listing[j]).path,
        ) == Order::Before
    &&& forall|i: int|
        0 <= i < listing.len() ==> entries.contains_key((#[trigger] listing[i]).path)
            && entries[listing[i].path] == listing[i].content
    &&& forall|path: Seq<char>|
        entries.contains_key(path) ==> exists|i: int|
            0 <= i < listing.len() && (#[trigger] listing[i]).path == path
}

/// `listing` holds the changes of `entries`, each once, in the ascending
/// order of their paths.
pub open spec fn is_change_listing(
    listing: Seq<FixtureChangeView>,
    entries: Map<Seq<char>, Option<Seq<char>>>,
) -> bool {
    &&& forall|i: int, j: int|
        0 <= i < j < listing.len() ==> text_order(
            (#[trigger] listing[i]).path,
            (#[trigger] listing[j]).path,
        ) == Order::Before
    &&& forall|i: int|
        0 <= i < listing.len() ==> entries.contains_key((#[trigger] listing[i]).path)
            && entries[listing[i].path] == listing[i].change
    &&& forall|path: Seq<char>|
        entries.contains_key(path) ==> exists|i: int|
            0 <= i < listing.len() && (#[trigger] listing[i]).path == path
}

/// The files of a map in the ascending order of their paths.
pub fn sorted_files(files: &FnvHashMap<String, String>) -> (sorted: Vec<FixtureFile>)
    ensures
        is_file_listing(sorted.deep_view(), file_entries(*files)),
{
    let listed = list_files(files);
    let mut paths: Vec<String> = Vec::new();
    let mut p: usize = 0;
    while p < listed.len()
        invariant
            p <= listed.len(),
            paths.len() == p,
            forall|i: int| 0 <= i < p ==> paths[i]@ == listed[i].path@,
        decreases listed.len() - p,
    {
        paths.push(listed[p].path.clone());
        p += 1;
    }
    proof {
        assert forall|i: int, j: int| 0 <= i < j < paths.len() implies paths.deep_view()[i]
            != paths.deep_view()[j] by {
            assert(listed[i].path@ != listed[j].path@);
        }
    }
    let order = ascending_order(&paths);
    let ghost texts = paths.deep_view();
    let mut sorted: Vec<FixtureFile> = Vec::new();
    let mut i: usize = 0;
    while i < order.len()
        invariant
            i <= order.len(),
            sorted.len() == i,
            listed.len() == paths.len(),
            texts == paths.deep_view(),
            is_ascending_order(texts, order@),
            forall|j: int| 0 <= j < paths.len() ==> texts[j] == listed[j].path@,
            forall|j: int|
                0 <= j < i ==> sorted[j].deep_view() == listed[order[j] as int].deep_view(),
        decreases order.len() - i,
    {
        let place = order[i];
        sorted.push(fixture_file(&listed[place].path, &listed[place].content));
        i += 1;
    }
    proof {
        let listing = sorted.deep_view();
        let entries = file_entries(*files);
        assert forall|i: int, j: int| 0 <= i < j < listing.len() implies text_order(
            (#[trigger] listing[i]).path,
            (#[trigger] listing[j]).path,
        ) == Order::Before by {
            assert(listing[i].path == texts[order[i] as int]);
            assert(listing[j].path == texts[order[j] as int]);
        }
        assert forall|i: int| 0 <= i < listing.len() implies entries.contains_key(
            (#[trigger] listing[i]).path,
        ) && entries[listing[i].path] == listing[i].content by {
            let place = order[i] as int;
            assert(listing[i] == listed[place].deep_view());
            assert(entries.contains_key(listed[place].path@));
        }
        assert forall|path: Seq<char>| entries.contains_key(path) implies exists|i: int|
            0 <= i < listing.len() && (#[trigger] listing[i]).path == path by {
            let place = choose|place: int| 0 <= place < listed.len() && listed[place].path@ == path;
            assert(place_below(place, texts.len() as int));
            let at = choose|at: int| 0 <= at < order.len() && order[at] == place;
            assert(listing[at].path == path);
        }
    }
    sorted
}

/// The changes of a map in the ascending order of their paths.
pub fn sorted_changes(changes: &FnvHashMap<String, FileChange>) -> (sorted: Vec<FixtureChange>)
    ensures
        is_change_listing(sorted.deep_view(), change_entries(*changes)),
{
    let listed = list_changes(changes);
    let mut paths: Vec<String> = Vec::new();
    let mut p: usize = 0;
    while p < listed.len()
        invariant
            p <= listed.len(),
            paths.len() == p,
            forall|i: int| 0 <= i < p ==> paths[i]@ == listed[i].path@,
        decreases listed.len() - p,
    {
        paths.push(listed[p].path.clone());
        p += 1;
    }
    proof {
        assert forall|i: int, j: int| 0 <= i < j < paths.len() implies paths.deep_view()[i]
            != paths.deep_view()[j] by {
            assert(listed[i].path@ != listed[j].path@);
        }
    }
    let order = ascending_order(&paths);
    let ghost texts = paths.deep_view();
    let mut sorted: Vec<FixtureChange> = Vec::new();
    let mut i: usize = 0;
    while i < order.len()
        invariant
            i <= order.len(),
            sorted.len() == i,
            listed.len() == paths.len(),
            texts == paths.deep_view(),
            is_ascending_order(texts, order@),
            forall|j: int| 0 <= j < paths.len() ==> texts[j] == listed[j].path@,
            forall|j: int|
                0 <= j < i ==> sorted[j].deep_view() == listed[order[j] as int].deep_view(),
        decreases order.len() - i,
    {
        let place = order[i];
        sorted.push(fixture_change(&listed[place].path, &listed[place].change));
        i += 1;
    }
    proof {
        let listing = sorted.deep_view();
        let entries = change_entries(*changes);
        assert forall|i: int, j: int| 0 <= i < j < listing.len() implies text_order(
            (#[trigger] listing[i]).path,
            (#[trigger] listing[j]).path,
        ) == Order::Before by {
            assert(listing[i].path == texts[order[i] as int]);
            assert(listing[j].path == texts[order[j] as int]);
        }
        assert forall|i: int| 0 <= i < listing.len() implies entries.contains_key(
            (#[trigger] listing[i]).path,
        ) && entries[listing[i].path] == listing[i].change by {
            let place = order[i] as int;
            assert(listing[i] == listed[place].deep_view());
            assert(entries.contains_key(listed[place].path@));
        }
        assert forall|path: Seq<char>| entries.contains_key(path) implies exists|i: int|
            0 <= i < listing.len() && (#[trigger] listing[i]).path == path by {
            let place = choose|place: int| 0 <= place < listed.len() && listed[place].path@ == path;
            assert(place_below(place, texts.len() as int));
            let at = choose|at: int| 0 <= at < order.len() && order[at] == place;
            assert(listing[at].path == path);
        }
    }
    sorted
}

} // verus!

verus! {

/// The files of a project and the changes made to them, by path. Paths
/// are texts; two paths are the same where their texts are.
pub struct ProjectFixture {
    files: FnvHashMap<String, String>,
    file_changes: FnvHashMap<String, FileChange>,
}

/// The map that holds the first `count` of `files`; a later file takes
/// the place of an earlier one of the same path.
pub open spec fn spec_files_of(files: Seq<FixtureFileView>, count: int) -> Map<Seq<char>, Seq<char>>
    decreases count,
{
    if count <= 0 {
        Map::empty()
    } else {
        spec_files_of(files, count - 1).insert(files[count - 1].path, files[count - 1].content)
    }
}

/// `start` with the first `count` of `changes` as changed contents.
pub open spec fn spec_with_changes(
    start: Map<Seq<char>, Option<Seq<char>>>,
    changes: Seq<FixtureFileView>,
    count: int,
) -> Map<Seq<char>, Option<Seq<char>>>
    decreases count,
{
    if count <= 0 {
        start
    } else {
        spec_with_changes(start, changes, count - 1).insert(
            changes[count - 1].path,
            Some(changes[count - 1].content),
        )
    }
}

/// `start` with the first `count` of `deletions` as deleted files.
pub open spec fn spec_with_deletions(
    start: Map<Seq<char>, Option<Seq<char>>>,
    deletions: Seq<Seq<char>>,
    count: int,
) -> Map<Seq<char>, Option<Seq<char>>>
    decreases count,
{
    if count <= 0 {
        start
    } else {
        spec_with_deletions(start, deletions, count - 1).insert(deletions[count - 1], None)
    }
}

/// `entries` without the first `count` of `paths`.
pub open spec fn spec_without_paths(
    entries: Map<Seq<char>, Seq<char>>,
    paths: Seq<Seq<char>>,
    count: int,
) -> Map<Seq<char>, Seq<char>>
    decreases count,
{
    if count <= 0 {
        entries
    } else {
        spec_without_paths(entries, paths, count - 1).remove(paths[count - 1])
    }
}

/// The files after the changes: a changed file has its new content, a
/// deleted file is gone, and every other file is as it was.
pub open spec fn spec_apply_changes(
    files: Map<Seq<char>, Seq<char>>,
    changes: Map<Seq<char>, Option<Seq<char>>>,
) -> Map<Seq<char>, Seq<char>> {
    Map::new(
        |path: Seq<char>|
            if changes.contains_key(path) {
                changes[path] is Some
            } else {
                files.contains_key(path)
            },
        |path: Seq<char>|
            if changes.contains_key(path) {
                changes[path]->0
            } else {
                files[path]
            },
    )
}

/// The path leads out of the directory: it is `..` or begins with `../`.
pub open spec fn spec_leads_outside(path: Seq<char>) -> bool {
    path == ".."@ || spec_starts_with(path, "../"@)
}

/// The changes that lead from `files` to `current`: every file of
/// `current` that `files` does not hold with the same content is changed
/// to its content, and every file of `files` that `current` lacks is
/// deleted, unless its path leads out of the directory.
pub open spec fn spec_changes_between(
    files: Map<Seq<char>, Seq<char>>,
    current: Map<Seq<char>, Seq<char>>,
) -> Map<Seq<char>, Option<Seq<char>>> {
    Map::new(
        |path: Seq<char>|
            if current.contains_key(path) {
                !(files.contains_key(path) && files[path] == current[path])
            } else {
                files.contains_key(path) && !spec_leads_outside(path)
            },
        |path: Seq<char>|
            if current.contains_key(path) {
                Some(current[path])
            } else {
                None
            },
    )
}

/// The paths of files, in order.
pub open spec fn file_paths(files: Seq<FixtureFileView>) -> Seq<Seq<char>> {
    Seq::new(files.len(), |i: int| files[i].path)
}

/// The paths of changes, in order.
pub open spec fn change_paths(changes: Seq<FixtureChangeView>) -> Seq<Seq<char>> {
    Seq::new(changes.len(), |i: int| changes[i].path)
}

/// `path` is among the first `count` of `paths`.
pub open spec fn path_listed(paths: Seq<Seq<char>>, count: int, path: Seq<char>) -> bool {
    exists|j: int| 0 <= j < count && j < paths.len() && paths[j] == path
}

/// A path is among the first paths and one more where it is that one or
/// among the first.
pub proof fn lemma_path_listed_step(paths: Seq<Seq<char>>, count: int, path: Seq<char>)
    requires
        0 <= count < paths.len(),
    ensures
        path_listed(paths, count + 1, path) <==> (path == paths[count] || path_listed(
            paths,
            count,
            path,
        )),
{
    if path_listed(paths, count + 1, path) {
        let at = choose|at: int| 0 <= at < count + 1 && at < paths.len() && paths[at] == path;
        if at < count {
            assert(path_listed(paths, count, path));
        }
    }
    if path == paths[count] {
        assert(path_listed(paths, count + 1, path));
    }
    if path_listed(paths, count, path) {
        let at = choose|at: int| 0 <= at < count && at < paths.len() && paths[at] == path;
        assert(0 <= at < count + 1 && paths[at] == path);
    }
}

/// Whether the path leads out of the directory.
pub fn leads_outside(path: &str) -> (outside: bool)
    ensures
        outside == spec_leads_outside(path@),
{
    crate::source::texts_equal(path, "..") || starts_with(path, "../")
}

impl ProjectFixture {
    /// The files of the fixture: for each path its content.
    pub closed spec fn files_view(&self) -> Map<Seq<char>, Seq<char>> {
        file_entries(self.files)
    }

    /// The changes of the fixture: for each path the new content, or
    /// nothing for a deleted file.
    pub closed spec fn changes_view(&self) -> Map<Seq<char>, Option<Seq<char>>> {
        change_entries(self.file_changes)
    }

    /// A fixture of the given files and changes.
    pub fn new(files: FnvHashMap<String, String>, file_changes: FnvHashMap<String, FileChange>) -> (fixture:
        ProjectFixture)
        ensures
            fixture.files_view() == file_entries(files),
            fixture.changes_view() == change_entries(file_changes),
    {
        ProjectFixture { files, file_changes }
    }

    /// Reads a fixture text. Where a path occurs more than once, the
    /// last file counts among the files and the last change among the
    /// changes, and a deletion counts over every change.
    pub fn deserialize(input: &str) -> (fixture: ProjectFixture)
        ensures
            fixture.files_view() == spec_files_of(
                spec_parse_fixture(input@).files,
                spec_parse_fixture(input@).files.len() as int,
            ),
            fixture.changes_view() == spec_with_deletions(
                spec_with_changes(
                    Map::empty(),
                    spec_parse_fixture(input@).file_changes,
                    spec_parse_fixture(input@).file_changes.len() as int,
                ),
                spec_parse_fixture(input@).file_deletions,
                spec_parse_fixture(input@).file_deletions.len() as int,
            ),
    {
        let ParsedFixture { files: parsed_files, file_changes: parsed_changes, file_deletions } =
            parse_fixture(input);
        let ghost file_views = parsed_files.deep_view();
        let ghost change_views = parsed_changes.deep_view();
        let ghost deletion_views = file_deletions.deep_view();
        let mut files = new_files();
        let mut i: usize = 0;
        while i < parsed_files.len()
            invariant
                i <= parsed_files.len(),
                file_views == parsed_files.deep_view(),
                file_entries(files) == spec_files_of(file_views, i as int),
            decreases parsed_files.len() - i,
        {
            insert_file(&mut files, parsed_files[i].path.clone(), parsed_files[i].content.clone());
            i += 1;
        }
        let mut file_changes = new_changes();
        let mut j: usize = 0;
        while j < parsed_changes.len()
            invariant
                j <= parsed_changes.len(),
                change_views == parsed_changes.deep_view(),
                change_entries(file_changes) == spec_with_changes(
                    Map::empty(),
                    change_views,
                    j as int,
                ),
            decreases parsed_changes.len() - j,
        {
            insert_change(
                &mut file_changes,
                parsed_changes[j].path.clone(),
                FileChange::Change(parsed_changes[j].content.clone()),
            );
            j += 1;
        }
        let ghost changed = change_entries(file_changes);
        let mut k: usize = 0;
        while k < file_deletions.len()
            invariant
                k <= file_deletions.len(),
                deletion_views == file_deletions.deep_view(),
                change_entries(file_changes) == spec_with_deletions(
                    changed,
                    deletion_views,
                    k as int,
                ),
            decreases file_deletions.len() - k,
        {
            insert_change(&mut file_changes, file_deletions[k].clone(), FileChange::Delete);
            k += 1;
        }
        ProjectFixture { files, file_changes }
    }

    /// Writes the fixture as text: the files in the ascending order of
    /// their paths, then the changes in the ascending order of theirs.
    pub fn serialize(&self) -> (output: String)
        ensures
            exists|files: Seq<FixtureFileView>, changes: Seq<FixtureChangeView>|
                #![trigger is_file_listing(files, self.files_view()), is_change_listing(changes, self.changes_view())]
                is_file_listing(files, self.files_view()) && is_change_listing(
                    changes,
                    self.changes_view(),
                ) && output@ == spec_serialize_files(files, files.len() as int)
                    + spec_serialize_changes(changes, changes.len() as int),
    {
        let files = sorted_files(&self.files);
        let changes = sorted_changes(&self.file_changes);
        let output = serialize(&files, &changes);
        proof {
            let listed_files = files.deep_view();
            let listed_changes = changes.deep_view();
            assert(is_file_listing(listed_files, self.files_view()) && is_change_listing(
                listed_changes,
                self.changes_view(),
            ) && output@ == spec_serialize_files(listed_files, listed_files.len() as int)
                + spec_serialize_changes(listed_changes, listed_changes.len() as int));
        }
        output
    }

    /// Writes the changes of the fixture as text, in the ascending order
    /// of their paths.
    pub fn serialize_changes(&self) -> (output: String)
        ensures
            exists|changes: Seq<FixtureChangeView>|
                #![trigger is_change_listing(changes, self.changes_view())]
                is_change_listing(changes, self.changes_view()) && output@
                    == spec_serialize_changes(changes, changes.len() as int),
    {
        let changes = sorted_changes(&self.file_changes);
        let output = serialize_changes(&changes);
        proof {
            let listed_changes = changes.deep_view();
            assert(is_change_listing(listed_changes, self.changes_view()) && output@
                == spec_serialize_changes(listed_changes, listed_changes.len() as int));
        }
        output
    }

    /// Takes the files that `other` holds out of this fixture.
    #[verifier::loop_isolation(false)]
    pub fn remove_files(&mut self, other: ProjectFixture)
        ensures
            final(self).files_view() == old(self).files_view().remove_keys(
                other.files_view().dom(),
            ),
            final(self).changes_view() == old(self).changes_view(),
    {
        let listed = list_files(&other.files);
        let ghost start = file_entries(self.files);
        let ghost theirs = file_entries(other.files);
        let mut i: usize = 0;
        while i < listed.len()
            invariant
                i <= listed.len(),
                self.file_changes == old(self).file_changes,
                forall|path: Seq<char>|
                    #![trigger file_entries(self.files).contains_key(path)]
                    #![trigger start.contains_key(path)]
                    file_entries(self.files).contains_key(path) <==> (start.contains_key(path)
                        && forall|j: int| 0 <= j < i ==> (#[trigger] listed[j]).path@ != path),
                forall|path: Seq<char>|
                    #![trigger file_entries(self.files)[path]]
                    file_entries(self.files).contains_key(path) ==> file_entries(self.files)[path]
                        == start[path],
            decreases listed.len() - i,
        {
            remove_file(&mut self.files, &listed[i].path);
            i += 1;
        }
        proof {
            let target = start.remove_keys(theirs.dom());
            let now = file_entries(self.files);
            assert forall|path: Seq<char>|
                #![trigger now.dom().contains(path)]
                #![trigger target.dom().contains(path)]
                now.dom().contains(path) == target.dom().contains(path) by {
                if theirs.contains_key(path) {
                    let at = choose|at: int| 0 <= at < listed.len() && listed[at].path@ == path;
                    assert(listed[at].path@ == path);
                    assert(!now.contains_key(path));
                } else if start.contains_key(path) {
                    assert forall|j: int| 0 <= j < listed.len() implies (
                    #[trigger] listed[j]).path@ != path by {
                        assert(theirs.contains_key(listed[j].path@));
                    }
                    assert(now.contains_key(path));
                } else {
                    assert(!now.contains_key(path));
                }
            }
            assert(now =~= target);
        }
    }

    /// Takes the files at the paths `keys` out of this fixture.
    pub fn remove_files_by_keys(&mut self, keys: &Vec<String>)
        ensures
            final(self).files_view() == spec_without_paths(
                old(self).files_view(),
                keys.deep_view(),
                keys.len() as int,
            ),
            final(self).changes_view() == old(self).changes_view(),
    {
        let ghost paths = keys.deep_view();
        let mut i: usize = 0;
        while i < keys.len()
            invariant
                i <= keys.len(),
                paths == keys.deep_view(),
                self.file_changes == old(self).file_changes,
                file_entries(self.files) == spec_without_paths(
                    file_entries(old(self).files),
                    paths,
                    i as int,
                ),
            decreases keys.len() - i,
        {
            remove_file(&mut self.files, &keys[i]);
            i += 1;
        }
    }

    /// The map of the files.
    pub fn files(&self) -> (files: &FnvHashMap<String, String>)
        ensures
            file_entries(*files) == self.files_view(),
    {
        &self.files
    }

    /// The map of the changes.
    pub fn file_changes(&self) -> (changes: &FnvHashMap<String, FileChange>)
        ensures
            change_entries(*changes) == self.changes_view(),
    {
        &self.file_changes
    }

    /// A fixture with the files of this one, and with the changes that
    /// lead from them to the files of `current`.
    #[verifier::loop_isolation(false)]
    pub fn with_changes_from(&self, current: &ProjectFixture) -> (fixture: ProjectFixture)
        ensures
            fixture.files_view() == self.files_view(),
            fixture.changes_view() == spec_changes_between(
                self.files_view(),
                current.files_view(),
            ),
    {
        let ghost mine = file_entries(self.files);
        let ghost theirs = file_entries(current.files);
        let ghost target = spec_changes_between(mine, theirs);
        let mut file_changes = new_changes();
        let found = list_files(&current.files);
        let ghost found_paths = file_paths(found.deep_view());
        let mut i: usize = 0;
        // New or changed files.
        while i < found.len()
            invariant
                i <= found.len(),
                found_paths == file_paths(found.deep_view()),
                forall|path: Seq<char>|
                    #![trigger change_entries(file_changes).contains_key(path)]
                    change_entries(file_changes).contains_key(path) <==> (target.contains_key(path)
                        && path_listed(found_paths, i as int, path)),
                forall|path: Seq<char>|
                    #![trigger change_entries(file_changes)[path]]
                    change_entries(file_changes).contains_key(path) ==> change_entries(
                        file_changes,
                    )[path] == target[path],
            decreases found.len() - i,
        {
            let file = &found[i];
            let same = match get_file(&self.files, &file.path) {
                Some(content) => crate::source::texts_equal(content.as_str(), file.content.as_str()),
                None => false,
            };
            proof {
                assert(theirs.contains_key(found[i as int].path@) && theirs[found[i as int].path@]
                    == found[i as int].content@);
                assert forall|path: Seq<char>| #[trigger]
                    path_listed(found_paths, i + 1, path) <==> (path == found_paths[i as int]
                        || path_listed(found_paths, i as int, path)) by {
                    lemma_path_listed_step(found_paths, i as int, path);
                }
            }
            if !same {
                insert_change(
                    &mut file_changes,
                    file.path.clone(),
                    FileChange::Change(file.content.clone()),
                );
            }
            i += 1;
        }
        let known = list_files(&self.files);
        let ghost known_paths = file_paths(known.deep_view());
        proof {
            assert forall|path: Seq<char>| theirs.contains_key(path) <==> #[trigger] path_listed(
                found_paths,
                found.len() as int,
                path,
            ) by {
                if theirs.contains_key(path) {
                    let at = choose|at: int| 0 <= at < found.len() && found[at].path@ == path;
                    assert(found_paths[at] == path);
                }
                if path_listed(found_paths, found.len() as int, path) {
                    let at = choose|at: int| 0 <= at < found.len() && found_paths[at] == path;
                    assert(theirs.contains_key(found[at].path@));
                }
            }
        }
        let mut k: usize = 0;
        // Deleted files.
        while k < known.len()
            invariant
                k <= known.len(),
                known_paths == file_paths(known.deep_view()),
                forall|path: Seq<char>|
                    #![trigger change_entries(file_changes).contains_key(path)]
                    change_entries(file_changes).contains_key(path) <==> (target.contains_key(path)
                        && (theirs.contains_key(path) || path_listed(known_paths, k as int, path))),
                forall|path: Seq<char>|
                    #![trigger change_entries(file_changes)[path]]
                    change_entries(file_changes).contains_key(path) ==> change_entries(
                        file_changes,
                    )[path] == target[path],
            decreases known.len() - k,
        {
            let path = &known[k].path;
            proof {
                assert(mine.contains_key(known[k as int].path@));
                assert forall|other: Seq<char>| #[trigger]
                    path_listed(known_paths, k + 1, other) <==> (other == known_paths[k as int]
                        || path_listed(known_paths, k as int, other)) by {
                    lemma_path_listed_step(known_paths, k as int, other);
                }
            }
            if !leads_outside(path.as_str()) && get_file(&current.files, path).is_none() {
                insert_change(&mut file_changes, path.clone(), FileChange::Delete);
            }
            k += 1;
        }
        proof {
            let now = change_entries(file_changes);
            assert forall|path: Seq<char>|
                #![trigger now.dom().contains(path)]
                #![trigger target.dom().contains(path)]
                now.dom().contains(path) == target.dom().contains(path) by {
                if target.contains_key(path) && !theirs.contains_key(path) {
                    let at = choose|at: int| 0 <= at < known.len() && known[at].path@ == path;
                    assert(known_paths[at] == path);
                    assert(path_listed(known_paths, known.len() as int, path));
                    assert(now.contains_key(path));
                }
            }
            assert(now =~= target);
        }
        ProjectFixture { files: clone_files(&self.files), file_changes }
    }

    /// A fixture with the files that this one has after its changes, and
    /// without changes.
    #[verifier::loop_isolation(false)]
    pub fn with_file_changes_applied(&self) -> (fixture: ProjectFixture)
        ensures
            fixture.files_view() == spec_apply_changes(self.files_view(), self.changes_view()),
            fixture.changes_view() == Map::<Seq<char>, Option<Seq<char>>>::empty(),
    {
        let ghost files = file_entries(self.files);
        let ghost changes = change_entries(self.file_changes);
        let ghost target = spec_apply_changes(files, changes);
        let mut merged_files = clone_files(&self.files);
        let listed = list_changes(&self.file_changes);
        let ghost paths = change_paths(listed.deep_view());
        let mut i: usize = 0;
        while i < listed.len()
            invariant
                i <= listed.len(),
                paths == change_paths(listed.deep_view()),
                forall|path: Seq<char>|
                    #![trigger file_entries(merged_files).contains_key(path)]
                    file_entries(merged_files).contains_key(path) <==> (if path_listed(
                        paths,
                        i as int,
                        path,
                    ) {
                        target.contains_key(path)
                    } else {
                        files.contains_key(path)
                    }),
                forall|path: Seq<char>|
                    #![trigger file_entries(merged_files)[path]]
                    file_entries(merged_files).contains_key(path) ==> file_entries(
                        merged_files,
                    )[path] == (if path_listed(paths, i as int, path) {
                        target[path]
                    } else {
                        files[path]
                    }),
            decreases listed.len() - i,
        {
            proof {
                let mine = listed[i as int].path@;
                assert(changes.contains_key(mine) && changes[mine] == change_view(
                    listed[i as int].change,
                ));
                assert forall|path: Seq<char>| #[trigger]
                    path_listed(paths, i + 1, path) <==> (path == paths[i as int] || path_listed(
                        paths,
                        i as int,
                        path,
                    )) by {
                    lemma_path_listed_step(paths, i as int, path);
                }
            }
            match &listed[i].change {
                FileChange::Change(content) => {
                    insert_file(&mut merged_files, listed[i].path.clone(), content.clone());
                },
                FileChange::Delete => {
                    remove_file(&mut merged_files, &listed[i].path);
                },
            }
            i += 1;
        }
        proof {
            let now = file_entries(merged_files);
            assert forall|path: Seq<char>|
                #![trigger now.dom().contains(path)]
                #![trigger target.dom().contains(path)]
                now.dom().contains(path) == target.dom().contains(path) && (now.dom().contains(
                    path,
                ) ==> now[path] == target[path]) by {
                if changes.contains_key(path) {
                    let at = choose|at: int| 0 <= at < listed.len() && listed[at].path@ == path;
                    assert(paths[at] == path);
                    assert(path_listed(paths, listed.len() as int, path));
                } else {
                    if path_listed(paths, listed.len() as int, path) {
                        let at = choose|at: int| 0 <= at < listed.len() && paths[at] == path;
                        assert(changes.contains_key(listed[at].path@));
                    }
                }
            }
            assert(now =~= target);
        }
        ProjectFixture { files: merged_files, file_changes: new_changes() }
    }

    /// Puts `change` under `path` among the changes.
    pub fn add_file_change(&mut self, path: String, change: FileChange)
        ensures
            final(self).changes_view() == old(self).changes_view().insert(
                path@,
                change_view(change),
            ),
            final(self).files_view() == old(self).files_view(),
    {
        insert_change(&mut self.file_changes, path, change);
    }
}

} // verus!

verus! {

/// `paths` holds the paths of `domain`, each once, in ascending order.
pub open spec fn is_path_listing(paths: Seq<Seq<char>>, domain: Set<Seq<char>>) -> bool {
    &&& forall|i: int, j: int|
        0 <= i < j < paths.len() ==> text_order(#[trigger] paths[i], #[trigger] paths[j])
            == Order::Before
    &&& forall|i: int| 0 <= i < paths.len() ==> domain.contains(#[trigger] paths[i])
    &&& forall|path: Seq<char>|
        domain.contains(path) ==> exists|i: int| 0 <= i < paths.len() && #[trigger] paths[i] == path
}

/// A set of paths has one listing only.
pub proof fn lemma_path_listing_is_unique(
    first: Seq<Seq<char>>,
    second: Seq<Seq<char>>,
    domain: Set<Seq<char>>,
)
    requires
        is_path_listing(first, domain),
        is_path_listing(second, domain),
    ensures
        first == second,
    decreases first.len(),
{
    if first.len() == 0 {
        if second.len() > 0 {
            assert(domain.contains(second[0]));
            let at = choose|at: int| 0 <= at < first.len() && first[at] == second[0];
        }
        assert(first =~= second);
    } else if second.len() == 0 {
        assert(domain.contains(first[0]));
        let at = choose|at: int| 0 <= at < second.len() && second[at] == first[0];
    } else {
        let last = first.last();
        let other = second.last();
        assert(domain.contains(last) && domain.contains(other));
        let in_second = choose|at: int| 0 <= at < second.len() && second[at] == last;
        let in_first = choose|at: int| 0 <= at < first.len() && first[at] == other;
        crate::source::law_text_order_same(last, last);
        if in_second < second.len() - 1 {
            assert(text_order(second[in_second], second[second.len() - 1]) == Order::Before);
            if in_first < first.len() - 1 {
                assert(text_order(first[in_first], first[first.len() - 1]) == Order::Before);
                crate::source::lemma_text_order_transitive(last, other, last);
            }
        }
        assert(last == other);
        let rest = domain.remove(last);
        let front = first.drop_last();
        let back = second.drop_last();
        assert forall|i: int| 0 <= i < front.len() implies rest.contains(#[trigger] front[i]) by {
            assert(front[i] == first[i]);
            assert(text_order(first[i], first[first.len() - 1]) == Order::Before);
        }
        assert forall|i: int| 0 <= i < back.len() implies rest.contains(#[trigger] back[i]) by {
            assert(back[i] == second[i]);
            assert(text_order(second[i], second[second.len() - 1]) == Order::Before);
        }
        assert forall|path: Seq<char>| rest.contains(path) implies exists|i: int|
            0 <= i < front.len() && #[trigger] front[i] == path by {
            let at = choose|at: int| 0 <= at < first.len() && first[at] == path;
            assert(front[at] == path);
        }
        assert forall|path: Seq<char>| rest.contains(path) implies exists|i: int|
            0 <= i < back.len() && #[trigger] back[i] == path by {
            let at = choose|at: int| 0 <= at < second.len() && second[at] == path;
            assert(back[at] == path);
        }
        assert forall|i: int, j: int| 0 <= i < j < front.len() implies text_order(
            #[trigger] front[i],
            #[trigger] front[j],
        ) == Order::Before by {
            assert(front[i] == first[i] && front[j] == first[j]);
        }
        assert forall|i: int, j: int| 0 <= i < j < back.len() implies text_order(
            #[trigger] back[i],
            #[trigger] back[j],
        ) == Order::Before by {
            assert(back[i] == second[i] && back[j] == second[j]);
        }
        lemma_path_listing_is_unique(front, back, rest);
        assert(first =~= front.push(last));
        assert(second =~= back.push(other));
    }
}

/// The files of a map have one listing only: what `serialize` writes is
/// determined by what the fixture holds.
pub proof fn law_file_listing_is_unique(
    first: Seq<FixtureFileView>,
    second: Seq<FixtureFileView>,
    entries: Map<Seq<char>, Seq<char>>,
)
    requires
        is_file_listing(first, entries),
        is_file_listing(second, entries),
    ensures
        first == second,
{
    let a = file_paths(first);
    let b = file_paths(second);
    assert(is_path_listing(a, entries.dom())) by {
        assert forall|path: Seq<char>| entries.dom().contains(path) implies exists|i: int|
            0 <= i < a.len() && #[trigger] a[i] == path by {
            let at = choose|at: int| 0 <= at < first.len() && first[at].path == path;
            assert(a[at] == path);
        }
    }
    assert(is_path_listing(b, entries.dom())) by {
        assert forall|path: Seq<char>| entries.dom().contains(path) implies exists|i: int|
            0 <= i < b.len() && #[trigger] b[i] == path by {
            let at = choose|at: int| 0 <= at < second.len() && second[at].path == path;
            assert(b[at] == path);
        }
    }
    lemma_path_listing_is_unique(a, b, entries.dom());
    assert forall|i: int| 0 <= i < first.len() implies first[i] == second[i] by {
        assert(a[i] == b[i]);
        assert(first[i].path == second[i].path);
        assert(entries[first[i].path] == first[i].content);
        assert(entries[second[i].path] == second[i].content);
    }
    assert(a.len() == b.len());
    assert(first =~= second);
}

/// The changes of a map have one listing only.
pub proof fn law_change_listing_is_unique(
    first: Seq<FixtureChangeView>,
    second: Seq<FixtureChangeView>,
    entries: Map<Seq<char>, Option<Seq<char>>>,
)
    requires
        is_change_listing(first, entries),
        is_change_listing(second, entries),
    ensures
        first == second,
{
    let a = change_paths(first);
    let b = change_paths(second);
    assert(is_path_listing(a, entries.dom())) by {
        assert forall|path: Seq<char>| entries.dom().contains(path) implies exists|i: int|
            0 <= i < a.len() && #[trigger] a[i] == path by {
            let at = choose|at: int| 0 <= at < first.len() && first[at].path == path;
            assert(a[at] == path);
        }
    }
    assert(is_path_listing(b, entries.dom())) by {
        assert forall|path: Seq<char>| entries.dom().contains(path) implies exists|i: int|
            0 <= i < b.len() && #[trigger] b[i] == path by {
            let at = choose|at: int| 0 <= at < second.len() && second[at].path == path;
            assert(b[at] == path);
        }
    }
    lemma_path_listing_is_unique(a, b, entries.dom());
    assert forall|i: int| 0 <= i < first.len() implies first[i] == second[i] by {
        assert(a[i] == b[i]);
        assert(first[i].path == second[i].path);
        assert(entries[first[i].path] == first[i].change);
        assert(entries[second[i].path] == second[i].change);
    }
    assert(a.len() == b.len());
    assert(first =~= second);
}

} // verus!
