//! The source locator: which lines of a text a span names. Reading the
//! file is the caller's part; the lines are picked here.

use crate::error::{AppError, ErrorModel};
use crate::text::{lines_of, split_lines};
use vstd::prelude::*;

verus! {

/// Whether `start` and `end` name a span of a text of `count` lines: lines
/// are numbered from 1, and both ends belong to the span.
pub open spec fn span_fits(count: nat, start: nat, end: nat) -> bool {
    1 <= start <= end <= count
}

/// The lines `start` to `end` of `content`, or nothing where the text has
/// no such span.
pub open spec fn span_of(content: Seq<char>, start: nat, end: nat) -> Option<Seq<Seq<char>>> {
    let lines = lines_of(content);
    if span_fits(lines.len(), start, end) {
        Some(lines.subrange(start - 1, end as int))
    } else {
        None
    }
}

/// A span that fits has one line for each number from `start` to `end`,
/// and each is the line of the text with that number.
pub proof fn lemma_span_is_exact(content: Seq<char>, start: nat, end: nat)
    requires
        span_fits(lines_of(content).len(), start, end),
    ensures
        span_of(content, start, end) is Some,
        span_of(content, start, end).unwrap().len() == end - start + 1,
        forall|i: int|
            0 <= i <= end - start ==> span_of(content, start, end).unwrap()[i] == lines_of(
                content,
            )[start - 1 + i],
{
}

/// A span that ends after the last line of the text does not exist.
pub proof fn lemma_span_past_end(content: Seq<char>, start: nat, end: nat)
    requires
        end > lines_of(content).len(),
    ensures
        span_of(content, start, end) is None,
{
}

/// Access to source text.
#[derive(Debug, Clone, Copy)]
pub struct FileSystem;

impl FileSystem {
    /// The source locator. It holds nothing.
    pub fn new() -> (fs: FileSystem) {
        FileSystem
    }

    /// Picks the lines `startline` to `endline` out of `content`, the text
    /// of a file. A span that the text does not have is an error that names
    /// the span and the number of lines; nothing is cut short.
    pub fn read_file_lines(&self, content: &str, startline: u32, endline: u32) -> (r: Result<
        Vec<String>,
        AppError,
    >)
        ensures
            match r {
                Ok(lines) => span_of(content@, startline as nat, endline as nat) == Some(
                    lines.deep_view(),
                ),
                Err(e) => span_of(content@, startline as nat, endline as nat) is None
                    && e.deep_view() == (ErrorModel::OutOfRange {
                    start: startline as nat,
                    end: endline as nat,
                    lines: lines_of(content@).len(),
                }),
            },
    {
        let all = split_lines(content);
        let count = all.len();
        if startline < 1 || startline > endline || endline as usize > count {
            return Err(AppError::OutOfRange { start: startline, end: endline, lines: count });
        }
        let first: usize = (startline - 1) as usize;
        let last: usize = endline as usize;
        let mut picked: Vec<String> = Vec::new();
        let mut i: usize = first;
        while i < last
            invariant
                first <= i <= last <= all.len(),
                picked.deep_view() == all.deep_view().subrange(first as int, i as int),
            decreases last - i,
        {
            let ghost before = picked.deep_view();
            picked.push(all[i].clone());
            assert(picked.deep_view() =~= before.push(all.deep_view()[i as int]));
            i += 1;
        }
        Ok(picked)
    }
}

/// The kind of a directory entry.
#[derive(Debug, Clone, Copy, PartialEq, Eq, Structural)]
pub enum FileType {
    File,
    Directory,
    Other,
}

impl FileType {
    /// The kind of an entry that is or is not a directory, and is or is not
    /// a regular file: a directory first, a file second, else something
    /// other.
    pub open spec fn classify_spec(is_dir: bool, is_file: bool) -> FileType {
        if is_dir {
            FileType::Directory
        } else if is_file {
            FileType::File
        } else {
            FileType::Other
        }
    }

    /// Tells the kind of an entry from its two flags.
    #[verifier::when_used_as_spec(classify_spec)]
    pub fn classify(is_dir: bool, is_file: bool) -> (kind: FileType)
        ensures
            kind == Self::classify_spec(is_dir, is_file),
    {
        if is_dir {
            FileType::Directory
        } else if is_file {
            FileType::File
        } else {
            FileType::Other
        }
    }
}

/// One entry of a directory listing.
#[derive(Debug, Clone)]
pub struct FileEntry {
    pub name: String,
    pub file_type: FileType,
    pub size: u64,
    pub path: String,
}

impl FileEntry {
    /// The entry called `name` at `path`, `size` bytes long, of the kind
    /// that its two flags give.
    pub fn new(name: String, is_dir: bool, is_file: bool, size: u64, path: String) -> (entry:
        FileEntry)
        ensures
            entry.name == name,
            entry.file_type == FileType::classify_spec(is_dir, is_file),
            entry.size == size,
            entry.path == path,
    {
        FileEntry { name, file_type: FileType::classify(is_dir, is_file), size, path }
    }
}

} // verus!
