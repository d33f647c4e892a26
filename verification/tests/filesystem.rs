use codeql_agent::error::AppError;
use codeql_agent::tools::filesystem::{FileEntry, FileSystem, FileType};

const TEXT: &str = "one\ntwo\nthree\nfour\nfive\n";

#[test]
fn read_file_lines_returns_the_span() {
    let fs = FileSystem::new();
    let lines = fs.read_file_lines(TEXT, 2, 4).unwrap();
    assert_eq!(lines, vec!["two".to_string(), "three".to_string(), "four".to_string()]);
}

#[test]
fn read_file_lines_returns_one_line_for_each_number() {
    let fs = FileSystem::new();
    let all: Vec<&str> = TEXT.lines().collect();
    for start in 1..=5u32 {
        for end in start..=5u32 {
            let lines = fs.read_file_lines(TEXT, start, end).unwrap();
            assert_eq!(lines.len() as u32, end - start + 1);
            for (i, line) in lines.iter().enumerate() {
                assert_eq!(line, all[start as usize - 1 + i]);
            }
        }
    }
}

#[test]
fn read_file_lines_single_and_whole() {
    let fs = FileSystem::new();
    assert_eq!(fs.read_file_lines(TEXT, 1, 1).unwrap(), vec!["one".to_string()]);
    assert_eq!(fs.read_file_lines(TEXT, 5, 5).unwrap(), vec!["five".to_string()]);
    assert_eq!(fs.read_file_lines(TEXT, 1, 5).unwrap().len(), 5);
}

#[test]
fn read_file_lines_fails_past_the_end() {
    let fs = FileSystem::new();
    let r = fs.read_file_lines(TEXT, 4, 6);
    assert!(matches!(r, Err(AppError::OutOfRange { start: 4, end: 6, lines: 5 })));
    let r = fs.read_file_lines(TEXT, 6, 6);
    assert!(matches!(r, Err(AppError::OutOfRange { start: 6, end: 6, lines: 5 })));
    let r = fs.read_file_lines("", 1, 1);
    assert!(matches!(r, Err(AppError::OutOfRange { start: 1, end: 1, lines: 0 })));
    let r = fs.read_file_lines(TEXT, 1, u32::MAX);
    assert!(matches!(r, Err(AppError::OutOfRange { start: 1, end: u32::MAX, lines: 5 })));
}

#[test]
fn read_file_lines_fails_on_a_span_that_is_none() {
    let fs = FileSystem::new();
    let r = fs.read_file_lines(TEXT, 0, 2);
    assert!(matches!(r, Err(AppError::OutOfRange { start: 0, end: 2, lines: 5 })));
    let r = fs.read_file_lines(TEXT, 3, 2);
    assert!(matches!(r, Err(AppError::OutOfRange { start: 3, end: 2, lines: 5 })));
    let r = fs.read_file_lines(TEXT, 0, 0);
    assert!(matches!(r, Err(AppError::OutOfRange { start: 0, end: 0, lines: 5 })));
}

#[test]
fn read_file_lines_drops_carriage_returns() {
    let fs = FileSystem::new();
    let lines = fs.read_file_lines("a\r\nb\r\nc", 2, 3).unwrap();
    assert_eq!(lines, vec!["b".to_string(), "c".to_string()]);
}

#[test]
fn classify_tells_directories_first() {
    assert_eq!(FileType::classify(true, false), FileType::Directory);
    assert_eq!(FileType::classify(true, true), FileType::Directory);
    assert_eq!(FileType::classify(false, true), FileType::File);
    assert_eq!(FileType::classify(false, false), FileType::Other);
}

#[test]
fn entry_holds_what_it_was_given() {
    let e = FileEntry::new("lib.rs".to_string(), false, true, 120, "./src/lib.rs".to_string());
    assert_eq!(e.name, "lib.rs");
    assert_eq!(e.file_type, FileType::File);
    assert_eq!(e.size, 120);
    assert_eq!(e.path, "./src/lib.rs");
    let d = FileEntry::new("src".to_string(), true, false, 4096, "./src".to_string());
    assert_eq!(d.file_type, FileType::Directory);
}
