use codeql_agent::error::AppError;
use codeql_agent::tools::analyzer::{
    excerpt, FunctionInfoResult, FunctionStep, Request, VariableStep,
};
use codeql_agent::tools::codeql::{CodeQLAnalyzer, CodeQLRunner, Reply, SourceInfoResult};
use codeql_agent::tools::filesystem::FileSystem;
use codeql_agent::tools::query::{function_query, override_query, variable_query};

fn analyzer(root: &str) -> CodeQLAnalyzer {
    let probe = Ok(Reply { success: true, text: String::new() });
    CodeQLAnalyzer::new(CodeQLRunner::new(root, "db", probe).unwrap())
}

/// A source tree and a database, as tables of replies.
struct Fixture {
    tables: Vec<(String, Result<String, String>)>,
    sources: Vec<(String, String)>,
    asked: Vec<String>,
}

impl Fixture {
    fn new() -> Fixture {
        Fixture { tables: Vec::new(), sources: Vec::new(), asked: Vec::new() }
    }

    fn table(mut self, query: String, text: &str) -> Fixture {
        self.tables.push((query, Ok(text.to_string())));
        self
    }

    fn broken_query(mut self, query: String, stderr: &str) -> Fixture {
        self.tables.push((query, Err(stderr.to_string())));
        self
    }

    fn source(mut self, path: &str, text: String) -> Fixture {
        self.sources.push((path.to_string(), text));
        self
    }

    fn reply(&mut self, request: Request) -> Result<String, AppError> {
        match request {
            Request::RunQuery(text) => {
                self.asked.push("query".to_string());
                match self.tables.iter().find(|(q, _)| *q == text) {
                    Some((_, Ok(table))) => Ok(table.clone()),
                    Some((_, Err(stderr))) => Err(AppError::CodeQLError(stderr.clone())),
                    None => panic!("unexpected query:\n{}", text),
                }
            }
            Request::ReadSource(path) => {
                self.asked.push(path.clone());
                match self.sources.iter().find(|(p, _)| *p == path) {
                    Some((_, text)) => Ok(text.clone()),
                    None => Err(AppError::IoError(std::io::Error::new(
                        std::io::ErrorKind::NotFound,
                        format!("no such file: {}", path),
                    ))),
                }
            }
        }
    }

    fn variable(&mut self, mut step: VariableStep) -> Result<SourceInfoResult, AppError> {
        loop {
            match step {
                VariableStep::Done(r) => return r,
                VariableStep::Ask(lookup, request) => {
                    let reply = self.reply(request);
                    step = lookup.advance(reply);
                }
            }
        }
    }

    fn function(&mut self, mut step: FunctionStep) -> Result<Vec<FunctionInfoResult>, AppError> {
        loop {
            match step {
                FunctionStep::Done(r) => return r,
                FunctionStep::Ask(lookup, request) => {
                    let reply = self.reply(request);
                    step = lookup.advance(reply);
                }
            }
        }
    }
}

fn numbered(prefix: &str, count: usize) -> String {
    let mut text = String::new();
    for i in 1..=count {
        text.push_str(&format!("{} line {}\n", prefix, i));
    }
    text
}

#[test]
fn excerpt_joins_the_lines_of_a_span() {
    let fs = FileSystem::new();
    assert_eq!(excerpt(&fs, "a\nb\nc\nd\n", 2, 3).unwrap(), "b\nc");
    assert_eq!(excerpt(&fs, "a\r\nb\r\nc", 1, 3).unwrap(), "a\nb\nc");
    assert_eq!(excerpt(&fs, "a\nb", 2, 2).unwrap(), "b");
    assert!(matches!(
        excerpt(&fs, "a\nb", 2, 3),
        Err(AppError::OutOfRange { start: 2, end: 3, lines: 2 })
    ));
}

#[test]
fn variable_lookup_begins_with_its_query() {
    let a = analyzer("/home/goat/aaa/curl");
    match a.find_var_definitions("src/var.c", 362, "p") {
        VariableStep::Ask(_, Request::RunQuery(text)) => {
            assert_eq!(text, variable_query("src/var.c", 362, "p"))
        }
        other => panic!("unexpected: {:?}", other),
    }
}

#[test]
fn variable_defined_in_the_same_file() {
    let a = analyzer("/home/goat/aaa/curl");
    let mut world = Fixture::new()
        .table(
            variable_query("src/var.c", 362, "p"),
            "\"filename\",\"startline\",\"endline\"\n\"src/var.c\",10,12\n",
        )
        .source("/home/goat/aaa/curl/src/var.c", numbered("var.c", 400));
    let answer = world.variable(a.find_var_definitions("src/var.c", 362, "p")).unwrap();
    assert_eq!(answer.filename, "src/var.c");
    assert_eq!(answer.line, 10);
    assert_eq!(answer.code, "var.c line 10\nvar.c line 11\nvar.c line 12");
    assert_eq!(world.asked, vec!["query", "/home/goat/aaa/curl/src/var.c"]);
}

#[test]
fn variable_lookup_without_rows_is_not_found() {
    let a = analyzer("/t");
    let mut world =
        Fixture::new().table(variable_query("src/var.c", 1, "p"), "filename,startline,endline\n");
    let r = world.variable(a.find_var_definitions("src/var.c", 1, "p"));
    assert!(matches!(r, Err(AppError::NotFound(m)) if m == "no results"));
    assert_eq!(world.asked, vec!["query"]);
}

#[test]
fn variable_lookup_with_several_rows_is_ambiguous() {
    let a = analyzer("/t");
    let mut world = Fixture::new().table(
        variable_query("src/var.c", 1, "p"),
        "filename,startline,endline\nsrc/var.c,10,12\nsrc/other.c,3,3\n",
    );
    let r = world.variable(a.find_var_definitions("src/var.c", 1, "p"));
    assert!(matches!(r, Err(AppError::Ambiguous(m)) if m == "multiple results"));
    assert_eq!(world.asked, vec!["query"]);

    let mut world = Fixture::new().table(
        variable_query("src/var.c", 1, "p"),
        "filename,startline,endline\na.c,1,1\na.c,1,1\na.c,1,1\n",
    );
    let r = world.variable(a.find_var_definitions("src/var.c", 1, "p"));
    assert!(matches!(r, Err(AppError::Ambiguous(_))));
}

#[test]
fn variable_lookup_hands_on_the_failure_of_the_query() {
    let a = analyzer("/t");
    let mut world =
        Fixture::new().broken_query(variable_query("a.c", 1, "p"), "ERROR: no such database");
    let r = world.variable(a.find_var_definitions("a.c", 1, "p"));
    assert!(matches!(r, Err(AppError::CodeQLError(m)) if m == "ERROR: no such database"));
}

#[test]
fn variable_lookup_fails_on_text_that_is_no_table() {
    let a = analyzer("/t");
    let mut world = Fixture::new()
        .table(variable_query("a.c", 1, "p"), "filename,startline,endline\na.c,1\n");
    let r = world.variable(a.find_var_definitions("a.c", 1, "p"));
    assert!(matches!(r, Err(AppError::CsvError(_))));
    let mut world =
        Fixture::new().table(variable_query("a.c", 1, "p"), "file,startline,endline\na.c,1,2\n");
    let r = world.variable(a.find_var_definitions("a.c", 1, "p"));
    assert!(matches!(r, Err(AppError::RecordError { row: 0 })));
}

#[test]
fn variable_lookup_fails_where_the_file_is_missing() {
    let a = analyzer("/t");
    let mut world = Fixture::new()
        .table(variable_query("a.c", 1, "p"), "filename,startline,endline\ngone.c,1,2\n");
    let r = world.variable(a.find_var_definitions("a.c", 1, "p"));
    match r {
        Err(AppError::IoError(e)) => assert_eq!(e.kind(), std::io::ErrorKind::NotFound),
        other => panic!("unexpected: {:?}", other),
    }
    assert_eq!(world.asked, vec!["query", "/t/gone.c"]);
}

#[test]
fn variable_lookup_fails_where_the_file_is_too_short() {
    let a = analyzer("/t");
    let mut world = Fixture::new()
        .table(variable_query("a.c", 1, "p"), "filename,startline,endline\na.c,10,12\n")
        .source("/t/a.c", numbered("a.c", 11));
    let r = world.variable(a.find_var_definitions("a.c", 1, "p"));
    assert!(matches!(r, Err(AppError::OutOfRange { start: 10, end: 12, lines: 11 })));
}

const TARGET_HEAD: &str = "name,filename,startline,endline,is_virtual\n";
const OVERRIDE_HEAD: &str = "name,filename,startline,endline\n";

#[test]
fn function_lookup_begins_with_its_query() {
    let a = analyzer("/t");
    match a.find_function_code("src/main.cpp", 42, "foo") {
        FunctionStep::Ask(_, Request::RunQuery(text)) => {
            assert_eq!(text, function_query("src/main.cpp", 42, "foo"))
        }
        other => panic!("unexpected: {:?}", other),
    }
}

#[test]
fn function_that_is_not_virtual_has_no_list() {
    let a = analyzer("/t");
    let mut world = Fixture::new()
        .table(
            function_query("src/main.cpp", 42, "helper"),
            &format!("{}helper,src/util.cpp,2,3,false\n", TARGET_HEAD),
        )
        .source("/t/src/util.cpp", numbered("util", 5));
    let answers = world.function(a.find_function_code("src/main.cpp", 42, "helper")).unwrap();
    assert_eq!(answers.len(), 1);
    assert_eq!(answers[0].name, "helper");
    assert_eq!(answers[0].filename, "src/util.cpp");
    assert_eq!(answers[0].line, 2);
    assert_eq!(answers[0].code, "util line 2\nutil line 3");
    assert!(!answers[0].is_virtual);
    assert!(answers[0].overrides.is_none());
    assert_eq!(world.asked, vec!["query", "/t/src/util.cpp"]);
}

#[test]
fn virtual_function_with_two_overrides() {
    let a = analyzer("/t");
    let mut world = Fixture::new()
        .table(
            function_query("src/main.cpp", 42, "foo"),
            &format!("{}Base::foo,src/base.cpp,3,5,true\n", TARGET_HEAD),
        )
        .table(
            override_query("Base::foo"),
            &format!(
                "{}Derived::foo,src/derived.cpp,7,8\nOther::foo,src/other.cpp,1,1\n",
                OVERRIDE_HEAD
            ),
        )
        // Derived::foo is overridden in turn; the lookup must not ask.
        .table(
            override_query("Derived::foo"),
            &format!("{}Deeper::foo,src/deeper.cpp,1,2\n", OVERRIDE_HEAD),
        )
        .source("/t/src/base.cpp", numbered("base", 9))
        .source("/t/src/derived.cpp", numbered("derived", 9))
        .source("/t/src/other.cpp", numbered("other", 9))
        .source("/t/src/deeper.cpp", numbered("deeper", 9));
    let answers = world.function(a.find_function_code("src/main.cpp", 42, "foo")).unwrap();
    assert_eq!(answers.len(), 1);
    let base = &answers[0];
    assert_eq!(base.name, "Base::foo");
    assert_eq!(base.filename, "src/base.cpp");
    assert_eq!(base.line, 3);
    assert_eq!(base.code, "base line 3\nbase line 4\nbase line 5");
    assert!(base.is_virtual);
    let list = base.overrides.as_ref().unwrap();
    assert_eq!(list.len(), 2);
    assert_eq!(list[0].name, "Derived::foo");
    assert_eq!(list[0].filename, "src/derived.cpp");
    assert_eq!(list[0].line, 7);
    assert_eq!(list[0].code, "derived line 7\nderived line 8");
    assert_eq!(list[1].name, "Other::foo");
    assert_eq!(list[1].filename, "src/other.cpp");
    assert_eq!(list[1].line, 1);
    assert_eq!(list[1].code, "other line 1");
    for entry in list {
        assert!(entry.is_virtual);
        assert_eq!(entry.overrides.as_ref().map(|l| l.len()), Some(0));
    }
    assert_eq!(
        world.asked,
        vec!["query", "/t/src/base.cpp", "query", "/t/src/derived.cpp", "/t/src/other.cpp"]
    );
}

#[test]
fn virtual_function_without_overrides_has_an_empty_list() {
    let a = analyzer("/t");
    let mut world = Fixture::new()
        .table(
            function_query("m.cpp", 1, "foo"),
            &format!("{}Leaf::foo,leaf.cpp,1,2,true\n", TARGET_HEAD),
        )
        .table(override_query("Leaf::foo"), OVERRIDE_HEAD)
        .source("/t/leaf.cpp", numbered("leaf", 2));
    let answers = world.function(a.find_function_code("m.cpp", 1, "foo")).unwrap();
    assert_eq!(answers.len(), 1);
    assert!(answers[0].is_virtual);
    assert_eq!(answers[0].overrides.as_ref().map(|l| l.len()), Some(0));
}

#[test]
fn every_target_is_answered_in_the_order_of_the_rows() {
    let a = analyzer("/t");
    let mut world = Fixture::new()
        .table(
            function_query("m.cpp", 7, "run"),
            &format!(
                "{}z::run,z.cpp,1,1,false\nB::run,b.cpp,2,3,true\na::run,a.cpp,4,4,false\n",
                TARGET_HEAD
            ),
        )
        .table(override_query("B::run"), &format!("{}C::run,c.cpp,5,6\n", OVERRIDE_HEAD))
        .source("/t/z.cpp", numbered("z", 9))
        .source("/t/b.cpp", numbered("b", 9))
        .source("/t/a.cpp", numbered("a", 9))
        .source("/t/c.cpp", numbered("c", 9));
    let answers = world.function(a.find_function_code("m.cpp", 7, "run")).unwrap();
    let names: Vec<&str> = answers.iter().map(|x| x.name.as_str()).collect();
    assert_eq!(names, vec!["z::run", "B::run", "a::run"]);
    assert!(answers[0].overrides.is_none());
    assert_eq!(answers[1].overrides.as_ref().unwrap().len(), 1);
    assert_eq!(answers[1].overrides.as_ref().unwrap()[0].code, "c line 5\nc line 6");
    assert!(answers[2].overrides.is_none());
    assert_eq!(answers[2].code, "a line 4");
    assert_eq!(
        world.asked,
        vec!["query", "/t/z.cpp", "/t/b.cpp", "query", "/t/c.cpp", "/t/a.cpp"]
    );
}

#[test]
fn function_lookup_without_rows_is_not_found() {
    let a = analyzer("/t");
    let mut world = Fixture::new().table(function_query("m.cpp", 1, "foo"), TARGET_HEAD);
    let r = world.function(a.find_function_code("m.cpp", 1, "foo"));
    assert!(matches!(
        r,
        Err(AppError::NotFound(m)) if m == "no function call found at the specified location"
    ));
}

#[test]
fn function_lookup_fails_as_a_whole() {
    let a = analyzer("/t");
    // the second target's file is missing
    let mut world = Fixture::new()
        .table(
            function_query("m.cpp", 1, "f"),
            &format!("{}a::f,a.cpp,1,1,false\nb::f,b.cpp,1,1,false\n", TARGET_HEAD),
        )
        .source("/t/a.cpp", numbered("a", 3));
    let r = world.function(a.find_function_code("m.cpp", 1, "f"));
    assert!(matches!(r, Err(AppError::IoError(_))));

    // the override query fails
    let mut world = Fixture::new()
        .table(function_query("m.cpp", 1, "f"), &format!("{}a::f,a.cpp,1,1,true\n", TARGET_HEAD))
        .broken_query(override_query("a::f"), "engine crashed")
        .source("/t/a.cpp", numbered("a", 3));
    let r = world.function(a.find_function_code("m.cpp", 1, "f"));
    assert!(matches!(r, Err(AppError::CodeQLError(m)) if m == "engine crashed"));

    // an override's span is not in its file
    let mut world = Fixture::new()
        .table(function_query("m.cpp", 1, "f"), &format!("{}a::f,a.cpp,1,1,true\n", TARGET_HEAD))
        .table(override_query("a::f"), &format!("{}b::f,b.cpp,4,9\n", OVERRIDE_HEAD))
        .source("/t/a.cpp", numbered("a", 3))
        .source("/t/b.cpp", numbered("b", 5));
    let r = world.function(a.find_function_code("m.cpp", 1, "f"));
    assert!(matches!(r, Err(AppError::OutOfRange { start: 4, end: 9, lines: 5 })));

    // the flag is no truth value
    let mut world = Fixture::new()
        .table(function_query("m.cpp", 1, "f"), &format!("{}a::f,a.cpp,1,1,maybe\n", TARGET_HEAD));
    let r = world.function(a.find_function_code("m.cpp", 1, "f"));
    assert!(matches!(r, Err(AppError::RecordError { row: 0 })));
}

#[test]
fn test_find_var_definitions() {
    let probe = Ok(Reply { success: true, text: String::new() });
    let runner = CodeQLRunner::new("/home/goat/aaa/curl", "/home/goat/aaa/curl/curl.ql", probe)
        .expect("CodeQL CLI가 설치되어 있어야 합니다");
    let analyzer = CodeQLAnalyzer::new(runner);
    let mut world = Fixture::new()
        .table(
            variable_query("src/var.c", 362, "p"),
            "\"filename\",\"startline\",\"endline\"\n\"src/var.c\",356,356\n",
        )
        .source("/home/goat/aaa/curl/src/var.c", numbered("var.c", 400));
    let result = world.variable(analyzer.find_var_definitions("src/var.c", 362, "p"));
    println!("Result: {:#?}", result);
    assert!(result.is_ok());
}
