use codeql_agent::error::AppError;
use codeql_agent::tools::codeql::{
    workspace_dir_of, Action, CodeQLRunner, QueryRun, QueryStep, Reply, WorkspaceIds,
};

fn done() -> Result<Reply, std::io::Error> {
    Ok(Reply { success: true, text: String::new() })
}

fn exited(success: bool, stderr: &str) -> Result<Reply, std::io::Error> {
    Ok(Reply { success, text: stderr.to_string() })
}

fn read(text: &str) -> Result<Reply, std::io::Error> {
    Ok(Reply { success: true, text: text.to_string() })
}

fn failed(message: &str) -> Result<Reply, std::io::Error> {
    Err(std::io::Error::new(std::io::ErrorKind::Other, message.to_string()))
}

fn runner() -> CodeQLRunner {
    CodeQLRunner::new("/home/goat/aaa/curl", "/home/goat/aaa/curl/curl.ql", done()).unwrap()
}

fn expect_do(step: QueryStep) -> (QueryRun, Action) {
    match step {
        QueryStep::Do(run, action) => (run, action),
        QueryStep::Done(r) => panic!("run ended early: {:?}", r),
    }
}

fn strings(args: &[&str]) -> Vec<String> {
    args.iter().map(|a| a.to_string()).collect()
}

const QUERY: &str = "import cpp\nselect 1\n";

#[test]
fn version_probe_command() {
    let cmd = CodeQLRunner::version_probe();
    assert_eq!(cmd.program, "codeql");
    assert_eq!(cmd.args, strings(&["--version"]));
}

#[test]
fn new_keeps_both_paths() {
    let r = runner();
    assert_eq!(r.src_path(), "/home/goat/aaa/curl");
    assert_eq!(r.db_path(), "/home/goat/aaa/curl/curl.ql");
}

#[test]
fn new_fails_without_an_engine() {
    let r = CodeQLRunner::new("src", "db", failed("No such file or directory"));
    match r {
        Err(AppError::IoError(e)) => assert_eq!(e.to_string(), "No such file or directory"),
        other => panic!("unexpected: {:?}", other),
    }
}

#[test]
fn new_fails_on_an_unsuccessful_probe() {
    let r = CodeQLRunner::new("src", "db", exited(false, "broken install"));
    match r {
        Err(AppError::CodeQLError(text)) => assert_eq!(text, "broken install"),
        other => panic!("unexpected: {:?}", other),
    }
}

#[test]
fn check_exit_judges_replies() {
    assert!(CodeQLRunner::check_exit(exited(true, "warning: slow")).is_ok());
    assert!(matches!(
        CodeQLRunner::check_exit(exited(false, "bad")),
        Err(AppError::CodeQLError(t)) if t == "bad"
    ));
    assert!(matches!(CodeQLRunner::check_exit(failed("x")), Err(AppError::IoError(_))));
}

#[test]
fn create_database_command() {
    let cmd = runner().create_database("/home/goat/aaa/curl", "cpp");
    assert_eq!(cmd.program, "codeql");
    assert_eq!(
        cmd.args,
        strings(&[
            "database",
            "create",
            "--language=cpp",
            "--source-root=/home/goat/aaa/curl",
            "/home/goat/aaa/curl/curl.ql",
        ])
    );
}

#[test]
fn detect_language_by_import_line() {
    let r = runner();
    assert_eq!(r.detect_language("import cpp\nfrom Function f select f"), "cpp");
    assert_eq!(r.detect_language("import python\nselect 1"), "python");
    assert_eq!(r.detect_language("import java\nselect 1"), "java");
    assert_eq!(r.detect_language("/** q */\nimport csharp\nselect 1"), "csharp");
}

#[test]
fn detect_language_defaults_to_cpp() {
    let r = runner();
    assert_eq!(r.detect_language(""), "cpp");
    assert_eq!(r.detect_language("select 1"), "cpp");
    assert_eq!(r.detect_language("import ruby"), "cpp");
    assert_eq!(r.detect_language("IMPORT PYTHON"), "cpp");
}

#[test]
fn detect_language_first_match_wins() {
    let r = runner();
    assert_eq!(r.detect_language("import python\nimport cpp"), "cpp");
    assert_eq!(r.detect_language("import csharp\nimport java"), "java");
    assert_eq!(r.detect_language("import csharp\nimport python"), "python");
}

#[test]
fn detect_language_tells_javascript_from_java() {
    let r = runner();
    assert_eq!(r.detect_language("import javascript\nselect 1"), "javascript");
    assert_eq!(r.detect_language("/** @kind problem */\nimport javascript\n"), "javascript");
    assert_eq!(r.detect_language("import java\nselect 1"), "java");
    assert_eq!(r.detect_language("import java"), "java");
    assert_eq!(r.detect_language("import javascript"), "javascript");
}

#[test]
fn workspace_dir_is_named_by_number() {
    assert_eq!(workspace_dir_of(0), "tmp/query_0");
    assert_eq!(workspace_dir_of(1700000000123), "tmp/query_1700000000123");
}

#[test]
fn run_query_goes_through_all_stages() {
    let r = runner();
    let (run, action) = expect_do(r.run_query(QUERY, &mut WorkspaceIds::new(42)));
    assert!(matches!(action, Action::CreateDir(d) if d == "tmp/query_42"));

    let (run, action) = expect_do(run.advance(done()));
    match action {
        Action::WriteFile { path, text } => {
            assert_eq!(path, "tmp/query_42/qlpack.yml");
            assert_eq!(
                text,
                "name: tmpql-42\nversion: 0.0.1\nlibraryPathDependencies:\n  - codeql/cpp-all\n"
            );
        }
        other => panic!("unexpected: {:?}", other),
    }

    let (run, action) = expect_do(run.advance(done()));
    match action {
        Action::WriteFile { path, text } => {
            assert_eq!(path, "tmp/query_42/query.ql");
            assert_eq!(text, QUERY);
        }
        other => panic!("unexpected: {:?}", other),
    }

    let (run, action) = expect_do(run.advance(done()));
    match action {
        Action::Spawn(cmd) => {
            assert_eq!(cmd.program, "codeql");
            assert_eq!(
                cmd.args,
                strings(&[
                    "query",
                    "run",
                    "tmp/query_42/query.ql",
                    "--database=/home/goat/aaa/curl/curl.ql",
                    "--output=tmp/query_42/result.bqrs",
                ])
            );
        }
        other => panic!("unexpected: {:?}", other),
    }

    let (run, action) = expect_do(run.advance(exited(true, "Compiling query plan\n")));
    match action {
        Action::Spawn(cmd) => {
            assert_eq!(cmd.program, "codeql");
            assert_eq!(
                cmd.args,
                strings(&[
                    "bqrs",
                    "decode",
                    "tmp/query_42/result.bqrs",
                    "--format=csv",
                    "--output=tmp/query_42/result.csv",
                ])
            );
        }
        other => panic!("unexpected: {:?}", other),
    }

    let (run, action) = expect_do(run.advance(exited(true, "")));
    assert!(matches!(action, Action::ReadFile(p) if p == "tmp/query_42/result.csv"));

    let (run, action) = expect_do(run.advance(read("a,b\n1,2\n")));
    assert!(matches!(action, Action::RemoveDir(d) if d == "tmp/query_42"));

    match run.advance(done()) {
        QueryStep::Done(Ok(text)) => assert_eq!(text, "a,b\n1,2\n"),
        other => panic!("unexpected: {:?}", other),
    }
}

#[test]
fn run_query_names_the_library_of_the_query_language() {
    let r = runner();
    let (run, _) = expect_do(r.run_query("import python\nselect 1", &mut WorkspaceIds::new(7)));
    let (_, action) = expect_do(run.advance(done()));
    match action {
        Action::WriteFile { path, text } => {
            assert_eq!(path, "tmp/query_7/qlpack.yml");
            assert_eq!(
                text,
                "name: tmpql-7\nversion: 0.0.1\nlibraryPathDependencies:\n  - codeql/python-all\n"
            );
        }
        other => panic!("unexpected: {:?}", other),
    }
}

fn advance_ok(step: QueryStep, replies: usize) -> QueryRun {
    let (mut run, _) = expect_do(step);
    for i in 0..replies {
        let reply = if i >= 3 { exited(true, "") } else { done() };
        run = expect_do(run.advance(reply)).0;
    }
    run
}

#[test]
fn run_query_fails_with_the_engine_text_of_the_run() {
    let run = advance_ok(runner().run_query(QUERY, &mut WorkspaceIds::new(5)), 3);
    let (run, action) = expect_do(run.advance(exited(false, "ERROR: could not resolve type\n")));
    assert!(matches!(action, Action::RemoveDir(d) if d == "tmp/query_5"));
    match run.advance(done()) {
        QueryStep::Done(Err(AppError::CodeQLError(text))) => {
            assert_eq!(text, "ERROR: could not resolve type\n")
        }
        other => panic!("unexpected: {:?}", other),
    }
}

#[test]
fn run_query_fails_with_the_engine_text_of_the_decoding() {
    let run = advance_ok(runner().run_query(QUERY, &mut WorkspaceIds::new(5)), 4);
    let (run, action) = expect_do(run.advance(exited(false, "bqrs is corrupt")));
    assert!(matches!(action, Action::RemoveDir(d) if d == "tmp/query_5"));
    match run.advance(done()) {
        QueryStep::Done(Err(AppError::CodeQLError(text))) => assert_eq!(text, "bqrs is corrupt"),
        other => panic!("unexpected: {:?}", other),
    }
}

#[test]
fn run_query_removes_the_workspace_after_a_failure_at_any_stage() {
    for stage in 0..6usize {
        let run = advance_ok(runner().run_query(QUERY, &mut WorkspaceIds::new(9)), stage);
        let (run, action) = expect_do(run.advance(failed("disk full")));
        assert!(matches!(action, Action::RemoveDir(d) if d == "tmp/query_9"), "stage {}", stage);
        match run.advance(done()) {
            QueryStep::Done(Err(AppError::IoError(e))) => assert_eq!(e.to_string(), "disk full"),
            other => panic!("unexpected at stage {}: {:?}", stage, other),
        }
    }
}

#[test]
fn a_removal_that_fails_does_not_hide_the_outcome() {
    let run = advance_ok(runner().run_query(QUERY, &mut WorkspaceIds::new(3)), 5);
    let (run, _) = expect_do(run.advance(read("x\n1\n")));
    match run.advance(failed("directory not empty")) {
        QueryStep::Done(Ok(text)) => assert_eq!(text, "x\n1\n"),
        other => panic!("unexpected: {:?}", other),
    }

    let run = advance_ok(runner().run_query(QUERY, &mut WorkspaceIds::new(3)), 3);
    let (run, _) = expect_do(run.advance(exited(false, "query failed")));
    match run.advance(failed("directory not empty")) {
        QueryStep::Done(Err(AppError::CodeQLError(text))) => assert_eq!(text, "query failed"),
        other => panic!("unexpected: {:?}", other),
    }
}

#[test]
fn a_run_ends_after_seven_replies_at_most() {
    let mut step = runner().run_query(QUERY, &mut WorkspaceIds::new(1));
    let mut replies = 0;
    loop {
        match step {
            QueryStep::Done(_) => break,
            QueryStep::Do(run, _) => {
                step = run.advance(exited(true, ""));
                replies += 1;
                assert!(replies <= 7);
            }
        }
    }
    assert_eq!(replies, 7);
}

#[test]
fn workspace_ids_never_repeat() {
    let mut ids = WorkspaceIds::new(10);
    assert_eq!(ids.issue(), Some(10));
    assert_eq!(ids.issue(), Some(11));
    assert_eq!(ids.issue(), Some(12));
    let mut last = WorkspaceIds::new(u64::MAX - 1);
    assert_eq!(last.issue(), Some(u64::MAX - 1));
    assert_eq!(last.issue(), None);
    assert_eq!(last.issue(), None);
}

#[test]
fn runs_from_one_source_work_in_different_directories() {
    let r = runner();
    let mut ids = WorkspaceIds::new(99);
    let (_, first) = expect_do(r.run_query(QUERY, &mut ids));
    let (_, second) = expect_do(r.run_query(QUERY, &mut ids));
    let (_, third) = expect_do(r.run_query("import java\nselect 2", &mut ids));
    assert!(matches!(first, Action::CreateDir(d) if d == "tmp/query_99"));
    assert!(matches!(second, Action::CreateDir(d) if d == "tmp/query_100"));
    assert!(matches!(third, Action::CreateDir(d) if d == "tmp/query_101"));
    assert_eq!(ids.issue(), Some(102));
}

#[test]
fn no_run_begins_once_the_numbers_have_run_out() {
    let r = runner();
    let mut ids = WorkspaceIds::new(u64::MAX - 1);
    let (_, last) = expect_do(r.run_query(QUERY, &mut ids));
    assert!(matches!(last, Action::CreateDir(d) if d == "tmp/query_18446744073709551614"));
    assert!(matches!(r.run_query(QUERY, &mut ids), QueryStep::Done(Err(AppError::NoWorkspace))));
    assert!(matches!(r.run_query(QUERY, &mut ids), QueryStep::Done(Err(AppError::NoWorkspace))));
}

#[test]
fn a_javascript_query_gets_the_javascript_library() {
    let r = runner();
    let (run, _) = expect_do(r.run_query("import javascript\nselect 1", &mut WorkspaceIds::new(8)));
    let (_, action) = expect_do(run.advance(done()));
    match action {
        Action::WriteFile { path, text } => {
            assert_eq!(path, "tmp/query_8/qlpack.yml");
            assert_eq!(
                text,
                "name: tmpql-8\nversion: 0.0.1\nlibraryPathDependencies:\n  - codeql/javascript-all\n"
            );
        }
        other => panic!("unexpected: {:?}", other),
    }
}
