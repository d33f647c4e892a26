//! Running queries against a code database.
//!
//! The engine is an outside program and the workspace lives on disk, so the
//! runner never acts itself. It says which command to spawn or which file to
//! touch, and decides what comes next from the reply.

use crate::error::{AppError, ErrorModel};
use crate::text::{
    contains, decimal, decimal_digits, glue, lemma_decimal_digits_differ, occurs_at, occurs_in,
};
pub use crate::tools::analyzer::{CodeQLAnalyzer, SourceInfoResult};
pub use crate::tools::record::SourceInfoParse;
use vstd::prelude::*;
use vstd::string::*;

verus! {

/// A command line: the program and its arguments, in order.
#[derive(Debug)]
pub struct Invocation {
    pub program: String,
    pub args: Vec<String>,
}

/// The mathematical content of an [`Invocation`].
pub struct InvocationModel {
    pub program: Seq<char>,
    pub args: Seq<Seq<char>>,
}

impl DeepView for Invocation {
    type V = InvocationModel;

    open spec fn deep_view(&self) -> InvocationModel {
        InvocationModel { program: self.program@, args: self.args.deep_view() }
    }
}

/// What came back from a request that was carried out. For a spawned
/// command `success` is its exit status and `text` its standard error; for
/// a file that was read `text` is its content. Other requests report
/// `success` with an empty text.
#[derive(Debug)]
pub struct Reply {
    pub success: bool,
    pub text: String,
}

/// The mathematical content of a [`Reply`].
pub struct ReplyModel {
    pub success: bool,
    pub text: Seq<char>,
}

impl DeepView for Reply {
    type V = ReplyModel;

    open spec fn deep_view(&self) -> ReplyModel {
        ReplyModel { success: self.success, text: self.text@ }
    }
}

/// The content of what a request came back with: a reply, or the error of
/// the operation that could not be carried out.
pub open spec fn reply_model(reply: Result<Reply, std::io::Error>) -> Result<
    ReplyModel,
    std::io::Error,
> {
    match reply {
        Ok(r) => Ok(r.deep_view()),
        Err(e) => Err(e),
    }
}

/// The content of how a run ended: the tabular text, or the failure.
pub open spec fn outcome_model(outcome: Result<String, AppError>) -> Result<
    Seq<char>,
    ErrorModel,
> {
    match outcome {
        Ok(text) => Ok(text@),
        Err(e) => Err(e.deep_view()),
    }
}

/// The engine's version probe.
pub open spec fn version_probe_model() -> InvocationModel {
    InvocationModel { program: "codeql"@, args: seq!["--version"@] }
}

/// The command that builds the database at `db_path` from the sources
/// under `source_path`, written in `language`.
pub open spec fn create_database_model(
    db_path: Seq<char>,
    source_path: Seq<char>,
    language: Seq<char>,
) -> InvocationModel {
    InvocationModel {
        program: "codeql"@,
        args: seq![
            "database"@,
            "create"@,
            "--language="@ + language,
            "--source-root="@ + source_path,
            db_path,
        ],
    }
}

/// How a command that had to succeed went: the error of a spawn that
/// failed, the standard error text of an unsuccessful exit, or nothing.
pub open spec fn exit_failure(reply: Result<ReplyModel, std::io::Error>) -> Option<ErrorModel> {
    match reply {
        Err(e) => Some(ErrorModel::Io(e)),
        Ok(r) => if r.success {
            None
        } else {
            Some(ErrorModel::Engine(r.text))
        },
    }
}

/// The language whose library a query imports. A query is expected to
/// hold the import line of one of `cpp`, `python`, `java`, `javascript`,
/// `csharp`, and its language is that one; a query that holds none is a
/// `cpp` query. Of several import lines the first in the order `cpp`,
/// `python`, `javascript`, `java`, `csharp` counts. The import line of
/// `javascript` is looked for before that of `java`, which is its
/// beginning.
pub open spec fn language_of(query: Seq<char>) -> Seq<char> {
    if occurs_in("import cpp"@, query) {
        "cpp"@
    } else if occurs_in("import python"@, query) {
        "python"@
    } else if occurs_in("import javascript"@, query) {
        "javascript"@
    } else if occurs_in("import java"@, query) {
        "java"@
    } else if occurs_in("import csharp"@, query) {
        "csharp"@
    } else {
        "cpp"@
    }
}

/// A text that holds the import line of `javascript` holds that of `java`
/// at the same place.
pub proof fn lemma_javascript_line_holds_java_line(query: Seq<char>)
    ensures
        occurs_in("import javascript"@, query) ==> occurs_in("import java"@, query),
{
    reveal_strlit("import javascript");
    reveal_strlit("import java");
    let long = "import javascript"@;
    let short = "import java"@;
    if occurs_in(long, query) {
        let at = choose|at: int| occurs_at(long, query, at);
        assert(long.subrange(0, 11) =~= short);
        assert(query.subrange(at, at + 11) =~= query.subrange(at, at + 17).subrange(0, 11));
        assert(occurs_at(short, query, at));
    }
}

/// A query that holds the import line of one language alone has that
/// language, and a query that holds none has `cpp`. The import line of
/// `java` is alone where no other is held but for its own appearance in
/// that of `javascript`.
pub proof fn lemma_language_of_single_import(query: Seq<char>)
    ensures
        ({
            let cpp = occurs_in("import cpp"@, query);
            let python = occurs_in("import python"@, query);
            let java = occurs_in("import java"@, query);
            let javascript = occurs_in("import javascript"@, query);
            let csharp = occurs_in("import csharp"@, query);
            &&& cpp && !python && !java && !csharp ==> language_of(query) == "cpp"@
            &&& python && !cpp && !java && !csharp ==> language_of(query) == "python"@
            &&& java && !javascript && !cpp && !python && !csharp ==> language_of(query)
                == "java"@
            &&& javascript && !cpp && !python && !csharp ==> language_of(query)
                == "javascript"@
            &&& csharp && !cpp && !python && !java ==> language_of(query) == "csharp"@
            &&& !cpp && !python && !java && !csharp ==> language_of(query) == "cpp"@
        }),
{
    lemma_javascript_line_holds_java_line(query);
}

/// A code database and the source tree it was built from.
#[derive(Debug)]
pub struct CodeQLRunner {
    db_path: String,
    src_path: String,
}

impl CodeQLRunner {
    /// The path of the database.
    pub closed spec fn db(&self) -> Seq<char> {
        self.db_path@
    }

    /// The root of the source tree.
    pub closed spec fn src(&self) -> Seq<char> {
        self.src_path@
    }

    /// The command that probes for the engine. Its reply goes to [`Self::new`].
    pub fn version_probe() -> (cmd: Invocation)
        ensures
            cmd.deep_view() == version_probe_model(),
    {
        let mut args: Vec<String> = Vec::new();
        args.push(String::from_str("--version"));
        let cmd = Invocation { program: String::from_str("codeql"), args };
        assert(cmd.deep_view().args =~= version_probe_model().args);
        cmd
    }

    /// A runner for the database at `db_path` built from the sources under
    /// `src_path`, given the reply to the version probe. Without a working
    /// engine there is no runner: a probe that could not be spawned or that
    /// exited unsuccessfully is the error.
    pub fn new(src_path: &str, db_path: &str, probe: Result<Reply, std::io::Error>) -> (r: Result<
        CodeQLRunner,
        AppError,
    >)
        ensures
            match r {
                Ok(runner) => exit_failure(reply_model(probe)) is None && runner.src() == src_path@
                    && runner.db() == db_path@,
                Err(e) => exit_failure(reply_model(probe)) == Some(e.deep_view()),
            },
    {
        match Self::check_exit(probe) {
            Err(e) => Err(e),
            Ok(()) => Ok(
                CodeQLRunner {
                    db_path: String::from_str(db_path),
                    src_path: String::from_str(src_path),
                },
            ),
        }
    }

    /// Judges the reply to a command that had to succeed.
    pub fn check_exit(reply: Result<Reply, std::io::Error>) -> (r: Result<(), AppError>)
        ensures
            match r {
                Ok(_) => exit_failure(reply_model(reply)) is None,
                Err(e) => exit_failure(reply_model(reply)) == Some(e.deep_view()),
            },
    {
        match reply {
            Err(e) => Err(AppError::IoError(e)),
            Ok(r) => if r.success {
                Ok(())
            } else {
                Err(AppError::CodeQLError(r.text))
            },
        }
    }

    /// The root of the source tree.
    pub fn src_path(&self) -> (r: &str)
        ensures
            r@ == self.src(),
    {
        self.src_path.as_str()
    }

    /// The path of the database.
    pub fn db_path(&self) -> (r: &str)
        ensures
            r@ == self.db(),
    {
        self.db_path.as_str()
    }

    /// The command that builds this runner's database from the sources
    /// under `source_path`. Its reply goes to [`Self::check_exit`].
    pub fn create_database(&self, source_path: &str, language: &str) -> (cmd: Invocation)
        ensures
            cmd.deep_view() == create_database_model(self.db(), source_path@, language@),
    {
        let mut args: Vec<String> = Vec::new();
        args.push(String::from_str("database"));
        args.push(String::from_str("create"));
        args.push(glue("--language=", language));
        args.push(glue("--source-root=", source_path));
        args.push(self.db_path.clone());
        let cmd = Invocation { program: String::from_str("codeql"), args };
        assert(cmd.deep_view().args =~= create_database_model(
            self.db(),
            source_path@,
            language@,
        ).args);
        cmd
    }

    /// Finds the language of a query from its import line.
    pub fn detect_language(&self, query_string: &str) -> (language: &'static str)
        ensures
            language@ == language_of(query_string@),
    {
        language_name(query_string)
    }
}

fn language_name(query: &str) -> (language: &'static str)
    ensures
        language@ == language_of(query@),
{
    if contains(query, "import cpp") {
        "cpp"
    } else if contains(query, "import python") {
        "python"
    } else if contains(query, "import javascript") {
        "javascript"
    } else if contains(query, "import java") {
        "java"
    } else if contains(query, "import csharp") {
        "csharp"
    } else {
        "cpp"
    }
}

/// The scratch directory of the run with number `id`.
pub open spec fn workspace_dir(id: nat) -> Seq<char> {
    "tmp/query_"@ + decimal_digits(id)
}

/// The path of the package descriptor of run `id`.
pub open spec fn descriptor_path(id: nat) -> Seq<char> {
    workspace_dir(id) + "/qlpack.yml"@
}

/// The path of the query file of run `id`.
pub open spec fn query_path(id: nat) -> Seq<char> {
    workspace_dir(id) + "/query.ql"@
}

/// The path of the binary result of run `id`.
pub open spec fn bqrs_path(id: nat) -> Seq<char> {
    workspace_dir(id) + "/result.bqrs"@
}

/// The path of the decoded, tabular result of run `id`.
pub open spec fn csv_path(id: nat) -> Seq<char> {
    workspace_dir(id) + "/result.csv"@
}

/// The package descriptor of run `id`: a name, a version, and the library
/// of `language` as the one dependency.
pub open spec fn descriptor_text(id: nat, language: Seq<char>) -> Seq<char> {
    "name: tmpql-"@ + decimal_digits(id)
        + "\nversion: 0.0.1\nlibraryPathDependencies:\n  - codeql/"@ + language + "-all\n"@
}

/// The command that runs the query of run `id` against the database `db`.
pub open spec fn query_run_model(db: Seq<char>, id: nat) -> InvocationModel {
    InvocationModel {
        program: "codeql"@,
        args: seq![
            "query"@,
            "run"@,
            query_path(id),
            "--database="@ + db,
            "--output="@ + bqrs_path(id),
        ],
    }
}

/// The command that decodes the binary result of run `id` into tabular text.
pub open spec fn bqrs_decode_model(id: nat) -> InvocationModel {
    InvocationModel {
        program: "codeql"@,
        args: seq![
            "bqrs"@,
            "decode"@,
            bqrs_path(id),
            "--format=csv"@,
            "--output="@ + csv_path(id),
        ],
    }
}

/// One thing for the caller to do on behalf of a run.
#[derive(Debug)]
pub enum Action {
    /// Create this directory, and its parents where they are missing.
    CreateDir(String),
    /// Write `text` to the file at `path`.
    WriteFile { path: String, text: String },
    /// Spawn this command and wait for it.
    Spawn(Invocation),
    /// Read the file at this path as text.
    ReadFile(String),
    /// Remove this directory and all that is in it.
    RemoveDir(String),
}

/// The mathematical content of an [`Action`].
pub enum ActionModel {
    CreateDir(Seq<char>),
    WriteFile { path: Seq<char>, text: Seq<char> },
    Spawn(InvocationModel),
    ReadFile(Seq<char>),
    RemoveDir(Seq<char>),
}

impl DeepView for Action {
    type V = ActionModel;

    open spec fn deep_view(&self) -> ActionModel {
        match *self {
            Action::CreateDir(dir) => ActionModel::CreateDir(dir@),
            Action::WriteFile { path, text } => ActionModel::WriteFile { path: path@, text: text@ },
            Action::Spawn(cmd) => ActionModel::Spawn(cmd.deep_view()),
            Action::ReadFile(path) => ActionModel::ReadFile(path@),
            Action::RemoveDir(dir) => ActionModel::RemoveDir(dir@),
        }
    }
}

/// Which reply a run is waiting for.
#[derive(Debug)]
pub enum Stage {
    /// The workspace directory is being created.
    Creating,
    /// The package descriptor is being written.
    Describing,
    /// The query file is being written.
    Writing,
    /// The engine is running the query.
    Running,
    /// The engine is decoding the binary result.
    Decoding,
    /// The tabular result is being read.
    Reading,
    /// The workspace is being removed; how the run ends is settled.
    Cleaning(Result<String, AppError>),
}

/// The mathematical content of a [`Stage`].
pub enum StageModel {
    Creating,
    Describing,
    Writing,
    Running,
    Decoding,
    Reading,
    Cleaning(Result<Seq<char>, ErrorModel>),
}

impl DeepView for Stage {
    type V = StageModel;

    open spec fn deep_view(&self) -> StageModel {
        match *self {
            Stage::Creating => StageModel::Creating,
            Stage::Describing => StageModel::Describing,
            Stage::Writing => StageModel::Writing,
            Stage::Running => StageModel::Running,
            Stage::Decoding => StageModel::Decoding,
            Stage::Reading => StageModel::Reading,
            Stage::Cleaning(outcome) => StageModel::Cleaning(outcome_model(outcome)),
        }
    }
}

/// One run of a query, between two replies.
#[derive(Debug)]
pub struct QueryRun {
    id: u64,
    db_path: String,
    query: String,
    stage: Stage,
}

/// The mathematical content of a [`QueryRun`].
pub struct QueryRunModel {
    /// The number that names the workspace.
    pub id: nat,
    /// The path of the database.
    pub db: Seq<char>,
    /// The query text.
    pub query: Seq<char>,
    /// The reply that is awaited.
    pub stage: StageModel,
}

impl DeepView for QueryRun {
    type V = QueryRunModel;

    closed spec fn deep_view(&self) -> QueryRunModel {
        QueryRunModel {
            id: self.id as nat,
            db: self.db_path@,
            query: self.query@,
            stage: self.stage.deep_view(),
        }
    }
}

/// Where a run stands after a reply: something more to do, or the end.
#[derive(Debug)]
pub enum QueryStep {
    /// Carry out the action and hand its reply to [`QueryRun::advance`].
    Do(QueryRun, Action),
    /// The run is over and its workspace removed.
    Done(Result<String, AppError>),
}

/// The mathematical content of a [`QueryStep`].
pub enum QueryStepModel {
    Do(QueryRunModel, ActionModel),
    Done(Result<Seq<char>, ErrorModel>),
}

impl DeepView for QueryStep {
    type V = QueryStepModel;

    open spec fn deep_view(&self) -> QueryStepModel {
        match *self {
            QueryStep::Do(run, action) => QueryStepModel::Do(run.deep_view(), action.deep_view()),
            QueryStep::Done(outcome) => QueryStepModel::Done(outcome_model(outcome)),
        }
    }
}

impl QueryRunModel {
    /// The run with its outcome settled, and the removal of its workspace as
    /// the thing to do.
    pub open spec fn clean_up(self, outcome: Result<Seq<char>, ErrorModel>) -> QueryStepModel {
        QueryStepModel::Do(
            QueryRunModel { stage: StageModel::Cleaning(outcome), ..self },
            ActionModel::RemoveDir(workspace_dir(self.id)),
        )
    }

    /// The run at the next stage, with the action that belongs to it.
    pub open spec fn go_on(self, stage: StageModel, action: ActionModel) -> QueryStepModel {
        QueryStepModel::Do(QueryRunModel { stage, ..self }, action)
    }

    /// The first step of a run that draws its number on a source that
    /// gives out `upcoming` next: the run in the workspace of that number,
    /// or, where the numbers have run out, the end without a run.
    pub open spec fn begin(upcoming: nat, db: Seq<char>, query: Seq<char>) -> QueryStepModel {
        if upcoming < u64::MAX {
            Self::start(upcoming, db, query)
        } else {
            QueryStepModel::Done(Err(ErrorModel::NoWorkspace))
        }
    }

    /// The first step of a run: create the workspace directory.
    pub open spec fn start(id: nat, db: Seq<char>, query: Seq<char>) -> QueryStepModel {
        QueryStepModel::Do(
            QueryRunModel { id, db, query, stage: StageModel::Creating },
            ActionModel::CreateDir(workspace_dir(id)),
        )
    }

    /// What follows the reply to the action that was handed out last.
    ///
    /// The workspace is filled, the query run, its result decoded and read,
    /// in this order. A request that could not be carried out, or an engine
    /// that exits unsuccessfully, settles the run as failed there; reading
    /// the result settles it as done. A settled run removes its workspace
    /// and then ends as settled, whatever the removal came back with.
    pub open spec fn next(self, reply: Result<ReplyModel, std::io::Error>) -> QueryStepModel {
        match self.stage {
            StageModel::Cleaning(outcome) => QueryStepModel::Done(outcome),
            _ => match reply {
                Err(e) => self.clean_up(Err(ErrorModel::Io(e))),
                Ok(r) => match self.stage {
                    StageModel::Creating => self.go_on(
                        StageModel::Describing,
                        ActionModel::WriteFile {
                            path: descriptor_path(self.id),
                            text: descriptor_text(self.id, language_of(self.query)),
                        },
                    ),
                    StageModel::Describing => self.go_on(
                        StageModel::Writing,
                        ActionModel::WriteFile { path: query_path(self.id), text: self.query },
                    ),
                    StageModel::Writing => self.go_on(
                        StageModel::Running,
                        ActionModel::Spawn(query_run_model(self.db, self.id)),
                    ),
                    StageModel::Running => if r.success {
                        self.go_on(
                            StageModel::Decoding,
                            ActionModel::Spawn(bqrs_decode_model(self.id)),
                        )
                    } else {
                        self.clean_up(Err(ErrorModel::Engine(r.text)))
                    },
                    StageModel::Decoding => if r.success {
                        self.go_on(StageModel::Reading, ActionModel::ReadFile(csv_path(self.id)))
                    } else {
                        self.clean_up(Err(ErrorModel::Engine(r.text)))
                    },
                    _ => self.clean_up(Ok(r.text)),
                },
            },
        }
    }
}

/// Writes the path of the scratch directory of run `id`.
pub fn workspace_dir_of(id: u64) -> (dir: String)
    ensures
        dir@ == workspace_dir(id as nat),
{
    glue("tmp/query_", decimal(id).as_str())
}

fn workspace_file(id: u64, name: &str) -> (path: String)
    ensures
        path@ == workspace_dir(id as nat) + name@,
{
    glue(workspace_dir_of(id).as_str(), name)
}

fn descriptor_of(id: u64, language: &str) -> (text: String)
    ensures
        text@ == descriptor_text(id as nat, language@),
{
    let mut text = String::from_str("name: tmpql-");
    text.append(decimal(id).as_str());
    text.append("\nversion: 0.0.1\nlibraryPathDependencies:\n  - codeql/");
    text.append(language);
    text.append("-all\n");
    text
}

fn query_run_of(db_path: &str, id: u64) -> (cmd: Invocation)
    ensures
        cmd.deep_view() == query_run_model(db_path@, id as nat),
{
    let mut args: Vec<String> = Vec::new();
    args.push(String::from_str("query"));
    args.push(String::from_str("run"));
    args.push(workspace_file(id, "/query.ql"));
    args.push(glue("--database=", db_path));
    args.push(glue("--output=", workspace_file(id, "/result.bqrs").as_str()));
    let cmd = Invocation { program: String::from_str("codeql"), args };
    assert(cmd.deep_view().args =~= query_run_model(db_path@, id as nat).args);
    cmd
}

fn bqrs_decode_of(id: u64) -> (cmd: Invocation)
    ensures
        cmd.deep_view() == bqrs_decode_model(id as nat),
{
    let mut args: Vec<String> = Vec::new();
    args.push(String::from_str("bqrs"));
    args.push(String::from_str("decode"));
    args.push(workspace_file(id, "/result.bqrs"));
    args.push(String::from_str("--format=csv"));
    args.push(glue("--output=", workspace_file(id, "/result.csv").as_str()));
    let cmd = Invocation { program: String::from_str("codeql"), args };
    assert(cmd.deep_view().args =~= bqrs_decode_model(id as nat).args);
    cmd
}

impl CodeQLRunner {
    /// Begins a run of `query_string`. The run works in the workspace
    /// whose number `ids` gives out for it, so that no two runs that draw
    /// on one source share a workspace. Where the numbers have run out no
    /// run begins.
    pub fn run_query(&self, query_string: &str, ids: &mut WorkspaceIds) -> (step: QueryStep)
        ensures
            step.deep_view() == QueryRunModel::begin(
                old(ids).upcoming(),
                self.db(),
                query_string@,
            ),
            final(ids).upcoming() == WorkspaceIds::after(old(ids).upcoming()),
    {
        match ids.issue() {
            Some(id) => {
                let run = QueryRun {
                    id,
                    db_path: self.db_path.clone(),
                    query: String::from_str(query_string),
                    stage: Stage::Creating,
                };
                QueryStep::Do(run, Action::CreateDir(workspace_dir_of(id)))
            },
            None => QueryStep::Done(Err(AppError::NoWorkspace)),
        }
    }
}

impl QueryRun {
    fn clean_up(self, outcome: Result<String, AppError>) -> (step: QueryStep)
        ensures
            step.deep_view() == self.deep_view().clean_up(outcome_model(outcome)),
    {
        let dir = workspace_dir_of(self.id);
        let run = QueryRun {
            id: self.id,
            db_path: self.db_path,
            query: self.query,
            stage: Stage::Cleaning(outcome),
        };
        QueryStep::Do(run, Action::RemoveDir(dir))
    }

    fn go_on(self, stage: Stage, action: Action) -> (step: QueryStep)
        ensures
            step.deep_view() == self.deep_view().go_on(stage.deep_view(), action.deep_view()),
    {
        let run = QueryRun { id: self.id, db_path: self.db_path, query: self.query, stage };
        QueryStep::Do(run, action)
    }

    /// Takes the reply to the action that was handed out last and says what
    /// follows.
    pub fn advance(self, reply: Result<Reply, std::io::Error>) -> (step: QueryStep)
        ensures
            step.deep_view() == self.deep_view().next(reply_model(reply)),
    {
        if let Stage::Cleaning(outcome) = self.stage {
            return QueryStep::Done(outcome);
        }
        match reply {
            Err(e) => self.clean_up(Err(AppError::IoError(e))),
            Ok(r) => match self.stage {
                Stage::Creating => {
                    let language = language_name(self.query.as_str());
                    let action = Action::WriteFile {
                        path: workspace_file(self.id, "/qlpack.yml"),
                        text: descriptor_of(self.id, language),
                    };
                    self.go_on(Stage::Describing, action)
                },
                Stage::Describing => {
                    let action = Action::WriteFile {
                        path: workspace_file(self.id, "/query.ql"),
                        text: self.query.clone(),
                    };
                    self.go_on(Stage::Writing, action)
                },
                Stage::Writing => {
                    let action = Action::Spawn(query_run_of(self.db_path.as_str(), self.id));
                    self.go_on(Stage::Running, action)
                },
                Stage::Running => if r.success {
                    let action = Action::Spawn(bqrs_decode_of(self.id));
                    self.go_on(Stage::Decoding, action)
                } else {
                    self.clean_up(Err(AppError::CodeQLError(r.text)))
                },
                Stage::Decoding => if r.success {
                    let action = Action::ReadFile(workspace_file(self.id, "/result.csv"));
                    self.go_on(Stage::Reading, action)
                } else {
                    self.clean_up(Err(AppError::CodeQLError(r.text)))
                },
                _ => self.clean_up(Ok(r.text)),
            },
        }
    }
}

/// The file system and the engine, seen from a run: the reply to every
/// action.
pub struct Host {
    pub replies: spec_fn(ActionModel) -> Result<ReplyModel, std::io::Error>,
}

impl Host {
    /// Whether an action fails to be carried out, and with which error.
    pub open spec fn failure(self, action: ActionModel) -> Option<ErrorModel> {
        match (self.replies)(action) {
            Err(e) => Some(ErrorModel::Io(e)),
            Ok(_) => None,
        }
    }

    /// Whether a command fails, to be spawned or in its exit status, and
    /// with which error.
    pub open spec fn command_failure(self, cmd: InvocationModel) -> Option<ErrorModel> {
        exit_failure((self.replies)(ActionModel::Spawn(cmd)))
    }
}

/// What running `query` against the database `db` in the workspace `id`
/// comes to on `host`: the text of the decoded result, or the first
/// failure among creating the directory, writing the descriptor, writing
/// the query, running it, decoding its result, and reading the decoded
/// text. Removing the workspace has no part in it.
pub open spec fn query_outcome(host: Host, id: nat, db: Seq<char>, query: Seq<char>) -> Result<
    Seq<char>,
    ErrorModel,
> {
    let descriptor = ActionModel::WriteFile {
        path: descriptor_path(id),
        text: descriptor_text(id, language_of(query)),
    };
    let written = ActionModel::WriteFile { path: query_path(id), text: query };
    if host.failure(ActionModel::CreateDir(workspace_dir(id))) is Some {
        Err(host.failure(ActionModel::CreateDir(workspace_dir(id)))->Some_0)
    } else if host.failure(descriptor) is Some {
        Err(host.failure(descriptor)->Some_0)
    } else if host.failure(written) is Some {
        Err(host.failure(written)->Some_0)
    } else if host.command_failure(query_run_model(db, id)) is Some {
        Err(host.command_failure(query_run_model(db, id))->Some_0)
    } else if host.command_failure(bqrs_decode_model(id)) is Some {
        Err(host.command_failure(bqrs_decode_model(id))->Some_0)
    } else {
        match (host.replies)(ActionModel::ReadFile(csv_path(id))) {
            Err(e) => Err(ErrorModel::Io(e)),
            Ok(r) => Ok(r.text),
        }
    }
}

/// How a run ends when every action is answered by `host`, if it ends
/// within `fuel` actions.
pub open spec fn run_on(step: QueryStepModel, host: Host, fuel: nat) -> Option<
    Result<Seq<char>, ErrorModel>,
>
    decreases fuel,
{
    match step {
        QueryStepModel::Done(outcome) => Some(outcome),
        QueryStepModel::Do(run, action) => if fuel == 0 {
            None
        } else {
            run_on(run.next((host.replies)(action)), host, (fuel - 1) as nat)
        },
    }
}

/// A run ends within seven actions, and in the outcome that the host
/// determines.
pub proof fn theorem_query_run(host: Host, id: nat, db: Seq<char>, query: Seq<char>)
    ensures
        run_on(QueryRunModel::start(id, db, query), host, 7) == Some(
            query_outcome(host, id, db, query),
        ),
{
    reveal_with_fuel(run_on, 8);
}

/// How many replies a run at this stage takes at most before it ends.
pub open spec fn replies_left(stage: StageModel) -> nat {
    match stage {
        StageModel::Creating => 7,
        StageModel::Describing => 6,
        StageModel::Writing => 5,
        StageModel::Running => 4,
        StageModel::Decoding => 3,
        StageModel::Reading => 2,
        StageModel::Cleaning(_) => 1,
    }
}

/// Every reply brings a run nearer to its end, so that a run ends after
/// seven replies at most; and between two replies it stays the run of the
/// same query against the same database in the same workspace.
pub proof fn lemma_run_draws_to_end(run: QueryRunModel, reply: Result<ReplyModel, std::io::Error>)
    ensures
        run.next(reply) matches QueryStepModel::Do(later, _) ==> {
            &&& replies_left(later.stage) < replies_left(run.stage)
            &&& later.id == run.id
            &&& later.db == run.db
            &&& later.query == run.query
        },
{
}

/// No run ends without removing its workspace. A run ends only from the
/// stage at which its workspace is being removed, it enters that stage
/// only with the removal of its own workspace as the thing to do, and it
/// then ends as was settled on entering, whatever the removal came to.
pub proof fn lemma_run_removes_workspace(
    run: QueryRunModel,
    reply: Result<ReplyModel, std::io::Error>,
)
    ensures
        run.next(reply) matches QueryStepModel::Done(outcome) ==> run.stage
            == StageModel::Cleaning(outcome),
        run.next(reply) matches QueryStepModel::Do(later, action) ==> (later.stage is Cleaning
            <==> action == ActionModel::RemoveDir(workspace_dir(run.id))),
        run.stage matches StageModel::Cleaning(outcome) ==> run.next(reply)
            == QueryStepModel::Done(outcome),
{
}

/// Runs with different numbers work in different directories.
pub proof fn lemma_workspaces_differ(a: nat, b: nat)
    requires
        a != b,
    ensures
        workspace_dir(a) != workspace_dir(b),
{
    if workspace_dir(a) == workspace_dir(b) {
        let head = "tmp/query_"@;
        let x = decimal_digits(a);
        let y = decimal_digits(b);
        assert((head + x).subrange(head.len() as int, (head + x).len() as int) =~= x);
        assert((head + y).subrange(head.len() as int, (head + y).len() as int) =~= y);
        lemma_decimal_digits_differ(a, b);
    }
}

/// A source of workspace numbers that never gives a number twice.
#[derive(Debug)]
pub struct WorkspaceIds {
    next: u64,
}

impl WorkspaceIds {
    /// The number that is given out next. The last number of all is never
    /// given out: a source that has come to it has run out.
    pub closed spec fn upcoming(&self) -> nat {
        self.next as nat
    }

    /// What a source that gives out `upcoming` next gives out, if anything.
    pub open spec fn given(upcoming: nat) -> Option<u64> {
        if upcoming < u64::MAX {
            Some(upcoming as u64)
        } else {
            None
        }
    }

    /// What a source that gave out `upcoming`, or had run out at it,
    /// gives out next.
    pub open spec fn after(upcoming: nat) -> nat {
        if upcoming < u64::MAX {
            upcoming + 1
        } else {
            upcoming
        }
    }

    /// A source whose first number is `first`.
    pub fn new(first: u64) -> (ids: WorkspaceIds)
        ensures
            ids.upcoming() == first,
    {
        WorkspaceIds { next: first }
    }

    /// Gives out a number that is greater than every number given out
    /// before, or nothing once the numbers have run out.
    pub fn issue(&mut self) -> (id: Option<u64>)
        ensures
            id == Self::given(old(self).upcoming()),
            final(self).upcoming() == Self::after(old(self).upcoming()),
    {
        if self.next == u64::MAX {
            None
        } else {
            let id = self.next;
            self.next = id + 1;
            Some(id)
        }
    }
}

/// The runs that draw on one source work in different directories: a
/// source gives out rising numbers, and the directories of two different
/// numbers differ.
pub proof fn lemma_one_source_gives_different_workspaces(upcoming: nat)
    requires
        WorkspaceIds::given(upcoming) is Some,
    ensures
        WorkspaceIds::after(upcoming) > upcoming,
        forall|later: nat| later > upcoming ==> workspace_dir(later) != workspace_dir(upcoming),
{
    assert forall|later: nat| later > upcoming implies workspace_dir(later) != workspace_dir(
        upcoming,
    ) by {
        lemma_workspaces_differ(later, upcoming);
    }
}

} // verus!
