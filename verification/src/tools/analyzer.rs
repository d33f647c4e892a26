//! Answers to the semantic questions, each with the source it points at.

use crate::error::{AppError, ErrorModel};
use crate::text::{glue3, join_lines, joined_lines, lines_of};
use crate::tools::codeql::{outcome_model, CodeQLRunner};
use crate::tools::filesystem::{span_of, FileSystem};
use crate::tools::query::{
    function_query, function_query_text, override_query, override_query_text, variable_query,
    variable_query_text,
};
use crate::tools::record::{
    FunctionInfoModel, FunctionInfoParse, OverrideInfoModel, OverrideInfoParse, SourceInfoModel,
    SourceInfoParse,
};
use crate::utils::utils::{parse_csv, text_model};
use vstd::prelude::*;
use vstd::string::*;

verus! {

/// Something for the caller to find out on behalf of a lookup.
#[derive(Debug)]
pub enum Request {
    /// Run this query against the database; the reply is its tabular text.
    RunQuery(String),
    /// Read the file at this path; the reply is its text.
    ReadSource(String),
}

/// The mathematical content of a [`Request`].
pub enum RequestModel {
    RunQuery(Seq<char>),
    ReadSource(Seq<char>),
}

impl DeepView for Request {
    type V = RequestModel;

    open spec fn deep_view(&self) -> RequestModel {
        match *self {
            Request::RunQuery(text) => RequestModel::RunQuery(text@),
            Request::ReadSource(path) => RequestModel::ReadSource(path@),
        }
    }
}

/// The path of the file `filename` of the source tree under `root`.
pub open spec fn source_path(root: Seq<char>, filename: Seq<char>) -> Seq<char> {
    root + "/"@ + filename
}

/// The lines `start` to `end` of `content` as one text, or the failure
/// that says that `content` has no such lines.
pub open spec fn excerpt_of(content: Seq<char>, start: u32, end: u32) -> Result<
    Seq<char>,
    ErrorModel,
> {
    match span_of(content, start as nat, end as nat) {
        Some(lines) => Ok(joined_lines(lines)),
        None => Err(
            ErrorModel::OutOfRange {
                start: start as nat,
                end: end as nat,
                lines: lines_of(content).len(),
            },
        ),
    }
}

/// Cuts the lines `start` to `end` out of `content`.
pub fn excerpt(fs: &FileSystem, content: &str, start: u32, end: u32) -> (r: Result<
    String,
    AppError,
>)
    ensures
        outcome_model(r) == excerpt_of(content@, start, end),
{
    match fs.read_file_lines(content, start, end) {
        Ok(lines) => Ok(join_lines(&lines)),
        Err(e) => Err(e),
    }
}

/// Where a variable is defined: the file, the first line of the
/// definition, and the text of its lines.
#[derive(Debug)]
pub struct SourceInfoResult {
    pub filename: String,
    pub line: u32,
    pub code: String,
}

/// The mathematical content of a [`SourceInfoResult`].
pub struct SourceInfoAnswer {
    pub filename: Seq<char>,
    pub line: u32,
    pub code: Seq<char>,
}

impl DeepView for SourceInfoResult {
    type V = SourceInfoAnswer;

    open spec fn deep_view(&self) -> SourceInfoAnswer {
        SourceInfoAnswer { filename: self.filename@, line: self.line, code: self.code@ }
    }
}

/// A function that a call may reach: its qualified name, file, first line
/// and text, whether it is virtual, and for a virtual one the functions
/// that override it.
#[derive(Debug)]
pub struct FunctionInfoResult {
    pub name: String,
    pub filename: String,
    pub line: u32,
    pub code: String,
    pub is_virtual: bool,
    pub overrides: Option<Vec<FunctionInfoResult>>,
}

/// The mathematical content of a [`FunctionInfoResult`].
pub struct FunctionInfoAnswer {
    pub name: Seq<char>,
    pub filename: Seq<char>,
    pub line: u32,
    pub code: Seq<char>,
    pub is_virtual: bool,
    pub overrides: Option<Seq<FunctionInfoAnswer>>,
}

/// The content of an answer and, through [`answers_content`], of the
/// answers in its list.
pub open spec fn answer_content(answer: FunctionInfoResult) -> FunctionInfoAnswer
    decreases answer,
{
    FunctionInfoAnswer {
        name: answer.name@,
        filename: answer.filename@,
        line: answer.line,
        code: answer.code@,
        is_virtual: answer.is_virtual,
        overrides: match answer.overrides {
            Some(list) => Some(answers_content(list@)),
            None => None,
        },
    }
}

/// The contents of the answers `list`, in order.
pub open spec fn answers_content(list: Seq<FunctionInfoResult>) -> Seq<FunctionInfoAnswer>
    decreases list,
{
    if list.len() == 0 {
        Seq::empty()
    } else {
        answers_content(list.drop_last()).push(answer_content(list.last()))
    }
}

impl DeepView for FunctionInfoResult {
    type V = FunctionInfoAnswer;

    open spec fn deep_view(&self) -> FunctionInfoAnswer {
        answer_content(*self)
    }
}

/// A variable lookup between two replies.
#[derive(Debug)]
pub struct VariableLookup {
    root: String,
    fs: FileSystem,
    found: Option<SourceInfoParse>,
}

/// The mathematical content of a [`VariableLookup`].
pub struct VariableLookupModel {
    /// The root of the source tree.
    pub root: Seq<char>,
    /// The one row that the query selected, once it is known.
    pub found: Option<SourceInfoModel>,
}

impl DeepView for VariableLookup {
    type V = VariableLookupModel;

    closed spec fn deep_view(&self) -> VariableLookupModel {
        VariableLookupModel { root: self.root@, found: self.found.deep_view() }
    }
}

/// Where a variable lookup stands: a request to carry out, or the end.
#[derive(Debug)]
pub enum VariableStep {
    /// Carry out the request and hand its reply to [`VariableLookup::advance`].
    Ask(VariableLookup, Request),
    /// The lookup is over.
    Done(Result<SourceInfoResult, AppError>),
}

/// The mathematical content of a [`VariableStep`].
pub enum VariableStepModel {
    Ask(VariableLookupModel, RequestModel),
    Done(Result<SourceInfoAnswer, ErrorModel>),
}

impl DeepView for VariableStep {
    type V = VariableStepModel;

    open spec fn deep_view(&self) -> VariableStepModel {
        match *self {
            VariableStep::Ask(lookup, request) => VariableStepModel::Ask(
                lookup.deep_view(),
                request.deep_view(),
            ),
            VariableStep::Done(Ok(answer)) => VariableStepModel::Done(Ok(answer.deep_view())),
            VariableStep::Done(Err(e)) => VariableStepModel::Done(Err(e.deep_view())),
        }
    }
}

/// The failure of a variable lookup whose query selected nothing.
pub open spec fn no_results() -> ErrorModel {
    ErrorModel::NotFound("no results"@)
}

/// The failure of a variable lookup whose query selected more than one row.
pub open spec fn multiple_results() -> ErrorModel {
    ErrorModel::Ambiguous("multiple results"@)
}

impl VariableLookupModel {
    /// The first step: run the variable-definition query.
    pub open spec fn start(root: Seq<char>, file: Seq<char>, line: nat, name: Seq<char>)
        -> VariableStepModel {
        VariableStepModel::Ask(
            VariableLookupModel { root, found: None },
            RequestModel::RunQuery(variable_query_text(file, line, name)),
        )
    }

    /// What follows the query's tabular text: the failure to decode it, the
    /// failure of a query that selected no row or several, or the request
    /// for the file that the one row names.
    pub open spec fn after_query(self, table: Seq<char>) -> VariableStepModel {
        match text_model::<SourceInfoParse>(table) {
            Err(e) => VariableStepModel::Done(Err(e)),
            Ok(rows) => if rows.len() == 0 {
                VariableStepModel::Done(Err(no_results()))
            } else if rows.len() > 1 {
                VariableStepModel::Done(Err(multiple_results()))
            } else {
                VariableStepModel::Ask(
                    VariableLookupModel { found: Some(rows[0]), ..self },
                    RequestModel::ReadSource(source_path(self.root, rows[0].filename)),
                )
            },
        }
    }

    /// What follows the text of the file that `row` names: the answer with
    /// the lines of the row's span, or the failure where the file has no
    /// such lines.
    pub open spec fn after_source(row: SourceInfoModel, content: Seq<char>) -> VariableStepModel {
        match excerpt_of(content, row.startline, row.endline) {
            Err(e) => VariableStepModel::Done(Err(e)),
            Ok(code) => VariableStepModel::Done(
                Ok(SourceInfoAnswer { filename: row.filename, line: row.startline, code }),
            ),
        }
    }

    /// What follows the reply to the request that was handed out last. A
    /// request that failed ends the lookup with its failure.
    pub open spec fn next(self, reply: Result<Seq<char>, ErrorModel>) -> VariableStepModel {
        match reply {
            Err(e) => VariableStepModel::Done(Err(e)),
            Ok(text) => match self.found {
                None => self.after_query(text),
                Some(row) => Self::after_source(row, text),
            },
        }
    }
}

impl VariableLookup {
    /// Takes the reply to the request that was handed out last and says
    /// what follows.
    pub fn advance(self, reply: Result<String, AppError>) -> (step: VariableStep)
        ensures
            step.deep_view() == self.deep_view().next(outcome_model(reply)),
    {
        let text = match reply {
            Err(e) => { return VariableStep::Done(Err(e)); },
            Ok(text) => text,
        };
        match self.found {
            None => {
                let mut rows = match parse_csv::<SourceInfoParse>(text.as_str()) {
                    Err(e) => { return VariableStep::Done(Err(e)); },
                    Ok(rows) => rows,
                };
                if rows.len() == 0 {
                    return VariableStep::Done(
                        Err(AppError::NotFound(String::from_str("no results"))),
                    );
                }
                if rows.len() > 1 {
                    return VariableStep::Done(
                        Err(AppError::Ambiguous(String::from_str("multiple results"))),
                    );
                }
                let row = rows.pop().unwrap();
                let path = glue3(self.root.as_str(), "/", row.filename.as_str());
                let lookup = VariableLookup { root: self.root, fs: self.fs, found: Some(row) };
                VariableStep::Ask(lookup, Request::ReadSource(path))
            },
            Some(row) => {
                match excerpt(&self.fs, text.as_str(), row.startline, row.endline) {
                    Err(e) => VariableStep::Done(Err(e)),
                    Ok(code) => VariableStep::Done(
                        Ok(SourceInfoResult { filename: row.filename, line: row.startline, code }),
                    ),
                }
            },
        }
    }
}

/// The semantic questions that can be put to a code database.
#[derive(Debug)]
pub struct CodeQLAnalyzer {
    runner: CodeQLRunner,
    fs: FileSystem,
}

impl CodeQLAnalyzer {
    /// The runner whose database is asked.
    pub closed spec fn runner_model(&self) -> CodeQLRunner {
        self.runner
    }

    /// An analyzer for the database of `runner`.
    pub fn new(runner: CodeQLRunner) -> (analyzer: CodeQLAnalyzer)
        ensures
            analyzer.runner_model() == runner,
    {
        CodeQLAnalyzer { runner, fs: FileSystem::new() }
    }

    /// The runner whose database is asked.
    pub fn runner(&self) -> (runner: &CodeQLRunner)
        ensures
            *runner == self.runner_model(),
    {
        &self.runner
    }

    /// Begins the lookup of the definition of the variable `varname` that
    /// is accessed at line `line` of `filename`.
    pub fn find_var_definitions(&self, filename: &str, line: u32, varname: &str) -> (step:
        VariableStep)
        ensures
            step.deep_view() == VariableLookupModel::start(
                self.runner_model().src(),
                filename@,
                line as nat,
                varname@,
            ),
    {
        let lookup = VariableLookup {
            root: String::from_str(self.runner.src_path()),
            fs: self.fs,
            found: None,
        };
        VariableStep::Ask(lookup, Request::RunQuery(variable_query(filename, line, varname)))
    }
}

/// The answer for the call target `target` with the text `code` and,
/// for a virtual one, the functions that override it.
pub open spec fn target_answer(
    target: FunctionInfoModel,
    code: Seq<char>,
    overrides: Option<Seq<FunctionInfoAnswer>>,
) -> FunctionInfoAnswer {
    FunctionInfoAnswer {
        name: target.name,
        filename: target.filename,
        line: target.startline,
        code,
        is_virtual: target.is_virtual,
        overrides,
    }
}

/// The answer for the overriding function `row` with the text `code`. It
/// is marked virtual, and its own list of overrides is empty: what
/// overrides an override is not looked up.
pub open spec fn override_answer(row: OverrideInfoModel, code: Seq<char>) -> FunctionInfoAnswer {
    FunctionInfoAnswer {
        name: row.name,
        filename: row.filename,
        line: row.startline,
        code,
        is_virtual: true,
        overrides: Some(Seq::empty()),
    }
}

/// The failure of a function lookup whose query selected nothing.
pub open spec fn no_function_call() -> ErrorModel {
    ErrorModel::NotFound("no function call found at the specified location"@)
}

/// Which reply a function lookup is waiting for.
#[derive(Debug)]
pub enum FunctionStage {
    /// The rows of the call targets.
    Targets,
    /// The text of the file of the target that is being resolved.
    TargetSource,
    /// The rows of the functions that override the target, which is
    /// virtual and has the text `code`.
    Overrides { code: String },
    /// The text of the file of the first of `rows` that has no entry yet.
    OverrideSource { code: String, rows: Vec<OverrideInfoParse>, entries: Vec<FunctionInfoResult> },
}

/// The mathematical content of a [`FunctionStage`].
pub enum FunctionStageModel {
    Targets,
    TargetSource,
    Overrides { code: Seq<char> },
    OverrideSource {
        code: Seq<char>,
        rows: Seq<OverrideInfoModel>,
        entries: Seq<FunctionInfoAnswer>,
    },
}

impl DeepView for FunctionStage {
    type V = FunctionStageModel;

    open spec fn deep_view(&self) -> FunctionStageModel {
        match *self {
            FunctionStage::Targets => FunctionStageModel::Targets,
            FunctionStage::TargetSource => FunctionStageModel::TargetSource,
            FunctionStage::Overrides { code } => FunctionStageModel::Overrides { code: code@ },
            FunctionStage::OverrideSource { code, rows, entries } => {
                FunctionStageModel::OverrideSource {
                    code: code@,
                    rows: rows.deep_view(),
                    entries: entries.deep_view(),
                }
            },
        }
    }
}

/// A function lookup between two replies. The targets are resolved one
/// after the other, in the order of their rows; the target that is being
/// resolved is the first without an answer.
#[derive(Debug)]
pub struct FunctionLookup {
    root: String,
    fs: FileSystem,
    targets: Vec<FunctionInfoParse>,
    answers: Vec<FunctionInfoResult>,
    stage: FunctionStage,
}

/// The mathematical content of a [`FunctionLookup`].
pub struct FunctionLookupModel {
    /// The root of the source tree.
    pub root: Seq<char>,
    /// The rows of the call targets, once they are known.
    pub targets: Seq<FunctionInfoModel>,
    /// The answers for the targets that are resolved.
    pub answers: Seq<FunctionInfoAnswer>,
    /// The reply that is awaited.
    pub stage: FunctionStageModel,
}

impl DeepView for FunctionLookup {
    type V = FunctionLookupModel;

    closed spec fn deep_view(&self) -> FunctionLookupModel {
        FunctionLookupModel {
            root: self.root@,
            targets: self.targets.deep_view(),
            answers: self.answers.deep_view(),
            stage: self.stage.deep_view(),
        }
    }
}

/// Where a function lookup stands: a request to carry out, or the end.
#[derive(Debug)]
pub enum FunctionStep {
    /// Carry out the request and hand its reply to [`FunctionLookup::advance`].
    Ask(FunctionLookup, Request),
    /// The lookup is over.
    Done(Result<Vec<FunctionInfoResult>, AppError>),
}

/// The mathematical content of a [`FunctionStep`].
pub enum FunctionStepModel {
    Ask(FunctionLookupModel, RequestModel),
    Done(Result<Seq<FunctionInfoAnswer>, ErrorModel>),
}

impl DeepView for FunctionStep {
    type V = FunctionStepModel;

    open spec fn deep_view(&self) -> FunctionStepModel {
        match *self {
            FunctionStep::Ask(lookup, request) => FunctionStepModel::Ask(
                lookup.deep_view(),
                request.deep_view(),
            ),
            FunctionStep::Done(Ok(answers)) => FunctionStepModel::Done(Ok(answers.deep_view())),
            FunctionStep::Done(Err(e)) => FunctionStepModel::Done(Err(e.deep_view())),
        }
    }
}

impl FunctionLookupModel {
    /// Whether the lookup can stand where it says: but before the targets
    /// are known there is a target without an answer, and while the
    /// overrides of a target are read there is a row without an entry.
    pub open spec fn wf(self) -> bool {
        match self.stage {
            FunctionStageModel::Targets => true,
            FunctionStageModel::TargetSource => self.answers.len() < self.targets.len(),
            FunctionStageModel::Overrides { .. } => self.answers.len() < self.targets.len(),
            FunctionStageModel::OverrideSource { rows, entries, .. } => {
                &&& self.answers.len() < self.targets.len()
                &&& entries.len() < rows.len()
            },
        }
    }

    /// The target that is being resolved.
    pub open spec fn target(self) -> FunctionInfoModel {
        self.targets[self.answers.len() as int]
    }

    /// The first step: run the function-call-target query.
    pub open spec fn start(root: Seq<char>, file: Seq<char>, line: nat, name: Seq<char>)
        -> FunctionStepModel {
        FunctionStepModel::Ask(
            FunctionLookupModel {
                root,
                targets: Seq::empty(),
                answers: Seq::empty(),
                stage: FunctionStageModel::Targets,
            },
            RequestModel::RunQuery(function_query_text(file, line, name)),
        )
    }

    /// What follows once the target that is being resolved has its
    /// answer: the file of the next target, or the end with all answers.
    pub open spec fn resolved(self, answer: FunctionInfoAnswer) -> FunctionStepModel {
        let answers = self.answers.push(answer);
        if answers.len() >= self.targets.len() {
            FunctionStepModel::Done(Ok(answers))
        } else {
            FunctionStepModel::Ask(
                FunctionLookupModel { answers, stage: FunctionStageModel::TargetSource, ..self },
                RequestModel::ReadSource(
                    source_path(self.root, self.targets[answers.len() as int].filename),
                ),
            )
        }
    }

    /// What follows the tabular text of the call targets: the failure to
    /// decode it, the failure of a query that selected nothing, or the
    /// request for the file of the first target.
    pub open spec fn after_targets(self, table: Seq<char>) -> FunctionStepModel {
        match text_model::<FunctionInfoParse>(table) {
            Err(e) => FunctionStepModel::Done(Err(e)),
            Ok(rows) => if rows.len() == 0 {
                FunctionStepModel::Done(Err(no_function_call()))
            } else {
                FunctionStepModel::Ask(
                    FunctionLookupModel {
                        targets: rows,
                        answers: Seq::empty(),
                        stage: FunctionStageModel::TargetSource,
                        ..self
                    },
                    RequestModel::ReadSource(source_path(self.root, rows[0].filename)),
                )
            },
        }
    }

    /// What follows the text of the target's file: for a virtual target
    /// the query for its overrides, else its answer, without a list.
    pub open spec fn after_target_source(self, content: Seq<char>) -> FunctionStepModel {
        let target = self.target();
        match excerpt_of(content, target.startline, target.endline) {
            Err(e) => FunctionStepModel::Done(Err(e)),
            Ok(code) => if target.is_virtual {
                FunctionStepModel::Ask(
                    FunctionLookupModel { stage: FunctionStageModel::Overrides { code }, ..self },
                    RequestModel::RunQuery(override_query_text(target.name)),
                )
            } else {
                self.resolved(target_answer(target, code, None))
            },
        }
    }

    /// What follows the tabular text of the target's overrides: the
    /// request for the file of the first row, or, where there is no row,
    /// the target's answer with an empty list.
    pub open spec fn after_overrides(self, code: Seq<char>, table: Seq<char>) -> FunctionStepModel {
        match text_model::<OverrideInfoParse>(table) {
            Err(e) => FunctionStepModel::Done(Err(e)),
            Ok(rows) => if rows.len() == 0 {
                self.resolved(target_answer(self.target(), code, Some(Seq::empty())))
            } else {
                FunctionStepModel::Ask(
                    FunctionLookupModel {
                        stage: FunctionStageModel::OverrideSource {
                            code,
                            rows,
                            entries: Seq::empty(),
                        },
                        ..self
                    },
                    RequestModel::ReadSource(source_path(self.root, rows[0].filename)),
                )
            },
        }
    }

    /// What follows the text of the file of the first row without an
    /// entry: the request for the file of the next row, or, where every
    /// row has its entry, the target's answer with the entries as its list.
    pub open spec fn after_override_source(
        self,
        code: Seq<char>,
        rows: Seq<OverrideInfoModel>,
        entries: Seq<FunctionInfoAnswer>,
        content: Seq<char>,
    ) -> FunctionStepModel {
        let row = rows[entries.len() as int];
        match excerpt_of(content, row.startline, row.endline) {
            Err(e) => FunctionStepModel::Done(Err(e)),
            Ok(text) => {
                let entries = entries.push(override_answer(row, text));
                if entries.len() >= rows.len() {
                    self.resolved(target_answer(self.target(), code, Some(entries)))
                } else {
                    FunctionStepModel::Ask(
                        FunctionLookupModel {
                            stage: FunctionStageModel::OverrideSource { code, rows, entries },
                            ..self
                        },
                        RequestModel::ReadSource(
                            source_path(self.root, rows[entries.len() as int].filename),
                        ),
                    )
                }
            },
        }
    }

    /// What follows the reply to the request that was handed out last. A
    /// request that failed ends the lookup with its failure.
    pub open spec fn next(self, reply: Result<Seq<char>, ErrorModel>) -> FunctionStepModel {
        match reply {
            Err(e) => FunctionStepModel::Done(Err(e)),
            Ok(text) => match self.stage {
                FunctionStageModel::Targets => self.after_targets(text),
                FunctionStageModel::TargetSource => self.after_target_source(text),
                FunctionStageModel::Overrides { code } => self.after_overrides(code, text),
                FunctionStageModel::OverrideSource { code, rows, entries } => {
                    self.after_override_source(code, rows, entries, text)
                },
            },
        }
    }
}

/// The content of a list of answers is the list of their contents.
pub proof fn lemma_answers_content(list: Seq<FunctionInfoResult>)
    ensures
        answers_content(list).len() == list.len(),
        forall|i: int| 0 <= i < list.len() ==> answers_content(list)[i] == list[i].deep_view(),
    decreases list.len(),
{
    if list.len() > 0 {
        lemma_answers_content(list.drop_last());
    }
}

/// The list of an answer's content is the content of the answer's list.
pub proof fn lemma_overrides_model(answer: FunctionInfoResult)
    ensures
        answer.deep_view().overrides == answer.overrides.deep_view(),
{
    match answer.overrides {
        Some(list) => {
            lemma_answers_content(list@);
        },
        None => {},
    }
}

impl FunctionLookup {
    #[verifier::type_invariant]
    closed spec fn inv(&self) -> bool {
        self.deep_view().wf()
    }

    fn path_of(&self, filename: &str) -> (path: String)
        ensures
            path@ == source_path(self.deep_view().root, filename@),
    {
        glue3(self.root.as_str(), "/", filename)
    }

    fn resolved(self, code: String, overrides: Option<Vec<FunctionInfoResult>>) -> (step:
        FunctionStep)
        requires
            self.deep_view().answers.len() < self.deep_view().targets.len(),
        ensures
            step.deep_view() == self.deep_view().resolved(
                target_answer(self.deep_view().target(), code@, overrides.deep_view()),
            ),
    {
        let ghost before = self.deep_view();
        let FunctionLookup { root, fs, targets, mut answers, stage } = self;
        let target = &targets[answers.len()];
        let answer = FunctionInfoResult {
            name: target.name.clone(),
            filename: target.filename.clone(),
            line: target.startline,
            code,
            is_virtual: target.is_virtual,
            overrides,
        };
        proof {
            lemma_overrides_model(answer);
            assert(answer.deep_view() == target_answer(
                before.target(),
                code@,
                overrides.deep_view(),
            ));
        }
        answers.push(answer);
        assert(answers.deep_view() =~= before.answers.push(answer.deep_view()));
        if answers.len() >= targets.len() {
            FunctionStep::Done(Ok(answers))
        } else {
            let path = glue3(root.as_str(), "/", targets[answers.len()].filename.as_str());
            let lookup = FunctionLookup {
                root,
                fs,
                targets,
                answers,
                stage: FunctionStage::TargetSource,
            };
            FunctionStep::Ask(lookup, Request::ReadSource(path))
        }
    }

    /// Takes the reply to the request that was handed out last and says
    /// what follows.
    pub fn advance(self, reply: Result<String, AppError>) -> (step: FunctionStep)
        ensures
            step.deep_view() == self.deep_view().next(outcome_model(reply)),
    {
        proof {
            use_type_invariant(&self);
        }
        let text = match reply {
            Err(e) => { return FunctionStep::Done(Err(e)); },
            Ok(text) => text,
        };
        let FunctionLookup { root, fs, targets, answers, stage } = self;
        match stage {
            FunctionStage::Targets => {
                let rows = match parse_csv::<FunctionInfoParse>(text.as_str()) {
                    Err(e) => { return FunctionStep::Done(Err(e)); },
                    Ok(rows) => rows,
                };
                if rows.len() == 0 {
                    return FunctionStep::Done(
                        Err(
                            AppError::NotFound(
                                String::from_str(
                                    "no function call found at the specified location",
                                ),
                            ),
                        ),
                    );
                }
                let path = glue3(root.as_str(), "/", rows[0].filename.as_str());
                let answers: Vec<FunctionInfoResult> = Vec::new();
                assert(answers.deep_view() =~= Seq::<FunctionInfoAnswer>::empty());
                let lookup = FunctionLookup {
                    root,
                    fs,
                    targets: rows,
                    answers,
                    stage: FunctionStage::TargetSource,
                };
                FunctionStep::Ask(lookup, Request::ReadSource(path))
            },
            FunctionStage::TargetSource => {
                let target = &targets[answers.len()];
                let code = match excerpt(&fs, text.as_str(), target.startline, target.endline) {
                    Err(e) => { return FunctionStep::Done(Err(e)); },
                    Ok(code) => code,
                };
                if target.is_virtual {
                    let query = override_query(target.name.as_str());
                    let lookup = FunctionLookup {
                        root,
                        fs,
                        targets,
                        answers,
                        stage: FunctionStage::Overrides { code },
                    };
                    FunctionStep::Ask(lookup, Request::RunQuery(query))
                } else {
                    let lookup = FunctionLookup {
                        root,
                        fs,
                        targets,
                        answers,
                        stage: FunctionStage::TargetSource,
                    };
                    lookup.resolved(code, None)
                }
            },
            FunctionStage::Overrides { code } => {
                let rows = match parse_csv::<OverrideInfoParse>(text.as_str()) {
                    Err(e) => { return FunctionStep::Done(Err(e)); },
                    Ok(rows) => rows,
                };
                let entries: Vec<FunctionInfoResult> = Vec::new();
                assert(entries.deep_view() =~= Seq::<FunctionInfoAnswer>::empty());
                if rows.len() == 0 {
                    let lookup = FunctionLookup {
                        root,
                        fs,
                        targets,
                        answers,
                        stage: FunctionStage::TargetSource,
                    };
                    lookup.resolved(code, Some(entries))
                } else {
                    let path = glue3(root.as_str(), "/", rows[0].filename.as_str());
                    let lookup = FunctionLookup {
                        root,
                        fs,
                        targets,
                        answers,
                        stage: FunctionStage::OverrideSource { code, rows, entries },
                    };
                    FunctionStep::Ask(lookup, Request::ReadSource(path))
                }
            },
            FunctionStage::OverrideSource { code, rows, mut entries } => {
                let ghost had = entries.deep_view();
                let row = &rows[entries.len()];
                let body = match excerpt(&fs, text.as_str(), row.startline, row.endline) {
                    Err(e) => { return FunctionStep::Done(Err(e)); },
                    Ok(body) => body,
                };
                let none: Vec<FunctionInfoResult> = Vec::new();
                let entry = FunctionInfoResult {
                    name: row.name.clone(),
                    filename: row.filename.clone(),
                    line: row.startline,
                    code: body,
                    is_virtual: true,
                    overrides: Some(none),
                };
                proof {
                    lemma_overrides_model(entry);
                }
                entries.push(entry);
                assert(entries.deep_view() =~= had.push(entry.deep_view()));
                if entries.len() >= rows.len() {
                    let lookup = FunctionLookup {
                        root,
                        fs,
                        targets,
                        answers,
                        stage: FunctionStage::TargetSource,
                    };
                    lookup.resolved(code, Some(entries))
                } else {
                    let path = glue3(root.as_str(), "/", rows[entries.len()].filename.as_str());
                    let lookup = FunctionLookup {
                        root,
                        fs,
                        targets,
                        answers,
                        stage: FunctionStage::OverrideSource { code, rows, entries },
                    };
                    FunctionStep::Ask(lookup, Request::ReadSource(path))
                }
            },
        }
    }
}

impl CodeQLAnalyzer {
    /// Begins the lookup of the functions that the call to `name` at line
    /// `line` of `filename` may reach.
    pub fn find_function_code(&self, filename: &str, line: u32, name: &str) -> (step:
        FunctionStep)
        ensures
            step.deep_view() == FunctionLookupModel::start(
                self.runner_model().src(),
                filename@,
                line as nat,
                name@,
            ),
    {
        let targets: Vec<FunctionInfoParse> = Vec::new();
        let answers: Vec<FunctionInfoResult> = Vec::new();
        assert(targets.deep_view() =~= Seq::<FunctionInfoModel>::empty());
        assert(answers.deep_view() =~= Seq::<FunctionInfoAnswer>::empty());
        let lookup = FunctionLookup {
            root: String::from_str(self.runner.src_path()),
            fs: self.fs,
            targets,
            answers,
            stage: FunctionStage::Targets,
        };
        FunctionStep::Ask(lookup, Request::RunQuery(function_query(filename, line, name)))
    }
}

} // verus!
