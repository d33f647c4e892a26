//! What the lookups answer, said in one piece.
//!
//! A lookup is carried out step by step, with the caller running queries
//! and reading files in between. Here the database and the source tree
//! are a [`World`] that holds a reply to every request, and the answer of
//! a lookup is a function of that world. The theorems say that a lookup
//! driven through such a world ends, and ends in that answer.

use crate::error::ErrorModel;
use crate::text::joined_lines;
use crate::tools::analyzer::{
    excerpt_of, multiple_results, no_function_call, no_results, override_answer, source_path,
    target_answer, FunctionInfoAnswer, FunctionLookupModel, FunctionStageModel, FunctionStepModel,
    RequestModel, SourceInfoAnswer, VariableLookupModel, VariableStepModel,
};
use crate::tools::filesystem::span_of;
use crate::tools::query::{function_query_text, override_query_text, variable_query_text};
use crate::tools::record::{
    FunctionInfoModel, FunctionInfoParse, OverrideInfoModel, OverrideInfoParse, SourceInfoModel,
    SourceInfoParse,
};
use crate::utils::utils::text_model;
use vstd::prelude::*;

verus! {

/// A database and a source tree, seen from outside: the reply to every
/// query text and to every path.
pub struct World {
    /// The tabular text that running a query gives, or why running it fails.
    pub tables: spec_fn(Seq<char>) -> Result<Seq<char>, ErrorModel>,
    /// The text of the file at a path, or why reading it fails.
    pub sources: spec_fn(Seq<char>) -> Result<Seq<char>, ErrorModel>,
}

impl World {
    /// The reply to a request.
    pub open spec fn reply(self, request: RequestModel) -> Result<Seq<char>, ErrorModel> {
        match request {
            RequestModel::RunQuery(text) => (self.tables)(text),
            RequestModel::ReadSource(path) => (self.sources)(path),
        }
    }

    /// The lines `start` to `end` of the file `filename` under `root`, as
    /// one text.
    pub open spec fn excerpt(self, root: Seq<char>, filename: Seq<char>, start: u32, end: u32)
        -> Result<Seq<char>, ErrorModel> {
        match (self.sources)(source_path(root, filename)) {
            Err(e) => Err(e),
            Ok(content) => excerpt_of(content, start, end),
        }
    }
}

/// Where the variable `name` that is accessed at line `line` of `file` is
/// defined. The query has to select exactly one row; the answer holds the
/// row's file and first line, and the lines of its span.
pub open spec fn find_variable_definition(
    world: World,
    root: Seq<char>,
    file: Seq<char>,
    line: nat,
    name: Seq<char>,
) -> Result<SourceInfoAnswer, ErrorModel> {
    match (world.tables)(variable_query_text(file, line, name)) {
        Err(e) => Err(e),
        Ok(table) => match text_model::<SourceInfoParse>(table) {
            Err(e) => Err(e),
            Ok(rows) => if rows.len() == 0 {
                Err(no_results())
            } else if rows.len() > 1 {
                Err(multiple_results())
            } else {
                match world.excerpt(root, rows[0].filename, rows[0].startline, rows[0].endline) {
                    Err(e) => Err(e),
                    Ok(code) => Ok(
                        SourceInfoAnswer {
                            filename: rows[0].filename,
                            line: rows[0].startline,
                            code,
                        },
                    ),
                }
            },
        },
    }
}

/// The answers for the overriding functions `rows`, one for each row and
/// in the order of the rows, or the first failure to read a row's lines.
pub open spec fn override_entries(world: World, root: Seq<char>, rows: Seq<OverrideInfoModel>)
    -> Result<Seq<FunctionInfoAnswer>, ErrorModel>
    decreases rows.len(),
{
    if rows.len() == 0 {
        Ok(Seq::empty())
    } else {
        match override_entries(world, root, rows.drop_last()) {
            Err(e) => Err(e),
            Ok(head) => {
                let row = rows.last();
                match world.excerpt(root, row.filename, row.startline, row.endline) {
                    Err(e) => Err(e),
                    Ok(code) => Ok(head.push(override_answer(row, code))),
                }
            },
        }
    }
}

/// The functions that override the virtual function `name`: one answer
/// for each row of the override query, none where it selects nothing.
/// What overrides an override is not asked.
pub open spec fn resolve_overrides(world: World, root: Seq<char>, name: Seq<char>) -> Result<
    Seq<FunctionInfoAnswer>,
    ErrorModel,
> {
    match (world.tables)(override_query_text(name)) {
        Err(e) => Err(e),
        Ok(table) => match text_model::<OverrideInfoParse>(table) {
            Err(e) => Err(e),
            Ok(rows) => override_entries(world, root, rows),
        },
    }
}

/// The answer for one call target: its lines and, where it is virtual,
/// the functions that override it.
pub open spec fn resolve_target(world: World, root: Seq<char>, target: FunctionInfoModel)
    -> Result<FunctionInfoAnswer, ErrorModel> {
    match world.excerpt(root, target.filename, target.startline, target.endline) {
        Err(e) => Err(e),
        Ok(code) => if target.is_virtual {
            match resolve_overrides(world, root, target.name) {
                Err(e) => Err(e),
                Ok(list) => Ok(target_answer(target, code, Some(list))),
            }
        } else {
            Ok(target_answer(target, code, None))
        },
    }
}

/// The answers for the call targets `targets`, one for each and in their
/// order, or the first failure to resolve one.
pub open spec fn resolve_targets(world: World, root: Seq<char>, targets: Seq<FunctionInfoModel>)
    -> Result<Seq<FunctionInfoAnswer>, ErrorModel>
    decreases targets.len(),
{
    if targets.len() == 0 {
        Ok(Seq::empty())
    } else {
        match resolve_targets(world, root, targets.drop_last()) {
            Err(e) => Err(e),
            Ok(head) => match resolve_target(world, root, targets.last()) {
                Err(e) => Err(e),
                Ok(answer) => Ok(head.push(answer)),
            },
        }
    }
}

/// The functions that the call to `name` at line `line` of `file` may
/// reach. The query has to select at least one row; every row is
/// answered, in the order of the rows.
pub open spec fn find_function_implementation(
    world: World,
    root: Seq<char>,
    file: Seq<char>,
    line: nat,
    name: Seq<char>,
) -> Result<Seq<FunctionInfoAnswer>, ErrorModel> {
    match (world.tables)(function_query_text(file, line, name)) {
        Err(e) => Err(e),
        Ok(table) => match text_model::<FunctionInfoParse>(table) {
            Err(e) => Err(e),
            Ok(rows) => if rows.len() == 0 {
                Err(no_function_call())
            } else {
                resolve_targets(world, root, rows)
            },
        },
    }
}

/// How a variable lookup ends when every request is answered by `world`,
/// if it ends within `fuel` requests.
pub open spec fn run_variable(step: VariableStepModel, world: World, fuel: nat) -> Option<
    Result<SourceInfoAnswer, ErrorModel>,
>
    decreases fuel,
{
    match step {
        VariableStepModel::Done(r) => Some(r),
        VariableStepModel::Ask(lookup, request) => if fuel == 0 {
            None
        } else {
            run_variable(lookup.next(world.reply(request)), world, (fuel - 1) as nat)
        },
    }
}

/// A variable lookup ends after two requests at most, and in the answer
/// that the world determines.
pub proof fn theorem_variable_lookup(
    world: World,
    root: Seq<char>,
    file: Seq<char>,
    line: nat,
    name: Seq<char>,
)
    ensures
        run_variable(VariableLookupModel::start(root, file, line, name), world, 2) == Some(
            find_variable_definition(world, root, file, line, name),
        ),
{
    reveal_with_fuel(run_variable, 3);
}

/// A variable lookup whose query selects no row fails as not found; one
/// whose query selects two rows or more fails as ambiguous; one whose
/// query selects one row answers with that row's file and first line and
/// with the lines of its span in the file under the root, joined by line
/// feeds, or fails with what kept the lines from being read.
pub proof fn lemma_variable_lookup_outcomes(
    world: World,
    root: Seq<char>,
    file: Seq<char>,
    line: nat,
    name: Seq<char>,
    table: Seq<char>,
    rows: Seq<SourceInfoModel>,
)
    requires
        (world.tables)(variable_query_text(file, line, name)) == Ok::<Seq<char>, ErrorModel>(
            table,
        ),
        text_model::<SourceInfoParse>(table) == Ok::<
            Seq<SourceInfoModel>,
            ErrorModel,
        >(rows),
    ensures
        rows.len() == 0 ==> find_variable_definition(world, root, file, line, name) == Err::<
            SourceInfoAnswer,
            ErrorModel,
        >(no_results()),
        rows.len() >= 2 ==> find_variable_definition(world, root, file, line, name) == Err::<
            SourceInfoAnswer,
            ErrorModel,
        >(multiple_results()),
        rows.len() == 1 ==> match (world.sources)(source_path(root, rows[0].filename)) {
            Err(e) => find_variable_definition(world, root, file, line, name) == Err::<
                SourceInfoAnswer,
                ErrorModel,
            >(e),
            Ok(content) => match span_of(
                content,
                rows[0].startline as nat,
                rows[0].endline as nat,
            ) {
                Some(lines) => find_variable_definition(world, root, file, line, name) == Ok::<
                    SourceInfoAnswer,
                    ErrorModel,
                >(
                    SourceInfoAnswer {
                        filename: rows[0].filename,
                        line: rows[0].startline,
                        code: joined_lines(lines),
                    },
                ),
                None => find_variable_definition(world, root, file, line, name) is Err,
            },
        },
{
}

/// How a function lookup ends when every request is answered by `world`,
/// if it ends within `fuel` requests.
pub open spec fn run_function(step: FunctionStepModel, world: World, fuel: nat) -> Option<
    Result<Seq<FunctionInfoAnswer>, ErrorModel>,
>
    decreases fuel,
{
    match step {
        FunctionStepModel::Done(r) => Some(r),
        FunctionStepModel::Ask(lookup, request) => if fuel == 0 {
            None
        } else {
            run_function(lookup.next(world.reply(request)), world, (fuel - 1) as nat)
        },
    }
}

/// A lookup that has ended within some number of requests has ended within
/// every greater number, and in the same way.
pub proof fn lemma_run_function_stays(step: FunctionStepModel, world: World, fuel: nat, more: nat)
    requires
        run_function(step, world, fuel) is Some,
        more >= fuel,
    ensures
        run_function(step, world, more) == run_function(step, world, fuel),
    decreases fuel,
{
    match step {
        FunctionStepModel::Done(_) => {},
        FunctionStepModel::Ask(lookup, request) => {
            lemma_run_function_stays(
                lookup.next(world.reply(request)),
                world,
                (fuel - 1) as nat,
                (more - 1) as nat,
            );
        },
    }
}

/// A failure among the first `n` targets is the failure of all of them.
pub proof fn lemma_targets_fail_early(
    world: World,
    root: Seq<char>,
    targets: Seq<FunctionInfoModel>,
    n: int,
)
    requires
        0 <= n <= targets.len(),
        resolve_targets(world, root, targets.take(n)) is Err,
    ensures
        resolve_targets(world, root, targets) == resolve_targets(world, root, targets.take(n)),
    decreases targets.len() - n,
{
    if n == targets.len() {
        assert(targets.take(n) =~= targets);
    } else {
        assert(targets.take(n + 1).drop_last() =~= targets.take(n));
        lemma_targets_fail_early(world, root, targets, n + 1);
    }
}

/// A failure among the first `n` override rows is the failure of all of
/// them.
pub proof fn lemma_entries_fail_early(
    world: World,
    root: Seq<char>,
    rows: Seq<OverrideInfoModel>,
    n: int,
)
    requires
        0 <= n <= rows.len(),
        override_entries(world, root, rows.take(n)) is Err,
    ensures
        override_entries(world, root, rows) == override_entries(world, root, rows.take(n)),
    decreases rows.len() - n,
{
    if n == rows.len() {
        assert(rows.take(n) =~= rows);
    } else {
        assert(rows.take(n + 1).drop_last() =~= rows.take(n));
        lemma_entries_fail_early(world, root, rows, n + 1);
    }
}

/// The rows that the override query for `name` selects, where it runs and
/// its tabular text decodes.
pub open spec fn override_rows(world: World, name: Seq<char>) -> Option<Seq<OverrideInfoModel>> {
    match (world.tables)(override_query_text(name)) {
        Err(_) => None,
        Ok(table) => match text_model::<OverrideInfoParse>(table) {
            Err(_) => None,
            Ok(rows) => Some(rows),
        },
    }
}

/// Whether a lookup that has handed out `request` is where a lookup in
/// `world` has to be: the answers so far are those of the first targets,
/// what is held of the target that is being resolved is what the world
/// gives, and the request is the next one due.
pub open spec fn on_course(world: World, lookup: FunctionLookupModel, request: RequestModel)
    -> bool {
    let target = lookup.target();
    &&& lookup.answers.len() < lookup.targets.len()
    &&& resolve_targets(world, lookup.root, lookup.targets.take(lookup.answers.len() as int))
        == Ok::<Seq<FunctionInfoAnswer>, ErrorModel>(lookup.answers)
    &&& match lookup.stage {
        FunctionStageModel::Targets => false,
        FunctionStageModel::TargetSource => request == RequestModel::ReadSource(
            source_path(lookup.root, target.filename),
        ),
        FunctionStageModel::Overrides { code } => {
            &&& target.is_virtual
            &&& world.excerpt(lookup.root, target.filename, target.startline, target.endline)
                == Ok::<Seq<char>, ErrorModel>(code)
            &&& request == RequestModel::RunQuery(override_query_text(target.name))
        },
        FunctionStageModel::OverrideSource { code, rows, entries } => {
            &&& target.is_virtual
            &&& world.excerpt(lookup.root, target.filename, target.startline, target.endline)
                == Ok::<Seq<char>, ErrorModel>(code)
            &&& override_rows(world, target.name) == Some(rows)
            &&& entries.len() < rows.len()
            &&& override_entries(world, lookup.root, rows.take(entries.len() as int)) == Ok::<
                Seq<FunctionInfoAnswer>,
                ErrorModel,
            >(entries)
            &&& request == RequestModel::ReadSource(
                source_path(lookup.root, rows[entries.len() as int].filename),
            )
        },
    }
}

/// How far a stage is from the target's answer.
pub open spec fn stage_rank(stage: FunctionStageModel) -> nat {
    match stage {
        FunctionStageModel::Targets => 3,
        FunctionStageModel::TargetSource => 2,
        FunctionStageModel::Overrides { .. } => 1,
        FunctionStageModel::OverrideSource { .. } => 0,
    }
}

/// The override rows of a stage that have no entry yet.
pub open spec fn rows_left(stage: FunctionStageModel) -> nat {
    match stage {
        FunctionStageModel::OverrideSource { rows, entries, .. } => (rows.len()
            - entries.len()) as nat,
        _ => 0,
    }
}

/// A lookup that is on course ends, and ends in the answers of all its
/// targets. The result is a number of requests within which it ends.
pub proof fn lemma_on_course_ends(
    world: World,
    lookup: FunctionLookupModel,
    request: RequestModel,
) -> (fuel: nat)
    requires
        on_course(world, lookup, request),
    ensures
        run_function(FunctionStepModel::Ask(lookup, request), world, fuel) == Some(
            resolve_targets(world, lookup.root, lookup.targets),
        ),
    decreases lookup.targets.len() - lookup.answers.len(), stage_rank(lookup.stage), rows_left(
        lookup.stage,
    ),
{
    let root = lookup.root;
    let targets = lookup.targets;
    let k = lookup.answers.len() as int;
    let target = lookup.target();
    let next = lookup.next(world.reply(request));
    assert(targets.take(k + 1).drop_last() =~= targets.take(k));
    let reached = resolve_target(world, root, target);
    assert(resolve_targets(world, root, targets.take(k + 1)) == match reached {
        Err(e) => Err::<Seq<FunctionInfoAnswer>, ErrorModel>(e),
        Ok(answer) => Ok(lookup.answers.push(answer)),
    });
    if reached is Err {
        lemma_targets_fail_early(world, root, targets, k + 1);
    }
    // Where the entries of the target's overrides are being gathered, the
    // entry that is due decides as the target's answer does.
    match lookup.stage {
        FunctionStageModel::OverrideSource { rows, entries, .. } => {
            let j = entries.len() as int;
            assert(rows.take(j + 1).drop_last() =~= rows.take(j));
            if override_entries(world, root, rows.take(j + 1)) is Err {
                lemma_entries_fail_early(world, root, rows, j + 1);
            }
        },
        _ => {},
    }
    match next {
        FunctionStepModel::Done(r) => {
            assert(run_function(FunctionStepModel::Ask(lookup, request), world, 1) == Some(r)) by {
                reveal_with_fuel(run_function, 2);
            }
            1
        },
        FunctionStepModel::Ask(later, due) => {
            let fuel = lemma_on_course_ends(world, later, due);
            assert(run_function(FunctionStepModel::Ask(lookup, request), world, fuel + 1)
                == run_function(next, world, fuel));
            fuel + 1
        },
    }
}

/// A function lookup ends, and ends in the answer that the world
/// determines. The result is a number of requests within which it ends.
pub proof fn theorem_function_lookup(
    world: World,
    root: Seq<char>,
    file: Seq<char>,
    line: nat,
    name: Seq<char>,
) -> (fuel: nat)
    ensures
        forall|more: nat|
            more >= fuel ==> run_function(
                FunctionLookupModel::start(root, file, line, name),
                world,
                more,
            ) == Some(find_function_implementation(world, root, file, line, name)),
{
    let start = FunctionLookupModel::start(root, file, line, name);
    let first = start->Ask_0;
    let query = start->Ask_1;
    let next = first.next(world.reply(query));
    let fuel: nat = match next {
        FunctionStepModel::Done(r) => {
            assert(run_function(start, world, 1) == Some(r)) by {
                reveal_with_fuel(run_function, 2);
            }
            1
        },
        FunctionStepModel::Ask(later, due) => {
            let rest = lemma_on_course_ends(world, later, due);
            rest + 1
        },
    };
    assert forall|more: nat| more >= fuel implies run_function(start, world, more) == Some(
        find_function_implementation(world, root, file, line, name),
    ) by {
        lemma_run_function_stays(start, world, fuel, more);
    }
    fuel
}

/// Override entries come one for each row and in the order of the rows,
/// and each is the answer for its row with the row's lines.
pub proof fn lemma_override_entries_in_order(
    world: World,
    root: Seq<char>,
    rows: Seq<OverrideInfoModel>,
)
    ensures
        override_entries(world, root, rows) matches Ok(list) ==> {
            &&& list.len() == rows.len()
            &&& forall|j: int|
                0 <= j < rows.len() ==> is_entry_for(world, root, rows[j], #[trigger] list[j])
        },
    decreases rows.len(),
{
    if rows.len() > 0 {
        lemma_override_entries_in_order(world, root, rows.drop_last());
    }
}

/// Whether `entry` is the answer for the overriding function `row`: it
/// has the row's name, file and first line and the lines of the row's
/// span, is marked virtual, and has an empty list of its own.
pub open spec fn is_entry_for(
    world: World,
    root: Seq<char>,
    row: OverrideInfoModel,
    entry: FunctionInfoAnswer,
) -> bool {
    &&& entry.name == row.name
    &&& entry.filename == row.filename
    &&& entry.line == row.startline
    &&& world.excerpt(root, row.filename, row.startline, row.endline) == Ok::<
        Seq<char>,
        ErrorModel,
    >(entry.code)
    &&& entry.is_virtual
    &&& entry.overrides == Some(Seq::<FunctionInfoAnswer>::empty())
}

/// Whether `answer` is the answer for the call target `target`, one level
/// deep: it has the target's name, file, first line and flag and the
/// lines of the target's span; for a target that is not virtual it has no
/// list; for a virtual one its list has one entry for each row of the
/// override query, in the order of the rows.
pub open spec fn is_answer_for(
    world: World,
    root: Seq<char>,
    target: FunctionInfoModel,
    answer: FunctionInfoAnswer,
) -> bool {
    &&& answer.name == target.name
    &&& answer.filename == target.filename
    &&& answer.line == target.startline
    &&& answer.is_virtual == target.is_virtual
    &&& world.excerpt(root, target.filename, target.startline, target.endline) == Ok::<
        Seq<char>,
        ErrorModel,
    >(answer.code)
    &&& if target.is_virtual {
        &&& override_rows(world, target.name) matches Some(rows)
        &&& answer.overrides matches Some(list)
        &&& list.len() == rows.len()
        &&& forall|j: int|
            0 <= j < rows.len() ==> is_entry_for(world, root, rows[j], #[trigger] list[j])
    } else {
        answer.overrides is None
    }
}

/// Answers come one for each target and in the order of the targets, and
/// each is the answer for its target, one level deep.
pub proof fn lemma_resolve_targets_in_order(
    world: World,
    root: Seq<char>,
    targets: Seq<FunctionInfoModel>,
)
    ensures
        resolve_targets(world, root, targets) matches Ok(answers) ==> {
            &&& answers.len() == targets.len()
            &&& forall|i: int|
                0 <= i < targets.len() ==> is_answer_for(
                    world,
                    root,
                    targets[i],
                    #[trigger] answers[i],
                )
        },
    decreases targets.len(),
{
    if targets.len() > 0 {
        lemma_resolve_targets_in_order(world, root, targets.drop_last());
        let last = targets.last();
        if last.is_virtual && override_rows(world, last.name) is Some {
            lemma_override_entries_in_order(world, root, override_rows(world, last.name)->Some_0);
        }
    }
}

/// The answers of a function lookup stand one for each row of the target
/// query, in the order of the rows. The answer for a target that is not
/// virtual has no list of overrides. The answer for a virtual target has
/// a list with one entry for each row of its override query, and every
/// entry's own list is empty, whether or not something overrides the
/// entry in turn.
pub proof fn lemma_function_lookup_depth_one(
    world: World,
    root: Seq<char>,
    file: Seq<char>,
    line: nat,
    name: Seq<char>,
    table: Seq<char>,
    rows: Seq<FunctionInfoModel>,
)
    requires
        (world.tables)(function_query_text(file, line, name)) == Ok::<Seq<char>, ErrorModel>(
            table,
        ),
        text_model::<FunctionInfoParse>(table) == Ok::<Seq<FunctionInfoModel>, ErrorModel>(
            rows,
        ),
    ensures
        rows.len() == 0 ==> find_function_implementation(world, root, file, line, name) == Err::<
            Seq<FunctionInfoAnswer>,
            ErrorModel,
        >(no_function_call()),
        find_function_implementation(world, root, file, line, name) matches Ok(answers) ==> {
            &&& answers.len() == rows.len()
            &&& forall|i: int|
                0 <= i < rows.len() ==> is_answer_for(world, root, rows[i], #[trigger] answers[i])
        },
{
    lemma_resolve_targets_in_order(world, root, rows);
}

} // verus!
