//! Giving the breakpoints of all files to the debug adapter, one request at a time.
use crate::breakpoints::{FileBreakpoints, FileBreakpointsModel, file_models};
use crate::components::PathStyle;
use crate::dap::text_option;
use crate::json::{Json, json_of};
use crate::paths::{copy_resolved_or, dap_source_path_string, resolved_or, source_path_of_real};
use crate::request::{breakpoints_json, set_breakpoints_arguments};
use serde_json::Value;
use vstd::prelude::*;

verus! {

/// What comes next while the breakpoints of all files are given to the adapter.
#[derive(Debug, PartialEq)]
pub enum SyncStep {
    /// A `setBreakpoints` request with these arguments.
    Send(Value),
    /// Nothing more: a request could not be sent, for this reason.
    Failed(String),
    /// Nothing more: each file has had its request.
    Done,
}

pub enum SyncStepModel {
    Send(Json),
    Failed(Seq<char>),
    Done,
}

impl View for SyncStep {
    type V = SyncStepModel;

    open spec fn view(&self) -> SyncStepModel {
        match self {
            SyncStep::Send(arguments) => SyncStepModel::Send(json_of(*arguments)),
            SyncStep::Failed(error) => SyncStepModel::Failed(error@),
            SyncStep::Done => SyncStepModel::Done,
        }
    }
}

/// The real path of the file at a place of a list, where one was found.
pub open spec fn real_at(real_paths: Seq<Option<String>>, i: int) -> Option<String> {
    if 0 <= i < real_paths.len() {
        real_paths[i]
    } else {
        None
    }
}

/// The request that a file has, out of its breakpoints and the real path that was found for it.
pub open spec fn sync_request(
    files: Seq<FileBreakpointsModel>,
    real_paths: Seq<Option<String>>,
    style: PathStyle,
    i: int,
) -> Json {
    breakpoints_json(
        source_path_of_real(resolved_or(real_at(real_paths, i), files[i].path), style),
        files[i].lines,
    )
}

/// The requests of all files, in the order of the files.
pub open spec fn sync_requests(
    files: Seq<FileBreakpointsModel>,
    real_paths: Seq<Option<String>>,
    style: PathStyle,
) -> Seq<Json> {
    Seq::new(files.len(), |i: int| sync_request(files, real_paths, style, i))
}

/// The error of the first request, from a place on, that could not be sent.
pub open spec fn failure_from(outcomes: Seq<Result<(), String>>, from: int) -> Option<Seq<char>>
    decreases outcomes.len() - from,
{
    if from < 0 || from >= outcomes.len() {
        None
    } else {
        match outcomes[from] {
            Err(error) => Some(error@),
            Ok(_) => failure_from(outcomes, from + 1),
        }
    }
}

/// What comes next, out of how the requests so far were sent.
pub open spec fn sync_step(
    files: Seq<FileBreakpointsModel>,
    real_paths: Seq<Option<String>>,
    style: PathStyle,
    outcomes: Seq<Result<(), String>>,
) -> SyncStepModel {
    match failure_from(outcomes, 0) {
        Some(error) => SyncStepModel::Failed(error),
        None => if outcomes.len() < files.len() {
            SyncStepModel::Send(
                sync_request(files, real_paths, style, outcomes.len() as int),
            )
        } else {
            SyncStepModel::Done
        },
    }
}

/// What is sent in the end, after a number of requests, where each request is sent as
/// `answers` says.
pub open spec fn sent_after(
    files: Seq<FileBreakpointsModel>,
    real_paths: Seq<Option<String>>,
    style: PathStyle,
    answers: Seq<Result<(), String>>,
    sent: int,
) -> Seq<Json>
    decreases answers.len() - sent,
{
    if 0 <= sent < answers.len() {
        match sync_step(files, real_paths, style, answers.take(sent)) {
            SyncStepModel::Send(arguments) => seq![arguments] + sent_after(
                files,
                real_paths,
                style,
                answers,
                sent + 1,
            ),
            _ => Seq::empty(),
        }
    } else {
        Seq::empty()
    }
}

fn first_failure(outcomes: &Vec<Result<(), String>>) -> (error: Option<String>)
    ensures
        text_option(error) == failure_from(outcomes@, 0),
{
    let mut i: usize = 0;
    while i < outcomes.len()
        invariant
            i <= outcomes@.len(),
            failure_from(outcomes@, 0) == failure_from(outcomes@, i as int),
        decreases outcomes@.len() - i,
    {
        match &outcomes[i] {
            Err(error) => return Some(error.clone()),
            Ok(_) => {},
        }
        i += 1;
    }
    None
}

fn real_path_at(real_paths: &Vec<Option<String>>, i: usize, given: &String) -> (path: String)
    ensures
        path@ == resolved_or(real_at(real_paths@, i as int), given@),
{
    if i < real_paths.len() {
        copy_resolved_or(&real_paths[i], given)
    } else {
        given.clone()
    }
}

/// What comes next while the breakpoints of all files are given to the adapter, out of the real
/// path that was found for each and how the requests so far were sent: the request of the next
/// file, or the end after the last file and after a request that could not be sent.
pub fn next_sync_step(
    files: &Vec<FileBreakpoints>,
    real_paths: &Vec<Option<String>>,
    style: PathStyle,
    outcomes: &Vec<Result<(), String>>,
) -> (step: SyncStep)
    ensures
        step@ == sync_step(file_models(files@), real_paths@, style, outcomes@),
{
    match first_failure(outcomes) {
        Some(error) => SyncStep::Failed(error),
        None => {
            let i: usize = outcomes.len();
            assert(file_models(files@).len() == files@.len());
            if i < files.len() {
                assert(file_models(files@)[i as int] == files@[i as int]@);
                let path = real_path_at(real_paths, i, &files[i].path);
                let source = dap_source_path_string(path.as_str(), style);
                SyncStep::Send(set_breakpoints_arguments(source.as_str(), &files[i].lines))
            } else {
                SyncStep::Done
            }
        },
    }
}

proof fn lemma_no_failure(outcomes: Seq<Result<(), String>>, from: int)
    requires
        0 <= from <= outcomes.len(),
        forall|i: int| from <= i < outcomes.len() ==> #[trigger] outcomes[i] is Ok,
    ensures
        failure_from(outcomes, from) is None,
    decreases outcomes.len() - from,
{
    if from < outcomes.len() {
        lemma_no_failure(outcomes, from + 1);
    }
}

proof fn lemma_last_failure(outcomes: Seq<Result<(), String>>, from: int)
    requires
        0 <= from < outcomes.len(),
        outcomes.last() is Err,
        forall|i: int| from <= i < outcomes.len() - 1 ==> #[trigger] outcomes[i] is Ok,
    ensures
        failure_from(outcomes, from) == Some(outcomes.last()->Err_0@),
    decreases outcomes.len() - from,
{
    if from < outcomes.len() - 1 {
        lemma_last_failure(outcomes, from + 1);
    }
}

/// Where every request can be sent, each file has one, in the order of the files, and nothing comes
/// after the last.
pub proof fn law_each_file_has_one_request(
    files: Seq<FileBreakpointsModel>,
    real_paths: Seq<Option<String>>,
    style: PathStyle,
    answers: Seq<Result<(), String>>,
)
    requires
        answers.len() >= files.len(),
        forall|i: int| 0 <= i < files.len() ==> #[trigger] answers[i] is Ok,
    ensures
        sent_after(files, real_paths, style, answers, 0) == sync_requests(files, real_paths, style),
        sync_step(files, real_paths, style, answers.take(files.len() as int))
            == SyncStepModel::Done,
{
    lemma_sent_while_ok(files, real_paths, style, answers, files.len() as int, 0);
    lemma_no_failure(answers.take(files.len() as int), 0);
    assert(sent_after(files, real_paths, style, answers, files.len() as int) =~= Seq::empty());
    assert(sync_requests(files, real_paths, style).take(files.len() as int) =~= sync_requests(
        files,
        real_paths,
        style,
    ));
    assert(sync_requests(files, real_paths, style).skip(0).take(files.len() as int)
        =~= sync_requests(files, real_paths, style));
}

/// The first request that cannot be sent is the last that is tried, and its error is what the whole
/// ends with. The files before it have had their requests, in their order, and none behind it has.
pub proof fn law_first_failure_ends_it(
    files: Seq<FileBreakpointsModel>,
    real_paths: Seq<Option<String>>,
    style: PathStyle,
    answers: Seq<Result<(), String>>,
    failed: int,
)
    requires
        0 <= failed < files.len(),
        failed < answers.len(),
        answers[failed] is Err,
        forall|i: int| 0 <= i < failed ==> #[trigger] answers[i] is Ok,
    ensures
        sent_after(files, real_paths, style, answers, 0) == sync_requests(
            files,
            real_paths,
            style,
        ).take(failed + 1),
        sync_step(files, real_paths, style, answers.take(failed + 1)) == SyncStepModel::Failed(
            answers[failed]->Err_0@,
        ),
{
    lemma_sent_while_ok(files, real_paths, style, answers, failed, 0);
    let tried = answers.take(failed + 1);
    lemma_last_failure(tried, 0);
    assert(sent_after(files, real_paths, style, answers, failed + 1) =~= Seq::empty());
    lemma_no_failure(answers.take(failed), 0);
    let all = sync_requests(files, real_paths, style);
    assert(sent_after(files, real_paths, style, answers, failed) =~= seq![all[failed]]);
    assert(all.skip(0).take(failed) + seq![all[failed]] =~= all.take(failed + 1));
}

proof fn lemma_sent_while_ok(
    files: Seq<FileBreakpointsModel>,
    real_paths: Seq<Option<String>>,
    style: PathStyle,
    answers: Seq<Result<(), String>>,
    end: int,
    sent: int,
)
    requires
        0 <= sent <= end <= files.len(),
        end <= answers.len(),
        forall|i: int| 0 <= i < end ==> #[trigger] answers[i] is Ok,
    ensures
        sent_after(files, real_paths, style, answers, sent) == sync_requests(
            files,
            real_paths,
            style,
        ).skip(sent).take(end - sent) + sent_after(files, real_paths, style, answers, end),
    decreases end - sent,
{
    let all = sync_requests(files, real_paths, style);
    let rest = sent_after(files, real_paths, style, answers, end);
    if sent < end {
        lemma_no_failure(answers.take(sent), 0);
        lemma_sent_while_ok(files, real_paths, style, answers, end, sent + 1);
        assert(all.skip(sent).take(end - sent) + rest =~= seq![all[sent]] + (all.skip(
            sent + 1,
        ).take(end - sent - 1) + rest));
    } else {
        assert(all.skip(sent).take(0) + rest =~= rest);
    }
}

} // verus!
