//! What holds of how a subagent's work is told.

use crate::decimal::{decimal_text, law_decimal_round_trip};
use crate::fold::cursor::{
    any_key, call_part, count_value, described, envelope_report, informative_text, merged_report,
    names_tool, parts_of, step_part, task_report, tool_calls, transcript_parts, transcript_report,
    type_label, unknown_name, Count, Descriptor, DetailView, EditOutcome, Envelope, PartView,
    PathArguments, PathOutcome, ResultView, ShellArguments, ShellOutcome, Step, SubagentResult,
    SubagentType, TaskArguments, ToolBody, ToolCallStep, ToolDetail, ToolStatus, Transcript,
};
use crate::json::{parsed_json, JsonView};
use crate::ordered::{is_least, lemma_least_is, text_less, OrderedMap};
use crate::text::{
    has_suffix, joined, law_every_copy_of_a_suffix_is_taken_off, words, Text,
};
use vstd::prelude::*;

verus! {

/// An edit that succeeded and names its file and the file's new content is
/// shown as exactly one change: of that file, from its old content as written,
/// none for a new file, to the new content. An edit that did not succeed, or
/// that leaves out the file or its new content, shows no change, whatever its
/// failure holds.
pub proof fn law_an_edit_shows_its_change(body: ToolBody<PathArguments, EditOutcome>)
    ensures
        ({
            let told = described(Descriptor::Edit(body));
            &&& told.2 is Edit
            &&& match body.result.success {
                Some(outcome) => match (outcome.path, outcome.after_full_file_content) {
                    (Some(path), Some(content)) => {
                        &&& told.2->diffs.len() == 1
                        &&& told.2->diffs[0].path == path@
                        &&& told.2->diffs[0].new_text == content@
                        &&& outcome.before_full_file_content is None
                            ==> told.2->diffs[0].old_text is None
                        &&& outcome.before_full_file_content matches Some(before)
                            ==> told.2->diffs[0].old_text == Some(before@)
                    },
                    _ => told.2->diffs.len() == 0,
                },
                None => told.2->diffs.len() == 0,
            }
        }),
{
}

/// A failed call changes nothing that is shown of an edit: two edits with the
/// same success show the same changes.
pub proof fn law_only_a_success_is_a_change(
    left: ToolBody<PathArguments, EditOutcome>,
    right: ToolBody<PathArguments, EditOutcome>,
)
    requires
        left.result.success == right.result.success,
    ensures
        described(Descriptor::Edit(left)).2 == described(Descriptor::Edit(right)).2,
{
}

/// A call is completed exactly when its success is recorded, failed when only a
/// failure or an error is, and pending when nothing is. That holds of every
/// tool.
pub proof fn law_a_call_ends_as_recorded<Payload>(result: Envelope<Payload>)
    ensures
        result.end() == ToolStatus::Completed <==> result.success is Some,
        result.end() == ToolStatus::Failed <==> result.success is None && (result.failure is Some
            || result.error is Some),
        result.end() == ToolStatus::Pending <==> result.success is None && result.failure is None
            && result.error is None,
        result.reported() <==> result.end() != ToolStatus::Pending,
        result.success is Some ==> result.written() == result.success,
        result.success is None ==> result.written() == result.failure,
{
}

/// Every tool is told under the name Cursor gives it, with how far its call
/// got.
pub proof fn law_tools_are_told_by_name(descriptor: Descriptor)
    ensures
        match descriptor {
            Descriptor::Shell(body) => described(descriptor).0 == "shell"@ && described(
                descriptor,
            ).1 == body.result.end(),
            Descriptor::Read(body) => described(descriptor).0 == "read"@ && described(descriptor).1
                == body.result.end(),
            Descriptor::Edit(body) => described(descriptor).0 == "edit"@ && described(descriptor).1
                == body.result.end(),
            Descriptor::Delete(body) => described(descriptor).0 == "delete"@ && described(
                descriptor,
            ).1 == body.result.end(),
            Descriptor::Grep(body) => described(descriptor).0 == "grep"@ && described(descriptor).1
                == body.result.end(),
            Descriptor::Glob(body) => described(descriptor).0 == "glob"@ && described(descriptor).1
                == body.result.end(),
            Descriptor::UpdateTodos(body) => described(descriptor).0 == "updateTodos"@ && described(
                descriptor,
            ).1 == body.result.end(),
            Descriptor::Task(body) => described(descriptor).0 == "task"@ && described(descriptor).1
                == body.result.end(),
            Descriptor::Mcp(body) => described(descriptor).0 == "mcp"@ && described(descriptor).1
                == body.result.end(),
        },
{
}

/// A command is shown with what was asked and what the terminal showed, or
/// else whichever stream it wrote, from its success or else its failure. A
/// success exits with zero, a failure as it says, and a command that came to no
/// end has no exit code.
pub proof fn law_a_command_is_shown_as_it_ran(body: ToolBody<ShellArguments, ShellOutcome>)
    ensures
        ({
            let told = described(Descriptor::Shell(body)).2;
            let outcome = if body.result.success is Some {
                body.result.success
            } else {
                body.result.failure
            };
            &&& told is Terminal
            &&& told->command is Some <==> body.args is Some && body.args->0.command is Some
            &&& told->command is Some ==> told->command->0 == body.args->0.command->0@
            &&& outcome is None ==> told->Terminal_output is None && told->exit_code is None
            &&& outcome matches Some(ran) ==> {
                &&& ran.interleaved_output matches Some(both) ==> told->Terminal_output == Some(
                    both@,
                )
                &&& ran.interleaved_output is None ==> (match ran.stdout {
                    Some(out) => told->Terminal_output == Some(out@),
                    None => match ran.stderr {
                        Some(err) => told->Terminal_output == Some(err@),
                        None => told->Terminal_output is None,
                    },
                })
            }
            &&& body.result.success is Some ==> told->exit_code == Some(0i32)
            &&& body.result.success is None && body.result.failure is Some ==> told->exit_code
                == body.result.failure->0.exit_code
        }),
{
}

/// The paths a call on a file shows: the one its outcome names, successful or
/// not, or else the one it was asked for; at most one.
pub open spec fn shows_path(
    paths: Seq<Text>,
    body: ToolBody<PathArguments, PathOutcome>,
) -> bool {
    let outcome = if body.result.success is Some {
        body.result.success
    } else {
        body.result.failure
    };
    if outcome is Some && outcome->0.path is Some {
        paths.len() == 1 && paths[0] == outcome->0.path->0@
    } else if body.args is Some && body.args->0.path is Some {
        paths.len() == 1 && paths[0] == body.args->0.path->0@
    } else {
        paths.len() == 0
    }
}

/// A call on a file shows which file: a read as a read, a deletion as a
/// deletion, and both searches as searches.
pub proof fn law_a_call_on_a_file_shows_the_file(body: ToolBody<PathArguments, PathOutcome>)
    ensures
        described(Descriptor::Read(body)).2 is Read && shows_path(
            described(Descriptor::Read(body)).2->Read_paths,
            body,
        ),
        described(Descriptor::Delete(body)).2 is Delete && shows_path(
            described(Descriptor::Delete(body)).2->Delete_paths,
            body,
        ),
        described(Descriptor::Grep(body)).2 is Search && shows_path(
            described(Descriptor::Grep(body)).2->Search_paths,
            body,
        ) && described(Descriptor::Grep(body)).2->Search_output is None,
        described(Descriptor::Glob(body)).2 == described(Descriptor::Grep(body)).2,
{
}

/// A plan shows as thinking; a subagent and a tool server show what they were
/// asked, word for word, and nothing of what came of it.
pub proof fn law_what_has_no_rendering_shows_its_arguments(body: ToolBody<String, ()>)
    ensures
        described(Descriptor::UpdateTodos(body)).2 == (DetailView::Think { output: None }),
        described(Descriptor::Task(body)).2 == described(Descriptor::Mcp(body)).2,
        ({
            let told = described(Descriptor::Task(body)).2;
            &&& told is Other
            &&& told->kind == "other"@
            &&& told->Other_output is None
            &&& body.args matches Some(args) ==> told->input == Some(args@)
            &&& body.args is None ==> told->input is None
        }),
{
}

/// A call is a part of the work under its own id, white space in it collapsed.
/// A tool nobody knows is told by its key's name, as a pending call with
/// nothing inside.
pub proof fn law_a_call_is_told_under_its_id(call: ToolCallStep)
    ensures
        ({
            let part = call_part(call);
            &&& part is ToolUse
            &&& match call {
                ToolCallStep::Known(known) => {
                    &&& part->id == joined(
                        words(known.tool_call_id@),
                        " "@,
                    )
                    &&& part->name == described(known.descriptor).0
                    &&& part->status == described(known.descriptor).1
                    &&& part->detail == described(known.descriptor).2
                },
                ToolCallStep::Unknown(unknown) => {
                    &&& part->id == joined(
                        words(unknown.tool_call_id@),
                        " "@,
                    )
                    &&& part->name == unknown_name(unknown.rest)
                    &&& part->status == ToolStatus::Pending
                    &&& part->detail == (DetailView::Other {
                        kind: "other"@,
                        output: None,
                        input: None,
                    })
                },
            }
        }),
{
}

/// The name of a tool nobody knows is its key without the ending that every
/// tool's key has. Of several such keys the first in order counts; without one
/// there is no name.
pub proof fn law_an_unknown_tool_is_named_by_its_key(rest: OrderedMap<()>, name: Text)
    requires
        !has_suffix(name, "ToolCall"@),
    ensures
        rest.contents().dom().contains(name + "ToolCall"@) && (forall|other: Text| #[trigger]
            rest.contents().dom().contains(other) && has_suffix(other, "ToolCall"@) && other != name
                + "ToolCall"@ ==> text_less(name + "ToolCall"@, other)) ==> unknown_name(rest)
            == name,
        (forall|other: Text| #[trigger]
            rest.contents().dom().contains(other) ==> !has_suffix(other, "ToolCall"@))
            ==> unknown_name(rest).len() == 0,
{
    reveal_strlit("ToolCall");
    assert("ToolCall"@.len() == 8);
    let keys = rest.contents().dom();
    let key = name + "ToolCall"@;
    assert(key.skip(name.len() as int) =~= "ToolCall"@);
    law_every_copy_of_a_suffix_is_taken_off(name, "ToolCall"@);
    if keys.contains(key) && (forall|other: Text| #[trigger]
        keys.contains(other) && has_suffix(other, "ToolCall"@) && other != key ==> text_less(
            key,
            other,
        )) {
        assert(is_least(keys, names_tool(), key));
        lemma_least_is(keys, names_tool(), key);
    }
}

/// A step the child took is told as the part it is: reasoning as reasoning,
/// prose as prose, in its own words, a call as a call. A step that says nothing,
/// or that nobody knows, is no part.
pub proof fn law_a_step_is_told_as_it_is(step: Step)
    ensures
        match step {
            Step::ThinkingMessage(text) => if text@.len() > 0 {
                step_part(step) == Some(PartView::Thought { text: text@ })
            } else {
                step_part(step) is None
            },
            Step::AssistantMessage(text) => if text@.len() > 0 {
                step_part(step) == Some(PartView::Text { text: text@ })
            } else {
                step_part(step) is None
            },
            Step::ToolCall(call) => step_part(step) == Some(call_part(call)),
            Step::Unrecognized => step_part(step) is None,
        },
{
}

/// Steps are told in order: the parts of two stretches of work are those of
/// the first and then those of the second, and their tool calls add up.
pub proof fn law_steps_are_told_in_order(before: Seq<Step>, after: Seq<Step>, step: Step)
    ensures
        parts_of(before + after) == parts_of(before) + parts_of(after),
        tool_calls(before + after) == tool_calls(before) + tool_calls(after),
        parts_of(seq![step]) == (match step_part(step) {
            Some(part) => seq![part],
            None => Seq::empty(),
        }),
        tool_calls(seq![step]) == (if step is ToolCall {
            1nat
        } else {
            0nat
        }),
        parts_of(Seq::<Step>::empty()).len() == 0,
        tool_calls(Seq::<Step>::empty()) == 0,
    decreases after.len(),
{
    let all = before + after;
    if after.len() == 0 {
        assert(all =~= before);
        assert(parts_of(before) + parts_of(after) =~= parts_of(before));
    } else {
        law_steps_are_told_in_order(before, after.drop_last(), step);
        assert(all.drop_last() =~= before + after.drop_last());
        assert(all.last() == after.last());
        assert(parts_of(all) =~= parts_of(before) + parts_of(after));
    }
    let single = seq![step];
    assert(single.drop_last() =~= Seq::<Step>::empty());
    assert(parts_of(single.drop_last()) =~= Seq::<PartView>::empty());
    assert(tool_calls(single.drop_last()) == 0);
    if let Some(part) = step_part(step) {
        assert(parts_of(single) =~= seq![part]);
    }
}

/// A child that closes in prose answers with it: the prose is the report's
/// text and is left out of the work. One that closes in anything else answers
/// nothing, and all of its steps are work.
pub proof fn law_the_closing_prose_is_the_answer(transcript: Transcript, work: Seq<Step>, last: Step)
    requires
        transcript.conversation_steps@ == work.push(last),
    ensures
        match last {
            Step::AssistantMessage(text) => if text@.len() > 0 {
                &&& transcript_report(transcript).text == Some(text@)
                &&& transcript_parts(transcript) == parts_of(work)
            } else {
                &&& transcript_report(transcript).text is None
                &&& transcript_parts(transcript) == parts_of(work)
            },
            _ => {
                &&& transcript_report(transcript).text is None
                &&& transcript_parts(transcript) == parts_of(work.push(last))
            },
        },
{
    assert(work.push(last).drop_last() =~= work);
}

/// What a transcript says of its child besides: who it was, how long it took,
/// and how many tools it used, neither an error nor a model.
pub proof fn law_a_transcript_tells_of_its_child(transcript: Transcript)
    ensures
        ({
            let report = transcript_report(transcript);
            let calls = tool_calls(transcript.conversation_steps@);
            &&& report.error is None
            &&& report.model is None
            &&& report.duration_ms == transcript.duration_ms
            &&& transcript.agent_id is None ==> report.agent_id is None
            &&& transcript.agent_id matches Some(id) ==> (report.agent_id == Some(id@) <==> id@.len()
                > 0 && id@ != "default"@)
            &&& report.agent_id is Some ==> transcript.agent_id is Some && report.agent_id
                == Some(transcript.agent_id->0@)
            &&& calls <= u32::MAX ==> report.tool_uses == Some(calls as u32)
            &&& transcript.conversation_steps@.len() == 0 ==> report.text is None
        }),
{
}

/// An error is the whole report: in its own words where it is a string, as its
/// JSON otherwise. Without one the transcript is told, that of the success
/// before that of the failure; without any nothing is.
pub proof fn law_an_error_is_the_whole_report(envelope: Envelope<Transcript>)
    ensures
        ({
            let report = envelope_report(envelope);
            match envelope.error {
                Some(json) => {
                    &&& report.text is None && report.agent_id is None && report.model is None
                        && report.duration_ms is None && report.tool_uses is None
                    &&& match parsed_json(json@) {
                        Some(JsonView::Text(words)) => report.error == Some(words),
                        _ => report.error == Some(json@),
                    }
                },
                None => match (envelope.success, envelope.failure) {
                    (Some(transcript), _) => report == transcript_report(transcript),
                    (None, Some(transcript)) => report == transcript_report(transcript),
                    (None, None) => report == (ResultView {
                        text: None,
                        error: None,
                        agent_id: None,
                        model: None,
                        duration_ms: None,
                        tool_uses: None,
                    }),
                },
            }
        }),
{
}

/// What a call's own arguments say of the child comes first, where it says
/// anything: who it is and which model it runs on. The rest of the report
/// stays.
pub proof fn law_arguments_come_first(report: ResultView, arguments: TaskArguments)
    ensures
        ({
            let merged = merged_report(report, Some(arguments));
            &&& merged.text == report.text
            &&& merged.error == report.error
            &&& merged.duration_ms == report.duration_ms
            &&& merged.tool_uses == report.tool_uses
            &&& arguments.agent_id matches Some(id) ==> merged.agent_id == (if id@.len() > 0 && id@
                != "default"@ {
                Some(id@)
            } else {
                report.agent_id
            })
            &&& arguments.agent_id is None ==> merged.agent_id == report.agent_id
            &&& arguments.model matches Some(model) ==> merged.model == (if model@.len() > 0
                && model@ != "default"@ {
                Some(model@)
            } else {
                report.model
            })
            &&& arguments.model is None ==> merged.model == report.model
            &&& merged_report(report, None) == report
        }),
{
}

/// A call reports what its envelope says, where that says anything, and else
/// what every harness says; a report with nothing in it is none.
pub proof fn law_a_call_reports_its_envelope_first(
    envelope: Envelope<Transcript>,
    generic: Option<ResultView>,
    arguments: Option<TaskArguments>,
)
    ensures
        ({
            let silent = ResultView {
                text: None,
                error: None,
                agent_id: None,
                model: None,
                duration_ms: None,
                tool_uses: None,
            };
            let fallback = match generic {
                Some(report) => merged_report(report, arguments),
                None => merged_report(silent, arguments),
            };
            let told = merged_report(envelope_report(envelope), arguments);
            &&& envelope.success is Some || envelope.failure is Some || envelope.error is Some
                ==> task_report(Some(envelope), generic, arguments) == (if told == silent {
                None
            } else {
                Some(told)
            })
            &&& envelope.success is None && envelope.failure is None && envelope.error is None
                ==> task_report(Some(envelope), generic, arguments) == task_report(
                None,
                generic,
                arguments,
            )
            &&& task_report(None, generic, arguments) == (if fallback == silent {
                None
            } else {
                Some(fallback)
            })
        }),
{
}

/// A text says something exactly when it is neither empty nor the word Cursor
/// writes for a choice of its own.
pub proof fn law_what_says_something(text: Text)
    ensures
        text.len() > 0 && text != "default"@ ==> informative_text(Some(text)) == Some(text),
        text.len() == 0 || text == "default"@ ==> informative_text(Some(text)) is None,
        informative_text(None) is None,
{
}

/// A count reads the same as a number and as a numeral, is never wrapped, and
/// stays where it fits; what is not a count has no value.
pub proof fn law_counts_are_clamped(count: u64, numeral: String)
    requires
        numeral@ == decimal_text(count as nat),
    ensures
        count_value(Some(Count::Number(count))) == count_value(Some(Count::Text(numeral))),
        count <= u32::MAX ==> count_value(Some(Count::Number(count))) == Some(count as u32),
        count > u32::MAX ==> count_value(Some(Count::Number(count))) == Some(u32::MAX),
        count_value(Some(Count::Other)) is None,
        count_value(None) is None,
{
    law_decimal_round_trip(count);
}

/// A subagent's type is its name, or else its kind, in whichever spelling; the
/// default that says nothing is no type.
pub proof fn law_a_subagents_type_is_its_name(
    kind: String,
    name: Option<String>,
    variants: OrderedMap<()>,
)
    ensures
        ({
            let label = type_label(SubagentType::Kinded { kind, name });
            let called = match name {
                Some(name) => name@,
                None => kind@,
            };
            &&& called != "unspecified"@ ==> label == Some(called)
            &&& called == "unspecified"@ ==> label is None
        }),
        variants.contents().dom().contains(kind@) && kind@ != "unspecified"@ && (forall|other: Text|
            #[trigger]
            variants.contents().dom().contains(other) && other != kind@ ==> text_less(kind@, other))
            ==> type_label(SubagentType::Keyed(variants)) == Some(kind@),
{
    let keys = variants.contents().dom();
    if keys.contains(kind@) && (forall|other: Text| #[trigger]
        keys.contains(other) && other != kind@ ==> text_less(kind@, other)) {
        assert(is_least(keys, any_key(), kind@));
        lemma_least_is(keys, any_key(), kind@);
    }
}

/// The change an edit is told by is the one its success wrote: the same path,
/// the same old content, the same new content, and one change at most.
pub proof fn law_an_edit_is_told_by_what_it_wrote(
    body: ToolBody<PathArguments, EditOutcome>,
    told: ToolDetail,
)
    requires
        told.deep_view() == described(Descriptor::Edit(body)).2,
    ensures
        told matches ToolDetail::Edit { diffs } && (match body.result.success {
            Some(outcome) => if outcome.path is Some && outcome.after_full_file_content is Some {
                &&& diffs@.len() == 1
                &&& diffs@[0].path@ == outcome.path->0@
                &&& diffs@[0].new_text@ == outcome.after_full_file_content->0@
                &&& diffs@[0].old_text.deep_view() == outcome.before_full_file_content.deep_view()
            } else {
                diffs@.len() == 0
            },
            None => diffs@.len() == 0,
        }),
{
    if let ToolDetail::Edit { diffs } = told {
        assert(diffs.deep_view().len() == diffs@.len());
        if diffs@.len() == 1 {
            assert(diffs.deep_view()[0] == diffs@[0].deep_view());
        }
    }
}

/// A command is told by what it was asked and how it exited.
pub proof fn law_a_command_is_told_by_what_it_ran(
    body: ToolBody<ShellArguments, ShellOutcome>,
    told: ToolDetail,
)
    requires
        told.deep_view() == described(Descriptor::Shell(body)).2,
    ensures
        told matches ToolDetail::Terminal { command, output, exit_code } && {
            &&& command is Some <==> body.args is Some && body.args->0.command is Some
            &&& command is Some ==> command->0@ == body.args->0.command->0@
            &&& body.result.success is Some ==> exit_code == Some(0i32)
            &&& body.result.success is None && body.result.failure is Some ==> exit_code
                == body.result.failure->0.exit_code
            &&& body.result.success is Some && body.result.success->0.interleaved_output is Some
                ==> output is Some && output->0@ == body.result.success->0.interleaved_output->0@
        },
{
}

/// What the child reported is told in its own words.
pub proof fn law_a_report_is_told_as_reported(
    transcript: Transcript,
    told: SubagentResult,
    text: String,
)
    requires
        told.deep_view() == transcript_report(transcript),
        transcript.conversation_steps@.len() > 0,
        transcript.conversation_steps@.last() == Step::AssistantMessage(text),
        text@.len() > 0,
    ensures
        told.text is Some,
        told.text->0@ == text@,
        told.error is None,
        told.duration_ms == transcript.duration_ms,
{
}

} // verus!
