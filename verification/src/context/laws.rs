//! What the context tools keep to: what they report, and what a session is told.

use vstd::prelude::*;
use vstd::string::*;

use crate::context::compaction::{
    compact_context_tool, cut_instructions, kept_instructions, post_compaction_body,
    scheduled_tree, POST_COMPACTION_PROMPT_MAX_TOKENS,
};
use crate::context::operating_contract::{
    contract_body, contract_message, is_specialized, must_tell, ContractData,
    InternalSessionSource, PreviousSectionState, SessionSource, SubAgentSource,
};
use crate::context::status::{
    context_status_tool, status_json, status_members, status_of, tokens_left, ActiveTask,
    StatusData, TaskKind, TokenStatus, TokenUsageInfo, TurnData,
};
use crate::context::tool::ParameterType;
use crate::json::{get, json_literal, JsonTree};
use crate::laws::lemma_member_stands_in_braces;
use crate::reading::law_the_last_member_of_a_name_counts;
use crate::text::{signed_decimal, trim_end, trimmed};
use crate::writing::stands_in;

verus! {

/// What is left of a limit is what it has more than was used, and nothing where it has no more; where
/// even that is more than a number can tell, it is the largest number.
pub proof fn law_what_is_left_of_a_limit(limit: i64, used: i64)
    ensures
        tokens_left(limit, used) >= 0,
        limit <= used ==> tokens_left(limit, used) == 0,
        limit > used && limit - used <= 0x7fff_ffff_ffff_ffff ==> used + tokens_left(limit, used)
            == limit,
        limit > used && limit - used > 0x7fff_ffff_ffff_ffff ==> tokens_left(limit, used)
            == 0x7fff_ffff_ffff_ffff,
{
}

/// The status is that of the turn that asked. The turn is active exactly where it is the one that
/// runs, and what runs gives the kind; the window is told by its limit, what is used of it and what
/// is left; and so is what compaction waits for, by its own limit and its own use.
pub proof fn law_the_status_tells_the_turn(
    turn: TurnData,
    task: Option<&ActiveTask>,
    tokens: TokenStatus,
    usage: Option<TokenUsageInfo>,
)
    ensures
        ({
            let status = status_of(turn, task, tokens, usage);
            &&& status.turn == turn
            &&& status.turn_active <==> task is Some && task->0.turn_id@ == turn.turn_id
            &&& task matches Some(t) ==> status.turn_kind == Some(t.kind)
            &&& task is None ==> status.turn_kind is None
            &&& status.context_tokens_used == tokens.active_context_tokens
            &&& status.context_window_tokens == tokens.full_context_window_limit
            &&& tokens.full_context_window_limit matches Some(limit)
                ==> status.context_tokens_remaining == Some(
                tokens_left(limit, tokens.active_context_tokens),
            )
            &&& tokens.full_context_window_limit is None ==> status.context_tokens_remaining is None
                && status.percent_basis is None
            &&& tokens.full_context_window_limit matches Some(limit) ==> (limit > 0
                ==> status.percent_basis == Some((tokens.active_context_tokens, limit))) && (limit
                <= 0 ==> status.percent_basis is None)
            &&& status.auto_compact_tokens_used == tokens.auto_compact_scope_tokens
            &&& status.auto_compact_limit == tokens.auto_compact_scope_limit
            &&& tokens.auto_compact_scope_limit matches Some(limit)
                ==> status.auto_compact_tokens_remaining == Some(
                tokens_left(limit, tokens.auto_compact_scope_tokens),
            )
            &&& tokens.auto_compact_scope_limit is None
                ==> status.auto_compact_tokens_remaining is None
            &&& usage matches Some(u) ==> status.session_total_usage == Some(u.total_token_usage@)
                && status.last_model_usage == Some(u.last_token_usage@)
            &&& usage is None ==> status.session_total_usage is None
                && status.last_model_usage is None
        }),
{
}

/// A number, or null where there is none.
pub open spec fn number_or_null(n: Option<i64>) -> Seq<char> {
    match n {
        Some(m) => signed_decimal(m as int),
        None => "null"@,
    }
}

/// A truth as it is written.
pub open spec fn truth_text(b: bool) -> Seq<char> {
    if b {
        "true"@
    } else {
        "false"@
    }
}

/// A text, or null where there is none.
pub open spec fn text_or_null(text: Option<Seq<char>>) -> Seq<char> {
    match text {
        Some(t) => t,
        None => "null"@,
    }
}

/// Everything that the status holds stands in what is reported of it, under its name.
#[verifier::spinoff_prover]
#[verifier::rlimit(60)]
pub proof fn law_the_status_is_reported_in_full(status: StatusData, percent: Seq<char>)
    ensures
        ({
            let text = status_json(status, percent);
            &&& stands_in("\"model\":"@ + json_literal(status.turn.model), text)
            &&& stands_in("\"model_provider\":"@ + json_literal(status.turn.model_provider), text)
            &&& stands_in(
                "\"reasoning_effort\":"@ + json_literal(status.turn.reasoning_effort),
                text,
            )
            &&& stands_in("\"thread_id\":"@ + json_literal(status.turn.thread_id), text)
            &&& stands_in("\"turn_id\":"@ + json_literal(status.turn.turn_id), text)
            &&& stands_in("\"turn_active\":"@ + truth_text(status.turn_active), text)
            &&& stands_in(
                "\"turn_kind\":"@ + match status.turn_kind {
                    Some(TaskKind::Regular) => "\""@ + "regular"@ + "\""@,
                    Some(TaskKind::Review) => "\""@ + "review"@ + "\""@,
                    Some(TaskKind::Compact) => "\""@ + "compact"@ + "\""@,
                    None => "null"@,
                },
                text,
            )
            &&& stands_in(
                "\"context_tokens_used\":"@ + signed_decimal(status.context_tokens_used as int),
                text,
            )
            &&& stands_in(
                "\"context_window_tokens\":"@ + number_or_null(status.context_window_tokens),
                text,
            )
            &&& stands_in(
                "\"context_tokens_remaining\":"@ + number_or_null(status.context_tokens_remaining),
                text,
            )
            &&& status.percent_basis is Some ==> stands_in(
                "\"context_window_percent_used\":"@ + percent,
                text,
            )
            &&& status.percent_basis is None ==> stands_in(
                "\"context_window_percent_used\":"@ + "null"@,
                text,
            )
            &&& stands_in(
                "\"auto_compact_tokens_used\":"@ + signed_decimal(
                    status.auto_compact_tokens_used as int,
                ),
                text,
            )
            &&& stands_in(
                "\"auto_compact_limit\":"@ + number_or_null(status.auto_compact_limit),
                text,
            )
            &&& stands_in(
                "\"auto_compact_tokens_remaining\":"@ + number_or_null(
                    status.auto_compact_tokens_remaining,
                ),
                text,
            )
            &&& stands_in(
                "\"session_total_usage\":"@ + text_or_null(status.session_total_usage),
                text,
            )
            &&& stands_in(
                "\"last_model_usage\":"@ + text_or_null(status.last_model_usage),
                text,
            )
        }),
{
    let members = status_members(status, percent);
    assert(members.len() == 16);
    lemma_member_stands_in_braces(members, 0);
    lemma_member_stands_in_braces(members, 1);
    lemma_member_stands_in_braces(members, 2);
    lemma_member_stands_in_braces(members, 3);
    lemma_member_stands_in_braces(members, 4);
    lemma_member_stands_in_braces(members, 5);
    lemma_member_stands_in_braces(members, 6);
    lemma_member_stands_in_braces(members, 7);
    lemma_member_stands_in_braces(members, 8);
    lemma_member_stands_in_braces(members, 9);
    lemma_member_stands_in_braces(members, 10);
    lemma_member_stands_in_braces(members, 11);
    lemma_member_stands_in_braces(members, 12);
    lemma_member_stands_in_braces(members, 13);
    lemma_member_stands_in_braces(members, 14);
    lemma_member_stands_in_braces(members, 15);
}

/// A compaction that is scheduled is told with the turn that it is scheduled for.
pub proof fn law_scheduled_compactions_name_their_turn(turn_id: Seq<char>)
    ensures
        ({
            let report = scheduled_tree(turn_id);
            &&& get(report, "scheduled"@) == Some(JsonTree::Bool(true))
            &&& get(report, "turn_id"@) == Some(JsonTree::Text(turn_id))
            &&& get(report, "message"@) == Some(
                JsonTree::Text("Context compaction is scheduled before the next model step."@),
            )
        }),
{
    reveal_strlit("scheduled");
    reveal_strlit("turn_id");
    reveal_strlit("message");
    let members = scheduled_tree(turn_id)->Object_0;
    assert("scheduled"@.len() == 9 && "turn_id"@.len() == 7 && "message"@.len() == 7);
    assert("turn_id"@[0] == 't' && "message"@[0] == 'm');
    law_the_last_member_of_a_name_counts(members, "message"@, 0);
    law_the_last_member_of_a_name_counts(members, "scheduled"@, 1);
    law_the_last_member_of_a_name_counts(members, "turn_id"@, 2);
}

/// Configured instructions are kept without the white space around them, where that leaves any.
pub proof fn law_instructions_are_kept_trimmed(prompt: Seq<char>)
    ensures
        kept_instructions(None) is None,
        kept_instructions(Some(prompt)) is Some <==> trimmed(prompt).len() > 0,
        kept_instructions(Some(prompt)) matches Some(kept) ==> kept == trimmed(prompt),
{
}

/// After a compaction a session is told the marker without the white space at its end, and, where
/// there are instructions, these behind their heading.
pub proof fn law_instructions_follow_the_marker(marker: Seq<char>, prompt: Seq<char>)
    ensures
        post_compaction_body(marker, None) == trim_end(marker),
        post_compaction_body(marker, Some(prompt)) == post_compaction_body(marker, None)
            + "\n\n# Configured post-compaction instructions\n\n"@ + prompt,
{
}

/// The contract is told between its marks, on lines of its own and without the white space around it.
pub proof fn law_the_contract_stands_between_its_marks(contract: Seq<char>)
    ensures
        contract_message(contract) == "<operating_contract>"@ + contract_body(contract)
            + "</operating_contract>"@,
        contract_body(contract).len() == trimmed(contract).len() + 2,
        contract_body(contract)[0] == '\n',
        contract_body(contract).last() == '\n',
        contract_body(contract).subrange(1, contract_body(contract).len() - 1) == trimmed(contract),
{
    reveal_strlit("\n");
    assert(contract_body(contract).subrange(1, contract_body(contract).len() - 1) =~= trimmed(
        contract,
    ));
}

/// The contract is told unless it is known to have been told in the same words after the same
/// instructions.
pub proof fn law_the_contract_is_told_where_it_may_be_unknown(
    previous: PreviousSectionState,
    current: ContractData,
)
    ensures
        previous is Absent || previous is Unknown ==> must_tell(previous, current),
        previous matches PreviousSectionState::Known { snapshot } ==> (must_tell(previous, current)
            <==> snapshot.contract@ != current.contract
            || snapshot.preceding_instruction_epoch@ != current.preceding_instruction_epoch),
{
}

/// The sessions with a job of their own are the guardian's and the one for memory among the internal
/// ones, and those for reviews, compactions and memory and the guardian's among those below another
/// one. People's sessions, other internal ones, spawned threads and other sessions below another
/// one are none.
pub proof fn law_specialized_sessions(source: SessionSource)
    ensures
        source is Cli || source is Client ==> !is_specialized(source),
        source matches SessionSource::Internal(job) ==> (is_specialized(source) <==> job
            == InternalSessionSource::Guardian || job
            == InternalSessionSource::MemoryConsolidation),
        source matches SessionSource::SubAgent(job) ==> {
            &&& job is Review || job is Compact || job is MemoryConsolidation ==> is_specialized(
                source,
            )
            &&& job is ThreadSpawn ==> !is_specialized(source)
            &&& job matches SubAgentSource::Other(label) ==> (is_specialized(source) <==> label@
                == "guardian"@)
        },
{
}

/// The tools of the context take what they are said to take: the status nothing, the compaction
/// whether images are discarded, instructions, and whether the websocket is retried; nothing more.
pub proof fn law_context_tools_take_what_they_say()
    ensures
        ({
            let status = context_status_tool();
            let compact = compact_context_tool();
            &&& status.name == "context_status"@
            &&& status.description
                == "Report the current model, active-turn state, context-window usage, and cumulative token usage for this Codex thread. Use this before deciding whether to compact context."@
            &&& status.parameters.len() == 0
            &&& !status.additional_properties
            &&& !status.strict
            &&& compact.name == "compact_context"@
            &&& compact.description
                == "Schedule context compaction for the current turn. The compaction runs after this tool result and before the next model step, preserving environment state while replacing conversation history with compacted context. It continues the same conversation and does not create, clear, complete, block, or transfer a task or goal."@
            &&& compact.parameters.len() == 3
            &&& compact.parameters[0].name == "discard_images"@
                && compact.parameters[0].parameter_type == ParameterType::Truth
            &&& compact.parameters[0].description == Some(
                "If true, omit inline image bodies from the compactor input and installed compacted context. The source transcript is unchanged."@,
            )
            &&& compact.parameters[1].name == "instructions"@
                && compact.parameters[1].parameter_type == ParameterType::Text
            &&& compact.parameters[1].description == Some(
                "Optional guidance for what the compacted context should preserve, summarize, edit, or emphasize."@,
            )
            &&& compact.parameters[2].name == "retry_websocket"@
                && compact.parameters[2].parameter_type == ParameterType::Truth
            &&& compact.parameters[2].description == Some(
                "If true, retry Responses WebSocket transport once after successful compaction; failure returns to sticky HTTP fallback."@,
            )
            &&& !compact.additional_properties
            &&& !compact.strict
        }),
{
}

/// Instructions that were cut stand in place of those that were kept; where none were kept, none come
/// of it.
pub proof fn law_cut_instructions_replace_kept_ones(kept: Seq<char>, cut: Seq<char>)
    ensures
        cut_instructions(Some(kept), cut) == Some(cut),
        cut_instructions(None, cut) is None,
        POST_COMPACTION_PROMPT_MAX_TOKENS == 2000,
{
}

} // verus!
