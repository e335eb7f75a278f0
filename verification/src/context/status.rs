//! The tool that reports the model, the turn and the usage of the context.

use vstd::prelude::*;
use vstd::string::*;

use crate::context::tool::{
    describe_tool, plain_tool, Parameter, ParameterData, ResponsesApiTool, ToolData, ToolPayload,
};
use crate::json::{json_literal, push_member, text_views, write_json_literal};
use crate::snapshot::{
    brace, braced, optional_signed_decimal, or_null, quote, quoted, truth_word, write_or_null,
    write_optional_signed, write_truth,
};
use crate::text::{copy_optional, optional_view, same_text, signed_decimal, write_signed_decimal};

verus! {

/// What a task is for.
#[derive(Clone, Copy, Debug, PartialEq, Eq, Structural)]
pub enum TaskKind {
    Regular,
    Review,
    Compact,
}

/// The name of a kind of task.
pub open spec fn task_kind_name(kind: TaskKind) -> Seq<char> {
    match kind {
        TaskKind::Regular => "regular"@,
        TaskKind::Review => "review"@,
        TaskKind::Compact => "compact"@,
    }
}

impl TaskKind {
    /// The name of this kind.
    pub fn as_str(self) -> (name: &'static str)
        ensures
            name@ == task_kind_name(self),
    {
        match self {
            TaskKind::Regular => "regular",
            TaskKind::Review => "review",
            TaskKind::Compact => "compact",
        }
    }
}

/// The task that is running.
#[derive(Debug)]
pub struct ActiveTask {
    pub turn_id: String,
    pub kind: TaskKind,
}

/// The turn that calls the tool.
#[derive(Debug)]
pub struct TurnFacts {
    pub model: String,
    pub model_provider: String,
    pub reasoning_effort: String,
    pub thread_id: String,
    pub turn_id: String,
}

/// The turn that calls the tool, by its texts.
pub struct TurnData {
    pub model: Seq<char>,
    pub model_provider: Seq<char>,
    pub reasoning_effort: Seq<char>,
    pub thread_id: Seq<char>,
    pub turn_id: Seq<char>,
}

impl View for TurnFacts {
    type V = TurnData;

    open spec fn view(&self) -> TurnData {
        TurnData {
            model: self.model@,
            model_provider: self.model_provider@,
            reasoning_effort: self.reasoning_effort@,
            thread_id: self.thread_id@,
            turn_id: self.turn_id@,
        }
    }
}

/// How many tokens the context holds, and how many it may hold.
#[derive(Clone, Copy, Debug, PartialEq, Eq, Structural)]
pub struct TokenStatus {
    pub active_context_tokens: i64,
    pub full_context_window_limit: Option<i64>,
    pub auto_compact_scope_tokens: i64,
    pub auto_compact_scope_limit: Option<i64>,
}

/// The usage of a session, each part already written as a document.
#[derive(Debug)]
pub struct TokenUsageInfo {
    pub total_token_usage: String,
    pub last_token_usage: String,
}

/// What the tool reports.
///
/// The share of the window that is used is a fraction. Here stand the two numbers that it is made
/// of.
#[derive(Debug)]
pub struct ContextStatusOutput {
    pub model: String,
    pub model_provider: String,
    pub reasoning_effort: String,
    pub thread_id: String,
    pub turn_id: String,
    pub turn_active: bool,
    pub turn_kind: Option<TaskKind>,
    pub context_tokens_used: i64,
    pub context_window_tokens: Option<i64>,
    pub context_tokens_remaining: Option<i64>,
    /// The tokens in use and the tokens of a window that has any.
    pub percent_basis: Option<(i64, i64)>,
    pub auto_compact_tokens_used: i64,
    pub auto_compact_limit: Option<i64>,
    pub auto_compact_tokens_remaining: Option<i64>,
    pub session_total_usage: Option<String>,
    pub last_model_usage: Option<String>,
}

/// What the tool reports, by its texts.
pub struct StatusData {
    pub turn: TurnData,
    pub turn_active: bool,
    pub turn_kind: Option<TaskKind>,
    pub context_tokens_used: i64,
    pub context_window_tokens: Option<i64>,
    pub context_tokens_remaining: Option<i64>,
    pub percent_basis: Option<(i64, i64)>,
    pub auto_compact_tokens_used: i64,
    pub auto_compact_limit: Option<i64>,
    pub auto_compact_tokens_remaining: Option<i64>,
    pub session_total_usage: Option<Seq<char>>,
    pub last_model_usage: Option<Seq<char>>,
}

impl View for ContextStatusOutput {
    type V = StatusData;

    open spec fn view(&self) -> StatusData {
        StatusData {
            turn: TurnData {
                model: self.model@,
                model_provider: self.model_provider@,
                reasoning_effort: self.reasoning_effort@,
                thread_id: self.thread_id@,
                turn_id: self.turn_id@,
            },
            turn_active: self.turn_active,
            turn_kind: self.turn_kind,
            context_tokens_used: self.context_tokens_used,
            context_window_tokens: self.context_window_tokens,
            context_tokens_remaining: self.context_tokens_remaining,
            percent_basis: self.percent_basis,
            auto_compact_tokens_used: self.auto_compact_tokens_used,
            auto_compact_limit: self.auto_compact_limit,
            auto_compact_tokens_remaining: self.auto_compact_tokens_remaining,
            session_total_usage: optional_view(self.session_total_usage),
            last_model_usage: optional_view(self.last_model_usage),
        }
    }
}

/// How much is left of a limit: never less than nothing, and no more than a number can hold.
pub open spec fn tokens_left(limit: i64, used: i64) -> i64 {
    if limit <= used {
        0
    } else if limit - used > i64::MAX {
        i64::MAX
    } else {
        (limit - used) as i64
    }
}

/// How much is left of an optional limit.
pub open spec fn optional_tokens_left(limit: Option<i64>, used: i64) -> Option<i64> {
    match limit {
        Some(l) => Some(tokens_left(l, used)),
        None => None,
    }
}

/// The two numbers that the used share of a window is made of, where the window has any tokens.
pub open spec fn percent_basis_of(limit: Option<i64>, used: i64) -> Option<(i64, i64)> {
    match limit {
        Some(l) => if l > 0 {
            Some((used, l))
        } else {
            None
        },
        None => None,
    }
}

/// What is reported of a turn, given the running task, the tokens and the usage.
pub open spec fn status_of(
    turn: TurnData,
    task: Option<&ActiveTask>,
    tokens: TokenStatus,
    usage: Option<TokenUsageInfo>,
) -> StatusData {
    StatusData {
        turn,
        turn_active: match task {
            Some(t) => t.turn_id@ == turn.turn_id,
            None => false,
        },
        turn_kind: match task {
            Some(t) => Some(t.kind),
            None => None,
        },
        context_tokens_used: tokens.active_context_tokens,
        context_window_tokens: tokens.full_context_window_limit,
        context_tokens_remaining: optional_tokens_left(
            tokens.full_context_window_limit,
            tokens.active_context_tokens,
        ),
        percent_basis: percent_basis_of(
            tokens.full_context_window_limit,
            tokens.active_context_tokens,
        ),
        auto_compact_tokens_used: tokens.auto_compact_scope_tokens,
        auto_compact_limit: tokens.auto_compact_scope_limit,
        auto_compact_tokens_remaining: optional_tokens_left(
            tokens.auto_compact_scope_limit,
            tokens.auto_compact_scope_tokens,
        ),
        session_total_usage: match usage {
            Some(u) => Some(u.total_token_usage@),
            None => None,
        },
        last_model_usage: match usage {
            Some(u) => Some(u.last_token_usage@),
            None => None,
        },
    }
}

fn count_left(limit: Option<i64>, used: i64) -> (left: Option<i64>)
    ensures
        left == optional_tokens_left(limit, used),
{
    match limit {
        Some(l) => {
            let left: i128 = l as i128 - used as i128;
            if left <= 0 {
                Some(0)
            } else if left > i64::MAX as i128 {
                Some(i64::MAX)
            } else {
                Some(left as i64)
            }
        },
        None => None,
    }
}

/// The name of an optional kind of task, in quotes.
pub open spec fn optional_kind(kind: Option<TaskKind>) -> Option<Seq<char>> {
    match kind {
        Some(k) => Some(quoted(task_kind_name(k))),
        None => None,
    }
}

/// What is answered to the model, where `percent` is the numeral of the used share.
pub open spec fn status_json(status: StatusData, percent: Seq<char>) -> Seq<char> {
    braced(status_members(status, percent))
}

/// The members of the answer to the model.
pub open spec fn status_members(status: StatusData, percent: Seq<char>) -> Seq<Seq<char>> {
    seq![
        "\"model\":"@ + json_literal(status.turn.model),
        "\"model_provider\":"@ + json_literal(status.turn.model_provider),
        "\"reasoning_effort\":"@ + json_literal(status.turn.reasoning_effort),
        "\"thread_id\":"@ + json_literal(status.turn.thread_id),
        "\"turn_id\":"@ + json_literal(status.turn.turn_id),
        "\"turn_active\":"@ + truth_word(status.turn_active),
        "\"turn_kind\":"@ + or_null(optional_kind(status.turn_kind)),
        "\"context_tokens_used\":"@ + signed_decimal(status.context_tokens_used as int),
        "\"context_window_tokens\":"@ + or_null(
            optional_signed_decimal(status.context_window_tokens),
        ),
        "\"context_tokens_remaining\":"@ + or_null(
            optional_signed_decimal(status.context_tokens_remaining),
        ),
        "\"context_window_percent_used\":"@ + (if status.percent_basis is Some {
            percent
        } else {
            "null"@
        }),
        "\"auto_compact_tokens_used\":"@ + signed_decimal(
            status.auto_compact_tokens_used as int,
        ),
        "\"auto_compact_limit\":"@ + or_null(optional_signed_decimal(status.auto_compact_limit)),
        "\"auto_compact_tokens_remaining\":"@ + or_null(
            optional_signed_decimal(status.auto_compact_tokens_remaining),
        ),
        "\"session_total_usage\":"@ + or_null(status.session_total_usage),
        "\"last_model_usage\":"@ + or_null(status.last_model_usage),
    ]
}

impl ContextStatusOutput {
    /// Writes the answer to the model, where `percent` is the numeral of the used share.
    pub fn rendered(&self, percent: &str) -> (text: String)
        ensures
            text@ == status_json(self@, percent@),
    {
        let mut members: Vec<String> = Vec::new();
        push_member(&mut members, "\"model\":", Some(write_json_literal(self.model.as_str())));
        push_member(
            &mut members,
            "\"model_provider\":",
            Some(write_json_literal(self.model_provider.as_str())),
        );
        push_member(
            &mut members,
            "\"reasoning_effort\":",
            Some(write_json_literal(self.reasoning_effort.as_str())),
        );
        push_member(
            &mut members,
            "\"thread_id\":",
            Some(write_json_literal(self.thread_id.as_str())),
        );
        push_member(&mut members, "\"turn_id\":", Some(write_json_literal(self.turn_id.as_str())));
        push_member(&mut members, "\"turn_active\":", Some(write_truth(self.turn_active)));
        let kind = match self.turn_kind {
            Some(kind) => Some(quote(kind.as_str())),
            None => None,
        };
        push_member(&mut members, "\"turn_kind\":", Some(write_or_null(kind)));
        push_member(
            &mut members,
            "\"context_tokens_used\":",
            Some(write_signed_decimal(self.context_tokens_used)),
        );
        push_member(
            &mut members,
            "\"context_window_tokens\":",
            Some(write_or_null(write_optional_signed(self.context_window_tokens))),
        );
        let ghost status = self@;
        let ghost head = text_views(members@);
        assert(head =~= seq![
            "\"model\":"@ + json_literal(status.turn.model),
            "\"model_provider\":"@ + json_literal(status.turn.model_provider),
            "\"reasoning_effort\":"@ + json_literal(status.turn.reasoning_effort),
            "\"thread_id\":"@ + json_literal(status.turn.thread_id),
            "\"turn_id\":"@ + json_literal(status.turn.turn_id),
            "\"turn_active\":"@ + truth_word(status.turn_active),
            "\"turn_kind\":"@ + or_null(optional_kind(status.turn_kind)),
            "\"context_tokens_used\":"@ + signed_decimal(status.context_tokens_used as int),
            "\"context_window_tokens\":"@ + or_null(
                optional_signed_decimal(status.context_window_tokens),
            ),
        ]);
        push_member(
            &mut members,
            "\"context_tokens_remaining\":",
            Some(write_or_null(write_optional_signed(self.context_tokens_remaining))),
        );
        let share = if self.percent_basis.is_some() {
            percent.to_owned()
        } else {
            "null".to_owned()
        };
        push_member(&mut members, "\"context_window_percent_used\":", Some(share));
        push_member(
            &mut members,
            "\"auto_compact_tokens_used\":",
            Some(write_signed_decimal(self.auto_compact_tokens_used)),
        );
        push_member(
            &mut members,
            "\"auto_compact_limit\":",
            Some(write_or_null(write_optional_signed(self.auto_compact_limit))),
        );
        push_member(
            &mut members,
            "\"auto_compact_tokens_remaining\":",
            Some(write_or_null(write_optional_signed(self.auto_compact_tokens_remaining))),
        );
        push_member(
            &mut members,
            "\"session_total_usage\":",
            Some(write_or_null(copy_optional(&self.session_total_usage))),
        );
        push_member(
            &mut members,
            "\"last_model_usage\":",
            Some(write_or_null(copy_optional(&self.last_model_usage))),
        );
        assert(text_views(members@) =~= head + seq![
            "\"context_tokens_remaining\":"@ + or_null(
                optional_signed_decimal(status.context_tokens_remaining),
            ),
            "\"context_window_percent_used\":"@ + (if status.percent_basis is Some {
                percent@
            } else {
                "null"@
            }),
            "\"auto_compact_tokens_used\":"@ + signed_decimal(
                status.auto_compact_tokens_used as int,
            ),
            "\"auto_compact_limit\":"@ + or_null(optional_signed_decimal(status.auto_compact_limit)),
            "\"auto_compact_tokens_remaining\":"@ + or_null(
                optional_signed_decimal(status.auto_compact_tokens_remaining),
            ),
            "\"session_total_usage\":"@ + or_null(status.session_total_usage),
            "\"last_model_usage\":"@ + or_null(status.last_model_usage),
        ]);
        assert(text_views(members@) =~= status_members(status, percent@));
        brace(&members)
    }
}

/// The tool that reports the state of the context.
pub open spec fn context_status_tool() -> ToolData {
    plain_tool(
        "context_status"@,
        "Report the current model, active-turn state, context-window usage, and cumulative token usage for this Codex thread. Use this before deciding whether to compact context."@,
        Seq::<ParameterData>::empty(),
    )
}

/// Describes the tool to the model.
pub fn create_context_status_tool() -> (tool: ResponsesApiTool)
    ensures
        tool@ == context_status_tool(),
{
    let parameters: Vec<Parameter> = Vec::new();
    let tool = describe_tool(
        "context_status",
        "Report the current model, active-turn state, context-window usage, and cumulative token usage for this Codex thread. Use this before deciding whether to compact context.",
        parameters,
    );
    assert(tool@.parameters =~= Seq::<ParameterData>::empty());
    tool
}

/// The tool that reports the state of the context.
pub struct ContextStatusHandler;

impl ContextStatusHandler {
    /// The name of the tool.
    pub fn tool_name(&self) -> (name: &'static str)
        ensures
            name@ == context_status_tool().name,
    {
        "context_status"
    }

    /// Describes the tool to the model.
    pub fn spec(&self) -> (tool: ResponsesApiTool)
        ensures
            tool@ == context_status_tool(),
    {
        create_context_status_tool()
    }

    /// Answers a call: only a call of a function is answered.
    pub fn handle(
        &self,
        payload: ToolPayload,
        turn: &TurnFacts,
        task: Option<&ActiveTask>,
        tokens: TokenStatus,
        usage: Option<TokenUsageInfo>,
    ) -> (result: Result<ContextStatusOutput, String>)
        ensures
            match result {
                Ok(output) => payload == ToolPayload::Function && output@ == status_of(
                    turn@,
                    task,
                    tokens,
                    usage,
                ),
                Err(message) => payload == ToolPayload::Other && message@
                    == "context_status handler received unsupported payload"@,
            },
    {
        if let ToolPayload::Other = payload {
            return Err("context_status handler received unsupported payload".to_owned());
        }
        let (turn_active, turn_kind) = match task {
            Some(task) => (
                same_text(task.turn_id.as_str(), turn.turn_id.as_str()),
                Some(task.kind),
            ),
            None => (false, None),
        };
        let percent_basis = match tokens.full_context_window_limit {
            Some(limit) => if limit > 0 {
                Some((tokens.active_context_tokens, limit))
            } else {
                None
            },
            None => None,
        };
        let (session_total_usage, last_model_usage) = match usage {
            Some(usage) => (Some(usage.total_token_usage), Some(usage.last_token_usage)),
            None => (None, None),
        };
        Ok(
            ContextStatusOutput {
                model: turn.model.clone(),
                model_provider: turn.model_provider.clone(),
                reasoning_effort: turn.reasoning_effort.clone(),
                thread_id: turn.thread_id.clone(),
                turn_id: turn.turn_id.clone(),
                turn_active,
                turn_kind,
                context_tokens_used: tokens.active_context_tokens,
                context_window_tokens: tokens.full_context_window_limit,
                context_tokens_remaining: count_left(
                    tokens.full_context_window_limit,
                    tokens.active_context_tokens,
                ),
                percent_basis,
                auto_compact_tokens_used: tokens.auto_compact_scope_tokens,
                auto_compact_limit: tokens.auto_compact_scope_limit,
                auto_compact_tokens_remaining: count_left(
                    tokens.auto_compact_scope_limit,
                    tokens.auto_compact_scope_tokens,
                ),
                session_total_usage,
                last_model_usage,
            },
        )
    }
}

/// What is used of a limit and what is left of it make up the limit, unless more is used than it
/// allows: nothing is left then.
pub proof fn law_tokens_left_complete_the_limit(limit: i64, used: i64)
    requires
        used >= 0,
    ensures
        tokens_left(limit, used) >= 0,
        used <= limit ==> used + tokens_left(limit, used) == limit,
        used > limit ==> tokens_left(limit, used) == 0,
{
}

} // verus!
