//! The tool that asks for a compaction of the context, and what the context is told after one.

use vstd::prelude::*;
use vstd::string::*;

use crate::context::tool::{
    describe_parameter, describe_tool, parameter_views, plain_tool, Parameter, ParameterData,
    ParameterType, ResponsesApiTool, ToolData, ToolPayload,
};
use crate::json::{
    json_line, member_trees, named, object_of, text_json, write_json_line, Json, JsonTree,
};
use crate::text::{optional_view, trim_end, trim_text, trim_text_end, trimmed};

verus! {

/// How many tokens of the configured instructions are kept after a compaction.
pub const POST_COMPACTION_PROMPT_MAX_TOKENS: usize = 2000;

/// The tool that asks for a compaction.
pub open spec fn compact_context_tool() -> ToolData {
    plain_tool(
        "compact_context"@,
        "Schedule context compaction for the current turn. The compaction runs after this tool result and before the next model step, preserving environment state while replacing conversation history with compacted context. It continues the same conversation and does not create, clear, complete, block, or transfer a task or goal."@,
        seq![
            ParameterData {
                name: "discard_images"@,
                parameter_type: ParameterType::Truth,
                description: Some(
                    "If true, omit inline image bodies from the compactor input and installed compacted context. The source transcript is unchanged."@,
                ),
            },
            ParameterData {
                name: "instructions"@,
                parameter_type: ParameterType::Text,
                description: Some(
                    "Optional guidance for what the compacted context should preserve, summarize, edit, or emphasize."@,
                ),
            },
            ParameterData {
                name: "retry_websocket"@,
                parameter_type: ParameterType::Truth,
                description: Some(
                    "If true, retry Responses WebSocket transport once after successful compaction; failure returns to sticky HTTP fallback."@,
                ),
            },
        ],
    )
}

/// Describes the tool to the model.
pub fn create_compact_context_tool() -> (tool: ResponsesApiTool)
    ensures
        tool@ == compact_context_tool(),
{
    let mut parameters: Vec<Parameter> = Vec::new();
    parameters.push(
        describe_parameter(
            "discard_images",
            ParameterType::Truth,
            "If true, omit inline image bodies from the compactor input and installed compacted context. The source transcript is unchanged.",
        ),
    );
    parameters.push(
        describe_parameter(
            "instructions",
            ParameterType::Text,
            "Optional guidance for what the compacted context should preserve, summarize, edit, or emphasize.",
        ),
    );
    parameters.push(
        describe_parameter(
            "retry_websocket",
            ParameterType::Truth,
            "If true, retry Responses WebSocket transport once after successful compaction; failure returns to sticky HTTP fallback.",
        ),
    );
    assert(parameter_views(parameters@) =~= compact_context_tool().parameters);
    describe_tool(
        "compact_context",
        "Schedule context compaction for the current turn. The compaction runs after this tool result and before the next model step, preserving environment state while replacing conversation history with compacted context. It continues the same conversation and does not create, clear, complete, block, or transfer a task or goal.",
        parameters,
    )
}

/// What the model is told of a compaction that was scheduled.
pub open spec fn scheduled_tree(turn_id: Seq<char>) -> JsonTree {
    JsonTree::Object(
        seq![
            (
                "message"@,
                JsonTree::Text("Context compaction is scheduled before the next model step."@),
            ),
            ("scheduled"@, JsonTree::Bool(true)),
            ("turn_id"@, JsonTree::Text(turn_id)),
        ],
    )
}

/// The tool that asks for a compaction of the context.
pub struct CompactContextHandler;

impl CompactContextHandler {
    /// The name of the tool.
    pub fn tool_name(&self) -> (name: &'static str)
        ensures
            name@ == compact_context_tool().name,
    {
        "compact_context"
    }

    /// Describes the tool to the model.
    pub fn spec(&self) -> (tool: ResponsesApiTool)
        ensures
            tool@ == compact_context_tool(),
    {
        create_compact_context_tool()
    }

    /// Takes a call before the session is asked for a compaction: only a call of a function is
    /// taken.
    pub fn begin(&self, payload: ToolPayload) -> (result: Result<(), String>)
        ensures
            match result {
                Ok(()) => payload == ToolPayload::Function,
                Err(message) => payload == ToolPayload::Other && message@
                    == "compact_context handler received unsupported payload"@,
            },
    {
        match payload {
            ToolPayload::Function => Ok(()),
            ToolPayload::Other => Err(
                "compact_context handler received unsupported payload".to_owned(),
            ),
        }
    }

    /// Answers a call once the session has said whether the turn is still the active one.
    pub fn conclude(&self, turn_id: &str, accepted: bool) -> (result: Result<String, String>)
        ensures
            match result {
                Ok(text) => accepted && text@ == json_line(scheduled_tree(turn_id@)),
                Err(message) => !accepted && message@
                    == "compact_context could not find its active turn"@,
            },
    {
        if !accepted {
            return Err("compact_context could not find its active turn".to_owned());
        }
        let members: Vec<(String, Json)> = vec![
            named(
                "message",
                text_json("Context compaction is scheduled before the next model step."),
            ),
            named("scheduled", Json::Bool(true)),
            named("turn_id", text_json(turn_id)),
        ];
        let ghost trees = member_trees(members@);
        let json = object_of(members);
        assert(trees =~= scheduled_tree(turn_id@)->Object_0);
        Ok(write_json_line(&json))
    }
}

/// The instructions that are to be kept after a compaction: without white space round them, and
/// none where nothing is left.
pub open spec fn kept_instructions(configured: Option<Seq<char>>) -> Option<Seq<char>> {
    match configured {
        Some(prompt) => if trimmed(prompt).len() > 0 {
            Some(trimmed(prompt))
        } else {
            None
        },
        None => None,
    }
}

/// Finds the instructions that are to be kept after a compaction.
pub fn keep_instructions(configured: Option<&str>) -> (kept: Option<String>)
    ensures
        optional_view(kept) == kept_instructions(
            match configured {
                Some(prompt) => Some(prompt@),
                None => None,
            },
        ),
{
    match configured {
        Some(prompt) => {
            let kept = trim_text(prompt);
            if kept.as_str().unicode_len() > 0 {
                Some(kept)
            } else {
                None
            }
        },
        None => None,
    }
}

/// What the context is told after a compaction.
#[derive(Debug, PartialEq, Eq)]
pub struct PostCompactionContext {
    /// The configured instructions.
    pub configured_prompt: Option<String>,
}

/// The message to the context after a compaction.
pub open spec fn post_compaction_body(marker: Seq<char>, prompt: Option<Seq<char>>) -> Seq<char> {
    match prompt {
        Some(p) => trim_end(marker) + "\n\n# Configured post-compaction instructions\n\n"@ + p,
        None => trim_end(marker),
    }
}

/// The instructions of a context once they were cut, where there are any.
pub open spec fn cut_instructions(kept: Option<Seq<char>>, cut: Seq<char>) -> Option<Seq<char>> {
    match kept {
        Some(_) => Some(cut),
        None => None,
    }
}

impl PostCompactionContext {
    /// What the context is told with the configured instructions, which are yet to be cut to their
    /// limit.
    pub fn new(configured_prompt: Option<&str>) -> (context: PostCompactionContext)
        ensures
            optional_view(context.configured_prompt) == kept_instructions(
                match configured_prompt {
                    Some(prompt) => Some(prompt@),
                    None => None,
                },
            ),
    {
        PostCompactionContext { configured_prompt: keep_instructions(configured_prompt) }
    }

    /// The instructions that are to be cut, and to how many tokens.
    pub fn uncut_prompt(&self) -> (uncut: Option<(&str, usize)>)
        ensures
            match uncut {
                Some((prompt, tokens)) => optional_view(self.configured_prompt) == Some(prompt@)
                    && tokens == POST_COMPACTION_PROMPT_MAX_TOKENS,
                None => self.configured_prompt is None,
            },
    {
        match &self.configured_prompt {
            Some(prompt) => Some((prompt.as_str(), POST_COMPACTION_PROMPT_MAX_TOKENS)),
            None => None,
        }
    }

    /// Takes the instructions as they were cut.
    pub fn cut_prompt(&mut self, cut: String)
        ensures
            optional_view(final(self).configured_prompt) == cut_instructions(
                optional_view(old(self).configured_prompt),
                cut@,
            ),
    {
        if self.configured_prompt.is_some() {
            self.configured_prompt = Some(cut);
        }
    }

    /// The role in which the context is told.
    pub fn role(&self) -> (role: &'static str)
        ensures
            role@ == "developer"@,
    {
        "developer"
    }

    /// The message stands on its own.
    pub fn requires_separate_message(&self) -> (separate: bool)
        ensures
            separate,
    {
        true
    }

    /// Nothing stands round the message.
    pub fn markers(&self) -> (markers: (&'static str, &'static str))
        ensures
            markers.0@ == ""@,
            markers.1@ == ""@,
    {
        Self::type_markers()
    }

    /// Nothing stands round any such message.
    pub fn type_markers() -> (markers: (&'static str, &'static str))
        ensures
            markers.0@ == ""@,
            markers.1@ == ""@,
    {
        ("", "")
    }

    /// The message: that the context was compacted, and the configured instructions.
    pub fn body(&self, marker: &str) -> (body: String)
        ensures
            body@ == post_compaction_body(marker@, optional_view(self.configured_prompt)),
    {
        let mut body = trim_text_end(marker);
        if let Some(prompt) = &self.configured_prompt {
            body.append("\n\n# Configured post-compaction instructions\n\n");
            body.append(prompt.as_str());
        }
        body
    }
}

} // verus!
