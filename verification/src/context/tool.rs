//! How a tool is described to the model.

use vstd::prelude::*;
use vstd::string::*;

use crate::text::optional_view;

verus! {

/// What a call of a tool carries.
#[derive(Clone, Copy, Debug, PartialEq, Eq, Structural)]
pub enum ToolPayload {
    /// The arguments of a function.
    Function,
    /// Anything else.
    Other,
}

/// The type of a parameter.
#[derive(Clone, Copy, Debug, PartialEq, Eq, Structural)]
pub enum ParameterType {
    Text,
    Truth,
}

/// A parameter of a tool.
#[derive(Debug, PartialEq, Eq)]
pub struct Parameter {
    pub name: String,
    pub parameter_type: ParameterType,
    pub description: Option<String>,
}

/// A parameter of a tool, by its texts.
pub struct ParameterData {
    pub name: Seq<char>,
    pub parameter_type: ParameterType,
    pub description: Option<Seq<char>>,
}

impl View for Parameter {
    type V = ParameterData;

    open spec fn view(&self) -> ParameterData {
        ParameterData {
            name: self.name@,
            parameter_type: self.parameter_type,
            description: optional_view(self.description),
        }
    }
}

/// A function that is offered to the model. None of its parameters is required.
#[derive(Debug, PartialEq, Eq)]
pub struct ResponsesApiTool {
    pub name: String,
    pub description: String,
    pub strict: bool,
    pub defer_loading: Option<bool>,
    /// The parameters in the ascending order of their names.
    pub parameters: Vec<Parameter>,
    pub additional_properties: bool,
}

/// A function that is offered to the model, by its texts.
pub struct ToolData {
    pub name: Seq<char>,
    pub description: Seq<char>,
    pub strict: bool,
    pub defer_loading: Option<bool>,
    pub parameters: Seq<ParameterData>,
    pub additional_properties: bool,
}

/// Parameters by their texts.
pub open spec fn parameter_views(parameters: Seq<Parameter>) -> Seq<ParameterData> {
    Seq::new(parameters.len(), |i: int| parameters[i]@)
}

impl View for ResponsesApiTool {
    type V = ToolData;

    open spec fn view(&self) -> ToolData {
        ToolData {
            name: self.name@,
            description: self.description@,
            strict: self.strict,
            defer_loading: self.defer_loading,
            parameters: parameter_views(self.parameters@),
            additional_properties: self.additional_properties,
        }
    }
}

/// A function with these parameters and no others, that is loaded at once and not held to its
/// schema.
pub open spec fn plain_tool(
    name: Seq<char>,
    description: Seq<char>,
    parameters: Seq<ParameterData>,
) -> ToolData {
    ToolData {
        name,
        description,
        strict: false,
        defer_loading: None,
        parameters,
        additional_properties: false,
    }
}

/// Describes a function with these parameters and no others.
pub fn describe_tool(name: &str, description: &str, parameters: Vec<Parameter>) -> (tool:
    ResponsesApiTool)
    ensures
        tool@ == plain_tool(name@, description@, parameter_views(parameters@)),
{
    ResponsesApiTool {
        name: name.to_owned(),
        description: description.to_owned(),
        strict: false,
        defer_loading: None,
        parameters,
        additional_properties: false,
    }
}

/// Describes an optional parameter.
pub fn describe_parameter(name: &str, parameter_type: ParameterType, description: &str) -> (parameter:
    Parameter)
    ensures
        parameter@ == (ParameterData {
            name: name@,
            parameter_type,
            description: Some(description@),
        }),
{
    Parameter {
        name: name.to_owned(),
        parameter_type,
        description: Some(description.to_owned()),
    }
}

} // verus!
