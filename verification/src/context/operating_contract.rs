//! The operating contract: which sessions are told of it, and when they are told again.

use vstd::prelude::*;
use vstd::string::*;

use crate::text::{same_text, trim_text, trimmed};

verus! {

/// A session that the runtime starts for its own ends.
#[derive(Clone, Copy, Debug, PartialEq, Eq, Structural)]
pub enum InternalSessionSource {
    Guardian,
    MemoryConsolidation,
    Other,
}

/// What a session below another one is for.
#[derive(Debug, PartialEq, Eq)]
pub enum SubAgentSource {
    Review,
    Compact,
    MemoryConsolidation,
    /// A thread that another thread started.
    ThreadSpawn,
    Other(String),
}

/// Where a session comes from.
#[derive(Debug, PartialEq, Eq)]
pub enum SessionSource {
    Cli,
    /// Any other program that a person works with.
    Client,
    Internal(InternalSessionSource),
    SubAgent(SubAgentSource),
}

/// A session with a job of its own: the guardian, and those for memory, reviews and compactions.
pub open spec fn is_specialized(source: SessionSource) -> bool {
    match source {
        SessionSource::Internal(source) => source != InternalSessionSource::Other,
        SessionSource::SubAgent(source) => match source {
            SubAgentSource::ThreadSpawn => false,
            SubAgentSource::Other(label) => label@ == "guardian"@,
            _ => true,
        },
        _ => false,
    }
}

/// What was told of the contract: which text, and what stood before it.
#[derive(Debug, PartialEq, Eq)]
pub struct OperatingContractSnapshot {
    pub contract: String,
    pub preceding_instruction_epoch: String,
}

/// What was told of the contract, by its texts.
pub struct ContractData {
    pub contract: Seq<char>,
    pub preceding_instruction_epoch: Seq<char>,
}

impl View for OperatingContractSnapshot {
    type V = ContractData;

    open spec fn view(&self) -> ContractData {
        ContractData {
            contract: self.contract@,
            preceding_instruction_epoch: self.preceding_instruction_epoch@,
        }
    }
}

/// What is known of the contract that was told before.
#[derive(Debug)]
pub enum PreviousSectionState {
    Absent,
    Unknown,
    Known { snapshot: OperatingContractSnapshot },
}

/// The contract is to be told: it is not known to have been told with the same text after the same
/// instructions.
pub open spec fn must_tell(previous: PreviousSectionState, current: ContractData) -> bool {
    match previous {
        PreviousSectionState::Known { snapshot } => snapshot@ != current,
        _ => true,
    }
}

/// The message that tells the contract.
pub open spec fn contract_message(contract: Seq<char>) -> Seq<char> {
    "<operating_contract>"@ + contract_body(contract) + "</operating_contract>"@
}

/// The text of the contract on lines of its own.
pub open spec fn contract_body(contract: Seq<char>) -> Seq<char> {
    "\n"@ + trimmed(contract) + "\n"@
}

/// The state of the operating contract: the digest of the instructions that stand before it.
#[derive(Debug, PartialEq, Eq)]
pub struct OperatingContractState {
    pub preceding_instruction_epoch: String,
}

impl OperatingContractState {
    /// The contract after these instructions.
    pub fn new(preceding_instruction_epoch: String) -> (state: OperatingContractState)
        ensures
            state.preceding_instruction_epoch@ == preceding_instruction_epoch@,
    {
        OperatingContractState { preceding_instruction_epoch }
    }

    /// Tells whether a session is told of the contract: every session but the specialized ones.
    pub fn applies_to(session_source: &SessionSource) -> (applies: bool)
        ensures
            applies == !is_specialized(*session_source),
    {
        match session_source {
            SessionSource::Internal(source) => match source {
                InternalSessionSource::Guardian => false,
                InternalSessionSource::MemoryConsolidation => false,
                InternalSessionSource::Other => true,
            },
            SessionSource::SubAgent(source) => match source {
                SubAgentSource::Review => false,
                SubAgentSource::Compact => false,
                SubAgentSource::MemoryConsolidation => false,
                SubAgentSource::ThreadSpawn => true,
                SubAgentSource::Other(label) => !same_text(label.as_str(), "guardian"),
            },
            SessionSource::Cli => true,
            SessionSource::Client => true,
        }
    }

    /// The kind of the message.
    pub fn content_kind(&self) -> (kind: &'static str)
        ensures
            kind@ == "operating_contract.instructions"@,
    {
        "operating_contract.instructions"
    }

    /// The role in which the contract is told.
    pub fn role(&self) -> (role: &'static str)
        ensures
            role@ == "developer"@,
    {
        "developer"
    }

    /// What stands round the contract.
    pub fn markers(&self) -> (markers: (&'static str, &'static str))
        ensures
            markers.0@ == "<operating_contract>"@,
            markers.1@ == "</operating_contract>"@,
    {
        Self::type_markers()
    }

    /// What stands round every contract.
    pub fn type_markers() -> (markers: (&'static str, &'static str))
        ensures
            markers.0@ == "<operating_contract>"@,
            markers.1@ == "</operating_contract>"@,
    {
        ("<operating_contract>", "</operating_contract>")
    }

    /// The text of the contract, on lines of its own.
    pub fn body(&self, contract: &str) -> (body: String)
        ensures
            body@ == contract_body(contract@),
    {
        let mut body = "\n".to_owned();
        body.append(trim_text(contract).as_str());
        body.append("\n");
        body
    }

    /// What is noted of the contract with this digest.
    pub fn snapshot(&self, contract_digest: &str) -> (snapshot: OperatingContractSnapshot)
        ensures
            snapshot@ == (ContractData {
                contract: contract_digest@,
                preceding_instruction_epoch: self.preceding_instruction_epoch@,
            }),
    {
        OperatingContractSnapshot {
            contract: contract_digest.to_owned(),
            preceding_instruction_epoch: self.preceding_instruction_epoch.clone(),
        }
    }

    /// Tells whether a message tells the contract, given whether its text has the contract's
    /// markers.
    pub fn matches_legacy_fragment(role: &str, text_has_markers: bool) -> (same: bool)
        ensures
            same == (role@ == "developer"@ && text_has_markers),
    {
        same_text(role, "developer") && text_has_markers
    }

    /// A message that is retained can be told to be the contract.
    pub fn has_retained_fragment_matcher() -> (has: bool)
        ensures
            has,
    {
        true
    }

    /// Tells whether a message that is retained tells the contract, given whether its text has the
    /// contract's markers.
    pub fn matches_retained_fragment(role: &str, text_has_markers: bool) -> (same: bool)
        ensures
            same == (role@ == "developer"@ && text_has_markers),
    {
        Self::matches_legacy_fragment(role, text_has_markers)
    }

    /// The message that tells the contract, where it is to be told.
    pub fn render_diff(
        &self,
        previous: &PreviousSectionState,
        contract: &str,
        contract_digest: &str,
    ) -> (message: Option<String>)
        ensures
            match message {
                Some(text) => must_tell(
                    *previous,
                    ContractData {
                        contract: contract_digest@,
                        preceding_instruction_epoch: self.preceding_instruction_epoch@,
                    },
                ) && text@ == contract_message(contract@),
                None => !must_tell(
                    *previous,
                    ContractData {
                        contract: contract_digest@,
                        preceding_instruction_epoch: self.preceding_instruction_epoch@,
                    },
                ),
            },
    {
        if let PreviousSectionState::Known { snapshot } = previous {
            if same_text(snapshot.contract.as_str(), contract_digest) && same_text(
                snapshot.preceding_instruction_epoch.as_str(),
                self.preceding_instruction_epoch.as_str(),
            ) {
                return None;
            }
        }
        let (start, end) = self.markers();
        let mut message = start.to_owned();
        message.append(self.body(contract).as_str());
        message.append(end);
        Some(message)
    }
}

/// The contract is not repeated while neither its text nor what stands before it changes, and it
/// is told again after either has changed.
pub proof fn law_contract_is_told_once_per_change(
    told: OperatingContractSnapshot,
    current: ContractData,
)
    ensures
        told@ == current ==> !must_tell(PreviousSectionState::Known { snapshot: told }, current),
        told.preceding_instruction_epoch@ != current.preceding_instruction_epoch ==> must_tell(
            PreviousSectionState::Known { snapshot: told },
            current,
        ),
        told.contract@ != current.contract ==> must_tell(
            PreviousSectionState::Known { snapshot: told },
            current,
        ),
{
}

} // verus!
