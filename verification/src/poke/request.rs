//! The request of a poke, its answer, and what it asks of the thread.

use vstd::prelude::*;
use vstd::string::*;
use vstd::utf8::*;

use crate::atom::{check_atom, is_atom, lemma_atom_bytes};
use crate::attention::{
    held_reason, held_reason_name, AttentionMetadata, ThreadAttentionEvent, ThreadAttentionKind,
    ThreadAttentionResponse,
};
use crate::json::{
    as_text, bounded_number, choice, json_literal, names, parse_without_repeats,
    parsed_without_repeats, read_choice, read_number, read_record, record, slot_tree, text_slot,
    write_json_literal, Json, JsonTree,
};
use crate::text::{byte_len, lemma_bytes_of_join, same_text, text_bytes};

verus! {

/// The version of a poke.
pub const POKE_VERSION: u8 = 1;

/// The most bytes of a request.
pub const MAX_FRAME_BYTES: usize = 4096;

/// What a poke signals.
#[derive(Clone, Copy, Debug, PartialEq, Eq, Structural)]
pub enum PokeSignal {
    Tap,
    Cc,
    Council,
}

/// The attention that a signal asks for.
pub open spec fn poke_attention(signal: PokeSignal) -> ThreadAttentionKind {
    match signal {
        PokeSignal::Tap => ThreadAttentionKind::Periodic,
        PokeSignal::Cc => ThreadAttentionKind::DirectedResponse,
        PokeSignal::Council => ThreadAttentionKind::Mention,
    }
}

/// The name of a signal.
pub open spec fn poke_name(signal: PokeSignal) -> Seq<char> {
    match signal {
        PokeSignal::Tap => "tap"@,
        PokeSignal::Cc => "cc"@,
        PokeSignal::Council => "council"@,
    }
}

impl PokeSignal {
    /// The attention that this signal asks for.
    pub fn attention_kind(self) -> (kind: ThreadAttentionKind)
        ensures
            kind == poke_attention(self),
    {
        match self {
            PokeSignal::Tap => ThreadAttentionKind::Periodic,
            PokeSignal::Cc => ThreadAttentionKind::DirectedResponse,
            PokeSignal::Council => ThreadAttentionKind::Mention,
        }
    }

    /// The name of this signal.
    pub fn as_str(self) -> (name: &'static str)
        ensures
            name@ == poke_name(self),
    {
        match self {
            PokeSignal::Tap => "tap",
            PokeSignal::Cc => "cc",
            PokeSignal::Council => "council",
        }
    }
}

/// The signal by its name.
pub open spec fn poke_named(name: Option<Seq<char>>) -> Option<PokeSignal> {
    match name {
        Some(n) => if n == "tap"@ {
            Some(PokeSignal::Tap)
        } else if n == "cc"@ {
            Some(PokeSignal::Cc)
        } else if n == "council"@ {
            Some(PokeSignal::Council)
        } else {
            None
        },
        None => None,
    }
}

/// Reads a signal by its name.
pub fn read_poke_signal(slot: Option<&Json>) -> (signal: Option<PokeSignal>)
    ensures
        signal == poke_named(choice(slot_tree(slot))),
{
    match read_choice(slot) {
        Some(name) => if same_text(name.as_str(), "tap") {
            Some(PokeSignal::Tap)
        } else if same_text(name.as_str(), "cc") {
            Some(PokeSignal::Cc)
        } else if same_text(name.as_str(), "council") {
            Some(PokeSignal::Council)
        } else {
            None
        },
        None => None,
    }
}

/// A poke: closed metadata and no text.
#[derive(Debug, PartialEq, Eq)]
pub struct PokeRequest {
    pub version: u8,
    pub event_id: String,
    pub to: String,
    pub workspace: String,
    pub member: String,
    pub session_id: String,
    pub signal: PokeSignal,
}

/// What a poke holds.
pub struct PokeData {
    pub version: u8,
    pub event_id: Seq<char>,
    pub to: Seq<char>,
    pub workspace: Seq<char>,
    pub member: Seq<char>,
    pub session_id: Seq<char>,
    pub signal: PokeSignal,
}

impl View for PokeRequest {
    type V = PokeData;

    open spec fn view(&self) -> PokeData {
        PokeData {
            version: self.version,
            event_id: self.event_id@,
            to: self.to@,
            workspace: self.workspace@,
            member: self.member@,
            session_id: self.session_id@,
            signal: self.signal,
        }
    }
}

/// Why a poke is rejected.
#[derive(Clone, Copy, Debug, PartialEq, Eq, Structural)]
pub enum Refusal {
    FrameTooLarge,
    InvalidRequest,
    UnsupportedVersion,
    WrongRecipient,
    UnsafeMetadata,
    PolicyUnavailable,
    PolicyPermissions,
    InvalidPolicy,
    PolicyRecipientMismatch,
    InvalidPolicySource,
    InvalidPolicySignals,
    NotAllowed,
    InvalidPolicyQuota,
    DuplicateEvent,
    RateLimited,
    RecipientChanged,
}

/// The name of a refusal on the wire.
pub open spec fn refusal_name(refusal: Refusal) -> Seq<char> {
    match refusal {
        Refusal::FrameTooLarge => "frameTooLarge"@,
        Refusal::InvalidRequest => "invalidRequest"@,
        Refusal::UnsupportedVersion => "unsupportedVersion"@,
        Refusal::WrongRecipient => "wrongRecipient"@,
        Refusal::UnsafeMetadata => "unsafeMetadata"@,
        Refusal::PolicyUnavailable => "policyUnavailable"@,
        Refusal::PolicyPermissions => "policyPermissions"@,
        Refusal::InvalidPolicy => "invalidPolicy"@,
        Refusal::PolicyRecipientMismatch => "policyRecipientMismatch"@,
        Refusal::InvalidPolicySource => "invalidPolicySource"@,
        Refusal::InvalidPolicySignals => "invalidPolicySignals"@,
        Refusal::NotAllowed => "notAllowed"@,
        Refusal::InvalidPolicyQuota => "invalidPolicyQuota"@,
        Refusal::DuplicateEvent => "duplicateEvent"@,
        Refusal::RateLimited => "rateLimited"@,
        Refusal::RecipientChanged => "recipientChanged"@,
    }
}

impl Refusal {
    /// The name of this refusal.
    pub fn as_str(self) -> (name: &'static str)
        ensures
            name@ == refusal_name(self),
    {
        match self {
            Refusal::FrameTooLarge => "frameTooLarge",
            Refusal::InvalidRequest => "invalidRequest",
            Refusal::UnsupportedVersion => "unsupportedVersion",
            Refusal::WrongRecipient => "wrongRecipient",
            Refusal::UnsafeMetadata => "unsafeMetadata",
            Refusal::PolicyUnavailable => "policyUnavailable",
            Refusal::PolicyPermissions => "policyPermissions",
            Refusal::InvalidPolicy => "invalidPolicy",
            Refusal::PolicyRecipientMismatch => "policyRecipientMismatch",
            Refusal::InvalidPolicySource => "invalidPolicySource",
            Refusal::InvalidPolicySignals => "invalidPolicySignals",
            Refusal::NotAllowed => "notAllowed",
            Refusal::InvalidPolicyQuota => "invalidPolicyQuota",
            Refusal::DuplicateEvent => "duplicateEvent",
            Refusal::RateLimited => "rateLimited",
            Refusal::RecipientChanged => "recipientChanged",
        }
    }
}

/// The fields of a poke, in the order in which a list gives them.
pub open spec fn poke_fields() -> Seq<Seq<char>> {
    seq![
        "version"@,
        "eventId"@,
        "to"@,
        "workspace"@,
        "member"@,
        "sessionId"@,
        "signal"@,
    ]
}

/// The poke that a document records, whatever its metadata.
pub open spec fn decoded_poke(json: JsonTree) -> Option<PokeData> {
    match record(json, poke_fields()) {
        Some(slots) => match (
            bounded_number(slots[0], 255),
            as_text(slots[1]),
            as_text(slots[2]),
            as_text(slots[3]),
            as_text(slots[4]),
            as_text(slots[5]),
            poke_named(choice(slots[6])),
        ) {
            (
                Some(version),
                Some(event_id),
                Some(to),
                Some(workspace),
                Some(member),
                Some(session_id),
                Some(signal),
            ) => Some(
                PokeData {
                    version: version as u8,
                    event_id,
                    to,
                    workspace,
                    member,
                    session_id,
                    signal,
                },
            ),
            _ => None,
        },
        None => None,
    }
}

fn read_poke(json: &Json) -> (request: Option<PokeRequest>)
    ensures
        request is Some <==> decoded_poke(json@) is Some,
        request matches Some(r) ==> decoded_poke(json@) == Some(r@),
{
    let fields = ["version", "eventId", "to", "workspace", "member", "sessionId", "signal"];
    assert(fields@.len() == 7);
    assert(names(fields@) =~= poke_fields());
    let slots = match read_record(json, fields.as_slice()) {
        Some(slots) => slots,
        None => {
            return None;
        },
    };
    match (
        read_number(slots[0], 255),
        text_slot(slots[1]),
        text_slot(slots[2]),
        text_slot(slots[3]),
        text_slot(slots[4]),
        text_slot(slots[5]),
        read_poke_signal(slots[6]),
    ) {
        (
            Some(version),
            Some(event_id),
            Some(to),
            Some(workspace),
            Some(member),
            Some(session_id),
            Some(signal),
        ) => Some(
            PokeRequest {
                version: version as u8,
                event_id,
                to,
                workspace,
                member,
                session_id,
                signal,
            },
        ),
        _ => None,
    }
}

/// A source reference of these parts, with its two separators, fits in its bound.
pub open spec fn source_ref_fits(
    workspace: Seq<char>,
    member: Seq<char>,
    session_id: Seq<char>,
) -> bool {
    byte_len(workspace) + byte_len(member) + byte_len(session_id) + 2 <= 128
}

/// Tells whether a source reference of these parts fits in its bound.
pub fn safe_source_ref(workspace: &str, member: &str, session_id: &str) -> (fits: bool)
    ensures
        fits == source_ref_fits(workspace@, member@, session_id@),
{
    let a = text_bytes(workspace);
    let b = text_bytes(member);
    let c = text_bytes(session_id);
    a <= 126 && b <= 126 - a && c <= 126 - a - b
}

/// The metadata of a poke is safe to show to a model.
pub open spec fn metadata_safe(request: PokeData) -> bool {
    &&& is_atom(request.event_id, 128, true)
    &&& is_atom(request.workspace, 64, true)
    &&& is_atom(request.member, 64, true)
    &&& is_atom(request.session_id, 64, true)
    &&& source_ref_fits(request.workspace, request.member, request.session_id)
}

/// What the receiver makes of a request that was read as a poke.
pub open spec fn poke_checked(poke: Option<PokeData>, recipient: Seq<char>) -> Result<
    PokeData,
    Refusal,
> {
    match poke {
        None => Err(Refusal::InvalidRequest),
        Some(request) => if request.version != POKE_VERSION {
            Err(Refusal::UnsupportedVersion)
        } else if request.to != recipient {
            Err(Refusal::WrongRecipient)
        } else if !metadata_safe(request) {
            Err(Refusal::UnsafeMetadata)
        } else {
            Ok(request)
        },
    }
}

/// The poke that a parsed request is.
pub open spec fn poke_of_document(document: Option<JsonTree>) -> Option<PokeData> {
    match document {
        Some(json) => decoded_poke(json),
        None => None,
    }
}

/// The document of some bytes.
pub open spec fn document_of(bytes: Seq<u8>) -> Option<JsonTree> {
    if valid_utf8(bytes) {
        parsed_without_repeats(decode_utf8(bytes))
    } else {
        None
    }
}

/// What the receiver makes of the bytes of a request.
pub open spec fn request_checked(bytes: Seq<u8>, recipient: Seq<char>) -> Result<
    PokeData,
    Refusal,
> {
    if bytes.len() > MAX_FRAME_BYTES {
        Err(Refusal::FrameTooLarge)
    } else {
        poke_checked(poke_of_document(document_of(bytes)), recipient)
    }
}

/// Parses bytes as a document.
pub fn read_document(bytes: &[u8]) -> (json: Option<Json>)
    ensures
        json is Some <==> document_of(bytes@) is Some,
        json matches Some(j) ==> document_of(bytes@) == Some(j@),
{
    match core::str::from_utf8(bytes) {
        Ok(text) => parse_without_repeats(text),
        Err(_) => None,
    }
}

/// Checks the bytes of a request before any policy is looked at.
pub fn check_request(bytes: &[u8], recipient: &str) -> (result: Result<PokeRequest, Refusal>)
    ensures
        match result {
            Ok(request) => request_checked(bytes@, recipient@) == Ok::<PokeData, Refusal>(
                request@,
            ),
            Err(refusal) => request_checked(bytes@, recipient@) == Err::<PokeData, Refusal>(
                refusal,
            ),
        },
{
    if bytes.len() > MAX_FRAME_BYTES {
        return Err(Refusal::FrameTooLarge);
    }
    let document = read_document(bytes);
    check_document(document.as_ref(), recipient)
}

/// Checks a parsed request before any policy is looked at.
pub fn check_document(document: Option<&Json>, recipient: &str) -> (result: Result<
    PokeRequest,
    Refusal,
>)
    ensures
        match result {
            Ok(request) => poke_checked(poke_of_document(slot_tree(document)), recipient@) == Ok::<
                PokeData,
                Refusal,
            >(request@),
            Err(refusal) => poke_checked(poke_of_document(slot_tree(document)), recipient@)
                == Err::<PokeData, Refusal>(refusal),
        },
{
    let json = match document {
        Some(json) => json,
        None => {
            return Err(Refusal::InvalidRequest);
        },
    };
    let request = match read_poke(json) {
        Some(request) => request,
        None => {
            return Err(Refusal::InvalidRequest);
        },
    };
    if request.version != POKE_VERSION {
        return Err(Refusal::UnsupportedVersion);
    }
    if !same_text(request.to.as_str(), recipient) {
        return Err(Refusal::WrongRecipient);
    }
    if !check_atom(request.event_id.as_str(), 128, true) || !check_atom(
        request.workspace.as_str(),
        64,
        true,
    ) || !check_atom(request.member.as_str(), 64, true) || !check_atom(
        request.session_id.as_str(),
        64,
        true,
    ) || !safe_source_ref(
        request.workspace.as_str(),
        request.member.as_str(),
        request.session_id.as_str(),
    ) {
        return Err(Refusal::UnsafeMetadata);
    }
    Ok(request)
}

/// The answer to a poke.
#[derive(Debug, PartialEq, Eq)]
pub enum PokeResponse {
    Started,
    Held { reason: String },
    Rejected { reason: String },
}

/// What an answer to a poke holds.
pub enum ResponseData {
    Started,
    Held { reason: Seq<char> },
    Rejected { reason: Seq<char> },
}

impl View for PokeResponse {
    type V = ResponseData;

    open spec fn view(&self) -> ResponseData {
        match self {
            PokeResponse::Started => ResponseData::Started,
            PokeResponse::Held { reason } => ResponseData::Held { reason: reason@ },
            PokeResponse::Rejected { reason } => ResponseData::Rejected { reason: reason@ },
        }
    }
}

/// The answer to a poke on the wire, without its line end.
pub open spec fn response_text(response: ResponseData) -> Seq<char> {
    match response {
        ResponseData::Started => "{\"status\":\"started\"}"@,
        ResponseData::Held { reason } => "{\"status\":\"held\",\"reason\":"@ + json_literal(reason)
            + "}"@,
        ResponseData::Rejected { reason } => "{\"status\":\"rejected\",\"reason\":"@ + json_literal(
            reason,
        ) + "}"@,
    }
}

impl PokeResponse {
    /// The rejection for a refusal.
    pub fn rejected(refusal: Refusal) -> (response: PokeResponse)
        ensures
            response@ == (ResponseData::Rejected { reason: refusal_name(refusal) }),
    {
        PokeResponse::Rejected { reason: refusal.as_str().to_owned() }
    }

    /// Writes this answer.
    pub fn to_text(&self) -> (text: String)
        ensures
            text@ == response_text(self@),
    {
        match self {
            PokeResponse::Started => "{\"status\":\"started\"}".to_owned(),
            PokeResponse::Held { reason } => {
                let mut text = "{\"status\":\"held\",\"reason\":".to_owned();
                text.append(write_json_literal(reason.as_str()).as_str());
                text.append("}");
                text
            },
            PokeResponse::Rejected { reason } => {
                let mut text = "{\"status\":\"rejected\",\"reason\":".to_owned();
                text.append(write_json_literal(reason.as_str()).as_str());
                text.append("}");
                text
            },
        }
    }
}

/// What the receiver came to, where it came to anything in time.
#[derive(Debug)]
pub enum PokeAwaited {
    Response { response: PokeResponse },
    Timeout,
    Disconnected,
}

/// The answer to an admitted poke.
pub open spec fn poke_concluded(awaited: PokeAwaited) -> ResponseData {
    match awaited {
        PokeAwaited::Response { response } => response@,
        PokeAwaited::Timeout => ResponseData::Held { reason: "clientResponseTimeout"@ },
        PokeAwaited::Disconnected => ResponseData::Held { reason: "clientStopped"@ },
    }
}

/// Concludes an admitted poke: it is held where the receiver does not answer.
pub fn conclude_poke(awaited: PokeAwaited) -> (response: PokeResponse)
    ensures
        response@ == poke_concluded(awaited),
{
    match awaited {
        PokeAwaited::Response { response } => response,
        PokeAwaited::Timeout => PokeResponse::Held { reason: "clientResponseTimeout".to_owned() },
        PokeAwaited::Disconnected => PokeResponse::Held { reason: "clientStopped".to_owned() },
    }
}

/// The attention that a poke asks for: metadata and nothing else.
pub open spec fn poke_metadata(request: PokeData) -> AttentionMetadata {
    AttentionMetadata {
        version: POKE_VERSION,
        event_id: request.event_id,
        kind: poke_attention(request.signal),
        source_class: "mcp"@,
        source_ref: request.workspace + "/"@ + request.member + "@"@ + request.session_id,
        reference: Some("poke/v1/"@ + poke_name(request.signal)),
    }
}

/// What is done with an admitted poke.
#[derive(Debug, PartialEq, Eq)]
pub enum PokePlan {
    Answer { response: PokeResponse },
    /// Ask for the attention of the thread.
    Request { thread_id: String, attention: ThreadAttentionEvent },
}

/// What a plan for a poke holds.
pub enum PokePlanData {
    Answer { response: ResponseData },
    Request { thread_id: Seq<char>, attention: AttentionMetadata },
}

impl View for PokePlan {
    type V = PokePlanData;

    open spec fn view(&self) -> PokePlanData {
        match self {
            PokePlan::Answer { response } => PokePlanData::Answer { response: response@ },
            PokePlan::Request { thread_id, attention } => PokePlanData::Request {
                thread_id: thread_id@,
                attention: attention@,
            },
        }
    }
}

/// What is done with an admitted poke, for the primary thread where there is one.
pub open spec fn poke_planned(primary_thread_id: Option<Seq<char>>, request: PokeData) ->
    PokePlanData {
    match primary_thread_id {
        None => PokePlanData::Answer {
            response: ResponseData::Held { reason: "noPrimaryThread"@ },
        },
        Some(id) => if request.to != id {
            PokePlanData::Answer {
                response: ResponseData::Rejected {
                    reason: refusal_name(Refusal::RecipientChanged),
                },
            }
        } else {
            PokePlanData::Request { thread_id: request.to, attention: poke_metadata(request) }
        },
    }
}

/// The characters of an optional thread id.
pub open spec fn id_view(id: Option<&str>) -> Option<Seq<char>> {
    match id {
        Some(i) => Some(i@),
        None => None,
    }
}

/// Decides what is done with an admitted poke.
pub fn plan_poke(primary_thread_id: Option<&str>, request: PokeRequest) -> (plan: PokePlan)
    ensures
        plan@ == poke_planned(id_view(primary_thread_id), request@),
{
    let id = match primary_thread_id {
        Some(id) => id,
        None => {
            return PokePlan::Answer {
                response: PokeResponse::Held { reason: "noPrimaryThread".to_owned() },
            };
        },
    };
    if !same_text(request.to.as_str(), id) {
        return PokePlan::Answer { response: PokeResponse::rejected(Refusal::RecipientChanged) };
    }
    let mut source_ref = request.workspace.clone();
    source_ref.append("/");
    source_ref.append(request.member.as_str());
    source_ref.append("@");
    source_ref.append(request.session_id.as_str());
    let mut reference = "poke/v1/".to_owned();
    reference.append(request.signal.as_str());
    PokePlan::Request {
        thread_id: request.to,
        attention: ThreadAttentionEvent {
            version: POKE_VERSION,
            event_id: request.event_id,
            kind: request.signal.attention_kind(),
            source_class: "mcp".to_owned(),
            source_ref,
            reference: Some(reference),
        },
    }
}

/// The answer to a poke for what the app server said; it said nothing where the request failed.
pub open spec fn poke_answered(response: Option<ThreadAttentionResponse>) -> ResponseData {
    match response {
        Some(ThreadAttentionResponse::Started) => ResponseData::Started,
        Some(ThreadAttentionResponse::Held { reason }) => ResponseData::Held {
            reason: held_reason(reason),
        },
        None => ResponseData::Held { reason: "attentionOutcomeUnknown"@ },
    }
}

/// Answers a poke with what the app server said.
pub fn answer_poke(response: Option<ThreadAttentionResponse>) -> (answer: PokeResponse)
    ensures
        answer@ == poke_answered(response),
{
    match response {
        Some(ThreadAttentionResponse::Started) => PokeResponse::Started,
        Some(ThreadAttentionResponse::Held { reason }) => PokeResponse::Held {
            reason: held_reason_name(reason).to_owned(),
        },
        None => PokeResponse::Held { reason: "attentionOutcomeUnknown".to_owned() },
    }
}

/// A poke never reaches another thread than the one that it names.
pub proof fn law_pokes_reach_their_recipient_only(
    primary_thread_id: Option<Seq<char>>,
    request: PokeData,
    thread_id: Seq<char>,
    attention: AttentionMetadata,
)
    requires
        poke_planned(primary_thread_id, request) == (PokePlanData::Request {
            thread_id,
            attention,
        }),
    ensures
        thread_id == request.to,
        primary_thread_id == Some(thread_id),
{
}

/// The source reference of a poke that passed its check is at most 128 bytes long.
pub proof fn law_source_ref_is_bounded(bytes: Seq<u8>, recipient: Seq<char>, request: PokeData)
    requires
        request_checked(bytes, recipient) == Ok::<PokeData, Refusal>(request),
    ensures
        byte_len(poke_metadata(request).source_ref) <= 128,
{
    reveal_strlit("/");
    reveal_strlit("@");
    lemma_atom_bytes("/"@, true);
    lemma_atom_bytes("@"@, true);
    let a = request.workspace + "/"@;
    lemma_bytes_of_join(request.workspace, "/"@);
    let b = a + request.member;
    lemma_bytes_of_join(a, request.member);
    let c = b + "@"@;
    lemma_bytes_of_join(b, "@"@);
    lemma_bytes_of_join(c, request.session_id);
}

} // verus!
