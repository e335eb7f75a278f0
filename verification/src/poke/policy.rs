//! The policy of a receiver: which sources may send which signals, and how often.

use vstd::prelude::*;
use vstd::string::*;

use crate::atom::{check_atom, is_atom};
use crate::json::{
    as_text, bounded_number, choice, lemma_trees, names, read_number, read_record, read_text_list,
    record, slot_tree, text_list, text_slot, text_views, tree, trees, Json, JsonTree,
};
use crate::poke::request::{
    document_of, poke_named, read_document, read_poke_signal, safe_source_ref, source_ref_fits,
    PokeData, PokeRequest, PokeSignal, Refusal, POKE_VERSION,
};
use crate::text::same_text;

verus! {

/// How often a source may send a signal.
#[derive(Clone, Copy, Debug, PartialEq, Eq, Structural)]
pub struct PokeSignalPolicy {
    pub signal: PokeSignal,
    pub max_events: u32,
    pub per_seconds: u64,
}

/// What a source may send. It may do so in any session where none is named.
#[derive(Debug)]
pub struct PokeSourcePolicy {
    pub workspace: String,
    pub member: String,
    pub sessions: Vec<String>,
    pub signals: Vec<PokeSignalPolicy>,
}

/// What the policy for a source holds.
pub struct SourceData {
    pub workspace: Seq<char>,
    pub member: Seq<char>,
    pub sessions: Seq<Seq<char>>,
    pub signals: Seq<PokeSignalPolicy>,
}

impl View for PokeSourcePolicy {
    type V = SourceData;

    open spec fn view(&self) -> SourceData {
        SourceData {
            workspace: self.workspace@,
            member: self.member@,
            sessions: text_views(self.sessions@),
            signals: self.signals@,
        }
    }
}

/// The policy of a receiver.
#[derive(Debug)]
pub struct PokePolicy {
    pub version: u8,
    pub recipient: String,
    pub sources: Vec<PokeSourcePolicy>,
}

/// What the policy of a receiver holds.
pub struct PolicyData {
    pub version: u8,
    pub recipient: Seq<char>,
    pub sources: Seq<SourceData>,
}

/// What the policies for some sources hold.
pub open spec fn source_views(sources: Seq<PokeSourcePolicy>) -> Seq<SourceData> {
    Seq::new(sources.len(), |i: int| sources[i]@)
}

impl View for PokePolicy {
    type V = PolicyData;

    open spec fn view(&self) -> PolicyData {
        PolicyData {
            version: self.version,
            recipient: self.recipient@,
            sources: source_views(self.sources@),
        }
    }
}

/// The fields of the policy for a signal.
pub open spec fn signal_policy_fields() -> Seq<Seq<char>> {
    seq!["signal"@, "maxEvents"@, "perSeconds"@]
}

/// The policy for a signal that a document records.
pub open spec fn decoded_signal_policy(json: JsonTree) -> Option<PokeSignalPolicy> {
    match record(json, signal_policy_fields()) {
        Some(slots) => match (
            poke_named(choice(slots[0])),
            bounded_number(slots[1], u32::MAX as u64),
            bounded_number(slots[2], u64::MAX),
        ) {
            (Some(signal), Some(max_events), Some(per_seconds)) => Some(
                PokeSignalPolicy { signal, max_events: max_events as u32, per_seconds },
            ),
            _ => None,
        },
        None => None,
    }
}

fn read_signal_policy(json: &Json) -> (policy: Option<PokeSignalPolicy>)
    ensures
        policy == decoded_signal_policy(json@),
{
    let fields = ["signal", "maxEvents", "perSeconds"];
    assert(fields@.len() == 3);
    assert(names(fields@) =~= signal_policy_fields());
    match read_record(json, fields.as_slice()) {
        Some(slots) => match (
            read_poke_signal(slots[0]),
            read_number(slots[1], 4294967295),
            read_number(slots[2], u64::MAX),
        ) {
            (Some(signal), Some(max_events), Some(per_seconds)) => Some(
                PokeSignalPolicy { signal, max_events: max_events as u32, per_seconds },
            ),
            _ => None,
        },
        None => None,
    }
}

/// The policies for the signals of a list, where each of its items is one.
pub open spec fn signal_list(slot: Option<JsonTree>) -> Option<Seq<PokeSignalPolicy>> {
    match slot {
        Some(JsonTree::Array(items)) => if forall|i: int|
            0 <= i < items.len() ==> decoded_signal_policy(#[trigger] items[i]) is Some {
            Some(Seq::new(items.len(), |i: int| decoded_signal_policy(items[i])->0))
        } else {
            None
        },
        _ => None,
    }
}

fn read_signal_list(slot: Option<&Json>) -> (signals: Option<Vec<PokeSignalPolicy>>)
    ensures
        signals is Some <==> signal_list(slot_tree(slot)) is Some,
        signals matches Some(s) ==> signal_list(slot_tree(slot)) == Some(s@),
{
    match slot {
        Some(Json::Array(items)) => {
            proof {
                lemma_trees(items@);
            }
            let mut signals: Vec<PokeSignalPolicy> = Vec::new();
            let mut i: usize = 0;
            while i < items.len()
                invariant
                    i <= items@.len(),
                    slot_tree(slot) == Some(JsonTree::Array(trees(items@))),
                    trees(items@).len() == items@.len(),
                    forall|j: int|
                        0 <= j < items@.len() ==> #[trigger] trees(items@)[j] == tree(items@[j]),
                    signals@.len() == i,
                    forall|j: int|
                        0 <= j < i ==> decoded_signal_policy(#[trigger] trees(items@)[j]) == Some(
                            signals@[j],
                        ),
                decreases items.len() - i,
            {
                match read_signal_policy(&items[i]) {
                    Some(policy) => {
                        signals.push(policy);
                        assert(decoded_signal_policy(trees(items@)[i as int]) == Some(policy));
                    },
                    None => {
                        assert(decoded_signal_policy(trees(items@)[i as int]) is None);
                        return None;
                    },
                }
                i += 1;
            }
            assert(signals@ =~= signal_list(slot_tree(slot))->0);
            Some(signals)
        },
        _ => None,
    }
}

/// The fields of the policy for a source.
pub open spec fn source_fields() -> Seq<Seq<char>> {
    seq!["workspace"@, "member"@, "sessions"@, "signals"@]
}

/// The sessions of a source; there are none where the field is absent.
pub open spec fn session_list(slot: Option<JsonTree>) -> Option<Seq<Seq<char>>> {
    if slot is None {
        Some(Seq::empty())
    } else {
        text_list(slot)
    }
}

/// The policy for a source that a document records.
pub open spec fn decoded_source(json: JsonTree) -> Option<SourceData> {
    match record(json, source_fields()) {
        Some(slots) => match (
            as_text(slots[0]),
            as_text(slots[1]),
            session_list(slots[2]),
            signal_list(slots[3]),
        ) {
            (Some(workspace), Some(member), Some(sessions), Some(signals)) => Some(
                SourceData { workspace, member, sessions, signals },
            ),
            _ => None,
        },
        None => None,
    }
}

fn read_session_list(slot: Option<&Json>) -> (sessions: Option<Vec<String>>)
    ensures
        sessions is Some <==> session_list(slot_tree(slot)) is Some,
        sessions matches Some(s) ==> session_list(slot_tree(slot)) == Some(text_views(s@)),
{
    match slot {
        None => {
            let none: Vec<String> = Vec::new();
            assert(text_views(none@) =~= Seq::<Seq<char>>::empty());
            Some(none)
        },
        _ => read_text_list(slot),
    }
}

fn read_source(json: &Json) -> (source: Option<PokeSourcePolicy>)
    ensures
        source is Some <==> decoded_source(json@) is Some,
        source matches Some(s) ==> decoded_source(json@) == Some(s@),
{
    let fields = ["workspace", "member", "sessions", "signals"];
    assert(fields@.len() == 4);
    assert(names(fields@) =~= source_fields());
    match read_record(json, fields.as_slice()) {
        Some(slots) => match (
            text_slot(slots[0]),
            text_slot(slots[1]),
            read_session_list(slots[2]),
            read_signal_list(slots[3]),
        ) {
            (Some(workspace), Some(member), Some(sessions), Some(signals)) => Some(
                PokeSourcePolicy { workspace, member, sessions, signals },
            ),
            _ => None,
        },
        None => None,
    }
}

/// The policies for the sources of a list, where each of its items is one.
pub open spec fn source_list(slot: Option<JsonTree>) -> Option<Seq<SourceData>> {
    match slot {
        Some(JsonTree::Array(items)) => if forall|i: int|
            0 <= i < items.len() ==> decoded_source(#[trigger] items[i]) is Some {
            Some(Seq::new(items.len(), |i: int| decoded_source(items[i])->0))
        } else {
            None
        },
        _ => None,
    }
}

fn read_source_list(slot: Option<&Json>) -> (sources: Option<Vec<PokeSourcePolicy>>)
    ensures
        sources is Some <==> source_list(slot_tree(slot)) is Some,
        sources matches Some(s) ==> source_list(slot_tree(slot)) == Some(source_views(s@)),
{
    match slot {
        Some(Json::Array(items)) => {
            proof {
                lemma_trees(items@);
            }
            let mut sources: Vec<PokeSourcePolicy> = Vec::new();
            let mut i: usize = 0;
            while i < items.len()
                invariant
                    i <= items@.len(),
                    slot_tree(slot) == Some(JsonTree::Array(trees(items@))),
                    trees(items@).len() == items@.len(),
                    forall|j: int|
                        0 <= j < items@.len() ==> #[trigger] trees(items@)[j] == tree(items@[j]),
                    sources@.len() == i,
                    forall|j: int|
                        0 <= j < i ==> decoded_source(#[trigger] trees(items@)[j]) == Some(
                            sources@[j]@,
                        ),
                decreases items.len() - i,
            {
                match read_source(&items[i]) {
                    Some(source) => {
                        assert(decoded_source(trees(items@)[i as int]) == Some(source@));
                        sources.push(source);
                    },
                    None => {
                        assert(decoded_source(trees(items@)[i as int]) is None);
                        return None;
                    },
                }
                i += 1;
            }
            assert(source_views(sources@) =~= source_list(slot_tree(slot))->0);
            Some(sources)
        },
        _ => None,
    }
}

/// The fields of a policy.
pub open spec fn policy_fields() -> Seq<Seq<char>> {
    seq!["version"@, "recipient"@, "sources"@]
}

/// The policy that a document records, whatever it holds.
pub open spec fn decoded_policy(json: JsonTree) -> Option<PolicyData> {
    match record(json, policy_fields()) {
        Some(slots) => match (
            bounded_number(slots[0], 255),
            as_text(slots[1]),
            source_list(slots[2]),
        ) {
            (Some(version), Some(recipient), Some(sources)) => Some(
                PolicyData { version: version as u8, recipient, sources },
            ),
            _ => None,
        },
        None => None,
    }
}

fn read_policy_record(json: &Json) -> (policy: Option<PokePolicy>)
    ensures
        policy is Some <==> decoded_policy(json@) is Some,
        policy matches Some(p) ==> decoded_policy(json@) == Some(p@),
{
    let fields = ["version", "recipient", "sources"];
    assert(fields@.len() == 3);
    assert(names(fields@) =~= policy_fields());
    match read_record(json, fields.as_slice()) {
        Some(slots) => match (
            read_number(slots[0], 255),
            text_slot(slots[1]),
            read_source_list(slots[2]),
        ) {
            (Some(version), Some(recipient), Some(sources)) => Some(
                PokePolicy { version: version as u8, recipient, sources },
            ),
            _ => None,
        },
        None => None,
    }
}

/// A session of a source is an atom, and the source reference with it fits.
pub open spec fn session_valid(source: SourceData, session: Seq<char>) -> bool {
    is_atom(session, 64, true) && source_ref_fits(source.workspace, source.member, session)
}

/// A source is named by atoms, no source before it has its name, and its sessions are in order.
pub open spec fn source_valid(earlier: Seq<SourceData>, source: SourceData) -> bool {
    &&& is_atom(source.workspace, 64, true)
    &&& is_atom(source.member, 64, true)
    &&& forall|i: int|
        0 <= i < earlier.len() ==> !((#[trigger] earlier[i]).workspace == source.workspace
            && earlier[i].member == source.member)
    &&& forall|i: int|
        0 <= i < source.sessions.len() ==> session_valid(source, #[trigger] source.sessions[i])
}

/// A source has a signal, and none twice.
pub open spec fn signals_valid(signals: Seq<PokeSignalPolicy>) -> bool {
    &&& signals.len() > 0
    &&& forall|i: int, j: int|
        0 <= i < j < signals.len() ==> (#[trigger] signals[i]).signal != (
        #[trigger] signals[j]).signal
}

/// What is wrong with the sources of a policy; the first source with a fault counts.
pub open spec fn sources_fault(sources: Seq<SourceData>) -> Option<Refusal>
    decreases sources.len(),
{
    if sources.len() == 0 {
        None
    } else {
        let earlier = sources.drop_last();
        match sources_fault(earlier) {
            Some(refusal) => Some(refusal),
            None => if !source_valid(earlier, sources.last()) {
                Some(Refusal::InvalidPolicySource)
            } else if !signals_valid(sources.last().signals) {
                Some(Refusal::InvalidPolicySignals)
            } else {
                None
            },
        }
    }
}

/// What the receiver makes of the document of its policy.
pub open spec fn policy_checked(policy: Option<PolicyData>, recipient: Seq<char>) -> Result<
    PolicyData,
    Refusal,
> {
    match policy {
        None => Err(Refusal::InvalidPolicy),
        Some(p) => if p.version != POKE_VERSION || p.recipient != recipient {
            Err(Refusal::PolicyRecipientMismatch)
        } else {
            match sources_fault(p.sources) {
                Some(refusal) => Err(refusal),
                None => Ok(p),
            }
        },
    }
}

/// The policy that a parsed document is.
pub open spec fn policy_of_document(document: Option<JsonTree>) -> Option<PolicyData> {
    match document {
        Some(json) => decoded_policy(json),
        None => None,
    }
}

/// What the file system says of a policy file itself, not of what a link leads to.
#[derive(Clone, Copy, Debug, PartialEq, Eq, Structural)]
pub struct PolicyMetadata {
    pub is_file: bool,
    pub uid: u32,
    pub mode: u32,
}

/// A policy file as it was found: what is said of it, and its contents where it could be read.
#[derive(Debug)]
pub struct PolicyFile {
    pub metadata: Option<PolicyMetadata>,
    pub contents: Option<Vec<u8>>,
}

/// The file is one of this user that nobody else may write.
pub open spec fn policy_private(metadata: PolicyMetadata, effective_uid: u32) -> bool {
    metadata.is_file && metadata.uid == effective_uid && metadata.mode & 18 == 0
}

/// What the receiver makes of its policy file.
pub open spec fn policy_read(
    file: PolicyFile,
    effective_uid: u32,
    recipient: Seq<char>,
) -> Result<PolicyData, Refusal> {
    match file.metadata {
        None => Err(Refusal::PolicyUnavailable),
        Some(metadata) => if !policy_private(metadata, effective_uid) {
            Err(Refusal::PolicyPermissions)
        } else {
            match file.contents {
                None => Err(Refusal::PolicyUnavailable),
                Some(bytes) => policy_checked(
                    policy_of_document(document_of(bytes@)),
                    recipient,
                ),
            }
        },
    }
}

fn check_source(sources: &Vec<PokeSourcePolicy>, at: usize) -> (valid: bool)
    requires
        at < sources@.len(),
    ensures
        valid == source_valid(source_views(sources@).take(at as int), sources@[at as int]@),
{
    let source = &sources[at];
    let ghost earlier = source_views(sources@).take(at as int);
    if !check_atom(source.workspace.as_str(), 64, true) || !check_atom(
        source.member.as_str(),
        64,
        true,
    ) {
        return false;
    }
    let mut i: usize = 0;
    while i < at
        invariant
            i <= at < sources@.len(),
            earlier == source_views(sources@).take(at as int),
            source == sources@[at as int],
            forall|j: int|
                0 <= j < i ==> !((#[trigger] earlier[j]).workspace == source@.workspace
                    && earlier[j].member == source@.member),
        decreases at - i,
    {
        let other = &sources[i];
        if same_text(other.workspace.as_str(), source.workspace.as_str()) && same_text(
            other.member.as_str(),
            source.member.as_str(),
        ) {
            assert(earlier[i as int] == other@);
            return false;
        }
        i += 1;
    }
    let mut k: usize = 0;
    while k < source.sessions.len()
        invariant
            k <= source.sessions@.len(),
            at < sources@.len(),
            source == sources@[at as int],
            forall|j: int| 0 <= j < k ==> session_valid(source@, #[trigger] source@.sessions[j]),
        decreases source.sessions@.len() - k,
    {
        let session = source.sessions[k].as_str();
        if !check_atom(session, 64, true) || !safe_source_ref(
            source.workspace.as_str(),
            source.member.as_str(),
            session,
        ) {
            assert(!session_valid(source@, source@.sessions[k as int]));
            return false;
        }
        k += 1;
    }
    true
}

fn check_signals(signals: &Vec<PokeSignalPolicy>) -> (valid: bool)
    ensures
        valid == signals_valid(signals@),
{
    if signals.len() == 0 {
        return false;
    }
    let mut j: usize = 0;
    while j < signals.len()
        invariant
            j <= signals@.len(),
            forall|a: int, b: int|
                0 <= a < b < j ==> (#[trigger] signals@[a]).signal != (
                #[trigger] signals@[b]).signal,
        decreases signals@.len() - j,
    {
        let mut i: usize = 0;
        while i < j
            invariant
                i <= j < signals@.len(),
                forall|a: int| 0 <= a < i ==> (#[trigger] signals@[a]).signal != signals@[j as int].signal,
            decreases j - i,
        {
            if signals[i].signal == signals[j].signal {
                assert(signals@[i as int].signal == signals@[j as int].signal);
                return false;
            }
            i += 1;
        }
        j += 1;
    }
    true
}

fn find_source_fault(sources: &Vec<PokeSourcePolicy>) -> (fault: Option<Refusal>)
    ensures
        fault == sources_fault(source_views(sources@)),
{
    let ghost all = source_views(sources@);
    let mut i: usize = 0;
    assert(all.take(0) =~= Seq::<SourceData>::empty());
    while i < sources.len()
        invariant
            i <= sources@.len(),
            all == source_views(sources@),
            sources_fault(all.take(i as int)) is None,
        decreases sources@.len() - i,
    {
        assert(all.take(i + 1).drop_last() =~= all.take(i as int));
        if !check_source(sources, i) {
            proof {
                lemma_fault_stays(all, i + 1);
            }
            return Some(Refusal::InvalidPolicySource);
        }
        if !check_signals(&sources[i].signals) {
            proof {
                lemma_fault_stays(all, i + 1);
            }
            return Some(Refusal::InvalidPolicySignals);
        }
        i += 1;
    }
    assert(all.take(i as int) =~= all);
    None
}

proof fn lemma_fault_stays(sources: Seq<SourceData>, k: int)
    requires
        0 <= k <= sources.len(),
        sources_fault(sources.take(k)) is Some,
    ensures
        sources_fault(sources) == sources_fault(sources.take(k)),
    decreases sources.len() - k,
{
    if k < sources.len() {
        assert(sources.take(k + 1).drop_last() =~= sources.take(k));
        lemma_fault_stays(sources, k + 1);
    } else {
        assert(sources.take(k) =~= sources);
    }
}

/// Checks the document of a policy.
pub fn check_policy(document: Option<&Json>, recipient: &str) -> (result: Result<
    PokePolicy,
    Refusal,
>)
    ensures
        match result {
            Ok(policy) => policy_checked(policy_of_document(slot_tree(document)), recipient@)
                == Ok::<PolicyData, Refusal>(policy@),
            Err(refusal) => policy_checked(policy_of_document(slot_tree(document)), recipient@)
                == Err::<PolicyData, Refusal>(refusal),
        },
{
    let json = match document {
        Some(json) => json,
        None => {
            return Err(Refusal::InvalidPolicy);
        },
    };
    let policy = match read_policy_record(json) {
        Some(policy) => policy,
        None => {
            return Err(Refusal::InvalidPolicy);
        },
    };
    if policy.version != POKE_VERSION || !same_text(policy.recipient.as_str(), recipient) {
        return Err(Refusal::PolicyRecipientMismatch);
    }
    match find_source_fault(&policy.sources) {
        Some(refusal) => Err(refusal),
        None => Ok(policy),
    }
}

/// Reads the policy of a receiver out of its file.
pub fn read_policy(file: &PolicyFile, effective_uid: u32, recipient: &str) -> (result: Result<
    PokePolicy,
    Refusal,
>)
    ensures
        match result {
            Ok(policy) => policy_read(*file, effective_uid, recipient@) == Ok::<
                PolicyData,
                Refusal,
            >(policy@),
            Err(refusal) => policy_read(*file, effective_uid, recipient@) == Err::<
                PolicyData,
                Refusal,
            >(refusal),
        },
{
    let metadata = match file.metadata {
        Some(metadata) => metadata,
        None => {
            return Err(Refusal::PolicyUnavailable);
        },
    };
    if !metadata.is_file || metadata.uid != effective_uid || metadata.mode & 18 != 0 {
        return Err(Refusal::PolicyPermissions);
    }
    match &file.contents {
        Some(bytes) => {
            let document = read_document(bytes.as_slice());
            check_policy(document.as_ref(), recipient)
        },
        None => Err(Refusal::PolicyUnavailable),
    }
}

/// A source of a policy is the one of a poke.
pub open spec fn source_matches(source: SourceData, request: PokeData) -> bool {
    &&& source.workspace == request.workspace
    &&& source.member == request.member
    &&& source.sessions.len() == 0 || source.sessions.contains(request.session_id)
}

/// The first source of a policy that is the one of a poke.
pub open spec fn source_for(sources: Seq<SourceData>, request: PokeData) -> Option<SourceData>
    decreases sources.len(),
{
    if sources.len() == 0 {
        None
    } else if source_matches(sources[0], request) {
        Some(sources[0])
    } else {
        source_for(sources.drop_first(), request)
    }
}

/// The first policy for a signal.
pub open spec fn policy_for(signals: Seq<PokeSignalPolicy>, signal: PokeSignal) -> Option<
    PokeSignalPolicy,
>
    decreases signals.len(),
{
    if signals.len() == 0 {
        None
    } else if signals[0].signal == signal {
        Some(signals[0])
    } else {
        policy_for(signals.drop_first(), signal)
    }
}

/// The policy under which a poke may be admitted.
pub open spec fn authorized(policy: PolicyData, request: PokeData) -> Result<
    PokeSignalPolicy,
    Refusal,
> {
    match source_for(policy.sources, request) {
        None => Err(Refusal::NotAllowed),
        Some(source) => match policy_for(source.signals, request.signal) {
            None => Err(Refusal::NotAllowed),
            Some(p) => if p.max_events == 0 || p.per_seconds == 0 {
                Err(Refusal::InvalidPolicyQuota)
            } else {
                Ok(p)
            },
        },
    }
}

fn holds_session(sessions: &Vec<String>, session_id: &str) -> (found: bool)
    ensures
        found == text_views(sessions@).contains(session_id@),
{
    let mut i: usize = 0;
    while i < sessions.len()
        invariant
            i <= sessions@.len(),
            forall|j: int| 0 <= j < i ==> #[trigger] text_views(sessions@)[j] != session_id@,
        decreases sessions@.len() - i,
    {
        if same_text(sessions[i].as_str(), session_id) {
            assert(text_views(sessions@)[i as int] == session_id@);
            return true;
        }
        i += 1;
    }
    false
}

fn find_signal(signals: &Vec<PokeSignalPolicy>, signal: PokeSignal) -> (found: Option<
    PokeSignalPolicy,
>)
    ensures
        found == policy_for(signals@, signal),
{
    let mut i: usize = 0;
    assert(signals@.skip(0) =~= signals@);
    while i < signals.len()
        invariant
            i <= signals@.len(),
            policy_for(signals@, signal) == policy_for(signals@.skip(i as int), signal),
        decreases signals@.len() - i,
    {
        assert(signals@.skip(i as int).drop_first() =~= signals@.skip(i + 1));
        if signals[i].signal == signal {
            return Some(signals[i]);
        }
        i += 1;
    }
    None
}

/// Finds the policy under which a poke may be admitted.
pub fn authorize(policy: &PokePolicy, request: &PokeRequest) -> (result: Result<
    PokeSignalPolicy,
    Refusal,
>)
    ensures
        result == authorized(policy@, request@),
{
    let ghost all = source_views(policy.sources@);
    let mut i: usize = 0;
    assert(all.skip(0) =~= all);
    while i < policy.sources.len()
        invariant
            i <= policy.sources@.len(),
            all == source_views(policy.sources@),
            source_for(all, request@) == source_for(all.skip(i as int), request@),
        decreases policy.sources@.len() - i,
    {
        let source = &policy.sources[i];
        proof {
            assert(all.skip(i as int)[0] == source@);
            assert(all.skip(i as int).drop_first() =~= all.skip(i + 1));
        }
        if same_text(source.workspace.as_str(), request.workspace.as_str()) && same_text(
            source.member.as_str(),
            request.member.as_str(),
        ) && (source.sessions.len() == 0 || holds_session(
            &source.sessions,
            request.session_id.as_str(),
        )) {
            return match find_signal(&source.signals, request.signal) {
                Some(found) => if found.max_events == 0 || found.per_seconds == 0 {
                    Err(Refusal::InvalidPolicyQuota)
                } else {
                    Ok(found)
                },
                None => Err(Refusal::NotAllowed),
            };
        }
        i += 1;
    }
    Err(Refusal::NotAllowed)
}

/// A policy file that is a link, belongs to another user or may be written by others is not read.
pub proof fn law_foreign_policies_are_refused(
    file: PolicyFile,
    metadata: PolicyMetadata,
    effective_uid: u32,
    recipient: Seq<char>,
)
    requires
        file.metadata == Some(metadata),
        !metadata.is_file || metadata.uid != effective_uid || metadata.mode & 18 != 0,
    ensures
        policy_read(file, effective_uid, recipient) == Err::<PolicyData, Refusal>(
            Refusal::PolicyPermissions,
        ),
{
}

} // verus!
