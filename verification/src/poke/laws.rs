//! What a receiver of pokes keeps to: who may send what, and what is made of it.

use vstd::prelude::*;
use vstd::string::*;

use crate::atom::is_atom;
use crate::attention::{
    AttentionMetadata, ThreadAttentionHeldReason, ThreadAttentionKind, ThreadAttentionResponse,
};
use crate::json::{comma_joined, escaped, json_literal, text_list, JsonTree};
use crate::poke::admission::{
    entry_admitted, key_of, stale_socket_of, EntryData, StaleSocket, MAX_REPLAY_IDS,
};
use crate::poke::policy::{
    authorized, decoded_policy, decoded_signal_policy, decoded_source, policy_checked, policy_for,
    policy_read, source_for, sources_fault, PokeSignalPolicy, PolicyData, PolicyFile, SourceData,
};
use crate::poke::request::{
    decoded_poke, document_of, poke_answered, poke_concluded, poke_of_document, poke_planned,
    refusal_name, request_checked, response_text, PokeAwaited, PokeData, PokePlanData, PokeSignal,
    Refusal, ResponseData, MAX_FRAME_BYTES, POKE_VERSION,
};
use crate::reading::{field_of, law_lists_of_texts, lists, names, shaped};
use crate::text::byte_len;
use crate::writing::{
    lemma_few_parts_joined, lemma_object_is_read_back, lemma_plain_text_is_not_escaped, read_object,
    Told,
};

verus! {

/// The policy `p` at place `j` of the source at place `i` is one for this poke.
pub open spec fn covers(
    sources: Seq<SourceData>,
    request: PokeData,
    i: int,
    j: int,
    p: PokeSignalPolicy,
) -> bool {
    &&& 0 <= i < sources.len()
    &&& sources[i].workspace == request.workspace
    &&& sources[i].member == request.member
    &&& sources[i].sessions.len() == 0 || exists|k: int|
        0 <= k < sources[i].sessions.len() && #[trigger] sources[i].sessions[k]
            == request.session_id
    &&& 0 <= j < sources[i].signals.len()
    &&& sources[i].signals[j] == p
    &&& p.signal == request.signal
}

/// What an accepted list of sources is: every source is attributed by safe atoms, each at most
/// once, in sessions that fit beside it, and each has signals, none of them twice.
pub open spec fn well_attributed(source: SourceData) -> bool {
    &&& is_atom(source.workspace, 64, true)
    &&& is_atom(source.member, 64, true)
    &&& forall|k: int|
        0 <= k < source.sessions.len() ==> is_atom(#[trigger] source.sessions[k], 64, true)
            && byte_len(source.workspace) + byte_len(source.member) + byte_len(source.sessions[k])
            <= 126
}

/// A list of sources is accepted exactly where every source is well attributed, no two sources
/// share a workspace and a member, every source has a signal, and none of its signals is named
/// twice.
#[verifier::spinoff_prover]
#[verifier::rlimit(60)]
pub proof fn law_accepted_sources(sources: Seq<SourceData>)
    ensures
        sources_fault(sources) is None <==> {
            &&& forall|i: int| 0 <= i < sources.len() ==> well_attributed(#[trigger] sources[i])
            &&& forall|i: int, j: int|
                0 <= i < j < sources.len() ==> !((#[trigger] sources[i]).workspace == (
                #[trigger] sources[j]).workspace && sources[i].member == sources[j].member)
            &&& forall|i: int| 0 <= i < sources.len() ==> (#[trigger] sources[i]).signals.len() > 0
            &&& forall|i: int, j: int, k: int|
                0 <= i < sources.len() && 0 <= j < k < sources[i].signals.len()
                    ==> (#[trigger] sources[i].signals[j]).signal != (
                #[trigger] sources[i].signals[k]).signal
        },
        sources_fault(sources) matches Some(refusal) ==> refusal == Refusal::InvalidPolicySource
            || refusal == Refusal::InvalidPolicySignals,
    decreases sources.len(),
{
    if sources.len() > 0 {
        let earlier = sources.drop_last();
        let last = sources.last();
        law_accepted_sources(earlier);
        assert forall|i: int| 0 <= i < earlier.len() implies #[trigger] sources[i]
            == earlier[i] by {}
        assert(sources[sources.len() - 1] == last);
        if sources_fault(sources) is None {
            assert forall|i: int, j: int|
                0 <= i < j < sources.len() implies !((#[trigger] sources[i]).workspace == (
            #[trigger] sources[j]).workspace && sources[i].member == sources[j].member) by {
                assert(sources[i] == earlier[i]);
                if j < earlier.len() {
                    assert(sources[j] == earlier[j]);
                }
            }
            assert forall|i: int| 0 <= i < sources.len() implies well_attributed(
                #[trigger] sources[i],
            ) by {
                if i < earlier.len() {
                    assert(well_attributed(earlier[i]));
                }
            }
            assert forall|i: int| 0 <= i < sources.len() implies (
            #[trigger] sources[i]).signals.len() > 0 by {
                if i < earlier.len() {
                    assert(earlier[i].signals.len() > 0);
                }
            }
            assert forall|i: int, j: int, k: int|
                0 <= i < sources.len() && 0 <= j < k < sources[i].signals.len() implies (
            #[trigger] sources[i].signals[j]).signal != (#[trigger] sources[i].signals[k]).signal by {
                if i < earlier.len() {
                    assert(earlier[i].signals[j].signal != earlier[i].signals[k].signal);
                }
            }
        } else if forall|i: int| 0 <= i < sources.len() ==> well_attributed(#[trigger] sources[i]) {
            if (forall|i: int, j: int|
                0 <= i < j < sources.len() ==> !((#[trigger] sources[i]).workspace == (
                #[trigger] sources[j]).workspace && sources[i].member == sources[j].member)) && (
            forall|i: int| 0 <= i < sources.len() ==> (#[trigger] sources[i]).signals.len() > 0)
                && (forall|i: int, j: int, k: int|
                0 <= i < sources.len() && 0 <= j < k < sources[i].signals.len()
                    ==> (#[trigger] sources[i].signals[j]).signal != (
                #[trigger] sources[i].signals[k]).signal) {
                assert forall|i: int, j: int|
                    0 <= i < j < earlier.len() implies !((#[trigger] earlier[i]).workspace == (
                #[trigger] earlier[j]).workspace && earlier[i].member == earlier[j].member) by {
                    assert(sources[i] == earlier[i] && sources[j] == earlier[j]);
                }
                assert forall|i: int, j: int, k: int|
                    0 <= i < earlier.len() && 0 <= j < k < earlier[i].signals.len() implies (
                #[trigger] earlier[i].signals[j]).signal != (
                #[trigger] earlier[i].signals[k]).signal by {
                    assert(sources[i].signals[j].signal != sources[i].signals[k].signal);
                }
                assert forall|i: int| 0 <= i < earlier.len() implies well_attributed(
                    #[trigger] earlier[i],
                ) && earlier[i].signals.len() > 0 by {
                    assert(sources[i] == earlier[i]);
                }
                assert(well_attributed(last));
                assert forall|j: int, k: int| 0 <= j < k < last.signals.len() implies (
                #[trigger] last.signals[j]).signal != (#[trigger] last.signals[k]).signal by {
                    let i = sources.len() - 1;
                    assert(sources[i].signals[j].signal != sources[i].signals[k].signal);
                }
            }
        }
    }
}

/// The first source that covers a poke is the one that is found.
proof fn lemma_source_is_found(sources: Seq<SourceData>, request: PokeData)
    ensures
        source_for(sources, request) matches Some(source) ==> exists|i: int| #[trigger]
            attributed(sources, request, i) && sources[i] == source,
        source_for(sources, request) is None ==> forall|i: int| !#[trigger] attributed(
            sources,
            request,
            i,
        ),
    decreases sources.len(),
{
    if sources.len() > 0 {
        let rest = sources.drop_first();
        lemma_source_is_found(rest, request);
        let held = sources[0].sessions.contains(request.session_id);
        if sources[0].workspace == request.workspace && sources[0].member == request.member && (
        sources[0].sessions.len() == 0 || held) {
            if sources[0].sessions.len() > 0 {
                let k = choose|k: int|
                    0 <= k < sources[0].sessions.len() && sources[0].sessions[k]
                        == request.session_id;
                assert(sources[0].sessions[k] == request.session_id);
            }
            assert(attributed(sources, request, 0));
        } else {
            match source_for(rest, request) {
                Some(source) => {
                    let i = choose|i: int| #[trigger]
                        attributed(rest, request, i) && rest[i] == source;
                    assert(rest[i] == sources[i + 1]);
                    assert(attributed(sources, request, i + 1));
                },
                None => {
                    assert forall|i: int| !#[trigger] attributed(sources, request, i) by {
                        if attributed(sources, request, i) {
                            if i > 0 {
                                assert(rest[i - 1] == sources[i]);
                                assert(attributed(rest, request, i - 1));
                            }
                        }
                    }
                },
            }
        }
    }
}

/// The source at place `i` is the one that a poke is attributed to.
pub open spec fn attributed(sources: Seq<SourceData>, request: PokeData, i: int) -> bool {
    &&& 0 <= i < sources.len()
    &&& sources[i].workspace == request.workspace
    &&& sources[i].member == request.member
    &&& sources[i].sessions.len() == 0 || exists|k: int|
        0 <= k < sources[i].sessions.len() && #[trigger] sources[i].sessions[k]
            == request.session_id
}

proof fn lemma_signal_is_found(signals: Seq<PokeSignalPolicy>, signal: PokeSignal)
    ensures
        policy_for(signals, signal) matches Some(p) ==> p.signal == signal && exists|j: int|
            0 <= j < signals.len() && #[trigger] signals[j] == p,
        policy_for(signals, signal) is None ==> forall|j: int|
            0 <= j < signals.len() ==> (#[trigger] signals[j]).signal != signal,
    decreases signals.len(),
{
    if signals.len() > 0 {
        let rest = signals.drop_first();
        lemma_signal_is_found(rest, signal);
        assert(signals[0] == signals[0]);
        if signals[0].signal != signal {
            match policy_for(rest, signal) {
                Some(p) => {
                    let j = choose|j: int| 0 <= j < rest.len() && #[trigger] rest[j] == p;
                    assert(signals[j + 1] == p);
                },
                None => {
                    assert forall|j: int| 0 <= j < signals.len() implies (
                    #[trigger] signals[j]).signal != signal by {
                        if j > 0 {
                            assert(rest[j - 1] == signals[j]);
                        }
                    }
                },
            }
        }
    }
}

/// Under an accepted policy a poke is allowed exactly where some source of the policy, at whatever
/// place, has its workspace and member, takes its session, and has a policy for its signal with a
/// positive quota; it is allowed under just that policy. Where that policy has no quota, the
/// policy is at fault, and where there is none, the poke is not allowed.
#[verifier::spinoff_prover]
#[verifier::rlimit(60)]
pub proof fn law_a_poke_is_allowed_by_its_source(policy: PolicyData, request: PokeData)
    requires
        sources_fault(policy.sources) is None,
    ensures
        forall|p: PokeSignalPolicy|
            authorized(policy, request) == Ok::<PokeSignalPolicy, Refusal>(p) <==> (p.max_events > 0
                && p.per_seconds > 0 && exists|i: int, j: int|
                #[trigger] covers(policy.sources, request, i, j, p)),
        authorized(policy, request) == Err::<PokeSignalPolicy, Refusal>(Refusal::NotAllowed)
            <==> forall|i: int, j: int, p: PokeSignalPolicy|
            !#[trigger] covers(policy.sources, request, i, j, p),
        authorized(policy, request) == Err::<PokeSignalPolicy, Refusal>(Refusal::InvalidPolicyQuota)
            <==> exists|i: int, j: int, p: PokeSignalPolicy|
            (p.max_events == 0 || p.per_seconds == 0) && #[trigger] covers(
                policy.sources,
                request,
                i,
                j,
                p,
            ),
        authorized(policy, request) matches Err(refusal) ==> refusal == Refusal::NotAllowed
            || refusal == Refusal::InvalidPolicyQuota,
{
    let sources = policy.sources;
    law_accepted_sources(sources);
    lemma_source_is_found(sources, request);
    match source_for(sources, request) {
        None => {
            assert forall|i: int, j: int, p: PokeSignalPolicy| !#[trigger] covers(
                sources,
                request,
                i,
                j,
                p,
            ) by {
                assert(!attributed(sources, request, i));
            }
        },
        Some(source) => {
            let at = choose|i: int| #[trigger]
                attributed(sources, request, i) && sources[i] == source;
            assert forall|i: int| #[trigger] attributed(sources, request, i) implies i == at by {
                assert(sources[i].workspace == sources[at].workspace);
            }
            lemma_signal_is_found(source.signals, request.signal);
            assert forall|i: int, j: int, p: PokeSignalPolicy| #[trigger]
                covers(sources, request, i, j, p) implies policy_for(source.signals, request.signal)
                == Some(p) by {
                assert(attributed(sources, request, i));
                assert(i == at);
                assert(source.signals[j] == p);
                let found = policy_for(source.signals, request.signal)->0;
                let k = choose|k: int|
                    0 <= k < source.signals.len() && #[trigger] source.signals[k] == found;
                assert(sources[at].signals[k].signal == sources[at].signals[j].signal);
                assert(k == j) by {
                    if k < j {
                        assert(sources[at].signals[k].signal != sources[at].signals[j].signal);
                    } else if j < k {
                        assert(sources[at].signals[j].signal != sources[at].signals[k].signal);
                    }
                }
            }
            match policy_for(source.signals, request.signal) {
                Some(found) => {
                    let k = choose|k: int|
                        0 <= k < source.signals.len() && #[trigger] source.signals[k] == found;
                    assert(covers(sources, request, at, k, found));
                },
                None => {},
            }
        },
    }
}

/// A document is read as a poke exactly where it has nothing but the members of one, and each says
/// what the poke holds: the version, the id, the recipient, the workspace, the member, the session
/// and the signal by its name.
pub proof fn law_pokes_are_read_by_their_members(json: JsonTree, poke: PokeData)
    ensures
        decoded_poke(json) == Some(poke) <==> {
            &&& shaped(
                json,
                seq![
                    "version"@,
                    "eventId"@,
                    "to"@,
                    "workspace"@,
                    "member"@,
                    "sessionId"@,
                    "signal"@,
                ],
            )
            &&& field_of(json, "version"@, 0) == Some(JsonTree::Unsigned(poke.version as u64))
            &&& field_of(json, "eventId"@, 1) == Some(JsonTree::Text(poke.event_id))
            &&& field_of(json, "to"@, 2) == Some(JsonTree::Text(poke.to))
            &&& field_of(json, "workspace"@, 3) == Some(JsonTree::Text(poke.workspace))
            &&& field_of(json, "member"@, 4) == Some(JsonTree::Text(poke.member))
            &&& field_of(json, "sessionId"@, 5) == Some(JsonTree::Text(poke.session_id))
            &&& names_signal(field_of(json, "signal"@, 6), poke.signal)
        },
{
    lemma_signal_names();
}

/// A value names a signal.
pub open spec fn names_signal(value: Option<JsonTree>, signal: PokeSignal) -> bool {
    &&& signal == PokeSignal::Tap ==> names(value, "tap"@)
    &&& signal == PokeSignal::Cc ==> names(value, "cc"@)
    &&& signal == PokeSignal::Council ==> names(value, "council"@)
}

proof fn lemma_signal_names()
    ensures
        "tap"@ != "cc"@,
        "tap"@ != "council"@,
        "cc"@ != "council"@,
{
    reveal_strlit("tap");
    reveal_strlit("cc");
    reveal_strlit("council");
    assert("tap"@.len() == 3 && "cc"@.len() == 2 && "council"@.len() == 7);
}

/// A document is read as the policy for a signal exactly where it has nothing but the members of
/// one, and each says what the policy holds.
pub proof fn law_signal_policies_are_read_by_their_members(
    json: JsonTree,
    policy: PokeSignalPolicy,
)
    ensures
        decoded_signal_policy(json) == Some(policy) <==> {
            &&& shaped(json, seq!["signal"@, "maxEvents"@, "perSeconds"@])
            &&& names_signal(field_of(json, "signal"@, 0), policy.signal)
            &&& field_of(json, "maxEvents"@, 1) == Some(JsonTree::Unsigned(policy.max_events as u64))
            &&& field_of(json, "perSeconds"@, 2) == Some(JsonTree::Unsigned(policy.per_seconds))
        },
{
    lemma_signal_names();
}

/// A document is read as the policy for a source exactly where it has nothing but the members of
/// one, and each says what the policy holds. A source without a member for its sessions has none.
pub proof fn law_source_policies_are_read_by_their_members(json: JsonTree, source: SourceData)
    ensures
        decoded_source(json) == Some(source) <==> {
            let sessions = field_of(json, "sessions"@, 2);
            &&& shaped(json, seq!["workspace"@, "member"@, "sessions"@, "signals"@])
            &&& field_of(json, "workspace"@, 0) == Some(JsonTree::Text(source.workspace))
            &&& field_of(json, "member"@, 1) == Some(JsonTree::Text(source.member))
            &&& sessions is None && source.sessions.len() == 0 || lists(sessions, source.sessions)
            &&& field_of(json, "signals"@, 3) matches Some(JsonTree::Array(items))
            &&& items.len() == source.signals.len()
            &&& forall|i: int|
                0 <= i < items.len() ==> decoded_signal_policy(#[trigger] items[i]) == Some(
                    source.signals[i],
                )
        },
{
    let sessions = field_of(json, "sessions"@, 2);
    law_lists_of_texts(sessions, source.sessions);
    assert(text_list(sessions) == Some(source.sessions) <==> lists(sessions, source.sessions));
    if source.sessions.len() == 0 {
        assert(source.sessions =~= Seq::<Seq<char>>::empty());
    }
    match field_of(json, "signals"@, 3) {
        Some(JsonTree::Array(items)) => {
            if items.len() == source.signals.len() && forall|i: int|
                0 <= i < items.len() ==> decoded_signal_policy(#[trigger] items[i]) == Some(
                    source.signals[i],
                ) {
                assert(Seq::new(items.len(), |i: int| decoded_signal_policy(items[i])->0)
                    =~= source.signals);
            }
        },
        _ => {},
    }
}

/// A document is read as a policy exactly where it has nothing but the members of one, and each says
/// what the policy holds.
pub proof fn law_policies_are_read_by_their_members(json: JsonTree, policy: PolicyData)
    ensures
        decoded_policy(json) == Some(policy) <==> {
            &&& shaped(json, seq!["version"@, "recipient"@, "sources"@])
            &&& field_of(json, "version"@, 0) == Some(JsonTree::Unsigned(policy.version as u64))
            &&& field_of(json, "recipient"@, 1) == Some(JsonTree::Text(policy.recipient))
            &&& field_of(json, "sources"@, 2) matches Some(JsonTree::Array(items))
            &&& items.len() == policy.sources.len()
            &&& forall|i: int|
                0 <= i < items.len() ==> decoded_source(#[trigger] items[i]) == Some(
                    policy.sources[i],
                )
        },
{
    match field_of(json, "sources"@, 2) {
        Some(JsonTree::Array(items)) => {
            if items.len() == policy.sources.len() && forall|i: int|
                0 <= i < items.len() ==> decoded_source(#[trigger] items[i]) == Some(
                    policy.sources[i],
                ) {
                assert(Seq::new(items.len(), |i: int| decoded_source(items[i])->0)
                    =~= policy.sources);
            }
        },
        _ => {},
    }
}

/// A poke is taken exactly where it comes in at most 4096 bytes, reads as one of the first version,
/// is for this recipient, and carries nothing but safe atoms: an id of at most 128 bytes, and a
/// workspace, a member and a session of at most 64 bytes each and 126 together.
pub proof fn law_pokes_that_are_taken(bytes: Seq<u8>, recipient: Seq<char>, poke: PokeData)
    ensures
        request_checked(bytes, recipient) == Ok::<PokeData, Refusal>(poke) <==> {
            &&& bytes.len() <= 4096
            &&& poke_of_document(document_of(bytes)) == Some(poke)
            &&& poke.version == 1
            &&& poke.to == recipient
            &&& is_atom(poke.event_id, 128, true)
            &&& is_atom(poke.workspace, 64, true)
            &&& is_atom(poke.member, 64, true)
            &&& is_atom(poke.session_id, 64, true)
            &&& byte_len(poke.workspace) + byte_len(poke.member) + byte_len(poke.session_id) <= 126
        },
        bytes.len() > 4096 <==> request_checked(bytes, recipient) == Err::<PokeData, Refusal>(
            Refusal::FrameTooLarge,
        ),
        bytes.len() <= 4096 && poke_of_document(document_of(bytes)) is None <==> request_checked(
            bytes,
            recipient,
        ) == Err::<PokeData, Refusal>(Refusal::InvalidRequest),
        bytes.len() <= 4096 && poke_of_document(document_of(bytes)) == Some(poke) ==> {
            &&& poke.version != 1 <==> request_checked(bytes, recipient) == Err::<
                PokeData,
                Refusal,
            >(Refusal::UnsupportedVersion)
            &&& poke.version == 1 && poke.to != recipient <==> request_checked(bytes, recipient)
                == Err::<PokeData, Refusal>(Refusal::WrongRecipient)
        },
        request_checked(bytes, recipient) matches Err(refusal) ==> refusal == Refusal::FrameTooLarge
            || refusal == Refusal::InvalidRequest || refusal == Refusal::UnsupportedVersion
            || refusal == Refusal::WrongRecipient || refusal == Refusal::UnsafeMetadata,
{
}

/// A policy is taken exactly where it is of the first version, for this recipient, and its sources
/// are accepted; one for another recipient is refused as such whatever else it holds.
pub proof fn law_policies_that_are_taken(policy: PolicyData, recipient: Seq<char>)
    ensures
        policy_checked(Some(policy), recipient) is Ok <==> policy.version == 1 && policy.recipient
            == recipient && sources_fault(policy.sources) is None,
        policy_checked(Some(policy), recipient) matches Ok(taken) ==> taken == policy,
        policy.version != 1 || policy.recipient != recipient <==> policy_checked(
            Some(policy),
            recipient,
        ) == Err::<PolicyData, Refusal>(Refusal::PolicyRecipientMismatch),
        policy_checked(None, recipient) == Err::<PolicyData, Refusal>(Refusal::InvalidPolicy),
        policy.version == 1 && policy.recipient == recipient ==> (sources_fault(
            policy.sources,
        ) matches Some(refusal) ==> policy_checked(Some(policy), recipient) == Err::<
            PolicyData,
            Refusal,
        >(refusal)),
{
    law_accepted_sources(policy.sources);
}

/// The file of a policy is read only where it is a file of this user that neither its group nor
/// anybody else may write; of a file that is not there, or cannot be read, nothing is known.
pub proof fn law_policy_files_are_private(
    file: PolicyFile,
    effective_uid: u32,
    recipient: Seq<char>,
)
    ensures
        file.metadata is None ==> policy_read(file, effective_uid, recipient) == Err::<
            PolicyData,
            Refusal,
        >(Refusal::PolicyUnavailable),
        file.metadata matches Some(metadata) ==> {
            let private = metadata.is_file && metadata.uid == effective_uid && metadata.mode & 16
                == 0 && metadata.mode & 2 == 0;
            &&& !private <==> policy_read(file, effective_uid, recipient) == Err::<
                PolicyData,
                Refusal,
            >(Refusal::PolicyPermissions)
            &&& private && file.contents is None ==> policy_read(file, effective_uid, recipient)
                == Err::<PolicyData, Refusal>(Refusal::PolicyUnavailable)
            &&& private && file.contents is Some ==> policy_read(file, effective_uid, recipient)
                == policy_checked(
                crate::poke::policy::policy_of_document(document_of(file.contents->0@)),
                recipient,
            )
        },
{
    if file.metadata is Some {
        let mode = file.metadata->0.mode;
        assert(mode & 18 == 0 <==> mode & 16 == 0 && mode & 2 == 0) by (bit_vector);
        if file.contents is Some {
            let policy = crate::poke::policy::policy_of_document(document_of(file.contents->0@));
            if policy is Some {
                law_accepted_sources(policy->0.sources);
            }
        }
    }
}

/// A poke for the primary thread asks for its attention: a tap for periodic attention, a cc for a
/// directed response, a council for a mention, in the name of the member of the workspace and its
/// session. A poke for another thread is turned down, and one without a thread is held.
pub proof fn law_pokes_ask_for_attention(id: Seq<char>, poke: PokeData)
    ensures
        poke_planned(None, poke) == (PokePlanData::Answer {
            response: ResponseData::Held { reason: "noPrimaryThread"@ },
        }),
        poke.to != id ==> poke_planned(Some(id), poke) == (PokePlanData::Answer {
            response: ResponseData::Rejected { reason: "recipientChanged"@ },
        }),
        poke.to == id ==> poke_planned(Some(id), poke) == (PokePlanData::Request {
            thread_id: id,
            attention: AttentionMetadata {
                version: 1,
                event_id: poke.event_id,
                kind: match poke.signal {
                    PokeSignal::Tap => ThreadAttentionKind::Periodic,
                    PokeSignal::Cc => ThreadAttentionKind::DirectedResponse,
                    PokeSignal::Council => ThreadAttentionKind::Mention,
                },
                source_class: "mcp"@,
                source_ref: poke.workspace + "/"@ + poke.member + "@"@ + poke.session_id,
                reference: Some(
                    match poke.signal {
                        PokeSignal::Tap => "poke/v1/tap"@,
                        PokeSignal::Cc => "poke/v1/cc"@,
                        PokeSignal::Council => "poke/v1/council"@,
                    },
                ),
            },
        }),
{
    reveal_strlit("poke/v1/");
    reveal_strlit("tap");
    reveal_strlit("cc");
    reveal_strlit("council");
    reveal_strlit("poke/v1/tap");
    reveal_strlit("poke/v1/cc");
    reveal_strlit("poke/v1/council");
    assert("poke/v1/"@ + "tap"@ =~= "poke/v1/tap"@);
    assert("poke/v1/"@ + "cc"@ =~= "poke/v1/cc"@);
    assert("poke/v1/"@ + "council"@ =~= "poke/v1/council"@);
}

/// The sender learns what became of a poke: that it was started, why it was held, or that this is not
/// known. A pending turn is told as one of the operator.
pub proof fn law_senders_learn_the_outcome(reason: ThreadAttentionHeldReason)
    ensures
        poke_answered(Some(ThreadAttentionResponse::Started)) == ResponseData::Started,
        poke_answered(Some(ThreadAttentionResponse::Held { reason })) == (ResponseData::Held {
            reason: match reason {
                ThreadAttentionHeldReason::PendingTriggerTurn => "pendingOperatorTurn"@,
                ThreadAttentionHeldReason::PlanMode => "planMode"@,
                ThreadAttentionHeldReason::Busy => "busy"@,
            },
        }),
        poke_answered(None) == (ResponseData::Held { reason: "attentionOutcomeUnknown"@ }),
{
}

/// An admitted id is remembered behind those before it, up to 1024 of them; the time of its
/// admission counts against the quota from then on.
pub proof fn law_admitted_ids_are_remembered(
    entry: EntryData,
    event_id: Seq<char>,
    policy: PokeSignalPolicy,
    now: u64,
    back: int,
)
    requires
        entry.replay.len() <= 1024,
        entry_admitted(entry, event_id, policy, now).1 is Ok,
    ensures
        ({
            let after = entry_admitted(entry, event_id, policy, now).0;
            &&& after.replay.len() == if entry.replay.len() < 1024 {
                entry.replay.len() + 1
            } else {
                1024
            }
            &&& after.replay.last() == event_id
            &&& 0 < back < after.replay.len() ==> after.replay[after.replay.len() - 1 - back]
                == entry.replay[entry.replay.len() - back]
            &&& after.quota_events.len() > 0 && after.quota_events.last() == now
        }),
{
}

/// With a quota of one, a new id is admitted exactly where the policy's seconds have passed since the
/// last admission; before that it is refused as too soon.
pub proof fn law_a_quota_of_one_spaces_admissions(
    replay: Seq<Seq<char>>,
    last: u64,
    event_id: Seq<char>,
    policy: PokeSignalPolicy,
    now: u64,
)
    requires
        policy.max_events == 1,
        policy.per_seconds > 0,
        !replay.contains(event_id),
        last <= now,
    ensures
        ({
            let entry = EntryData { replay, quota_events: seq![last] };
            let result = entry_admitted(entry, event_id, policy, now).1;
            &&& result is Ok <==> now - last >= policy.per_seconds * 1_000_000_000
            &&& result matches Err(refusal) ==> refusal == Refusal::RateLimited
        }),
{
    let times = seq![last];
    reveal_with_fuel(crate::poke::admission::counted, 2);
    assert(times.drop_first() =~= Seq::<u64>::empty());
}

/// An id that was admitted is a duplicate as long as it is remembered, whatever the quota; and only
/// such an id is one.
pub proof fn law_duplicates_are_the_remembered_ids(
    entry: EntryData,
    event_id: Seq<char>,
    policy: PokeSignalPolicy,
    now: u64,
)
    ensures
        entry_admitted(entry, event_id, policy, now).1 == Err::<(), Refusal>(
            Refusal::DuplicateEvent,
        ) <==> exists|i: int| 0 <= i < entry.replay.len() && entry.replay[i] == event_id,
        entry_admitted(entry, event_id, policy, now).1 is Err ==> entry_admitted(
            entry,
            event_id,
            policy,
            now,
        ).0.replay == entry.replay,
{
}

/// Pokes count together where they come from the same member of the same workspace with the same
/// signal, whatever their session and id.
pub proof fn law_sources_are_counted_apart(left: PokeData, right: PokeData)
    ensures
        key_of(left) == key_of(right) <==> left.workspace == right.workspace && left.member
            == right.member && left.signal == right.signal,
{
}

#[verifier::spinoff_prover]
#[verifier::rlimit(60)]
proof fn lemma_answer_is_read_back(status: Seq<char>, reason: Seq<char>, text: Seq<char>)
    requires
        escaped(status) == status,
        text == "{\"status\":\""@ + status + "\",\"reason\":"@ + json_literal(reason) + "}"@,
    ensures
        read_object(text) == Some(
            (
                seq![
                    ("status"@, Told::Text { text: status }),
                    ("reason"@, Told::Text { text: reason }),
                ],
                Seq::<char>::empty(),
            ),
        ),
{
    reveal_strlit("\"");
    reveal_strlit(",");
    reveal_strlit("{");
    reveal_strlit("status");
    reveal_strlit("reason");
    reveal_strlit("{\"status\":\"");
    reveal_strlit("\",\"reason\":");
    lemma_plain_text_is_not_escaped("status"@);
    lemma_plain_text_is_not_escaped("reason"@);
    let said = json_literal("status"@) + seq![':'] + json_literal(status);
    let why = json_literal("reason"@) + seq![':'] + json_literal(reason);
    lemma_few_parts_joined(said, why, why);
    assert("{\"status\":\""@ =~= "{"@ + json_literal("status"@) + seq![':'] + "\""@);
    assert("\",\"reason\":"@ =~= "\""@ + ","@ + json_literal("reason"@) + seq![':']);
    assert(text =~= "{"@ + comma_joined(seq![said, why]) + "}"@);
    lemma_object_is_read_back(
        seq![said, why],
        seq![
            ("status"@, Told::Text { text: status }),
            ("reason"@, Told::Text { text: reason }),
        ],
    );
}

#[verifier::spinoff_prover]
#[verifier::rlimit(60)]
proof fn lemma_started_is_read_back()
    ensures
        read_object(response_text(ResponseData::Started)) == Some(
            (seq![("status"@, Told::Text { text: "started"@ })], Seq::<char>::empty()),
        ),
{
    reveal_strlit("\"");
    reveal_strlit("{");
    reveal_strlit("}");
    reveal_strlit("status");
    reveal_strlit("started");
    reveal_strlit("{\"status\":\"started\"}");
    lemma_plain_text_is_not_escaped("status"@);
    lemma_plain_text_is_not_escaped("started"@);
    let started = json_literal("status"@) + seq![':'] + json_literal("started"@);
    lemma_few_parts_joined(started, started, started);
    assert(response_text(ResponseData::Started) =~= "{"@ + started + "}"@);
    let members = seq![("status"@, Told::Text { text: "started"@ })];
    lemma_object_is_read_back(seq![started], members);
}

proof fn lemma_reasons_are_written(reason: Seq<char>)
    ensures
        response_text(ResponseData::Held { reason }) == "{\"status\":\""@ + "held"@
            + "\",\"reason\":"@ + json_literal(reason) + "}"@,
        response_text(ResponseData::Rejected { reason }) == "{\"status\":\""@ + "rejected"@
            + "\",\"reason\":"@ + json_literal(reason) + "}"@,
        escaped("held"@) == "held"@,
        escaped("rejected"@) == "rejected"@,
{
    reveal_strlit("held");
    reveal_strlit("rejected");
    reveal_strlit("{\"status\":\"");
    reveal_strlit("\",\"reason\":");
    reveal_strlit("{\"status\":\"held\",\"reason\":");
    reveal_strlit("{\"status\":\"rejected\",\"reason\":");
    lemma_plain_text_is_not_escaped("held"@);
    lemma_plain_text_is_not_escaped("rejected"@);
    assert("{\"status\":\"held\",\"reason\":"@ =~= "{\"status\":\""@ + "held"@
        + "\",\"reason\":"@);
    assert("{\"status\":\"rejected\",\"reason\":"@ =~= "{\"status\":\""@ + "rejected"@
        + "\",\"reason\":"@);
}

/// An answer is read back as just what it says: what became of the poke, and why where it was held or
/// turned down.
pub proof fn law_answers_are_read_back(reason: Seq<char>)
    ensures
        read_object(response_text(ResponseData::Started)) == Some(
            (seq![("status"@, Told::Text { text: "started"@ })], Seq::<char>::empty()),
        ),
        read_object(response_text(ResponseData::Held { reason })) == Some(
            (
                seq![
                    ("status"@, Told::Text { text: "held"@ }),
                    ("reason"@, Told::Text { text: reason }),
                ],
                Seq::<char>::empty(),
            ),
        ),
        read_object(response_text(ResponseData::Rejected { reason })) == Some(
            (
                seq![
                    ("status"@, Told::Text { text: "rejected"@ }),
                    ("reason"@, Told::Text { text: reason }),
                ],
                Seq::<char>::empty(),
            ),
        ),
{
    lemma_started_is_read_back();
    lemma_reasons_are_written(reason);
    lemma_answer_is_read_back("held"@, reason, response_text(ResponseData::Held { reason }));
    lemma_answer_is_read_back(
        "rejected"@,
        reason,
        response_text(ResponseData::Rejected { reason }),
    );
}

/// A sender that is turned down learns why by name.
pub proof fn law_refusals_have_their_names(refusal: Refusal)
    ensures
        refusal == Refusal::FrameTooLarge ==> refusal_name(refusal) == "frameTooLarge"@,
        refusal == Refusal::InvalidRequest ==> refusal_name(refusal) == "invalidRequest"@,
        refusal == Refusal::UnsupportedVersion ==> refusal_name(refusal) == "unsupportedVersion"@,
        refusal == Refusal::WrongRecipient ==> refusal_name(refusal) == "wrongRecipient"@,
        refusal == Refusal::UnsafeMetadata ==> refusal_name(refusal) == "unsafeMetadata"@,
        refusal == Refusal::PolicyUnavailable ==> refusal_name(refusal) == "policyUnavailable"@,
        refusal == Refusal::PolicyPermissions ==> refusal_name(refusal) == "policyPermissions"@,
        refusal == Refusal::InvalidPolicy ==> refusal_name(refusal) == "invalidPolicy"@,
        refusal == Refusal::PolicyRecipientMismatch ==> refusal_name(refusal)
            == "policyRecipientMismatch"@,
        refusal == Refusal::InvalidPolicySource ==> refusal_name(refusal) == "invalidPolicySource"@,
        refusal == Refusal::InvalidPolicySignals ==> refusal_name(refusal)
            == "invalidPolicySignals"@,
        refusal == Refusal::NotAllowed ==> refusal_name(refusal) == "notAllowed"@,
        refusal == Refusal::InvalidPolicyQuota ==> refusal_name(refusal) == "invalidPolicyQuota"@,
        refusal == Refusal::DuplicateEvent ==> refusal_name(refusal) == "duplicateEvent"@,
        refusal == Refusal::RateLimited ==> refusal_name(refusal) == "rateLimited"@,
        refusal == Refusal::RecipientChanged ==> refusal_name(refusal) == "recipientChanged"@,
{
}

/// The limits of a receiver of pokes.
pub proof fn law_poke_limits()
    ensures
        MAX_REPLAY_IDS == 1024,
        POKE_VERSION == 1,
        MAX_FRAME_BYTES == 4096,
{
}

/// A socket file that was found is removed exactly where nobody answers on it and it is of this user;
/// where somebody answers it is in use, whoever owns it.
pub proof fn law_only_own_silent_sockets_are_removed(
    found: bool,
    answers: bool,
    owner: u32,
    effective_uid: u32,
)
    ensures
        ({
            let stale = stale_socket_of(found, answers, owner, effective_uid);
            &&& stale == StaleSocket::Remove <==> found && !answers && owner == effective_uid
            &&& stale == StaleSocket::InUse <==> found && answers
            &&& stale == StaleSocket::NotOwned <==> found && !answers && owner != effective_uid
            &&& stale == StaleSocket::Nothing <==> !found
        }),
{
}

/// The sender gets the receiver's answer as it is; without one the poke counts as held, by what kept
/// the answer away.
pub proof fn law_unanswered_pokes_are_held(awaited: PokeAwaited)
    ensures
        awaited matches PokeAwaited::Response { response } ==> poke_concluded(awaited) == response@,
        awaited is Timeout ==> poke_concluded(awaited) == (ResponseData::Held {
            reason: "clientResponseTimeout"@,
        }),
        awaited is Disconnected ==> poke_concluded(awaited) == (ResponseData::Held {
            reason: "clientStopped"@,
        }),
{
}

} // verus!
