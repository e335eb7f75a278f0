//! Admission of pokes: each event once, and no more events in a window of time than the policy of
//! the receiver allows.

use std::collections::VecDeque;
use vstd::prelude::*;
use vstd::string::*;

use crate::json::text_views;
use crate::poke::policy::{
    authorize, authorized, policy_read, read_policy, PokeSignalPolicy, PolicyFile,
};
use crate::poke::request::{PokeData, PokeRequest, PokeSignal, Refusal};
use crate::text::same_text;

verus! {

/// The most event ids that are remembered for a source and signal.
pub const MAX_REPLAY_IDS: usize = 1024;

/// What is kept of a source and signal: the ids of its latest events, oldest first, and the times
/// of those that count against its quota.
#[derive(Debug)]
pub struct AdmissionEntry {
    workspace: String,
    member: String,
    signal: PokeSignal,
    replay: VecDeque<String>,
    quota_events: VecDeque<u64>,
}

/// What is remembered of a source and signal.
pub struct EntryData {
    pub replay: Seq<Seq<char>>,
    pub quota_events: Seq<u64>,
}

/// A source and signal.
pub struct SourceKey {
    pub workspace: Seq<char>,
    pub member: Seq<char>,
    pub signal: PokeSignal,
}

/// The source and signal of a poke.
pub open spec fn key_of(request: PokeData) -> SourceKey {
    SourceKey { workspace: request.workspace, member: request.member, signal: request.signal }
}

/// Nothing is remembered yet.
pub open spec fn blank_entry() -> EntryData {
    EntryData { replay: Seq::empty(), quota_events: Seq::empty() }
}

impl AdmissionEntry {
    /// The source and signal of this entry.
    pub closed spec fn key(&self) -> SourceKey {
        SourceKey { workspace: self.workspace@, member: self.member@, signal: self.signal }
    }

    /// What is remembered.
    pub closed spec fn data(&self) -> EntryData {
        EntryData { replay: text_views(self.replay@), quota_events: self.quota_events@ }
    }
}

/// No more ids are remembered than there is room for, and none twice.
pub open spec fn entry_sound(entry: EntryData) -> bool {
    &&& entry.replay.len() <= MAX_REPLAY_IDS
    &&& forall|i: int, j: int|
        0 <= i < j < entry.replay.len() ==> #[trigger] entry.replay[i] != #[trigger] entry.replay[j]
}

/// What the receiver remembers of all sources and signals.
#[derive(Debug)]
pub struct AdmissionState {
    entries: Vec<AdmissionEntry>,
}

/// The times that still count, of those in a window of nanoseconds before now.
pub open spec fn counted(times: Seq<u64>, now: u64, window: int) -> Seq<u64>
    decreases times.len(),
{
    if times.len() > 0 && elapsed(times[0], now) >= window {
        counted(times.drop_first(), now, window)
    } else {
        times
    }
}

/// How many nanoseconds lie between a time and now; none where the time is not past.
pub open spec fn elapsed(time: u64, now: u64) -> int {
    if now >= time {
        now - time
    } else {
        0
    }
}

/// The window of a policy in nanoseconds.
pub open spec fn window_of(policy: PokeSignalPolicy) -> int {
    policy.per_seconds * 1_000_000_000
}

/// The ids that are remembered once one more was admitted.
pub open spec fn replay_with(replay: Seq<Seq<char>>, event_id: Seq<char>) -> Seq<Seq<char>> {
    let all = replay.push(event_id);
    if all.len() > MAX_REPLAY_IDS {
        all.drop_first()
    } else {
        all
    }
}

/// What becomes of an event of a source and signal, and what is remembered then.
pub open spec fn entry_admitted(
    entry: EntryData,
    event_id: Seq<char>,
    policy: PokeSignalPolicy,
    now: u64,
) -> (EntryData, Result<(), Refusal>) {
    if entry.replay.contains(event_id) {
        (entry, Err(Refusal::DuplicateEvent))
    } else {
        let times = counted(entry.quota_events, now, window_of(policy));
        if times.len() >= policy.max_events {
            (EntryData { quota_events: times, ..entry }, Err(Refusal::RateLimited))
        } else {
            (
                EntryData {
                    replay: replay_with(entry.replay, event_id),
                    quota_events: times.push(now),
                },
                Ok(()),
            )
        }
    }
}

/// No two entries are for the same source and signal.
pub closed spec fn keys_distinct(entries: Seq<AdmissionEntry>) -> bool {
    forall|i: int, j: int|
        0 <= i < j < entries.len() ==> (#[trigger] entries[i]).key() != (
        #[trigger] entries[j]).key()
}

/// What is remembered of a source and signal among some entries.
pub closed spec fn entry_among(entries: Seq<AdmissionEntry>, key: SourceKey) -> EntryData {
    if exists|i: int| 0 <= i < entries.len() && (#[trigger] entries[i]).key() == key {
        let i = choose|i: int| 0 <= i < entries.len() && (#[trigger] entries[i]).key() == key;
        entries[i].data()
    } else {
        blank_entry()
    }
}

impl AdmissionState {
    /// What is remembered of a source and signal.
    pub closed spec fn entry(&self, key: SourceKey) -> EntryData {
        entry_among(self.entries@, key)
    }

    /// There is one entry for each source and signal, and each is sound.
    pub closed spec fn sound(&self) -> bool {
        &&& keys_distinct(self.entries@)
        &&& forall|i: int|
            0 <= i < self.entries@.len() ==> entry_sound((#[trigger] self.entries@[i]).data())
    }

    /// Nothing is remembered yet.
    pub fn new() -> (state: AdmissionState)
        ensures
            state.sound(),
            forall|key: SourceKey| #[trigger] state.entry(key) == blank_entry(),
            forall|policy: PokeSignalPolicy| #[trigger] state.follows(Seq::empty(), policy),
    {
        AdmissionState { entries: Vec::new() }
    }

    /// Finds the entry for the source and signal of a poke.
    fn find(&self, request: &PokeRequest) -> (found: Option<usize>)
        ensures
            match found {
                Some(i) => i < self.entries@.len() && self.entries@[i as int].key() == key_of(
                    request@,
                ),
                None => forall|i: int|
                    0 <= i < self.entries@.len() ==> (#[trigger] self.entries@[i]).key() != key_of(
                        request@,
                    ),
            },
    {
        let mut i: usize = 0;
        while i < self.entries.len()
            invariant
                i <= self.entries@.len(),
                forall|j: int|
                    0 <= j < i ==> (#[trigger] self.entries@[j]).key() != key_of(request@),
            decreases self.entries@.len() - i,
        {
            let entry = &self.entries[i];
            if same_text(entry.workspace.as_str(), request.workspace.as_str()) && same_text(
                entry.member.as_str(),
                request.member.as_str(),
            ) && entry.signal == request.signal {
                return Some(i);
            }
            i += 1;
        }
        None
    }

    /// Admits a poke under a policy, or refuses it. A refused event that was only too early may be
    /// sent again.
    pub fn admit_event(&mut self, request: &PokeRequest, policy: PokeSignalPolicy, now: u64) -> (result:
        Result<(), Refusal>)
        requires
            old(self).sound(),
        ensures
            final(self).sound(),
            ({
                let key = key_of(request@);
                let (after, expected) = entry_admitted(
                    old(self).entry(key),
                    request@.event_id,
                    policy,
                    now,
                );
                &&& final(self).entry(key) == after
                &&& result == expected
            }),
            forall|other: SourceKey|
                other != key_of(request@) ==> #[trigger] final(self).entry(other) == old(
                    self,
                ).entry(other),
            forall|history: Seq<(PokeData, u64)>| #[trigger]
                old(self).follows(history, policy) ==> final(self).follows(
                    history.push((request@, now)),
                    policy,
                ),
    {
        let ghost key = key_of(request@);
        let ghost before = self.entries@;
        let found = self.find(request);
        let at: usize = match found {
            Some(i) => i,
            None => {
                self.entries.push(
                    AdmissionEntry {
                        workspace: request.workspace.clone(),
                        member: request.member.clone(),
                        signal: request.signal,
                        replay: VecDeque::new(),
                        quota_events: VecDeque::new(),
                    },
                );
                proof {
                    let fresh = self.entries@.last();
                    assert(text_views(fresh.replay@) =~= Seq::<Seq<char>>::empty());
                    assert(fresh.quota_events@ =~= Seq::<u64>::empty());
                    assert(fresh.data() == blank_entry());
                    assert(fresh.key() == key);
                }
                self.entries.len() - 1
            },
        };
        let ghost middle = self.entries@;
        proof {
            assert(keys_distinct(middle));
            lemma_entry_at(middle, at as int);
            assert(entry_among(middle, key) == entry_among(before, key)) by {
                if found is Some {
                    assert(middle == before);
                } else {
                    assert(entry_among(before, key) == blank_entry());
                }
            }
        }
        let entry = &mut self.entries[at];
        let result = entry.admit_id(request.event_id.as_str(), policy, now);
        proof {
            let after = self.entries@;
            assert(after =~= middle.update(at as int, after[at as int]));
            assert(keys_distinct(after)) by {
                assert forall|i: int, j: int| 0 <= i < j < after.len() implies (
                #[trigger] after[i]).key() != (#[trigger] after[j]).key() by {
                    assert(middle[i].key() != middle[j].key());
                }
            }
            lemma_entry_at(after, at as int);
            assert forall|other: SourceKey| other != key implies #[trigger] entry_among(after, other)
                == entry_among(before, other) by {
                lemma_other_entries(before, middle, after, at as int, key, other);
            }
            assert forall|history: Seq<(PokeData, u64)>| #[trigger]
                old(self).follows(history, policy) implies self.follows(
                history.push((request@, now)),
                policy,
            ) by {
                let next = history.push((request@, now));
                assert forall|k: SourceKey| #[trigger] self.entry(k) == admissions(
                    calls_of(next, k),
                    policy,
                ).0 by {
                    lemma_calls_of_next(history, request@, now, k);
                    assert(old(self).entry(k) == admissions(calls_of(history, k), policy).0);
                    let calls = calls_of(history, k);
                    let call = (request@.event_id, now);
                    assert(calls.push(call).drop_last() =~= calls);
                    if k != key {
                        assert(entry_among(after, k) == entry_among(before, k));
                    }
                }
            }
        }
        result
    }
}

/// The entry for a key is the one that has it.
proof fn lemma_entry_at(entries: Seq<AdmissionEntry>, at: int)
    requires
        keys_distinct(entries),
        0 <= at < entries.len(),
    ensures
        entry_among(entries, entries[at].key()) == entries[at].data(),
{
    let key = entries[at].key();
    let i = choose|i: int| 0 <= i < entries.len() && (#[trigger] entries[i]).key() == key;
    assert(entries[at].key() == key);
    if i < at {
        assert(entries[i].key() != entries[at].key());
    } else if at < i {
        assert(entries[at].key() != entries[i].key());
    }
}

/// A change at the entry for one key leaves what is remembered of the others.
proof fn lemma_other_entries(
    before: Seq<AdmissionEntry>,
    middle: Seq<AdmissionEntry>,
    after: Seq<AdmissionEntry>,
    at: int,
    key: SourceKey,
    other: SourceKey,
)
    requires
        keys_distinct(before),
        keys_distinct(after),
        other != key,
        before.len() <= middle.len() <= before.len() + 1,
        forall|i: int| 0 <= i < before.len() ==> #[trigger] middle[i] == before[i],
        middle.len() > before.len() ==> middle.last().key() == key,
        0 <= at < middle.len(),
        middle[at].key() == key,
        after.len() == middle.len(),
        after[at].key() == key,
        forall|i: int| 0 <= i < middle.len() && i != at ==> #[trigger] after[i] == middle[i],
    ensures
        entry_among(after, other) == entry_among(before, other),
{
    if exists|i: int| 0 <= i < before.len() && (#[trigger] before[i]).key() == other {
        let i = choose|i: int| 0 <= i < before.len() && (#[trigger] before[i]).key() == other;
        assert(middle[i] == before[i]);
        assert(i != at);
        assert(after[i] == before[i]);
        lemma_entry_at(before, i);
        lemma_entry_at(after, i);
    } else {
        if exists|i: int| 0 <= i < after.len() && (#[trigger] after[i]).key() == other {
            let i = choose|i: int| 0 <= i < after.len() && (#[trigger] after[i]).key() == other;
            assert(i != at);
            assert(after[i] == middle[i]);
            if i < before.len() {
                assert(middle[i] == before[i]);
            }
        }
    }
}

impl AdmissionEntry {
    /// Admits an event of this source and signal, or refuses it.
    fn admit_id(&mut self, event_id: &str, policy: PokeSignalPolicy, now: u64) -> (result: Result<
        (),
        Refusal,
    >)
        requires
            entry_sound(old(self).data()),
        ensures
            final(self).key() == old(self).key(),
            entry_sound(final(self).data()),
            (final(self).data(), result) == entry_admitted(
                old(self).data(),
                event_id@,
                policy,
                now,
            ),
    {
        let ghost replay_before = text_views(self.replay@);
        let mut i: usize = 0;
        while i < self.replay.len()
            invariant
                i <= self.replay@.len(),
                replay_before == text_views(self.replay@),
                *self == *old(self),
                entry_sound(old(self).data()),
                forall|j: int| 0 <= j < i ==> #[trigger] replay_before[j] != event_id@,
            decreases self.replay@.len() - i,
        {
            if same_text(self.replay[i].as_str(), event_id) {
                assert(replay_before[i as int] == event_id@);
                return Err(Refusal::DuplicateEvent);
            }
            i += 1;
        }
        assert(!replay_before.contains(event_id@));
        let window: u128 = policy.per_seconds as u128 * 1_000_000_000u128;
        let ghost times_before = self.quota_events@;
        while self.quota_events.len() > 0 && since(self.quota_events[0], now) as u128 >= window
            invariant
                window == window_of(policy),
                counted(times_before, now, window as int) == counted(
                    self.quota_events@,
                    now,
                    window as int,
                ),
                self.replay == old(self).replay,
                self.workspace == old(self).workspace,
                self.member == old(self).member,
                self.signal == old(self).signal,
            ensures
                self.quota_events@ == counted(times_before, now, window as int),
            decreases self.quota_events@.len(),
        {
            let ghost times = self.quota_events@;
            let _ = self.quota_events.pop_front();
            assert(self.quota_events@ =~= times.drop_first());
        }
        if self.quota_events.len() as u64 >= policy.max_events as u64 {
            return Err(Refusal::RateLimited);
        }
        self.quota_events.push_back(now);
        let ghost ids_before = self.replay@;
        self.replay.push_back(event_id.to_owned());
        assert(text_views(self.replay@) =~= replay_before.push(event_id@));
        if self.replay.len() > MAX_REPLAY_IDS {
            let ghost all = self.replay@;
            let _ = self.replay.pop_front();
            assert(self.replay@ =~= all.drop_first());
            assert(text_views(self.replay@) =~= text_views(all).drop_first());
        }
        proof {
            lemma_replay_sound(replay_before, event_id@);
        }
        Ok(())
    }
}

proof fn lemma_replay_sound(replay: Seq<Seq<char>>, event_id: Seq<char>)
    requires
        replay.len() <= MAX_REPLAY_IDS,
        forall|i: int, j: int|
            0 <= i < j < replay.len() ==> #[trigger] replay[i] != #[trigger] replay[j],
        !replay.contains(event_id),
    ensures
        ({
            let after = replay_with(replay, event_id);
            &&& after.len() <= MAX_REPLAY_IDS
            &&& forall|i: int, j: int|
                0 <= i < j < after.len() ==> #[trigger] after[i] != #[trigger] after[j]
        }),
{
    let after = replay_with(replay, event_id);
    let all = replay.push(event_id);
    let shift: int = if all.len() > MAX_REPLAY_IDS {
        1
    } else {
        0
    };
    assert forall|i: int, j: int| 0 <= i < j < after.len() implies #[trigger] after[i]
        != #[trigger] after[j] by {
        assert(after[i] == all[i + shift] && after[j] == all[j + shift]);
        if j + shift < replay.len() {
            assert(replay[i + shift] != replay[j + shift]);
        } else {
            assert(replay.contains(replay[i + shift]));
        }
    }
}

/// How many nanoseconds lie between a time and now.
fn since(time: u64, now: u64) -> (nanos: u64)
    ensures
        nanos == elapsed(time, now),
{
    if now >= time {
        now - time
    } else {
        0
    }
}

/// Decides on a poke that passed its check, with the policy file as it is found now.
pub fn admit_poke(
    state: &mut AdmissionState,
    request: &PokeRequest,
    file: &PolicyFile,
    effective_uid: u32,
    recipient: &str,
    now: u64,
) -> (result: Result<(), Refusal>)
    requires
        old(state).sound(),
    ensures
        final(state).sound(),
        match policy_read(*file, effective_uid, recipient@) {
            Err(refusal) => result == Err::<(), Refusal>(refusal) && *final(state) == *old(state),
            Ok(policy) => match authorized(policy, request@) {
                Err(refusal) => result == Err::<(), Refusal>(refusal) && *final(state) == *old(
                    state,
                ),
                Ok(signal_policy) => {
                    let key = key_of(request@);
                    let (after, expected) = entry_admitted(
                        old(state).entry(key),
                        request@.event_id,
                        signal_policy,
                        now,
                    );
                    &&& result == expected
                    &&& final(state).entry(key) == after
                    &&& forall|other: SourceKey|
                        other != key ==> #[trigger] final(state).entry(other) == old(state).entry(
                            other,
                        )
                },
            },
        },
{
    let policy = match read_policy(file, effective_uid, recipient) {
        Ok(policy) => policy,
        Err(refusal) => {
            return Err(refusal);
        },
    };
    match authorize(&policy, request) {
        Ok(signal_policy) => state.admit_event(request, signal_policy, now),
        Err(refusal) => Err(refusal),
    }
}

/// An event that was just admitted is refused as a duplicate when it comes again.
pub proof fn law_admitted_events_are_not_repeated(
    entry: EntryData,
    event_id: Seq<char>,
    policy: PokeSignalPolicy,
    now: u64,
    later_policy: PokeSignalPolicy,
    later: u64,
)
    requires
        entry_admitted(entry, event_id, policy, now).1 is Ok,
    ensures
        ({
            let after = entry_admitted(entry, event_id, policy, now).0;
            entry_admitted(after, event_id, later_policy, later) == (
                after,
                Err::<(), Refusal>(Refusal::DuplicateEvent),
            )
        }),
{
    let after = entry_admitted(entry, event_id, policy, now).0;
    assert(after.replay.last() == event_id);
    assert(after.replay.contains(event_id));
}

/// No more events count at a time than the policy allows.
pub proof fn law_quota_is_kept(
    entry: EntryData,
    event_id: Seq<char>,
    policy: PokeSignalPolicy,
    now: u64,
)
    requires
        entry_admitted(entry, event_id, policy, now).1 is Ok,
    ensures
        entry_admitted(entry, event_id, policy, now).0.quota_events.len() <= policy.max_events,
        entry_admitted(entry, event_id, policy, now).0.quota_events.last() == now,
{
}

/// What is remembered, and the ids and times of the events that were admitted, after a source sent
/// some events of a signal at some times.
pub open spec fn admissions(calls: Seq<(Seq<char>, u64)>, policy: PokeSignalPolicy) -> (
    EntryData,
    Seq<(Seq<char>, u64)>,
)
    decreases calls.len(),
{
    if calls.len() == 0 {
        (blank_entry(), Seq::empty())
    } else {
        let (entry, past) = admissions(calls.drop_last(), policy);
        let (event_id, now) = calls.last();
        let (after, result) = entry_admitted(entry, event_id, policy, now);
        (
            after,
            if result is Ok {
                past.push((event_id, now))
            } else {
                past
            },
        )
    }
}

/// Time does not go back from call to call.
pub open spec fn times_ascend(calls: Seq<(Seq<char>, u64)>) -> bool {
    forall|i: int, j: int|
        0 <= i <= j < calls.len() ==> (#[trigger] calls[i]).1 <= (#[trigger] calls[j]).1
}

/// The ids of the last admitted events, as many as are remembered.
pub open spec fn recent_ids(past: Seq<(Seq<char>, u64)>) -> Seq<Seq<char>> {
    let n = if past.len() <= MAX_REPLAY_IDS {
        past.len()
    } else {
        MAX_REPLAY_IDS as nat
    };
    Seq::new(n, |i: int| past[past.len() - n + i].0)
}

/// How many events were admitted less than a window of nanoseconds before now.
pub open spec fn admitted_within(past: Seq<(Seq<char>, u64)>, now: u64, window: int) -> nat
    decreases past.len(),
{
    if past.len() == 0 {
        0
    } else {
        admitted_within(past.drop_last(), now, window) + if now - past.last().1 < window {
            1nat
        } else {
            0nat
        }
    }
}

/// What becomes of an event after these were admitted: it is a duplicate where its id is among the
/// last ones, and too early where as many as the policy allows lie in its window.
pub open spec fn decided(
    past: Seq<(Seq<char>, u64)>,
    event_id: Seq<char>,
    policy: PokeSignalPolicy,
    now: u64,
) -> Result<(), Refusal> {
    if recent_ids(past).contains(event_id) {
        Err(Refusal::DuplicateEvent)
    } else if admitted_within(past, now, window_of(policy)) >= policy.max_events {
        Err(Refusal::RateLimited)
    } else {
        Ok(())
    }
}

/// The events that a source sent of a signal, among all that were sent.
pub open spec fn calls_of(history: Seq<(PokeData, u64)>, key: SourceKey) -> Seq<(Seq<char>, u64)>
    decreases history.len(),
{
    if history.len() == 0 {
        Seq::empty()
    } else {
        let (request, now) = history.last();
        let before = calls_of(history.drop_last(), key);
        if key_of(request) == key {
            before.push((request.event_id, now))
        } else {
            before
        }
    }
}

/// Time does not go back from poke to poke.
pub open spec fn history_ascends(history: Seq<(PokeData, u64)>) -> bool {
    forall|i: int, j: int|
        0 <= i <= j < history.len() ==> (#[trigger] history[i]).1 <= (#[trigger] history[j]).1
}

impl AdmissionState {
    /// This is what is remembered after all these pokes came under one policy.
    pub open spec fn follows(
        &self,
        history: Seq<(PokeData, u64)>,
        policy: PokeSignalPolicy,
    ) -> bool {
        forall|key: SourceKey| #[trigger]
            self.entry(key) == admissions(calls_of(history, key), policy).0
    }
}

/// The times that count are those of the latest admissions, all before them are out of the window,
/// and the ids that are remembered are those of the last admissions.
proof fn lemma_admissions(calls: Seq<(Seq<char>, u64)>, policy: PokeSignalPolicy)
    requires
        times_ascend(calls),
    ensures
        ({
            let (entry, past) = admissions(calls, policy);
            let k = past.len() - entry.quota_events.len();
            &&& 0 <= k
            &&& forall|i: int|
                0 <= i < entry.quota_events.len() ==> #[trigger] entry.quota_events[i] == past[k
                    + i].1
            &&& entry.replay == recent_ids(past)
            &&& calls.len() == 0 ==> past.len() == 0
            &&& times_ascend(past)
            &&& forall|i: int| 0 <= i < past.len() ==> (#[trigger] past[i]).1 <= calls.last().1
            &&& forall|i: int|
                0 <= i < k ==> calls.last().1 - (#[trigger] past[i]).1 >= window_of(policy)
            &&& forall|i: int, j: int|
                0 <= i < j < past.len() && j - i >= policy.max_events ==> (#[trigger] past[j]).1 - (
                #[trigger] past[i]).1 >= window_of(policy)
        }),
    decreases calls.len(),
{
    if calls.len() > 0 {
        let rest = calls.drop_last();
        assert forall|i: int, j: int| 0 <= i <= j < rest.len() implies (#[trigger] rest[i]).1 <= (
        #[trigger] rest[j]).1 by {
            assert(calls[i].1 <= calls[j].1);
        }
        lemma_admissions(rest, policy);
        let (entry, before) = admissions(rest, policy);
        let (event_id, now) = calls.last();
        let window = window_of(policy);
        if rest.len() > 0 {
            assert(calls[rest.len() - 1].1 <= calls[calls.len() - 1].1);
            assert(rest.last() == calls[rest.len() - 1]);
        }
        let k = before.len() - entry.quota_events.len();
        if !entry.replay.contains(event_id) {
            lemma_counted_suffix(entry.quota_events, now, window);
            lemma_counted_dropped(entry.quota_events, now, window);
            let left = counted(entry.quota_events, now, window);
            let gone = entry.quota_events.len() - left.len();
            assert forall|i: int| 0 <= i < left.len() implies #[trigger] left[i] == before[k + gone
                + i].1 by {
                assert(left[i] == entry.quota_events[gone + i]);
            }
            assert forall|i: int| 0 <= i < k + gone implies now - (#[trigger] before[i]).1
                >= window by {
                if i >= k {
                    assert(before[i].1 == entry.quota_events[i - k]);
                }
            }
            if left.len() < policy.max_events {
                let past = before.push((event_id, now));
                assert forall|i: int, j: int|
                    0 <= i < j < past.len() && j - i >= policy.max_events implies (
                #[trigger] past[j]).1 - (#[trigger] past[i]).1 >= window by {
                    if j < before.len() {
                        assert(before[j].1 - before[i].1 >= window);
                    } else {
                        assert(i < k + gone);
                        assert(now - before[i].1 >= window);
                    }
                }
                assert forall|i: int| 0 <= i < past.len() implies (#[trigger] past[i]).1 <= now by {
                    if i < before.len() {
                        assert(before[i].1 <= rest.last().1);
                    }
                }
                assert forall|i: int, j: int| 0 <= i <= j < past.len() implies (
                #[trigger] past[i]).1 <= (#[trigger] past[j]).1 by {
                    if j < before.len() {
                        assert(before[i].1 <= before[j].1);
                    }
                }
                assert forall|i: int| 0 <= i < k + gone implies now - (#[trigger] past[i]).1
                    >= window by {
                    assert(now - before[i].1 >= window);
                }
                assert(replay_with(entry.replay, event_id) =~= recent_ids(past));
            }
        }
    } else {
        assert(blank_entry().replay =~= recent_ids(Seq::empty()));
    }
}

/// Where the admissions from one on lie in the window and those before do not, they are counted.
proof fn lemma_admitted_within(past: Seq<(Seq<char>, u64)>, now: u64, window: int, first: int)
    requires
        0 <= first <= past.len(),
        forall|i: int| 0 <= i < first ==> now - (#[trigger] past[i]).1 >= window,
        forall|i: int| first <= i < past.len() ==> now - (#[trigger] past[i]).1 < window,
    ensures
        admitted_within(past, now, window) == past.len() - first,
    decreases past.len(),
{
    if past.len() > 0 {
        let rest = past.drop_last();
        assert(past.last() == past[past.len() - 1]);
        if first == past.len() {
            lemma_admitted_within(rest, now, window, first - 1);
        } else {
            lemma_admitted_within(rest, now, window, first);
        }
    }
}

/// What becomes of an event is decided by what its source had admitted of its signal before, and by
/// nothing else: by the ids of the last admissions, and by how many lie in the window.
proof fn lemma_decided(
    calls: Seq<(Seq<char>, u64)>,
    policy: PokeSignalPolicy,
    event_id: Seq<char>,
    now: u64,
)
    requires
        times_ascend(calls),
        calls.len() > 0 ==> calls.last().1 <= now,
    ensures
        ({
            let (entry, past) = admissions(calls, policy);
            entry_admitted(entry, event_id, policy, now).1 == decided(past, event_id, policy, now)
        }),
{
    let (entry, past) = admissions(calls, policy);
    let window = window_of(policy);
    lemma_admissions(calls, policy);
    lemma_counted_suffix(entry.quota_events, now, window);
    lemma_counted_dropped(entry.quota_events, now, window);
    lemma_counted_starts_in_window(entry.quota_events, now, window);
    let left = counted(entry.quota_events, now, window);
    let k = past.len() - entry.quota_events.len();
    let first = past.len() - left.len();
    assert forall|i: int| 0 <= i < first implies now - (#[trigger] past[i]).1 >= window by {
        if i >= k {
            assert(past[i].1 == entry.quota_events[i - k]);
            assert(past[i].1 <= calls.last().1);
        }
    }
    assert forall|i: int| first <= i < past.len() implies now - (#[trigger] past[i]).1 < window by {
        assert(left[0] == entry.quota_events[first - k]);
        assert(left[0] == past[first].1);
        assert(past[first].1 <= past[i].1);
        assert(past[first].1 <= calls.last().1);
    }
    lemma_admitted_within(past, now, window, first);
}

/// The first time that still counts lies in the window.
proof fn lemma_counted_starts_in_window(times: Seq<u64>, now: u64, window: int)
    ensures
        counted(times, now, window).len() > 0 ==> elapsed(counted(times, now, window)[0], now)
            < window,
    decreases times.len(),
{
    if times.len() > 0 && elapsed(times[0], now) >= window {
        lemma_counted_starts_in_window(times.drop_first(), now, window);
    }
}

/// The events of one source ascend in time where all do, and end before a time that all end before.
proof fn lemma_calls_ascend(history: Seq<(PokeData, u64)>, key: SourceKey)
    requires
        history_ascends(history),
    ensures
        times_ascend(calls_of(history, key)),
        history.len() == 0 ==> calls_of(history, key).len() == 0,
        calls_of(history, key).len() > 0 ==> calls_of(history, key).last().1 <= history.last().1,
    decreases history.len(),
{
    if history.len() > 0 {
        let rest = history.drop_last();
        assert forall|i: int, j: int| 0 <= i <= j < rest.len() implies (#[trigger] rest[i]).1 <= (
        #[trigger] rest[j]).1 by {
            assert(history[i].1 <= history[j].1);
        }
        lemma_calls_ascend(rest, key);
        let before = calls_of(rest, key);
        let now = history.last().1;
        if rest.len() > 0 {
            assert(rest.last() == history[rest.len() - 1]);
            assert(history[rest.len() - 1].1 <= history[history.len() - 1].1);
        }
        let calls = calls_of(history, key);
        assert forall|i: int, j: int| 0 <= i <= j < calls.len() implies (#[trigger] calls[i]).1 <= (
        #[trigger] calls[j]).1 by {
            if j < before.len() {
                assert(before[i].1 <= before[j].1);
            } else if i < before.len() {
                assert(before[i].1 <= before[before.len() - 1].1);
            }
        }
    }
}

/// After any pokes under one policy, whoever sent them, the next poke is refused as a duplicate
/// exactly where its id is among the last that its source had admitted of its signal, otherwise for
/// its rate exactly where as many admissions of that source and signal as the policy allows lie in
/// the window, and is admitted otherwise. Pokes that were refused, those of other sources or
/// signals, and the sessions that they came from have no part in it.
pub proof fn law_admission_follows_the_history(
    state: AdmissionState,
    history: Seq<(PokeData, u64)>,
    policy: PokeSignalPolicy,
    request: PokeData,
    now: u64,
)
    requires
        state.follows(history, policy),
        history_ascends(history.push((request, now))),
    ensures
        ({
            let key = key_of(request);
            let past = admissions(calls_of(history, key), policy).1;
            entry_admitted(state.entry(key), request.event_id, policy, now).1 == decided(
                past,
                request.event_id,
                policy,
                now,
            )
        }),
{
    let key = key_of(request);
    let all = history.push((request, now));
    assert forall|i: int, j: int| 0 <= i <= j < history.len() implies (#[trigger] history[i]).1 <= (
    #[trigger] history[j]).1 by {
        assert(all[i].1 <= all[j].1);
    }
    if history.len() > 0 {
        assert(all[history.len() - 1].1 <= all[history.len() as int].1);
    }
    lemma_calls_ascend(history, key);
    lemma_decided(calls_of(history, key), policy, request.event_id, now);
    assert(state.entry(key) == admissions(calls_of(history, key), policy).0);
}

proof fn lemma_calls_of_next(history: Seq<(PokeData, u64)>, request: PokeData, now: u64, key: SourceKey)
    ensures
        calls_of(history.push((request, now)), key) == if key_of(request) == key {
            calls_of(history, key).push((request.event_id, now))
        } else {
            calls_of(history, key)
        },
{
    assert(history.push((request, now)).drop_last() =~= history);
}

/// Every time that no longer counts is out of the window.
proof fn lemma_counted_dropped(times: Seq<u64>, now: u64, window: int)
    ensures
        forall|i: int|
            0 <= i < times.len() - counted(times, now, window).len() ==> elapsed(
                #[trigger] times[i],
                now,
            ) >= window,
    decreases times.len(),
{
    if times.len() > 0 && elapsed(times[0], now) >= window {
        let rest = times.drop_first();
        lemma_counted_dropped(rest, now, window);
        assert forall|i: int|
            0 <= i < times.len() - counted(times, now, window).len() implies elapsed(
            #[trigger] times[i],
            now,
        ) >= window by {
            if i > 0 {
                assert(rest[i - 1] == times[i]);
            }
        }
    }
}

/// In no window of time are more events admitted than the policy allows, however a source sends
/// them: an admission and the one that follows it by the allowed number lie at least a window
/// apart.
pub proof fn law_quota_holds_in_every_window(
    calls: Seq<(Seq<char>, u64)>,
    policy: PokeSignalPolicy,
    i: int,
    j: int,
)
    requires
        times_ascend(calls),
        policy.max_events > 0,
        policy.per_seconds > 0,
        0 <= i < j < admissions(calls, policy).1.len(),
        j - i >= policy.max_events,
    ensures
        admissions(calls, policy).1[j].1 - admissions(calls, policy).1[i].1 >= window_of(policy),
{
    lemma_admissions(calls, policy);
}

/// An event that was refused for its rate is not remembered: once the window of all earlier events
/// is over, the same event is admitted.
pub proof fn law_rate_limited_event_may_be_sent_again(
    entry: EntryData,
    event_id: Seq<char>,
    policy: PokeSignalPolicy,
    now: u64,
    later: u64,
)
    requires
        entry_admitted(entry, event_id, policy, now).1 == Err::<(), Refusal>(Refusal::RateLimited),
        policy.max_events > 0,
        forall|i: int|
            0 <= i < entry.quota_events.len() ==> elapsed(#[trigger] entry.quota_events[i], later)
                >= window_of(policy),
    ensures
        ({
            let after = entry_admitted(entry, event_id, policy, now).0;
            &&& after.replay == entry.replay
            &&& entry_admitted(after, event_id, policy, later).1 is Ok
        }),
{
    let after = entry_admitted(entry, event_id, policy, now).0;
    lemma_counted_suffix(entry.quota_events, now, window_of(policy));
    assert forall|i: int| 0 <= i < after.quota_events.len() implies elapsed(
        #[trigger] after.quota_events[i],
        later,
    ) >= window_of(policy) by {
        let shift = entry.quota_events.len() - after.quota_events.len();
        assert(after.quota_events[i] == entry.quota_events[i + shift]);
    }
    lemma_all_expired(after.quota_events, later, window_of(policy));
}

proof fn lemma_counted_suffix(times: Seq<u64>, now: u64, window: int)
    ensures
        counted(times, now, window).len() <= times.len(),
        counted(times, now, window) == times.skip(
            times.len() - counted(times, now, window).len(),
        ),
    decreases times.len(),
{
    if times.len() > 0 && elapsed(times[0], now) >= window {
        lemma_counted_suffix(times.drop_first(), now, window);
        let n = counted(times, now, window).len();
        assert(times.drop_first().skip(times.drop_first().len() - n) =~= times.skip(
            times.len() - n,
        ));
    } else {
        assert(times.skip(0) =~= times);
    }
}

proof fn lemma_all_expired(times: Seq<u64>, now: u64, window: int)
    requires
        forall|i: int| 0 <= i < times.len() ==> elapsed(#[trigger] times[i], now) >= window,
    ensures
        counted(times, now, window).len() == 0,
    decreases times.len(),
{
    if times.len() > 0 {
        let rest = times.drop_first();
        assert forall|i: int| 0 <= i < rest.len() implies elapsed(#[trigger] rest[i], now)
            >= window by {
            assert(rest[i] == times[i + 1]);
        }
        lemma_all_expired(rest, now, window);
    }
}

/// What is to be done with a socket file that an earlier client may have left.
#[derive(Clone, Copy, Debug, PartialEq, Eq, Structural)]
pub enum StaleSocket {
    Nothing,
    /// Another client serves it.
    InUse,
    NotOwned,
    Remove,
}

/// What is to be done with a socket file, by what was found of it.
pub open spec fn stale_socket_of(
    found: bool,
    answers: bool,
    owner: u32,
    effective_uid: u32,
) -> StaleSocket {
    if !found {
        StaleSocket::Nothing
    } else if answers {
        StaleSocket::InUse
    } else if owner != effective_uid {
        StaleSocket::NotOwned
    } else {
        StaleSocket::Remove
    }
}

/// Decides what is done with a socket file: it is removed only where nobody answers on it and it
/// belongs to this user.
pub fn check_stale_socket(found: bool, answers: bool, owner: u32, effective_uid: u32) -> (stale:
    StaleSocket)
    ensures
        stale == stale_socket_of(found, answers, owner, effective_uid),
{
    if !found {
        StaleSocket::Nothing
    } else if answers {
        StaleSocket::InUse
    } else if owner != effective_uid {
        StaleSocket::NotOwned
    } else {
        StaleSocket::Remove
    }
}

} // verus!
