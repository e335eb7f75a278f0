//! The usage of the account, published for local status displays without anything that identifies
//! the account.

use vstd::prelude::*;
use vstd::string::*;

use crate::json::{
    json_literal, optional_member, push_member, text_views, write_json_literal, Json,
};
use crate::snapshot::{
    brace, braced, optional_literal, optional_signed_decimal, optional_truth, or_null, process_json,
    temporary_name, truth_word, write_optional_literal, write_optional_signed, write_process,
    write_temporary_name, write_truth, ProcessIdentity, Publication,
};
use crate::text::{
    before_at, decimal, optional_view, precedes, same_text, signed_decimal, text_before,
    write_decimal, write_signed_decimal,
};

verus! {

/// A window of time with a limit on its usage.
#[derive(Clone, Copy, Debug, PartialEq, Eq, Structural)]
pub struct RateLimitWindow {
    pub used_percent: i32,
    pub window_duration_mins: Option<i64>,
    pub resets_at: Option<i64>,
}

/// The credits of an account.
#[derive(Debug)]
pub struct CreditsSnapshot {
    pub has_credits: bool,
    pub unlimited: bool,
    pub balance: Option<String>,
}

/// A limit and how far it is used up.
#[derive(Debug)]
pub struct RateLimitSnapshot {
    pub limit_id: Option<String>,
    pub limit_name: Option<String>,
    pub primary: Option<RateLimitWindow>,
    pub secondary: Option<RateLimitWindow>,
    pub credits: Option<CreditsSnapshot>,
}

/// A credit that resets a limit.
#[derive(Debug)]
pub struct RateLimitResetCredit {
    pub id: String,
    pub title: Option<String>,
    pub description: Option<String>,
}

/// The credits that reset a limit.
#[derive(Debug)]
pub struct RateLimitResetCreditsSummary {
    pub available_count: i64,
    pub credits: Option<Vec<RateLimitResetCredit>>,
}

/// The usage of an account as it was read, with the limits by their ids, no id twice.
#[derive(Debug)]
pub struct GetAccountRateLimitsResponse {
    pub ordinary_usage_allowed: Option<bool>,
    pub rate_limits: RateLimitSnapshot,
    pub rate_limits_by_limit_id: Option<Vec<(String, RateLimitSnapshot)>>,
    pub rate_limit_reset_credits: Option<RateLimitResetCreditsSummary>,
    pub account_id: Option<String>,
    pub rate_limit_upsell: Option<Json>,
}

/// The credits of an account, by their texts.
pub struct CreditsData {
    pub has_credits: bool,
    pub unlimited: bool,
    pub balance: Option<Seq<char>>,
}

impl View for CreditsSnapshot {
    type V = CreditsData;

    open spec fn view(&self) -> CreditsData {
        CreditsData {
            has_credits: self.has_credits,
            unlimited: self.unlimited,
            balance: optional_view(self.balance),
        }
    }
}

/// A limit and how far it is used up, by its texts.
pub struct LimitData {
    pub limit_id: Option<Seq<char>>,
    pub limit_name: Option<Seq<char>>,
    pub primary: Option<RateLimitWindow>,
    pub secondary: Option<RateLimitWindow>,
    pub credits: Option<CreditsData>,
}

impl View for RateLimitSnapshot {
    type V = LimitData;

    open spec fn view(&self) -> LimitData {
        LimitData {
            limit_id: optional_view(self.limit_id),
            limit_name: optional_view(self.limit_name),
            primary: self.primary,
            secondary: self.secondary,
            credits: match self.credits {
                Some(credits) => Some(credits@),
                None => None,
            },
        }
    }
}

/// Limits by their ids.
pub open spec fn limit_views(limits: Seq<(String, RateLimitSnapshot)>) -> Seq<
    (Seq<char>, LimitData),
> {
    Seq::new(limits.len(), |i: int| (limits[i].0@, limits[i].1@))
}

/// What a response says of the usage.
pub struct UsageData {
    pub ordinary_usage_allowed: Option<bool>,
    pub rate_limits: LimitData,
    pub by_id: Seq<(Seq<char>, LimitData)>,
    pub reset_credits_available: Option<i64>,
}

impl GetAccountRateLimitsResponse {
    /// What this response says of the usage.
    pub open spec fn usage(&self) -> UsageData {
        UsageData {
            ordinary_usage_allowed: self.ordinary_usage_allowed,
            rate_limits: self.rate_limits@,
            by_id: match self.rate_limits_by_limit_id {
                Some(limits) => limit_views(limits@),
                None => Seq::empty(),
            },
            reset_credits_available: match self.rate_limit_reset_credits {
                Some(summary) => Some(summary.available_count),
                None => None,
            },
        }
    }
}

/// No name stands twice.
pub open spec fn names_distinct<V>(entries: Seq<(Seq<char>, V)>) -> bool {
    forall|i: int, j: int|
        0 <= i < j < entries.len() ==> (#[trigger] entries[i]).0 != (#[trigger] entries[j]).0
}

/// The names stand in ascending order.
pub open spec fn names_ascend<V>(entries: Seq<(Seq<char>, V)>) -> bool {
    forall|i: int, j: int|
        0 <= i < j < entries.len() ==> text_before(
            (#[trigger] entries[i]).0,
            (#[trigger] entries[j]).0,
        )
}

/// The id of the main limit.
pub open spec fn main_limit_id(limit: LimitData) -> Seq<char> {
    match limit.limit_id {
        Some(id) => if id.len() > 0 {
            id
        } else {
            "codex"@
        },
        None => "codex"@,
    }
}

/// An entry has this name.
pub open spec fn has_name<V>(entries: Seq<(Seq<char>, V)>, name: Seq<char>) -> bool {
    exists|i: int| 0 <= i < entries.len() && (#[trigger] entries[i]).0 == name
}

/// All limits: those with an id, and the main one unless its id is among them.
pub open spec fn all_limits(usage: UsageData) -> Seq<(Seq<char>, LimitData)> {
    let id = main_limit_id(usage.rate_limits);
    if has_name(usage.by_id, id) {
        usage.by_id
    } else {
        usage.by_id.push((id, usage.rate_limits))
    }
}

/// What is published of a window.
pub open spec fn window_json(window: RateLimitWindow) -> Seq<char> {
    braced(
        seq!["\"used_percent\":"@ + signed_decimal(window.used_percent as int)] + optional_member(
            "\"window_minutes\":"@,
            optional_signed_decimal(window.window_duration_mins),
        ) + optional_member("\"resets_at\":"@, optional_signed_decimal(window.resets_at)),
    )
}

/// What is published of an optional window.
pub open spec fn optional_window(window: Option<RateLimitWindow>) -> Option<Seq<char>> {
    match window {
        Some(w) => Some(window_json(w)),
        None => None,
    }
}

/// What is published of the credits.
pub open spec fn credits_json(credits: CreditsData) -> Seq<char> {
    braced(
        seq![
            "\"has_credits\":"@ + truth_word(credits.has_credits),
            "\"unlimited\":"@ + truth_word(credits.unlimited),
        ] + optional_member("\"balance\":"@, optional_literal(credits.balance)),
    )
}

/// What is published of optional credits.
pub open spec fn optional_credits(credits: Option<CreditsData>) -> Option<Seq<char>> {
    match credits {
        Some(c) => Some(credits_json(c)),
        None => None,
    }
}

/// What is published of a limit.
pub open spec fn limit_json(limit_id: Seq<char>, limit: LimitData) -> Seq<char> {
    braced(
        seq!["\"limit_id\":"@ + json_literal(limit_id)] + optional_member(
            "\"name\":"@,
            optional_literal(limit.limit_name),
        ) + optional_member("\"primary\":"@, optional_window(limit.primary)) + optional_member(
            "\"secondary\":"@,
            optional_window(limit.secondary),
        ) + optional_member("\"credits\":"@, optional_credits(limit.credits)),
    )
}

/// What is published of each limit, by its id.
pub open spec fn written_limits(limits: Seq<(Seq<char>, LimitData)>) -> Seq<
    (Seq<char>, Seq<char>),
> {
    Seq::new(limits.len(), |i: int| (limits[i].0, limit_json(limits[i].0, limits[i].1)))
}

/// Puts an entry in its place among entries in ascending order.
pub open spec fn placed<V>(ordered: Seq<(Seq<char>, V)>, entry: (Seq<char>, V)) -> Seq<
    (Seq<char>, V),
>
    decreases ordered.len(),
{
    if ordered.len() == 0 || text_before(ordered.last().0, entry.0) {
        ordered.push(entry)
    } else {
        placed(ordered.drop_last(), entry).push(ordered.last())
    }
}

/// Entries in the ascending order of their names.
pub open spec fn in_order<V>(entries: Seq<(Seq<char>, V)>) -> Seq<(Seq<char>, V)>
    decreases entries.len(),
{
    if entries.len() == 0 {
        Seq::empty()
    } else {
        placed(in_order(entries.drop_last()), entries.last())
    }
}

/// The members of an object out of its entries.
pub open spec fn entry_members(entries: Seq<(Seq<char>, Seq<char>)>) -> Seq<Seq<char>> {
    Seq::new(entries.len(), |i: int| json_literal(entries[i].0) + ":"@ + entries[i].1)
}

/// What is published of the usage.
pub open spec fn usage_json(usage: UsageData, process: ProcessIdentity, now_ms: u64) -> Seq<char> {
    braced(
        seq![
            "\"schema\":\"codex.account-usage-state/v1\""@,
            "\"updated_at_unix_ms\":"@ + decimal(now_ms as nat),
            "\"process\":"@ + process_json(process),
            "\"ordinary_usage_allowed\":"@ + or_null(optional_truth(usage.ordinary_usage_allowed)),
            "\"rate_limits_by_limit_id\":"@ + braced(
                entry_members(in_order(written_limits(all_limits(usage)))),
            ),
            "\"rate_limit_reset_credits_available\":"@ + or_null(
                optional_signed_decimal(usage.reset_credits_available),
            ),
        ],
    )
}

fn write_window(window: &RateLimitWindow) -> (text: String)
    ensures
        text@ == window_json(*window),
{
    let mut members: Vec<String> = Vec::new();
    push_member(
        &mut members,
        "\"used_percent\":",
        Some(write_signed_decimal(window.used_percent as i64)),
    );
    assert(text_views(members@) =~= seq![
        "\"used_percent\":"@ + signed_decimal(window.used_percent as int),
    ]);
    push_member(
        &mut members,
        "\"window_minutes\":",
        write_optional_signed(window.window_duration_mins),
    );
    push_member(&mut members, "\"resets_at\":", write_optional_signed(window.resets_at));
    brace(&members)
}

fn write_optional_window(window: &Option<RateLimitWindow>) -> (text: Option<String>)
    ensures
        optional_view(text) == optional_window(*window),
{
    match window {
        Some(w) => Some(write_window(w)),
        None => None,
    }
}

fn write_credits(credits: &CreditsSnapshot) -> (text: String)
    ensures
        text@ == credits_json(credits@),
{
    let mut members: Vec<String> = Vec::new();
    push_member(&mut members, "\"has_credits\":", Some(write_truth(credits.has_credits)));
    push_member(&mut members, "\"unlimited\":", Some(write_truth(credits.unlimited)));
    assert(text_views(members@) =~= seq![
        "\"has_credits\":"@ + truth_word(credits.has_credits),
        "\"unlimited\":"@ + truth_word(credits.unlimited),
    ]);
    push_member(&mut members, "\"balance\":", write_optional_literal(&credits.balance));
    brace(&members)
}

/// Writes what is published of a limit.
pub fn usage_limit(limit_id: &str, snapshot: &RateLimitSnapshot) -> (text: String)
    ensures
        text@ == limit_json(limit_id@, snapshot@),
{
    let mut members: Vec<String> = Vec::new();
    push_member(&mut members, "\"limit_id\":", Some(write_json_literal(limit_id)));
    assert(text_views(members@) =~= seq!["\"limit_id\":"@ + json_literal(limit_id@)]);
    push_member(&mut members, "\"name\":", write_optional_literal(&snapshot.limit_name));
    push_member(&mut members, "\"primary\":", write_optional_window(&snapshot.primary));
    push_member(&mut members, "\"secondary\":", write_optional_window(&snapshot.secondary));
    let credits = match &snapshot.credits {
        Some(credits) => Some(write_credits(credits)),
        None => None,
    };
    push_member(&mut members, "\"credits\":", credits);
    brace(&members)
}

/// Entries by their texts.
pub open spec fn entry_views(entries: Seq<(String, String)>) -> Seq<(Seq<char>, Seq<char>)> {
    Seq::new(entries.len(), |i: int| (entries[i].0@, entries[i].1@))
}

fn place_entry(ordered: &mut Vec<(String, String)>, name: String, text: String)
    ensures
        entry_views(final(ordered)@) == placed(entry_views(old(ordered)@), (name@, text@)),
{
    let ghost before = entry_views(ordered@);
    let ghost entry = (name@, text@);
    let mut at: usize = ordered.len();
    assert(before.take(at as int) =~= before);
    assert(placed(before, entry) + before.skip(at as int) =~= placed(before, entry));
    while at > 0 && !precedes(ordered[at - 1].0.as_str(), name.as_str())
        invariant
            at <= ordered@.len(),
            before == entry_views(ordered@),
            entry == (name@, text@),
            placed(before, entry) == placed(before.take(at as int), entry) + before.skip(
                at as int,
            ),
        decreases at,
    {
        proof {
            let head = before.take(at as int);
            assert(head.last() == before[at - 1]);
            assert(head.drop_last() =~= before.take(at - 1));
            assert(placed(head.drop_last(), entry).push(head.last()) + before.skip(at as int)
                =~= placed(before.take(at - 1), entry) + before.skip(at - 1));
        }
        at -= 1;
    }
    ordered.insert(at, (name, text));
    assert(entry_views(ordered@) =~= before.take(at as int).push(entry) + before.skip(at as int));
}

fn knows_limit(limits: &Vec<(String, RateLimitSnapshot)>, name: &str) -> (found: bool)
    ensures
        found == has_name(limit_views(limits@), name@),
{
    let ghost views = limit_views(limits@);
    let mut i: usize = 0;
    while i < limits.len()
        invariant
            i <= limits@.len(),
            views == limit_views(limits@),
            forall|j: int| 0 <= j < i ==> (#[trigger] views[j]).0 != name@,
        decreases limits@.len() - i,
    {
        if same_text(limits[i].0.as_str(), name) {
            assert(views[i as int].0 == name@);
            return true;
        }
        i += 1;
    }
    false
}

fn order_limits(limits: &Vec<(String, RateLimitSnapshot)>) -> (ordered: Vec<(String, String)>)
    ensures
        entry_views(ordered@) == in_order(written_limits(limit_views(limits@))),
{
    let ghost all = written_limits(limit_views(limits@));
    let mut ordered: Vec<(String, String)> = Vec::new();
    let mut i: usize = 0;
    assert(all.take(0) =~= Seq::<(Seq<char>, Seq<char>)>::empty());
    assert(entry_views(ordered@) =~= Seq::<(Seq<char>, Seq<char>)>::empty());
    while i < limits.len()
        invariant
            i <= limits@.len(),
            all == written_limits(limit_views(limits@)),
            entry_views(ordered@) == in_order(all.take(i as int)),
        decreases limits@.len() - i,
    {
        let id = limits[i].0.as_str();
        let text = usage_limit(id, &limits[i].1);
        proof {
            assert(all.take(i + 1).last() == all[i as int]);
            assert(all.take(i + 1).drop_last() =~= all.take(i as int));
        }
        place_entry(&mut ordered, id.to_owned(), text);
        i += 1;
    }
    assert(all.take(i as int) =~= all);
    ordered
}

fn write_limits(response: &GetAccountRateLimitsResponse) -> (text: String)
    ensures
        text@ == braced(entry_members(in_order(written_limits(all_limits(response.usage()))))),
{
    let main_id = match &response.rate_limits.limit_id {
        Some(id) => if id.as_str().unicode_len() > 0 {
            id.as_str()
        } else {
            "codex"
        },
        None => "codex",
    };
    let ghost usage = response.usage();
    let mut known = false;
    let mut ordered: Vec<(String, String)> = Vec::new();
    match &response.rate_limits_by_limit_id {
        Some(limits) => {
            known = knows_limit(limits, main_id);
            ordered = order_limits(limits);
        },
        None => {
            assert(entry_views(ordered@) =~= in_order(written_limits(usage.by_id)));
        },
    }
    if !known {
        let text = usage_limit(main_id, &response.rate_limits);
        proof {
            let all = written_limits(all_limits(usage));
            assert(all.last() == (main_id@, text@));
            assert(all.drop_last() =~= written_limits(usage.by_id));
        }
        place_entry(&mut ordered, main_id.to_owned(), text);
    }
    let ghost entries = entry_views(ordered@);
    let mut members: Vec<String> = Vec::new();
    let mut i: usize = 0;
    while i < ordered.len()
        invariant
            i <= ordered@.len(),
            entries == entry_views(ordered@),
            text_views(members@) == entry_members(entries).take(i as int),
        decreases ordered@.len() - i,
    {
        let ghost before = members@;
        let mut part = write_json_literal(ordered[i].0.as_str());
        part.append(":");
        part.append(ordered[i].1.as_str());
        members.push(part);
        assert(text_views(members@) =~= text_views(before).push(entry_members(entries)[i as int]));
        assert(text_views(members@) =~= entry_members(entries).take(i + 1));
        i += 1;
    }
    assert(entry_members(entries).take(i as int) =~= entry_members(entries));
    brace(&members)
}

/// Publishes the newest usage of the account.
///
/// Each limit stands under its id, the ids in ascending order.
pub fn publish(
    response: &GetAccountRateLimitsResponse,
    process: &ProcessIdentity,
    now_ms: u64,
    temporary_sequence: u64,
) -> (publication: Publication)
    ensures
        publication.temporary_name@ == temporary_name(
            "current.json"@,
            process.pid,
            temporary_sequence,
        ),
        publication.contents@ == usage_json(response.usage(), *process, now_ms) + "\n"@,
{
    let mut members: Vec<String> = Vec::new();
    push_member(
        &mut members,
        "\"schema\":\"codex.account-usage-state/v1\"",
        Some(String::new()),
    );
    push_member(&mut members, "\"updated_at_unix_ms\":", Some(write_decimal(now_ms)));
    push_member(&mut members, "\"process\":", Some(write_process(process)));
    let allowed = match response.ordinary_usage_allowed {
        Some(allowed) => write_truth(allowed),
        None => "null".to_owned(),
    };
    push_member(&mut members, "\"ordinary_usage_allowed\":", Some(allowed));
    push_member(&mut members, "\"rate_limits_by_limit_id\":", Some(write_limits(response)));
    let available = match &response.rate_limit_reset_credits {
        Some(summary) => write_signed_decimal(summary.available_count),
        None => "null".to_owned(),
    };
    push_member(&mut members, "\"rate_limit_reset_credits_available\":", Some(available));
    proof {
        let usage = response.usage();
        let schema = "\"schema\":\"codex.account-usage-state/v1\""@;
        assert(schema + Seq::<char>::empty() =~= schema);
        assert(text_views(members@) =~= seq![
            schema,
            "\"updated_at_unix_ms\":"@ + decimal(now_ms as nat),
            "\"process\":"@ + process_json(*process),
            "\"ordinary_usage_allowed\":"@ + or_null(optional_truth(usage.ordinary_usage_allowed)),
            "\"rate_limits_by_limit_id\":"@ + braced(
                entry_members(in_order(written_limits(all_limits(usage)))),
            ),
            "\"rate_limit_reset_credits_available\":"@ + or_null(
                optional_signed_decimal(usage.reset_credits_available),
            ),
        ]);
    }
    let mut contents = brace(&members);
    contents.append("\n");
    Publication {
        temporary_name: write_temporary_name("current.json", process.pid, temporary_sequence),
        contents,
    }
}

proof fn lemma_texts_are_ordered(left: Seq<char>, right: Seq<char>, k: nat)
    requires
        left != right,
        k <= left.len(),
        k <= right.len(),
        forall|i: int| 0 <= i < k ==> left[i] == right[i],
    ensures
        text_before(left, right) || text_before(right, left),
    decreases left.len() - k,
{
    if k == left.len() && k == right.len() {
        assert(left =~= right);
    } else if k < left.len() && k < right.len() && left[k as int] == right[k as int] {
        lemma_texts_are_ordered(left, right, k + 1);
    } else {
        assert(before_at(left, right, k as int) || before_at(right, left, k as int));
    }
}

proof fn lemma_order_carries(left: Seq<char>, middle: Seq<char>, right: Seq<char>)
    requires
        text_before(left, middle),
        text_before(middle, right),
    ensures
        text_before(left, right),
{
    let j = choose|k: int| before_at(left, middle, k);
    let k = choose|k: int| before_at(middle, right, k);
    assert(before_at(left, right, if j < k { j } else { k }));
}

proof fn lemma_placed<V>(ordered: Seq<(Seq<char>, V)>, entry: (Seq<char>, V))
    requires
        names_ascend(ordered),
        !has_name(ordered, entry.0),
    ensures
        names_ascend(placed(ordered, entry)),
        forall|e: (Seq<char>, V)| #[trigger]
            placed(ordered, entry).contains(e) <==> ordered.contains(e) || e == entry,
    decreases ordered.len(),
{
    let result = placed(ordered, entry);
    if ordered.len() == 0 || text_before(ordered.last().0, entry.0) {
        assert forall|i: int, j: int| 0 <= i < j < result.len() implies text_before(
            (#[trigger] result[i]).0,
            (#[trigger] result[j]).0,
        ) by {
            if j == ordered.len() && i < j - 1 {
                lemma_order_carries(ordered[i].0, ordered.last().0, entry.0);
            }
        }
        assert forall|e: (Seq<char>, V)| #[trigger] result.contains(e) <==> ordered.contains(e) || e
            == entry by {
            if ordered.contains(e) {
                let i = choose|i: int| 0 <= i < ordered.len() && ordered[i] == e;
                assert(result[i] == e);
            }
            assert(result[ordered.len() as int] == entry);
        }
    } else {
        let head = ordered.drop_last();
        let last = ordered.last();
        assert(ordered[ordered.len() - 1].0 != entry.0);
        lemma_texts_are_ordered(last.0, entry.0, 0);
        assert(!has_name(head, entry.0)) by {
            if has_name(head, entry.0) {
                let i = choose|i: int| 0 <= i < head.len() && (#[trigger] head[i]).0 == entry.0;
                assert(ordered[i].0 == entry.0);
            }
        }
        lemma_placed(head, entry);
        let front = placed(head, entry);
        assert forall|i: int, j: int| 0 <= i < j < result.len() implies text_before(
            (#[trigger] result[i]).0,
            (#[trigger] result[j]).0,
        ) by {
            if j == front.len() {
                assert(front.contains(front[i]));
                if front[i] != entry {
                    let n = choose|n: int| 0 <= n < head.len() && head[n] == front[i];
                    assert(ordered[n] == front[i]);
                }
            }
        }
        assert forall|e: (Seq<char>, V)| #[trigger] result.contains(e) <==> ordered.contains(e) || e
            == entry by {
            assert(front.contains(e) <==> head.contains(e) || e == entry);
            if result.contains(e) {
                let i = choose|i: int| 0 <= i < result.len() && result[i] == e;
                assert(i < front.len() ==> front[i] == e);
                assert(ordered[ordered.len() - 1] == last);
                if i < front.len() && head.contains(e) {
                    let n = choose|n: int| 0 <= n < head.len() && head[n] == e;
                    assert(ordered[n] == e);
                }
            }
            if front.contains(e) {
                let i = choose|i: int| 0 <= i < front.len() && front[i] == e;
                assert(result[i] == e);
            }
            assert(result[front.len() as int] == last);
            if ordered.contains(e) {
                let n = choose|n: int| 0 <= n < ordered.len() && ordered[n] == e;
                assert(n < head.len() ==> head[n] == e);
            }
        }
    }
}

/// Limits are published in the ascending order of their ids: every limit once, and no other.
pub proof fn law_limits_are_in_order<V>(entries: Seq<(Seq<char>, V)>)
    requires
        names_distinct(entries),
    ensures
        names_ascend(in_order(entries)),
        forall|e: (Seq<char>, V)| #[trigger] in_order(entries).contains(e) <==> entries.contains(e),
    decreases entries.len(),
{
    if entries.len() > 0 {
        let head = entries.drop_last();
        let last = entries.last();
        law_limits_are_in_order(head);
        let front = in_order(head);
        assert(!has_name(front, last.0)) by {
            if has_name(front, last.0) {
                let i = choose|i: int| 0 <= i < front.len() && (#[trigger] front[i]).0 == last.0;
                assert(front.contains(front[i]));
                let n = choose|n: int| 0 <= n < head.len() && head[n] == front[i];
                assert(entries[n].0 == entries[entries.len() - 1].0);
            }
        }
        lemma_placed(front, last);
        assert forall|e: (Seq<char>, V)| #[trigger] in_order(entries).contains(e)
            <==> entries.contains(e) by {
            assert(front.contains(e) <==> head.contains(e));
            assert(entries[entries.len() - 1] == last);
            if entries.contains(e) {
                let n = choose|n: int| 0 <= n < entries.len() && entries[n] == e;
                assert(n < head.len() ==> head[n] == e);
            }
            if head.contains(e) {
                let n = choose|n: int| 0 <= n < head.len() && head[n] == e;
                assert(entries[n] == e);
            }
        }
    }
}

/// The main limit is always among the limits, and no id stands twice.
pub proof fn law_main_limit_is_published(usage: UsageData)
    requires
        names_distinct(usage.by_id),
    ensures
        has_name(all_limits(usage), main_limit_id(usage.rate_limits)),
        names_distinct(all_limits(usage)),
        names_distinct(written_limits(all_limits(usage))),
{
    let id = main_limit_id(usage.rate_limits);
    let all = all_limits(usage);
    if !has_name(usage.by_id, id) {
        assert(all[usage.by_id.len() as int].0 == id);
    }
}

/// Neither the account nor its banner, and of the credits that reset a limit nothing but their
/// number, makes a difference to what is published.
pub proof fn law_identity_is_not_published(
    left: GetAccountRateLimitsResponse,
    right: GetAccountRateLimitsResponse,
    process: ProcessIdentity,
    now_ms: u64,
)
    requires
        left.ordinary_usage_allowed == right.ordinary_usage_allowed,
        left.rate_limits@ == right.rate_limits@,
        left.rate_limits_by_limit_id == right.rate_limits_by_limit_id,
        match (left.rate_limit_reset_credits, right.rate_limit_reset_credits) {
            (Some(ours), Some(theirs)) => ours.available_count == theirs.available_count,
            (None, None) => true,
            _ => false,
        },
    ensures
        usage_json(left.usage(), process, now_ms) == usage_json(right.usage(), process, now_ms),
{
}

} // verus!
