//! What the shared parts keep to: atoms, numbers, words, the account's limits and the control socket.

use vstd::prelude::*;
use vstd::string::*;
use vstd::utf8::*;

use crate::atom::{atom_fault, is_atom, is_atom_char, lemma_atom_bytes, AtomFault};
use crate::control_socket::{
    accept_delay, anchored_path_of, component_number, components, directories_agree,
    is_proc_fd_path, parent_fault_message, parent_private, socket_file_end, socket_path_of,
    AcceptError, ConnectOutcome, FileFacts, ParentFault, SocketFileNext, SocketPathData, CONTROL_SOCKET_MODE,
};
use crate::json::{comma_joined, json_literal, optional_member};
use crate::listen::command::path_parts;
use crate::snapshot::{
    behind_parenthesis, braced, optional_literal, optional_signed_decimal, optional_truth, or_null,
    process_json, start_ticks_of, temporary_name, truth_word, unsigned_number, words,
    ProcessIdentity,
};
use crate::text::{
    byte_len, canonical_number, decimal, digits_up_to, numeral, signed_decimal, text_before,
    trim_end, trim_start, trimmed, unicode_white_space,
};
use crate::usage::{
    all_limits, credits_json, entry_members, in_order, limit_json, main_limit_id, usage_json,
    window_json, written_limits, CreditsData, LimitData, RateLimitWindow, UsageData,
};
use crate::writing::{
    lemma_part_stands_in_join, lemma_stands_between, lemma_stands_within, stands_in,
};

verus! {

/// The characters of a safe atom, by their code points: digits, letters, and `-`, `.`, `:`, `@` and
/// `_`; the slash only where it is allowed.
pub proof fn law_atoms_have_a_small_alphabet(c: char, slash: bool)
    ensures
        is_atom_char(c, slash) <==> {
            let n = c as u32;
            ||| 48 <= n <= 58
            ||| 64 <= n <= 90
            ||| 97 <= n <= 122
            ||| n == 45
            ||| n == 46
            ||| n == 95
            ||| slash && n == 47
        },
{
}

/// A text is a safe atom exactly where it is not empty, no longer than allowed, and made of these
/// characters alone; then it has as many bytes as characters. Its fault is its length before it is
/// its alphabet.
pub proof fn law_safe_atoms(text: Seq<char>, max: int, slash: bool)
    ensures
        is_atom(text, max, slash) <==> {
            &&& 1 <= text.len() <= max
            &&& forall|i: int| 0 <= i < text.len() ==> is_atom_char(#[trigger] text[i], slash)
        },
        is_atom(text, max, true) <==> atom_fault(text, max) is None,
        text.len() == 0 || byte_len(text) > max <==> atom_fault(text, max) == Some(
            AtomFault::Length,
        ),
{
    if forall|i: int| 0 <= i < text.len() ==> is_atom_char(#[trigger] text[i], slash) {
        assert(crate::atom::in_alphabet(text, slash));
        lemma_atom_bytes(text, slash);
    }
}

/// A number of one digit is written as that digit, and a further digit behind a positive number makes
/// it ten times as large, and that digit more.
pub proof fn law_numbers_are_written_in_decimal(n: nat, digit: nat)
    requires
        digit < 10,
    ensures
        decimal(digit) == seq![(48 + digit) as char],
        n > 0 ==> decimal(10 * n + digit) == decimal(n).push((48 + digit) as char),
{
    if n > 0 {
        assert((10 * n + digit) / 10 == n);
        assert((10 * n + digit) % 10 == digit);
    }
}

/// Digits are read as the number that they write: none as zero, and each further one as ten times
/// what stands before it and that digit.
pub proof fn law_digits_are_read_in_decimal(digits: Seq<char>, c: char)
    requires
        '0' <= c <= '9',
    ensures
        numeral(Seq::empty()) == 0,
        numeral(digits.push(c)) == 10 * numeral(digits) + (c as int - 48),
{
    assert(digits.push(c).drop_last() =~= digits);
}

/// A negative number is written with a minus before what it is short of zero.
pub proof fn law_negative_numbers_have_a_minus(n: int)
    ensures
        n >= 0 ==> signed_decimal(n) == decimal(n as nat),
        n < 0 ==> signed_decimal(n) == seq!['-'] + decimal((-n) as nat),
{
}

/// Digits are a number within a limit exactly where there are some, all of them digits, that read as
/// no more; and they are its only way of writing exactly where it is written as just them.
pub proof fn law_numbers_within_a_limit(text: Seq<char>, limit: nat)
    ensures
        digits_up_to(text, limit) is Some <==> text.len() > 0 && (forall|i: int|
            0 <= i < text.len() ==> '0' <= #[trigger] text[i] <= '9') && numeral(text) <= limit,
        digits_up_to(text, limit) matches Some(n) ==> n == numeral(text),
        canonical_number(text) matches Some(n) ==> n <= 0xffff_ffff && decimal(n) == text,
        forall|n: nat| n <= 0xffff_ffff && #[trigger] decimal(n) == text ==> canonical_number(text)
            == Some(n),
{
    if forall|i: int| 0 <= i < text.len() ==> '0' <= #[trigger] text[i] <= '9' {
        assert(crate::text::all_digits(text));
    }
    if digits_up_to(text, limit) is Some {
        assert forall|i: int| 0 <= i < text.len() implies '0' <= #[trigger] text[i] <= '9' by {
            assert(crate::text::is_digit(text[i]));
        }
    }
    assert forall|n: nat| n <= 0xffff_ffff && #[trigger] decimal(n) == text implies canonical_number(
        text,
    ) == Some(n) by {
        crate::text::lemma_decimal_numeral(n);
    }
}

proof fn lemma_trimmed_at_the_end(text: Seq<char>)
    ensures
        trim_end(text).len() <= text.len(),
        trim_end(text) == text.take(trim_end(text).len() as int),
        forall|i: int|
            trim_end(text).len() <= i < text.len() ==> unicode_white_space(#[trigger] text[i]),
        trim_end(text).len() > 0 ==> !unicode_white_space(trim_end(text).last()),
    decreases text.len(),
{
    if text.len() > 0 && unicode_white_space(text.last()) {
        let rest = text.drop_last();
        lemma_trimmed_at_the_end(rest);
        let n = trim_end(rest).len() as int;
        assert(text.take(n) =~= rest.take(n));
        assert forall|i: int| n <= i < text.len() implies unicode_white_space(#[trigger] text[i]) by {
            if i < rest.len() {
                assert(rest[i] == text[i]);
            }
        }
    } else {
        assert(text.take(text.len() as int) =~= text);
    }
}

proof fn lemma_trimmed_at_the_start(text: Seq<char>)
    ensures
        trim_start(text).len() <= text.len(),
        trim_start(text) == text.skip(text.len() - trim_start(text).len()),
        forall|i: int|
            0 <= i < text.len() - trim_start(text).len() ==> unicode_white_space(
                #[trigger] text[i],
            ),
        trim_start(text).len() > 0 ==> !unicode_white_space(trim_start(text)[0]),
    decreases text.len(),
{
    if text.len() > 0 && unicode_white_space(text[0]) {
        let rest = text.drop_first();
        lemma_trimmed_at_the_start(rest);
        let n = text.len() - trim_start(rest).len();
        assert(text.skip(n) =~= rest.skip(n - 1));
        assert forall|i: int| 0 <= i < n implies unicode_white_space(#[trigger] text[i]) by {
            if i > 0 {
                assert(rest[i - 1] == text[i]);
            }
        }
    } else {
        assert(text.skip(0) =~= text);
    }
}

/// Trimming takes away white space at both ends and nothing else: what is left neither begins nor
/// ends with white space, and only white space stood around it.
pub proof fn law_only_white_space_is_trimmed(text: Seq<char>)
    ensures
        exists|k: int|
            {
                &&& 0 <= k
                &&& k + trimmed(text).len() <= text.len()
                &&& #[trigger] text.subrange(k, k + trimmed(text).len()) == trimmed(text)
                &&& forall|i: int| 0 <= i < k ==> unicode_white_space(#[trigger] text[i])
                &&& forall|i: int|
                    k + trimmed(text).len() <= i < text.len() ==> unicode_white_space(
                        #[trigger] text[i],
                    )
            },
        trimmed(text).len() > 0 ==> !unicode_white_space(trimmed(text)[0]) && !unicode_white_space(
            trimmed(text).last(),
        ),
{
    let middle = trim_start(text);
    lemma_trimmed_at_the_start(text);
    lemma_trimmed_at_the_end(middle);
    let k = text.len() - middle.len();
    let n = trimmed(text).len();
    assert(text.subrange(k, k + n) =~= trimmed(text));
    assert forall|i: int| k + n <= i < text.len() implies unicode_white_space(#[trigger] text[i]) by {
        assert(middle[i - k] == text[i]);
    }
    if n > 0 {
        assert(trimmed(text)[0] == middle[0]);
    }
}

/// Of two different texts one comes before the other: the one that ends first where they agree until
/// then, and else the one whose first differing character is the smaller.
pub proof fn law_texts_are_ordered(left: Seq<char>, right: Seq<char>, k: int)
    requires
        0 <= k <= left.len(),
        k <= right.len(),
        forall|i: int| 0 <= i < k ==> left[i] == right[i],
    ensures
        k == left.len() && k < right.len() ==> text_before(left, right) && !text_before(
            right,
            left,
        ),
        k < left.len() && k < right.len() && left[k] < right[k] ==> text_before(left, right)
            && !text_before(right, left),
        k == left.len() && k == right.len() ==> !text_before(left, right) && !text_before(
            right,
            left,
        ),
{
    if k < right.len() && (k == left.len() || left[k] < right[k]) {
        assert(crate::text::before_at(left, right, k));
    }
    if text_before(right, left) {
        let m = choose|m: int| crate::text::before_at(right, left, m);
        if m < k {
            assert(left[m] == right[m]);
        }
    }
    if text_before(left, right) {
        let m = choose|m: int| crate::text::before_at(left, right, m);
        if m < k {
            assert(left[m] == right[m]);
        }
    }
}

/// White space is not a word.
proof fn lemma_blanks_have_no_words(text: Seq<char>, blank: Seq<char>)
    requires
        forall|i: int| 0 <= i < blank.len() ==> unicode_white_space(#[trigger] blank[i]),
    ensures
        words(text + blank) == words(text),
    decreases blank.len(),
{
    let all = text + blank;
    if blank.len() == 0 {
        assert(all =~= text);
    } else {
        assert(unicode_white_space(blank[blank.len() - 1]));
        assert(all.drop_last() =~= text + blank.drop_last());
        lemma_blanks_have_no_words(text, blank.drop_last());
    }
}

/// A word behind white space, or at the start, is a word of its own: the words of a text are those
/// before it, and it.
pub proof fn law_words_stand_between_white_space(
    text: Seq<char>,
    blank: Seq<char>,
    word: Seq<char>,
)
    requires
        forall|i: int| 0 <= i < blank.len() ==> unicode_white_space(#[trigger] blank[i]),
        forall|i: int| 0 <= i < word.len() ==> !unicode_white_space(#[trigger] word[i]),
        word.len() > 0,
        blank.len() > 0 || text.len() == 0,
    ensures
        words(text + blank) == words(text),
        words(text + blank + word) == words(text).push(word),
    decreases word.len(),
{
    lemma_blanks_have_no_words(text, blank);
    let all = text + blank + word;
    let c = word[word.len() - 1];
    assert(!unicode_white_space(c));
    let before = word.drop_last();
    assert(all.drop_last() =~= text + blank + before);
    if before.len() == 0 {
        assert(text + blank + before =~= text + blank);
        if all.len() > 1 {
            assert(all[all.len() - 2] == blank[blank.len() - 1]);
        }
        assert(word =~= seq![c]);
    } else {
        law_words_stand_between_white_space(text, blank, before);
        assert(all[all.len() - 2] == before[before.len() - 1]);
        assert(!unicode_white_space(word[word.len() - 2]));
        assert(before.push(c) =~= word);
        assert(words(text).push(before).drop_last() =~= words(text));
    }
}

/// An empty text has no words.
pub proof fn law_nothing_has_no_words(text: Seq<char>)
    requires
        text.len() == 0,
    ensures
        words(text).len() == 0,
{
}

proof fn lemma_behind_the_last_parenthesis(head: Seq<char>, rest: Seq<char>)
    requires
        !rest.contains(')'),
    ensures
        behind_parenthesis(head.push(')') + rest) == Some(rest),
    decreases rest.len(),
{
    let text = head.push(')') + rest;
    if rest.len() == 0 {
        assert(text =~= head.push(')'));
        assert(rest =~= Seq::<char>::empty());
    } else {
        let c = rest[rest.len() - 1];
        assert(rest.contains(c));
        let before = rest.drop_last();
        assert(!before.contains(')')) by {
            if before.contains(')') {
                let k = choose|k: int| 0 <= k < before.len() && before[k] == ')';
                assert(rest[k] == ')');
            }
        }
        lemma_behind_the_last_parenthesis(head, before);
        assert(text.drop_last() =~= head.push(')') + before);
        assert(before.push(c) =~= rest);
    }
}

/// When a process started is the twentieth word behind the last parenthesis of what the system says
/// of it, where that is a number of 64 bits; the name in the parentheses may hold anything.
pub proof fn law_start_ticks_stand_behind_the_name(head: Seq<char>, rest: Seq<char>)
    requires
        !rest.contains(')'),
    ensures
        words(rest).len() < 20 ==> start_ticks_of(head.push(')') + rest) is None,
        words(rest).len() >= 20 ==> start_ticks_of(head.push(')') + rest) == unsigned_number(
            words(rest)[19],
        ),
{
    lemma_behind_the_last_parenthesis(head, rest);
}

/// Without a parenthesis nothing is known of when a process started.
pub proof fn law_start_ticks_need_a_parenthesis(text: Seq<char>)
    requires
        !text.contains(')'),
    ensures
        behind_parenthesis(text) is None,
        start_ticks_of(text) is None,
    decreases text.len(),
{
    if text.len() > 0 {
        assert(text.contains(text[text.len() - 1]));
        let before = text.drop_last();
        assert(!before.contains(')')) by {
            if before.contains(')') {
                let k = choose|k: int| 0 <= k < before.len() && before[k] == ')';
                assert(text[k] == ')');
            }
        }
        law_start_ticks_need_a_parenthesis(before);
    }
}

/// A number may have a plus before its digits, and must fit in 64 bits.
pub proof fn law_unsigned_numbers_may_have_a_plus(digits: Seq<char>)
    ensures
        unsigned_number(seq!['+'] + digits) == digits_up_to(digits, 0xffff_ffff_ffff_ffff),
        digits.len() > 0 && '0' <= digits[0] <= '9' ==> unsigned_number(digits) == digits_up_to(
            digits,
            0xffff_ffff_ffff_ffff,
        ),
{
    assert((seq!['+'] + digits).drop_first() =~= digits);
}

/// Two temporary files of one file and one process have the same name only where they have the same
/// number.
pub proof fn law_temporary_names_tell_writes_apart(
    file_name: Seq<char>,
    pid: u32,
    left: u64,
    right: u64,
)
    requires
        temporary_name(file_name, pid, left) == temporary_name(file_name, pid, right),
    ensures
        left == right,
{
    let head = "."@ + file_name + "."@ + decimal(pid as nat) + "."@;
    let a = decimal(left as nat);
    let b = decimal(right as nat);
    let end = ".tmp"@;
    let whole = temporary_name(file_name, pid, left);
    assert(whole == head + a + end);
    assert(whole == head + b + end);
    assert(a.len() == b.len()) by {
        assert((head + a + end).len() == head.len() + a.len() + end.len());
        assert((head + b + end).len() == head.len() + b.len() + end.len());
    }
    assert(whole.subrange(head.len() as int, (head.len() + a.len()) as int) =~= a);
    assert(whole.subrange(head.len() as int, (head.len() + b.len()) as int) =~= b);
    crate::text::lemma_decimal_numeral(left as nat);
    crate::text::lemma_decimal_numeral(right as nat);
}

/// A member stands in the object that is written of it.
pub proof fn lemma_member_stands_in_braces(members: Seq<Seq<char>>, i: int)
    requires
        0 <= i < members.len(),
    ensures
        stands_in(members[i], braced(members)),
{
    lemma_part_stands_in_join(members, i);
    lemma_stands_between("{"@, comma_joined(members), "}"@);
    lemma_stands_within(members[i], comma_joined(members), braced(members));
}

/// The main limit goes by its own id, or by the program's name where it has none.
pub proof fn law_the_main_limit_has_an_id(limit: LimitData)
    ensures
        limit.limit_id matches Some(id) ==> id.len() > 0 ==> main_limit_id(limit) == id,
        limit.limit_id is None || limit.limit_id->0.len() == 0 ==> main_limit_id(limit) == "codex"@,
        main_limit_id(limit).len() > 0,
{
    reveal_strlit("codex");
}

/// All limits are those by id, and the main limit behind them where none has its id; one that has it
/// stands for the main limit.
pub proof fn law_all_limits_are_told(usage: UsageData, i: int)
    ensures
        ({
            let id = main_limit_id(usage.rate_limits);
            let named = exists|j: int|
                0 <= j < usage.by_id.len() && (#[trigger] usage.by_id[j]).0 == id;
            &&& 0 <= i < usage.by_id.len() ==> all_limits(usage)[i] == usage.by_id[i]
            &&& named ==> all_limits(usage).len() == usage.by_id.len()
            &&& !named ==> all_limits(usage).len() == usage.by_id.len() + 1 && all_limits(
                usage,
            ).last() == (id, usage.rate_limits)
        }),
{
}

/// Every limit stands in the published usage under its id, beside the version of the document, the
/// time, the process, whether ordinary usage is allowed, and how many resets are left.
#[verifier::spinoff_prover]
#[verifier::rlimit(60)]
pub proof fn law_published_usage_tells_every_limit(
    usage: UsageData,
    process: ProcessIdentity,
    now_ms: u64,
    i: int,
)
    requires
        crate::usage::names_distinct(usage.by_id),
    ensures
        ({
            let text = usage_json(usage, process, now_ms);
            let limits = all_limits(usage);
            &&& stands_in("\"schema\":\"codex.account-usage-state/v1\""@, text)
            &&& stands_in("\"updated_at_unix_ms\":"@ + decimal(now_ms as nat), text)
            &&& stands_in("\"process\":"@ + process_json(process), text)
            &&& usage.ordinary_usage_allowed == Some(true) ==> stands_in(
                "\"ordinary_usage_allowed\":"@ + "true"@,
                text,
            )
            &&& usage.ordinary_usage_allowed == Some(false) ==> stands_in(
                "\"ordinary_usage_allowed\":"@ + "false"@,
                text,
            )
            &&& usage.ordinary_usage_allowed is None ==> stands_in(
                "\"ordinary_usage_allowed\":"@ + "null"@,
                text,
            )
            &&& usage.reset_credits_available matches Some(n) ==> stands_in(
                "\"rate_limit_reset_credits_available\":"@ + signed_decimal(n as int),
                text,
            )
            &&& usage.reset_credits_available is None ==> stands_in(
                "\"rate_limit_reset_credits_available\":"@ + "null"@,
                text,
            )
            &&& 0 <= i < limits.len() ==> stands_in(
                json_literal(limits[i].0) + ":"@ + limit_json(limits[i].0, limits[i].1),
                text,
            )
        }),
{
    let text = usage_json(usage, process, now_ms);
    let limits = all_limits(usage);
    let ordered = in_order(written_limits(limits));
    let entries = entry_members(ordered);
    let members = seq![
        "\"schema\":\"codex.account-usage-state/v1\""@,
        "\"updated_at_unix_ms\":"@ + decimal(now_ms as nat),
        "\"process\":"@ + process_json(process),
        "\"ordinary_usage_allowed\":"@ + or_null(optional_truth(usage.ordinary_usage_allowed)),
        "\"rate_limits_by_limit_id\":"@ + braced(entries),
        "\"rate_limit_reset_credits_available\":"@ + or_null(
            optional_signed_decimal(usage.reset_credits_available),
        ),
    ];
    assert(text == braced(members));
    lemma_member_stands_in_braces(members, 0);
    lemma_member_stands_in_braces(members, 1);
    lemma_member_stands_in_braces(members, 2);
    lemma_member_stands_in_braces(members, 3);
    lemma_member_stands_in_braces(members, 4);
    lemma_member_stands_in_braces(members, 5);
    if 0 <= i < limits.len() {
        crate::usage::law_main_limit_is_published(usage);
        crate::usage::law_limits_are_in_order(written_limits(limits));
        let entry = (limits[i].0, limit_json(limits[i].0, limits[i].1));
        assert(written_limits(limits)[i] == entry);
        assert(written_limits(limits).contains(entry));
        assert(ordered.contains(entry));
        let k = choose|k: int| 0 <= k < ordered.len() && ordered[k] == entry;
        assert(entries[k] == json_literal(entry.0) + ":"@ + entry.1);
        lemma_member_stands_in_braces(entries, k);
        let name = "\"rate_limits_by_limit_id\":"@;
        lemma_stands_between(name, braced(entries), Seq::empty());
        assert(name + braced(entries) + Seq::<char>::empty() =~= members[4]);
        lemma_stands_within(entries[k], braced(entries), members[4]);
        lemma_stands_within(entries[k], members[4], text);
    }
}

/// What is told of a limit: its id, and its name, its windows and its credits as far as it has them.
pub proof fn law_limits_are_told_in_full(limit_id: Seq<char>, limit: LimitData)
    ensures
        ({
            let text = limit_json(limit_id, limit);
            &&& stands_in("\"limit_id\":"@ + json_literal(limit_id), text)
            &&& limit.limit_name matches Some(name) ==> stands_in(
                "\"name\":"@ + json_literal(name),
                text,
            )
            &&& limit.primary matches Some(window) ==> stands_in(
                "\"primary\":"@ + window_json(window),
                text,
            )
            &&& limit.secondary matches Some(window) ==> stands_in(
                "\"secondary\":"@ + window_json(window),
                text,
            )
            &&& limit.credits matches Some(credits) ==> stands_in(
                "\"credits\":"@ + credits_json(credits),
                text,
            )
        }),
{
    let a = seq!["\"limit_id\":"@ + json_literal(limit_id)];
    let b = optional_member("\"name\":"@, optional_literal(limit.limit_name));
    let c = optional_member("\"primary\":"@, crate::usage::optional_window(limit.primary));
    let d = optional_member("\"secondary\":"@, crate::usage::optional_window(limit.secondary));
    let e = optional_member("\"credits\":"@, crate::usage::optional_credits(limit.credits));
    let members = a + b + c + d + e;
    assert(limit_json(limit_id, limit) == braced(members));
    lemma_member_stands_in_braces(members, 0);
    assert(members[0] == a[0]);
    if b.len() > 0 {
        assert(members[1] == b[0]);
        lemma_member_stands_in_braces(members, 1);
    }
    if c.len() > 0 {
        let k = 1 + b.len() as int;
        assert(members[k] == c[0]);
        lemma_member_stands_in_braces(members, k);
    }
    if d.len() > 0 {
        let k = 1 + b.len() + c.len() as int;
        assert(members[k] == d[0]);
        lemma_member_stands_in_braces(members, k);
    }
    if e.len() > 0 {
        let k = 1 + b.len() + c.len() + d.len() as int;
        assert(members[k] == e[0]);
        lemma_member_stands_in_braces(members, k);
    }
}

/// What is told of a window: how far it is used up, and how long it is and when it starts anew as far
/// as that is known.
pub proof fn law_windows_are_told_in_full(window: RateLimitWindow)
    ensures
        ({
            let text = window_json(window);
            &&& stands_in("\"used_percent\":"@ + signed_decimal(window.used_percent as int), text)
            &&& window.window_duration_mins matches Some(n) ==> stands_in(
                "\"window_minutes\":"@ + signed_decimal(n as int),
                text,
            )
            &&& window.resets_at matches Some(n) ==> stands_in(
                "\"resets_at\":"@ + signed_decimal(n as int),
                text,
            )
        }),
{
    let a = seq!["\"used_percent\":"@ + signed_decimal(window.used_percent as int)];
    let b = optional_member(
        "\"window_minutes\":"@,
        optional_signed_decimal(window.window_duration_mins),
    );
    let c = optional_member("\"resets_at\":"@, optional_signed_decimal(window.resets_at));
    let members = a + b + c;
    assert(window_json(window) == braced(members));
    assert(members[0] == a[0]);
    lemma_member_stands_in_braces(members, 0);
    if b.len() > 0 {
        assert(members[1] == b[0]);
        lemma_member_stands_in_braces(members, 1);
    }
    if c.len() > 0 {
        let k = 1 + b.len() as int;
        assert(members[k] == c[0]);
        lemma_member_stands_in_braces(members, k);
    }
}

/// What is told of credits: whether there are any, whether without limit, and the balance where it is
/// known.
pub proof fn law_credits_are_told_in_full(credits: CreditsData)
    ensures
        ({
            let text = credits_json(credits);
            &&& credits.has_credits ==> stands_in("\"has_credits\":"@ + "true"@, text)
            &&& !credits.has_credits ==> stands_in("\"has_credits\":"@ + "false"@, text)
            &&& credits.unlimited ==> stands_in("\"unlimited\":"@ + "true"@, text)
            &&& !credits.unlimited ==> stands_in("\"unlimited\":"@ + "false"@, text)
            &&& credits.balance matches Some(balance) ==> stands_in(
                "\"balance\":"@ + json_literal(balance),
                text,
            )
        }),
{
    let a = seq![
        "\"has_credits\":"@ + truth_word(credits.has_credits),
        "\"unlimited\":"@ + truth_word(credits.unlimited),
    ];
    let b = optional_member("\"balance\":"@, optional_literal(credits.balance));
    let members = a + b;
    assert(credits_json(credits) == braced(members));
    assert(members[0] == a[0] && members[1] == a[1]);
    lemma_member_stands_in_braces(members, 0);
    lemma_member_stands_in_braces(members, 1);
    if b.len() > 0 {
        assert(members[2] == b[0]);
        lemma_member_stands_in_braces(members, 2);
    }
}

/// A process is told by its id, and by when it started where that is known.
pub proof fn law_processes_are_told_in_full(process: ProcessIdentity)
    ensures
        stands_in("\"pid\":"@ + decimal(process.pid as nat), process_json(process)),
        process.linux_start_ticks matches Some(ticks) ==> stands_in(
            "\"linux_start_ticks\":"@ + decimal(ticks as nat),
            process_json(process),
        ),
        process.linux_start_ticks is None ==> process_json(process) == "{"@ + ("\"pid\":"@ + decimal(
            process.pid as nat,
        )) + "}"@,
{
    let a = seq!["\"pid\":"@ + decimal(process.pid as nat)];
    let b = optional_member(
        "\"linux_start_ticks\":"@,
        crate::snapshot::optional_decimal(crate::snapshot::wide_number(process.linux_start_ticks)),
    );
    let members = a + b;
    assert(process_json(process) == braced(members));
    assert(members[0] == a[0]);
    lemma_member_stands_in_braces(members, 0);
    if b.len() > 0 {
        assert(members[1] == b[0]);
        lemma_member_stands_in_braces(members, 1);
    } else {
        assert(members =~= a);
    }
}

/// Neither an empty part nor a dot is a component of a path, wherever it stands.
pub proof fn law_dots_are_no_components(
    before: Seq<Seq<u8>>,
    dot: Seq<u8>,
    after: Seq<Seq<u8>>,
)
    requires
        dot.len() == 0 || dot == seq![46u8],
    ensures
        components(before + seq![dot] + after) == components(before + after),
    decreases after.len(),
{
    let all = before + seq![dot] + after;
    if after.len() == 0 {
        if dot.len() == 0 {
            assert(dot =~= Seq::<u8>::empty());
        }
        assert(all =~= before.push(dot));
        assert(before.push(dot).drop_last() =~= before);
        assert(before + after =~= before);
    } else {
        law_dots_are_no_components(before, dot, after.drop_last());
        assert(all.drop_last() =~= before + seq![dot] + after.drop_last());
        assert((before + after).drop_last() =~= before + after.drop_last());
    }
}

/// Every other part is a component, in its place.
pub proof fn law_all_other_parts_are_components(parts: Seq<Seq<u8>>)
    requires
        forall|i: int|
            0 <= i < parts.len() ==> (#[trigger] parts[i]).len() > 0 && parts[i] != seq![46u8],
    ensures
        components(parts) == parts,
    decreases parts.len(),
{
    if parts.len() > 0 {
        let last = parts[parts.len() - 1];
        assert(last.len() > 0 && last != seq![46u8]);
        assert forall|i: int| 0 <= i < parts.drop_last().len() implies (
        #[trigger] parts.drop_last()[i]).len() > 0 && parts.drop_last()[i] != seq![46u8] by {
            assert(parts.drop_last()[i] == parts[i]);
        }
        law_all_other_parts_are_components(parts.drop_last());
        assert(parts.drop_last().push(last) =~= parts);
    } else {
        assert(components(parts) =~= parts);
    }
}

/// The components of the path to an open file of a process.
pub open spec fn descriptor_link(pid: nat, descriptor: nat) -> Seq<Seq<u8>> {
    seq![
        encode_utf8("proc"@),
        encode_utf8(decimal(pid)),
        encode_utf8("fd"@),
        encode_utf8(decimal(descriptor)),
    ]
}

proof fn lemma_link_names()
    ensures
        encode_utf8("proc"@) == seq![112u8, 114u8, 111u8, 99u8],
        encode_utf8("fd"@) == seq![102u8, 100u8],
{
    reveal_strlit("proc");
    reveal_strlit("fd");
    is_ascii_chars_encode_utf8("proc"@);
    is_ascii_chars_encode_utf8("fd"@);
    assert(encode_utf8("proc"@) =~= seq![112u8, 114u8, 111u8, 99u8]);
    assert(encode_utf8("fd"@) =~= seq![102u8, 100u8]);
}

proof fn lemma_component_number(part: Seq<u8>, n: nat)
    ensures
        part == encode_utf8(decimal(n)) && n <= 0xffff_ffff ==> component_number(part) == Some(n),
        component_number(part) == Some(n) ==> part == encode_utf8(decimal(n)) && n <= 0xffff_ffff,
{
    if part == encode_utf8(decimal(n)) && n <= 0xffff_ffff {
        encode_utf8_valid_utf8(decimal(n));
        encode_utf8_decode_utf8(decimal(n));
        law_numbers_within_a_limit(decimal(n), 0);
    }
    if component_number(part) == Some(n) {
        law_numbers_within_a_limit(decode_utf8(part), 0);
        decode_utf8_encode_utf8(part);
    }
}

/// A path leads to an open file of a process exactly where it is absolute and its components are
/// `proc`, the number of a process, `fd` and a number, both numbers written in the only way that
/// they have and the first of them not zero.
#[verifier::spinoff_prover]
#[verifier::rlimit(60)]
pub proof fn law_paths_to_open_files(path: Seq<u8>, pid: nat, descriptor: nat)
    ensures
        path.len() > 0 && path[0] == 47 && 0 < pid <= 0xffff_ffff && descriptor <= 0xffff_ffff
            && components(path_parts(path)) == descriptor_link(pid, descriptor)
            ==> is_proc_fd_path(path),
        is_proc_fd_path(path) ==> path[0] == 47 && exists|p: nat, d: nat|
            0 < p <= 0xffff_ffff && d <= 0xffff_ffff && components(path_parts(path))
                == #[trigger] descriptor_link(p, d),
{
    let names = components(path_parts(path));
    lemma_link_names();
    if names == descriptor_link(pid, descriptor) {
        lemma_component_number(names[1], pid);
        lemma_component_number(names[3], descriptor);
    }
    if is_proc_fd_path(path) {
        let p = component_number(names[1])->0;
        let d = component_number(names[3])->0;
        lemma_component_number(names[1], p);
        lemma_component_number(names[3], d);
        assert(names =~= descriptor_link(p, d));
    }
}

/// A socket in a directory that is held open is told by one more component behind the path to an
/// open file; two dots there are no name. Every other path is an ordinary one.
#[verifier::spinoff_prover]
#[verifier::rlimit(60)]
pub proof fn law_sockets_in_open_directories(
    path: Seq<u8>,
    pid: nat,
    descriptor: nat,
    name: Seq<u8>,
)
    ensures
        path.len() > 0 && path[0] == 47 && 0 < pid <= 0xffff_ffff && descriptor <= 0xffff_ffff
            && components(path_parts(path)) == descriptor_link(pid, descriptor).push(name) ==> {
            &&& name == seq![46u8, 46u8] ==> socket_path_of(path) is NoName
            &&& name != seq![46u8, 46u8] ==> socket_path_of(path) == (SocketPathData::Retained {
                name,
            })
        },
        !(socket_path_of(path) is Ordinary) ==> path[0] == 47 && exists|p: nat, d: nat|
            0 < p <= 0xffff_ffff && d <= 0xffff_ffff && components(path_parts(path)).drop_last()
                == #[trigger] descriptor_link(p, d),
        socket_path_of(path) matches SocketPathData::Retained { name: found } ==> found
            == components(path_parts(path)).last() && found != seq![46u8, 46u8],
{
    let names = components(path_parts(path));
    lemma_link_names();
    if names == descriptor_link(pid, descriptor).push(name) {
        assert(names.drop_last() =~= descriptor_link(pid, descriptor));
        lemma_component_number(names.drop_last()[1], pid);
        lemma_component_number(names.drop_last()[3], descriptor);
    }
    if !(socket_path_of(path) is Ordinary) {
        let parent = names.drop_last();
        let p = component_number(parent[1])->0;
        let d = component_number(parent[3])->0;
        lemma_component_number(parent[1], p);
        lemma_component_number(parent[3], d);
        assert(parent =~= descriptor_link(p, d));
    }
}

/// A directory that is held open is used exactly where it is the one that the link leads to, by
/// everything that is known of it, is a directory, gives all rights to its owner and none to anybody
/// else, and both it and the link are of this user.
pub proof fn law_used_parents_are_private(
    link: FileFacts,
    followed: FileFacts,
    opened: FileFacts,
    current_uid: u32,
)
    ensures
        parent_private(link, followed, opened, current_uid) <==> {
            &&& followed.device == opened.device
            &&& followed.inode == opened.inode
            &&& followed.mode == opened.mode
            &&& followed.uid == opened.uid
            &&& followed.gid == opened.gid
            &&& opened.is_directory
            &&& opened.mode & 256 != 0 && opened.mode & 128 != 0 && opened.mode & 64 != 0
            &&& opened.mode & 56 == 0
            &&& opened.mode & 7 == 0
            &&& link.uid == current_uid
            &&& opened.uid == current_uid
        },
        directories_agree(followed, opened) <==> followed.device == opened.device && followed.inode
            == opened.inode && followed.mode == opened.mode && followed.uid == opened.uid
            && followed.gid == opened.gid,
{
    let mode = opened.mode;
    assert(mode & 511 == 448 <==> mode & 256 != 0 && mode & 128 != 0 && mode & 64 != 0 && mode & 56
        == 0 && mode & 7 == 0) by (bit_vector);
}

/// What becomes of a socket file in the end: it is in the way exactly where a connection was refused
/// and it is no stale socket, and the error of connecting stands where any other error met a file
/// that is there.
pub proof fn law_socket_files_in_the_way(
    outcome: ConnectOutcome,
    present: bool,
    stale_socket: bool,
)
    ensures
        socket_file_end(outcome, present, stale_socket) == SocketFileNext::NotASocket <==> outcome
            == ConnectOutcome::Refused && present && !stale_socket,
        socket_file_end(outcome, present, stale_socket) == SocketFileNext::Fail <==> outcome
            == ConnectOutcome::Failed && present,
        socket_file_end(outcome, present, stale_socket) != SocketFileNext::AskExists,
        socket_file_end(outcome, present, stale_socket) != SocketFileNext::AskExistsOrFail,
        socket_file_end(outcome, present, stale_socket) != SocketFileNext::AskStale,
{
}

/// A socket in an open directory is reached through that directory, whatever its path was.
pub proof fn law_anchored_paths_lead_through_the_descriptor(descriptor: u32, name: Seq<u8>)
    ensures
        encode_utf8("/proc/self/fd/"@).is_prefix_of(anchored_path_of(descriptor, name)),
        anchored_path_of(descriptor, name).skip(
            anchored_path_of(descriptor, name).len() - name.len(),
        ) == name,
        anchored_path_of(descriptor, name) == encode_utf8("/proc/self/fd/"@) + encode_utf8(
            decimal(descriptor as nat),
        ) + seq![47u8] + name,
{
    crate::text::lemma_bytes_of_join("/proc/self/fd/"@, decimal(descriptor as nat));
    let all = anchored_path_of(descriptor, name);
    let head = encode_utf8("/proc/self/fd/"@);
    assert(all =~= head + encode_utf8(decimal(descriptor as nat)) + seq![47u8] + name);
    assert(head =~= all.take(head.len() as int));
    assert(all.skip(all.len() - name.len()) =~= name);
}

/// The acceptor goes on at once after an error of a single connection, and after a second after any
/// other.
pub proof fn law_acceptors_wait_after_their_own_errors(error: AcceptError)
    ensures
        error == AcceptError::Other ==> accept_delay(error) == 1000,
        error != AcceptError::Other ==> accept_delay(error) == 0,
        CONTROL_SOCKET_MODE == 0o600,
{
}

/// What is told of a directory that cannot hold the socket.
pub proof fn law_parent_faults_are_told(fault: ParentFault)
    ensures
        fault == ParentFault::NoFileName ==> parent_fault_message(fault)
            == "proc-fd control socket path has no file name"@,
        fault == ParentFault::NotADescriptor ==> parent_fault_message(fault)
            == "proc-fd control socket parent is not a descriptor link"@,
        fault == ParentFault::NotPrivate ==> parent_fault_message(fault)
            == "proc-fd control socket parent is not one owner-private directory"@,
{
}

} // verus!
