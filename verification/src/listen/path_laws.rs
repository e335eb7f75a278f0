//! What a listener's command keeps to: how its paths are resolved and told apart, and which commands
//! are carried out.

use vstd::prelude::*;
use vstd::string::*;
use vstd::utf8::*;

use crate::atom::is_atom;
use crate::listen::command::{
    absolute_path, command_fault, comparable_path, file_name, inbox_aliased, last_slash, lock_path,
    path_parts, period_fault, rooted, walked, CommandError, ListenCommand, ListenerPaths,
    PathLookup,
};

verus! {

/// Parts with a slash between each two of them.
pub open spec fn slashed(parts: Seq<Seq<u8>>) -> Seq<u8>
    decreases parts.len(),
{
    if parts.len() == 0 {
        Seq::empty()
    } else if parts.len() == 1 {
        parts[0]
    } else {
        slashed(parts.drop_last()) + seq![47u8] + parts.last()
    }
}

/// A path is split at its slashes and nowhere else: no part holds one, and with slashes between
/// them the parts make up the path again.
pub proof fn law_paths_are_split_at_slashes(path: Seq<u8>)
    ensures
        path_parts(path).len() > 0,
        slashed(path_parts(path)) == path,
        forall|i: int|
            0 <= i < path_parts(path).len() ==> !(#[trigger] path_parts(path)[i]).contains(47u8),
    decreases path.len(),
{
    let parts = path_parts(path);
    if path.len() == 0 {
        assert(slashed(parts) =~= path);
    } else {
        let c = path.last();
        let before = path_parts(path.drop_last());
        law_paths_are_split_at_slashes(path.drop_last());
        assert(path =~= path.drop_last().push(c));
        if c == 47 {
            assert(parts.drop_last() =~= before);
            assert(slashed(parts) =~= path);
        } else {
            let kept = before.drop_last();
            let last = before.last().push(c);
            assert(parts =~= kept.push(last));
            assert(parts.drop_last() =~= kept);
            assert(!last.contains(47u8)) by {
                if last.contains(47u8) {
                    let k = choose|k: int| 0 <= k < last.len() && last[k] == 47u8;
                    assert(before[before.len() - 1][k] == 47u8);
                    assert(before[before.len() - 1].contains(47u8));
                }
            }
            assert(slashed(parts) =~= path);
            assert forall|i: int| 0 <= i < parts.len() implies !(#[trigger] parts[i]).contains(
                47u8,
            ) by {
                if i < kept.len() {
                    assert(parts[i] == before[i]);
                }
            }
        }
    }
}

/// A part that names something: not empty, not a dot and not two.
pub open spec fn is_name(part: Seq<u8>) -> bool {
    part.len() > 0 && part != seq![46u8] && part != seq![46u8, 46u8]
}

/// A walk over names alone goes through all of them.
pub proof fn law_names_are_walked(names: Seq<Seq<u8>>)
    requires
        forall|i: int| 0 <= i < names.len() ==> is_name(#[trigger] names[i]),
    ensures
        walked(names) == names,
    decreases names.len(),
{
    if names.len() > 0 {
        let last = names[names.len() - 1];
        assert(is_name(last));
        assert forall|i: int| 0 <= i < names.drop_last().len() implies is_name(
            #[trigger] names.drop_last()[i],
        ) by {
            assert(names.drop_last()[i] == names[i]);
        }
        law_names_are_walked(names.drop_last());
        assert(last != Seq::<u8>::empty());
        assert(names.drop_last().push(last) =~= names);
    } else {
        assert(walked(names) =~= names);
    }
}

/// A walk ends at names alone, each of them one of its parts.
pub proof fn law_walks_end_at_names(parts: Seq<Seq<u8>>)
    ensures
        forall|i: int|
            0 <= i < walked(parts).len() ==> is_name(#[trigger] walked(parts)[i])
                && parts.contains(walked(parts)[i]),
        walked(parts).len() <= parts.len(),
    decreases parts.len(),
{
    if parts.len() > 0 {
        let before = walked(parts.drop_last());
        law_walks_end_at_names(parts.drop_last());
        assert forall|i: int| 0 <= i < walked(parts).len() implies is_name(
            #[trigger] walked(parts)[i],
        ) && parts.contains(walked(parts)[i]) by {
            if i < before.len() {
                assert(walked(parts)[i] == before[i]);
                let k = choose|k: int|
                    0 <= k < parts.drop_last().len() && parts.drop_last()[k] == before[i];
                assert(parts[k] == before[i]);
            } else {
                assert(parts[parts.len() - 1] == walked(parts)[i]);
                if parts.last().len() == 0 {
                    assert(parts.last() =~= Seq::<u8>::empty());
                }
            }
        }
    }
}

/// Neither an empty part nor a dot leads anywhere, wherever it stands.
pub proof fn law_dots_lead_nowhere(before: Seq<Seq<u8>>, dot: Seq<u8>, after: Seq<Seq<u8>>)
    requires
        dot.len() == 0 || dot == seq![46u8],
    ensures
        walked(before + seq![dot] + after) == walked(before + after),
    decreases after.len(),
{
    let all = before + seq![dot] + after;
    if after.len() == 0 {
        if dot.len() == 0 {
            assert(dot =~= Seq::<u8>::empty());
        }
        assert(all =~= before.push(dot));
        assert(before.push(dot).drop_last() =~= before);
        assert(before + after =~= before);
    } else {
        law_dots_lead_nowhere(before, dot, after.drop_last());
        assert(all.drop_last() =~= before + seq![dot] + after.drop_last());
        assert((before + after).drop_last() =~= before + after.drop_last());
    }
}

/// There is nothing above the root.
pub proof fn law_nothing_lies_above_the_root(after: Seq<Seq<u8>>)
    ensures
        walked(seq![seq![46u8, 46u8]] + after) == walked(after),
    decreases after.len(),
{
    let up = seq![46u8, 46u8];
    let all = seq![up] + after;
    if after.len() == 0 {
        assert(all =~= seq![up]);
        assert(all.drop_last() =~= Seq::<Seq<u8>>::empty());
        assert(up.len() == 2 && seq![46u8].len() == 1);
        assert(all.last() == up);
        assert(walked(Seq::<Seq<u8>>::empty()) =~= Seq::<Seq<u8>>::empty());
        assert(after =~= Seq::<Seq<u8>>::empty());
        assert(walked(all) == walked(Seq::<Seq<u8>>::empty()));
    } else {
        law_nothing_lies_above_the_root(after.drop_last());
        assert(all.drop_last() =~= seq![up] + after.drop_last());
    }
}

pub proof fn lemma_split_behind_a_slash(head: Seq<u8>, name: Seq<u8>)
    requires
        !name.contains(47u8),
    ensures
        path_parts(head + seq![47u8] + name) == path_parts(head).push(name),
    decreases name.len(),
{
    let path = head + seq![47u8] + name;
    if name.len() == 0 {
        assert(path =~= head.push(47u8));
        assert(path.drop_last() =~= head);
        assert(name =~= Seq::<u8>::empty());
    } else {
        let c = name[name.len() - 1];
        assert(name.contains(c));
        assert forall|b: u8| name.drop_last().contains(b) implies name.contains(b) by {
            let k = choose|k: int| 0 <= k < name.drop_last().len() && name.drop_last()[k] == b;
            assert(name[k] == b);
        }
        lemma_split_behind_a_slash(head, name.drop_last());
        assert(path.drop_last() =~= head + seq![47u8] + name.drop_last());
        let before = path_parts(path.drop_last());
        assert(before.drop_last() =~= path_parts(head));
        assert(name.drop_last().push(c) =~= name);
        assert(path_parts(path) =~= path_parts(head).push(name));
    }
}

/// The path to some names below the root is split into just these names.
pub proof fn law_rooted_paths_are_split_into_their_names(names: Seq<Seq<u8>>)
    requires
        forall|i: int| 0 <= i < names.len() ==> !(#[trigger] names[i]).contains(47u8),
        names.len() > 0,
    ensures
        path_parts(rooted(names)) == seq![Seq::<u8>::empty()] + names,
        rooted(names)[0] == 47,
    decreases names.len(),
{
    let last = names[names.len() - 1];
    assert(!last.contains(47u8));
    if names.len() == 1 {
        lemma_split_behind_a_slash(Seq::empty(), last);
        assert(Seq::<u8>::empty() + seq![47u8] + last =~= rooted(names));
        assert(path_parts(Seq::<u8>::empty()) =~= seq![Seq::<u8>::empty()]);
        assert(seq![Seq::<u8>::empty()].push(last) =~= seq![Seq::<u8>::empty()] + names);
    } else {
        let earlier = names.drop_last();
        assert forall|i: int| 0 <= i < earlier.len() implies !(#[trigger] earlier[i]).contains(
            47u8,
        ) by {
            assert(earlier[i] == names[i]);
        }
        law_rooted_paths_are_split_into_their_names(earlier);
        lemma_split_behind_a_slash(rooted(earlier), last);
        assert((seq![Seq::<u8>::empty()] + earlier).push(last) =~= seq![Seq::<u8>::empty()]
            + names);
        assert(rooted(names)[0] == rooted(earlier)[0]);
    }
}

#[verifier::spinoff_prover]
#[verifier::rlimit(60)]
proof fn lemma_resolved_is_settled(parts: Seq<Seq<u8>>)
    requires
        forall|i: int| 0 <= i < parts.len() ==> !(#[trigger] parts[i]).contains(47u8),
    ensures
        rooted(walked(parts)).len() > 0,
        rooted(walked(parts))[0] == 47,
        rooted(walked(path_parts(rooted(walked(parts))))) == rooted(walked(parts)),
        walked(path_parts(rooted(walked(parts)))) == walked(parts),
{
    let names = walked(parts);
    law_walks_end_at_names(parts);
    assert forall|i: int| 0 <= i < names.len() implies !(#[trigger] names[i]).contains(47u8) by {
        let k = choose|k: int| 0 <= k < parts.len() && parts[k] == names[i];
        assert(!parts[k].contains(47u8));
    }
    law_names_are_walked(names);
    if names.len() > 0 {
        law_rooted_paths_are_split_into_their_names(names);
        law_dots_lead_nowhere(Seq::empty(), Seq::empty(), names);
        assert(Seq::<Seq<u8>>::empty() + seq![Seq::<u8>::empty()] + names =~= seq![
            Seq::<u8>::empty(),
        ] + names);
        assert(Seq::<Seq<u8>>::empty() + names =~= names);
    } else {
        let root = seq![47u8];
        assert(root.drop_last() =~= Seq::<u8>::empty());
        assert(path_parts(Seq::<u8>::empty()) =~= seq![Seq::<u8>::empty()]);
        assert(path_parts(root) =~= seq![Seq::<u8>::empty(), Seq::<u8>::empty()]);
        law_dots_lead_nowhere(
            Seq::empty(),
            Seq::empty(),
            seq![Seq::<u8>::empty()],
        );
        law_dots_lead_nowhere(Seq::empty(), Seq::empty(), Seq::empty());
        assert(Seq::<Seq<u8>>::empty() + seq![Seq::<u8>::empty()] + seq![Seq::<u8>::empty()]
            =~= path_parts(root));
        assert(Seq::<Seq<u8>>::empty() + seq![Seq::<u8>::empty()] =~= seq![Seq::<u8>::empty()]);
        assert(Seq::<Seq<u8>>::empty() + seq![Seq::<u8>::empty()] + Seq::<Seq<u8>>::empty()
            =~= seq![Seq::<u8>::empty()]);
        assert(Seq::<Seq<u8>>::empty() + Seq::<Seq<u8>>::empty() =~= Seq::<Seq<u8>>::empty());
        assert(names =~= Seq::<Seq<u8>>::empty());
    }
}

/// A resolved path starts at the root and resolves to itself from every directory. An absolute path
/// resolves alike from every directory, and a relative one as what stands behind the directory.
pub proof fn law_resolved_paths_are_absolute(
    directory: Seq<u8>,
    path: Seq<u8>,
    elsewhere: Seq<u8>,
)
    ensures
        ({
            let resolved = absolute_path(directory, path);
            &&& resolved.len() > 0
            &&& resolved[0] == 47
            &&& absolute_path(elsewhere, resolved) == resolved
            &&& path.len() > 0 && path[0] == 47 ==> absolute_path(elsewhere, path) == resolved
            &&& !(path.len() > 0 && path[0] == 47) && directory.len() > 0 && directory[0] == 47
                ==> resolved == absolute_path(elsewhere, directory + seq![47u8] + path)
        }),
{
    let whole = directory + seq![47u8] + path;
    law_paths_are_split_at_slashes(path);
    law_paths_are_split_at_slashes(whole);
    if path.len() > 0 && path[0] == 47 {
        lemma_resolved_is_settled(path_parts(path));
    } else {
        lemma_resolved_is_settled(path_parts(whole));
        if directory.len() > 0 {
            assert(whole[0] == directory[0]);
        }
    }
}

/// No component of a resolved path is empty, a dot or two.
pub proof fn law_resolved_paths_have_no_dots(directory: Seq<u8>, path: Seq<u8>)
    ensures
        ({
            let names = walked(path_parts(absolute_path(directory, path)));
            &&& absolute_path(directory, path) == rooted(names)
            &&& forall|i: int| 0 <= i < names.len() ==> is_name(#[trigger] names[i])
        }),
{
    let whole = directory + seq![47u8] + path;
    law_paths_are_split_at_slashes(path);
    law_paths_are_split_at_slashes(whole);
    let parts = if path.len() > 0 && path[0] == 47 {
        path_parts(path)
    } else {
        path_parts(whole)
    };
    lemma_resolved_is_settled(parts);
    law_walks_end_at_names(parts);
}

proof fn lemma_last_slash(path: Seq<u8>)
    ensures
        -1 <= last_slash(path) < path.len(),
        last_slash(path) >= 0 ==> path[last_slash(path)] == 47,
        forall|i: int| last_slash(path) < i < path.len() ==> #[trigger] path[i] != 47,
    decreases path.len(),
{
    if path.len() > 0 {
        let rest = path.drop_last();
        lemma_last_slash(rest);
        assert forall|i: int| 0 <= i < rest.len() implies #[trigger] path[i] == rest[i] by {}
    }
}

/// The file name of a path is what stands behind its last slash.
pub proof fn law_file_names_stand_behind_the_last_slash(directory: Seq<u8>, name: Seq<u8>)
    requires
        !name.contains(47u8),
    ensures
        file_name(directory + seq![47u8] + name) == name,
        file_name(name) == name,
{
    let path = directory + seq![47u8] + name;
    lemma_last_slash(path);
    lemma_last_slash(name);
    let k = last_slash(path);
    assert(path[directory.len() as int] == 47);
    if k > directory.len() {
        assert(path[k] == name[k - directory.len() - 1]);
        assert(name.contains(47u8));
    }
    assert(path.skip(k + 1) =~= name);
    if last_slash(name) >= 0 {
        assert(name.contains(47u8));
    }
    assert(name.skip(0) =~= name);
}

/// Paths are told apart by what they stand for: by the file itself where there is one, and else by
/// the name in the directory itself where there is that.
pub proof fn law_paths_are_compared_without_links(
    directory: Seq<u8>,
    name: Seq<u8>,
    lookup: PathLookup,
)
    requires
        !name.contains(47u8),
        name.len() > 0,
    ensures
        ({
            let path = directory + seq![47u8] + name;
            &&& lookup.canonical matches Some(file) ==> comparable_path(path, lookup) == file@
            &&& lookup.canonical is None ==> (lookup.canonical_parent matches Some(parent) ==> (
            parent@.len() == 0 || parent@.last() != 47) ==> comparable_path(path, lookup) == parent@
                + seq![47u8] + name)
            &&& lookup.canonical is None && lookup.canonical_parent is None ==> comparable_path(
                path,
                lookup,
            ) == path
        }),
{
    law_file_names_stand_behind_the_last_slash(directory, name);
}

/// An inbox may not be the state file nor the lock beside it, neither by its path nor by what its
/// path stands for.
pub proof fn law_the_inbox_is_a_file_of_its_own(
    paths: ListenerPaths,
    events: (Vec<u8>, PathLookup),
)
    ensures
        paths.events is None ==> !inbox_aliased(paths),
        paths.events == Some(events) ==> (inbox_aliased(paths) <==> {
            let lock = paths.state.0@ + encode_utf8(".lock"@);
            ||| events.0@ == paths.state.0@
            ||| comparable_path(events.0@, events.1) == comparable_path(
                paths.state.0@,
                paths.state.1,
            )
            ||| events.0@ == lock
            ||| comparable_path(events.0@, events.1) == comparable_path(lock, paths.lock)
        }),
        lock_path(paths.state.0@) == paths.state.0@ + encode_utf8(".lock"@),
{
    lemma_lock_suffix();
}

proof fn lemma_lock_suffix()
    ensures
        encode_utf8(".lock"@) == seq![46u8, 108u8, 111u8, 99u8, 107u8],
{
    reveal_strlit(".lock");
    let text = ".lock"@;
    assert(is_ascii_chars(text));
    is_ascii_chars_encode_utf8(text);
    assert(encode_utf8(text) =~= seq![46u8, 108u8, 111u8, 99u8, 107u8]);
}

/// A command is carried out exactly where its thread is a safe atom of at most 128 bytes, its inbox
/// is a file of its own, it listens for events or keeps a cadence, a cadence is at least a minute
/// and no more seconds than a time can have, and it polls no more often than ten times a second.
pub proof fn law_commands_that_are_carried_out(command: ListenCommand, paths: ListenerPaths)
    ensures
        command_fault(command, paths) is None <==> {
            &&& is_atom(command.thread_id@, 128, true)
            &&& !inbox_aliased(paths)
            &&& command.events is Some || command.periodic_seconds is Some
            &&& command.periodic_seconds matches Some(seconds) ==> 60 <= seconds
                <= 0x7fff_ffff_ffff_ffff
            &&& command.poll_millis >= 100
        },
        is_atom(command.thread_id@, 128, true) && inbox_aliased(paths) ==> command_fault(
            command,
            paths,
        ) == Some(CommandError::PathsAlias),
        is_atom(command.thread_id@, 128, true) && !inbox_aliased(paths) ==> {
            &&& command.events is None && command.periodic_seconds is None <==> command_fault(
                command,
                paths,
            ) == Some(CommandError::NothingToDo)
            &&& command.periodic_seconds matches Some(seconds) ==> {
                &&& seconds < 60 <==> command_fault(command, paths) == Some(
                    CommandError::PeriodTooShort,
                )
                &&& seconds > 0x7fff_ffff_ffff_ffff <==> command_fault(command, paths) == Some(
                    CommandError::PeriodTooLong,
                )
            }
        },
        command_fault(command, paths) == Some(CommandError::PollTooShort) ==> command.poll_millis
            < 100,
        !is_atom(command.thread_id@, 128, true) <==> (command_fault(command, paths) matches Some(
            CommandError::ThreadId { .. },
        )),
{
}

/// A cadence is accepted from a minute on, up to the most seconds that a time can have.
pub proof fn law_accepted_cadences(seconds: u64)
    ensures
        period_fault(None) is None,
        period_fault(Some(seconds)) is None <==> 60 <= seconds <= 0x7fff_ffff_ffff_ffff,
        seconds < 60 ==> period_fault(Some(seconds)) == Some(CommandError::PeriodTooShort),
        seconds > 0x7fff_ffff_ffff_ffff ==> period_fault(Some(seconds)) == Some(
            CommandError::PeriodTooLong,
        ),
{
}

} // verus!
