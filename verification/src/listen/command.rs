//! What a listener is asked to do, and when that is refused.

use vstd::prelude::*;
use vstd::slice::*;
use vstd::string::*;

use crate::atom::{atom_fault, atom_fault_message, spell_atom_fault, validate_atom, AtomFault};

verus! {

/// The shortest cadence in seconds.
pub const MIN_PERIODIC_SECONDS: u64 = 60;

/// The longest cadence that signed time arithmetic can hold.
pub const MAX_PERIODIC_SECONDS: u64 = 0x7fff_ffff_ffff_ffff;

/// The shortest poll interval in milliseconds.
pub const MIN_POLL_MILLIS: u64 = 100;

/// What a listener is asked to do. Paths are bytes, as the file system has them.
#[derive(Debug, PartialEq, Eq)]
pub struct ListenCommand {
    pub thread_id: String,
    pub events: Option<Vec<u8>>,
    pub state: Vec<u8>,
    pub periodic_seconds: Option<u64>,
    pub poll_millis: u64,
    pub once: bool,
}

/// Why a listener does not start.
#[derive(Clone, Copy, Debug, PartialEq, Eq, Structural)]
pub enum CommandError {
    ThreadId { fault: AtomFault },
    /// The inbox is the state file or its lock.
    PathsAlias,
    NothingToDo,
    PeriodTooShort,
    PeriodTooLong,
    PollTooShort,
}

/// What is reported of a command that is refused.
pub open spec fn command_error_message(error: CommandError) -> Seq<char> {
    match error {
        CommandError::ThreadId { fault } => atom_fault_message("threadId"@, fault, 128),
        CommandError::PathsAlias => "--events must not alias --state or its lock sidecar"@,
        CommandError::NothingToDo => "listen requires --events, --periodic-seconds, or both"@,
        CommandError::PeriodTooShort => "--periodic-seconds must be at least 60"@,
        CommandError::PeriodTooLong => "--periodic-seconds must be at most 9223372036854775807"@,
        CommandError::PollTooShort => "--poll-millis must be at least 100"@,
    }
}

impl CommandError {
    /// The message of this error.
    pub fn to_message(&self) -> (message: String)
        ensures
            message@ == command_error_message(*self),
    {
        match self {
            CommandError::ThreadId { fault } => spell_atom_fault("threadId", *fault, 128),
            CommandError::PathsAlias => {
                "--events must not alias --state or its lock sidecar".to_owned()
            },
            CommandError::NothingToDo => {
                "listen requires --events, --periodic-seconds, or both".to_owned()
            },
            CommandError::PeriodTooShort => "--periodic-seconds must be at least 60".to_owned(),
            CommandError::PeriodTooLong => {
                "--periodic-seconds must be at most 9223372036854775807".to_owned()
            },
            CommandError::PollTooShort => "--poll-millis must be at least 100".to_owned(),
        }
    }
}

/// What is wrong with a cadence.
pub open spec fn period_fault(periodic_seconds: Option<u64>) -> Option<CommandError> {
    match periodic_seconds {
        Some(seconds) => if seconds < MIN_PERIODIC_SECONDS {
            Some(CommandError::PeriodTooShort)
        } else if seconds > MAX_PERIODIC_SECONDS {
            Some(CommandError::PeriodTooLong)
        } else {
            None
        },
        None => None,
    }
}

/// Checks a cadence.
pub fn validate_periodic_seconds(periodic_seconds: Option<u64>) -> (result: Result<
    (),
    CommandError,
>)
    ensures
        match result {
            Ok(()) => period_fault(periodic_seconds) is None,
            Err(error) => period_fault(periodic_seconds) == Some(error),
        },
{
    if let Some(seconds) = periodic_seconds {
        if seconds < MIN_PERIODIC_SECONDS {
            return Err(CommandError::PeriodTooShort);
        }
        if seconds > MAX_PERIODIC_SECONDS {
            return Err(CommandError::PeriodTooLong);
        }
    }
    Ok(())
}

/// The parts of a path between its slashes.
pub open spec fn path_parts(path: Seq<u8>) -> Seq<Seq<u8>>
    decreases path.len(),
{
    if path.len() == 0 {
        seq![Seq::empty()]
    } else {
        let before = path_parts(path.drop_last());
        if path.last() == 47 {
            before.push(Seq::empty())
        } else {
            before.drop_last().push(before.last().push(path.last()))
        }
    }
}

/// The names on the way from the root to where the parts of an absolute path lead: nothing and `.`
/// stay in place, and `..` goes one back.
pub open spec fn walked(parts: Seq<Seq<u8>>) -> Seq<Seq<u8>>
    decreases parts.len(),
{
    if parts.len() == 0 {
        Seq::empty()
    } else {
        let before = walked(parts.drop_last());
        let part = parts.last();
        if part == Seq::<u8>::empty() || part == seq![46u8] {
            before
        } else if part == seq![46u8, 46u8] {
            if before.len() > 0 {
                before.drop_last()
            } else {
                before
            }
        } else {
            before.push(part)
        }
    }
}

/// The path of some names from the root on.
pub open spec fn rooted(names: Seq<Seq<u8>>) -> Seq<u8>
    decreases names.len(),
{
    if names.len() == 0 {
        seq![47u8]
    } else if names.len() == 1 {
        seq![47u8] + names[0]
    } else {
        rooted(names.drop_last()) + seq![47u8] + names.last()
    }
}

/// The absolute path for a path, taken from a directory where it is relative, without empty parts,
/// `.` and `..`.
pub open spec fn absolute_path(directory: Seq<u8>, path: Seq<u8>) -> Seq<u8> {
    if path.len() > 0 && path[0] == 47 {
        rooted(walked(path_parts(path)))
    } else {
        rooted(walked(path_parts(directory + seq![47u8] + path)))
    }
}

/// The bytes of each part.
pub open spec fn part_views(parts: Seq<Vec<u8>>) -> Seq<Seq<u8>> {
    Seq::new(parts.len(), |i: int| parts[i]@)
}

/// Splits a path at its slashes.
pub fn split_path(path: &[u8]) -> (parts: Vec<Vec<u8>>)
    ensures
        part_views(parts@) == path_parts(path@),
{
    let mut done: Vec<Vec<u8>> = Vec::new();
    let mut part: Vec<u8> = Vec::new();
    let mut i: usize = 0;
    assert(path@.take(0) =~= Seq::<u8>::empty());
    assert(part_views(done@).push(part@) =~= path_parts(path@.take(0)));
    while i < path.len()
        invariant
            i <= path@.len(),
            part_views(done@).push(part@) == path_parts(path@.take(i as int)),
        decreases path@.len() - i,
    {
        let byte = path[i];
        let ghost before = part_views(done@).push(part@);
        proof {
            assert(path@.take(i + 1).drop_last() =~= path@.take(i as int));
            assert(before.drop_last() =~= part_views(done@));
        }
        if byte == 47 {
            done.push(part);
            part = Vec::new();
            assert(part_views(done@) =~= before);
        } else {
            part.push(byte);
        }
        i += 1;
    }
    assert(path@.take(i as int) =~= path@);
    let ghost old_done = done@;
    done.push(part);
    assert(part_views(done@) =~= part_views(old_done).push(part@));
    done
}

/// Walks the parts of an absolute path from the root on.
fn walk(parts: Vec<Vec<u8>>) -> (walked_names: Vec<Vec<u8>>)
    ensures
        part_views(walked_names@) == walked(part_views(parts@)),
{
    let mut out: Vec<Vec<u8>> = Vec::new();
    let mut i: usize = 0;
    let ghost all = part_views(parts@);
    assert(all.take(0) =~= Seq::<Seq<u8>>::empty());
    assert(part_views(out@) =~= Seq::<Seq<u8>>::empty());
    while i < parts.len()
        invariant
            i <= parts@.len(),
            all == part_views(parts@),
            part_views(out@) == walked(all.take(i as int)),
        decreases parts@.len() - i,
    {
        let part = &parts[i];
        let ghost before = out@;
        assert(all.take(i + 1).drop_last() =~= all.take(i as int));
        let dot = part.len() == 1 && part[0] == 46;
        let dot_dot = part.len() == 2 && part[0] == 46 && part[1] == 46;
        proof {
            assert(dot ==> part@ =~= seq![46u8]);
            assert(dot_dot ==> part@ =~= seq![46u8, 46u8]);
            assert(part@.len() == 0 ==> part@ =~= Seq::<u8>::empty());
        }
        if part.len() == 0 || dot {
        } else if dot_dot {
            let _ = out.pop();
            assert(before.len() > 0 ==> part_views(out@) =~= part_views(before).drop_last());
            assert(before.len() == 0 ==> part_views(out@) =~= part_views(before));
        } else {
            out.push(bytes_copy(part.as_slice()));
            assert(part_views(out@) =~= part_views(before).push(part@));
        }
        i += 1;
    }
    assert(all.take(i as int) =~= all);
    out
}

/// Copies bytes.
pub fn bytes_copy(bytes: &[u8]) -> (copy: Vec<u8>)
    ensures
        copy@ == bytes@,
{
    let mut copy: Vec<u8> = Vec::new();
    copy.extend_from_slice(bytes);
    assert(copy@ =~= bytes@);
    copy
}

/// Joins names from the root on.
fn join_names(parts: &Vec<Vec<u8>>) -> (path: Vec<u8>)
    ensures
        path@ == rooted(part_views(parts@)),
{
    let ghost all = part_views(parts@);
    let mut path: Vec<u8> = vec![47u8];
    if parts.len() == 0 {
        assert(path@ =~= rooted(all));
        return path;
    }
    path.extend_from_slice(parts[0].as_slice());
    assert(path@ =~= seq![47u8] + all[0]);
    assert(all.take(1)[0] == all[0]);
    let mut i: usize = 1;
    while i < parts.len()
        invariant
            1 <= i <= parts@.len(),
            all == part_views(parts@),
            path@ == rooted(all.take(i as int)),
        decreases parts@.len() - i,
    {
        let ghost before = path@;
        assert(all.take(i + 1).drop_last() =~= all.take(i as int));
        path.push(47);
        path.extend_from_slice(parts[i].as_slice());
        assert(path@ =~= before + seq![47u8] + all[i as int]);
        i += 1;
    }
    assert(all.take(i as int) =~= all);
    path
}

/// Resolves a path against a directory.
pub fn resolve_path(directory: &[u8], path: &[u8]) -> (resolved: Vec<u8>)
    ensures
        resolved@ == absolute_path(directory@, path@),
{
    if path.len() > 0 && path[0] == 47 {
        let parts = walk(split_path(path));
        join_names(&parts)
    } else {
        let mut whole = bytes_copy(directory);
        whole.push(47);
        whole.extend_from_slice(path);
        assert(whole@ =~= directory@ + seq![47u8] + path@);
        let parts = walk(split_path(whole.as_slice()));
        join_names(&parts)
    }
}

/// The path of the lock beside a state file.
pub open spec fn lock_path(state_path: Seq<u8>) -> Seq<u8> {
    state_path + seq![46u8, 108u8, 111u8, 99u8, 107u8]
}

/// The path of the lock beside a state file: the same with `.lock` behind it.
pub fn listener_state_lock_path(state_path: &[u8]) -> (path: Vec<u8>)
    ensures
        path@ == lock_path(state_path@),
{
    let mut path = bytes_copy(state_path);
    path.extend_from_slice(vec![46u8, 108u8, 111u8, 99u8, 107u8].as_slice());
    assert(path@ =~= lock_path(state_path@));
    path
}

/// What the file system says of a path.
#[derive(Debug)]
pub struct PathLookup {
    /// The path without links, where there is a file.
    pub canonical: Option<Vec<u8>>,
    /// The same of the directory in which the path stands.
    pub canonical_parent: Option<Vec<u8>>,
}

/// Where the last slash of a path stands.
pub open spec fn last_slash(path: Seq<u8>) -> int
    decreases path.len(),
{
    if path.len() == 0 {
        -1
    } else if path.last() == 47 {
        path.len() - 1
    } else {
        last_slash(path.drop_last())
    }
}

/// The name at the end of an absolute path.
pub open spec fn file_name(path: Seq<u8>) -> Seq<u8> {
    path.skip(last_slash(path) + 1)
}

/// A name in a directory.
pub open spec fn joined(directory: Seq<u8>, name: Seq<u8>) -> Seq<u8> {
    if directory.len() > 0 && directory.last() == 47 {
        directory + name
    } else {
        directory + seq![47u8] + name
    }
}

/// The form in which paths are compared: without links as far as the file system knows the path,
/// or else the directory of it.
pub open spec fn comparable_path(path: Seq<u8>, lookup: PathLookup) -> Seq<u8> {
    match (lookup.canonical, lookup.canonical_parent) {
        (Some(canonical), _) => canonical@,
        (None, Some(parent)) => if file_name(path).len() > 0 {
            joined(parent@, file_name(path))
        } else {
            path
        },
        (None, None) => path,
    }
}

fn find_last_slash(path: &[u8]) -> (after: usize)
    ensures
        after == last_slash(path@) + 1,
        after <= path@.len(),
{
    let mut after: usize = path.len();
    assert(path@.take(after as int) =~= path@);
    while after > 0 && path[after - 1] != 47
        invariant
            after <= path@.len(),
            last_slash(path@) == last_slash(path@.take(after as int)),
        ensures
            after <= path@.len(),
            last_slash(path@) == last_slash(path@.take(after as int)),
            after > 0 ==> path@[after - 1] == 47,
        decreases after,
    {
        assert(path@.take(after as int).drop_last() =~= path@.take(after - 1));
        after -= 1;
    }
    after
}

/// Brings a resolved path into the form in which paths are compared.
pub fn path_for_alias_comparison(path: &[u8], lookup: &PathLookup) -> (comparable: Vec<u8>)
    ensures
        comparable@ == comparable_path(path@, *lookup),
{
    if let Some(canonical) = &lookup.canonical {
        return bytes_copy(canonical.as_slice());
    }
    let after = find_last_slash(path);
    if after < path.len() {
        if let Some(parent) = &lookup.canonical_parent {
            let mut comparable = bytes_copy(parent.as_slice());
            let name = slice_subrange(path, after, path.len());
            assert(name@ =~= file_name(path@));
            if !(comparable.len() > 0 && comparable[comparable.len() - 1] == 47) {
                comparable.push(47);
            }
            comparable.extend_from_slice(name);
            assert(comparable@ =~= joined(parent@, name@));
            return comparable;
        }
    }
    bytes_copy(path)
}

/// Tells whether bytes are the same.
pub fn same_bytes(left: &[u8], right: &[u8]) -> (same: bool)
    ensures
        same == (left@ == right@),
{
    if left.len() != right.len() {
        return false;
    }
    let mut i: usize = 0;
    while i < left.len()
        invariant
            i <= left@.len(),
            left@.len() == right@.len(),
            forall|j: int| 0 <= j < i ==> left@[j] == right@[j],
        decreases left@.len() - i,
    {
        if left[i] != right[i] {
            return false;
        }
        i += 1;
    }
    assert(left@ =~= right@);
    true
}

/// Two resolved paths lead to the same file.
pub open spec fn aliased(
    left: Seq<u8>,
    left_lookup: PathLookup,
    right: Seq<u8>,
    right_lookup: PathLookup,
) -> bool {
    left == right || comparable_path(left, left_lookup) == comparable_path(right, right_lookup)
}

/// Tells whether two resolved paths lead to the same file.
pub fn paths_alias(
    left: &[u8],
    left_lookup: &PathLookup,
    right: &[u8],
    right_lookup: &PathLookup,
) -> (alias: bool)
    ensures
        alias == aliased(left@, *left_lookup, right@, *right_lookup),
{
    if same_bytes(left, right) {
        return true;
    }
    let a = path_for_alias_comparison(left, left_lookup);
    let b = path_for_alias_comparison(right, right_lookup);
    same_bytes(a.as_slice(), b.as_slice())
}

/// The resolved paths of a listener, with what the file system says of each, and of the lock beside
/// the state file.
#[derive(Debug)]
pub struct ListenerPaths {
    pub events: Option<(Vec<u8>, PathLookup)>,
    pub state: (Vec<u8>, PathLookup),
    pub lock: PathLookup,
}

/// The inbox is the state file or its lock.
pub open spec fn inbox_aliased(paths: ListenerPaths) -> bool {
    match paths.events {
        Some(events) => aliased(events.0@, events.1, paths.state.0@, paths.state.1) || aliased(
            events.0@,
            events.1,
            lock_path(paths.state.0@),
            paths.lock,
        ),
        None => false,
    }
}

/// Refuses an inbox that is the state file or its lock.
pub fn validate_distinct_paths(paths: &ListenerPaths) -> (result: Result<(), CommandError>)
    ensures
        match result {
            Ok(()) => !inbox_aliased(*paths),
            Err(error) => inbox_aliased(*paths) && error == CommandError::PathsAlias,
        },
{
    if let Some(events) = &paths.events {
        let lock = listener_state_lock_path(paths.state.0.as_slice());
        if paths_alias(
            events.0.as_slice(),
            &events.1,
            paths.state.0.as_slice(),
            &paths.state.1,
        ) || paths_alias(events.0.as_slice(), &events.1, lock.as_slice(), &paths.lock) {
            return Err(CommandError::PathsAlias);
        }
    }
    Ok(())
}

/// Why a command is refused; the first reason counts.
pub open spec fn command_fault(
    command: ListenCommand,
    paths: ListenerPaths,
) -> Option<CommandError> {
    if atom_fault(command.thread_id@, 128) is Some {
        Some(CommandError::ThreadId { fault: atom_fault(command.thread_id@, 128)->0 })
    } else if inbox_aliased(paths) {
        Some(CommandError::PathsAlias)
    } else if command.events is None && command.periodic_seconds is None {
        Some(CommandError::NothingToDo)
    } else if period_fault(command.periodic_seconds) is Some {
        period_fault(command.periodic_seconds)
    } else if command.poll_millis < MIN_POLL_MILLIS {
        Some(CommandError::PollTooShort)
    } else {
        None
    }
}

/// Checks a command, with the resolved paths of its files.
pub fn validate_command(command: &ListenCommand, paths: &ListenerPaths) -> (result: Result<
    (),
    CommandError,
>)
    ensures
        match result {
            Ok(()) => command_fault(*command, *paths) is None,
            Err(error) => command_fault(*command, *paths) == Some(error),
        },
{
    if let Err(fault) = validate_atom(command.thread_id.as_str(), 128) {
        return Err(CommandError::ThreadId { fault });
    }
    if let Err(error) = validate_distinct_paths(paths) {
        return Err(error);
    }
    if command.events.is_none() && command.periodic_seconds.is_none() {
        return Err(CommandError::NothingToDo);
    }
    if let Err(error) = validate_periodic_seconds(command.periodic_seconds) {
        return Err(error);
    }
    if command.poll_millis < MIN_POLL_MILLIS {
        return Err(CommandError::PollTooShort);
    }
    Ok(())
}

/// An inbox at the path of the state file or of its lock is refused, whatever the file system says.
pub proof fn law_same_path_is_an_alias(paths: ListenerPaths, events: (Vec<u8>, PathLookup))
    requires
        paths.events == Some(events),
        events.0@ == paths.state.0@ || events.0@ == lock_path(paths.state.0@),
    ensures
        inbox_aliased(paths),
{
}

/// A step into a directory and back out leads nowhere, whatever follows.
pub proof fn law_a_detour_leads_nowhere(before: Seq<Seq<u8>>, name: Seq<u8>, after: Seq<Seq<u8>>)
    requires
        name != Seq::<u8>::empty(),
        name != seq![46u8],
        name != seq![46u8, 46u8],
    ensures
        walked(before + seq![name, seq![46u8, 46u8]] + after) == walked(before + after),
    decreases after.len(),
{
    let detour = before + seq![name, seq![46u8, 46u8]];
    if after.len() == 0 {
        let back = seq![46u8, 46u8];
        assert(back.len() == 2 && seq![46u8].len() == 1);
        assert(detour.last() == back);
        assert(detour + after =~= detour);
        assert(before + after =~= before);
        assert(detour.drop_last() =~= before.push(name));
        assert(before.push(name).drop_last() =~= before);
        assert(walked(before.push(name)) == walked(before).push(name));
        assert(walked(before).push(name).drop_last() =~= walked(before));
    } else {
        law_a_detour_leads_nowhere(before, name, after.drop_last());
        assert((detour + after).drop_last() =~= detour + after.drop_last());
        assert((before + after).drop_last() =~= before + after.drop_last());
    }
}

} // verus!
