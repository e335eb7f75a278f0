//! The rendezvous of the control socket: which paths lead to a retained directory, which directory
//! may be used, and what becomes of a socket file that is already there.

use vstd::prelude::*;
use vstd::string::*;
use vstd::utf8::*;

use crate::listen::command::{bytes_copy, part_views, path_parts, same_bytes, split_path};
use crate::text::{canonical_decimal, canonical_number, chars_of, decimal, write_decimal};

verus! {

/// The permissions of the control socket.
pub const CONTROL_SOCKET_MODE: u32 = 384;

/// How long the acceptor waits after an error that it cannot explain, in milliseconds.
pub const ACCEPT_ERROR_DELAY_MILLIS: u64 = 1000;

/// The components of a path: its parts without empty ones and `.`.
pub open spec fn components(parts: Seq<Seq<u8>>) -> Seq<Seq<u8>>
    decreases parts.len(),
{
    if parts.len() == 0 {
        Seq::empty()
    } else {
        let before = components(parts.drop_last());
        let part = parts.last();
        if part == Seq::<u8>::empty() || part == seq![46u8] {
            before
        } else {
            before.push(part)
        }
    }
}

/// The number that a component is the numeral of.
pub open spec fn component_number(part: Seq<u8>) -> Option<nat> {
    if valid_utf8(part) {
        canonical_number(decode_utf8(part))
    } else {
        None
    }
}

/// The bytes of `proc`.
pub open spec fn proc_name() -> Seq<u8> {
    seq![112u8, 114u8, 111u8, 99u8]
}

/// The bytes of `fd`.
pub open spec fn fd_name() -> Seq<u8> {
    seq![102u8, 100u8]
}

/// The components name an open file of a process: `proc`, a process number above zero, `fd` and a
/// number, each number in its one canonical form.
pub open spec fn names_proc_fd(names: Seq<Seq<u8>>) -> bool {
    &&& names.len() == 4
    &&& names[0] == proc_name()
    &&& component_number(names[1]) matches Some(pid) && pid > 0
    &&& names[2] == fd_name()
    &&& component_number(names[3]) is Some
}

/// A path is absolute and names an open file of a process.
pub open spec fn is_proc_fd_path(path: Seq<u8>) -> bool {
    path.len() > 0 && path[0] == 47 && names_proc_fd(components(path_parts(path)))
}

fn list_components(parts: Vec<Vec<u8>>) -> (names: Vec<Vec<u8>>)
    ensures
        part_views(names@) == components(part_views(parts@)),
{
    let mut names: Vec<Vec<u8>> = Vec::new();
    let ghost all = part_views(parts@);
    let mut i: usize = 0;
    assert(all.take(0) =~= Seq::<Seq<u8>>::empty());
    assert(part_views(names@) =~= Seq::<Seq<u8>>::empty());
    while i < parts.len()
        invariant
            i <= parts@.len(),
            all == part_views(parts@),
            part_views(names@) == components(all.take(i as int)),
        decreases parts@.len() - i,
    {
        let part = &parts[i];
        let ghost before = names@;
        assert(all.take(i + 1).drop_last() =~= all.take(i as int));
        let dot = part.len() == 1 && part[0] == 46;
        proof {
            assert(dot ==> part@ =~= seq![46u8]);
            assert(part@.len() == 0 ==> part@ =~= Seq::<u8>::empty());
        }
        if part.len() != 0 && !dot {
            names.push(bytes_copy(part.as_slice()));
            assert(part_views(names@) =~= part_views(before).push(part@));
        }
        i += 1;
    }
    assert(all.take(i as int) =~= all);
    names
}

fn read_component(part: &[u8]) -> (n: Option<u32>)
    ensures
        n is Some <==> component_number(part@) is Some,
        n matches Some(v) ==> component_number(part@) == Some(v as nat),
{
    match core::str::from_utf8(part) {
        Ok(text) => {
            let chars = chars_of(text);
            canonical_decimal(chars.as_slice())
        },
        Err(_) => None,
    }
}

fn check_proc_fd(names: &Vec<Vec<u8>>, count: usize) -> (exact: bool)
    requires
        count <= names@.len(),
    ensures
        exact == names_proc_fd(part_views(names@).take(count as int)),
{
    if count != 4 {
        return false;
    }
    let proc_bytes = [112u8, 114u8, 111u8, 99u8];
    let fd_bytes = [102u8, 100u8];
    assert(proc_bytes@ =~= proc_name());
    assert(fd_bytes@ =~= fd_name());
    if !same_bytes(names[0].as_slice(), proc_bytes.as_slice())
        || !same_bytes(names[2].as_slice(), fd_bytes.as_slice()) {
        return false;
    }
    match read_component(names[1].as_slice()) {
        Some(pid) => pid > 0 && read_component(names[3].as_slice()).is_some(),
        None => false,
    }
}

/// Tells whether a path names an open file of a process, and nothing else.
pub fn is_exact_proc_fd_path(path: &[u8]) -> (exact: bool)
    ensures
        exact == is_proc_fd_path(path@),
{
    if path.len() == 0 || path[0] != 47 {
        return false;
    }
    let names = list_components(split_path(path));
    assert(part_views(names@).take(names@.len() as int) =~= part_views(names@));
    check_proc_fd(&names, names.len())
}

/// What a socket path leads to.
#[derive(Debug, PartialEq, Eq)]
pub enum SocketPath {
    /// An ordinary path, whose directory is looked at anew before the socket is bound.
    Ordinary,
    /// A directory that is held open, but no name in it.
    NoName,
    /// A name in a directory that is held open.
    Retained { name: Vec<u8> },
}

/// What a socket path leads to, by its bytes.
pub enum SocketPathData {
    Ordinary,
    NoName,
    Retained { name: Seq<u8> },
}

impl View for SocketPath {
    type V = SocketPathData;

    open spec fn view(&self) -> SocketPathData {
        match self {
            SocketPath::Ordinary => SocketPathData::Ordinary,
            SocketPath::NoName => SocketPathData::NoName,
            SocketPath::Retained { name } => SocketPathData::Retained { name: name@ },
        }
    }
}

impl SocketPath {
    /// Tells whether the directory is looked at anew before the socket is bound: it is, unless it
    /// is held open.
    pub fn revalidates_before_bind(&self) -> (revalidates: bool)
        ensures
            revalidates == (self@ is Ordinary),
    {
        matches!(self, SocketPath::Ordinary)
    }
}

/// What an absolute socket path leads to.
pub open spec fn socket_path_of(path: Seq<u8>) -> SocketPathData {
    let names = components(path_parts(path));
    if path.len() == 0 || path[0] != 47 || names.len() == 0 || !names_proc_fd(names.drop_last()) {
        SocketPathData::Ordinary
    } else if names.last() == seq![46u8, 46u8] {
        SocketPathData::NoName
    } else {
        SocketPathData::Retained { name: names.last() }
    }
}

/// Finds out what a socket path leads to.
pub fn classify_socket_path(path: &[u8]) -> (classified: SocketPath)
    ensures
        classified@ == socket_path_of(path@),
{
    if path.len() == 0 || path[0] != 47 {
        return SocketPath::Ordinary;
    }
    let mut names = list_components(split_path(path));
    if names.len() == 0 {
        return SocketPath::Ordinary;
    }
    let ghost all = part_views(names@);
    assert(all.take(names@.len() - 1) =~= all.drop_last());
    if !check_proc_fd(&names, names.len() - 1) {
        return SocketPath::Ordinary;
    }
    match names.pop() {
        Some(name) => {
            assert(name@ == all.last());
            if name.len() == 2 && name[0] == 46 && name[1] == 46 {
                assert(name@ =~= seq![46u8, 46u8]);
                SocketPath::NoName
            } else {
                SocketPath::Retained { name }
            }
        },
        None => SocketPath::Ordinary,
    }
}

/// What the file system says of a file.
#[derive(Clone, Copy, Debug, PartialEq, Eq, Structural)]
pub struct FileFacts {
    pub device: u64,
    pub inode: u64,
    pub mode: u32,
    pub uid: u32,
    pub gid: u32,
    pub is_directory: bool,
    pub is_symlink: bool,
}

/// Tells whether two descriptions are of the same directory in the same state.
pub fn same_directory(left: &FileFacts, right: &FileFacts) -> (same: bool)
    ensures
        same == directories_agree(*left, *right),
{
    left.device == right.device && left.inode == right.inode && left.mode == right.mode
        && left.uid == right.uid && left.gid == right.gid
}

/// Two descriptions are of the same directory in the same state.
pub open spec fn directories_agree(left: FileFacts, right: FileFacts) -> bool {
    &&& left.device == right.device
    &&& left.inode == right.inode
    &&& left.mode == right.mode
    &&& left.uid == right.uid
    &&& left.gid == right.gid
}

/// Why a retained directory cannot be used.
#[derive(Clone, Copy, Debug, PartialEq, Eq, Structural)]
pub enum ParentFault {
    NoFileName,
    /// The path to the directory is no link of a process to an open file.
    NotADescriptor,
    /// It is not one directory that belongs to this user and to nobody else.
    NotPrivate,
}

/// What is reported of a directory that cannot be used.
pub open spec fn parent_fault_message(fault: ParentFault) -> Seq<char> {
    match fault {
        ParentFault::NoFileName => "proc-fd control socket path has no file name"@,
        ParentFault::NotADescriptor => "proc-fd control socket parent is not a descriptor link"@,
        ParentFault::NotPrivate =>
        "proc-fd control socket parent is not one owner-private directory"@,
    }
}

impl ParentFault {
    /// The message of this fault.
    pub fn to_message(&self) -> (message: String)
        ensures
            message@ == parent_fault_message(*self),
    {
        match self {
            ParentFault::NoFileName => "proc-fd control socket path has no file name".to_owned(),
            ParentFault::NotADescriptor => {
                "proc-fd control socket parent is not a descriptor link".to_owned()
            },
            ParentFault::NotPrivate => {
                "proc-fd control socket parent is not one owner-private directory".to_owned()
            },
        }
    }
}

/// The directory that was opened is the one that the link led to, it is a directory with all
/// permissions for its owner and none for others, and both it and the link belong to this user.
pub open spec fn parent_private(
    link: FileFacts,
    followed: FileFacts,
    opened: FileFacts,
    current_uid: u32,
) -> bool {
    &&& directories_agree(followed, opened)
    &&& opened.is_directory
    &&& opened.mode & 511 == 448
    &&& link.uid == current_uid
    &&& opened.uid == current_uid
}

/// Checks the link to a retained directory before it is followed.
pub fn check_descriptor_link(link: &FileFacts) -> (result: Result<(), ParentFault>)
    ensures
        match result {
            Ok(()) => link.is_symlink,
            Err(fault) => !link.is_symlink && fault == ParentFault::NotADescriptor,
        },
{
    if link.is_symlink {
        Ok(())
    } else {
        Err(ParentFault::NotADescriptor)
    }
}

/// Checks a retained directory once it is open.
pub fn check_retained_parent(
    link: &FileFacts,
    followed: &FileFacts,
    opened: &FileFacts,
    current_uid: u32,
) -> (result: Result<(), ParentFault>)
    ensures
        match result {
            Ok(()) => parent_private(*link, *followed, *opened, current_uid),
            Err(fault) => !parent_private(*link, *followed, *opened, current_uid) && fault
                == ParentFault::NotPrivate,
        },
{
    if !same_directory(followed, opened) || !opened.is_directory || opened.mode & 511 != 448
        || link.uid != current_uid || opened.uid != current_uid {
        Err(ParentFault::NotPrivate)
    } else {
        Ok(())
    }
}

/// The path of a name in a directory that this process holds open.
pub open spec fn anchored_path_of(descriptor: u32, name: Seq<u8>) -> Seq<u8> {
    encode_utf8("/proc/self/fd/"@ + decimal(descriptor as nat)) + seq![47u8] + name
}

/// Anchors a name in a directory that this process holds open.
pub fn anchored_path(descriptor: u32, name: &[u8]) -> (path: Vec<u8>)
    ensures
        path@ == anchored_path_of(descriptor, name@),
{
    let mut directory = "/proc/self/fd/".to_owned();
    directory.append(write_decimal(descriptor as u64).as_str());
    let mut path = bytes_copy(directory.as_str().as_bytes());
    path.push(47);
    path.extend_from_slice(name);
    assert(path@ =~= anchored_path_of(descriptor, name@));
    path
}

/// What connecting to a socket file came to.
#[derive(Clone, Copy, Debug, PartialEq, Eq, Structural)]
pub enum ConnectOutcome {
    Connected,
    NotFound,
    Refused,
    /// Any other error.
    Failed,
}

/// What is to be done about a socket file next.
#[derive(Clone, Copy, Debug, PartialEq, Eq, Structural)]
pub enum SocketFileNext {
    /// The path is free.
    Free,
    /// Somebody serves the socket.
    InUse,
    /// Ask whether the file is there; the error of connecting stands where it is.
    AskExistsOrFail,
    /// Ask whether the file is there.
    AskExists,
    /// The error of connecting stands.
    Fail,
    /// Ask whether the file is a socket that nobody serves.
    AskStale,
    /// The file is no socket.
    NotASocket,
    /// Remove the file.
    Remove,
}

/// What connecting to a socket file asks for.
pub open spec fn next_after_connect(outcome: ConnectOutcome) -> SocketFileNext {
    match outcome {
        ConnectOutcome::Connected => SocketFileNext::InUse,
        ConnectOutcome::NotFound => SocketFileNext::Free,
        ConnectOutcome::Refused => SocketFileNext::AskExists,
        ConnectOutcome::Failed => SocketFileNext::AskExistsOrFail,
    }
}

/// What the presence of a socket file asks for.
pub open spec fn next_after_exists(connect_failed: bool, present: bool) -> SocketFileNext {
    if !present {
        SocketFileNext::Free
    } else if connect_failed {
        SocketFileNext::Fail
    } else {
        SocketFileNext::AskStale
    }
}

/// What becomes of a file that nobody answers on.
pub open spec fn next_after_stale(stale_socket: bool) -> SocketFileNext {
    if stale_socket {
        SocketFileNext::Remove
    } else {
        SocketFileNext::NotASocket
    }
}

/// What becomes of a socket file once every question is answered.
pub open spec fn socket_file_end(
    outcome: ConnectOutcome,
    present: bool,
    stale_socket: bool,
) -> SocketFileNext {
    let first = next_after_connect(outcome);
    if first == SocketFileNext::AskExists || first == SocketFileNext::AskExistsOrFail {
        let second = next_after_exists(first == SocketFileNext::AskExistsOrFail, present);
        if second == SocketFileNext::AskStale {
            next_after_stale(stale_socket)
        } else {
            second
        }
    } else {
        first
    }
}

/// Decides what connecting to a socket file asks for.
pub fn after_connect(outcome: ConnectOutcome) -> (next: SocketFileNext)
    ensures
        next == next_after_connect(outcome),
{
    match outcome {
        ConnectOutcome::Connected => SocketFileNext::InUse,
        ConnectOutcome::NotFound => SocketFileNext::Free,
        ConnectOutcome::Refused => SocketFileNext::AskExists,
        ConnectOutcome::Failed => SocketFileNext::AskExistsOrFail,
    }
}

/// Decides what the presence of a socket file asks for.
pub fn after_exists(connect_failed: bool, present: bool) -> (next: SocketFileNext)
    ensures
        next == next_after_exists(connect_failed, present),
{
    if !present {
        SocketFileNext::Free
    } else if connect_failed {
        SocketFileNext::Fail
    } else {
        SocketFileNext::AskStale
    }
}

/// Decides what becomes of a file that nobody answers on: only a socket is removed.
pub fn after_stale(stale_socket: bool) -> (next: SocketFileNext)
    ensures
        next == next_after_stale(stale_socket),
{
    if stale_socket {
        SocketFileNext::Remove
    } else {
        SocketFileNext::NotASocket
    }
}

/// What is reported of a socket that is in use.
pub fn in_use_message(path: &str) -> (message: String)
    ensures
        message@ == "app-server control socket is already in use at "@ + path@,
{
    let mut message = "app-server control socket is already in use at ".to_owned();
    message.append(path);
    message
}

/// What is reported of a file that is no socket.
pub fn not_a_socket_message(path: &str) -> (message: String)
    ensures
        message@ == "app-server control socket path exists and is not a socket: "@ + path@,
{
    let mut message = "app-server control socket path exists and is not a socket: ".to_owned();
    message.append(path);
    message
}

/// Why a connection could not be accepted.
#[derive(Clone, Copy, Debug, PartialEq, Eq, Structural)]
pub enum AcceptError {
    Aborted,
    Reset,
    Interrupted,
    Other,
}

/// How many milliseconds the acceptor waits after an error.
pub open spec fn accept_delay(error: AcceptError) -> u64 {
    if error == AcceptError::Other {
        ACCEPT_ERROR_DELAY_MILLIS
    } else {
        0
    }
}

/// How long the acceptor waits after an error: not at all after one that concerns a single
/// connection.
pub fn accept_retry_delay(error: AcceptError) -> (millis: u64)
    ensures
        millis == accept_delay(error),
{
    match error {
        AcceptError::Aborted | AcceptError::Reset | AcceptError::Interrupted => 0,
        AcceptError::Other => ACCEPT_ERROR_DELAY_MILLIS,
    }
}

/// A directory that others may enter, that is another user's, or that is not the one that was
/// opened, is never used.
pub proof fn law_only_private_parents_are_used(
    link: FileFacts,
    followed: FileFacts,
    opened: FileFacts,
    current_uid: u32,
)
    requires
        parent_private(link, followed, opened, current_uid),
    ensures
        opened.uid == current_uid,
        followed.device == opened.device && followed.inode == opened.inode,
        opened.mode & 63 == 0,
{
    let mode = opened.mode;
    assert(mode & 63 == 0) by (bit_vector)
        requires
            mode & 511 == 448,
    ;
}

/// A file is removed exactly where the connection was refused, the file is there, and it is a
/// socket that nobody serves. A socket that somebody serves, or that could not be tried, stays.
pub proof fn law_only_stale_sockets_are_removed(
    outcome: ConnectOutcome,
    present: bool,
    stale_socket: bool,
)
    ensures
        socket_file_end(outcome, present, stale_socket) == SocketFileNext::Remove <==> (outcome
            == ConnectOutcome::Refused && present && stale_socket),
        socket_file_end(outcome, present, stale_socket) == SocketFileNext::InUse <==> outcome
            == ConnectOutcome::Connected,
        socket_file_end(outcome, present, stale_socket) == SocketFileNext::Free <==> (outcome
            == ConnectOutcome::NotFound || (outcome != ConnectOutcome::Connected && !present)),
{
}

} // verus!
