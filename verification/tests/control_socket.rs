use codex_runtime::control_socket::{
    accept_retry_delay, after_connect, after_exists, after_stale, anchored_path,
    check_descriptor_link, check_retained_parent, classify_socket_path, in_use_message,
    is_exact_proc_fd_path, not_a_socket_message, same_directory, AcceptError, ConnectOutcome,
    FileFacts, ParentFault, SocketFileNext, SocketPath,
};

#[test]
fn only_descriptor_links_of_a_process_are_exact() {
    for path in ["/proc/7/fd/3", "/proc/4294967295/fd/0", "//proc/./7//fd/3/"] {
        assert!(is_exact_proc_fd_path(path.as_bytes()), "{path}");
    }
    for path in [
        "proc/7/fd/3",
        "/proc/self/fd/3",
        "/proc/0/fd/3",
        "/proc/07/fd/3",
        "/proc/7/fd/+3",
        "/proc/4294967296/fd/3",
        "/proc/7/fd",
        "/proc/7/fd/3/x",
        "/proc/7/fd/x",
        "/proc/seven/fd/3",
        "/proc/7/cwd/3",
        "/tmp/7/fd/3",
        "/",
        "",
    ] {
        assert!(!is_exact_proc_fd_path(path.as_bytes()), "{path}");
    }
}

#[test]
fn sockets_in_retained_directories_are_anchored() {
    assert_eq!(
        classify_socket_path(b"/proc/7/fd/3/app-server.sock"),
        SocketPath::Retained {
            name: b"app-server.sock".to_vec()
        }
    );
    assert_eq!(classify_socket_path(b"/proc/7/fd/3/.."), SocketPath::NoName);
    assert_eq!(
        classify_socket_path(b"/run/app-server.sock"),
        SocketPath::Ordinary
    );
    assert_eq!(classify_socket_path(b"/"), SocketPath::Ordinary);
    assert!(classify_socket_path(b"/run/app-server.sock").revalidates_before_bind());
    assert!(!classify_socket_path(b"/proc/7/fd/3/s").revalidates_before_bind());
    assert_eq!(anchored_path(12, b"s"), b"/proc/self/fd/12/s");
}

fn directory() -> FileFacts {
    FileFacts {
        device: 1,
        inode: 2,
        mode: 0o040_700,
        uid: 1000,
        gid: 1000,
        is_directory: true,
        is_symlink: false,
    }
}

fn link() -> FileFacts {
    FileFacts {
        inode: 9,
        mode: 0o120_500,
        is_directory: false,
        is_symlink: true,
        ..directory()
    }
}

#[test]
fn only_one_private_directory_may_hold_the_socket() {
    let check = |link: &FileFacts, followed: &FileFacts, opened: &FileFacts| {
        check_retained_parent(link, followed, opened, 1000)
    };
    assert_eq!(check_descriptor_link(&link()), Ok(()));
    assert_eq!(
        check_descriptor_link(&directory()),
        Err(ParentFault::NotADescriptor)
    );
    assert_eq!(check(&link(), &directory(), &directory()), Ok(()));

    let refused = Err(ParentFault::NotPrivate);
    let shared = FileFacts {
        mode: 0o040_755,
        ..directory()
    };
    assert_eq!(check(&link(), &shared, &shared), refused);
    let foreign = FileFacts {
        uid: 0,
        ..directory()
    };
    assert_eq!(check(&link(), &foreign, &foreign), refused);
    let replaced = FileFacts {
        inode: 3,
        ..directory()
    };
    assert_eq!(check(&link(), &replaced, &directory()), refused);
    assert!(!same_directory(&replaced, &directory()));
    let pipe = FileFacts {
        is_directory: false,
        mode: 0o010_700,
        ..directory()
    };
    assert_eq!(check(&link(), &pipe, &pipe), refused);
    let foreign_link = FileFacts { uid: 0, ..link() };
    assert_eq!(check(&foreign_link, &directory(), &directory()), refused);
}

#[test]
fn faults_of_the_parent_have_their_messages() {
    assert_eq!(
        ParentFault::NoFileName.to_message(),
        "proc-fd control socket path has no file name"
    );
    assert_eq!(
        ParentFault::NotADescriptor.to_message(),
        "proc-fd control socket parent is not a descriptor link"
    );
    assert_eq!(
        ParentFault::NotPrivate.to_message(),
        "proc-fd control socket parent is not one owner-private directory"
    );
}

#[test]
fn only_stale_sockets_are_removed() {
    assert_eq!(after_connect(ConnectOutcome::Connected), SocketFileNext::InUse);
    assert_eq!(after_connect(ConnectOutcome::NotFound), SocketFileNext::Free);
    assert_eq!(after_connect(ConnectOutcome::Refused), SocketFileNext::AskExists);
    assert_eq!(
        after_connect(ConnectOutcome::Failed),
        SocketFileNext::AskExistsOrFail
    );
    assert_eq!(after_exists(false, false), SocketFileNext::Free);
    assert_eq!(after_exists(true, false), SocketFileNext::Free);
    assert_eq!(after_exists(true, true), SocketFileNext::Fail);
    assert_eq!(after_exists(false, true), SocketFileNext::AskStale);
    assert_eq!(after_stale(true), SocketFileNext::Remove);
    assert_eq!(after_stale(false), SocketFileNext::NotASocket);
    assert_eq!(
        in_use_message("/s"),
        "app-server control socket is already in use at /s"
    );
    assert_eq!(
        not_a_socket_message("/s"),
        "app-server control socket path exists and is not a socket: /s"
    );
}

#[test]
fn the_acceptor_waits_after_errors_of_the_system_only() {
    assert_eq!(accept_retry_delay(AcceptError::Aborted), 0);
    assert_eq!(accept_retry_delay(AcceptError::Reset), 0);
    assert_eq!(accept_retry_delay(AcceptError::Interrupted), 0);
    assert_eq!(accept_retry_delay(AcceptError::Other), 1000);
}
