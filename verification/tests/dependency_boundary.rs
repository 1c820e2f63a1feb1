use signal_terminal::{
    OwnerIdentity, SocketMode, SystemPrincipal, TerminalDaemonConfiguration, UnixUserIdentifier,
    WirePath,
};

fn path(text: &str) -> WirePath {
    WirePath::new(text.to_string())
}

#[test]
fn terminal_contract_is_schema_derived_without_retired_helper_dependencies() {
    // Owner and socket vocabulary is declared by this crate itself: the whole
    // daemon configuration is built from its own types, with no helper crate.
    let configuration = TerminalDaemonConfiguration {
        terminal_socket_path: path("/run/persona/X/terminal.sock"),
        terminal_socket_mode: SocketMode::new(0o600),
        meta_terminal_socket_path: path("/run/persona/X/meta-terminal.sock"),
        meta_terminal_socket_mode: SocketMode::new(0o600),
        supervision_socket_path: path("/run/persona/X/terminal-supervision.sock"),
        supervision_socket_mode: SocketMode::new(0o600),
        store_path: path("/var/lib/persona/X/terminal.sema"),
        owner_identity: OwnerIdentity::UnixUser(UnixUserIdentifier::new(1000)),
    };

    assert_eq!(
        configuration.terminal_socket_path.as_str(),
        "/run/persona/X/terminal.sock"
    );
    assert_eq!(configuration.terminal_socket_mode.into_u32(), 0o600);
    assert_eq!(
        configuration.meta_terminal_socket_path.as_str(),
        "/run/persona/X/meta-terminal.sock"
    );
    assert_eq!(
        configuration.supervision_socket_path.as_str(),
        "/run/persona/X/terminal-supervision.sock"
    );
    assert_eq!(
        configuration.store_path.as_str(),
        "/var/lib/persona/X/terminal.sema"
    );
    assert!(matches!(
        configuration.owner_identity,
        OwnerIdentity::UnixUser(ref user) if user.as_u32() == 1000
    ));

    let system_owned = OwnerIdentity::System(SystemPrincipal::new("persona".to_string()));
    assert!(matches!(
        system_owned,
        OwnerIdentity::System(ref principal) if principal.as_str() == "persona"
    ));
}
