use schultz::error::{Error, ManagerError, TlsError};
use schultz::network::{
    is_valid_handshake_parameters, ping_target, route_incoming, ChainIdentity, Digest,
    HandshakeAction, IncomingRoute, MessageKind, PeerAddr, PeerTable, ProtocolVersion,
};
use schultz::{Cli, Commands, Context, Dirs, OutputFormat};

fn local() -> ChainIdentity {
    ChainIdentity {
        network_name: String::from("casper"),
        protocol_version: ProtocolVersion { major: 1, minor: 5, patch: 2 },
        chainspec_hash: Digest([7; 32]),
    }
}

fn peer(port: u16) -> PeerAddr {
    PeerAddr::V4 { ip: 0x7f00_0001, port }
}

#[test]
fn handshake_parameters_are_checked_against_the_chainspec() {
    let local = local();
    let name = String::from("casper");
    let version = ProtocolVersion { major: 1, minor: 5, patch: 2 };
    assert!(is_valid_handshake_parameters(&name, &version, &Some(Digest([7; 32])), &local));
    assert!(!is_valid_handshake_parameters(&String::from("casper-test"), &version, &Some(Digest([7; 32])), &local));
    let other_version = ProtocolVersion { major: 1, minor: 5, patch: 3 };
    assert!(!is_valid_handshake_parameters(&name, &other_version, &Some(Digest([7; 32])), &local));
    assert!(!is_valid_handshake_parameters(&name, &version, &None, &local));
    let mut hash = [7; 32];
    hash[31] = 8;
    assert!(!is_valid_handshake_parameters(&name, &version, &Some(Digest(hash)), &local));
}

#[test]
fn a_reply_to_our_handshake_completes_it_once() {
    let local = local();
    let name = local.network_name.clone();
    let version = local.protocol_version;
    let hash = Some(local.chainspec_hash);
    let mut table = PeerTable::new();
    table.handshake_sent(peer(1));
    assert!(table.is_awaiting(peer(1)));
    assert!(!table.is_connected(peer(1)));
    assert_eq!(table.handle_handshake(peer(1), &name, &version, &hash, &local), HandshakeAction::Complete);
    assert!(!table.is_awaiting(peer(1)));
    assert!(table.is_connected(peer(1)));
    assert_eq!(table.handle_handshake(peer(1), &name, &version, &hash, &local), HandshakeAction::Ignore);
}

#[test]
fn a_bad_reply_is_rejected_and_changes_nothing() {
    let local = local();
    let mut table = PeerTable::new();
    table.handshake_sent(peer(2));
    let action = table.handle_handshake(peer(2), &String::from("other"), &local.protocol_version, &None, &local);
    assert_eq!(action, HandshakeAction::Reject);
    assert!(table.is_awaiting(peer(2)));
    assert!(!table.is_connected(peer(2)));
}

#[test]
fn an_unsolicited_valid_handshake_is_answered() {
    let local = local();
    let name = local.network_name.clone();
    let hash = Some(local.chainspec_hash);
    let mut table = PeerTable::new();
    table.handshake_sent(peer(1));
    assert_eq!(table.handle_handshake(peer(3), &name, &local.protocol_version, &hash, &local), HandshakeAction::Reply);
    assert!(!table.is_connected(peer(3)));
    table.reply_sent(peer(3));
    assert!(table.is_connected(peer(3)));
    assert!(table.is_awaiting(peer(1)));
    assert_eq!(table.handle_handshake(peer(3), &name, &local.protocol_version, &hash, &local), HandshakeAction::Ignore);
    let v6 = PeerAddr::V6 { ip: 1, port: 3, flowinfo: 0, scope_id: 0 };
    assert!(!table.is_connected(v6));
    assert_eq!(
        table.handle_handshake(peer(4), &String::from("x"), &local.protocol_version, &hash, &local),
        HandshakeAction::Reject
    );
}

#[test]
fn completing_removes_every_entry_of_the_peer() {
    let local = local();
    let name = local.network_name.clone();
    let hash = Some(local.chainspec_hash);
    let mut table = PeerTable::new();
    table.handshake_sent(peer(5));
    table.handshake_sent(peer(6));
    table.handshake_sent(peer(5));
    assert_eq!(table.handle_handshake(peer(5), &name, &local.protocol_version, &hash, &local), HandshakeAction::Complete);
    assert!(!table.is_awaiting(peer(5)));
    assert!(table.is_awaiting(peer(6)));
}

#[test]
fn incoming_messages_are_routed_by_how_they_decode() {
    assert_eq!(route_incoming(Some(MessageKind::Handshake), false), IncomingRoute::Handshake);
    assert_eq!(route_incoming(Some(MessageKind::Ping), true), IncomingRoute::Ignore);
    assert_eq!(route_incoming(Some(MessageKind::Payload), false), IncomingRoute::Ignore);
    assert_eq!(route_incoming(None, true), IncomingRoute::Forward);
    assert_eq!(route_incoming(None, false), IncomingRoute::Drop);
}

#[test]
fn a_handshake_event_pings_the_bootnode() {
    assert_eq!(ping_target(MessageKind::Handshake, Some(peer(9))), Some(peer(9)));
    assert_eq!(ping_target(MessageKind::Handshake, None), None);
    assert_eq!(ping_target(MessageKind::Pong, Some(peer(9))), None);
    assert_eq!(ping_target(MessageKind::Ping, Some(peer(9))), None);
}

#[test]
fn errors_convert() {
    let err: Error = ManagerError::PeerNotFound.into();
    assert_eq!(err, Error::NetworkManager(ManagerError::PeerNotFound));
    let err: ManagerError = TlsError::NoPeerCertificate.into();
    assert_eq!(err, ManagerError::Tls(TlsError::NoPeerCertificate));
}

#[test]
fn the_output_format_defaults_to_a_table() {
    let command = Commands::Bootstrap {
        addr: String::from("127.0.0.1:5001"),
        bootnode: String::from("127.0.0.1:34553"),
        chainspec: None,
    };
    let dirs = Dirs { root_dir: String::from("/tmp/schultz") };
    let cli = Cli::new(command.clone(), None, None);
    let context = Context::for_cli(&cli, dirs.clone());
    assert_eq!(context.output_format, OutputFormat::Table);
    assert_eq!(context.dirs, dirs);
    let cli = Cli::new(command, Some(String::from("/tmp")), Some(OutputFormat::Json));
    assert_eq!(Context::for_cli(&cli, dirs).output_format, OutputFormat::Json);
    assert_eq!(cli.root_dir(), &Some(String::from("/tmp")));
}

#[test]
fn chain_identity_reads_the_protocol_version() {
    let identity = ChainIdentity::new(String::from("casper"), "1.5.2", Digest([7; 32])).unwrap();
    assert_eq!(identity.network_name, "casper");
    assert_eq!(identity.protocol_version, ProtocolVersion { major: 1, minor: 5, patch: 2 });
    assert_eq!(identity.chainspec_hash.0, [7; 32]);
    assert!(ChainIdentity::new(String::from("casper"), "1.5", Digest([7; 32])).is_none());
    assert!(ChainIdentity::new(String::from("casper"), "1.5.2.0", Digest([7; 32])).is_none());
    assert!(ChainIdentity::new(String::from("casper"), "1.x.2", Digest([7; 32])).is_none());
    let version = |s: &str| {
        ChainIdentity::new(String::from("casper"), s, Digest([7; 32])).map(|id| id.protocol_version)
    };
    assert_eq!(version("+1.05.2"), Some(ProtocolVersion { major: 1, minor: 5, patch: 2 }));
    assert_eq!(
        version("4294967295.0.0"),
        Some(ProtocolVersion { major: 4294967295, minor: 0, patch: 0 })
    );
    assert_eq!(version("4294967296.0.0"), None);
    assert_eq!(version(".1.2"), None);
    assert_eq!(version("1.2.3 "), None);
    assert_eq!(version("-1.2.3"), None);
    assert_eq!(version("+.2.3"), None);
}

#[test]
fn our_handshake_carries_our_identity_and_is_valid() {
    let local = local();
    let hs = schultz::network::our_handshake(&local, peer(5001));
    assert_eq!(hs.network_name, "casper");
    assert_eq!(hs.public_addr, peer(5001));
    assert_eq!(hs.protocol_version, local.protocol_version);
    assert!(!hs.is_syncing);
    assert!(hs.chainspec_hash.unwrap().equals(&local.chainspec_hash));
    assert!(is_valid_handshake_parameters(&hs.network_name, &hs.protocol_version, &hs.chainspec_hash, &local));
}
