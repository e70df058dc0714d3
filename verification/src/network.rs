//! The handshake with peers of the Casper network: which handshakes are
//! accepted, the bookkeeping of the peers a handshake was sent to and of those
//! fully connected, and how incoming messages are routed.

use vstd::prelude::*;
use std::str::FromStr;

verus! {

/// A socket address of a peer.
#[derive(Clone, Copy, Debug, PartialEq, Eq, Structural)]
pub enum PeerAddr {
    /// An IPv4 address, its four octets as one big-endian number, and a port.
    V4 { ip: u32, port: u16 },
    /// An IPv6 address, its sixteen octets as one big-endian number, a port,
    /// the flow information and the scope identifier.
    V6 { ip: u128, port: u16, flowinfo: u32, scope_id: u32 },
}

/// A version of the Casper protocol.
#[derive(Clone, Copy, Debug, PartialEq, Eq, Structural)]
pub struct ProtocolVersion {
    pub major: u32,
    pub minor: u32,
    pub patch: u32,
}

/// The protocol version assumed of a handshake that names none: 1.0.0.
pub fn default_protocol_version() -> (r: ProtocolVersion)
    ensures
        r == (ProtocolVersion { major: 1, minor: 0, patch: 0 }),
{
    ProtocolVersion { major: 1, minor: 0, patch: 0 }
}

/// A 32-byte hash, as the chainspec hash sent in a handshake.
#[derive(Clone, Copy, Debug)]
pub struct Digest(pub [u8; 32]);

impl Digest {
    /// Two digests are equal when their bytes are.
    pub fn equals(&self, other: &Digest) -> (r: bool)
        ensures
            r == (self.0@ == other.0@),
    {
        let mut i: usize = 0;
        while i < 32
            invariant
                i <= 32,
                forall|j: int| 0 <= j < i ==> self.0@[j] == other.0@[j],
            decreases 32 - i,
        {
            if self.0[i] != other.0[i] {
                return false;
            }
            i = i + 1;
        }
        proof {
            assert(self.0@ =~= other.0@);
        }
        true
    }
}

/// What this node runs, against which a peer's handshake is checked: the
/// network name, protocol version and chainspec hash of its chainspec.
pub struct ChainIdentity {
    pub network_name: String,
    pub protocol_version: ProtocolVersion,
    pub chainspec_hash: Digest,
}

/// The parts of `s` between its `.` characters, in order; the string with no
/// `.` is one part, the empty string one empty part.
pub open spec fn split_dots(s: Seq<char>) -> Seq<Seq<char>>
    decreases s.len(),
{
    if s.len() == 0 {
        seq![Seq::<char>::empty()]
    } else {
        let front = split_dots(s.drop_last());
        if s.last() == '.' {
            front.push(Seq::<char>::empty())
        } else {
            front.update(front.len() - 1, front.last().push(s.last()))
        }
    }
}

/// `s` is one or more decimal digits.
pub open spec fn is_decimal(s: Seq<char>) -> bool {
    &&& s.len() > 0
    &&& forall|i: int| 0 <= i < s.len() ==> '0' <= #[trigger] s[i] <= '9'
}

/// The number written by the decimal digits `s`.
pub open spec fn decimal_value(s: Seq<char>) -> int
    decreases s.len(),
{
    if s.len() == 0 {
        0
    } else {
        decimal_value(s.drop_last()) * 10 + (s.last() as int - '0' as int)
    }
}

/// What reading `s` as a `u32` gives: an optional `+` followed by decimal
/// digits whose value fits in a `u32`; anything else is refused.
pub open spec fn parse_u32(s: Seq<char>) -> Option<u32> {
    let digits = if s.len() > 0 && s[0] == '+' { s.skip(1) } else { s };
    if is_decimal(digits) && decimal_value(digits) <= u32::MAX {
        Some(decimal_value(digits) as u32)
    } else {
        None
    }
}

/// What reading `s` as a protocol version `major.minor.patch` gives: exactly
/// three parts between dots, each read as a `u32`.
pub open spec fn parse_semver(s: Seq<char>) -> Option<(u32, u32, u32)> {
    let parts = split_dots(s);
    if parts.len() == 3 && parse_u32(parts[0]) is Some && parse_u32(parts[1]) is Some
        && parse_u32(parts[2]) is Some {
        Some((parse_u32(parts[0])->Some_0, parse_u32(parts[1])->Some_0, parse_u32(parts[2])->Some_0))
    } else {
        None
    }
}

/// Reads a protocol version written `major.minor.patch`.
///
/// Calls `<casper_types::ProtocolVersion as FromStr>::from_str`, which splits
/// `s` at each `.`, refuses it unless there are exactly three parts, and reads
/// each part with `u32::from_str`, documented to take an optional `+` followed
/// by decimal digits and to refuse anything else or a value above `u32::MAX`:
/// claimed to be [`parse_semver`] of `s`. Which error it was is dropped.
#[verifier::external_body]
fn protocol_version_from_str(s: &str) -> (r: Option<ProtocolVersion>)
    ensures
        r == (match parse_semver(s@) {
            Some((major, minor, patch)) => Some(ProtocolVersion { major, minor, patch }),
            None => None::<ProtocolVersion>,
        }),
{
    match casper_types::ProtocolVersion::from_str(s) {
        Ok(v) => Some(ProtocolVersion { major: v.value().major, minor: v.value().minor, patch: v.value().patch }),
        Err(_) => None,
    }
}

impl ChainIdentity {
    /// The identity of a chainspec with the network name, the protocol version
    /// written `major.minor.patch` and the hash given; `None` where the
    /// protocol version is not read.
    pub fn new(network_name: String, protocol_version: &str, chainspec_hash: Digest) -> (r: Option<Self>)
        ensures
            parse_semver(protocol_version@) is None ==> r is None,
            parse_semver(protocol_version@) is Some ==> r is Some && r->Some_0.network_name@
                == network_name@ && r->Some_0.chainspec_hash.0@ == chainspec_hash.0@
                && r->Some_0.protocol_version == (ProtocolVersion {
                    major: parse_semver(protocol_version@)->Some_0.0,
                    minor: parse_semver(protocol_version@)->Some_0.1,
                    patch: parse_semver(protocol_version@)->Some_0.2,
                }),
    {
        match protocol_version_from_str(protocol_version) {
            Some(version) => Some(ChainIdentity { network_name, protocol_version: version, chainspec_hash }),
            None => None,
        }
    }
}

/// The fields of the handshake this node sends: its network name, public
/// address, protocol version and chainspec hash; it is not syncing, and it
/// carries no consensus certificate.
pub struct OwnHandshake {
    pub network_name: String,
    pub public_addr: PeerAddr,
    pub protocol_version: ProtocolVersion,
    pub is_syncing: bool,
    pub chainspec_hash: Option<Digest>,
}

/// The handshake this node sends, from public address `public_addr`, as the
/// node whose chainspec is `local`. It is valid for a node with the same
/// chainspec.
pub fn our_handshake(local: &ChainIdentity, public_addr: PeerAddr) -> (r: OwnHandshake)
    ensures
        r.network_name@ == local.network_name@,
        r.public_addr == public_addr,
        r.protocol_version == local.protocol_version,
        !r.is_syncing,
        r.chainspec_hash == Some(local.chainspec_hash),
        valid_handshake(r.network_name@, r.protocol_version, r.chainspec_hash, *local),
{
    OwnHandshake {
        network_name: local.network_name.clone(),
        public_addr,
        protocol_version: local.protocol_version,
        is_syncing: false,
        chainspec_hash: Some(local.chainspec_hash),
    }
}

/// A handshake is valid when it is from the same network, speaks the same
/// protocol version and carries the hash of the same chainspec.
pub open spec fn valid_handshake(
    network_name: Seq<char>,
    protocol_version: ProtocolVersion,
    chainspec_hash: Option<Digest>,
    local: ChainIdentity,
) -> bool {
    &&& network_name == local.network_name@
    &&& protocol_version == local.protocol_version
    &&& chainspec_hash is Some
    &&& chainspec_hash->Some_0.0@ == local.chainspec_hash.0@
}

/// Checks the parameters of a peer's handshake against this node's chainspec.
pub fn is_valid_handshake_parameters(
    network_name: &String,
    protocol_version: &ProtocolVersion,
    chainspec_hash: &Option<Digest>,
    local: &ChainIdentity,
) -> (r: bool)
    ensures
        r == valid_handshake(network_name@, *protocol_version, *chainspec_hash, *local),
        r <==> (network_name@ == local.network_name@ && *protocol_version == local.protocol_version
            && chainspec_hash is Some && chainspec_hash->Some_0.0@ == local.chainspec_hash.0@),
{
    // Check if the handshake is from the correct network
    if *network_name != local.network_name {
        return false;
    }
    // Check if the peer is the correct protocol version
    if *protocol_version != local.protocol_version {
        return false;
    }
    // Check if the peer has Chainspec config.
    let peer_chainspec_hash = match chainspec_hash {
        Some(hash) => hash,
        None => return false,
    };
    // Check if the peer has the same Chainspec config hash
    peer_chainspec_hash.equals(&local.chainspec_hash)
}

/// The peers this node sent a handshake to and awaits a reply from, and the
/// peers with which the handshake is complete, in the order they were added.
pub struct PeerState {
    pub awaiting: Seq<PeerAddr>,
    pub connected: Seq<PeerAddr>,
}

/// What handling a handshake from a peer calls for.
#[derive(Clone, Copy, Debug, PartialEq, Eq, Structural)]
pub enum HandshakeAction {
    /// The handshake with the peer was already complete: ignore the redundant
    /// handshake.
    Ignore,
    /// The peer replied to our handshake with valid parameters: the handshake
    /// is complete.
    Complete,
    /// The handshake parameters are bad: log the error.
    Reject,
    /// A valid handshake from a peer we did not contact: notify the event
    /// loop and send back our own handshake.
    Reply,
}

/// Every peer but `peer`.
pub open spec fn other_than(peer: PeerAddr) -> spec_fn(PeerAddr) -> bool {
    |a: PeerAddr| a != peer
}

/// The next state and the action after a handshake from `peer`, whose
/// parameters are valid or not.
pub open spec fn handshake_step(s: PeerState, peer: PeerAddr, valid: bool) -> (PeerState, HandshakeAction) {
    if s.connected.contains(peer) {
        (s, HandshakeAction::Ignore)
    } else if s.awaiting.contains(peer) {
        if valid {
            (
                PeerState {
                    awaiting: s.awaiting.filter(other_than(peer)),
                    connected: s.connected.push(peer),
                },
                HandshakeAction::Complete,
            )
        } else {
            (s, HandshakeAction::Reject)
        }
    } else if !valid {
        (s, HandshakeAction::Reject)
    } else {
        (s, HandshakeAction::Reply)
    }
}

/// No peer is both awaited and connected.
pub open spec fn disjoint(s: PeerState) -> bool {
    forall|p: PeerAddr| !(#[trigger] s.awaiting.contains(p) && s.connected.contains(p))
}

/// The handshake this node sends, carrying its own network name, protocol
/// version and chainspec hash, is valid for a node with the same chainspec.
pub proof fn lemma_own_handshake_valid(local: ChainIdentity)
    ensures
        valid_handshake(local.network_name@, local.protocol_version, Some(local.chainspec_hash), local),
{
}

/// A handshake is valid exactly when it names our network, speaks exactly our
/// protocol version (major, minor and patch) and carries our chainspec hash.
pub proof fn lemma_valid_handshake_matches(
    network_name: Seq<char>,
    protocol_version: ProtocolVersion,
    chainspec_hash: Option<Digest>,
    local: ChainIdentity,
)
    ensures
        valid_handshake(network_name, protocol_version, chainspec_hash, local) <==> (network_name
            == local.network_name@ && protocol_version.major == local.protocol_version.major
            && protocol_version.minor == local.protocol_version.minor && protocol_version.patch
            == local.protocol_version.patch && chainspec_hash is Some && chainspec_hash->Some_0.0@
            == local.chainspec_hash.0@),
{
}

/// What a handshake from `peer` leads to: it is completed or answered only if
/// it names our network, speaks our protocol version and carries our chainspec
/// hash; from a peer we contacted and not yet connected, such a handshake
/// completes the connection; one that does not match, from a peer not yet
/// connected, is rejected and changes nothing.
pub proof fn lemma_handshake_outcome(
    s: PeerState,
    peer: PeerAddr,
    network_name: Seq<char>,
    protocol_version: ProtocolVersion,
    chainspec_hash: Option<Digest>,
    local: ChainIdentity,
)
    ensures
        ({
            let (t, action) = handshake_step(
                s,
                peer,
                valid_handshake(network_name, protocol_version, chainspec_hash, local),
            );
            let matches = network_name == local.network_name@ && protocol_version
                == local.protocol_version && chainspec_hash is Some && chainspec_hash->Some_0.0@
                == local.chainspec_hash.0@;
            &&& (action == HandshakeAction::Complete || action == HandshakeAction::Reply) ==> matches
            &&& (!s.connected.contains(peer) && s.awaiting.contains(peer) && matches) ==> action
                == HandshakeAction::Complete && t.connected.contains(peer)
            &&& (!s.connected.contains(peer) && !s.awaiting.contains(peer) && matches) ==> action
                == HandshakeAction::Reply
            &&& (!s.connected.contains(peer) && !matches) ==> action == HandshakeAction::Reject && t
                == s
            &&& s.connected.contains(peer) ==> action == HandshakeAction::Ignore && t == s
        }),
{
    let t = handshake_step(s, peer, valid_handshake(network_name, protocol_version, chainspec_hash, local)).0;
    if !s.connected.contains(peer) && s.awaiting.contains(peer) && valid_handshake(
        network_name,
        protocol_version,
        chainspec_hash,
        local,
    ) {
        assert(t.connected[t.connected.len() - 1] == peer);
    }
}

/// Handling a handshake keeps every connected peer connected, in order.
pub proof fn lemma_handshake_keeps_connected(s: PeerState, peer: PeerAddr, valid: bool)
    ensures
        handshake_step(s, peer, valid).0.connected.take(s.connected.len() as int) == s.connected,
{
    assert(s.connected.take(s.connected.len() as int) =~= s.connected);
    assert(s.connected.push(peer).take(s.connected.len() as int) =~= s.connected);
}

/// Handling a handshake never puts a peer in both lists.
pub proof fn lemma_handshake_keeps_disjoint(s: PeerState, peer: PeerAddr, valid: bool)
    requires
        disjoint(s),
    ensures
        disjoint(handshake_step(s, peer, valid).0),
{
    let t = handshake_step(s, peer, valid).0;
    assert forall|p: PeerAddr| !(#[trigger] t.awaiting.contains(p) && t.connected.contains(p)) by {
        if !s.connected.contains(peer) && s.awaiting.contains(peer) && valid {
            if t.awaiting.contains(p) {
                let k = choose|k: int| 0 <= k < t.awaiting.len() && t.awaiting[k] == p;
                s.awaiting.lemma_filter_pred(other_than(peer), k);
                s.awaiting.lemma_filter_contains_rev(other_than(peer), p);
                if t.connected.contains(p) {
                    let j = choose|j: int| 0 <= j < t.connected.len() && t.connected[j] == p;
                    if j < s.connected.len() {
                        assert(s.connected[j] == p);
                    }
                }
            }
        }
    }
}

/// A peer whose reply completed the handshake is connected and no longer
/// awaited; any further handshake from it is ignored.
pub proof fn lemma_completed_handshake(s: PeerState, peer: PeerAddr, valid: bool, later_valid: bool)
    requires
        handshake_step(s, peer, valid).1 == HandshakeAction::Complete,
    ensures
        handshake_step(s, peer, valid).0.connected.contains(peer),
        !handshake_step(s, peer, valid).0.awaiting.contains(peer),
        handshake_step(handshake_step(s, peer, valid).0, peer, later_valid).1 == HandshakeAction::Ignore,
{
    let t = handshake_step(s, peer, valid).0;
    assert(t.connected[t.connected.len() - 1] == peer);
    if t.awaiting.contains(peer) {
        let k = choose|k: int| 0 <= k < t.awaiting.len() && t.awaiting[k] == peer;
        s.awaiting.lemma_filter_pred(other_than(peer), k);
    }
}

/// Only a valid handshake completes or is answered; an invalid one leaves the
/// bookkeeping as it was.
pub proof fn lemma_invalid_handshake_changes_nothing(s: PeerState, peer: PeerAddr)
    ensures
        handshake_step(s, peer, false).0 == s,
        handshake_step(s, peer, false).1 != HandshakeAction::Complete,
        handshake_step(s, peer, false).1 != HandshakeAction::Reply,
{
}

/// The bookkeeping of the handshakes with peers.
pub struct PeerTable {
    awaiting_hs_reply_from: Vec<PeerAddr>,
    fully_connected_peers: Vec<PeerAddr>,
}

impl View for PeerTable {
    type V = PeerState;

    closed spec fn view(&self) -> PeerState {
        PeerState {
            awaiting: self.awaiting_hs_reply_from@,
            connected: self.fully_connected_peers@,
        }
    }
}

fn contains(peers: &Vec<PeerAddr>, peer: PeerAddr) -> (r: bool)
    ensures
        r == peers@.contains(peer),
{
    let mut i: usize = 0;
    while i < peers.len()
        invariant
            i <= peers@.len(),
            forall|j: int| 0 <= j < i ==> peers@[j] != peer,
        decreases peers@.len() - i,
    {
        if peers[i] == peer {
            proof {
                assert(peers@[i as int] == peer);
            }
            return true;
        }
        i = i + 1;
    }
    false
}

fn without(peers: &Vec<PeerAddr>, peer: PeerAddr) -> (r: Vec<PeerAddr>)
    ensures
        r@ == peers@.filter(other_than(peer)),
{
    let ghost keep = other_than(peer);
    let mut kept: Vec<PeerAddr> = Vec::new();
    let mut i: usize = 0;
    while i < peers.len()
        invariant
            i <= peers@.len(),
            keep == other_than(peer),
            kept@ == peers@.take(i as int).filter(keep),
        decreases peers@.len() - i,
    {
        let ghost before = kept@;
        let current = peers[i];
        if current != peer {
            kept.push(current);
        }
        proof {
            reveal_with_fuel(Seq::filter, 1);
            let next = peers@.take(i + 1);
            assert(next.drop_last() =~= peers@.take(i as int));
            assert(next.last() == current);
            assert(keep(current) == (current != peer));
            assert(next.filter(keep) == (if keep(current) { before.push(current) } else { before }));
        }
        i = i + 1;
    }
    proof {
        assert(peers@.take(peers@.len() as int) =~= peers@);
    }
    kept
}

impl PeerTable {
    /// No handshake sent, no peer connected.
    pub fn new() -> (r: Self)
        ensures
            r@.awaiting == Seq::<PeerAddr>::empty(),
            r@.connected == Seq::<PeerAddr>::empty(),
    {
        PeerTable { awaiting_hs_reply_from: Vec::new(), fully_connected_peers: Vec::new() }
    }

    /// A handshake was sent to `peer`: a reply from it is awaited.
    pub fn handshake_sent(&mut self, peer: PeerAddr)
        ensures
            final(self)@.awaiting == old(self)@.awaiting.push(peer),
            final(self)@.connected == old(self)@.connected,
    {
        self.awaiting_hs_reply_from.push(peer);
    }

    /// Our handshake was sent back to `peer`, which is now connected.
    pub fn reply_sent(&mut self, peer: PeerAddr)
        ensures
            final(self)@.awaiting == old(self)@.awaiting,
            final(self)@.connected == old(self)@.connected.push(peer),
    {
        self.fully_connected_peers.push(peer);
    }

    /// Whether a reply to our handshake is awaited from `peer`.
    pub fn is_awaiting(&self, peer: PeerAddr) -> (r: bool)
        ensures
            r == self@.awaiting.contains(peer),
    {
        contains(&self.awaiting_hs_reply_from, peer)
    }

    /// Whether the handshake with `peer` is complete.
    pub fn is_connected(&self, peer: PeerAddr) -> (r: bool)
        ensures
            r == self@.connected.contains(peer),
    {
        contains(&self.fully_connected_peers, peer)
    }

    /// Handles a handshake from `peer` carrying the given parameters: a
    /// redundant handshake from a connected peer is ignored; a reply from a
    /// peer we contacted completes the handshake when its parameters are
    /// valid; an unsolicited handshake with valid parameters is to be answered.
    pub fn handle_handshake(
        &mut self,
        peer: PeerAddr,
        network_name: &String,
        protocol_version: &ProtocolVersion,
        chainspec_hash: &Option<Digest>,
        local: &ChainIdentity,
    ) -> (r: HandshakeAction)
        ensures
            ({
                let valid = valid_handshake(network_name@, *protocol_version, *chainspec_hash, *local);
                (final(self)@, r) == handshake_step(old(self)@, peer, valid)
            }),
    {
        if self.is_connected(peer) {
            return HandshakeAction::Ignore;
        }
        if self.is_awaiting(peer) {
            if is_valid_handshake_parameters(network_name, protocol_version, chainspec_hash, local) {
                // Remove the peer since we are through with the handshake.
                self.awaiting_hs_reply_from = without(&self.awaiting_hs_reply_from, peer);
                self.fully_connected_peers.push(peer);
                return HandshakeAction::Complete;
            } else {
                return HandshakeAction::Reject;
            }
        }
        if !is_valid_handshake_parameters(network_name, protocol_version, chainspec_hash, local) {
            return HandshakeAction::Reject;
        }
        HandshakeAction::Reply
    }
}

/// The kinds of message of the Casper network protocol.
#[derive(Clone, Copy, Debug, PartialEq, Eq, Structural)]
pub enum MessageKind {
    Handshake,
    Ping,
    Pong,
    Payload,
}

/// Where an incoming message goes.
#[derive(Clone, Copy, Debug, PartialEq, Eq, Structural)]
pub enum IncomingRoute {
    /// A handshake: handle it.
    Handshake,
    /// Any other message read in the handshake encoding: post-handshake
    /// traffic, ignored.
    Ignore,
    /// A message that only the internal encoding reads: forward it to the
    /// event loop.
    Forward,
    /// A message that neither encoding reads: dropped with a warning.
    Drop,
}

/// Routes an incoming message, given the kind of message read from it in the
/// handshake encoding, if it could be read so, and whether it could be read
/// in the internal encoding.
pub fn route_incoming(handshake_encoding: Option<MessageKind>, internal_encoding_reads: bool) -> (r: IncomingRoute)
    ensures
        handshake_encoding == Some(MessageKind::Handshake) ==> r == IncomingRoute::Handshake,
        handshake_encoding is Some && handshake_encoding != Some(MessageKind::Handshake) ==> r
            == IncomingRoute::Ignore,
        handshake_encoding is None && internal_encoding_reads ==> r == IncomingRoute::Forward,
        handshake_encoding is None && !internal_encoding_reads ==> r == IncomingRoute::Drop,
{
    match handshake_encoding {
        Some(MessageKind::Handshake) => IncomingRoute::Handshake,
        Some(_) => IncomingRoute::Ignore,
        None => if internal_encoding_reads {
            IncomingRoute::Forward
        } else {
            IncomingRoute::Drop
        },
    }
}

/// The peer the node pings on an event: on a handshake, the bootnode, if
/// there is one; on anything else, none.
pub fn ping_target(event: MessageKind, bootnode_addr: Option<PeerAddr>) -> (r: Option<PeerAddr>)
    ensures
        r == (if event == MessageKind::Handshake { bootnode_addr } else { None::<PeerAddr> }),
{
    match event {
        MessageKind::Handshake => bootnode_addr,
        _ => None,
    }
}

} // verus!
