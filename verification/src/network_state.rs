//! What a node knows of its own place in the network, and the form in which the
//! runtime gets to see it.
//!
//! A [`NetworkState`] names the node by its peer id and lists the addresses under which
//! it can be reached. The peer id is held as the bytes that the network layer writes
//! for it, an address as the text that the network layer prints for it. The runtime
//! gets every part as an opaque blob: the part in the SCALE format.

use vstd::prelude::*;
use vstd::string::*;
use vstd::utf8::*;
use crate::scale;

verus! {

/// The peer id that the network layer reads from `bytes`, written back as bytes:
/// `PeerId::from_bytes` of `libp2p-identity`, then `PeerId::to_bytes`. There is none if
/// the network layer refuses the bytes.
pub uninterp spec fn peer_id_bytes(bytes: Seq<u8>) -> Option<Seq<u8>>;

/// The address that the network layer reads from `text`, printed again: `from_str` of
/// `multiaddr` for `Multiaddr`, then `to_string`. There is none if the network layer
/// refuses the text.
pub uninterp spec fn multiaddr_text(text: Seq<char>) -> Option<Seq<char>>;

/// Reads a peer id from bytes and writes it back: `PeerId::from_bytes` of
/// `libp2p-identity`, then `PeerId::to_bytes` on the peer id read.
///
/// Taken on trust: nothing but that the outcome depends on the bytes alone.
#[verifier::external_body]
fn parse_peer_id(bytes: &[u8]) -> (out: Option<Vec<u8>>)
    ensures
        out matches Some(id) ==> peer_id_bytes(bytes@) == Some(id@),
        out is None ==> peer_id_bytes(bytes@) is None,
{
    match libp2p_identity::PeerId::from_bytes(bytes) {
        Ok(id) => Some(id.to_bytes()),
        Err(_) => None,
    }
}

/// Reads an address from text and prints it again: `from_str` of `multiaddr` for
/// `Multiaddr`, then `to_string` on the address read.
///
/// Taken on trust: nothing but that the outcome depends on the text alone.
#[verifier::external_body]
fn parse_multiaddr(text: &str) -> (out: Option<String>)
    ensures
        out matches Some(address) ==> multiaddr_text(text@) == Some(address@),
        out is None ==> multiaddr_text(text@) is None,
{
    match <multiaddr::Multiaddr as std::str::FromStr>::from_str(text) {
        Ok(address) => Some(address.to_string()),
        Err(_) => None,
    }
}

/// Reads bytes as text: `String::from_utf8` of std.
///
/// Taken on trust: the bytes are accepted exactly if they are UTF-8, and the text is
/// then the text that they encode.
#[verifier::external_body]
fn string_from_utf8(bytes: Vec<u8>) -> (out: Option<String>)
    ensures
        out matches Some(text) ==> valid_utf8(bytes@) && text@ == decode_utf8(bytes@),
        out is None ==> !valid_utf8(bytes@),
{
    match String::from_utf8(bytes) {
        Ok(text) => Some(text),
        Err(_) => None,
    }
}

/// A peer id as the runtime sees it.
#[derive(Clone, Debug, PartialEq, Eq)]
pub struct OpaquePeerId(pub Vec<u8>);

impl OpaquePeerId {
    /// Wraps the bytes.
    pub fn new(vec: Vec<u8>) -> (id: Self)
        ensures
            id.0 == vec,
    {
        OpaquePeerId(vec)
    }
}

/// An address as the runtime sees it.
#[derive(Clone, Debug, PartialEq, Eq)]
pub struct OpaqueMultiaddr(pub Vec<u8>);

impl OpaqueMultiaddr {
    /// Wraps the bytes.
    pub fn new(vec: Vec<u8>) -> (address: Self)
        ensures
            address.0 == vec,
    {
        OpaqueMultiaddr(vec)
    }
}

/// The network state of a node as the runtime sees it.
#[derive(Clone, Debug, PartialEq, Eq)]
pub struct OpaqueNetworkState {
    /// The peer id of the node.
    pub peer_id: OpaquePeerId,
    /// The addresses under which the node can be reached.
    pub external_addresses: Vec<OpaqueMultiaddr>,
}

/// What an [`OpaqueNetworkState`] holds.
pub struct OpaqueNetworkStateView {
    /// The blob of the peer id.
    pub peer_id: Seq<u8>,
    /// The blobs of the addresses.
    pub external_addresses: Seq<Seq<u8>>,
}

impl View for OpaqueNetworkState {
    type V = OpaqueNetworkStateView;

    open spec fn view(&self) -> OpaqueNetworkStateView {
        OpaqueNetworkStateView {
            peer_id: self.peer_id.0@,
            external_addresses: Seq::new(
                self.external_addresses.len() as nat,
                |i: int| self.external_addresses[i].0@,
            ),
        }
    }
}

/// The network state of a node.
#[derive(Clone, Debug, PartialEq, Eq)]
pub struct NetworkState {
    peer_id: Vec<u8>,
    external_addresses: Vec<String>,
}

/// What a [`NetworkState`] holds.
pub struct NetworkStateView {
    /// The bytes of the peer id.
    pub peer_id: Seq<u8>,
    /// The text of each address.
    pub external_addresses: Seq<Seq<char>>,
}

impl View for NetworkState {
    type V = NetworkStateView;

    closed spec fn view(&self) -> NetworkStateView {
        NetworkStateView {
            peer_id: self.peer_id@,
            external_addresses: Seq::new(
                self.external_addresses.len() as nat,
                |i: int| self.external_addresses[i]@,
            ),
        }
    }
}

impl NetworkStateView {
    /// Whether every part is short enough to be put in the SCALE format.
    pub open spec fn encodable(self) -> bool {
        &&& self.peer_id.len() <= scale::MAX_LEN
        &&& forall|i: int|
            0 <= i < self.external_addresses.len() ==> encode_utf8(
                #[trigger] self.external_addresses[i],
            ).len() <= scale::MAX_LEN
    }

    /// The state as the runtime sees it: the bytes of the peer id and the UTF-8 bytes of
    /// each address, each in the SCALE format.
    pub open spec fn opaque(self) -> OpaqueNetworkStateView {
        OpaqueNetworkStateView {
            peer_id: scale::encoded(self.peer_id),
            external_addresses: Seq::new(
                self.external_addresses.len(),
                |i: int| scale::encoded(encode_utf8(self.external_addresses[i])),
            ),
        }
    }

    /// Whether the network layer accepts every part.
    pub open spec fn accepted(self) -> bool {
        &&& peer_id_bytes(self.peer_id) is Some
        &&& forall|i: int|
            0 <= i < self.external_addresses.len() ==> multiaddr_text(
                #[trigger] self.external_addresses[i],
            ) is Some
    }

    /// The state as the network layer reads it: every part read and put back in the
    /// form that the network layer gives it. There is none if the network layer refuses
    /// a part.
    pub open spec fn parsed(self) -> Option<NetworkStateView> {
        if self.accepted() {
            Some(
                NetworkStateView {
                    peer_id: peer_id_bytes(self.peer_id).unwrap(),
                    external_addresses: Seq::new(
                        self.external_addresses.len(),
                        |i: int| multiaddr_text(self.external_addresses[i]).unwrap(),
                    ),
                },
            )
        } else {
            None
        }
    }

    /// Whether the state holds every part in the form that the network layer gives it:
    /// reading a part and putting it back changes nothing.
    pub open spec fn canonical(self) -> bool {
        self.parsed() == Some(self)
    }
}

/// The text that a blob holds: the blob is a byte string in the SCALE format and the
/// bytes are UTF-8.
pub open spec fn decoded_text(blob: Seq<u8>) -> Option<Seq<char>> {
    match scale::decoded(blob) {
        Some(bytes) => if valid_utf8(bytes) {
            Some(decode_utf8(bytes))
        } else {
            None
        },
        None => None,
    }
}

impl OpaqueNetworkStateView {
    /// Whether every blob holds what it is meant to hold: a byte string, and for an
    /// address one that is UTF-8.
    pub open spec fn well_formed(self) -> bool {
        &&& scale::decoded(self.peer_id) is Some
        &&& forall|i: int|
            0 <= i < self.external_addresses.len() ==> decoded_text(
                #[trigger] self.external_addresses[i],
            ) is Some
    }

    /// The parts that the blobs hold, not yet read by the network layer. There are none
    /// if a blob is not well formed.
    pub open spec fn decoded(self) -> Option<NetworkStateView> {
        if self.well_formed() {
            Some(
                NetworkStateView {
                    peer_id: scale::decoded(self.peer_id).unwrap(),
                    external_addresses: Seq::new(
                        self.external_addresses.len(),
                        |i: int| decoded_text(self.external_addresses[i]).unwrap(),
                    ),
                },
            )
        } else {
            None
        }
    }

    /// The network state that the blobs stand for: their parts as the network layer
    /// reads them. There is none if a blob is not well formed or the network layer
    /// refuses a part.
    pub open spec fn network_state(self) -> Option<NetworkStateView> {
        match self.decoded() {
            Some(parts) => parts.parsed(),
            None => None,
        }
    }
}

impl NetworkState {
    /// A state made of the bytes of a peer id and the text of each address.
    pub fn new(peer_id: Vec<u8>, external_addresses: Vec<String>) -> (state: Self)
        ensures
            state@.peer_id == peer_id@,
            state@.external_addresses == Seq::new(
                external_addresses.len() as nat,
                |i: int| external_addresses[i]@,
            ),
    {
        NetworkState { peer_id, external_addresses }
    }

    /// The bytes of the peer id.
    pub fn peer_id(&self) -> (peer_id: &Vec<u8>)
        ensures
            peer_id@ == self@.peer_id,
    {
        &self.peer_id
    }

    /// The text of each address.
    pub fn external_addresses(&self) -> (addresses: &Vec<String>)
        ensures
            addresses.len() == self@.external_addresses.len(),
            forall|i: int|
                0 <= i < addresses.len() ==> (#[trigger] addresses[i])@
                    == self@.external_addresses[i],
    {
        &self.external_addresses
    }

    /// Puts together what the network layer made of each part of a state: the peer id
    /// and the addresses, each either read or refused.
    ///
    /// There is a state exactly if no part was refused, and it holds the parts as they
    /// were read.
    pub fn from_parsed(peer_id: Option<Vec<u8>>, addresses: &Vec<Option<String>>) -> (r: Result<
        NetworkState,
        (),
    >)
        ensures
            r is Ok <==> peer_id is Some && forall|i: int|
                0 <= i < addresses.len() ==> (#[trigger] addresses[i]) is Some,
            r matches Ok(state) ==> {
                &&& state@.peer_id == peer_id.unwrap()@
                &&& state@.external_addresses == Seq::new(
                    addresses.len() as nat,
                    |i: int| addresses[i].unwrap()@,
                )
            },
    {
        let peer_id = match peer_id {
            Some(peer_id) => peer_id,
            None => {
                return Err(());
            },
        };
        let mut external_addresses: Vec<String> = Vec::new();
        let mut i: usize = 0;
        while i < addresses.len()
            invariant
                i <= addresses.len(),
                external_addresses.len() == i,
                forall|j: int| 0 <= j < i ==> (#[trigger] addresses[j]) is Some,
                forall|j: int|
                    0 <= j < i ==> (#[trigger] external_addresses[j])@ == addresses[j].unwrap()@,
            decreases addresses.len() - i,
        {
            match &addresses[i] {
                Some(address) => {
                    external_addresses.push(address.clone());
                },
                None => {
                    return Err(());
                },
            }
            i += 1;
        }
        let state = NetworkState { peer_id, external_addresses };
        assert(state@.external_addresses =~= Seq::new(
            addresses.len() as nat,
            |i: int| addresses[i].unwrap()@,
        ));
        Ok(state)
    }

    /// Has the network layer read every part of the state.
    ///
    /// Succeeds exactly if the network layer accepts every part; the state returned holds
    /// each part in the form that the network layer gives it.
    pub fn parsed(&self) -> (r: Result<NetworkState, ()>)
        ensures
            match r {
                Ok(state) => self@.parsed() == Some(state@),
                Err(_) => self@.parsed() is None,
            },
    {
        let peer_id = parse_peer_id(self.peer_id.as_slice());
        let mut addresses: Vec<Option<String>> = Vec::new();
        let mut i: usize = 0;
        while i < self.external_addresses.len()
            invariant
                i <= self.external_addresses.len(),
                addresses.len() == i,
                forall|j: int|
                    0 <= j < i ==> match #[trigger] addresses[j] {
                        Some(address) => multiaddr_text(self.external_addresses[j]@) == Some(
                            address@,
                        ),
                        None => multiaddr_text(self.external_addresses[j]@) is None,
                    },
            decreases self.external_addresses.len() - i,
        {
            addresses.push(parse_multiaddr(self.external_addresses[i].as_str()));
            i += 1;
        }
        let r = Self::from_parsed(peer_id, &addresses);
        proof {
            let view = self@;
            assert forall|j: int| 0 <= j < view.external_addresses.len() implies (
            #[trigger] addresses[j] is Some) == (multiaddr_text(view.external_addresses[j])
                is Some) by {
                assert(view.external_addresses[j] == self.external_addresses[j]@);
            }
            if r is Ok {
                assert forall|j: int| 0 <= j < view.external_addresses.len() implies multiaddr_text(
                    #[trigger] view.external_addresses[j],
                ) is Some by {
                    assert(addresses[j] is Some);
                }
                assert(view.accepted());
                assert(r.unwrap()@.external_addresses =~= view.parsed().unwrap().external_addresses);
            } else {
                if peer_id is Some {
                    let j = choose|j: int| 0 <= j < addresses.len() && !(#[trigger] addresses[j]
                        is Some);
                    assert(multiaddr_text(view.external_addresses[j]) is None);
                }
                assert(!view.accepted());
            }
        }
        r
    }

    /// Takes the parts out of their blobs, without having the network layer read them.
    ///
    /// Succeeds exactly if every blob is a byte string in the SCALE format and the bytes
    /// of every address are UTF-8.
    pub fn decode(state: &OpaqueNetworkState) -> (r: Result<NetworkState, ()>)
        ensures
            match r {
                Ok(parts) => state@.decoded() == Some(parts@),
                Err(_) => state@.decoded() is None,
            },
    {
        let peer_id = match scale::decode(state.peer_id.0.as_slice()) {
            Some(bytes) => bytes,
            None => {
                return Err(());
            },
        };
        let mut external_addresses: Vec<String> = Vec::new();
        let mut i: usize = 0;
        while i < state.external_addresses.len()
            invariant
                i <= state.external_addresses.len(),
                external_addresses.len() == i,
                forall|j: int|
                    0 <= j < i ==> decoded_text(state.external_addresses[j].0@) == Some(
                        (#[trigger] external_addresses[j])@,
                    ),
            decreases state.external_addresses.len() - i,
        {
            let text = match scale::decode(state.external_addresses[i].0.as_slice()) {
                Some(bytes) => string_from_utf8(bytes),
                None => None,
            };
            match text {
                Some(text) => {
                    external_addresses.push(text);
                },
                None => {
                    assert(decoded_text(state@.external_addresses[i as int]) is None);
                    return Err(());
                },
            }
            i += 1;
        }
        let parts = NetworkState { peer_id, external_addresses };
        proof {
            assert forall|j: int| 0 <= j < state@.external_addresses.len() implies decoded_text(
                #[trigger] state@.external_addresses[j],
            ) is Some by {
                assert(decoded_text(state.external_addresses[j].0@) == Some(
                    external_addresses[j]@,
                ));
            }
            assert(parts@.external_addresses =~= state@.decoded().unwrap().external_addresses);
        }
        Ok(parts)
    }

    /// Reads a network state from the form in which the runtime sees it.
    ///
    /// Succeeds exactly if every blob is well formed and the network layer accepts what
    /// it holds; the state returned holds each part in the form that the network layer
    /// gives it.
    pub fn try_from(state: OpaqueNetworkState) -> (r: Result<NetworkState, ()>)
        ensures
            match r {
                Ok(read) => state@.network_state() == Some(read@),
                Err(_) => state@.network_state() is None,
            },
    {
        let parts = Self::decode(&state)?;
        parts.parsed()
    }
}

impl OpaqueNetworkState {
    /// Puts a network state in the form in which the runtime sees it: every part in the
    /// SCALE format, an address as the UTF-8 bytes of its text.
    pub fn from(state: NetworkState) -> (opaque: OpaqueNetworkState)
        requires
            state@.encodable(),
        ensures
            opaque@ == state@.opaque(),
    {
        let peer_id = OpaquePeerId::new(scale::encode(state.peer_id.as_slice()));
        let mut external_addresses: Vec<OpaqueMultiaddr> = Vec::new();
        let mut i: usize = 0;
        while i < state.external_addresses.len()
            invariant
                i <= state.external_addresses.len(),
                external_addresses.len() == i,
                state@.encodable(),
                forall|j: int|
                    0 <= j < i ==> (#[trigger] external_addresses[j]).0@ == scale::encoded(
                        encode_utf8(state.external_addresses[j]@),
                    ),
            decreases state.external_addresses.len() - i,
        {
            let text = state.external_addresses[i].as_str();
            assert(text@ == state@.external_addresses[i as int]);
            let blob = scale::encode(text.as_bytes());
            external_addresses.push(OpaqueMultiaddr::new(blob));
            i += 1;
        }
        let opaque = OpaqueNetworkState { peer_id, external_addresses };
        assert(opaque@.external_addresses =~= state@.opaque().external_addresses);
        opaque
    }
}

/// A state that is put in the form in which the runtime sees it, and read back from
/// there, is the state it was: for every state whose parts are short enough to be
/// encoded and are held in the form that the network layer gives them.
pub proof fn law_round_trip(state: NetworkStateView)
    requires
        state.encodable(),
        state.canonical(),
    ensures
        state.opaque().network_state() == Some(state),
{
    let opaque = state.opaque();
    scale::law_decode_inverts_encode(state.peer_id, Seq::empty());
    assert(scale::encoded(state.peer_id) + Seq::<u8>::empty() =~= scale::encoded(state.peer_id));
    assert forall|i: int| 0 <= i < state.external_addresses.len() implies decoded_text(
        #[trigger] opaque.external_addresses[i],
    ) == Some(state.external_addresses[i]) by {
        let text = state.external_addresses[i];
        let bytes = encode_utf8(text);
        scale::law_decode_inverts_encode(bytes, Seq::empty());
        assert(scale::encoded(bytes) + Seq::<u8>::empty() =~= scale::encoded(bytes));
        encode_utf8_valid_utf8(text);
        encode_utf8_decode_utf8(text);
    }
    assert(opaque.well_formed());
    let parts = opaque.decoded().unwrap();
    assert(parts.external_addresses =~= state.external_addresses);
    assert(parts == state);
}

} // verus!
