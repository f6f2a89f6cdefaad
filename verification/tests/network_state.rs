use manual_seal::network_state::{
    NetworkState, OpaqueMultiaddr, OpaqueNetworkState, OpaquePeerId,
};

/// The bytes of a peer id made of 32 random bytes, as the network layer writes it.
fn random_peer_id() -> Vec<u8> {
    let digest: [u8; 32] = rand::random();
    let mut bytes = vec![0x00, 0x20];
    bytes.extend_from_slice(&digest);
    bytes
}

fn fixed_peer_id() -> Vec<u8> {
    let mut bytes = vec![0x00, 0x20];
    bytes.extend((1..=32).map(|i| i as u8));
    bytes
}

fn blob(len_prefix: &[u8], data: &[u8]) -> Vec<u8> {
    let mut blob = len_prefix.to_vec();
    blob.extend_from_slice(data);
    blob
}

#[test]
fn should_convert_network_states() {
    // given
    let state = NetworkState::new(
        random_peer_id(),
        vec![
            "/ip4/127.0.0.1/tcp/1234".to_string(),
            "/ip6/2601:9:4f81:9700:803e:ca65:66e8:c21".to_string(),
        ],
    );

    // when
    let opaque_state = OpaqueNetworkState::from(state.clone());
    let converted_back_state = NetworkState::try_from(opaque_state).unwrap();

    // then
    assert_eq!(state, converted_back_state);
}

#[test]
fn new_state_holds_what_it_was_given() {
    let state = NetworkState::new(vec![1, 2, 3], vec!["a".to_string(), "b".to_string()]);
    assert_eq!(state.peer_id(), &vec![1, 2, 3]);
    assert_eq!(state.external_addresses(), &vec!["a".to_string(), "b".to_string()]);
}

#[test]
fn opaque_state_holds_every_part_in_scale_format() {
    let state = NetworkState::new(fixed_peer_id(), vec!["/ip4/127.0.0.1/tcp/1234".to_string()]);
    let opaque = OpaqueNetworkState::from(state);
    // 34 bytes: the length byte is 34 * 4
    assert_eq!(opaque.peer_id, OpaquePeerId(blob(&[136], &fixed_peer_id())));
    // 23 bytes of text: the length byte is 23 * 4
    assert_eq!(
        opaque.external_addresses,
        vec![OpaqueMultiaddr(blob(&[92], b"/ip4/127.0.0.1/tcp/1234"))]
    );
}

#[test]
fn state_without_addresses_converts() {
    let state = NetworkState::new(fixed_peer_id(), vec![]);
    let opaque = OpaqueNetworkState::from(state.clone());
    assert_eq!(opaque.external_addresses, vec![]);
    assert_eq!(NetworkState::try_from(opaque), Ok(state));
}

#[test]
fn lengths_take_one_two_or_four_bytes() {
    for (len, prefix) in [
        (0usize, vec![0u8]),
        (1, vec![4]),
        (63, vec![252]),
        (64, vec![0x01, 0x01]),
        (16383, vec![0xfd, 0xff]),
        (16384, vec![0x02, 0x00, 0x01, 0x00]),
        (70000, vec![0xc2, 0x45, 0x04, 0x00]),
    ] {
        let data = vec![7u8; len];
        let opaque = OpaqueNetworkState::from(NetworkState::new(data.clone(), vec![]));
        assert_eq!(opaque.peer_id.0, blob(&prefix, &data), "length {}", len);
        let decoded = NetworkState::decode(&opaque).unwrap();
        assert_eq!(decoded.peer_id(), &data, "length {}", len);
    }
}

#[test]
fn text_is_encoded_as_utf8() {
    let state = NetworkState::new(vec![], vec!["/dns/größe.example".to_string()]);
    let opaque = OpaqueNetworkState::from(state.clone());
    assert_eq!(
        opaque.external_addresses[0].0,
        blob(&[20 * 4], "/dns/größe.example".as_bytes())
    );
    assert_eq!(NetworkState::decode(&opaque), Ok(state));
}

fn opaque(peer_id: Vec<u8>, addresses: Vec<Vec<u8>>) -> OpaqueNetworkState {
    OpaqueNetworkState {
        peer_id: OpaquePeerId::new(peer_id),
        external_addresses: addresses.into_iter().map(OpaqueMultiaddr::new).collect(),
    }
}

#[test]
fn decode_takes_the_parts_out_of_their_blobs() {
    let state = opaque(vec![12, 1, 2, 3], vec![vec![8, b'h', b'i'], vec![0]]);
    assert_eq!(
        NetworkState::decode(&state),
        Ok(NetworkState::new(vec![1, 2, 3], vec!["hi".to_string(), String::new()]))
    );
}

#[test]
fn decode_does_not_look_at_what_follows_a_part() {
    let state = opaque(vec![4, 9, 0xff, 0xff], vec![vec![4, b'x', 0xc0]]);
    assert_eq!(NetworkState::decode(&state), Ok(NetworkState::new(vec![9], vec!["x".to_string()])));
}

#[test]
fn decode_refuses_blobs_that_are_too_short() {
    assert_eq!(NetworkState::decode(&opaque(vec![], vec![])), Err(()));
    assert_eq!(NetworkState::decode(&opaque(vec![12, 1, 2], vec![])), Err(()));
    assert_eq!(NetworkState::decode(&opaque(vec![0x01], vec![])), Err(()));
    assert_eq!(NetworkState::decode(&opaque(vec![0x02, 0, 1], vec![])), Err(()));
    assert_eq!(NetworkState::decode(&opaque(vec![0x03, 0, 0, 0], vec![])), Err(()));
    assert_eq!(NetworkState::decode(&opaque(vec![0], vec![vec![8, b'h']])), Err(()));
}

#[test]
fn decode_refuses_lengths_in_a_longer_form_than_needed() {
    // 3 in the two-byte form
    assert_eq!(NetworkState::decode(&opaque(vec![0x0d, 0x00, 1, 2, 3], vec![])), Err(()));
    // 3 in the four-byte form
    assert_eq!(NetworkState::decode(&opaque(vec![0x0e, 0, 0, 0, 1, 2, 3], vec![])), Err(()));
    // 3 in the five-byte form
    assert_eq!(NetworkState::decode(&opaque(vec![0x03, 3, 0, 0, 0, 1, 2, 3], vec![])), Err(()));
    // a length of more than four bytes
    assert_eq!(NetworkState::decode(&opaque(vec![0x07, 0, 0, 0, 0, 1], vec![])), Err(()));
}

#[test]
fn decode_refuses_text_that_is_not_utf8() {
    assert_eq!(NetworkState::decode(&opaque(vec![0], vec![vec![4, 0xff]])), Err(()));
    assert_eq!(NetworkState::decode(&opaque(vec![0], vec![vec![8, 0xc3, 0x28]])), Err(()));
    assert_eq!(
        NetworkState::decode(&opaque(vec![0], vec![vec![4, b'a'], vec![8, 0xed, 0xa0]])),
        Err(())
    );
}

#[test]
fn from_parsed_needs_every_part() {
    assert_eq!(
        NetworkState::from_parsed(Some(vec![1]), &vec![Some("a".to_string()), Some("b".to_string())]),
        Ok(NetworkState::new(vec![1], vec!["a".to_string(), "b".to_string()]))
    );
    assert_eq!(NetworkState::from_parsed(Some(vec![1]), &vec![]), Ok(NetworkState::new(vec![1], vec![])));
    assert_eq!(NetworkState::from_parsed(None, &vec![Some("a".to_string())]), Err(()));
    assert_eq!(NetworkState::from_parsed(None, &vec![]), Err(()));
    assert_eq!(
        NetworkState::from_parsed(Some(vec![1]), &vec![Some("a".to_string()), None]),
        Err(())
    );
    assert_eq!(NetworkState::from_parsed(Some(vec![1]), &vec![None, Some("a".to_string())]), Err(()));
}

#[test]
fn parsed_puts_addresses_in_the_form_of_the_network_layer() {
    let state = NetworkState::new(
        fixed_peer_id(),
        vec!["/ip4/127.0.0.1/tcp/01234".to_string(), "/ip6/0:0:0:0:0:0:0:1".to_string()],
    );
    assert_eq!(
        state.parsed(),
        Ok(NetworkState::new(
            fixed_peer_id(),
            vec!["/ip4/127.0.0.1/tcp/1234".to_string(), "/ip6/::1".to_string()]
        ))
    );
}

#[test]
fn parsed_refuses_what_the_network_layer_refuses() {
    let good = "/ip4/127.0.0.1/tcp/1234".to_string();
    // not a multihash
    assert_eq!(NetworkState::new(vec![1, 2, 3], vec![good.clone()]).parsed(), Err(()));
    // a hash function that peer ids do not use
    let mut sha1 = vec![0x11, 0x14];
    sha1.extend_from_slice(&[0u8; 20]);
    assert_eq!(NetworkState::new(sha1, vec![]).parsed(), Err(()));
    // bytes after the digest
    let mut long = fixed_peer_id();
    long.push(0);
    assert_eq!(NetworkState::new(long, vec![]).parsed(), Err(()));
    // no leading slash, unknown protocol, bad address
    for bad in ["ip4/127.0.0.1", "/ipx/1", "/ip4/300.0.0.1", "/tcp/70000", "/ip4"] {
        assert_eq!(
            NetworkState::new(fixed_peer_id(), vec![good.clone(), bad.to_string()]).parsed(),
            Err(()),
            "{}",
            bad
        );
    }
}

#[test]
fn parsed_accepts_a_sha256_peer_id() {
    let mut id = vec![0x12, 0x20];
    id.extend_from_slice(&[0xabu8; 32]);
    assert_eq!(NetworkState::new(id.clone(), vec![]).parsed(), Ok(NetworkState::new(id, vec![])));
}

#[test]
fn try_from_refuses_malformed_blobs_and_refused_parts() {
    let peer = blob(&[136], &fixed_peer_id());
    let address = blob(&[92], b"/ip4/127.0.0.1/tcp/1234");
    assert!(NetworkState::try_from(opaque(peer.clone(), vec![address.clone()])).is_ok());
    // the peer id is not in the SCALE format
    assert_eq!(NetworkState::try_from(opaque(fixed_peer_id(), vec![address.clone()])), Err(()));
    // the peer id is not a peer id
    assert_eq!(NetworkState::try_from(opaque(vec![8, 1, 2], vec![address.clone()])), Err(()));
    // an address is not UTF-8
    assert_eq!(NetworkState::try_from(opaque(peer.clone(), vec![vec![4, 0xff]])), Err(()));
    // an address is not an address
    assert_eq!(
        NetworkState::try_from(opaque(peer.clone(), vec![address, blob(&[12], b"abc")])),
        Err(())
    );
}

#[test]
fn try_from_returns_parts_in_the_form_of_the_network_layer() {
    let state = opaque(
        blob(&[136], &fixed_peer_id()),
        vec![blob(&[24 * 4], b"/ip4/127.0.0.1/tcp/01234")],
    );
    assert_eq!(
        NetworkState::try_from(state),
        Ok(NetworkState::new(fixed_peer_id(), vec!["/ip4/127.0.0.1/tcp/1234".to_string()]))
    );
}

#[test]
fn empty_text_is_the_address_without_protocols() {
    let state = NetworkState::new(fixed_peer_id(), vec![String::new()]);
    assert_eq!(state.parsed(), Ok(NetworkState::new(fixed_peer_id(), vec![String::new()])));
}
