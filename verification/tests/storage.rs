use safrimba::storage::{
    contribution_key, decode_contribution, decode_strikes, encode_contribution, encode_strikes,
    state_key, strikes_key,
};

#[test]
fn test_state_key() {
    assert_eq!(state_key(), b"state".to_vec());
}

#[test]
fn test_strikes_key() {
    let mut expected = b"member_strikes".to_vec();
    expected.extend_from_slice(b"addr_safro1member");
    assert_eq!(strikes_key(&"addr_safro1member".to_string()), expected);
}

#[test]
fn test_contribution_key() {
    let mut expected = b"member_contributions".to_vec();
    expected.extend_from_slice(b"addr_safro1member");
    expected.extend_from_slice(&0x0102_0304u32.to_be_bytes());
    assert_eq!(contribution_key(&"addr_safro1member".to_string(), 0x0102_0304), expected);
    let k = contribution_key(&"x".to_string(), 1);
    assert_eq!(&k[k.len() - 4..], &[0, 0, 0, 1]);
}

#[test]
fn test_contribution_encoding() {
    assert_eq!(encode_contribution(0), b"\"0\"".to_vec());
    assert_eq!(encode_contribution(100), b"\"100\"".to_vec());
    assert_eq!(
        encode_contribution(u128::MAX),
        b"\"340282366920938463463374607431768211455\"".to_vec()
    );
}

#[test]
fn test_contribution_reads_back() {
    for v in [0u128, 1, 9, 10, 100, 4294967296, u128::MAX] {
        assert_eq!(decode_contribution(&encode_contribution(v)), Some(v));
    }
    assert_eq!(decode_contribution(b"100"), None);
    assert_eq!(decode_contribution(b"\"-1\""), None);
    assert_eq!(decode_contribution(b""), None);
}

#[test]
fn test_strikes_encoding() {
    assert_eq!(encode_strikes(0), b"0".to_vec());
    assert_eq!(encode_strikes(255), b"255".to_vec());
    for v in [0u8, 3, 42, 255] {
        assert_eq!(decode_strikes(&encode_strikes(v)), Some(v));
    }
    assert_eq!(decode_strikes(b"256"), None);
}

#[test]
fn test_last_saved_contribution_loads() {
    let mut store: std::collections::HashMap<Vec<u8>, Vec<u8>> = std::collections::HashMap::new();
    let a = "addr_a".to_string();
    let b = "addr_b".to_string();
    store.insert(contribution_key(&a, 1), encode_contribution(5));
    store.insert(contribution_key(&a, 1), encode_contribution(7));
    store.insert(contribution_key(&b, 1), encode_contribution(9));
    store.insert(contribution_key(&a, 2), encode_contribution(11));
    store.insert(strikes_key(&a), encode_strikes(3));
    store.insert(state_key(), b"{}".to_vec());
    assert_eq!(decode_contribution(&store[&contribution_key(&a, 1)]), Some(7));
    assert_eq!(decode_contribution(&store[&contribution_key(&b, 1)]), Some(9));
    assert_eq!(decode_strikes(&store[&strikes_key(&a)]), Some(3));
}

#[test]
fn test_key_families_are_disjoint() {
    let a = "member".to_string();
    assert_ne!(contribution_key(&a, 0), strikes_key(&a));
    assert_ne!(strikes_key(&"".to_string()), state_key());
    assert_ne!(contribution_key(&"ab".to_string(), 1), contribution_key(&"a".to_string(), 1));
    assert_ne!(contribution_key(&a, 1), contribution_key(&a, 256));
}
