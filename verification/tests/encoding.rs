use xvm_transfer::encoder::{transfer_encode, TRANSFER_SELECTOR};

fn expected_call_data(to: [u8; 20], amount_word: [u8; 32]) -> Vec<u8> {
    let mut expected = vec![0xa9, 0x05, 0x9c, 0xbb];
    expected.extend_from_slice(&[0u8; 12]);
    expected.extend_from_slice(&to);
    expected.extend_from_slice(&amount_word);
    expected
}

#[test]
fn selector_is_the_transfer_selector() {
    assert_eq!(TRANSFER_SELECTOR, [0xa9, 0x05, 0x9c, 0xbb]);
}

#[test]
fn selector_is_derived_from_the_signature() {
    let derived = ethabi::short_signature(
        "transfer",
        &[ethabi::ParamType::Address, ethabi::ParamType::Uint(256)],
    );
    assert_eq!(derived, TRANSFER_SELECTOR);
}

#[test]
fn encodes_transfer_of_one_thousand() {
    let encoded = transfer_encode([0x11; 20], 1000);
    let mut amount = [0u8; 32];
    amount[30] = 0x03;
    amount[31] = 0xe8;
    assert_eq!(encoded, expected_call_data([0x11; 20], amount));
    assert_eq!(
        encoded,
        vec![
            0xa9, 0x05, 0x9c, 0xbb, 0, 0, 0, 0, 0, 0, 0, 0, 0, 0, 0, 0, 0x11, 0x11, 0x11, 0x11,
            0x11, 0x11, 0x11, 0x11, 0x11, 0x11, 0x11, 0x11, 0x11, 0x11, 0x11, 0x11, 0x11, 0x11,
            0x11, 0x11, 0, 0, 0, 0, 0, 0, 0, 0, 0, 0, 0, 0, 0, 0, 0, 0, 0, 0, 0, 0, 0, 0, 0, 0, 0,
            0, 0, 0, 0, 0, 0x03, 0xe8,
        ]
    );
}

#[test]
fn encodes_transfer_of_zero() {
    let encoded = transfer_encode([0x11; 20], 0);
    assert_eq!(encoded.len(), 68);
    assert_eq!(encoded, expected_call_data([0x11; 20], [0u8; 32]));
    assert!(encoded[36..68].iter().all(|byte| *byte == 0));
}

#[test]
fn encodes_the_largest_amount() {
    let encoded = transfer_encode([0xfe; 20], u128::MAX);
    let mut amount = [0u8; 32];
    for byte in amount[16..].iter_mut() {
        *byte = 0xff;
    }
    assert_eq!(encoded, expected_call_data([0xfe; 20], amount));
}

#[test]
fn amount_is_written_most_significant_byte_first() {
    let value: u128 = 0x0102_0304_0506_0708_090a_0b0c_0d0e_0f10;
    let encoded = transfer_encode([0; 20], value);
    let mut amount = [0u8; 32];
    amount[16..].copy_from_slice(&value.to_be_bytes());
    assert_eq!(&encoded[36..68], &amount[..]);
    assert_eq!(encoded[52], 0x01);
    assert_eq!(encoded[67], 0x10);
}

#[test]
fn call_data_has_the_fixed_layout() {
    let mut to = [0u8; 20];
    for (i, byte) in to.iter_mut().enumerate() {
        *byte = 0xa0 + i as u8;
    }
    for value in [0u128, 1, 255, 256, 1000, 1 << 64, u128::MAX - 1, u128::MAX] {
        let encoded = transfer_encode(to, value);
        assert_eq!(encoded.len(), 68);
        assert_eq!(&encoded[0..4], &[0xa9, 0x05, 0x9c, 0xbb]);
        assert!(encoded[4..16].iter().all(|byte| *byte == 0));
        assert_eq!(&encoded[16..36], &to[..]);
        assert!(encoded[36..52].iter().all(|byte| *byte == 0));
        assert_eq!(&encoded[52..68], &value.to_be_bytes()[..]);
    }
}

#[test]
fn address_is_not_handed_back_as_it_came() {
    let to = [0x42u8; 20];
    let encoded = transfer_encode(to, 7);
    assert_ne!(encoded, to.to_vec());
    assert_eq!(encoded[15], 0);
    assert_eq!(encoded[16], 0x42);
    assert_eq!(encoded[35], 0x42);
    assert_eq!(encoded[36], 0);
    assert_eq!(encoded[67], 7);
}

#[test]
fn call_data_agrees_with_the_abi_encoder() {
    let to = [0x5au8; 20];
    let value: u128 = 123_456_789_012_345_678_901_234_567_890;
    let mut expected = TRANSFER_SELECTOR.to_vec();
    expected.extend(ethabi::encode(&[
        ethabi::Token::Address(ethabi::ethereum_types::H160::from(to)),
        ethabi::Token::Uint(ethabi::ethereum_types::U256::from(value)),
    ]));
    assert_eq!(transfer_encode(to, value), expected);
}

#[test]
fn call_data_decodes_to_the_arguments() {
    let to = [0x77u8; 20];
    let value: u128 = 1_000_000_007;
    let encoded = transfer_encode(to, value);
    let tokens = ethabi::decode(
        &[ethabi::ParamType::Address, ethabi::ParamType::Uint(256)],
        &encoded[4..],
    )
    .unwrap();
    assert_eq!(
        tokens,
        vec![
            ethabi::Token::Address(ethabi::ethereum_types::H160::from(to)),
            ethabi::Token::Uint(ethabi::ethereum_types::U256::from(value)),
        ]
    );
}
