use nftmart_contract::types::{AccountId, TokenData, TokenInfo};
use nftmart_contract::wire::{
    decode_create_class_output, decode_fetch_random_output, decode_proxy_mint_output,
    decode_sr25519_verify_output, decode_tokens_output, decode_transfer_output,
    encode_create_class_input, encode_fetch_random_input, encode_proxy_mint_input,
    encode_sr25519_verify_input, encode_tokens_input, encode_transfer_input,
};
use parity_scale_codec::{Decode, Encode};

fn account(seed: u8) -> AccountId {
    let mut bytes = [0u8; 32];
    for (i, b) in bytes.iter_mut().enumerate() {
        *b = seed.wrapping_add(i as u8);
    }
    AccountId(bytes)
}

fn sample_info() -> TokenInfo {
    TokenInfo {
        metadata: vec![0xde, 0xad, 0xbe, 0xef],
        data: TokenData {
            deposit: 0x0102_0304_0506_0708_090a_0b0c_0d0e_0f10,
            create_block: 77,
            royalty: true,
            creator: account(1),
            royalty_beneficiary: account(100),
        },
        quantity: 9,
    }
}

fn encoded_info(info: &TokenInfo) -> Vec<u8> {
    (
        info.metadata.clone(),
        (
            info.data.deposit,
            info.data.create_block,
            info.data.royalty,
            info.data.creator.0,
            info.data.royalty_beneficiary.0,
        ),
        info.quantity,
    )
        .encode()
}

#[test]
fn fetch_random_has_no_arguments() {
    assert_eq!(encode_fetch_random_input(), Vec::<u8>::new());
    assert_eq!(encode_fetch_random_input(), ().encode());
}

#[test]
fn transfer_arguments_exact_bytes() {
    let to = AccountId([7u8; 32]);
    let bytes = encode_transfer_input(&to, 1, 2, 3);
    let mut expected = vec![7u8; 32];
    expected.extend_from_slice(&[1, 0, 0, 0]);
    expected.extend_from_slice(&[2, 0, 0, 0, 0, 0, 0, 0]);
    expected.extend_from_slice(&[3, 0, 0, 0, 0, 0, 0, 0]);
    assert_eq!(bytes, expected);
}

#[test]
fn transfer_arguments_round_trip() {
    let to = account(9);
    let bytes = encode_transfer_input(&to, 0xa1b2_c3d4, 0x0102_0304_0506_0708, u64::MAX);
    assert_eq!(bytes.len(), 32 + 4 + 8 + 8);
    assert_eq!(&bytes[32..36], &[0xd4, 0xc3, 0xb2, 0xa1]);
    let back = <([u8; 32], u32, u64, u64)>::decode(&mut &bytes[..]).unwrap();
    assert_eq!(back, (to.0, 0xa1b2_c3d4, 0x0102_0304_0506_0708, u64::MAX));
}

#[test]
fn tokens_arguments_round_trip() {
    let bytes = encode_tokens_input(5, 6);
    assert_eq!(bytes, vec![5, 0, 0, 0, 6, 0, 0, 0, 0, 0, 0, 0]);
    let back = <(u32, u64)>::decode(&mut &bytes[..]).unwrap();
    assert_eq!(back, (5, 6));
}

#[test]
fn create_class_arguments_exact_bytes() {
    let bytes = encode_create_class_input(b"ab", b"", b"xyz", 3);
    assert_eq!(bytes, vec![8, b'a', b'b', 0, 12, b'x', b'y', b'z', 3]);
}

#[test]
fn create_class_arguments_round_trip() {
    let metadata = vec![1u8; 70];
    let name = b"class".to_vec();
    let description = vec![2u8; 20000];
    let bytes = encode_create_class_input(&metadata, &name, &description, 255);
    assert_eq!(bytes, (metadata.clone(), name.clone(), description.clone(), 255u8).encode());
    let back = <(Vec<u8>, Vec<u8>, Vec<u8>, u8)>::decode(&mut &bytes[..]).unwrap();
    assert_eq!(back, (metadata, name, description, 255));
}

#[test]
fn length_prefix_at_each_boundary() {
    // below 2^6: one byte
    let bytes = encode_create_class_input(&vec![0u8; 63], b"", b"", 0);
    assert_eq!(&bytes[..1], &[63 << 2]);
    assert_eq!(bytes.len(), 1 + 63 + 1 + 1 + 1);
    // from 2^6: two bytes
    let bytes = encode_create_class_input(&vec![0u8; 64], b"", b"", 0);
    assert_eq!(&bytes[..2], &[0x01, 0x01]);
    let bytes = encode_create_class_input(&vec![0u8; 16383], b"", b"", 0);
    assert_eq!(&bytes[..2], &[0xfd, 0xff]);
    // from 2^14: four bytes
    let bytes = encode_create_class_input(&vec![0u8; 16384], b"", b"", 0);
    assert_eq!(&bytes[..4], &[0x02, 0x00, 0x01, 0x00]);
    assert_eq!(bytes.len(), 4 + 16384 + 1 + 1 + 1);
}

#[test]
fn proxy_mint_arguments_round_trip() {
    let to = account(40);
    for flag in [None, Some(false), Some(true)] {
        let metadata = vec![9u8; 300];
        let bytes = encode_proxy_mint_input(&to, 11, &metadata, 1_000_000_007, flag);
        let expected = (to.0, 11u32, metadata.clone(), 1_000_000_007u64, flag).encode();
        assert_eq!(bytes, expected);
        let back = <([u8; 32], u32, Vec<u8>, u64, Option<bool>)>::decode(&mut &bytes[..]).unwrap();
        assert_eq!(back, (to.0, 11, metadata, 1_000_000_007, flag));
    }
}

#[test]
fn optional_flag_exact_bytes() {
    let to = AccountId([0u8; 32]);
    let none = encode_proxy_mint_input(&to, 0, b"", 0, None);
    let no = encode_proxy_mint_input(&to, 0, b"", 0, Some(false));
    let yes = encode_proxy_mint_input(&to, 0, b"", 0, Some(true));
    assert_eq!(&none[45..], &[0]);
    assert_eq!(&no[45..], &[1, 0]);
    assert_eq!(&yes[45..], &[1, 1]);
}

#[test]
fn sr25519_verify_arguments_round_trip() {
    let who = account(3);
    let signature = vec![5u8; 64];
    let message = b"hello".to_vec();
    let bytes = encode_sr25519_verify_input(&who, &signature, &message);
    assert_eq!(bytes, (who.0, signature.clone(), message.clone()).encode());
    let back = <([u8; 32], Vec<u8>, Vec<u8>)>::decode(&mut &bytes[..]).unwrap();
    assert_eq!(back, (who.0, signature, message));
}

#[test]
fn fetch_random_result_round_trip() {
    let random = account(200).0;
    assert_eq!(decode_fetch_random_output(&random.encode()), Some(random));
    let mut padded = random.encode();
    padded.extend_from_slice(&[0; 100]);
    assert_eq!(decode_fetch_random_output(&padded), Some(random));
    assert_eq!(decode_fetch_random_output(&random[..31]), None);
    assert_eq!(decode_fetch_random_output(&[]), None);
}

#[test]
fn create_class_result_round_trip() {
    let owner = account(17);
    let bytes = (owner.0, 0x0a0b_0c0du32).encode();
    assert_eq!(decode_create_class_output(&bytes), Some((owner, 0x0a0b_0c0d)));
    assert_eq!(decode_create_class_output(&bytes[..35]), None);
    assert_eq!(decode_create_class_output(&bytes[..32]), None);
    assert_eq!(decode_create_class_output(&bytes[..10]), None);
}

#[test]
fn proxy_mint_result_round_trip() {
    let class_owner = account(1);
    let beneficiary = account(2);
    let bytes = (class_owner.0, beneficiary.0, 3u32, 4u64, 5u64).encode();
    assert_eq!(
        decode_proxy_mint_output(&bytes),
        Some((class_owner, beneficiary, 3, 4, 5))
    );
    for cut in [0usize, 31, 32, 63, 64, 67, 68, 75, 76, 83] {
        assert_eq!(decode_proxy_mint_output(&bytes[..cut]), None);
    }
}

#[test]
fn transfer_result_is_always_there() {
    assert_eq!(decode_transfer_output(&[]), Some(()));
    assert_eq!(decode_transfer_output(&[1, 2, 3]), Some(()));
    assert_eq!(().encode(), Vec::<u8>::new());
}

#[test]
fn tokens_result_round_trip() {
    let info = sample_info();
    let mut bytes = vec![1u8];
    bytes.extend_from_slice(&encoded_info(&info));
    assert_eq!(decode_tokens_output(&bytes), Some(Some(info.clone())));
    bytes.extend_from_slice(&[0xff; 8]);
    assert_eq!(decode_tokens_output(&bytes), Some(Some(info)));
    assert_eq!(decode_tokens_output(&[0]), Some(None));
    assert_eq!(decode_tokens_output(&[0, 9, 9]), Some(None));
}

#[test]
fn tokens_result_exact_fields() {
    let mut bytes = vec![1u8];
    // metadata "hi"
    bytes.extend_from_slice(&[8, b'h', b'i']);
    // deposit 1
    bytes.extend_from_slice(&[1, 0, 0, 0, 0, 0, 0, 0, 0, 0, 0, 0, 0, 0, 0, 0]);
    // created in block 0x01020304
    bytes.extend_from_slice(&[4, 3, 2, 1]);
    // no royalty
    bytes.push(0);
    bytes.extend_from_slice(&[0xaa; 32]);
    bytes.extend_from_slice(&[0xbb; 32]);
    // quantity 2^32
    bytes.extend_from_slice(&[0, 0, 0, 0, 1, 0, 0, 0]);
    let expected = TokenInfo {
        metadata: b"hi".to_vec(),
        data: TokenData {
            deposit: 1,
            create_block: 0x0102_0304,
            royalty: false,
            creator: AccountId([0xaa; 32]),
            royalty_beneficiary: AccountId([0xbb; 32]),
        },
        quantity: 1 << 32,
    };
    assert_eq!(decode_tokens_output(&bytes), Some(Some(expected)));
}

#[test]
fn tokens_result_malformed() {
    let info = sample_info();
    let mut bytes = vec![1u8];
    bytes.extend_from_slice(&encoded_info(&info));
    for cut in 0..bytes.len() {
        assert_eq!(decode_tokens_output(&bytes[..cut]), None);
    }
    // a tag that is neither 0 nor 1
    assert_eq!(decode_tokens_output(&[2]), None);
    // a royalty flag that is neither 0 nor 1
    let mut bad = bytes.clone();
    bad[1 + 5 + 16 + 4] = 2;
    assert_eq!(decode_tokens_output(&bad), None);
}

#[test]
fn length_prefix_must_be_the_shortest_form() {
    // the length 1 written in two bytes, then one byte of metadata
    let mut bytes = vec![1u8, 0x05, 0x00, 0x2a];
    bytes.extend_from_slice(&[0; 16 + 4 + 1 + 32 + 32 + 8]);
    assert_eq!(decode_tokens_output(&bytes), None);
    // the same in its shortest form is read
    let mut bytes = vec![1u8, 0x04, 0x2a];
    bytes.extend_from_slice(&[0; 16 + 4 + 1 + 32 + 32 + 8]);
    let info = decode_tokens_output(&bytes).unwrap().unwrap();
    assert_eq!(info.metadata, vec![0x2a]);
    // the length 70 written in four bytes
    let mut bytes = vec![1u8, 0x1a, 0x01, 0x00, 0x00];
    bytes.extend_from_slice(&[0; 70 + 16 + 4 + 1 + 32 + 32 + 8]);
    assert_eq!(decode_tokens_output(&bytes), None);
    // a length that claims more bytes than there are
    assert_eq!(decode_tokens_output(&[1, 0x03, 0xff, 0xff, 0xff, 0xff]), None);
}

#[test]
fn tokens_result_with_long_metadata() {
    for len in [0usize, 63, 64, 16383, 16384, 70000] {
        let mut info = sample_info();
        info.metadata = (0..len).map(|i| (i % 251) as u8).collect();
        let bytes = Some((
            info.metadata.clone(),
            (
                info.data.deposit,
                info.data.create_block,
                info.data.royalty,
                info.data.creator.0,
                info.data.royalty_beneficiary.0,
            ),
            info.quantity,
        ))
        .encode();
        assert_eq!(decode_tokens_output(&bytes), Some(Some(info)));
    }
}

#[test]
fn sr25519_verify_result_round_trip() {
    assert_eq!(decode_sr25519_verify_output(&true.encode()), Some(true));
    assert_eq!(decode_sr25519_verify_output(&false.encode()), Some(false));
    assert_eq!(decode_sr25519_verify_output(&[1, 7]), Some(true));
    assert_eq!(decode_sr25519_verify_output(&[2]), None);
    assert_eq!(decode_sr25519_verify_output(&[]), None);
}
