use nftmart_contract::contract::{ContractDemo, CreateClassFromContract, RandomUpdated};
use nftmart_contract::extension::{
    create_class_reply, fetch_random_reply, proxy_mint_reply, sr25519_verify_reply, tokens_reply,
    transfer_reply, Extension, NFTMart, Response,
};
use nftmart_contract::status::{Abort, NFTMartErr};
use nftmart_contract::types::{AccountId, CustomEnvironment, TokenData, TokenInfo};
use parity_scale_codec::{Decode, Encode};

/// A host that answers from a list and keeps what it was asked.
struct Scripted {
    replies: Vec<Response>,
    calls: Vec<(u32, Vec<u8>)>,
}

impl Scripted {
    fn new(replies: Vec<Response>) -> Self {
        Scripted { replies, calls: Vec::new() }
    }
}

impl NFTMart for Scripted {
    fn call(&mut self, func_id: u32, input: &[u8]) -> Response {
        self.calls.push((func_id, input.to_vec()));
        self.replies.remove(0)
    }
}

fn reply(status: u32, output: Vec<u8>) -> Response {
    Response { status, output }
}

fn ok() -> Response {
    reply(0, Vec::new())
}

fn fail() -> Response {
    reply(1, Vec::new())
}

fn transfer_call(to: &AccountId, item: (u32, u64, u64)) -> (u32, Vec<u8>) {
    (2004, (to.0, item.0, item.1, item.2).encode())
}

fn info_bytes(info: &TokenInfo) -> Vec<u8> {
    (
        info.metadata.clone(),
        (
            info.data.deposit,
            info.data.create_block,
            info.data.royalty,
            info.data.creator.0,
            info.data.royalty_beneficiary.0,
        ),
        info.quantity,
    )
        .encode()
}

#[test]
fn new_works() {
    let _contract = ContractDemo::new();
}

#[test]
fn starts_with_zero_value() {
    assert_eq!(ContractDemo::new().get(), [0u8; 32]);
    assert_eq!(ContractDemo::from_value([3u8; 32]).get(), [3u8; 32]);
}

#[test]
fn environment_marker_is_a_plain_value() {
    assert_eq!(CustomEnvironment::NFTMart, CustomEnvironment::NFTMart.clone());
}

#[test]
fn defaults_are_empty() {
    let info = TokenInfo::default();
    assert_eq!(info.metadata, Vec::<u8>::new());
    assert_eq!(info.quantity, 0);
    assert_eq!(
        info.data,
        TokenData {
            deposit: 0,
            create_block: 0,
            royalty: false,
            creator: AccountId([0; 32]),
            royalty_beneficiary: AccountId([0; 32]),
        }
    );
    assert_eq!(AccountId::default(), AccountId([0; 32]));
}

#[test]
fn token_triplet_of_absent_is_empty() {
    assert_eq!(ContractDemo::token_triplet(None), (Vec::new(), 0, 0));
}

#[test]
fn token_triplet_of_present() {
    let info = TokenInfo {
        metadata: vec![1, 2, 3],
        data: TokenData {
            deposit: 5,
            create_block: 42,
            royalty: true,
            creator: AccountId([1; 32]),
            royalty_beneficiary: AccountId([2; 32]),
        },
        quantity: 10,
    };
    assert_eq!(ContractDemo::token_triplet(Some(info)), (vec![1, 2, 3], 10, 42));
}

#[test]
fn tokens_absent_gives_empty_triplet() {
    let mut ext = Extension::new(Scripted::new(vec![reply(0, vec![0])]));
    let contract = ContractDemo::new();
    assert_eq!(contract.tokens(&mut ext, 7, 8), Ok((Vec::new(), 0, 0)));
    let host = ext.into_host();
    assert_eq!(host.calls, vec![(1001, (7u32, 8u64).encode())]);
}

#[test]
fn tokens_present_gives_its_triplet() {
    let info = TokenInfo {
        metadata: b"meta".to_vec(),
        data: TokenData {
            deposit: 1,
            create_block: 1234,
            royalty: false,
            creator: AccountId([4; 32]),
            royalty_beneficiary: AccountId([5; 32]),
        },
        quantity: 99,
    };
    let mut output = vec![1u8];
    output.extend_from_slice(&info_bytes(&info));
    let mut ext = Extension::new(Scripted::new(vec![reply(0, output)]));
    let contract = ContractDemo::new();
    assert_eq!(contract.tokens(&mut ext, 1, 2), Ok((b"meta".to_vec(), 99, 1234)));
}

#[test]
fn tokens_ignores_the_status_code() {
    let mut ext = Extension::new(Scripted::new(vec![reply(1, vec![0]), reply(77, vec![0])]));
    let contract = ContractDemo::new();
    assert_eq!(contract.tokens(&mut ext, 1, 2), Ok((Vec::new(), 0, 0)));
    assert_eq!(contract.tokens(&mut ext, 1, 2), Ok((Vec::new(), 0, 0)));
}

#[test]
fn tokens_malformed_output_aborts() {
    let mut ext = Extension::new(Scripted::new(vec![reply(0, vec![]), reply(0, vec![1, 4])]));
    let contract = ContractDemo::new();
    assert_eq!(contract.tokens(&mut ext, 1, 2), Err(Abort::MalformedOutput));
    assert_eq!(contract.tokens(&mut ext, 1, 2), Err(Abort::MalformedOutput));
}

#[test]
fn create_class_returns_one_notification() {
    let owner = AccountId([9; 32]);
    let mut ext = Extension::new(Scripted::new(vec![reply(0, (owner.0, 31u32).encode())]));
    let mut contract = ContractDemo::new();
    let r = contract.create_class(&mut ext, b"m".to_vec(), b"n".to_vec(), b"d".to_vec(), 1);
    assert_eq!(r, Ok(Ok(CreateClassFromContract { owner, class_id: 31 })));
    let host = ext.into_host();
    assert_eq!(
        host.calls,
        vec![(2002, (b"m".to_vec(), b"n".to_vec(), b"d".to_vec(), 1u8).encode())]
    );
}

#[test]
fn create_class_failure_has_no_notification() {
    let mut ext = Extension::new(Scripted::new(vec![fail(), reply(5, vec![]), ok()]));
    let mut contract = ContractDemo::new();
    let r = contract.create_class(&mut ext, vec![], vec![], vec![], 0);
    assert_eq!(r, Ok(Err(NFTMartErr::Fail)));
    let r = contract.create_class(&mut ext, vec![], vec![], vec![], 0);
    assert_eq!(r, Err(Abort::UnknownStatus(5)));
    // success without an owner and an id in the output
    let r = contract.create_class(&mut ext, vec![], vec![], vec![], 0);
    assert_eq!(r, Err(Abort::MalformedOutput));
}

#[test]
fn mint_nft_mints_to_the_caller() {
    let caller = AccountId([6; 32]);
    let output = ([1u8; 32], [2u8; 32], 3u32, 4u64, 5u64).encode();
    let mut ext = Extension::new(Scripted::new(vec![reply(0, output), fail()]));
    let mut contract = ContractDemo::new();
    let r = contract.mint_nft(&mut ext, &caller, 3, b"art".to_vec(), 5, Some(true));
    assert_eq!(r, Ok(Ok(())));
    let r = contract.mint_nft(&mut ext, &caller, 3, b"art".to_vec(), 5, None);
    assert_eq!(r, Ok(Err(NFTMartErr::Fail)));
    let host = ext.into_host();
    assert_eq!(host.calls.len(), 2);
    assert_eq!(host.calls[0].0, 2003);
    let sent = <([u8; 32], u32, Vec<u8>, u64, Option<bool>)>::decode(&mut &host.calls[0].1[..]);
    assert_eq!(sent.unwrap(), (caller.0, 3, b"art".to_vec(), 5, Some(true)));
    let sent = <([u8; 32], u32, Vec<u8>, u64, Option<bool>)>::decode(&mut &host.calls[1].1[..]);
    assert_eq!(sent.unwrap(), (caller.0, 3, b"art".to_vec(), 5, None));
}

#[test]
fn transfer_forwards_one_call() {
    let to = AccountId([8; 32]);
    let mut ext = Extension::new(Scripted::new(vec![ok(), fail(), reply(2, vec![])]));
    let mut contract = ContractDemo::new();
    assert_eq!(contract.transfer(&mut ext, to, 1, 2, 3), Ok(Ok(())));
    assert_eq!(contract.transfer(&mut ext, to, 1, 2, 3), Ok(Err(NFTMartErr::Fail)));
    assert_eq!(contract.transfer(&mut ext, to, 1, 2, 3), Err(Abort::UnknownStatus(2)));
    let host = ext.into_host();
    assert_eq!(host.calls, vec![transfer_call(&to, (1, 2, 3)); 3]);
}

#[test]
fn transfer_all_of_nothing_calls_nothing() {
    let mut ext = Extension::new(Scripted::new(vec![]));
    let mut contract = ContractDemo::new();
    assert_eq!(contract.transfer_all(&mut ext, AccountId([1; 32]), vec![]), Ok(Ok(())));
    assert!(ext.host().calls.is_empty());
}

#[test]
fn transfer_all_goes_through_the_list_in_order() {
    let to = AccountId([2; 32]);
    let items = vec![(1, 10, 100), (2, 20, 200), (3, 30, 300)];
    let mut ext = Extension::new(Scripted::new(vec![ok(), ok(), ok()]));
    let mut contract = ContractDemo::new();
    assert_eq!(contract.transfer_all(&mut ext, to, items.clone()), Ok(Ok(())));
    let host = ext.into_host();
    let expected: Vec<_> = items.iter().map(|i| transfer_call(&to, *i)).collect();
    assert_eq!(host.calls, expected);
}

#[test]
fn transfer_all_stops_at_the_first_failure() {
    let to = AccountId([2; 32]);
    let (a, b, c) = ((1, 10, 100), (2, 20, 200), (3, 30, 300));
    let mut ext = Extension::new(Scripted::new(vec![ok(), fail(), ok()]));
    let mut contract = ContractDemo::new();
    let r = contract.transfer_all(&mut ext, to, vec![a, b, c]);
    assert_eq!(r, Ok(Err(NFTMartErr::Fail)));
    let host = ext.into_host();
    assert_eq!(host.calls, vec![transfer_call(&to, a), transfer_call(&to, b)]);
    assert_eq!(host.replies.len(), 1);
}

#[test]
fn transfer_all_stops_at_an_unknown_status() {
    let to = AccountId([2; 32]);
    let mut ext = Extension::new(Scripted::new(vec![reply(9, vec![]), ok()]));
    let mut contract = ContractDemo::new();
    let r = contract.transfer_all(&mut ext, to, vec![(1, 1, 1), (2, 2, 2)]);
    assert_eq!(r, Err(Abort::UnknownStatus(9)));
    assert_eq!(ext.host().calls.len(), 1);
}

#[test]
fn transfer_all_failing_at_the_last_item() {
    let to = AccountId([2; 32]);
    let mut ext = Extension::new(Scripted::new(vec![ok(), fail()]));
    let mut contract = ContractDemo::new();
    let r = contract.transfer_all(&mut ext, to, vec![(1, 1, 1), (2, 2, 2)]);
    assert_eq!(r, Ok(Err(NFTMartErr::Fail)));
    assert_eq!(ext.host().calls.len(), 2);
}

#[test]
fn update_stores_what_was_fetched() {
    let first = [0x11u8; 32];
    let mut second = [0u8; 32];
    second[31] = 1;
    let mut ext = Extension::new(Scripted::new(vec![
        reply(0, first.to_vec()),
        reply(0, second.to_vec()),
    ]));
    let mut contract = ContractDemo::new();
    assert_eq!(contract.update(&mut ext), Ok(Ok(RandomUpdated { new: first })));
    assert_eq!(contract.get(), first);
    assert_eq!(contract.update(&mut ext), Ok(Ok(RandomUpdated { new: second })));
    assert_eq!(contract.get(), second);
    let host = ext.into_host();
    assert_eq!(host.calls, vec![(2001, vec![]), (2001, vec![])]);
}

#[test]
fn update_that_fails_keeps_the_value() {
    let kept = [0x22u8; 32];
    let mut ext = Extension::new(Scripted::new(vec![
        reply(0, kept.to_vec()),
        reply(1, vec![0x33; 32]),
        reply(4, vec![0x33; 32]),
        reply(0, vec![0x33; 31]),
    ]));
    let mut contract = ContractDemo::new();
    assert_eq!(contract.update(&mut ext), Ok(Ok(RandomUpdated { new: kept })));
    assert_eq!(contract.update(&mut ext), Ok(Err(NFTMartErr::Fail)));
    assert_eq!(contract.get(), kept);
    assert_eq!(contract.update(&mut ext), Err(Abort::UnknownStatus(4)));
    assert_eq!(contract.get(), kept);
    assert_eq!(contract.update(&mut ext), Err(Abort::MalformedOutput));
    assert_eq!(contract.get(), kept);
}

#[test]
fn sr25519_verify_through_the_extension() {
    let who = AccountId([1; 32]);
    let mut ext = Extension::new(Scripted::new(vec![
        reply(0, vec![1]),
        reply(0, vec![0]),
        reply(1, vec![1]),
        reply(0, vec![3]),
    ]));
    assert_eq!(ext.sr25519_verify(&who, &[7; 64], b"msg"), Ok(true));
    assert_eq!(ext.sr25519_verify(&who, &[7; 64], b"msg"), Ok(false));
    assert_eq!(ext.sr25519_verify(&who, &[7; 64], b"msg"), Ok(true));
    assert_eq!(ext.sr25519_verify(&who, &[7; 64], b"msg"), Err(Abort::MalformedOutput));
    let host = ext.into_host();
    assert_eq!(host.calls[0], (1101, (who.0, vec![7u8; 64], b"msg".to_vec()).encode()));
}

#[test]
fn replies_read_status_before_output() {
    let good = ([1u8; 32], 2u32).encode();
    assert_eq!(
        create_class_reply(&reply(0, good.clone())),
        Ok(Ok((AccountId([1; 32]), 2)))
    );
    assert_eq!(create_class_reply(&reply(1, good.clone())), Ok(Err(NFTMartErr::Fail)));
    assert_eq!(create_class_reply(&reply(2, good)), Err(Abort::UnknownStatus(2)));
    assert_eq!(fetch_random_reply(&reply(0, vec![5; 32])), Ok(Ok([5; 32])));
    assert_eq!(fetch_random_reply(&reply(1, vec![5; 32])), Ok(Err(NFTMartErr::Fail)));
    assert_eq!(fetch_random_reply(&reply(0, vec![5; 3])), Err(Abort::MalformedOutput));
    let minted = ([1u8; 32], [2u8; 32], 3u32, 4u64, 5u64).encode();
    assert_eq!(
        proxy_mint_reply(&reply(0, minted)),
        Ok(Ok((AccountId([1; 32]), AccountId([2; 32]), 3, 4, 5)))
    );
    assert_eq!(proxy_mint_reply(&reply(0, vec![])), Err(Abort::MalformedOutput));
    assert_eq!(transfer_reply(&reply(0, vec![])), Ok(Ok(())));
    assert_eq!(transfer_reply(&reply(1, vec![])), Ok(Err(NFTMartErr::Fail)));
    assert_eq!(transfer_reply(&reply(u32::MAX, vec![])), Err(Abort::UnknownStatus(u32::MAX)));
    assert_eq!(tokens_reply(&reply(3, vec![0])), Ok(None));
    assert_eq!(tokens_reply(&reply(0, vec![9])), Err(Abort::MalformedOutput));
    assert_eq!(sr25519_verify_reply(&reply(9, vec![1])), Ok(true));
}
