//! The byte layout of each operation's arguments and results.
//!
//! Arguments and results are tuples of single values, laid out one after the
//! other in the order of the operation's signature, with nothing between them.
//! For every operation this file gives the layout of its arguments
//! (`enc_*_input`, `parse_*_input`) and of its result (`enc_*_output`,
//! `parse_*_output`), the function that writes the arguments, the function that
//! reads the result, and the proof that reading gives back what was written.

use vstd::prelude::*;
use crate::scale::{
    enc_bool, enc_bytes, enc_fixed32, enc_option_bool, enc_u128, enc_u32, enc_u64, enc_u8,
    lemma_parse_bool, lemma_parse_bytes, lemma_parse_fixed32, lemma_parse_option_bool,
    lemma_parse_u128, lemma_parse_u32, lemma_parse_u64, lemma_parse_u8, parse_bool, parse_bytes,
    parse_fixed32, parse_option_bool, parse_u128, parse_u32, parse_u64, parse_u8, put_bytes,
    put_fixed32, put_option_bool, put_u32, put_u64, put_u8, tail, take_bool, take_bytes,
    take_fixed32, take_u128, take_u32, take_u64, take_u8,
};
use crate::types::{
    AccountId, ClassId, Quantity, TokenData, TokenDataView, TokenId, TokenInfo, TokenInfoView,
};

verus! {

/// Both accounts of a token's data are 32 bytes long.
pub open spec fn token_data_wf(d: TokenDataView) -> bool {
    d.creator.len() == 32 && d.royalty_beneficiary.len() == 32
}

/// The snapshot's data is well formed and its metadata has a length that the
/// layout can express.
pub open spec fn token_info_wf(i: TokenInfoView) -> bool {
    i.metadata.len() <= u32::MAX && token_data_wf(i.data)
}

pub open spec fn enc_token_data(d: TokenDataView) -> Seq<u8> {
    enc_u128(d.deposit) + enc_u32(d.create_block) + enc_bool(d.royalty) + enc_fixed32(d.creator)
        + enc_fixed32(d.royalty_beneficiary)
}

pub open spec fn parse_token_data(s: Seq<u8>) -> Option<(TokenDataView, Seq<u8>)> {
    match parse_u128(s) {
        Some((deposit, s1)) => match parse_u32(s1) {
            Some((create_block, s2)) => match parse_bool(s2) {
                Some((royalty, s3)) => match parse_fixed32(s3) {
                    Some((creator, s4)) => match parse_fixed32(s4) {
                        Some((royalty_beneficiary, s5)) => Some(
                            (
                                TokenDataView {
                                    deposit,
                                    create_block,
                                    royalty,
                                    creator,
                                    royalty_beneficiary,
                                },
                                s5,
                            ),
                        ),
                        None => None,
                    },
                    None => None,
                },
                None => None,
            },
            None => None,
        },
        None => None,
    }
}

/// A snapshot: metadata, data, quantity, in the order of the fields.
pub open spec fn enc_token_info(i: TokenInfoView) -> Seq<u8> {
    enc_bytes(i.metadata) + enc_token_data(i.data) + enc_u64(i.quantity)
}

pub open spec fn parse_token_info(s: Seq<u8>) -> Option<(TokenInfoView, Seq<u8>)> {
    match parse_bytes(s) {
        Some((metadata, s1)) => match parse_token_data(s1) {
            Some((data, s2)) => match parse_u64(s2) {
                Some((quantity, s3)) => Some((TokenInfoView { metadata, data, quantity }, s3)),
                None => None,
            },
            None => None,
        },
        None => None,
    }
}

pub proof fn lemma_parse_token_data(d: TokenDataView, rest: Seq<u8>)
    requires
        token_data_wf(d),
    ensures
        parse_token_data(enc_token_data(d) + rest) == Some((d, rest)),
{
    let r4 = enc_fixed32(d.royalty_beneficiary) + rest;
    let r3 = enc_fixed32(d.creator) + r4;
    let r2 = enc_bool(d.royalty) + r3;
    let r1 = enc_u32(d.create_block) + r2;
    assert(enc_token_data(d) + rest =~= enc_u128(d.deposit) + r1);
    lemma_parse_u128(d.deposit, r1);
    lemma_parse_u32(d.create_block, r2);
    lemma_parse_bool(d.royalty, r3);
    lemma_parse_fixed32(d.creator, r4);
    lemma_parse_fixed32(d.royalty_beneficiary, rest);
}

pub proof fn lemma_parse_token_info(i: TokenInfoView, rest: Seq<u8>)
    requires
        token_info_wf(i),
    ensures
        parse_token_info(enc_token_info(i) + rest) == Some((i, rest)),
{
    let r2 = enc_u64(i.quantity) + rest;
    let r1 = enc_token_data(i.data) + r2;
    assert(enc_token_info(i) + rest =~= enc_bytes(i.metadata) + r1);
    lemma_parse_bytes(i.metadata, r1);
    lemma_parse_token_data(i.data, r2);
    lemma_parse_u64(i.quantity, rest);
}

pub(crate) fn take_token_data(input: &[u8]) -> (r: Option<(TokenData, &[u8])>)
    ensures
        match r {
            Some((d, rest)) => parse_token_data(input@) == Some((d@, rest@)),
            None => parse_token_data(input@) is None,
        },
{
    let (deposit, s1) = match take_u128(input) {
        Some(v) => v,
        None => {
            return None;
        },
    };
    let (create_block, s2) = match take_u32(s1) {
        Some(v) => v,
        None => {
            return None;
        },
    };
    let (royalty, s3) = match take_bool(s2) {
        Some(v) => v,
        None => {
            return None;
        },
    };
    let (creator, s4) = match take_fixed32(s3) {
        Some(v) => v,
        None => {
            return None;
        },
    };
    let (royalty_beneficiary, s5) = match take_fixed32(s4) {
        Some(v) => v,
        None => {
            return None;
        },
    };
    let data = TokenData {
        deposit,
        create_block,
        royalty,
        creator: AccountId(creator),
        royalty_beneficiary: AccountId(royalty_beneficiary),
    };
    Some((data, s5))
}

pub(crate) fn take_token_info(input: &[u8]) -> (r: Option<(TokenInfo, &[u8])>)
    ensures
        match r {
            Some((i, rest)) => parse_token_info(input@) == Some((i@, rest@)),
            None => parse_token_info(input@) is None,
        },
{
    let (metadata, s1) = match take_bytes(input) {
        Some(v) => v,
        None => {
            return None;
        },
    };
    let (data, s2) = match take_token_data(s1) {
        Some(v) => v,
        None => {
            return None;
        },
    };
    let (quantity, s3) = match take_u64(s2) {
        Some(v) => v,
        None => {
            return None;
        },
    };
    Some((TokenInfo { metadata, data, quantity }, s3))
}

/// The value that a parse read, without the bytes that followed it.
pub open spec fn value_of<T>(parsed: Option<(T, Seq<u8>)>) -> Option<T> {
    match parsed {
        Some((v, _)) => Some(v),
        None => None,
    }
}

// fetch_random: no arguments; the result is 32 bytes.

pub open spec fn enc_fetch_random_input() -> Seq<u8> {
    Seq::empty()
}

pub open spec fn parse_fetch_random_input(s: Seq<u8>) -> Option<((), Seq<u8>)> {
    Some(((), s))
}

pub open spec fn enc_fetch_random_output(random: Seq<u8>) -> Seq<u8> {
    enc_fixed32(random)
}

pub open spec fn parse_fetch_random_output(s: Seq<u8>) -> Option<(Seq<u8>, Seq<u8>)> {
    parse_fixed32(s)
}

// create_class: metadata, name, description, properties; the result is the
// owner and the id of the new class.

pub open spec fn enc_create_class_input(
    metadata: Seq<u8>,
    name: Seq<u8>,
    description: Seq<u8>,
    properties: u8,
) -> Seq<u8> {
    enc_bytes(metadata) + enc_bytes(name) + enc_bytes(description) + enc_u8(properties)
}

pub open spec fn parse_create_class_input(s: Seq<u8>) -> Option<
    ((Seq<u8>, Seq<u8>, Seq<u8>, u8), Seq<u8>),
> {
    match parse_bytes(s) {
        Some((metadata, s1)) => match parse_bytes(s1) {
            Some((name, s2)) => match parse_bytes(s2) {
                Some((description, s3)) => match parse_u8(s3) {
                    Some((properties, s4)) => Some(((metadata, name, description, properties), s4)),
                    None => None,
                },
                None => None,
            },
            None => None,
        },
        None => None,
    }
}

pub open spec fn enc_create_class_output(owner: Seq<u8>, class_id: ClassId) -> Seq<u8> {
    enc_fixed32(owner) + enc_u32(class_id)
}

pub open spec fn parse_create_class_output(s: Seq<u8>) -> Option<((Seq<u8>, ClassId), Seq<u8>)> {
    match parse_fixed32(s) {
        Some((owner, s1)) => match parse_u32(s1) {
            Some((class_id, s2)) => Some(((owner, class_id), s2)),
            None => None,
        },
        None => None,
    }
}

// proxy_mint: recipient, class, metadata, quantity, optional royalty flag; the
// result is the class owner, the beneficiary, the class, the new token and the
// quantity minted.

pub open spec fn enc_proxy_mint_input(
    to: Seq<u8>,
    class_id: ClassId,
    metadata: Seq<u8>,
    quantity: Quantity,
    charge_royalty: Option<bool>,
) -> Seq<u8> {
    enc_fixed32(to) + enc_u32(class_id) + enc_bytes(metadata) + enc_u64(quantity)
        + enc_option_bool(charge_royalty)
}

pub open spec fn parse_proxy_mint_input(s: Seq<u8>) -> Option<
    ((Seq<u8>, ClassId, Seq<u8>, Quantity, Option<bool>), Seq<u8>),
> {
    match parse_fixed32(s) {
        Some((to, s1)) => match parse_u32(s1) {
            Some((class_id, s2)) => match parse_bytes(s2) {
                Some((metadata, s3)) => match parse_u64(s3) {
                    Some((quantity, s4)) => match parse_option_bool(s4) {
                        Some((charge_royalty, s5)) => Some(
                            ((to, class_id, metadata, quantity, charge_royalty), s5),
                        ),
                        None => None,
                    },
                    None => None,
                },
                None => None,
            },
            None => None,
        },
        None => None,
    }
}

pub open spec fn enc_proxy_mint_output(
    class_owner: Seq<u8>,
    beneficiary: Seq<u8>,
    class_id: ClassId,
    token_id: TokenId,
    quantity: Quantity,
) -> Seq<u8> {
    enc_fixed32(class_owner) + enc_fixed32(beneficiary) + enc_u32(class_id) + enc_u64(token_id)
        + enc_u64(quantity)
}

pub open spec fn parse_proxy_mint_output(s: Seq<u8>) -> Option<
    ((Seq<u8>, Seq<u8>, ClassId, TokenId, Quantity), Seq<u8>),
> {
    match parse_fixed32(s) {
        Some((class_owner, s1)) => match parse_fixed32(s1) {
            Some((beneficiary, s2)) => match parse_u32(s2) {
                Some((class_id, s3)) => match parse_u64(s3) {
                    Some((token_id, s4)) => match parse_u64(s4) {
                        Some((quantity, s5)) => Some(
                            ((class_owner, beneficiary, class_id, token_id, quantity), s5),
                        ),
                        None => None,
                    },
                    None => None,
                },
                None => None,
            },
            None => None,
        },
        None => None,
    }
}

// transfer: destination, class, token, quantity; no result.

pub open spec fn enc_transfer_input(
    to: Seq<u8>,
    class_id: ClassId,
    token_id: TokenId,
    quantity: Quantity,
) -> Seq<u8> {
    enc_fixed32(to) + enc_u32(class_id) + enc_u64(token_id) + enc_u64(quantity)
}

pub open spec fn parse_transfer_input(s: Seq<u8>) -> Option<
    ((Seq<u8>, ClassId, TokenId, Quantity), Seq<u8>),
> {
    match parse_fixed32(s) {
        Some((to, s1)) => match parse_u32(s1) {
            Some((class_id, s2)) => match parse_u64(s2) {
                Some((token_id, s3)) => match parse_u64(s3) {
                    Some((quantity, s4)) => Some(((to, class_id, token_id, quantity), s4)),
                    None => None,
                },
                None => None,
            },
            None => None,
        },
        None => None,
    }
}

pub open spec fn enc_transfer_output() -> Seq<u8> {
    Seq::empty()
}

pub open spec fn parse_transfer_output(s: Seq<u8>) -> Option<((), Seq<u8>)> {
    Some(((), s))
}

// tokens: class, token; the result is the snapshot, if the host has one.

pub open spec fn enc_tokens_input(class_id: ClassId, token_id: TokenId) -> Seq<u8> {
    enc_u32(class_id) + enc_u64(token_id)
}

pub open spec fn parse_tokens_input(s: Seq<u8>) -> Option<((ClassId, TokenId), Seq<u8>)> {
    match parse_u32(s) {
        Some((class_id, s1)) => match parse_u64(s1) {
            Some((token_id, s2)) => Some(((class_id, token_id), s2)),
            None => None,
        },
        None => None,
    }
}

/// An absent snapshot is a 0 byte; a present one is a 1 byte and the snapshot.
pub open spec fn enc_tokens_output(info: Option<TokenInfoView>) -> Seq<u8> {
    match info {
        None => seq![0u8],
        Some(i) => seq![1u8] + enc_token_info(i),
    }
}

pub open spec fn parse_tokens_output(s: Seq<u8>) -> Option<(Option<TokenInfoView>, Seq<u8>)> {
    if s.len() >= 1 && s[0] == 0 {
        Some((None, tail(s, 1)))
    } else if s.len() >= 1 && s[0] == 1 {
        match parse_token_info(tail(s, 1)) {
            Some((i, rest)) => Some((Some(i), rest)),
            None => None,
        }
    } else {
        None
    }
}

// sr25519_verify: account, signature, message; the result is a flag.

pub open spec fn enc_sr25519_verify_input(
    account: Seq<u8>,
    signature: Seq<u8>,
    message: Seq<u8>,
) -> Seq<u8> {
    enc_fixed32(account) + enc_bytes(signature) + enc_bytes(message)
}

pub open spec fn parse_sr25519_verify_input(s: Seq<u8>) -> Option<
    ((Seq<u8>, Seq<u8>, Seq<u8>), Seq<u8>),
> {
    match parse_fixed32(s) {
        Some((account, s1)) => match parse_bytes(s1) {
            Some((signature, s2)) => match parse_bytes(s2) {
                Some((message, s3)) => Some(((account, signature, message), s3)),
                None => None,
            },
            None => None,
        },
        None => None,
    }
}

pub open spec fn enc_sr25519_verify_output(valid: bool) -> Seq<u8> {
    enc_bool(valid)
}

pub open spec fn parse_sr25519_verify_output(s: Seq<u8>) -> Option<(bool, Seq<u8>)> {
    parse_bool(s)
}

// Writing arguments.

pub fn encode_fetch_random_input() -> (r: Vec<u8>)
    ensures
        r@ == enc_fetch_random_input(),
{
    Vec::new()
}

pub fn encode_create_class_input(
    metadata: &[u8],
    name: &[u8],
    description: &[u8],
    properties: u8,
) -> (r: Vec<u8>)
    requires
        metadata@.len() <= u32::MAX,
        name@.len() <= u32::MAX,
        description@.len() <= u32::MAX,
    ensures
        r@ == enc_create_class_input(metadata@, name@, description@, properties),
{
    let mut buf = Vec::new();
    put_bytes(&mut buf, metadata);
    put_bytes(&mut buf, name);
    put_bytes(&mut buf, description);
    put_u8(&mut buf, properties);
    assert(buf@ =~= enc_create_class_input(metadata@, name@, description@, properties));
    buf
}

pub fn encode_proxy_mint_input(
    to: &AccountId,
    class_id: ClassId,
    metadata: &[u8],
    quantity: Quantity,
    charge_royalty: Option<bool>,
) -> (r: Vec<u8>)
    requires
        metadata@.len() <= u32::MAX,
    ensures
        r@ == enc_proxy_mint_input(to@, class_id, metadata@, quantity, charge_royalty),
{
    let mut buf = Vec::new();
    put_fixed32(&mut buf, &to.0);
    put_u32(&mut buf, class_id);
    put_bytes(&mut buf, metadata);
    put_u64(&mut buf, quantity);
    put_option_bool(&mut buf, charge_royalty);
    assert(buf@ =~= enc_proxy_mint_input(to@, class_id, metadata@, quantity, charge_royalty));
    buf
}

pub fn encode_transfer_input(
    to: &AccountId,
    class_id: ClassId,
    token_id: TokenId,
    quantity: Quantity,
) -> (r: Vec<u8>)
    ensures
        r@ == enc_transfer_input(to@, class_id, token_id, quantity),
{
    let mut buf = Vec::new();
    put_fixed32(&mut buf, &to.0);
    put_u32(&mut buf, class_id);
    put_u64(&mut buf, token_id);
    put_u64(&mut buf, quantity);
    assert(buf@ =~= enc_transfer_input(to@, class_id, token_id, quantity));
    buf
}

pub fn encode_tokens_input(class_id: ClassId, token_id: TokenId) -> (r: Vec<u8>)
    ensures
        r@ == enc_tokens_input(class_id, token_id),
{
    let mut buf = Vec::new();
    put_u32(&mut buf, class_id);
    put_u64(&mut buf, token_id);
    assert(buf@ =~= enc_tokens_input(class_id, token_id));
    buf
}

pub fn encode_sr25519_verify_input(account: &AccountId, signature: &[u8], message: &[u8]) -> (r:
    Vec<u8>)
    requires
        signature@.len() <= u32::MAX,
        message@.len() <= u32::MAX,
    ensures
        r@ == enc_sr25519_verify_input(account@, signature@, message@),
{
    let mut buf = Vec::new();
    put_fixed32(&mut buf, &account.0);
    put_bytes(&mut buf, signature);
    put_bytes(&mut buf, message);
    assert(buf@ =~= enc_sr25519_verify_input(account@, signature@, message@));
    buf
}

// Reading results. Bytes behind the result are ignored: the host may hand over
// a buffer that is longer than what it wrote.

pub fn decode_fetch_random_output(output: &[u8]) -> (r: Option<[u8; 32]>)
    ensures
        value_of(parse_fetch_random_output(output@)) == match r {
            Some(random) => Some(random@),
            None => None,
        },
{
    match take_fixed32(output) {
        Some((random, _)) => Some(random),
        None => None,
    }
}

pub fn decode_create_class_output(output: &[u8]) -> (r: Option<(AccountId, ClassId)>)
    ensures
        value_of(parse_create_class_output(output@)) == match r {
            Some((owner, class_id)) => Some((owner@, class_id)),
            None => None,
        },
{
    let (owner, s1) = match take_fixed32(output) {
        Some(v) => v,
        None => {
            return None;
        },
    };
    let (class_id, _) = match take_u32(s1) {
        Some(v) => v,
        None => {
            return None;
        },
    };
    Some((AccountId(owner), class_id))
}

pub fn decode_proxy_mint_output(output: &[u8]) -> (r: Option<
    (AccountId, AccountId, ClassId, TokenId, Quantity),
>)
    ensures
        value_of(parse_proxy_mint_output(output@)) == match r {
            Some((class_owner, beneficiary, class_id, token_id, quantity)) => Some(
                (class_owner@, beneficiary@, class_id, token_id, quantity),
            ),
            None => None,
        },
{
    let (class_owner, s1) = match take_fixed32(output) {
        Some(v) => v,
        None => {
            return None;
        },
    };
    let (beneficiary, s2) = match take_fixed32(s1) {
        Some(v) => v,
        None => {
            return None;
        },
    };
    let (class_id, s3) = match take_u32(s2) {
        Some(v) => v,
        None => {
            return None;
        },
    };
    let (token_id, s4) = match take_u64(s3) {
        Some(v) => v,
        None => {
            return None;
        },
    };
    let (quantity, _) = match take_u64(s4) {
        Some(v) => v,
        None => {
            return None;
        },
    };
    Some((AccountId(class_owner), AccountId(beneficiary), class_id, token_id, quantity))
}

pub fn decode_transfer_output(output: &[u8]) -> (r: Option<()>)
    ensures
        value_of(parse_transfer_output(output@)) == r,
        r is Some,
{
    Some(())
}

pub fn decode_tokens_output(output: &[u8]) -> (r: Option<Option<TokenInfo>>)
    ensures
        value_of(parse_tokens_output(output@)) == match r {
            Some(Some(info)) => Some(Some(info@)),
            Some(None) => Some(None),
            None => None,
        },
{
    let (tag, s1) = match take_u8(output) {
        Some(v) => v,
        None => {
            return None;
        },
    };
    if tag == 0 {
        Some(None)
    } else if tag == 1 {
        match take_token_info(s1) {
            Some((info, _)) => Some(Some(info)),
            None => None,
        }
    } else {
        None
    }
}

pub fn decode_sr25519_verify_output(output: &[u8]) -> (r: Option<bool>)
    ensures
        value_of(parse_sr25519_verify_output(output@)) == r,
{
    match take_bool(output) {
        Some((valid, _)) => Some(valid),
        None => None,
    }
}

// Round trips: for the arguments and the result of every operation, parsing
// the encoding of a value gives that value and the bytes that followed it.

/// Round trip of the arguments of `fetch_random`.
pub proof fn fetch_random_input_round_trip(rest: Seq<u8>)
    ensures
        parse_fetch_random_input(enc_fetch_random_input() + rest) == Some(((), rest)),
{
    assert(enc_fetch_random_input() + rest =~= rest);
}

/// Round trip of the result of `fetch_random`.
pub proof fn fetch_random_output_round_trip(random: Seq<u8>, rest: Seq<u8>)
    requires
        random.len() == 32,
    ensures
        parse_fetch_random_output(enc_fetch_random_output(random) + rest) == Some((random, rest)),
{
    lemma_parse_fixed32(random, rest);
}

/// Round trip of the arguments of `create_class`.
pub proof fn create_class_input_round_trip(
    metadata: Seq<u8>,
    name: Seq<u8>,
    description: Seq<u8>,
    properties: u8,
    rest: Seq<u8>,
)
    requires
        metadata.len() <= u32::MAX,
        name.len() <= u32::MAX,
        description.len() <= u32::MAX,
    ensures
        parse_create_class_input(
            enc_create_class_input(metadata, name, description, properties) + rest,
        ) == Some(((metadata, name, description, properties), rest)),
{
    let r3 = enc_u8(properties) + rest;
    let r2 = enc_bytes(description) + r3;
    let r1 = enc_bytes(name) + r2;
    assert(enc_create_class_input(metadata, name, description, properties) + rest =~= enc_bytes(
        metadata,
    ) + r1);
    lemma_parse_bytes(metadata, r1);
    lemma_parse_bytes(name, r2);
    lemma_parse_bytes(description, r3);
    lemma_parse_u8(properties, rest);
}

/// Round trip of the result of `create_class`.
pub proof fn create_class_output_round_trip(owner: Seq<u8>, class_id: ClassId, rest: Seq<u8>)
    requires
        owner.len() == 32,
    ensures
        parse_create_class_output(enc_create_class_output(owner, class_id) + rest) == Some(
            ((owner, class_id), rest),
        ),
{
    let r1 = enc_u32(class_id) + rest;
    assert(enc_create_class_output(owner, class_id) + rest =~= enc_fixed32(owner) + r1);
    lemma_parse_fixed32(owner, r1);
    lemma_parse_u32(class_id, rest);
}

/// Round trip of the arguments of `proxy_mint`.
pub proof fn proxy_mint_input_round_trip(
    to: Seq<u8>,
    class_id: ClassId,
    metadata: Seq<u8>,
    quantity: Quantity,
    charge_royalty: Option<bool>,
    rest: Seq<u8>,
)
    requires
        to.len() == 32,
        metadata.len() <= u32::MAX,
    ensures
        parse_proxy_mint_input(
            enc_proxy_mint_input(to, class_id, metadata, quantity, charge_royalty) + rest,
        ) == Some(((to, class_id, metadata, quantity, charge_royalty), rest)),
{
    let r4 = enc_option_bool(charge_royalty) + rest;
    let r3 = enc_u64(quantity) + r4;
    let r2 = enc_bytes(metadata) + r3;
    let r1 = enc_u32(class_id) + r2;
    assert(enc_proxy_mint_input(to, class_id, metadata, quantity, charge_royalty) + rest
        =~= enc_fixed32(to) + r1);
    lemma_parse_fixed32(to, r1);
    lemma_parse_u32(class_id, r2);
    lemma_parse_bytes(metadata, r3);
    lemma_parse_u64(quantity, r4);
    lemma_parse_option_bool(charge_royalty, rest);
}

/// Round trip of the result of `proxy_mint`.
pub proof fn proxy_mint_output_round_trip(
    class_owner: Seq<u8>,
    beneficiary: Seq<u8>,
    class_id: ClassId,
    token_id: TokenId,
    quantity: Quantity,
    rest: Seq<u8>,
)
    requires
        class_owner.len() == 32,
        beneficiary.len() == 32,
    ensures
        parse_proxy_mint_output(
            enc_proxy_mint_output(class_owner, beneficiary, class_id, token_id, quantity) + rest,
        ) == Some(((class_owner, beneficiary, class_id, token_id, quantity), rest)),
{
    let r4 = enc_u64(quantity) + rest;
    let r3 = enc_u64(token_id) + r4;
    let r2 = enc_u32(class_id) + r3;
    let r1 = enc_fixed32(beneficiary) + r2;
    assert(enc_proxy_mint_output(class_owner, beneficiary, class_id, token_id, quantity) + rest
        =~= enc_fixed32(class_owner) + r1);
    lemma_parse_fixed32(class_owner, r1);
    lemma_parse_fixed32(beneficiary, r2);
    lemma_parse_u32(class_id, r3);
    lemma_parse_u64(token_id, r4);
    lemma_parse_u64(quantity, rest);
}

/// Round trip of the arguments of `transfer`.
pub proof fn transfer_input_round_trip(
    to: Seq<u8>,
    class_id: ClassId,
    token_id: TokenId,
    quantity: Quantity,
    rest: Seq<u8>,
)
    requires
        to.len() == 32,
    ensures
        parse_transfer_input(enc_transfer_input(to, class_id, token_id, quantity) + rest) == Some(
            ((to, class_id, token_id, quantity), rest),
        ),
{
    let r3 = enc_u64(quantity) + rest;
    let r2 = enc_u64(token_id) + r3;
    let r1 = enc_u32(class_id) + r2;
    assert(enc_transfer_input(to, class_id, token_id, quantity) + rest =~= enc_fixed32(to) + r1);
    lemma_parse_fixed32(to, r1);
    lemma_parse_u32(class_id, r2);
    lemma_parse_u64(token_id, r3);
    lemma_parse_u64(quantity, rest);
}

/// Round trip of the result of `transfer`.
pub proof fn transfer_output_round_trip(rest: Seq<u8>)
    ensures
        parse_transfer_output(enc_transfer_output() + rest) == Some(((), rest)),
{
    assert(enc_transfer_output() + rest =~= rest);
}

/// Round trip of the arguments of `tokens`.
pub proof fn tokens_input_round_trip(class_id: ClassId, token_id: TokenId, rest: Seq<u8>)
    ensures
        parse_tokens_input(enc_tokens_input(class_id, token_id) + rest) == Some(
            ((class_id, token_id), rest),
        ),
{
    let r1 = enc_u64(token_id) + rest;
    assert(enc_tokens_input(class_id, token_id) + rest =~= enc_u32(class_id) + r1);
    lemma_parse_u32(class_id, r1);
    lemma_parse_u64(token_id, rest);
}

/// Round trip of the result of `tokens`.
pub proof fn tokens_output_round_trip(info: Option<TokenInfoView>, rest: Seq<u8>)
    requires
        info matches Some(i) ==> token_info_wf(i),
    ensures
        parse_tokens_output(enc_tokens_output(info) + rest) == Some((info, rest)),
{
    let s = enc_tokens_output(info) + rest;
    match info {
        None => {
            assert(tail(s, 1) =~= rest);
        },
        Some(i) => {
            assert(tail(s, 1) =~= enc_token_info(i) + rest);
            lemma_parse_token_info(i, rest);
        },
    }
}

/// Round trip of the arguments of `sr25519_verify`.
pub proof fn sr25519_verify_input_round_trip(
    account: Seq<u8>,
    signature: Seq<u8>,
    message: Seq<u8>,
    rest: Seq<u8>,
)
    requires
        account.len() == 32,
        signature.len() <= u32::MAX,
        message.len() <= u32::MAX,
    ensures
        parse_sr25519_verify_input(enc_sr25519_verify_input(account, signature, message) + rest)
            == Some(((account, signature, message), rest)),
{
    let r2 = enc_bytes(message) + rest;
    let r1 = enc_bytes(signature) + r2;
    assert(enc_sr25519_verify_input(account, signature, message) + rest =~= enc_fixed32(account)
        + r1);
    lemma_parse_fixed32(account, r1);
    lemma_parse_bytes(signature, r2);
    lemma_parse_bytes(message, rest);
}

/// Round trip of the result of `sr25519_verify`.
pub proof fn sr25519_verify_output_round_trip(valid: bool, rest: Seq<u8>)
    ensures
        parse_sr25519_verify_output(enc_sr25519_verify_output(valid) + rest) == Some(
            (valid, rest),
        ),
{
    lemma_parse_bool(valid, rest);
}

} // verus!
