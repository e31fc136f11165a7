//! The operations of the chain extension and how a call of one is carried out.
//!
//! Every operation has a fixed number. A call hands the host that number and
//! the encoded arguments, and gets back a status code and output bytes. The
//! operations that change or allocate something read the status code first:
//! only with status 0 do they read a result off the output. The two queries
//! ignore the status code and read their result at once.

use vstd::prelude::*;
use crate::status::{decode_status, status_outcome, Abort, Outcome};
use crate::types::{AccountId, ClassId, Quantity, TokenId, TokenInfo, TokenInfoView};
use crate::wire::{
    decode_create_class_output, decode_fetch_random_output, decode_proxy_mint_output,
    decode_sr25519_verify_output, decode_tokens_output, decode_transfer_output,
    enc_create_class_input, enc_fetch_random_input, enc_proxy_mint_input,
    enc_sr25519_verify_input, enc_tokens_input, enc_transfer_input, encode_create_class_input,
    encode_fetch_random_input, encode_proxy_mint_input, encode_sr25519_verify_input,
    encode_tokens_input, encode_transfer_input, parse_create_class_output,
    parse_fetch_random_output, parse_proxy_mint_output, parse_sr25519_verify_output,
    parse_tokens_output, parse_transfer_output, value_of,
};

verus! {

/// The operations the host offers.
#[derive(Clone, Copy, Debug, PartialEq, Eq)]
pub enum Operation {
    FetchRandom,
    CreateClass,
    ProxyMint,
    Transfer,
    Tokens,
    Sr25519Verify,
}

impl Operation {
    /// The number under which the host knows the operation.
    pub open spec fn spec_id(self) -> u32 {
        match self {
            Operation::FetchRandom => 2001,
            Operation::CreateClass => 2002,
            Operation::ProxyMint => 2003,
            Operation::Transfer => 2004,
            Operation::Tokens => 1001,
            Operation::Sr25519Verify => 1101,
        }
    }

    /// Whether the status code of the answer is decoded. It is for the
    /// operations that can fail; a query answers in its result alone.
    pub open spec fn spec_handles_status(self) -> bool {
        match self {
            Operation::FetchRandom => true,
            Operation::CreateClass => true,
            Operation::ProxyMint => true,
            Operation::Transfer => true,
            Operation::Tokens => false,
            Operation::Sr25519Verify => false,
        }
    }

    #[verifier::when_used_as_spec(spec_id)]
    pub fn id(self) -> (r: u32)
        ensures
            r == self.spec_id(),
    {
        match self {
            Operation::FetchRandom => 2001,
            Operation::CreateClass => 2002,
            Operation::ProxyMint => 2003,
            Operation::Transfer => 2004,
            Operation::Tokens => 1001,
            Operation::Sr25519Verify => 1101,
        }
    }

    #[verifier::when_used_as_spec(spec_handles_status)]
    pub fn handles_status(self) -> (r: bool)
        ensures
            r == self.spec_handles_status(),
    {
        match self {
            Operation::Tokens => false,
            Operation::Sr25519Verify => false,
            _ => true,
        }
    }

    /// The operation with the given number, if there is one.
    pub fn from_id(id: u32) -> (r: Option<Operation>)
        ensures
            forall|op: Operation| #[trigger] op.spec_id() == id <==> r == Some(op),
    {
        if id == 2001 {
            Some(Operation::FetchRandom)
        } else if id == 2002 {
            Some(Operation::CreateClass)
        } else if id == 2003 {
            Some(Operation::ProxyMint)
        } else if id == 2004 {
            Some(Operation::Transfer)
        } else if id == 1001 {
            Some(Operation::Tokens)
        } else if id == 1101 {
            Some(Operation::Sr25519Verify)
        } else {
            None
        }
    }
}

/// What the host hands back from one call.
#[derive(Clone, Debug, PartialEq, Eq)]
pub struct Response {
    pub status: u32,
    pub output: Vec<u8>,
}

/// The host side of the chain extension: whatever carries one call to the
/// chain and brings its answer back. Nothing is assumed of the answer.
pub trait NFTMart {
    fn call(&mut self, func_id: u32, input: &[u8]) -> Response;
}

/// What a fallible operation returns for a status code and the result read
/// off the output. The output counts only with status 0.
pub open spec fn fallible_outcome<T>(status: u32, decoded: Option<T>) -> Outcome<T> {
    match status_outcome(status) {
        Ok(Ok(_)) => match decoded {
            Some(v) => Ok(Ok(v)),
            None => Err(Abort::MalformedOutput),
        },
        Ok(Err(e)) => Ok(Err(e)),
        Err(a) => Err(a),
    }
}

/// What a query returns for the result read off the output.
pub open spec fn query_outcome<T>(decoded: Option<T>) -> Result<T, Abort> {
    match decoded {
        Some(v) => Ok(v),
        None => Err(Abort::MalformedOutput),
    }
}

pub open spec fn fetch_random_outcome(status: u32, output: Seq<u8>) -> Outcome<Seq<u8>> {
    fallible_outcome(status, value_of(parse_fetch_random_output(output)))
}

pub open spec fn create_class_outcome(status: u32, output: Seq<u8>) -> Outcome<
    (Seq<u8>, ClassId),
> {
    fallible_outcome(status, value_of(parse_create_class_output(output)))
}

pub open spec fn proxy_mint_outcome(status: u32, output: Seq<u8>) -> Outcome<
    (Seq<u8>, Seq<u8>, ClassId, TokenId, Quantity),
> {
    fallible_outcome(status, value_of(parse_proxy_mint_output(output)))
}

pub open spec fn transfer_outcome(status: u32, output: Seq<u8>) -> Outcome<()> {
    fallible_outcome(status, value_of(parse_transfer_output(output)))
}

pub open spec fn tokens_outcome(output: Seq<u8>) -> Result<Option<TokenInfoView>, Abort> {
    query_outcome(value_of(parse_tokens_output(output)))
}

pub open spec fn sr25519_verify_outcome(output: Seq<u8>) -> Result<bool, Abort> {
    query_outcome(value_of(parse_sr25519_verify_output(output)))
}

/// Reads the answer to `fetch_random`.
pub fn fetch_random_reply(response: &Response) -> (r: Outcome<[u8; 32]>)
    ensures
        fetch_random_outcome(response.status, response.output@) == match r {
            Ok(Ok(random)) => Ok(Ok(random@)),
            Ok(Err(e)) => Ok(Err(e)),
            Err(a) => Err(a),
        },
{
    match decode_status(response.status) {
        Ok(Ok(_)) => match decode_fetch_random_output(response.output.as_slice()) {
            Some(random) => Ok(Ok(random)),
            None => Err(Abort::MalformedOutput),
        },
        Ok(Err(e)) => Ok(Err(e)),
        Err(a) => Err(a),
    }
}

/// Reads the answer to `create_class`.
pub fn create_class_reply(response: &Response) -> (r: Outcome<(AccountId, ClassId)>)
    ensures
        create_class_outcome(response.status, response.output@) == match r {
            Ok(Ok((owner, class_id))) => Ok(Ok((owner@, class_id))),
            Ok(Err(e)) => Ok(Err(e)),
            Err(a) => Err(a),
        },
{
    match decode_status(response.status) {
        Ok(Ok(_)) => match decode_create_class_output(response.output.as_slice()) {
            Some(v) => Ok(Ok(v)),
            None => Err(Abort::MalformedOutput),
        },
        Ok(Err(e)) => Ok(Err(e)),
        Err(a) => Err(a),
    }
}

/// Reads the answer to `proxy_mint`.
pub fn proxy_mint_reply(response: &Response) -> (r: Outcome<
    (AccountId, AccountId, ClassId, TokenId, Quantity),
>)
    ensures
        proxy_mint_outcome(response.status, response.output@) == match r {
            Ok(Ok((class_owner, beneficiary, class_id, token_id, quantity))) => Ok(
                Ok((class_owner@, beneficiary@, class_id, token_id, quantity)),
            ),
            Ok(Err(e)) => Ok(Err(e)),
            Err(a) => Err(a),
        },
{
    match decode_status(response.status) {
        Ok(Ok(_)) => match decode_proxy_mint_output(response.output.as_slice()) {
            Some(v) => Ok(Ok(v)),
            None => Err(Abort::MalformedOutput),
        },
        Ok(Err(e)) => Ok(Err(e)),
        Err(a) => Err(a),
    }
}

/// Reads the answer to `transfer`. There is no result to read, so the status
/// code alone decides.
pub fn transfer_reply(response: &Response) -> (r: Outcome<()>)
    ensures
        r == transfer_outcome(response.status, response.output@),
        r == status_outcome(response.status),
{
    match decode_status(response.status) {
        Ok(Ok(_)) => match decode_transfer_output(response.output.as_slice()) {
            Some(v) => Ok(Ok(v)),
            None => Err(Abort::MalformedOutput),
        },
        Ok(Err(e)) => Ok(Err(e)),
        Err(a) => Err(a),
    }
}

/// Reads the answer to `tokens`, whatever its status code.
pub fn tokens_reply(response: &Response) -> (r: Result<Option<TokenInfo>, Abort>)
    ensures
        tokens_outcome(response.output@) == match r {
            Ok(Some(info)) => Ok(Some(info@)),
            Ok(None) => Ok(None),
            Err(a) => Err(a),
        },
{
    match decode_tokens_output(response.output.as_slice()) {
        Some(info) => Ok(info),
        None => Err(Abort::MalformedOutput),
    }
}

/// Reads the answer to `sr25519_verify`, whatever its status code.
pub fn sr25519_verify_reply(response: &Response) -> (r: Result<bool, Abort>)
    ensures
        r == sr25519_verify_outcome(response.output@),
{
    match decode_sr25519_verify_output(response.output.as_slice()) {
        Some(valid) => Ok(valid),
        None => Err(Abort::MalformedOutput),
    }
}

/// One call as it happened: what was handed to the host and what came back.
pub struct Exchange {
    pub func_id: u32,
    pub input: Seq<u8>,
    pub status: u32,
    pub output: Seq<u8>,
}

/// `after` is `before` with one more call, of the operation `op` on `input`.
pub open spec fn issued(
    before: Seq<Exchange>,
    after: Seq<Exchange>,
    op: Operation,
    input: Seq<u8>,
) -> bool {
    &&& after.len() == before.len() + 1
    &&& after.drop_last() == before
    &&& after.last().func_id == op.spec_id()
    &&& after.last().input == input
}

/// A host together with the record of every call made through it.
pub struct Extension<H: NFTMart> {
    host: H,
    log: Ghost<Seq<Exchange>>,
}

impl<H: NFTMart> Extension<H> {
    /// The calls made so far, oldest first.
    pub closed spec fn log(&self) -> Seq<Exchange> {
        self.log@
    }

    /// The host as it stands.
    pub closed spec fn host_state(&self) -> H {
        self.host
    }

    pub fn new(host: H) -> (r: Self)
        ensures
            r.log() == Seq::<Exchange>::empty(),
            r.host_state() == host,
    {
        Extension { host, log: Ghost(Seq::empty()) }
    }

    pub fn host(&self) -> (r: &H)
        ensures
            *r == self.host_state(),
    {
        &self.host
    }

    pub fn into_host(self) -> (r: H)
        ensures
            r == self.host_state(),
    {
        self.host
    }

    /// Hands one call to the host and records it with its answer.
    pub fn call(&mut self, func_id: u32, input: &[u8]) -> (r: Response)
        ensures
            final(self).log() == old(self).log().push(
                Exchange { func_id, input: input@, status: r.status, output: r.output@ },
            ),
    {
        let response = self.host.call(func_id, input);
        self.log = Ghost(
            self.log@.push(
                Exchange {
                    func_id,
                    input: input@,
                    status: response.status,
                    output: response.output@,
                },
            ),
        );
        response
    }

    /// Asks the host for 32 random bytes.
    pub fn fetch_random(&mut self) -> (r: Outcome<[u8; 32]>)
        ensures
            issued(
                old(self).log(),
                final(self).log(),
                Operation::FetchRandom,
                enc_fetch_random_input(),
            ),
            fetch_random_outcome(final(self).log().last().status, final(self).log().last().output)
                == match r {
                Ok(Ok(random)) => Ok(Ok(random@)),
                Ok(Err(e)) => Ok(Err(e)),
                Err(a) => Err(a),
            },
    {
        let input = encode_fetch_random_input();
        let response = self.call(Operation::FetchRandom.id(), input.as_slice());
        assert(self.log().drop_last() =~= old(self).log());
        fetch_random_reply(&response)
    }

    /// Asks the host to create a class; it answers with the owner and the id.
    pub fn create_class(&mut self, metadata: &[u8], name: &[u8], description: &[u8], properties: u8)
        -> (r: Outcome<(AccountId, ClassId)>)
        requires
            metadata@.len() <= u32::MAX,
            name@.len() <= u32::MAX,
            description@.len() <= u32::MAX,
        ensures
            issued(
                old(self).log(),
                final(self).log(),
                Operation::CreateClass,
                enc_create_class_input(metadata@, name@, description@, properties),
            ),
            create_class_outcome(final(self).log().last().status, final(self).log().last().output)
                == match r {
                Ok(Ok((owner, class_id))) => Ok(Ok((owner@, class_id))),
                Ok(Err(e)) => Ok(Err(e)),
                Err(a) => Err(a),
            },
    {
        let input = encode_create_class_input(metadata, name, description, properties);
        let response = self.call(Operation::CreateClass.id(), input.as_slice());
        assert(self.log().drop_last() =~= old(self).log());
        create_class_reply(&response)
    }

    /// Asks the host to mint tokens of a class to `to`.
    pub fn proxy_mint(
        &mut self,
        to: &AccountId,
        class_id: ClassId,
        metadata: &[u8],
        quantity: Quantity,
        charge_royalty: Option<bool>,
    ) -> (r: Outcome<(AccountId, AccountId, ClassId, TokenId, Quantity)>)
        requires
            metadata@.len() <= u32::MAX,
        ensures
            issued(
                old(self).log(),
                final(self).log(),
                Operation::ProxyMint,
                enc_proxy_mint_input(to@, class_id, metadata@, quantity, charge_royalty),
            ),
            proxy_mint_outcome(final(self).log().last().status, final(self).log().last().output)
                == match r {
                Ok(Ok((class_owner, beneficiary, class_id, token_id, quantity))) => Ok(
                    Ok((class_owner@, beneficiary@, class_id, token_id, quantity)),
                ),
                Ok(Err(e)) => Ok(Err(e)),
                Err(a) => Err(a),
            },
    {
        let input = encode_proxy_mint_input(to, class_id, metadata, quantity, charge_royalty);
        let response = self.call(Operation::ProxyMint.id(), input.as_slice());
        assert(self.log().drop_last() =~= old(self).log());
        proxy_mint_reply(&response)
    }

    /// Asks the host to move tokens to `to`.
    pub fn transfer(
        &mut self,
        to: &AccountId,
        class_id: ClassId,
        token_id: TokenId,
        quantity: Quantity,
    ) -> (r: Outcome<()>)
        ensures
            issued(
                old(self).log(),
                final(self).log(),
                Operation::Transfer,
                enc_transfer_input(to@, class_id, token_id, quantity),
            ),
            r == transfer_outcome(
                final(self).log().last().status,
                final(self).log().last().output,
            ),
    {
        let input = encode_transfer_input(to, class_id, token_id, quantity);
        let response = self.call(Operation::Transfer.id(), input.as_slice());
        assert(self.log().drop_last() =~= old(self).log());
        transfer_reply(&response)
    }

    /// Asks the host for the snapshot of a token.
    pub fn tokens(&mut self, class_id: ClassId, token_id: TokenId) -> (r: Result<
        Option<TokenInfo>,
        Abort,
    >)
        ensures
            issued(
                old(self).log(),
                final(self).log(),
                Operation::Tokens,
                enc_tokens_input(class_id, token_id),
            ),
            tokens_outcome(final(self).log().last().output) == match r {
                Ok(Some(info)) => Ok(Some(info@)),
                Ok(None) => Ok(None),
                Err(a) => Err(a),
            },
    {
        let input = encode_tokens_input(class_id, token_id);
        let response = self.call(Operation::Tokens.id(), input.as_slice());
        assert(self.log().drop_last() =~= old(self).log());
        tokens_reply(&response)
    }

    /// Asks the host whether `signature` is the account's signature of `message`.
    pub fn sr25519_verify(&mut self, account: &AccountId, signature: &[u8], message: &[u8]) -> (r:
        Result<bool, Abort>)
        requires
            signature@.len() <= u32::MAX,
            message@.len() <= u32::MAX,
        ensures
            issued(
                old(self).log(),
                final(self).log(),
                Operation::Sr25519Verify,
                enc_sr25519_verify_input(account@, signature@, message@),
            ),
            r == sr25519_verify_outcome(final(self).log().last().output),
    {
        let input = encode_sr25519_verify_input(account, signature, message);
        let response = self.call(Operation::Sr25519Verify.id(), input.as_slice());
        assert(self.log().drop_last() =~= old(self).log());
        sr25519_verify_reply(&response)
    }
}

} // verus!
