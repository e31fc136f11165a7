//! The demonstration contract: one stored value of 32 bytes and the messages
//! that reach the host through the extension.
//!
//! The messages emit nothing themselves: a message that ends with a
//! notification returns it, and whoever runs the contract emits it. A breach of
//! the protocol by the host comes back as `Abort`, and whoever runs the
//! contract stops on it.

use vstd::prelude::*;
use crate::extension::{
    create_class_outcome, fetch_random_outcome, issued, proxy_mint_outcome, tokens_outcome,
    transfer_outcome, Exchange, Extension, NFTMart, Operation,
};
use crate::status::{success, Abort, Outcome};
use crate::types::{
    AccountId, BlockNumber, Chars, ClassId, Metadata, Quantity, TokenId, TokenInfo, TokenInfoView,
};
use crate::wire::{
    enc_create_class_input, enc_fetch_random_input, enc_proxy_mint_input, enc_tokens_input,
    enc_transfer_input,
};

verus! {

/// Notification that the stored value was replaced.
#[derive(Clone, Copy, Debug, PartialEq, Eq)]
pub struct RandomUpdated {
    pub new: [u8; 32],
}

/// Notification that the contract created a class.
#[derive(Clone, Copy, Debug, PartialEq, Eq)]
pub struct CreateClassFromContract {
    pub owner: AccountId,
    pub class_id: ClassId,
}

/// The contract's storage.
#[derive(Clone, Copy, Debug, PartialEq, Eq)]
pub struct ContractDemo {
    value: [u8; 32],
}

impl View for ContractDemo {
    type V = Seq<u8>;

    /// The stored value.
    closed spec fn view(&self) -> Seq<u8> {
        self.value@
    }
}

/// The triplet a snapshot is reported as: metadata, quantity, block of
/// creation. An absent snapshot is reported as the empty one.
pub open spec fn triplet_of(info: Option<TokenInfoView>) -> (Seq<u8>, Quantity, BlockNumber) {
    let i = match info {
        Some(i) => i,
        None => TokenInfoView::empty(),
    };
    (i.metadata, i.quantity, i.data.create_block)
}

/// The calls that `after` holds beyond `before`.
pub open spec fn added(before: Seq<Exchange>, after: Seq<Exchange>) -> Seq<Exchange> {
    after.subrange(before.len() as int, after.len() as int)
}

/// The exchange is a transfer of `item` to `to`.
pub open spec fn is_transfer_of(e: Exchange, to: Seq<u8>, item: (ClassId, TokenId, Quantity)) -> bool {
    e.func_id == Operation::Transfer.spec_id() && e.input == enc_transfer_input(
        to,
        item.0,
        item.1,
        item.2,
    )
}

/// How a batch of transfers shows in the record, and what it returns. The
/// calls added are the transfers of the first items of the list, in the order
/// of the list; each but the last succeeded; the batch returns what the last
/// returned, or success where nothing was called; and it stops before the end
/// of the list only behind a call that did not succeed.
pub open spec fn transfers_run(
    before: Seq<Exchange>,
    after: Seq<Exchange>,
    to: Seq<u8>,
    items: Seq<(ClassId, TokenId, Quantity)>,
    r: Outcome<()>,
) -> bool {
    let calls = added(before, after);
    &&& before.len() <= after.len() <= before.len() + items.len()
    &&& after.subrange(0, before.len() as int) == before
    &&& forall|i: int| 0 <= i < calls.len() ==> is_transfer_of(#[trigger] calls[i], to, items[i])
    &&& forall|i: int|
        0 <= i < calls.len() - 1 ==> transfer_outcome(
            (#[trigger] calls[i]).status,
            calls[i].output,
        ) == success()
    &&& r == if calls.len() == 0 {
        Ok(Ok(()))
    } else {
        transfer_outcome(calls.last().status, calls.last().output)
    }
    &&& calls.len() < items.len() ==> r != success()
}

/// No call follows one that did not succeed, and the batch returns what that
/// call returned.
pub open spec fn stops_at_failure(calls: Seq<Exchange>, r: Outcome<()>) -> bool {
    forall|k: int|
        0 <= k < calls.len() && transfer_outcome((#[trigger] calls[k]).status, calls[k].output)
            != success() ==> calls.len() == k + 1 && r
            == transfer_outcome(calls[k].status, calls[k].output)
}

impl ContractDemo {
    /// A contract whose stored value is 32 zero bytes.
    pub fn new() -> (r: Self)
        ensures
            r@ == Seq::new(32, |i: int| 0u8),
    {
        let r = ContractDemo { value: [0u8; 32] };
        assert(r@ =~= Seq::new(32, |i: int| 0u8));
        r
    }

    /// A contract whose stored value is `value`: the contract as it was left
    /// by the message before.
    pub fn from_value(value: [u8; 32]) -> (r: Self)
        ensures
            r@ == value@,
    {
        ContractDemo { value }
    }

    /// The stored value.
    pub fn get(&self) -> (r: [u8; 32])
        ensures
            r@ == self@,
    {
        self.value
    }

    /// Reports a snapshot as a triplet; an absent one as the empty triplet.
    pub fn token_triplet(info: Option<TokenInfo>) -> (r: (Metadata, Quantity, BlockNumber))
        ensures
            (r.0@, r.1, r.2) == triplet_of(
                match info {
                    Some(i) => Some(i@),
                    None => None,
                },
            ),
            info is None ==> r.0@.len() == 0 && r.1 == 0 && r.2 == 0,
    {
        let info = match info {
            Some(i) => i,
            None => TokenInfo::default(),
        };
        (info.metadata, info.quantity, info.data.create_block)
    }

    /// Asks the host for a token and reports it as a triplet. The host's
    /// "no such token" is reported as the empty triplet.
    pub fn tokens<H: NFTMart>(&self, ext: &mut Extension<H>, class_id: ClassId, token_id: TokenId)
        -> (r: Result<(Metadata, Quantity, BlockNumber), Abort>)
        ensures
            issued(
                old(ext).log(),
                final(ext).log(),
                Operation::Tokens,
                enc_tokens_input(class_id, token_id),
            ),
            match tokens_outcome(final(ext).log().last().output) {
                Ok(info) => r matches Ok(t) && (t.0@, t.1, t.2) == triplet_of(info),
                Err(a) => r == Err::<(Metadata, Quantity, BlockNumber), Abort>(a),
            },
    {
        match ext.tokens(class_id, token_id) {
            Ok(info) => Ok(Self::token_triplet(info)),
            Err(a) => Err(a),
        }
    }

    /// Creates a class. On success it returns the one notification to emit,
    /// which carries the owner and the id that the host returned.
    pub fn create_class<H: NFTMart>(
        &mut self,
        ext: &mut Extension<H>,
        metadata: Metadata,
        name: Chars,
        description: Chars,
        properties: u8,
    ) -> (r: Outcome<CreateClassFromContract>)
        requires
            metadata@.len() <= u32::MAX,
            name@.len() <= u32::MAX,
            description@.len() <= u32::MAX,
        ensures
            *final(self) == *old(self),
            issued(
                old(ext).log(),
                final(ext).log(),
                Operation::CreateClass,
                enc_create_class_input(metadata@, name@, description@, properties),
            ),
            create_class_outcome(final(ext).log().last().status, final(ext).log().last().output)
                == match r {
                Ok(Ok(event)) => Ok(Ok((event.owner@, event.class_id))),
                Ok(Err(e)) => Ok(Err(e)),
                Err(a) => Err(a),
            },
    {
        match ext.create_class(
            metadata.as_slice(),
            name.as_slice(),
            description.as_slice(),
            properties,
        ) {
            Ok(Ok((owner, class_id))) => Ok(Ok(CreateClassFromContract { owner, class_id })),
            Ok(Err(e)) => Ok(Err(e)),
            Err(a) => Err(a),
        }
    }

    /// Mints tokens to the caller of the message. Of the host's answer only
    /// success or failure is kept.
    pub fn mint_nft<H: NFTMart>(
        &mut self,
        ext: &mut Extension<H>,
        caller: &AccountId,
        class_id: ClassId,
        metadata: Metadata,
        quantity: Quantity,
        charge_royalty: Option<bool>,
    ) -> (r: Outcome<()>)
        requires
            metadata@.len() <= u32::MAX,
        ensures
            *final(self) == *old(self),
            issued(
                old(ext).log(),
                final(ext).log(),
                Operation::ProxyMint,
                enc_proxy_mint_input(caller@, class_id, metadata@, quantity, charge_royalty),
            ),
            r == match proxy_mint_outcome(
                final(ext).log().last().status,
                final(ext).log().last().output,
            ) {
                Ok(Ok(_)) => success(),
                Ok(Err(e)) => Ok(Err(e)),
                Err(a) => Err(a),
            },
    {
        match ext.proxy_mint(caller, class_id, metadata.as_slice(), quantity, charge_royalty) {
            Ok(Ok(_)) => Ok(Ok(())),
            Ok(Err(e)) => Ok(Err(e)),
            Err(a) => Err(a),
        }
    }

    /// Moves tokens to `to`.
    pub fn transfer<H: NFTMart>(
        &mut self,
        ext: &mut Extension<H>,
        to: AccountId,
        class_id: ClassId,
        token_id: TokenId,
        quantity: Quantity,
    ) -> (r: Outcome<()>)
        ensures
            *final(self) == *old(self),
            issued(
                old(ext).log(),
                final(ext).log(),
                Operation::Transfer,
                enc_transfer_input(to@, class_id, token_id, quantity),
            ),
            r == transfer_outcome(final(ext).log().last().status, final(ext).log().last().output),
    {
        ext.transfer(&to, class_id, token_id, quantity)
    }

    /// Moves each item of the list to `to`, in the order of the list, and
    /// stops at the first transfer that does not succeed. What was moved
    /// before stays moved.
    pub fn transfer_all<H: NFTMart>(
        &mut self,
        ext: &mut Extension<H>,
        to: AccountId,
        items: Vec<(ClassId, TokenId, Quantity)>,
    ) -> (r: Outcome<()>)
        ensures
            *final(self) == *old(self),
            transfers_run(old(ext).log(), final(ext).log(), to@, items@, r),
            items@.len() == 0 ==> final(ext).log() == old(ext).log() && r == success(),
            stops_at_failure(added(old(ext).log(), final(ext).log()), r),
    {
        let ghost before = ext.log();
        let mut i: usize = 0;
        while i < items.len()
            invariant
                i <= items.len(),
                before == old(ext).log(),
                ext.log().len() == before.len() + i,
                ext.log().subrange(0, before.len() as int) == before,
                forall|j: int|
                    0 <= j < i ==> is_transfer_of(
                        #[trigger] added(before, ext.log())[j],
                        to@,
                        items@[j],
                    ),
                forall|j: int|
                    0 <= j < i ==> transfer_outcome(
                        (#[trigger] added(before, ext.log())[j]).status,
                        added(before, ext.log())[j].output,
                    ) == success(),
            decreases items.len() - i,
        {
            let ghost prev = ext.log();
            let (class_id, token_id, quantity) = items[i];
            let r = ext.transfer(&to, class_id, token_id, quantity);
            proof {
                let now = ext.log();
                assert(now.drop_last() == prev);
                assert(now.subrange(0, before.len() as int) =~= before) by {
                    assert(prev.subrange(0, before.len() as int) == before);
                    assert forall|j: int| 0 <= j < before.len() implies now[j] == before[j] by {
                        assert(now.drop_last()[j] == now[j]);
                        assert(prev.subrange(0, before.len() as int)[j] == prev[j]);
                    }
                }
                assert forall|j: int| 0 <= j < i implies added(before, now)[j] == added(
                    before,
                    prev,
                )[j] by {
                    assert(now.drop_last()[before.len() + j] == now[before.len() + j]);
                }
                assert(added(before, now)[i as int] == now.last());
                assert(added(before, now).len() == i + 1);
                assert forall|j: int| 0 <= j < i + 1 implies is_transfer_of(
                    #[trigger] added(before, now)[j],
                    to@,
                    items@[j],
                ) by {
                    if j < i {
                        assert(is_transfer_of(added(before, prev)[j], to@, items@[j]));
                    }
                }
                assert forall|j: int| 0 <= j < i implies transfer_outcome(
                    (#[trigger] added(before, now)[j]).status,
                    added(before, now)[j].output,
                ) == success() by {
                    assert(added(before, now)[j] == added(before, prev)[j]);
                }
            }
            match r {
                Ok(Ok(_)) => {},
                _ => {
                    return r;
                },
            }
            i += 1;
        }
        proof {
            if i == 0 {
                assert(ext.log() =~= before);
            }
        }
        Ok(Ok(()))
    }

    /// Replaces the stored value by 32 bytes fetched from the host. On success
    /// it returns the notification to emit, which carries the new value; on
    /// every other outcome the stored value stays as it was.
    pub fn update<H: NFTMart>(&mut self, ext: &mut Extension<H>) -> (r: Outcome<RandomUpdated>)
        ensures
            issued(
                old(ext).log(),
                final(ext).log(),
                Operation::FetchRandom,
                enc_fetch_random_input(),
            ),
            fetch_random_outcome(final(ext).log().last().status, final(ext).log().last().output)
                == match r {
                Ok(Ok(event)) => Ok(Ok(event.new@)),
                Ok(Err(e)) => Ok(Err(e)),
                Err(a) => Err(a),
            },
            match r {
                Ok(Ok(event)) => final(self)@ == event.new@,
                _ => *final(self) == *old(self),
            },
    {
        match ext.fetch_random() {
            Ok(Ok(random)) => {
                self.value = random;
                Ok(Ok(RandomUpdated { new: random }))
            },
            Ok(Err(e)) => Ok(Err(e)),
            Err(a) => Err(a),
        }
    }
}

} // verus!
