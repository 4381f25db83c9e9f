//! Costs of the auction system contract.

use crate::bytesrepr::{
    lemma_read_written_u32, read_u32, spec_read_u32, write_u32, Error,
};
use crate::random::random_u32;
use vstd::bytes::{
    lemma_auto_spec_u32_to_from_le_bytes, lemma_auto_spec_u64_to_from_le_bytes,
    spec_u32_to_le_bytes,
};
use vstd::prelude::*;

verus! {

/// Default cost of the `get_era_validators` entry point.
pub const DEFAULT_GET_ERA_VALIDATORS_COST: u32 = 10_000;

/// Default cost of the `read_seigniorage_recipients` entry point.
pub const DEFAULT_READ_SEIGNIORAGE_RECIPIENTS_COST: u32 = 10_000;

/// Default cost of the `add_bid` entry point.
pub const DEFAULT_ADD_BID_COST: u32 = 2_500_000_000;

/// Default cost of the `withdraw_bid` entry point.
pub const DEFAULT_WITHDRAW_BID_COST: u32 = 2_500_000_000;

/// Default cost of the `delegate` entry point.
pub const DEFAULT_DELEGATE_COST: u32 = 2_500_000_000;

/// Default cost of the `undelegate` entry point.
pub const DEFAULT_UNDELEGATE_COST: u32 = 2_500_000_000;

/// Default cost of the `run_auction` entry point.
pub const DEFAULT_RUN_AUCTION_COST: u32 = 10_000;

/// Default cost of the `slash` entry point.
pub const DEFAULT_SLASH_COST: u32 = 10_000;

/// Default cost of the `distribute` entry point.
pub const DEFAULT_DISTRIBUTE_COST: u32 = 10_000;

/// Default cost of the `withdraw_delegator_reward` entry point.
pub const DEFAULT_WITHDRAW_DELEGATOR_REWARD_COST: u32 = 10_000;

/// Default cost of the `withdraw_validator_reward` entry point.
pub const DEFAULT_WITHDRAW_VALIDATOR_REWARD_COST: u32 = 10_000;

/// Default cost of the `read_era_id` entry point.
pub const DEFAULT_READ_ERA_ID_COST: u32 = 10_000;

/// Default cost of the `activate_bid` entry point.
pub const DEFAULT_ACTIVATE_BID_COST: u32 = 10_000;

/// Default cost of the `redelegate` entry point.
pub const DEFAULT_REDELEGATE_COST: u32 = 2_500_000_000;

/// Costs of the auction's entry points, in gas.
#[derive(Clone, Copy, Debug, PartialEq, Eq, Structural)]
pub struct AuctionCosts {
    /// Cost of `get_era_validators`.
    pub get_era_validators: u32,
    /// Cost of `read_seigniorage_recipients`.
    pub read_seigniorage_recipients: u32,
    /// Cost of `add_bid`.
    pub add_bid: u32,
    /// Cost of `withdraw_bid`.
    pub withdraw_bid: u32,
    /// Cost of `delegate`.
    pub delegate: u32,
    /// Cost of `undelegate`.
    pub undelegate: u32,
    /// Cost of `run_auction`.
    pub run_auction: u32,
    /// Cost of `slash`.
    pub slash: u32,
    /// Cost of `distribute`.
    pub distribute: u32,
    /// Cost of `withdraw_delegator_reward`.
    pub withdraw_delegator_reward: u32,
    /// Cost of `withdraw_validator_reward`.
    pub withdraw_validator_reward: u32,
    /// Cost of `read_era_id`.
    pub read_era_id: u32,
    /// Cost of `activate_bid`.
    pub activate_bid: u32,
    /// Cost of `redelegate`.
    pub redelegate: u32,
}

impl Default for AuctionCosts {
    fn default() -> (costs: AuctionCosts)
        ensures
            costs == AuctionCosts::spec_default(),
    {
        AuctionCosts {
            get_era_validators: DEFAULT_GET_ERA_VALIDATORS_COST,
            read_seigniorage_recipients: DEFAULT_READ_SEIGNIORAGE_RECIPIENTS_COST,
            add_bid: DEFAULT_ADD_BID_COST,
            withdraw_bid: DEFAULT_WITHDRAW_BID_COST,
            delegate: DEFAULT_DELEGATE_COST,
            undelegate: DEFAULT_UNDELEGATE_COST,
            run_auction: DEFAULT_RUN_AUCTION_COST,
            slash: DEFAULT_SLASH_COST,
            distribute: DEFAULT_DISTRIBUTE_COST,
            withdraw_delegator_reward: DEFAULT_WITHDRAW_DELEGATOR_REWARD_COST,
            withdraw_validator_reward: DEFAULT_WITHDRAW_VALIDATOR_REWARD_COST,
            read_era_id: DEFAULT_READ_ERA_ID_COST,
            activate_bid: DEFAULT_ACTIVATE_BID_COST,
            redelegate: DEFAULT_REDELEGATE_COST,
        }
    }
}

impl AuctionCosts {
    /// The table of default costs.
    pub open spec fn spec_default() -> AuctionCosts {
        AuctionCosts {
            get_era_validators: DEFAULT_GET_ERA_VALIDATORS_COST,
            read_seigniorage_recipients: DEFAULT_READ_SEIGNIORAGE_RECIPIENTS_COST,
            add_bid: DEFAULT_ADD_BID_COST,
            withdraw_bid: DEFAULT_WITHDRAW_BID_COST,
            delegate: DEFAULT_DELEGATE_COST,
            undelegate: DEFAULT_UNDELEGATE_COST,
            run_auction: DEFAULT_RUN_AUCTION_COST,
            slash: DEFAULT_SLASH_COST,
            distribute: DEFAULT_DISTRIBUTE_COST,
            withdraw_delegator_reward: DEFAULT_WITHDRAW_DELEGATOR_REWARD_COST,
            withdraw_validator_reward: DEFAULT_WITHDRAW_VALIDATOR_REWARD_COST,
            read_era_id: DEFAULT_READ_ERA_ID_COST,
            activate_bid: DEFAULT_ACTIVATE_BID_COST,
            redelegate: DEFAULT_REDELEGATE_COST,
        }
    }

    /// The table's byte representation: its costs in order, each little-endian.
    pub open spec fn spec_bytes(&self) -> Seq<u8> {
        spec_u32_to_le_bytes(self.get_era_validators)
            + spec_u32_to_le_bytes(self.read_seigniorage_recipients)
            + spec_u32_to_le_bytes(self.add_bid)
            + spec_u32_to_le_bytes(self.withdraw_bid)
            + spec_u32_to_le_bytes(self.delegate)
            + spec_u32_to_le_bytes(self.undelegate)
            + spec_u32_to_le_bytes(self.run_auction)
            + spec_u32_to_le_bytes(self.slash)
            + spec_u32_to_le_bytes(self.distribute)
            + spec_u32_to_le_bytes(self.withdraw_delegator_reward)
            + spec_u32_to_le_bytes(self.withdraw_validator_reward)
            + spec_u32_to_le_bytes(self.read_era_id)
            + spec_u32_to_le_bytes(self.activate_bid)
            + spec_u32_to_le_bytes(self.redelegate)
    }

    /// The table at the front of `bytes` and what follows it, where there is one.
    pub open spec fn spec_parse(bytes: Seq<u8>) -> Option<(AuctionCosts, Seq<u8>)> {
        match spec_read_u32(bytes) {
            None => None,
            Some((get_era_validators, rest0)) => 
        match spec_read_u32(rest0) {
            None => None,
            Some((read_seigniorage_recipients, rest1)) => 
        match spec_read_u32(rest1) {
            None => None,
            Some((add_bid, rest2)) => 
        match spec_read_u32(rest2) {
            None => None,
            Some((withdraw_bid, rest3)) => 
        match spec_read_u32(rest3) {
            None => None,
            Some((delegate, rest4)) => 
        match spec_read_u32(rest4) {
            None => None,
            Some((undelegate, rest5)) => 
        match spec_read_u32(rest5) {
            None => None,
            Some((run_auction, rest6)) => 
        match spec_read_u32(rest6) {
            None => None,
            Some((slash, rest7)) => 
        match spec_read_u32(rest7) {
            None => None,
            Some((distribute, rest8)) => 
        match spec_read_u32(rest8) {
            None => None,
            Some((withdraw_delegator_reward, rest9)) => 
        match spec_read_u32(rest9) {
            None => None,
            Some((withdraw_validator_reward, rest10)) => 
        match spec_read_u32(rest10) {
            None => None,
            Some((read_era_id, rest11)) => 
        match spec_read_u32(rest11) {
            None => None,
            Some((activate_bid, rest12)) => 
        match spec_read_u32(rest12) {
            None => None,
            Some((redelegate, rest13)) => 
            Some((AuctionCosts { get_era_validators, read_seigniorage_recipients, add_bid, withdraw_bid, delegate, undelegate, run_auction, slash, distribute, withdraw_delegator_reward, withdraw_validator_reward, read_era_id, activate_bid, redelegate }, rest13)),
        },
        },
        },
        },
        },
        },
        },
        },
        },
        },
        },
        },
        },
        }
    }

    /// The number of bytes in the table's byte representation.
    pub fn serialized_length(&self) -> (len: usize)
        ensures
            len == self.spec_bytes().len(),
            len == 56,
    {
        proof {
            lemma_auto_spec_u32_to_from_le_bytes();
            lemma_auto_spec_u64_to_from_le_bytes();
        }
        56
    }

    /// Appends the table's byte representation to `out`.
    pub fn write_bytes(&self, out: &mut Vec<u8>)
        ensures
            final(out)@ == old(out)@ + self.spec_bytes(),
    {
        write_u32(out, self.get_era_validators);
        write_u32(out, self.read_seigniorage_recipients);
        write_u32(out, self.add_bid);
        write_u32(out, self.withdraw_bid);
        write_u32(out, self.delegate);
        write_u32(out, self.undelegate);
        write_u32(out, self.run_auction);
        write_u32(out, self.slash);
        write_u32(out, self.distribute);
        write_u32(out, self.withdraw_delegator_reward);
        write_u32(out, self.withdraw_validator_reward);
        write_u32(out, self.read_era_id);
        write_u32(out, self.activate_bid);
        write_u32(out, self.redelegate);
        assert(out@ =~= old(out)@ + self.spec_bytes());
    }

    /// The table's byte representation.
    pub fn to_bytes(&self) -> (r: Result<Vec<u8>, Error>)
        ensures
            r is Ok,
            r->Ok_0@ == self.spec_bytes(),
    {
        let mut out: Vec<u8> = Vec::new();
        self.write_bytes(&mut out);
        assert(out@ =~= self.spec_bytes());
        Ok(out)
    }

    /// Reads a table off the front of `bytes`; fails where they end too early.
    pub fn from_bytes(bytes: &[u8]) -> (r: Result<(AuctionCosts, &[u8]), Error>)
        ensures
            match r {
                Ok((costs, rest)) => AuctionCosts::spec_parse(bytes@) == Some((costs, rest@)),
                Err(e) => e == Error::EarlyEndOfStream && AuctionCosts::spec_parse(bytes@) is None,
            },
    {
        let (get_era_validators, rest0) = match read_u32(bytes) {
            Ok(read) => read,
            Err(e) => return Err(e),
        };
        let (read_seigniorage_recipients, rest1) = match read_u32(rest0) {
            Ok(read) => read,
            Err(e) => return Err(e),
        };
        let (add_bid, rest2) = match read_u32(rest1) {
            Ok(read) => read,
            Err(e) => return Err(e),
        };
        let (withdraw_bid, rest3) = match read_u32(rest2) {
            Ok(read) => read,
            Err(e) => return Err(e),
        };
        let (delegate, rest4) = match read_u32(rest3) {
            Ok(read) => read,
            Err(e) => return Err(e),
        };
        let (undelegate, rest5) = match read_u32(rest4) {
            Ok(read) => read,
            Err(e) => return Err(e),
        };
        let (run_auction, rest6) = match read_u32(rest5) {
            Ok(read) => read,
            Err(e) => return Err(e),
        };
        let (slash, rest7) = match read_u32(rest6) {
            Ok(read) => read,
            Err(e) => return Err(e),
        };
        let (distribute, rest8) = match read_u32(rest7) {
            Ok(read) => read,
            Err(e) => return Err(e),
        };
        let (withdraw_delegator_reward, rest9) = match read_u32(rest8) {
            Ok(read) => read,
            Err(e) => return Err(e),
        };
        let (withdraw_validator_reward, rest10) = match read_u32(rest9) {
            Ok(read) => read,
            Err(e) => return Err(e),
        };
        let (read_era_id, rest11) = match read_u32(rest10) {
            Ok(read) => read,
            Err(e) => return Err(e),
        };
        let (activate_bid, rest12) = match read_u32(rest11) {
            Ok(read) => read,
            Err(e) => return Err(e),
        };
        let (redelegate, rest13) = match read_u32(rest12) {
            Ok(read) => read,
            Err(e) => return Err(e),
        };
        Ok((AuctionCosts { get_era_validators, read_seigniorage_recipients, add_bid, withdraw_bid, delegate, undelegate, run_auction, slash, distribute, withdraw_delegator_reward, withdraw_validator_reward, read_era_id, activate_bid, redelegate }, rest13))
    }

    /// A table of costs drawn from `rng`, one number for each entry: any table may come out.
    pub fn sample(rng: &mut rand::rngs::StdRng) -> (costs: AuctionCosts) {
        let draws: [u32; 14] = [
            random_u32(rng),
            random_u32(rng),
            random_u32(rng),
            random_u32(rng),
            random_u32(rng),
            random_u32(rng),
            random_u32(rng),
            random_u32(rng),
            random_u32(rng),
            random_u32(rng),
            random_u32(rng),
            random_u32(rng),
            random_u32(rng),
            random_u32(rng),
        ];
        AuctionCosts::from_draws(draws)
    }

    /// The table whose costs are the numbers `draws`, in the order of the table's entries.
    pub fn from_draws(draws: [u32; 14]) -> (costs: AuctionCosts)
        ensures
            costs == (AuctionCosts {
                get_era_validators: draws@[0],
                read_seigniorage_recipients: draws@[1],
                add_bid: draws@[2],
                withdraw_bid: draws@[3],
                delegate: draws@[4],
                undelegate: draws@[5],
                run_auction: draws@[6],
                slash: draws@[7],
                distribute: draws@[8],
                withdraw_delegator_reward: draws@[9],
                withdraw_validator_reward: draws@[10],
                read_era_id: draws@[11],
                activate_bid: draws@[12],
                redelegate: draws@[13],
            }),
    {
        AuctionCosts {
            get_era_validators: draws[0],
            read_seigniorage_recipients: draws[1],
            add_bid: draws[2],
            withdraw_bid: draws[3],
            delegate: draws[4],
            undelegate: draws[5],
            run_auction: draws[6],
            slash: draws[7],
            distribute: draws[8],
            withdraw_delegator_reward: draws[9],
            withdraw_validator_reward: draws[10],
            read_era_id: draws[11],
            activate_bid: draws[12],
            redelegate: draws[13],
        }
    }

    /// A table written and read again is the same table, and what followed it is left over.
    pub proof fn lemma_parse_of_bytes(self, rest: Seq<u8>)
        ensures
            AuctionCosts::spec_parse(self.spec_bytes() + rest) == Some((self, rest)),
    {
        let tail14 = rest;
        let tail13 = spec_u32_to_le_bytes(self.redelegate) + tail14;
        let tail12 = spec_u32_to_le_bytes(self.activate_bid) + tail13;
        let tail11 = spec_u32_to_le_bytes(self.read_era_id) + tail12;
        let tail10 = spec_u32_to_le_bytes(self.withdraw_validator_reward) + tail11;
        let tail9 = spec_u32_to_le_bytes(self.withdraw_delegator_reward) + tail10;
        let tail8 = spec_u32_to_le_bytes(self.distribute) + tail9;
        let tail7 = spec_u32_to_le_bytes(self.slash) + tail8;
        let tail6 = spec_u32_to_le_bytes(self.run_auction) + tail7;
        let tail5 = spec_u32_to_le_bytes(self.undelegate) + tail6;
        let tail4 = spec_u32_to_le_bytes(self.delegate) + tail5;
        let tail3 = spec_u32_to_le_bytes(self.withdraw_bid) + tail4;
        let tail2 = spec_u32_to_le_bytes(self.add_bid) + tail3;
        let tail1 = spec_u32_to_le_bytes(self.read_seigniorage_recipients) + tail2;
        let tail0 = spec_u32_to_le_bytes(self.get_era_validators) + tail1;
        lemma_read_written_u32(self.get_era_validators, tail1);
        lemma_read_written_u32(self.read_seigniorage_recipients, tail2);
        lemma_read_written_u32(self.add_bid, tail3);
        lemma_read_written_u32(self.withdraw_bid, tail4);
        lemma_read_written_u32(self.delegate, tail5);
        lemma_read_written_u32(self.undelegate, tail6);
        lemma_read_written_u32(self.run_auction, tail7);
        lemma_read_written_u32(self.slash, tail8);
        lemma_read_written_u32(self.distribute, tail9);
        lemma_read_written_u32(self.withdraw_delegator_reward, tail10);
        lemma_read_written_u32(self.withdraw_validator_reward, tail11);
        lemma_read_written_u32(self.read_era_id, tail12);
        lemma_read_written_u32(self.activate_bid, tail13);
        lemma_read_written_u32(self.redelegate, tail14);
        let head1 = spec_u32_to_le_bytes(self.get_era_validators);
        let head2 = head1 + spec_u32_to_le_bytes(self.read_seigniorage_recipients);
        let head3 = head2 + spec_u32_to_le_bytes(self.add_bid);
        let head4 = head3 + spec_u32_to_le_bytes(self.withdraw_bid);
        let head5 = head4 + spec_u32_to_le_bytes(self.delegate);
        let head6 = head5 + spec_u32_to_le_bytes(self.undelegate);
        let head7 = head6 + spec_u32_to_le_bytes(self.run_auction);
        let head8 = head7 + spec_u32_to_le_bytes(self.slash);
        let head9 = head8 + spec_u32_to_le_bytes(self.distribute);
        let head10 = head9 + spec_u32_to_le_bytes(self.withdraw_delegator_reward);
        let head11 = head10 + spec_u32_to_le_bytes(self.withdraw_validator_reward);
        let head12 = head11 + spec_u32_to_le_bytes(self.read_era_id);
        let head13 = head12 + spec_u32_to_le_bytes(self.activate_bid);
        let head14 = head13 + spec_u32_to_le_bytes(self.redelegate);
        assert(head14 + tail14 =~= head13 + tail13);
        assert(head13 + tail13 =~= head12 + tail12);
        assert(head12 + tail12 =~= head11 + tail11);
        assert(head11 + tail11 =~= head10 + tail10);
        assert(head10 + tail10 =~= head9 + tail9);
        assert(head9 + tail9 =~= head8 + tail8);
        assert(head8 + tail8 =~= head7 + tail7);
        assert(head7 + tail7 =~= head6 + tail6);
        assert(head6 + tail6 =~= head5 + tail5);
        assert(head5 + tail5 =~= head4 + tail4);
        assert(head4 + tail4 =~= head3 + tail3);
        assert(head3 + tail3 =~= head2 + tail2);
        assert(head2 + tail2 =~= head1 + tail1);
    }
}

} // verus!
