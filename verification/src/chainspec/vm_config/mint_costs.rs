//! Costs of the mint system contract.

use crate::bytesrepr::{
    lemma_read_written_u32, read_u32, spec_read_u32, write_u32, Error,
};
use crate::random::random_u32;
use vstd::bytes::{
    lemma_auto_spec_u32_to_from_le_bytes, lemma_auto_spec_u64_to_from_le_bytes,
    spec_u32_to_le_bytes,
};
use vstd::prelude::*;

verus! {

/// Default cost of the `mint` entry point.
pub const DEFAULT_MINT_COST: u32 = 2_500_000_000;

/// Default cost of the `reduce_total_supply` entry point.
pub const DEFAULT_REDUCE_TOTAL_SUPPLY_COST: u32 = 10_000;

/// Default cost of the `create` entry point.
pub const DEFAULT_CREATE_COST: u32 = 2_500_000_000;

/// Default cost of the `balance` entry point.
pub const DEFAULT_BALANCE_COST: u32 = 10_000;

/// Default cost of the `transfer` entry point.
pub const DEFAULT_TRANSFER_COST: u32 = 10_000;

/// Default cost of the `read_base_round_reward` entry point.
pub const DEFAULT_READ_BASE_ROUND_REWARD_COST: u32 = 10_000;

/// Default cost of the `mint_into_existing_purse` entry point.
pub const DEFAULT_MINT_INTO_EXISTING_PURSE_COST: u32 = 2_500_000_000;

/// Costs of the mint's entry points, in gas.
#[derive(Clone, Copy, Debug, PartialEq, Eq, Structural)]
pub struct MintCosts {
    /// Cost of `mint`.
    pub mint: u32,
    /// Cost of `reduce_total_supply`.
    pub reduce_total_supply: u32,
    /// Cost of `create`.
    pub create: u32,
    /// Cost of `balance`.
    pub balance: u32,
    /// Cost of `transfer`.
    pub transfer: u32,
    /// Cost of `read_base_round_reward`.
    pub read_base_round_reward: u32,
    /// Cost of `mint_into_existing_purse`.
    pub mint_into_existing_purse: u32,
}

impl Default for MintCosts {
    fn default() -> (costs: MintCosts)
        ensures
            costs == MintCosts::spec_default(),
    {
        MintCosts {
            mint: DEFAULT_MINT_COST,
            reduce_total_supply: DEFAULT_REDUCE_TOTAL_SUPPLY_COST,
            create: DEFAULT_CREATE_COST,
            balance: DEFAULT_BALANCE_COST,
            transfer: DEFAULT_TRANSFER_COST,
            read_base_round_reward: DEFAULT_READ_BASE_ROUND_REWARD_COST,
            mint_into_existing_purse: DEFAULT_MINT_INTO_EXISTING_PURSE_COST,
        }
    }
}

impl MintCosts {
    /// The table of default costs.
    pub open spec fn spec_default() -> MintCosts {
        MintCosts {
            mint: DEFAULT_MINT_COST,
            reduce_total_supply: DEFAULT_REDUCE_TOTAL_SUPPLY_COST,
            create: DEFAULT_CREATE_COST,
            balance: DEFAULT_BALANCE_COST,
            transfer: DEFAULT_TRANSFER_COST,
            read_base_round_reward: DEFAULT_READ_BASE_ROUND_REWARD_COST,
            mint_into_existing_purse: DEFAULT_MINT_INTO_EXISTING_PURSE_COST,
        }
    }

    /// The table's byte representation: its costs in order, each little-endian.
    pub open spec fn spec_bytes(&self) -> Seq<u8> {
        spec_u32_to_le_bytes(self.mint)
            + spec_u32_to_le_bytes(self.reduce_total_supply)
            + spec_u32_to_le_bytes(self.create)
            + spec_u32_to_le_bytes(self.balance)
            + spec_u32_to_le_bytes(self.transfer)
            + spec_u32_to_le_bytes(self.read_base_round_reward)
            + spec_u32_to_le_bytes(self.mint_into_existing_purse)
    }

    /// The table at the front of `bytes` and what follows it, where there is one.
    pub open spec fn spec_parse(bytes: Seq<u8>) -> Option<(MintCosts, Seq<u8>)> {
        match spec_read_u32(bytes) {
            None => None,
            Some((mint, rest0)) => 
        match spec_read_u32(rest0) {
            None => None,
            Some((reduce_total_supply, rest1)) => 
        match spec_read_u32(rest1) {
            None => None,
            Some((create, rest2)) => 
        match spec_read_u32(rest2) {
            None => None,
            Some((balance, rest3)) => 
        match spec_read_u32(rest3) {
            None => None,
            Some((transfer, rest4)) => 
        match spec_read_u32(rest4) {
            None => None,
            Some((read_base_round_reward, rest5)) => 
        match spec_read_u32(rest5) {
            None => None,
            Some((mint_into_existing_purse, rest6)) => 
            Some((MintCosts { mint, reduce_total_supply, create, balance, transfer, read_base_round_reward, mint_into_existing_purse }, rest6)),
        },
        },
        },
        },
        },
        },
        }
    }

    /// The number of bytes in the table's byte representation.
    pub fn serialized_length(&self) -> (len: usize)
        ensures
            len == self.spec_bytes().len(),
            len == 28,
    {
        proof {
            lemma_auto_spec_u32_to_from_le_bytes();
            lemma_auto_spec_u64_to_from_le_bytes();
        }
        28
    }

    /// Appends the table's byte representation to `out`.
    pub fn write_bytes(&self, out: &mut Vec<u8>)
        ensures
            final(out)@ == old(out)@ + self.spec_bytes(),
    {
        write_u32(out, self.mint);
        write_u32(out, self.reduce_total_supply);
        write_u32(out, self.create);
        write_u32(out, self.balance);
        write_u32(out, self.transfer);
        write_u32(out, self.read_base_round_reward);
        write_u32(out, self.mint_into_existing_purse);
        assert(out@ =~= old(out)@ + self.spec_bytes());
    }

    /// The table's byte representation.
    pub fn to_bytes(&self) -> (r: Result<Vec<u8>, Error>)
        ensures
            r is Ok,
            r->Ok_0@ == self.spec_bytes(),
    {
        let mut out: Vec<u8> = Vec::new();
        self.write_bytes(&mut out);
        assert(out@ =~= self.spec_bytes());
        Ok(out)
    }

    /// Reads a table off the front of `bytes`; fails where they end too early.
    pub fn from_bytes(bytes: &[u8]) -> (r: Result<(MintCosts, &[u8]), Error>)
        ensures
            match r {
                Ok((costs, rest)) => MintCosts::spec_parse(bytes@) == Some((costs, rest@)),
                Err(e) => e == Error::EarlyEndOfStream && MintCosts::spec_parse(bytes@) is None,
            },
    {
        let (mint, rest0) = match read_u32(bytes) {
            Ok(read) => read,
            Err(e) => return Err(e),
        };
        let (reduce_total_supply, rest1) = match read_u32(rest0) {
            Ok(read) => read,
            Err(e) => return Err(e),
        };
        let (create, rest2) = match read_u32(rest1) {
            Ok(read) => read,
            Err(e) => return Err(e),
        };
        let (balance, rest3) = match read_u32(rest2) {
            Ok(read) => read,
            Err(e) => return Err(e),
        };
        let (transfer, rest4) = match read_u32(rest3) {
            Ok(read) => read,
            Err(e) => return Err(e),
        };
        let (read_base_round_reward, rest5) = match read_u32(rest4) {
            Ok(read) => read,
            Err(e) => return Err(e),
        };
        let (mint_into_existing_purse, rest6) = match read_u32(rest5) {
            Ok(read) => read,
            Err(e) => return Err(e),
        };
        Ok((MintCosts { mint, reduce_total_supply, create, balance, transfer, read_base_round_reward, mint_into_existing_purse }, rest6))
    }

    /// A table of costs drawn from `rng`, one number for each entry: any table may come out.
    pub fn sample(rng: &mut rand::rngs::StdRng) -> (costs: MintCosts) {
        let draws: [u32; 7] = [
            random_u32(rng),
            random_u32(rng),
            random_u32(rng),
            random_u32(rng),
            random_u32(rng),
            random_u32(rng),
            random_u32(rng),
        ];
        MintCosts::from_draws(draws)
    }

    /// The table whose costs are the numbers `draws`, in the order of the table's entries.
    pub fn from_draws(draws: [u32; 7]) -> (costs: MintCosts)
        ensures
            costs == (MintCosts {
                mint: draws@[0],
                reduce_total_supply: draws@[1],
                create: draws@[2],
                balance: draws@[3],
                transfer: draws@[4],
                read_base_round_reward: draws@[5],
                mint_into_existing_purse: draws@[6],
            }),
    {
        MintCosts {
            mint: draws[0],
            reduce_total_supply: draws[1],
            create: draws[2],
            balance: draws[3],
            transfer: draws[4],
            read_base_round_reward: draws[5],
            mint_into_existing_purse: draws[6],
        }
    }

    /// A table written and read again is the same table, and what followed it is left over.
    pub proof fn lemma_parse_of_bytes(self, rest: Seq<u8>)
        ensures
            MintCosts::spec_parse(self.spec_bytes() + rest) == Some((self, rest)),
    {
        let tail7 = rest;
        let tail6 = spec_u32_to_le_bytes(self.mint_into_existing_purse) + tail7;
        let tail5 = spec_u32_to_le_bytes(self.read_base_round_reward) + tail6;
        let tail4 = spec_u32_to_le_bytes(self.transfer) + tail5;
        let tail3 = spec_u32_to_le_bytes(self.balance) + tail4;
        let tail2 = spec_u32_to_le_bytes(self.create) + tail3;
        let tail1 = spec_u32_to_le_bytes(self.reduce_total_supply) + tail2;
        let tail0 = spec_u32_to_le_bytes(self.mint) + tail1;
        lemma_read_written_u32(self.mint, tail1);
        lemma_read_written_u32(self.reduce_total_supply, tail2);
        lemma_read_written_u32(self.create, tail3);
        lemma_read_written_u32(self.balance, tail4);
        lemma_read_written_u32(self.transfer, tail5);
        lemma_read_written_u32(self.read_base_round_reward, tail6);
        lemma_read_written_u32(self.mint_into_existing_purse, tail7);
        let head1 = spec_u32_to_le_bytes(self.mint);
        let head2 = head1 + spec_u32_to_le_bytes(self.reduce_total_supply);
        let head3 = head2 + spec_u32_to_le_bytes(self.create);
        let head4 = head3 + spec_u32_to_le_bytes(self.balance);
        let head5 = head4 + spec_u32_to_le_bytes(self.transfer);
        let head6 = head5 + spec_u32_to_le_bytes(self.read_base_round_reward);
        let head7 = head6 + spec_u32_to_le_bytes(self.mint_into_existing_purse);
        assert(head7 + tail7 =~= head6 + tail6);
        assert(head6 + tail6 =~= head5 + tail5);
        assert(head5 + tail5 =~= head4 + tail4);
        assert(head4 + tail4 =~= head3 + tail3);
        assert(head3 + tail3 =~= head2 + tail2);
        assert(head2 + tail2 =~= head1 + tail1);
    }
}

} // verus!
