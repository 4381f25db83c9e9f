//! Costs of standard payment.

use crate::bytesrepr::{
    lemma_read_written_u32, read_u32, spec_read_u32, write_u32, Error,
};
use crate::random::random_u32;
use vstd::bytes::{
    lemma_auto_spec_u32_to_from_le_bytes, lemma_auto_spec_u64_to_from_le_bytes,
    spec_u32_to_le_bytes,
};
use vstd::prelude::*;

verus! {

/// Default cost of the `pay` entry point.
pub const DEFAULT_PAY_COST: u32 = 10_000;

/// Costs of the standard payment's entry points, in gas.
#[derive(Clone, Copy, Debug, PartialEq, Eq, Structural)]
pub struct StandardPaymentCosts {
    /// Cost of `pay`.
    pub pay: u32,
}

impl Default for StandardPaymentCosts {
    fn default() -> (costs: StandardPaymentCosts)
        ensures
            costs == StandardPaymentCosts::spec_default(),
    {
        StandardPaymentCosts {
            pay: DEFAULT_PAY_COST,
        }
    }
}

impl StandardPaymentCosts {
    /// The table of default costs.
    pub open spec fn spec_default() -> StandardPaymentCosts {
        StandardPaymentCosts {
            pay: DEFAULT_PAY_COST,
        }
    }

    /// The table's byte representation: its costs in order, each little-endian.
    pub open spec fn spec_bytes(&self) -> Seq<u8> {
        spec_u32_to_le_bytes(self.pay)
    }

    /// The table at the front of `bytes` and what follows it, where there is one.
    pub open spec fn spec_parse(bytes: Seq<u8>) -> Option<(StandardPaymentCosts, Seq<u8>)> {
        match spec_read_u32(bytes) {
            None => None,
            Some((pay, rest0)) => 
            Some((StandardPaymentCosts { pay }, rest0)),
        }
    }

    /// The number of bytes in the table's byte representation.
    pub fn serialized_length(&self) -> (len: usize)
        ensures
            len == self.spec_bytes().len(),
            len == 4,
    {
        proof {
            lemma_auto_spec_u32_to_from_le_bytes();
            lemma_auto_spec_u64_to_from_le_bytes();
        }
        4
    }

    /// Appends the table's byte representation to `out`.
    pub fn write_bytes(&self, out: &mut Vec<u8>)
        ensures
            final(out)@ == old(out)@ + self.spec_bytes(),
    {
        write_u32(out, self.pay);
        assert(out@ =~= old(out)@ + self.spec_bytes());
    }

    /// The table's byte representation.
    pub fn to_bytes(&self) -> (r: Result<Vec<u8>, Error>)
        ensures
            r is Ok,
            r->Ok_0@ == self.spec_bytes(),
    {
        let mut out: Vec<u8> = Vec::new();
        self.write_bytes(&mut out);
        assert(out@ =~= self.spec_bytes());
        Ok(out)
    }

    /// Reads a table off the front of `bytes`; fails where they end too early.
    pub fn from_bytes(bytes: &[u8]) -> (r: Result<(StandardPaymentCosts, &[u8]), Error>)
        ensures
            match r {
                Ok((costs, rest)) => StandardPaymentCosts::spec_parse(bytes@) == Some((costs, rest@)),
                Err(e) => e == Error::EarlyEndOfStream && StandardPaymentCosts::spec_parse(bytes@) is None,
            },
    {
        let (pay, rest0) = match read_u32(bytes) {
            Ok(read) => read,
            Err(e) => return Err(e),
        };
        Ok((StandardPaymentCosts { pay }, rest0))
    }

    /// A table of costs drawn from `rng`, one number for each entry: any table may come out.
    pub fn sample(rng: &mut rand::rngs::StdRng) -> (costs: StandardPaymentCosts) {
        let draws: [u32; 1] = [
            random_u32(rng),
        ];
        StandardPaymentCosts::from_draws(draws)
    }

    /// The table whose costs are the numbers `draws`, in the order of the table's entries.
    pub fn from_draws(draws: [u32; 1]) -> (costs: StandardPaymentCosts)
        ensures
            costs == (StandardPaymentCosts {
                pay: draws@[0],
            }),
    {
        StandardPaymentCosts {
            pay: draws[0],
        }
    }

    /// A table written and read again is the same table, and what followed it is left over.
    pub proof fn lemma_parse_of_bytes(self, rest: Seq<u8>)
        ensures
            StandardPaymentCosts::spec_parse(self.spec_bytes() + rest) == Some((self, rest)),
    {
        let tail1 = rest;
        let tail0 = spec_u32_to_le_bytes(self.pay) + tail1;
        lemma_read_written_u32(self.pay, tail1);
        let head1 = spec_u32_to_le_bytes(self.pay);
    }
}

} // verus!
