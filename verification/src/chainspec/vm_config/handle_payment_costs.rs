//! Costs of the system contract that handles payment.

use crate::bytesrepr::{
    lemma_read_written_u32, read_u32, spec_read_u32, write_u32, Error,
};
use crate::random::random_u32;
use vstd::bytes::{
    lemma_auto_spec_u32_to_from_le_bytes, lemma_auto_spec_u64_to_from_le_bytes,
    spec_u32_to_le_bytes,
};
use vstd::prelude::*;

verus! {

/// Default cost of the `get_payment_purse` entry point.
pub const DEFAULT_GET_PAYMENT_PURSE_COST: u32 = 10_000;

/// Default cost of the `set_refund_purse` entry point.
pub const DEFAULT_SET_REFUND_PURSE_COST: u32 = 10_000;

/// Default cost of the `get_refund_purse` entry point.
pub const DEFAULT_GET_REFUND_PURSE_COST: u32 = 10_000;

/// Default cost of the `finalize_payment` entry point.
pub const DEFAULT_FINALIZE_PAYMENT_COST: u32 = 10_000;

/// Costs of the entry points that handle payment, in gas.
#[derive(Clone, Copy, Debug, PartialEq, Eq, Structural)]
pub struct HandlePaymentCosts {
    /// Cost of `get_payment_purse`.
    pub get_payment_purse: u32,
    /// Cost of `set_refund_purse`.
    pub set_refund_purse: u32,
    /// Cost of `get_refund_purse`.
    pub get_refund_purse: u32,
    /// Cost of `finalize_payment`.
    pub finalize_payment: u32,
}

impl Default for HandlePaymentCosts {
    fn default() -> (costs: HandlePaymentCosts)
        ensures
            costs == HandlePaymentCosts::spec_default(),
    {
        HandlePaymentCosts {
            get_payment_purse: DEFAULT_GET_PAYMENT_PURSE_COST,
            set_refund_purse: DEFAULT_SET_REFUND_PURSE_COST,
            get_refund_purse: DEFAULT_GET_REFUND_PURSE_COST,
            finalize_payment: DEFAULT_FINALIZE_PAYMENT_COST,
        }
    }
}

impl HandlePaymentCosts {
    /// The table of default costs.
    pub open spec fn spec_default() -> HandlePaymentCosts {
        HandlePaymentCosts {
            get_payment_purse: DEFAULT_GET_PAYMENT_PURSE_COST,
            set_refund_purse: DEFAULT_SET_REFUND_PURSE_COST,
            get_refund_purse: DEFAULT_GET_REFUND_PURSE_COST,
            finalize_payment: DEFAULT_FINALIZE_PAYMENT_COST,
        }
    }

    /// The table's byte representation: its costs in order, each little-endian.
    pub open spec fn spec_bytes(&self) -> Seq<u8> {
        spec_u32_to_le_bytes(self.get_payment_purse)
            + spec_u32_to_le_bytes(self.set_refund_purse)
            + spec_u32_to_le_bytes(self.get_refund_purse)
            + spec_u32_to_le_bytes(self.finalize_payment)
    }

    /// The table at the front of `bytes` and what follows it, where there is one.
    pub open spec fn spec_parse(bytes: Seq<u8>) -> Option<(HandlePaymentCosts, Seq<u8>)> {
        match spec_read_u32(bytes) {
            None => None,
            Some((get_payment_purse, rest0)) => 
        match spec_read_u32(rest0) {
            None => None,
            Some((set_refund_purse, rest1)) => 
        match spec_read_u32(rest1) {
            None => None,
            Some((get_refund_purse, rest2)) => 
        match spec_read_u32(rest2) {
            None => None,
            Some((finalize_payment, rest3)) => 
            Some((HandlePaymentCosts { get_payment_purse, set_refund_purse, get_refund_purse, finalize_payment }, rest3)),
        },
        },
        },
        }
    }

    /// The number of bytes in the table's byte representation.
    pub fn serialized_length(&self) -> (len: usize)
        ensures
            len == self.spec_bytes().len(),
            len == 16,
    {
        proof {
            lemma_auto_spec_u32_to_from_le_bytes();
            lemma_auto_spec_u64_to_from_le_bytes();
        }
        16
    }

    /// Appends the table's byte representation to `out`.
    pub fn write_bytes(&self, out: &mut Vec<u8>)
        ensures
            final(out)@ == old(out)@ + self.spec_bytes(),
    {
        write_u32(out, self.get_payment_purse);
        write_u32(out, self.set_refund_purse);
        write_u32(out, self.get_refund_purse);
        write_u32(out, self.finalize_payment);
        assert(out@ =~= old(out)@ + self.spec_bytes());
    }

    /// The table's byte representation.
    pub fn to_bytes(&self) -> (r: Result<Vec<u8>, Error>)
        ensures
            r is Ok,
            r->Ok_0@ == self.spec_bytes(),
    {
        let mut out: Vec<u8> = Vec::new();
        self.write_bytes(&mut out);
        assert(out@ =~= self.spec_bytes());
        Ok(out)
    }

    /// Reads a table off the front of `bytes`; fails where they end too early.
    pub fn from_bytes(bytes: &[u8]) -> (r: Result<(HandlePaymentCosts, &[u8]), Error>)
        ensures
            match r {
                Ok((costs, rest)) => HandlePaymentCosts::spec_parse(bytes@) == Some((costs, rest@)),
                Err(e) => e == Error::EarlyEndOfStream && HandlePaymentCosts::spec_parse(bytes@) is None,
            },
    {
        let (get_payment_purse, rest0) = match read_u32(bytes) {
            Ok(read) => read,
            Err(e) => return Err(e),
        };
        let (set_refund_purse, rest1) = match read_u32(rest0) {
            Ok(read) => read,
            Err(e) => return Err(e),
        };
        let (get_refund_purse, rest2) = match read_u32(rest1) {
            Ok(read) => read,
            Err(e) => return Err(e),
        };
        let (finalize_payment, rest3) = match read_u32(rest2) {
            Ok(read) => read,
            Err(e) => return Err(e),
        };
        Ok((HandlePaymentCosts { get_payment_purse, set_refund_purse, get_refund_purse, finalize_payment }, rest3))
    }

    /// A table of costs drawn from `rng`, one number for each entry: any table may come out.
    pub fn sample(rng: &mut rand::rngs::StdRng) -> (costs: HandlePaymentCosts) {
        let draws: [u32; 4] = [
            random_u32(rng),
            random_u32(rng),
            random_u32(rng),
            random_u32(rng),
        ];
        HandlePaymentCosts::from_draws(draws)
    }

    /// The table whose costs are the numbers `draws`, in the order of the table's entries.
    pub fn from_draws(draws: [u32; 4]) -> (costs: HandlePaymentCosts)
        ensures
            costs == (HandlePaymentCosts {
                get_payment_purse: draws@[0],
                set_refund_purse: draws@[1],
                get_refund_purse: draws@[2],
                finalize_payment: draws@[3],
            }),
    {
        HandlePaymentCosts {
            get_payment_purse: draws[0],
            set_refund_purse: draws[1],
            get_refund_purse: draws[2],
            finalize_payment: draws[3],
        }
    }

    /// A table written and read again is the same table, and what followed it is left over.
    pub proof fn lemma_parse_of_bytes(self, rest: Seq<u8>)
        ensures
            HandlePaymentCosts::spec_parse(self.spec_bytes() + rest) == Some((self, rest)),
    {
        let tail4 = rest;
        let tail3 = spec_u32_to_le_bytes(self.finalize_payment) + tail4;
        let tail2 = spec_u32_to_le_bytes(self.get_refund_purse) + tail3;
        let tail1 = spec_u32_to_le_bytes(self.set_refund_purse) + tail2;
        let tail0 = spec_u32_to_le_bytes(self.get_payment_purse) + tail1;
        lemma_read_written_u32(self.get_payment_purse, tail1);
        lemma_read_written_u32(self.set_refund_purse, tail2);
        lemma_read_written_u32(self.get_refund_purse, tail3);
        lemma_read_written_u32(self.finalize_payment, tail4);
        let head1 = spec_u32_to_le_bytes(self.get_payment_purse);
        let head2 = head1 + spec_u32_to_le_bytes(self.set_refund_purse);
        let head3 = head2 + spec_u32_to_le_bytes(self.get_refund_purse);
        let head4 = head3 + spec_u32_to_le_bytes(self.finalize_payment);
        assert(head4 + tail4 =~= head3 + tail3);
        assert(head3 + tail3 =~= head2 + tail2);
        assert(head2 + tail2 =~= head1 + tail1);
    }
}

} // verus!
