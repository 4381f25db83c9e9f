//! Costs of the system as a whole.

use crate::bytesrepr::{
    lemma_read_written_u32, lemma_read_written_u64, read_u32, read_u64, spec_read_u32,
    spec_read_u64, write_u32, write_u64, Error,
};
use crate::chainspec::vm_config::{
    AuctionCosts, HandlePaymentCosts, MintCosts, StandardPaymentCosts,
};
use crate::random::{random_u32, random_u64};
use vstd::bytes::{spec_u32_to_le_bytes, spec_u64_to_le_bytes};
use vstd::prelude::*;

verus! {

/// Default gas cost for a wasmless transfer.
pub const DEFAULT_WASMLESS_TRANSFER_COST: u32 = 0;

/// Default gas cost for an install/upgrader.
pub const DEFAULT_INSTALL_UPGRADE_COST: u64 = 500_000_000_000;

/// Default gas cost for a standard transaction.
pub const DEFAULT_STANDARD_TRANSACTION_COST: u64 = 50_000_000_000;

/// Definition of costs in the system.
///
/// This structure contains the costs of all the system contract's entry points and, additionally,
/// it defines a wasmless transfer cost.
#[derive(Clone, Copy, Debug, PartialEq, Eq, Structural)]
pub struct SystemConfig {
    /// Wasmless transfer cost expressed in gas.
    wasmless_transfer_cost: u32,
    /// Install/Upgrader cost expressed in gas.
    install_upgrade_cost: u64,
    /// Standard transaction expressed in gas.
    standard_cost: u64,
    /// Configuration of auction entrypoint costs.
    auction_costs: AuctionCosts,
    /// Configuration of mint entrypoint costs.
    mint_costs: MintCosts,
    /// Configuration of handle payment entrypoint costs.
    handle_payment_costs: HandlePaymentCosts,
    /// Configuration of standard payment costs.
    standard_payment_costs: StandardPaymentCosts,
}

/// The plain content of a [`SystemConfig`].
pub struct SystemConfigView {
    pub wasmless_transfer_cost: u32,
    pub install_upgrade_cost: u64,
    pub standard_cost: u64,
    pub auction_costs: AuctionCosts,
    pub mint_costs: MintCosts,
    pub handle_payment_costs: HandlePaymentCosts,
    pub standard_payment_costs: StandardPaymentCosts,
}

impl View for SystemConfig {
    type V = SystemConfigView;

    closed spec fn view(&self) -> SystemConfigView {
        SystemConfigView {
            wasmless_transfer_cost: self.wasmless_transfer_cost,
            install_upgrade_cost: self.install_upgrade_cost,
            standard_cost: self.standard_cost,
            auction_costs: self.auction_costs,
            mint_costs: self.mint_costs,
            handle_payment_costs: self.handle_payment_costs,
            standard_payment_costs: self.standard_payment_costs,
        }
    }
}

impl SystemConfigView {
    /// The default costs.
    pub open spec fn default_costs() -> SystemConfigView {
        SystemConfigView {
            wasmless_transfer_cost: DEFAULT_WASMLESS_TRANSFER_COST,
            install_upgrade_cost: DEFAULT_INSTALL_UPGRADE_COST,
            standard_cost: DEFAULT_STANDARD_TRANSACTION_COST,
            auction_costs: AuctionCosts::spec_default(),
            mint_costs: MintCosts::spec_default(),
            handle_payment_costs: HandlePaymentCosts::spec_default(),
            standard_payment_costs: StandardPaymentCosts::spec_default(),
        }
    }

    /// The byte representation: the three top-level costs, then the four tables.
    pub open spec fn bytes(self) -> Seq<u8> {
        spec_u32_to_le_bytes(self.wasmless_transfer_cost)
            + spec_u64_to_le_bytes(self.install_upgrade_cost)
            + spec_u64_to_le_bytes(self.standard_cost)
            + self.auction_costs.spec_bytes()
            + self.mint_costs.spec_bytes()
            + self.handle_payment_costs.spec_bytes()
            + self.standard_payment_costs.spec_bytes()
    }

    /// The costs at the front of `bytes` and what follows them, where `bytes` hold them.
    pub open spec fn parse(bytes: Seq<u8>) -> Option<(SystemConfigView, Seq<u8>)> {
        match spec_read_u32(bytes) {
            None => None,
            Some((wasmless_transfer_cost, rest0)) => match spec_read_u64(rest0) {
                None => None,
                Some((install_upgrade_cost, rest1)) => match spec_read_u64(rest1) {
                    None => None,
                    Some((standard_cost, rest2)) => match AuctionCosts::spec_parse(rest2) {
                        None => None,
                        Some((auction_costs, rest3)) => match MintCosts::spec_parse(rest3) {
                            None => None,
                            Some((mint_costs, rest4)) => match HandlePaymentCosts::spec_parse(
                                rest4,
                            ) {
                                None => None,
                                Some((handle_payment_costs, rest5)) => match StandardPaymentCosts::spec_parse(
                                    rest5,
                                ) {
                                    None => None,
                                    Some((standard_payment_costs, rest6)) => Some(
                                        (
                                            SystemConfigView {
                                                wasmless_transfer_cost,
                                                install_upgrade_cost,
                                                standard_cost,
                                                auction_costs,
                                                mint_costs,
                                                handle_payment_costs,
                                                standard_payment_costs,
                                            },
                                            rest6,
                                        ),
                                    ),
                                },
                            },
                        },
                    },
                },
            },
        }
    }

    /// Costs written and read again are the same costs, and what followed them is left over.
    pub proof fn lemma_parse_of_bytes(self, rest: Seq<u8>)
        ensures
            SystemConfigView::parse(self.bytes() + rest) == Some((self, rest)),
    {
        let tail7 = rest;
        let tail6 = self.standard_payment_costs.spec_bytes() + tail7;
        let tail5 = self.handle_payment_costs.spec_bytes() + tail6;
        let tail4 = self.mint_costs.spec_bytes() + tail5;
        let tail3 = self.auction_costs.spec_bytes() + tail4;
        let tail2 = spec_u64_to_le_bytes(self.standard_cost) + tail3;
        let tail1 = spec_u64_to_le_bytes(self.install_upgrade_cost) + tail2;
        let tail0 = spec_u32_to_le_bytes(self.wasmless_transfer_cost) + tail1;
        lemma_read_written_u32(self.wasmless_transfer_cost, tail1);
        lemma_read_written_u64(self.install_upgrade_cost, tail2);
        lemma_read_written_u64(self.standard_cost, tail3);
        self.auction_costs.lemma_parse_of_bytes(tail4);
        self.mint_costs.lemma_parse_of_bytes(tail5);
        self.handle_payment_costs.lemma_parse_of_bytes(tail6);
        self.standard_payment_costs.lemma_parse_of_bytes(tail7);
        assert(self.bytes() + rest =~= tail0);
    }
}

impl SystemConfig {
    /// Creates new system config instance.
    pub fn new(
        wasmless_transfer_cost: u32,
        install_upgrade_cost: u64,
        standard_cost: u64,
        auction_costs: AuctionCosts,
        mint_costs: MintCosts,
        handle_payment_costs: HandlePaymentCosts,
        standard_payment_costs: StandardPaymentCosts,
    ) -> (config: SystemConfig)
        ensures
            config@ == (SystemConfigView {
                wasmless_transfer_cost,
                install_upgrade_cost,
                standard_cost,
                auction_costs,
                mint_costs,
                handle_payment_costs,
                standard_payment_costs,
            }),
    {
        SystemConfig {
            wasmless_transfer_cost,
            install_upgrade_cost,
            standard_cost,
            auction_costs,
            mint_costs,
            handle_payment_costs,
            standard_payment_costs,
        }
    }

    /// Returns wasmless transfer cost.
    pub fn wasmless_transfer_cost(&self) -> (cost: u32)
        ensures
            cost == self@.wasmless_transfer_cost,
    {
        self.wasmless_transfer_cost
    }

    /// Returns the install/upgrade cost.
    pub fn install_upgrade_cost(&self) -> (cost: u64)
        ensures
            cost == self@.install_upgrade_cost,
    {
        self.install_upgrade_cost
    }

    /// Returns the standard transaction cost.
    pub fn standard_transaction_cost(&self) -> (cost: u64)
        ensures
            cost == self@.standard_cost,
    {
        self.standard_cost
    }

    /// Returns the costs of executing auction entry points.
    pub fn auction_costs(&self) -> (costs: &AuctionCosts)
        ensures
            *costs == self@.auction_costs,
    {
        &self.auction_costs
    }

    /// Returns the costs of executing mint entry points.
    pub fn mint_costs(&self) -> (costs: &MintCosts)
        ensures
            *costs == self@.mint_costs,
    {
        &self.mint_costs
    }

    /// Returns the costs of executing `handle_payment` entry points.
    pub fn handle_payment_costs(&self) -> (costs: &HandlePaymentCosts)
        ensures
            *costs == self@.handle_payment_costs,
    {
        &self.handle_payment_costs
    }

    /// Returns the costs of executing `standard_payment` entry points.
    pub fn standard_payment_costs(&self) -> (costs: &StandardPaymentCosts)
        ensures
            *costs == self@.standard_payment_costs,
    {
        &self.standard_payment_costs
    }

    /// Costs drawn from `rng` and put together by [`SystemConfig::new`]: any costs may come out.
    pub fn sample(rng: &mut rand::rngs::StdRng) -> (config: SystemConfig) {
        let wasmless_transfer_cost: u32 = random_u32(rng);
        let install_upgrade_cost: u64 = random_u64(rng);
        let standard_cost: u64 = random_u64(rng);
        let auction_costs = AuctionCosts::sample(rng);
        let mint_costs = MintCosts::sample(rng);
        let handle_payment_costs = HandlePaymentCosts::sample(rng);
        let standard_payment_costs = StandardPaymentCosts::sample(rng);
        SystemConfig::new(
            wasmless_transfer_cost,
            install_upgrade_cost,
            standard_cost,
            auction_costs,
            mint_costs,
            handle_payment_costs,
            standard_payment_costs,
        )
    }

    /// The number of bytes in the byte representation.
    pub fn serialized_length(&self) -> (len: usize)
        ensures
            len == self@.bytes().len(),
    {
        proof {
            vstd::bytes::lemma_auto_spec_u32_to_from_le_bytes();
            vstd::bytes::lemma_auto_spec_u64_to_from_le_bytes();
        }
        4 + 8 + 8 + self.auction_costs.serialized_length() + self.mint_costs.serialized_length()
            + self.handle_payment_costs.serialized_length()
            + self.standard_payment_costs.serialized_length()
    }

    /// The byte representation of the costs; this never fails.
    pub fn to_bytes(&self) -> (r: Result<Vec<u8>, Error>)
        ensures
            r is Ok,
            r->Ok_0@ == self@.bytes(),
    {
        let mut out: Vec<u8> = Vec::new();
        write_u32(&mut out, self.wasmless_transfer_cost);
        write_u64(&mut out, self.install_upgrade_cost);
        write_u64(&mut out, self.standard_cost);
        self.auction_costs.write_bytes(&mut out);
        self.mint_costs.write_bytes(&mut out);
        self.handle_payment_costs.write_bytes(&mut out);
        self.standard_payment_costs.write_bytes(&mut out);
        assert(out@ =~= self@.bytes());
        Ok(out)
    }

    /// Reads the costs off the front of `bytes`, and hands back what follows them; fails with
    /// `EarlyEndOfStream` exactly where `bytes` end before the costs do.
    pub fn from_bytes(bytes: &[u8]) -> (r: Result<(SystemConfig, &[u8]), Error>)
        ensures
            match r {
                Ok((config, rest)) => SystemConfigView::parse(bytes@) == Some((config@, rest@)),
                Err(e) => e == Error::EarlyEndOfStream && SystemConfigView::parse(bytes@) is None,
            },
    {
        let (wasmless_transfer_cost, rest0) = match read_u32(bytes) {
            Ok(read) => read,
            Err(e) => return Err(e),
        };
        let (install_upgrade_cost, rest1) = match read_u64(rest0) {
            Ok(read) => read,
            Err(e) => return Err(e),
        };
        let (standard_cost, rest2) = match read_u64(rest1) {
            Ok(read) => read,
            Err(e) => return Err(e),
        };
        let (auction_costs, rest3) = match AuctionCosts::from_bytes(rest2) {
            Ok(read) => read,
            Err(e) => return Err(e),
        };
        let (mint_costs, rest4) = match MintCosts::from_bytes(rest3) {
            Ok(read) => read,
            Err(e) => return Err(e),
        };
        let (handle_payment_costs, rest5) = match HandlePaymentCosts::from_bytes(rest4) {
            Ok(read) => read,
            Err(e) => return Err(e),
        };
        let (standard_payment_costs, rest6) = match StandardPaymentCosts::from_bytes(rest5) {
            Ok(read) => read,
            Err(e) => return Err(e),
        };
        Ok(
            (
                SystemConfig::new(
                    wasmless_transfer_cost,
                    install_upgrade_cost,
                    standard_cost,
                    auction_costs,
                    mint_costs,
                    handle_payment_costs,
                    standard_payment_costs,
                ),
                rest6,
            ),
        )
    }
}

impl Default for SystemConfig {
    fn default() -> (config: SystemConfig)
        ensures
            config@ == SystemConfigView::default_costs(),
    {
        SystemConfig {
            wasmless_transfer_cost: DEFAULT_WASMLESS_TRANSFER_COST,
            install_upgrade_cost: DEFAULT_INSTALL_UPGRADE_COST,
            standard_cost: DEFAULT_STANDARD_TRANSACTION_COST,
            auction_costs: AuctionCosts::default(),
            mint_costs: MintCosts::default(),
            handle_payment_costs: HandlePaymentCosts::default(),
            standard_payment_costs: StandardPaymentCosts::default(),
        }
    }
}

} // verus!
