//! The fields of a transaction: what they are, and their byte representation.

use crate::bytesrepr::{
    spec_byte_string, write_byte_string, write_bytes, write_length, write_u32, write_u64, write_u8,
};
use crate::contract_runtime::checksum::{spec_key_repr, write_key};
use crate::contract_runtime::types::TransactionEntryPoint;
use crate::identity::{AccountHash, PublicKey};
use crate::primitives::{EraId, Motes, Timestamp};
use vstd::bytes::{spec_u128_to_le_bytes, spec_u32_to_le_bytes, spec_u64_to_le_bytes};
use vstd::prelude::*;

verus! {

/// The most bytes that a string of bytes within a field may have.
pub const MAX_FIELD_STRING: usize = 0xffff_ffff;

/// An argument with its name.
#[derive(Clone, Debug, PartialEq, Eq)]
pub struct NamedArg {
    pub name: String,
    /// The value, as bytes.
    pub value: Vec<u8>,
}

/// The arguments that a transaction is run with.
#[derive(Clone, Debug, PartialEq, Eq)]
pub struct RuntimeArgs {
    pub args: Vec<NamedArg>,
}

impl RuntimeArgs {
    /// No arguments.
    pub fn new() -> (args: RuntimeArgs)
        ensures
            args.args@.len() == 0,
    {
        RuntimeArgs { args: Vec::new() }
    }

    /// Adds the argument `name` with the value `value` after the arguments there are.
    pub fn insert(&mut self, name: String, value: Vec<u8>)
        ensures
            final(self).args@ == old(self).args@.push(NamedArg { name, value }),
    {
        self.args.push(NamedArg { name, value });
    }
}

/// The arguments of a transaction.
#[derive(Clone, Debug, PartialEq, Eq)]
pub enum TransactionArgs {
    /// Named arguments.
    Named(RuntimeArgs),
    /// Arguments as one string of bytes.
    Bytesrepr(Vec<u8>),
}

/// The runtime that a transaction is run in.
#[derive(Clone, Copy, Debug, PartialEq, Eq, Structural)]
pub enum TransactionRuntime {
    VmCasperV1,
    VmCasperV2,
}

/// What a transaction invokes.
#[derive(Clone, Debug, PartialEq, Eq)]
pub enum TransactionInvocationTarget {
    /// The entity with this hash.
    ByHash([u8; 32]),
    /// The entity with this alias.
    ByName(String),
    /// The package with this hash, in the version given or the latest.
    ByPackageHash { addr: [u8; 32], version: Option<u32> },
    /// The package with this alias, in the version given or the latest.
    ByPackageName { name: String, version: Option<u32> },
}

impl TransactionInvocationTarget {
    pub fn new_invocable_entity(hash: [u8; 32]) -> (target: TransactionInvocationTarget)
        ensures
            target == TransactionInvocationTarget::ByHash(hash),
    {
        TransactionInvocationTarget::ByHash(hash)
    }

    pub fn new_invocable_entity_alias(alias: String) -> (target: TransactionInvocationTarget)
        ensures
            target == TransactionInvocationTarget::ByName(alias),
    {
        TransactionInvocationTarget::ByName(alias)
    }

    pub fn new_package(hash: [u8; 32], version: Option<u32>) -> (target:
        TransactionInvocationTarget)
        ensures
            target == (TransactionInvocationTarget::ByPackageHash { addr: hash, version }),
    {
        TransactionInvocationTarget::ByPackageHash { addr: hash, version }
    }

    pub fn new_package_alias(alias: String, version: Option<u32>) -> (target:
        TransactionInvocationTarget)
        ensures
            target == (TransactionInvocationTarget::ByPackageName { name: alias, version }),
    {
        TransactionInvocationTarget::ByPackageName { name: alias, version }
    }
}

/// What a transaction is aimed at.
#[derive(Clone, Debug, PartialEq, Eq)]
pub enum TransactionTarget {
    /// An operation of the system.
    Native,
    /// Logic that is stored on chain.
    Stored { id: TransactionInvocationTarget, runtime: TransactionRuntime, transferred_value: u64 },
    /// Logic that the transaction brings along.
    Session {
        is_install_upgrade: bool,
        module_bytes: Vec<u8>,
        runtime: TransactionRuntime,
        transferred_value: u64,
        seed: Option<[u8; 32]>,
    },
}

/// When a transaction is to be run.
#[derive(Clone, Copy, Debug, PartialEq, Eq, Structural)]
pub enum TransactionScheduling {
    Standard,
    FutureEra(EraId),
    FutureTimestamp(Timestamp),
}

/// A reference to a purse, with the rights it carries.
#[derive(Clone, Copy, Debug, PartialEq, Eq)]
pub struct URef {
    pub addr: [u8; 32],
    pub access_rights: u8,
}

/// Where a transfer goes.
#[derive(Clone, Copy, Debug, PartialEq, Eq)]
pub enum TransferTarget {
    PublicKey(PublicKey),
    AccountHash(AccountHash),
    URef(URef),
}

/// Whether a string of bytes fits into a field.
pub open spec fn spec_fits(bytes: Seq<u8>) -> bool {
    bytes.len() <= MAX_FIELD_STRING
}

/// A string of bytes within a field: its length as a little-endian `u32`, then the bytes.
pub open spec fn spec_short_string(bytes: Seq<u8>) -> Seq<u8> {
    spec_u32_to_le_bytes(bytes.len() as u32) + bytes
}

/// Appends `bytes` as a string of bytes within a field, where they fit; else nothing is done.
pub fn write_short_string(out: &mut Vec<u8>, bytes: &[u8]) -> (written: bool)
    ensures
        written == spec_fits(bytes@),
        written ==> final(out)@ == old(out)@ + spec_short_string(bytes@),
        !written ==> final(out)@ == old(out)@,
{
    if bytes.len() > MAX_FIELD_STRING {
        return false;
    }
    write_u32(out, bytes.len() as u32);
    write_bytes(out, bytes);
    assert(out@ =~= old(out)@ + spec_short_string(bytes@));
    true
}

/// The byte representation of an option of a `u32`.
pub open spec fn spec_version_repr(version: Option<u32>) -> Seq<u8> {
    match version {
        None => seq![0u8],
        Some(version) => seq![1u8] + spec_u32_to_le_bytes(version),
    }
}

fn write_version(out: &mut Vec<u8>, version: Option<u32>)
    ensures
        final(out)@ == old(out)@ + spec_version_repr(version),
{
    match version {
        None => {
            write_u8(out, 0);
        },
        Some(version) => {
            write_u8(out, 1);
            write_u32(out, version);
        },
    }
    assert(out@ =~= old(out)@ + spec_version_repr(version));
}

/// The byte that stands for a runtime.
pub open spec fn spec_runtime_tag(runtime: TransactionRuntime) -> u8 {
    match runtime {
        TransactionRuntime::VmCasperV1 => 0,
        TransactionRuntime::VmCasperV2 => 1,
    }
}

fn runtime_tag(runtime: TransactionRuntime) -> (tag: u8)
    ensures
        tag == spec_runtime_tag(runtime),
{
    match runtime {
        TransactionRuntime::VmCasperV1 => 0,
        TransactionRuntime::VmCasperV2 => 1,
    }
}

/// The byte representation of what a transaction invokes, where it has one: names must fit.
pub open spec fn spec_invocation_repr(id: TransactionInvocationTarget) -> Option<Seq<u8>> {
    match id {
        TransactionInvocationTarget::ByHash(hash) => Some(seq![0u8] + hash@),
        TransactionInvocationTarget::ByName(name) => {
            if spec_fits(vstd::utf8::encode_utf8(name@)) {
                Some(seq![1u8] + spec_short_string(vstd::utf8::encode_utf8(name@)))
            } else {
                None
            }
        },
        TransactionInvocationTarget::ByPackageHash { addr, version } => Some(
            seq![2u8] + addr@ + spec_version_repr(version),
        ),
        TransactionInvocationTarget::ByPackageName { name, version } => {
            if spec_fits(vstd::utf8::encode_utf8(name@)) {
                Some(
                    seq![3u8] + spec_short_string(vstd::utf8::encode_utf8(name@))
                        + spec_version_repr(version),
                )
            } else {
                None
            }
        },
    }
}

fn write_invocation(out: &mut Vec<u8>, id: &TransactionInvocationTarget) -> (written: bool)
    ensures
        written == (spec_invocation_repr(*id) is Some),
        written ==> final(out)@ == old(out)@ + spec_invocation_repr(*id)->Some_0,
{
    match id {
        TransactionInvocationTarget::ByHash(hash) => {
            write_u8(out, 0);
            write_bytes(out, hash.as_slice());
            assert(out@ =~= old(out)@ + (seq![0u8] + hash@));
            true
        },
        TransactionInvocationTarget::ByName(name) => {
            write_u8(out, 1);
            let written: bool = write_short_string(out, name.as_str().as_bytes());
            if written {
                assert(out@ =~= old(out)@ + (seq![1u8] + spec_short_string(
                    vstd::utf8::encode_utf8(name@),
                )));
            }
            written
        },
        TransactionInvocationTarget::ByPackageHash { addr, version } => {
            write_u8(out, 2);
            write_bytes(out, addr.as_slice());
            write_version(out, *version);
            assert(out@ =~= old(out)@ + (seq![2u8] + addr@ + spec_version_repr(*version)));
            true
        },
        TransactionInvocationTarget::ByPackageName { name, version } => {
            write_u8(out, 3);
            let written: bool = write_short_string(out, name.as_str().as_bytes());
            if written {
                write_version(out, *version);
                assert(out@ =~= old(out)@ + (seq![3u8] + spec_short_string(
                    vstd::utf8::encode_utf8(name@),
                ) + spec_version_repr(*version)));
            }
            written
        },
    }
}

/// The byte representation of a seed.
pub open spec fn spec_seed_repr(seed: Option<[u8; 32]>) -> Seq<u8> {
    match seed {
        None => seq![0u8],
        Some(seed) => seq![1u8] + seed@,
    }
}

/// A bit as a byte.
pub open spec fn spec_flag(flag: bool) -> u8 {
    if flag {
        1
    } else {
        0
    }
}

/// The byte representation of a target, where it has one: its names and its module must fit.
pub open spec fn spec_target_repr(target: TransactionTarget) -> Option<Seq<u8>> {
    match target {
        TransactionTarget::Native => Some(seq![0u8]),
        TransactionTarget::Stored { id, runtime, transferred_value } => match spec_invocation_repr(
            id,
        ) {
            Some(invocation) => Some(
                seq![1u8] + invocation + seq![spec_runtime_tag(runtime)] + spec_u64_to_le_bytes(
                    transferred_value,
                ),
            ),
            None => None,
        },
        TransactionTarget::Session {
            is_install_upgrade,
            module_bytes,
            runtime,
            transferred_value,
            seed,
        } => {
            if spec_fits(module_bytes@) {
                Some(
                    seq![2u8, spec_flag(is_install_upgrade)] + spec_short_string(module_bytes@)
                        + seq![spec_runtime_tag(runtime)] + spec_u64_to_le_bytes(transferred_value)
                        + spec_seed_repr(seed),
                )
            } else {
                None
            }
        },
    }
}

/// The byte representation of `target`, where it has one.
pub fn target_bytes(target: &TransactionTarget) -> (bytes: Option<Vec<u8>>)
    ensures
        match bytes {
            Some(bytes) => spec_target_repr(*target) == Some(bytes@),
            None => spec_target_repr(*target) is None,
        },
{
    let mut out: Vec<u8> = Vec::new();
    match target {
        TransactionTarget::Native => {
            write_u8(&mut out, 0);
            assert(out@ =~= seq![0u8]);
            Some(out)
        },
        TransactionTarget::Stored { id, runtime, transferred_value } => {
            write_u8(&mut out, 1);
            if !write_invocation(&mut out, id) {
                return None;
            }
            write_u8(&mut out, runtime_tag(*runtime));
            write_u64(&mut out, *transferred_value);
            assert(out@ =~= seq![1u8] + spec_invocation_repr(*id)->Some_0 + seq![
                spec_runtime_tag(*runtime),
            ] + spec_u64_to_le_bytes(*transferred_value));
            Some(out)
        },
        TransactionTarget::Session {
            is_install_upgrade,
            module_bytes,
            runtime,
            transferred_value,
            seed,
        } => {
            write_u8(&mut out, 2);
            write_u8(&mut out, if *is_install_upgrade {
                1
            } else {
                0
            });
            if !write_short_string(&mut out, module_bytes.as_slice()) {
                return None;
            }
            write_u8(&mut out, runtime_tag(*runtime));
            write_u64(&mut out, *transferred_value);
            match seed {
                None => {
                    write_u8(&mut out, 0);
                },
                Some(seed) => {
                    write_u8(&mut out, 1);
                    write_bytes(&mut out, seed.as_slice());
                },
            }
            assert(out@ =~= seq![2u8, spec_flag(*is_install_upgrade)] + spec_short_string(
                module_bytes@,
            ) + seq![spec_runtime_tag(*runtime)] + spec_u64_to_le_bytes(*transferred_value)
                + spec_seed_repr(*seed));
            Some(out)
        },
    }
}

/// The byte representation of an entry point, where it has one: a custom name must fit.
pub open spec fn spec_entry_point_repr(entry_point: TransactionEntryPoint) -> Option<Seq<u8>> {
    match entry_point {
        TransactionEntryPoint::Call => Some(seq![0u8]),
        TransactionEntryPoint::Custom(name) => {
            if spec_fits(vstd::utf8::encode_utf8(name@)) {
                Some(seq![1u8] + spec_short_string(vstd::utf8::encode_utf8(name@)))
            } else {
                None
            }
        },
        TransactionEntryPoint::Transfer => Some(seq![2u8]),
        TransactionEntryPoint::AddBid => Some(seq![3u8]),
        TransactionEntryPoint::WithdrawBid => Some(seq![4u8]),
        TransactionEntryPoint::Delegate => Some(seq![5u8]),
        TransactionEntryPoint::Undelegate => Some(seq![6u8]),
        TransactionEntryPoint::Redelegate => Some(seq![7u8]),
        TransactionEntryPoint::ActivateBid => Some(seq![8u8]),
        TransactionEntryPoint::ChangeBidPublicKey => Some(seq![9u8]),
    }
}

/// The byte representation of `entry_point`, where it has one.
pub fn entry_point_bytes(entry_point: &TransactionEntryPoint) -> (bytes: Option<Vec<u8>>)
    ensures
        match bytes {
            Some(bytes) => spec_entry_point_repr(*entry_point) == Some(bytes@),
            None => spec_entry_point_repr(*entry_point) is None,
        },
{
    let mut out: Vec<u8> = Vec::new();
    let tag: u8 = match entry_point {
        TransactionEntryPoint::Call => 0,
        TransactionEntryPoint::Custom(name) => {
            write_u8(&mut out, 1);
            if !write_short_string(&mut out, name.as_str().as_bytes()) {
                return None;
            }
            assert(out@ =~= seq![1u8] + spec_short_string(vstd::utf8::encode_utf8(name@)));
            return Some(out);
        },
        TransactionEntryPoint::Transfer => 2,
        TransactionEntryPoint::AddBid => 3,
        TransactionEntryPoint::WithdrawBid => 4,
        TransactionEntryPoint::Delegate => 5,
        TransactionEntryPoint::Undelegate => 6,
        TransactionEntryPoint::Redelegate => 7,
        TransactionEntryPoint::ActivateBid => 8,
        TransactionEntryPoint::ChangeBidPublicKey => 9,
    };
    write_u8(&mut out, tag);
    assert(out@ =~= seq![tag]);
    Some(out)
}

/// The byte representation of a scheduling.
pub open spec fn spec_scheduling_repr(scheduling: TransactionScheduling) -> Seq<u8> {
    match scheduling {
        TransactionScheduling::Standard => seq![0u8],
        TransactionScheduling::FutureEra(era_id) => seq![1u8] + spec_u64_to_le_bytes(era_id.0),
        TransactionScheduling::FutureTimestamp(timestamp) => seq![2u8] + spec_u64_to_le_bytes(
            timestamp.0,
        ),
    }
}

/// The byte representation of `scheduling`.
pub fn scheduling_bytes(scheduling: TransactionScheduling) -> (bytes: Vec<u8>)
    ensures
        bytes@ == spec_scheduling_repr(scheduling),
{
    let mut out: Vec<u8> = Vec::new();
    match scheduling {
        TransactionScheduling::Standard => {
            write_u8(&mut out, 0);
        },
        TransactionScheduling::FutureEra(era_id) => {
            write_u8(&mut out, 1);
            write_u64(&mut out, era_id.0);
        },
        TransactionScheduling::FutureTimestamp(timestamp) => {
            write_u8(&mut out, 2);
            write_u64(&mut out, timestamp.0);
        },
    }
    assert(out@ =~= spec_scheduling_repr(scheduling));
    out
}

/// Whether the name and the value of an argument fit.
pub open spec fn spec_arg_fits(arg: NamedArg) -> bool {
    spec_fits(vstd::utf8::encode_utf8(arg.name@)) && spec_fits(arg.value@)
}

/// The byte representation of an argument: its name, then its value.
pub open spec fn spec_arg_repr(arg: NamedArg) -> Seq<u8> {
    spec_short_string(vstd::utf8::encode_utf8(arg.name@)) + spec_short_string(arg.value@)
}

/// Whether every one of `args` fits.
pub open spec fn spec_all_fit(args: Seq<NamedArg>) -> bool {
    forall|i: int| 0 <= i < args.len() ==> spec_arg_fits(#[trigger] args[i])
}

/// The byte representations of `args`, one after the other.
pub open spec fn spec_args_items(args: Seq<NamedArg>) -> Seq<u8>
    decreases args.len(),
{
    if args.len() == 0 {
        Seq::empty()
    } else {
        spec_args_items(args.drop_last()) + spec_arg_repr(args.last())
    }
}

/// The byte representation of arguments, where they have one: there must not be too many, and
/// each must fit.
pub open spec fn spec_args_repr(args: TransactionArgs) -> Option<Seq<u8>> {
    match args {
        TransactionArgs::Named(named) => {
            if named.args@.len() <= MAX_FIELD_STRING && spec_all_fit(named.args@) {
                Some(
                    seq![0u8] + spec_u32_to_le_bytes(named.args@.len() as u32) + spec_args_items(
                        named.args@,
                    ),
                )
            } else {
                None
            }
        },
        TransactionArgs::Bytesrepr(bytes) => {
            if spec_fits(bytes@) {
                Some(seq![1u8] + spec_short_string(bytes@))
            } else {
                None
            }
        },
    }
}

/// The byte representation of `args`, where they have one.
pub fn args_bytes(args: &TransactionArgs) -> (bytes: Option<Vec<u8>>)
    ensures
        match bytes {
            Some(bytes) => spec_args_repr(*args) == Some(bytes@),
            None => spec_args_repr(*args) is None,
        },
{
    let mut out: Vec<u8> = Vec::new();
    match args {
        TransactionArgs::Named(named) => {
            let n: usize = named.args.len();
            if n > MAX_FIELD_STRING {
                return None;
            }
            write_u8(&mut out, 0);
            write_u32(&mut out, n as u32);
            let ghost base = out@;
            let mut i: usize = 0;
            while i < n
                invariant
                    n == named.args@.len(),
                    n <= MAX_FIELD_STRING,
                    *args == TransactionArgs::Named(*named),
                    i <= n,
                    spec_all_fit(named.args@.take(i as int)),
                    out@ == base + spec_args_items(named.args@.take(i as int)),
                decreases n - i,
            {
                let ghost before = out@;
                let arg: &NamedArg = &named.args[i];
                if !write_short_string(&mut out, arg.name.as_str().as_bytes()) {
                    assert(!spec_arg_fits(named.args@[i as int]));
                    return None;
                }
                if !write_short_string(&mut out, arg.value.as_slice()) {
                    assert(!spec_arg_fits(named.args@[i as int]));
                    return None;
                }
                proof {
                    let next = named.args@.take(i + 1);
                    assert(next.drop_last() =~= named.args@.take(i as int));
                    assert(next.last() == named.args@[i as int]);
                    assert(out@ =~= base + spec_args_items(next));
                    assert forall|k: int| 0 <= k < next.len() implies spec_arg_fits(
                        #[trigger] next[k],
                    ) by {
                        if k < i {
                            assert(next[k] == named.args@.take(i as int)[k]);
                        }
                    }
                }
                i = i + 1;
            }
            assert(named.args@.take(n as int) =~= named.args@);
            assert(out@ =~= seq![0u8] + spec_u32_to_le_bytes(n as u32) + spec_args_items(
                named.args@,
            ));
            Some(out)
        },
        TransactionArgs::Bytesrepr(bytes) => {
            write_u8(&mut out, 1);
            if !write_short_string(&mut out, bytes.as_slice()) {
                return None;
            }
            assert(out@ =~= seq![1u8] + spec_short_string(bytes@));
            Some(out)
        },
    }
}

/// The value of an amount as an argument.
pub open spec fn spec_amount_value(amount: Motes) -> Seq<u8> {
    spec_u128_to_le_bytes(amount.0)
}

/// The value of `amount` as an argument.
pub fn amount_value(amount: Motes) -> (value: Vec<u8>)
    ensures
        value@ == spec_amount_value(amount),
{
    vstd::bytes::u128_to_le_bytes(amount.0)
}

/// The value of a key as an argument.
pub fn key_value(key: &PublicKey) -> (value: Vec<u8>)
    ensures
        value@ == spec_key_repr(*key),
{
    let mut out: Vec<u8> = Vec::new();
    write_key(&mut out, key);
    assert(out@ =~= spec_key_repr(*key));
    out
}

/// The value of an option of a `u64` as an argument.
pub open spec fn spec_optional_u64_value(value: Option<u64>) -> Seq<u8> {
    match value {
        None => seq![0u8],
        Some(value) => seq![1u8] + spec_u64_to_le_bytes(value),
    }
}

/// The value of `value` as an argument.
pub fn optional_u64_value(value: Option<u64>) -> (bytes: Vec<u8>)
    ensures
        bytes@ == spec_optional_u64_value(value),
{
    let mut out: Vec<u8> = Vec::new();
    match value {
        None => {
            write_u8(&mut out, 0);
        },
        Some(value) => {
            write_u8(&mut out, 1);
            write_u64(&mut out, value);
        },
    }
    assert(out@ =~= spec_optional_u64_value(value));
    out
}

/// The value of a reference to a purse as an argument.
pub open spec fn spec_uref_value(uref: URef) -> Seq<u8> {
    uref.addr@ + seq![uref.access_rights]
}

/// The value of where a transfer goes, as an argument.
pub open spec fn spec_transfer_target_value(target: TransferTarget) -> Seq<u8> {
    match target {
        TransferTarget::PublicKey(key) => seq![0u8] + spec_key_repr(key),
        TransferTarget::AccountHash(hash) => seq![1u8] + hash.0@,
        TransferTarget::URef(uref) => seq![2u8] + spec_uref_value(uref),
    }
}

/// The value of `target` as an argument.
pub fn transfer_target_value(target: &TransferTarget) -> (bytes: Vec<u8>)
    ensures
        bytes@ == spec_transfer_target_value(*target),
{
    let mut out: Vec<u8> = Vec::new();
    match target {
        TransferTarget::PublicKey(key) => {
            write_u8(&mut out, 0);
            write_key(&mut out, key);
        },
        TransferTarget::AccountHash(hash) => {
            write_u8(&mut out, 1);
            write_bytes(&mut out, hash.0.as_slice());
        },
        TransferTarget::URef(uref) => {
            write_u8(&mut out, 2);
            write_bytes(&mut out, uref.addr.as_slice());
            write_u8(&mut out, uref.access_rights);
        },
    }
    assert(out@ =~= spec_transfer_target_value(*target));
    out
}

/// The value of a reference to a purse as an argument.
pub fn uref_value(uref: &URef) -> (bytes: Vec<u8>)
    ensures
        bytes@ == spec_uref_value(*uref),
{
    let mut out: Vec<u8> = Vec::new();
    write_bytes(&mut out, uref.addr.as_slice());
    write_u8(&mut out, uref.access_rights);
    assert(out@ =~= spec_uref_value(*uref));
    out
}

} // verus!
