//! The consensus component. Provides distributed consensus among the nodes in the network.
//!
//! Here stands what the component decides of an event: which of its handlers it is for. The
//! handlers themselves, and the effects they ask of the reactor, are not part of this library.

use crate::components::block_synchronizer::peer_list::NodeId;
use crate::primitives::{Digest, EraId, Timestamp};
use crate::identity::PublicKey;
use vstd::prelude::*;

verus! {

/// An ID to distinguish different timers. What they are used for is specific to each consensus
/// protocol implementation.
#[derive(Clone, Copy, Debug, PartialEq, Eq, Structural, Hash)]
pub struct TimerId(pub u8);

/// An ID to distinguish queued actions. What they are used for is specific to each consensus
/// protocol implementation.
#[derive(Clone, Copy, Debug, PartialEq, Eq, Structural, Hash)]
pub struct ActionId(pub u8);

/// The hash of a deploy.
#[derive(Clone, Copy, Debug, PartialEq, Eq, PartialOrd, Ord, Hash)]
pub struct DeployHash(pub Digest);

/// The hash of a deploy, with its kind.
#[derive(Clone, Copy, Debug, PartialEq, Eq, PartialOrd, Ord, Hash)]
pub enum DeployOrTransferHash {
    Deploy(DeployHash),
    Transfer(DeployHash),
}

/// The deploys and transfers of a block to be proposed.
#[derive(Clone, Debug, PartialEq, Eq)]
pub struct BlockPayload {
    pub deploy_hashes: Vec<DeployHash>,
    pub transfer_hashes: Vec<DeployHash>,
    pub random_bit: bool,
}

/// Where a proposed block stands in the chain.
#[derive(Clone, Copy, Debug, PartialEq, Eq, Structural)]
pub struct BlockContext {
    pub timestamp: Timestamp,
    pub height: u64,
}

/// A block that was proposed.
#[derive(Clone, Debug, PartialEq, Eq)]
pub struct ProposedBlock {
    pub value: BlockPayload,
    pub context: BlockContext,
}

/// Payload for a block to be proposed.
#[derive(Clone, Debug, PartialEq, Eq)]
pub struct NewBlockPayload {
    pub era_id: EraId,
    pub block_payload: BlockPayload,
    pub block_context: BlockContext,
}

/// Why a deploy could not be added to a block.
#[derive(Clone, Copy, Debug, PartialEq, Eq, Structural)]
pub enum AddError {
    TransferCount,
    DeployCount,
    ApprovalCount,
    GasLimit,
    BlockSize,
    Duplicate,
    Expired,
    InvalidDeploy,
}

/// A proposed block validation error.
#[derive(Clone, Debug, PartialEq, Eq)]
pub enum ValidationError {
    /// A deploy hash in the proposed block has been found in an ancestor block.
    ContainsReplayedDeploy(DeployHash),
    /// A deploy could not be fetched from any of the identified holders.
    ExhaustedBlockHolders {
        /// The deploys still missing.
        missing_deploys: Vec<DeployOrTransferHash>,
    },
    /// An already invalid block was submitted for validation.
    ///
    /// This is likely a bug in the node itself.
    ValidationOfFailedBlock,
    /// The submitted block is already in process of being validated.
    ///
    /// This is likely a bug, since no block should be submitted for validation twice.
    DuplicateValidationAttempt,
    /// Found deploy in storage, but did not match the hash requested.
    ///
    /// This indicates a corrupted storage.
    InternalDataCorruption(DeployOrTransferHash),
    /// The deploy we received
    ///
    /// This is likely a bug, since the deploy fetcher should ensure that this does not happen.
    WrongDeploySent(DeployOrTransferHash),
    /// A contained deploy has no valid deploy footprint.
    DeployHasInvalidFootprint {
        /// Hash of deploy that failed.
        deploy_hash: DeployOrTransferHash,
        /// The error reported when trying to footprint it.
        error: String,
    },
    /// Too many non-transfer deploys in block.
    ExceedsNonTransferDeployLimit(usize),
    /// Too many non-transfer deploys in block.
    ExceedsTransferLimit(usize),
    /// The approvals hash could not be serialized.
    CannotSerializeApprovalsHash(String),
    /// A duplicated deploy was found within the block.
    DuplicateDeploy(DeployOrTransferHash),
    /// Exhausted all peers while trying to validate block.
    PeersExhausted,
    /// Failed to construct a `GetRequest`.
    CouldNotConstructGetRequest {
        /// The `GetRequest`'s ID, serialized as string
        id: String,
        /// The peer ID the `GetRequest` was directed at.
        peer: NodeId,
    },
    /// Validation data mismatch.
    ValidationMetadataMismatch {
        /// The item's ID for which validation data did not match.
        id: String,
        /// The peer ID involved.
        peer: NodeId,
    },
    /// The validation state was found to be `InProgress`.
    InProgressAfterCompletion,
    /// A given deploy could not be included in the block by adding it to the appendable block.
    DeployInclusionFailure {
        /// Hash of the deploy that was rejected.
        deploy_hash: DeployOrTransferHash,
        /// The underlying error of the appendable block.
        error: AddError,
    },
}

/// The result of validation of a ProposedBlock.
#[derive(Clone, Debug, PartialEq, Eq)]
pub struct ValidationResult {
    era_id: EraId,
    sender: NodeId,
    proposed_block: ProposedBlock,
    error: Option<ValidationError>,
}

impl ValidationResult {
    pub closed spec fn spec_era_id(&self) -> EraId {
        self.era_id
    }

    pub closed spec fn spec_sender(&self) -> NodeId {
        self.sender
    }

    pub closed spec fn spec_proposed_block(&self) -> ProposedBlock {
        self.proposed_block
    }

    pub closed spec fn spec_error(&self) -> Option<ValidationError> {
        self.error
    }

    /// Creates a new valid `ValidationResult`.
    pub fn new_valid(era_id: EraId, sender: NodeId, proposed_block: ProposedBlock) -> (result:
        ValidationResult)
        ensures
            result.spec_era_id() == era_id,
            result.spec_sender() == sender,
            result.spec_proposed_block() == proposed_block,
            result.spec_error() is None,
    {
        ValidationResult { era_id, sender, proposed_block, error: None }
    }

    /// Creates a new invalid `ValidationResult`.
    pub fn new_invalid(
        era_id: EraId,
        sender: NodeId,
        proposed_block: ProposedBlock,
        error: ValidationError,
    ) -> (result: ValidationResult)
        ensures
            result.spec_era_id() == era_id,
            result.spec_sender() == sender,
            result.spec_proposed_block() == proposed_block,
            result.spec_error() == Some(error),
    {
        ValidationResult { era_id, sender, proposed_block, error: Some(error) }
    }

    pub fn era_id(&self) -> (era_id: EraId)
        ensures
            era_id == self.spec_era_id(),
    {
        self.era_id
    }

    pub fn sender(&self) -> (sender: NodeId)
        ensures
            sender == self.spec_sender(),
    {
        self.sender
    }

    pub fn proposed_block(&self) -> (proposed_block: &ProposedBlock)
        ensures
            *proposed_block == self.spec_proposed_block(),
    {
        &self.proposed_block
    }

    pub fn error(&self) -> (error: &Option<ValidationError>)
        ensures
            *error == self.spec_error(),
    {
        &self.error
    }
}

/// A message of the consensus protocol.
#[derive(Clone, Debug, PartialEq, Eq)]
pub enum ConsensusMessage {
    /// A protocol message, to be handled by the instance in the specified era.
    Protocol { era_id: EraId, payload: Vec<u8> },
    /// A request for evidence against the specified validator, from any era that is still
    /// bonded in `era_id`.
    EvidenceRequest { era_id: EraId, pub_key: PublicKey },
}

/// A protocol request message, to be handled by the instance in the specified era.
#[derive(Clone, Debug, PartialEq, Eq)]
pub struct ConsensusRequestMessage {
    pub era_id: EraId,
    pub payload: Vec<u8>,
}

/// What is asked of the consensus component from outside.
#[derive(Clone, Copy, Debug, PartialEq, Eq, Structural)]
pub enum ConsensusRequest {
    /// The status of consensus.
    Status,
    /// The changes to the validators.
    ValidatorChanges,
}

/// Consensus component event.
#[derive(Clone, Debug, PartialEq, Eq)]
pub enum Event {
    /// An incoming network message.
    Incoming { sender: NodeId, message: ConsensusMessage },
    /// A variant used with failpoints - when a message arrives, we fire this event with a delay,
    /// and it also causes the message to be handled.
    DelayedIncoming { sender: NodeId, message: ConsensusMessage },
    /// An incoming demand message.
    DemandIncoming { sender: NodeId, request_msg: ConsensusRequestMessage },
    /// A scheduled event to be handled by a specified era.
    Timer { era_id: EraId, timestamp: Timestamp, timer_id: TimerId },
    /// A queued action to be handled by a specific era.
    Action { era_id: EraId, action_id: ActionId },
    /// We are receiving the data we require to propose a new block.
    NewBlockPayload(NewBlockPayload),
    ConsensusRequest(ConsensusRequest),
    /// A new block has been added to the linear chain.
    BlockAdded { header: crate::types::block::BlockHeader, header_hash: crate::primitives::BlockHash },
    /// The proposed block has been validated.
    ResolveValidity(ValidationResult),
    /// Deactivate the era with the given ID, unless the number of faulty validators increases.
    DeactivateEra { era_id: EraId, faulty_num: usize, delay_millis: u64 },
    /// Dump state for debugging purposes.
    DumpState { era_id: Option<EraId> },
}

/// Why the state of an era could not be dumped.
#[derive(Clone, Copy, Debug, PartialEq, Eq, Structural)]
pub enum DumpError {
    /// Consensus is not initialized: there is no current era.
    NotInitialized,
    /// The era asked for is not open.
    EraNotFound(EraId),
}

/// What the era supervisor does with an event.
#[derive(Clone, Debug, PartialEq, Eq)]
pub enum Handling {
    /// The timer is handled.
    Timer { era_id: EraId, timestamp: Timestamp, timer_id: TimerId },
    /// The action is handled.
    Action { era_id: EraId, action_id: ActionId },
    /// The message is put off: after `delay_millis` it comes again, as a delayed one.
    Delay { delay_millis: u64, sender: NodeId, message: ConsensusMessage },
    /// The message is handled.
    Message { sender: NodeId, message: ConsensusMessage },
    /// The demand is handled.
    Demand { sender: NodeId, request_msg: ConsensusRequestMessage },
    /// The payload is handled.
    NewBlockPayload(NewBlockPayload),
    /// The added block is handled.
    BlockAdded { header: crate::types::block::BlockHeader },
    /// The validity is resolved.
    ResolveValidity(ValidationResult),
    /// The era is deactivated.
    DeactivateEra { era_id: EraId, faulty_num: usize, delay_millis: u64 },
    /// The status is answered.
    Status,
    /// The changes to the validators are answered.
    ValidatorChanges,
    /// The state of the era is dumped.
    Dump(EraId),
    /// The request to dump is answered with why nothing can be dumped.
    DumpRefused(DumpError),
}

/// Whether `era` is among `eras`.
pub open spec fn spec_is_open(eras: Seq<EraId>, era: EraId) -> bool {
    exists|i: int| 0 <= i < eras.len() && eras[i] == era
}

/// Which era is dumped on a request for `era_id`: the one asked for, or the current one where
/// none is asked for; it must be open, and consensus must have a current era.
pub open spec fn spec_dump(
    era_id: Option<EraId>,
    current_era: Option<EraId>,
    open_eras: Seq<EraId>,
) -> Result<EraId, DumpError> {
    match current_era {
        None => Err(DumpError::NotInitialized),
        Some(current) => {
            let requested = match era_id {
                Some(era_id) => era_id,
                None => current,
            };
            if spec_is_open(open_eras, requested) {
                Ok(requested)
            } else {
                Err(DumpError::EraNotFound(requested))
            }
        },
    }
}

/// What the era supervisor does with `event`.
///
/// A message that comes in is put off where the failpoint for message delay fires, which
/// `delay_by` tells; a delayed message is handled at once. A request to dump is answered from
/// the current era and the open eras.
pub open spec fn spec_handle_event(
    event: Event,
    delay_by: Option<u64>,
    current_era: Option<EraId>,
    open_eras: Seq<EraId>,
) -> Handling {
    match event {
        Event::Timer { era_id, timestamp, timer_id } => Handling::Timer {
            era_id,
            timestamp,
            timer_id,
        },
        Event::Action { era_id, action_id } => Handling::Action { era_id, action_id },
        Event::Incoming { sender, message } => match delay_by {
            Some(delay_millis) => Handling::Delay { delay_millis, sender, message },
            None => Handling::Message { sender, message },
        },
        Event::DelayedIncoming { sender, message } => Handling::Message { sender, message },
        Event::DemandIncoming { sender, request_msg } => Handling::Demand { sender, request_msg },
        Event::NewBlockPayload(new_block_payload) => Handling::NewBlockPayload(new_block_payload),
        Event::BlockAdded { header, .. } => Handling::BlockAdded { header },
        Event::ResolveValidity(resolve_validity) => Handling::ResolveValidity(resolve_validity),
        Event::DeactivateEra { era_id, faulty_num, delay_millis } => Handling::DeactivateEra {
            era_id,
            faulty_num,
            delay_millis,
        },
        Event::ConsensusRequest(ConsensusRequest::Status) => Handling::Status,
        Event::ConsensusRequest(ConsensusRequest::ValidatorChanges) => Handling::ValidatorChanges,
        Event::DumpState { era_id } => match spec_dump(era_id, current_era, open_eras) {
            Ok(era_id) => Handling::Dump(era_id),
            Err(error) => Handling::DumpRefused(error),
        },
    }
}

fn is_open(open_eras: &Vec<EraId>, era: EraId) -> (r: bool)
    ensures
        r == spec_is_open(open_eras@, era),
{
    let mut i: usize = 0;
    while i < open_eras.len()
        invariant
            i <= open_eras@.len(),
            forall|j: int| 0 <= j < i ==> open_eras@[j] != era,
        decreases open_eras@.len() - i,
    {
        if open_eras[i].0 == era.0 {
            return true;
        }
        i = i + 1;
    }
    false
}

/// Decides what the era supervisor does with `event`.
pub fn handle_event(
    event: Event,
    delay_by: Option<u64>,
    current_era: Option<EraId>,
    open_eras: &Vec<EraId>,
) -> (handling: Handling)
    ensures
        handling == spec_handle_event(event, delay_by, current_era, open_eras@),
{
    match event {
        Event::Timer { era_id, timestamp, timer_id } => Handling::Timer {
            era_id,
            timestamp,
            timer_id,
        },
        Event::Action { era_id, action_id } => Handling::Action { era_id, action_id },
        Event::Incoming { sender, message } => match delay_by {
            Some(delay_millis) => Handling::Delay { delay_millis, sender, message },
            None => Handling::Message { sender, message },
        },
        Event::DelayedIncoming { sender, message } => Handling::Message { sender, message },
        Event::DemandIncoming { sender, request_msg } => Handling::Demand { sender, request_msg },
        Event::NewBlockPayload(new_block_payload) => Handling::NewBlockPayload(new_block_payload),
        Event::BlockAdded { header, .. } => Handling::BlockAdded { header },
        Event::ResolveValidity(resolve_validity) => Handling::ResolveValidity(resolve_validity),
        Event::DeactivateEra { era_id, faulty_num, delay_millis } => Handling::DeactivateEra {
            era_id,
            faulty_num,
            delay_millis,
        },
        Event::ConsensusRequest(ConsensusRequest::Status) => Handling::Status,
        Event::ConsensusRequest(ConsensusRequest::ValidatorChanges) => Handling::ValidatorChanges,
        Event::DumpState { era_id } => {
            let current: EraId = match current_era {
                None => {
                    return Handling::DumpRefused(DumpError::NotInitialized);
                },
                Some(era_id) => era_id,
            };
            let requested: EraId = match era_id {
                Some(era_id) => era_id,
                None => current,
            };
            if is_open(open_eras, requested) {
                Handling::Dump(requested)
            } else {
                Handling::DumpRefused(DumpError::EraNotFound(requested))
            }
        },
    }
}

/// The name of the component.
pub fn name() -> (name: &'static str)
    ensures
        name@ == "consensus"@,
{
    "consensus"
}

} // verus!
