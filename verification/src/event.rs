//! The events of a chain-head subscription, as plain values.

use vstd::prelude::*;
use vstd::string::StringExecFns;

verus! {

/// How a request for information from peers is to be made.
///
/// The number of parallel requests is never zero.
#[derive(Debug, Clone, Copy, PartialEq)]
pub struct NetworkConfig {
    total_attempts: u64,
    max_parallel: usize,
    timeout_ms: u64,
}

impl NetworkConfig {
    /// The total number of peers from which the information is requested.
    pub closed spec fn spec_total_attempts(self) -> u64 {
        self.total_attempts
    }

    /// The largest number of requests made in parallel.
    pub closed spec fn spec_max_parallel(self) -> usize {
        self.max_parallel
    }

    /// The time in milliseconds after which a request to one peer counts as
    /// failed.
    pub closed spec fn spec_timeout_ms(self) -> u64 {
        self.timeout_ms
    }

    /// Whether the number of parallel requests is not zero. Every value that
    /// executable code holds is so.
    #[verifier::type_invariant]
    pub open spec fn wf(self) -> bool {
        self.spec_max_parallel() != 0
    }

    /// The configuration with the given values, or nothing where
    /// `max_parallel` is zero.
    pub fn new(total_attempts: u64, max_parallel: usize, timeout_ms: u64) -> (config: Option<
        NetworkConfig,
    >)
        ensures
            config is None <==> max_parallel == 0,
            config matches Some(c) ==> c.spec_total_attempts() == total_attempts
                && c.spec_max_parallel() == max_parallel && c.spec_timeout_ms() == timeout_ms,
    {
        if max_parallel == 0 {
            None
        } else {
            Some(NetworkConfig { total_attempts, max_parallel, timeout_ms })
        }
    }

    /// The total number of peers from which the information is requested.
    pub fn total_attempts(&self) -> (n: u64)
        ensures
            n == self.spec_total_attempts(),
    {
        self.total_attempts
    }

    /// The largest number of requests made in parallel; never zero.
    pub fn max_parallel(&self) -> (n: usize)
        ensures
            n == self.spec_max_parallel(),
            n != 0,
    {
        proof {
            use_type_invariant(self);
        }
        self.max_parallel
    }

    /// The time in milliseconds after which a request to one peer counts as
    /// failed.
    pub fn timeout_ms(&self) -> (n: u64)
        ensures
            n == self.spec_timeout_ms(),
    {
        self.timeout_ms
    }
}

/// The operation could not be processed due to an error.
#[derive(Debug, Clone, PartialEq)]
pub struct ErrorEvent {
    /// Reason of the error.
    pub error: String,
}

/// The version of a runtime.
#[derive(Debug, Clone, PartialEq)]
pub struct RuntimeVersion {
    /// The name of the runtime's specification.
    pub spec_name: String,
    /// The name of its implementation.
    pub impl_name: String,
    /// The version of the authoring interface.
    pub authoring_version: u32,
    /// The version of the specification.
    pub spec_version: u32,
    /// The version of the implementation.
    pub impl_version: u32,
    /// The interfaces that the runtime offers, each with its version.
    pub apis: Vec<([u8; 8], u32)>,
    /// The version of the transaction format.
    pub transaction_version: u32,
    /// The version of the state layout.
    pub state_version: u8,
}

/// The runtime specification of the current block.
///
/// It is reported for the first block that a subscription announces, and for
/// blocks whose runtime differs from their parent's.
#[derive(Debug, Clone, PartialEq)]
pub struct RuntimeVersionEvent {
    /// The runtime version.
    pub spec: RuntimeVersion,
}

/// What is known of a block's runtime, where the subscription asked for it.
#[derive(Debug, Clone, PartialEq)]
pub enum RuntimeEvent {
    /// The runtime version of this block.
    Valid(RuntimeVersionEvent),
    /// The runtime could not be obtained due to an error.
    Invalid(ErrorEvent),
}

impl RuntimeEvent {
    /// The text that reports a failed runtime call with the given message.
    pub open spec fn spec_api_error_text(message: Seq<char>) -> Seq<char> {
        "Api error: "@ + message
    }

    /// The event for a runtime call that failed with the given message.
    pub fn from_api_error(message: &str) -> (event: RuntimeEvent)
        ensures
            event matches RuntimeEvent::Invalid(e) && e.error@
                == RuntimeEvent::spec_api_error_text(message@),
    {
        let error = String::from_str("Api error: ").concat(message);
        RuntimeEvent::Invalid(ErrorEvent { error })
    }
}

/// The latest finalized block: the first event of a subscription, sent once.
#[derive(Debug, Clone, PartialEq)]
pub struct Initialized<Hash> {
    /// The hash of the latest finalized block.
    pub finalized_block_hash: Hash,
    /// The runtime version of the finalized block, where the subscription
    /// asked for runtimes.
    pub finalized_block_runtime: Option<RuntimeEvent>,
    /// Whether the runtime is written out with the event.
    pub with_runtime: bool,
}

impl<Hash> Initialized<Hash> {
    /// The number of fields that the event is written out with.
    pub open spec fn spec_serialized_fields(self) -> usize {
        if self.with_runtime {
            2
        } else {
            1
        }
    }

    /// The number of fields that the event is written out with: the block
    /// hash, and the runtime where the subscription asked for it.
    pub fn serialized_fields(&self) -> (n: usize)
        ensures
            n == self.spec_serialized_fields(),
    {
        if self.with_runtime {
            2
        } else {
            1
        }
    }

    /// The runtime as it is written out: present only where the subscription
    /// asked for runtimes, and then written even if none is known.
    pub fn serialized_runtime(&self) -> (runtime: Option<&Option<RuntimeEvent>>)
        ensures
            runtime is Some <==> self.with_runtime,
            runtime matches Some(r) ==> *r == self.finalized_block_runtime,
    {
        if self.with_runtime {
            Some(&self.finalized_block_runtime)
        } else {
            None
        }
    }
}

/// A new block that is not finalized.
#[derive(Debug, Clone, PartialEq)]
pub struct NewBlock<Hash> {
    /// The hash of the new block.
    pub block_hash: Hash,
    /// The hash of its parent.
    pub parent_block_hash: Hash,
    /// The runtime version of the new block, where the subscription asked for
    /// runtimes and the runtime changed.
    pub new_runtime: Option<RuntimeEvent>,
    /// Whether the runtime is written out with the event.
    pub with_runtime: bool,
}

impl<Hash> NewBlock<Hash> {
    /// The number of fields that the event is written out with.
    pub open spec fn spec_serialized_fields(self) -> usize {
        if self.with_runtime {
            3
        } else {
            2
        }
    }

    /// The number of fields that the event is written out with: the two
    /// hashes, and the runtime where the subscription asked for it.
    pub fn serialized_fields(&self) -> (n: usize)
        ensures
            n == self.spec_serialized_fields(),
    {
        if self.with_runtime {
            3
        } else {
            2
        }
    }

    /// The runtime as it is written out: present only where the subscription
    /// asked for runtimes, and then written even if it did not change.
    pub fn serialized_runtime(&self) -> (runtime: Option<&Option<RuntimeEvent>>)
        ensures
            runtime is Some <==> self.with_runtime,
            runtime matches Some(r) ==> *r == self.new_runtime,
    {
        if self.with_runtime {
            Some(&self.new_runtime)
        } else {
            None
        }
    }
}

/// The hash of the new best block.
#[derive(Debug, Clone, PartialEq)]
pub struct BestBlockChanged<Hash> {
    /// The hash of the new best block.
    pub best_block_hash: Hash,
}

/// The blocks that were finalized and those that were pruned.
#[derive(Debug, Clone, PartialEq)]
pub struct Finalized<Hash> {
    /// Hashes of the blocks that are finalized.
    pub finalized_block_hashes: Vec<Hash>,
    /// Hashes of the blocks that are pruned.
    pub pruned_block_hashes: Vec<Hash>,
}

/// An event of a `follow` subscription.
///
/// A subscription sends `Initialized` once, then `NewBlock`,
/// `BestBlockChanged` and `Finalized` as the chain moves, and `Stop` when it
/// is dropped.
#[derive(Debug, Clone, PartialEq)]
pub enum FollowEvent<Hash> {
    /// The latest finalized block.
    Initialized(Initialized<Hash>),
    /// A new non-finalized block was added.
    NewBlock(NewBlock<Hash>),
    /// The best block of the chain.
    BestBlockChanged(BestBlockChanged<Hash>),
    /// A list of finalized and pruned blocks.
    Finalized(Finalized<Hash>),
    /// The subscription is dropped and no further event follows.
    Stop,
}

/// The result of a chain-head method.
#[derive(Debug, Clone, PartialEq)]
pub struct ChainHeadResult<T> {
    /// Result of the method.
    pub result: T,
}

/// The event that a body, call or storage method answers with.
#[derive(Debug, Clone, PartialEq)]
pub enum ChainHeadEvent<T> {
    /// The request completed successfully.
    Done(ChainHeadResult<T>),
    /// The resources requested are inaccessible; asking again later may
    /// succeed.
    Inaccessible(ErrorEvent),
    /// An error occurred, for good.
    Error(ErrorEvent),
    /// The subscription is stale or unknown.
    Disjoint,
}

} // verus!
