//! Slot and epoch resolution for blocks that a BABE runtime accepts.
//!
//! A block is authored in a slot. To be importable it names, in its digest, the proof
//! that the author was entitled to the slot, and it travels with a reference to the
//! epoch that the slot belongs to. The epoch store and the key store are services of
//! the node; the functions here decide what their answers mean.

use vstd::prelude::*;
use vstd::string::*;
use crate::consensus::{
    BlockImportParams, Digest, DigestItem, Intermediate, Lookup, BABE_ENGINE_ID,
};
use crate::error::Error;

verus! {

/// Length of a slot, in seconds.
pub const SLOT_DURATION: u64 = 6;

/// What resolving a slot on top of a parent yields.
#[derive(Debug, PartialEq, Eq)]
pub struct SlotClaim<D> {
    /// The digest of the block to author: one entry, the pre-digest.
    pub digest: Digest,
    /// Reference to the epoch of the slot, to travel with the block.
    pub epoch_descriptor: D,
}

/// The message that reports a failure of the epoch store with the given cause.
pub open spec fn epoch_lookup_message(cause: Seq<char>) -> Seq<char> {
    "failed to fetch epoch data: "@ + cause
}

/// The digest that names the given pre-digest and nothing else.
pub open spec fn pre_digest_logs(pre_digest: Vec<u8>) -> Seq<DigestItem> {
    seq![DigestItem::PreRuntime(BABE_ENGINE_ID, pre_digest)]
}

/// The error that a failure of the epoch store with the given cause is reported as.
fn epoch_lookup_error<Hash>(cause: String) -> (err: Error<Hash>)
    ensures
        err matches Error::EpochLookup(msg) && msg@ == epoch_lookup_message(cause@),
{
    let msg = String::from_str("failed to fetch epoch data: ").concat(cause.as_str());
    Error::EpochLookup(msg)
}

/// Decides on what the epoch store answered when asked for the epoch of a slot.
///
/// The epoch found is handed on as it is. That the store holds no epoch for the slot
/// means that no authority set is known for it.
pub fn epoch_for_slot<Hash, E>(lookup: Lookup<E>) -> (r: Result<E, Error<Hash>>)
    ensures
        match lookup {
            Lookup::Found(epoch) => r == Ok::<E, Error<Hash>>(epoch),
            Lookup::Missing => r == Err::<E, Error<Hash>>(Error::InvalidAuthoritySet),
            Lookup::Failed(cause) => r matches Err(Error::EpochLookup(msg)) && msg@
                == epoch_lookup_message(cause@),
        },
{
    match lookup {
        Lookup::Found(epoch) => Ok(epoch),
        Lookup::Missing => Err(Error::InvalidAuthoritySet),
        Lookup::Failed(cause) => Err(epoch_lookup_error(cause)),
    }
}

/// Builds the digest of a block from the outcome of claiming its slot.
///
/// `claim` is the encoded pre-digest if a local key may author in the slot. The digest
/// then holds exactly one entry: the pre-digest, tagged as a BABE pre-runtime item.
pub fn create_digest<Hash>(claim: Option<Vec<u8>>) -> (r: Result<Digest, Error<Hash>>)
    ensures
        match claim {
            Some(pre_digest) => r matches Ok(digest) && digest@ == pre_digest_logs(pre_digest),
            None => r == Err::<Digest, Error<Hash>>(Error::SlotClaimFailed),
        },
{
    match claim {
        Some(pre_digest) => {
            let mut logs: Vec<DigestItem> = Vec::new();
            logs.push(DigestItem::PreRuntime(BABE_ENGINE_ID, pre_digest));
            Ok(Digest { logs })
        },
        None => Err(Error::SlotClaimFailed),
    }
}

/// Attaches the reference to the epoch of a block to its import parameters.
///
/// `lookup` is what the epoch store answered when asked for the reference. On success
/// the reference replaces whatever travelled with the block before; on failure the
/// parameters stay as they were.
pub fn append_block_import<Hash, D>(
    params: &mut BlockImportParams<Hash, D>,
    lookup: Lookup<D>,
) -> (r: Result<(), Error<Hash>>)
    ensures
        match lookup {
            Lookup::Found(descriptor) => {
                &&& r == Ok::<(), Error<Hash>>(())
                &&& *final(params) == (BlockImportParams::<Hash, D> {
                    intermediate: Some(Intermediate::Babe { epoch_descriptor: descriptor }),
                    ..*old(params)
                })
            },
            Lookup::Missing => {
                &&& r == Err::<(), Error<Hash>>(Error::InvalidAuthoritySet)
                &&& *final(params) == *old(params)
            },
            Lookup::Failed(cause) => {
                &&& r matches Err(Error::EpochLookup(msg)) && msg@ == epoch_lookup_message(cause@)
                &&& *final(params) == *old(params)
            },
        },
{
    let descriptor = epoch_for_slot::<Hash, D>(lookup)?;
    params.intermediate = Some(Intermediate::Babe { epoch_descriptor: descriptor });
    Ok(())
}

/// Decides on a slot from the outcome of claiming it and from what the epoch store
/// answered when asked for the reference to its epoch.
///
/// Succeeds exactly if a local key may author in the slot and the reference was found.
/// A slot that cannot be claimed is reported before any failure of the lookup.
pub fn resolve_and_claim<Hash, D>(claim: Option<Vec<u8>>, descriptor: Lookup<D>) -> (r: Result<
    SlotClaim<D>,
    Error<Hash>,
>)
    ensures
        match (claim, descriptor) {
            (Some(pre_digest), Lookup::Found(d)) => r matches Ok(found) && found.digest@
                == pre_digest_logs(pre_digest) && found.epoch_descriptor == d,
            (Some(_), Lookup::Missing) => r == Err::<SlotClaim<D>, Error<Hash>>(
                Error::InvalidAuthoritySet,
            ),
            (Some(_), Lookup::Failed(cause)) => r matches Err(Error::EpochLookup(msg)) && msg@
                == epoch_lookup_message(cause@),
            (None, _) => r == Err::<SlotClaim<D>, Error<Hash>>(Error::SlotClaimFailed),
        },
{
    let digest = create_digest::<Hash>(claim)?;
    let epoch_descriptor = epoch_for_slot::<Hash, D>(descriptor)?;
    Ok(SlotClaim { digest, epoch_descriptor })
}

} // verus!
