//! Decisions about persisting the provisioned configuration.

use vstd::prelude::*;

verus! {

/// Errors of the backing store.
#[derive(Copy, Clone, Debug, PartialEq, Eq, Structural)]
pub enum StorageError {
    Load,
    Store,
    Serialization,
    Deserialization,
}

/// What was last loaded from, or stored to, the backing store.
#[derive(Copy, Clone, Debug, PartialEq, Eq, Structural)]
pub enum LatestLoad {
    Empty,
    Provisioned { hash: u64, sequence: u32 },
}

/// Which of two stored copies of the configuration a load keeps, each given
/// as its sequence number and content or as the error that loading it gave:
/// the one with the higher sequence number (the second on a tie), the only
/// one that loaded, or the first error where neither did.
pub open spec fn spec_newer_load<T>(
    first: Result<(u32, T), StorageError>,
    second: Result<(u32, T), StorageError>,
) -> Result<(u32, T), StorageError> {
    match (first, second) {
        (Ok(a), Ok(b)) => if a.0 > b.0 { Ok(a) } else { Ok(b) },
        (Ok(a), Err(_)) => Ok(a),
        (Err(_), Ok(b)) => Ok(b),
        (Err(e), Err(_)) => Err(e),
    }
}

/// Keeps the newer of two loaded copies of the configuration.
pub fn newer_load<T>(
    first: Result<(u32, T), StorageError>,
    second: Result<(u32, T), StorageError>,
) -> (r: Result<(u32, T), StorageError>)
    ensures
        r == spec_newer_load(first, second),
{
    match (first, second) {
        (Ok(a), Ok(b)) => if a.0 > b.0 { Ok(a) } else { Ok(b) },
        (Ok(a), Err(_)) => Ok(a),
        (Err(_), Ok(b)) => Ok(b),
        (Err(e), Err(_)) => Err(e),
    }
}

/// Whether a configuration with hash `new_hash` and sequence `new_sequence`
/// must be written back: always when nothing was stored or the hashed content
/// changed; never when only an unchanged sequence is seen; otherwise when the
/// sequence is a multiple of the threshold or has moved on by at least the
/// threshold since the stored one.
pub open spec fn spec_should_writeback(current: LatestLoad, new_hash: u64, new_sequence: u32, threshold: u32) -> bool {
    match current {
        LatestLoad::Empty => true,
        LatestLoad::Provisioned { hash, sequence } => {
            if new_hash != hash {
                true
            } else if new_sequence == sequence {
                false
            } else {
                new_sequence % threshold == 0 || new_sequence - sequence >= threshold
            }
        },
    }
}

/// The inputs on which the decision is computed without a division by zero
/// or a negative sequence difference.
pub open spec fn writeback_defined(current: LatestLoad, new_hash: u64, new_sequence: u32, threshold: u32) -> bool {
    match current {
        LatestLoad::Empty => true,
        LatestLoad::Provisioned { hash, sequence } => new_hash != hash || new_sequence == sequence || (threshold
            > 0 && (new_sequence % threshold == 0 || new_sequence >= sequence)),
    }
}

/// Decides whether the configuration must be written back to the store.
pub fn should_writeback(current: LatestLoad, new_hash: u64, new_sequence: u32, sequence_threshold: u32) -> (r: bool)
    requires
        writeback_defined(current, new_hash, new_sequence, sequence_threshold),
    ensures
        r == spec_should_writeback(current, new_hash, new_sequence, sequence_threshold),
{
    match current {
        LatestLoad::Empty => true,
        LatestLoad::Provisioned { hash, sequence } => {
            if new_hash != hash {
                true
            } else if new_sequence == sequence {
                false
            } else if new_sequence % sequence_threshold == 0 || (new_sequence - sequence) >= sequence_threshold {
                true
            } else {
                false
            }
        },
    }
}

/// The sequence a node resumes with after loading `seq` from the store: the
/// next multiple of 100 above it.
pub open spec fn spec_boot_sequence(seq: u32) -> int {
    seq - seq % 100 + 100
}

/// Moves a loaded sequence to the next multiple of 100, so that sequence
/// numbers used but not stored before a restart are never reused.
pub fn boot_sequence(seq: u32) -> (r: u32)
    requires
        spec_boot_sequence(seq) <= u32::MAX,
    ensures
        r == spec_boot_sequence(seq),
{
    let mut extra = seq % 100;
    if extra == 100 {
        extra = 0;
    }
    (seq - extra) + 100
}

/// The resumed sequence is a multiple of 100, beyond the loaded one by at
/// most 100.
pub proof fn lemma_boot_sequence(seq: u32)
    ensures
        spec_boot_sequence(seq) % 100 == 0,
        seq < spec_boot_sequence(seq) <= seq + 100,
{
}

} // verus!
