use vstd::prelude::*;

use crate::target::LED_CONFIG_CHARACTERISTIC;

verus! {

/// Why a configuration write stopped before writing anything. These aborts
/// are silent for the caller of the write operation.
#[derive(PartialEq, Eq, Structural, Clone, Copy, Debug)]
pub enum WriteAbort {
    /// The Bound Peripheral Slot is empty.
    NotFound,
    /// Service and characteristic discovery on the bound handle failed.
    DiscoveryFailed,
    /// No discovered characteristic carries the configuration identifier.
    CharacteristicMissing,
    /// The configuration value could not be encoded.
    EncodingFailed,
}

/// The next step of a configuration write.
#[derive(Debug)]
pub enum WriteStep {
    /// Run service and characteristic discovery on the bound handle.
    Discover,
    /// Write `payload`, without response, to the discovered characteristic at
    /// index `characteristic`.
    Write { characteristic: usize, payload: Vec<u8> },
    /// Stop without any (further) I/O.
    Abort(WriteAbort),
}

/// Whether `i` is the position of the first configuration characteristic
/// among the discovered identifiers.
pub open spec fn is_first_config(ids: Seq<u128>, i: int) -> bool {
    &&& 0 <= i < ids.len()
    &&& ids[i] == LED_CONFIG_CHARACTERISTIC
    &&& forall|j: int| 0 <= j < i ==> ids[j] != LED_CONFIG_CHARACTERISTIC
}

/// Whether any discovered identifier is the configuration characteristic.
pub open spec fn has_config(ids: Seq<u128>) -> bool {
    exists|i: int| 0 <= i < ids.len() && ids[i] == LED_CONFIG_CHARACTERISTIC
}

/// The first step of a write: discovery when a handle is bound, an abort
/// with no I/O at all when the slot is empty.
pub fn start_write(bound: bool) -> (step: WriteStep)
    ensures
        bound ==> step is Discover,
        !bound ==> step == WriteStep::Abort(WriteAbort::NotFound),
{
    if bound {
        WriteStep::Discover
    } else {
        WriteStep::Abort(WriteAbort::NotFound)
    }
}

/// Finds the first discovered characteristic that carries the configuration
/// identifier.
pub fn find_config_characteristic(ids: &Vec<u128>) -> (r: Option<usize>)
    ensures
        r matches Some(i) ==> is_first_config(ids@, i as int),
        r is None <==> !has_config(ids@),
{
    let mut k: usize = 0;
    while k < ids.len()
        invariant
            k <= ids@.len(),
            forall|j: int| 0 <= j < k ==> ids@[j] != LED_CONFIG_CHARACTERISTIC,
        decreases ids@.len() - k,
    {
        if ids[k] == LED_CONFIG_CHARACTERISTIC {
            return Some(k);
        }
        k = k + 1;
    }
    None
}

/// The step after discovery, given whether discovery succeeded, the
/// identifiers of the discovered characteristics in order, and the encoded
/// configuration value (`None` when encoding failed). The checks come in
/// that order: discovery, then the characteristic, then the encoding.
pub fn after_discovery(discovered: bool, ids: &Vec<u128>, payload: Option<Vec<u8>>) -> (step:
    WriteStep)
    ensures
        !discovered ==> step == WriteStep::Abort(WriteAbort::DiscoveryFailed),
        discovered && !has_config(ids@) ==> step == WriteStep::Abort(
            WriteAbort::CharacteristicMissing,
        ),
        discovered && has_config(ids@) && payload is None ==> step == WriteStep::Abort(
            WriteAbort::EncodingFailed,
        ),
        discovered && has_config(ids@) && payload is Some ==> (step matches WriteStep::Write {
            characteristic,
            payload: bytes,
        } && is_first_config(ids@, characteristic as int) && bytes@ == payload.unwrap()@),
{
    if !discovered {
        return WriteStep::Abort(WriteAbort::DiscoveryFailed);
    }
    match find_config_characteristic(ids) {
        None => WriteStep::Abort(WriteAbort::CharacteristicMissing),
        Some(i) => match payload {
            None => WriteStep::Abort(WriteAbort::EncodingFailed),
            Some(bytes) => WriteStep::Write { characteristic: i, payload: bytes },
        },
    }
}

} // verus!
