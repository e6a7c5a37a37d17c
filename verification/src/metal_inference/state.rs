//! State of a sequence that a Metal device keeps.

use vstd::prelude::*;

verus! {

/// Drops what the device keeps of a sequence. At the start of another sequence the rows
/// of the last one would else stand for its own.
pub fn metal_clear_sequence_state<D: FnOnce()>(device: D) -> (cleared: Result<(), String>)
    requires
        call_requires(device, ()),
    ensures
        cleared == Ok::<(), String>(()),
        call_ensures(device, (), ()),
{
    device();
    Ok(())
}

/// Brings a layer's delta state, as bit patterns, from the device to `out`. Of a layer
/// without such a state nothing is written.
pub fn metal_sync_delta_state<D: FnOnce(usize) -> Option<Vec<u32>>>(
    layer: usize,
    out: &mut Vec<u32>,
    device: D,
) -> (synced: Result<bool, String>)
    requires
        call_requires(device, (layer,)),
    ensures
        exists|reply: Option<Vec<u32>>| #[trigger]
            call_ensures(device, (layer,), reply) && match reply {
                Some(state) => {
                    &&& synced == Ok::<bool, String>(true)
                    &&& final(out)@ == state@
                },
                None => {
                    &&& synced == Ok::<bool, String>(false)
                    &&& final(out)@ == old(out)@
                },
            },
{
    let reply = device(layer);
    match reply {
        Some(state) => {
            *out = state;
            Ok(true)
        },
        None => Ok(false),
    }
}

/// How many rows of a layer's attention the device keeps, if it keeps any.
pub fn metal_attn_carrier_kv_filled<D: FnOnce(usize) -> Option<usize>>(
    layer: usize,
    device: D,
) -> (filled: Option<usize>)
    requires
        call_requires(device, (layer,)),
    ensures
        call_ensures(device, (layer,), filled),
{
    device(layer)
}

} // verus!
