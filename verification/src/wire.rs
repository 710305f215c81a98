//! Conversions between the wire form of block data - one byte string per
//! block - and the core's block type, and the validity check the service
//! layer applies to a write payload before it touches a device.

use vstd::prelude::*;
use vstd::slice::slice_to_vec;
use crate::block_device_common::data_type::{DataBlock, BLOCK_SIZE};

verus! {

/// Turns device blocks into their wire form, one byte string per block.
pub fn data_block_into_proto_data(data: Vec<DataBlock>) -> (r: Vec<Vec<u8>>)
    ensures
        r@.len() == data@.len(),
        forall|i: int| 0 <= i < data@.len() ==> (#[trigger] r@[i])@ == data@[i]@,
{
    let mut out: Vec<Vec<u8>> = Vec::new();
    let mut i: usize = 0;
    let n = data.len();
    while i < n
        invariant
            i <= n,
            n == data@.len(),
            out@.len() == i,
            forall|k: int| 0 <= k < i ==> (#[trigger] out@[k])@ == data@[k]@,
        decreases n - i,
    {
        out.push(slice_to_vec(data[i].0.as_slice()));
        i = i + 1;
    }
    out
}

/// Turns wire block data back into device blocks. Every byte string must
/// be exactly one block long; the service layer checks payloads before
/// converting them.
pub fn proto_data_into_data_block(data: Vec<Vec<u8>>) -> (r: Vec<DataBlock>)
    requires
        forall|i: int| 0 <= i < data@.len() ==> (#[trigger] data@[i])@.len() == BLOCK_SIZE,
    ensures
        r@.len() == data@.len(),
        forall|i: int| 0 <= i < data@.len() ==> (#[trigger] r@[i])@ == data@[i]@,
{
    let mut out: Vec<DataBlock> = Vec::new();
    let mut i: usize = 0;
    let n = data.len();
    while i < n
        invariant
            i <= n,
            n == data@.len(),
            forall|k: int| 0 <= k < data@.len() ==> (#[trigger] data@[k])@.len() == BLOCK_SIZE,
            out@.len() == i,
            forall|k: int| 0 <= k < i ==> (#[trigger] out@[k])@ == data@[k]@,
        decreases n - i,
    {
        let chunk: &Vec<u8> = &data[i];
        let mut arr: [u8; BLOCK_SIZE] = [0u8; BLOCK_SIZE];
        let mut j: usize = 0;
        while j < BLOCK_SIZE
            invariant
                j <= BLOCK_SIZE,
                chunk@.len() == BLOCK_SIZE,
                arr@.len() == BLOCK_SIZE,
                forall|k: int| 0 <= k < j ==> arr@[k] == chunk@[k],
            decreases BLOCK_SIZE - j,
        {
            arr[j] = chunk[j];
            j = j + 1;
        }
        proof {
            assert(arr@ =~= data@[i as int]@);
        }
        out.push(DataBlock(arr));
        i = i + 1;
    }
    out
}

/// Whether a write payload is usable: it must be present and every byte
/// string in it must be a whole number of blocks.
pub open spec fn spec_valid_wire_data(data: Option<Vec<Vec<u8>>>) -> bool {
    match data {
        None => false,
        Some(d) => forall|i: int|
            0 <= i < d@.len() ==> (#[trigger] d@[i])@.len() as int % (BLOCK_SIZE as int) == 0,
    }
}

/// Checks a write payload as `spec_valid_wire_data` states.
#[verifier::loop_isolation(false)]
pub fn is_valid_proto_data(data: &Option<Vec<Vec<u8>>>) -> (r: bool)
    ensures
        r == spec_valid_wire_data(*data),
{
    match data {
        None => false,
        Some(d) => {
            let mut i: usize = 0;
            let n = d.len();
            while i < n
                invariant
                    i <= n,
                    n == d@.len(),
                    forall|k: int|
                        0 <= k < i ==> (#[trigger] d@[k])@.len() as int % (BLOCK_SIZE as int)
                            == 0,
                decreases n - i,
            {
                if d[i].len() % BLOCK_SIZE != 0 {
                    return false;
                }
                i = i + 1;
            }
            true
        },
    }
}

} // verus!
