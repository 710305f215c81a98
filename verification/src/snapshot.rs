//! The snapshot format: one binary record holding a device's descriptor
//! and its whole block vector. `flush` produces such a record, `load`
//! decodes one; the record layout is a type tag, the UTF-8 name with a
//! length prefix, the size and block count, then the raw blocks.

use vstd::prelude::*;
use vstd::bytes::{
    lemma_auto_spec_u64_to_from_le_bytes, spec_u64_from_le_bytes, spec_u64_to_le_bytes,
    u64_from_le_bytes, u64_to_le_bytes,
};
use vstd::utf8::{decode_utf8, encode_utf8, encode_utf8_decode_utf8, encode_utf8_valid_utf8,
    valid_utf8};
use vstd::slice::{slice_subrange, slice_to_vec};
use vstd::string::StrSliceExecFns;
use vstd::seq_lib::lemma_flatten_concat;
use crate::block_device_common::BlockDeviceType;
use crate::block_device_common::data_type::{BLOCK_SIZE, Data, DataBlock};
use crate::block_device_common::device_info::{DeviceInfo, DeviceInfoView};
use crate::error::DeviceError;

verus! {

#[verifier::external_type_specification]
#[verifier::external_body]
pub struct ExFromUtf8Error(std::string::FromUtf8Error);

/// Relies on String::from_utf8: it succeeds exactly on valid UTF-8 input,
/// and the returned string is the one whose UTF-8 bytes are that input.
pub assume_specification[ String::from_utf8 ](v: Vec<u8>) -> (r: Result<
    String,
    std::string::FromUtf8Error,
>)
    ensures
        r is Ok <==> valid_utf8(v@),
        r matches Ok(s) ==> encode_utf8(s@) == v@,
;

/// The byte tag a backend kind is recorded as.
pub open spec fn spec_type_tag(t: BlockDeviceType) -> u8 {
    match t {
        BlockDeviceType::SimpleFakeDevice => 0,
        BlockDeviceType::AsyncSimpleFakeDevice => 1,
    }
}

fn type_tag(t: BlockDeviceType) -> (r: u8)
    ensures
        r == spec_type_tag(t),
{
    match t {
        BlockDeviceType::SimpleFakeDevice => 0,
        BlockDeviceType::AsyncSimpleFakeDevice => 1,
    }
}

/// The decoded value of a snapshot record.
pub struct SnapshotView {
    pub device_type: BlockDeviceType,
    pub name: Seq<char>,
    pub device_size: u64,
    pub num_blocks: u64,
    pub blocks: Seq<Seq<u8>>,
}

/// The record's bytes for a descriptor and the byte views of its blocks.
pub open spec fn spec_encode(info: DeviceInfoView, blocks: Seq<Seq<u8>>) -> Seq<u8> {
    seq![spec_type_tag(info.device_type)] + spec_u64_to_le_bytes(
        encode_utf8(info.name).len() as u64,
    ) + encode_utf8(info.name) + spec_u64_to_le_bytes(info.device_size) + spec_u64_to_le_bytes(
        info.num_blocks,
    ) + blocks.flatten()
}

/// A flat body cut back into block-sized byte strings.
pub open spec fn spec_split_blocks(body: Seq<u8>) -> Seq<Seq<u8>> {
    Seq::new(
        (body.len() as int / (BLOCK_SIZE as int)) as nat,
        |i: int| body.subrange(i * (BLOCK_SIZE as int), (i + 1) * (BLOCK_SIZE as int)),
    )
}

/// What a snapshot record decodes to, if anything: the tag must be known,
/// the name valid UTF-8, the size aligned and consistent with the block
/// count, and the body exactly the recorded number of whole blocks.
pub open spec fn spec_decode(bytes: Seq<u8>) -> Option<SnapshotView> {
    if bytes.len() < 25 {
        None
    } else {
        let tag = bytes[0];
        let name_len = spec_u64_from_le_bytes(bytes.subrange(1, 9)) as int;
        if bytes.len() < 25 + name_len {
            None
        } else {
            let name_bytes = bytes.subrange(9, 9 + name_len);
            let device_size = spec_u64_from_le_bytes(
                bytes.subrange(9 + name_len, 17 + name_len),
            );
            let num_blocks = spec_u64_from_le_bytes(
                bytes.subrange(17 + name_len, 25 + name_len),
            );
            let body = bytes.subrange(25 + name_len, bytes.len() as int);
            if tag != 0 && tag != 1 {
                None
            } else if !valid_utf8(name_bytes) {
                None
            } else if device_size % (BLOCK_SIZE as u64) != 0 || num_blocks != device_size / (
            BLOCK_SIZE as u64) {
                None
            } else if body.len() != num_blocks * (BLOCK_SIZE as int) {
                None
            } else {
                Some(
                    SnapshotView {
                        device_type: if tag == 0 {
                            BlockDeviceType::SimpleFakeDevice
                        } else {
                            BlockDeviceType::AsyncSimpleFakeDevice
                        },
                        name: decode_utf8(name_bytes),
                        device_size,
                        num_blocks,
                        blocks: spec_split_blocks(body),
                    },
                )
            }
        }
    }
}

/// The byte views of a device's blocks.
pub open spec fn spec_block_views(data: Seq<DataBlock>) -> Seq<Seq<u8>> {
    data.map_values(|b: DataBlock| b@)
}

/// Serializes a descriptor and block vector as one snapshot record.
pub fn encode_snapshot(info: &DeviceInfo, data: &Data) -> (r: Vec<u8>)
    ensures
        r@ == spec_encode(info@, spec_block_views(data@)),
{
    let mut out: Vec<u8> = Vec::new();
    out.push(type_tag(info.device_type()));

    let name_bytes: Vec<u8> = info.name().as_str().as_bytes_vec();
    let mut len_bytes = u64_to_le_bytes(name_bytes.len() as u64);
    out.append(&mut len_bytes);
    let mut name_bytes = name_bytes;
    out.append(&mut name_bytes);

    let mut size_bytes = u64_to_le_bytes(info.device_size());
    out.append(&mut size_bytes);
    let mut count_bytes = u64_to_le_bytes(info.num_blocks());
    out.append(&mut count_bytes);

    let ghost header = out@;
    let mut i: usize = 0;
    while i < data.0.len()
        invariant
            i <= data.0.len(),
            out@ == header + spec_block_views(data@.take(i as int)).flatten(),
        decreases data.0.len() - i,
    {
        let mut block_bytes = slice_to_vec(data.0[i].0.as_slice());
        out.append(&mut block_bytes);
        proof {
            let views = spec_block_views(data@.take(i as int));
            views.lemma_flatten_push(data@[i as int]@);
            assert(spec_block_views(data@.take(i + 1 as int)) =~= views.push(data@[i as int]@));
        }
        i = i + 1;
    }
    proof {
        assert(data@.take(data@.len() as int) =~= data@);
    }
    out
}

/// Parses a snapshot record. Returns the descriptor and blocks it holds;
/// any malformed record is rejected as corrupt.
pub fn decode_snapshot(bytes: &Vec<u8>) -> (r: Result<(DeviceInfo, Data), DeviceError>)
    ensures
        spec_decode(bytes@) is None ==> r == Err::<(DeviceInfo, Data), DeviceError>(
            DeviceError::CorruptState,
        ),
        spec_decode(bytes@) matches Some(snap) ==> (r matches Ok(d) && d.0@.wf()
            && d.0@.device_type == snap.device_type && d.0@.name == snap.name
            && d.0@.device_size == snap.device_size && d.0@.num_blocks == snap.num_blocks
            && d.1@.len() == snap.num_blocks && spec_block_views(d.1@) == snap.blocks),
{
    proof {
        lemma_auto_spec_u64_to_from_le_bytes();
    }
    let n = bytes.len();
    if n < 25 {
        return Err(DeviceError::CorruptState);
    }
    let tag = bytes[0];
    let name_len_u64 = u64_from_le_bytes(slice_subrange(bytes.as_slice(), 1, 9));
    if name_len_u64 > (n - 25) as u64 {
        return Err(DeviceError::CorruptState);
    }
    let name_len = name_len_u64 as usize;

    let device_type = if tag == 0 {
        BlockDeviceType::SimpleFakeDevice
    } else if tag == 1 {
        BlockDeviceType::AsyncSimpleFakeDevice
    } else {
        return Err(DeviceError::CorruptState);
    };

    let name_vec = slice_to_vec(slice_subrange(bytes.as_slice(), 9, 9 + name_len));
    let name = match String::from_utf8(name_vec) {
        Ok(s) => s,
        Err(_) => {
            return Err(DeviceError::CorruptState);
        },
    };
    proof {
        encode_utf8_decode_utf8(name@);
    }

    let device_size = u64_from_le_bytes(
        slice_subrange(bytes.as_slice(), 9 + name_len, 17 + name_len),
    );
    let num_blocks = u64_from_le_bytes(
        slice_subrange(bytes.as_slice(), 17 + name_len, 25 + name_len),
    );
    if device_size % (BLOCK_SIZE as u64) != 0 {
        return Err(DeviceError::CorruptState);
    }
    if num_blocks != device_size / (BLOCK_SIZE as u64) {
        return Err(DeviceError::CorruptState);
    }

    let body_len = n - 25 - name_len;
    let body_ok = match num_blocks.checked_mul(BLOCK_SIZE as u64) {
        Some(expected) => (body_len as u64) == expected,
        None => false,
    };
    if !body_ok {
        return Err(DeviceError::CorruptState);
    }

    let info = match DeviceInfo::new(device_type, name, device_size) {
        Ok(i) => i,
        Err(_) => {
            return Err(DeviceError::CorruptState);
        },
    };

    let ghost body = bytes@.subrange(25 + name_len as int, bytes@.len() as int);
    let num_blocks_usize = num_blocks as usize;
    let mut blocks: Vec<DataBlock> = Vec::new();
    let mut i: usize = 0;
    while i < num_blocks_usize
        invariant
            i <= num_blocks_usize,
            num_blocks_usize == num_blocks,
            name_len <= n - 25,
            n == bytes@.len(),
            body == bytes@.subrange(25 + name_len as int, bytes@.len() as int),
            body.len() == num_blocks * (BLOCK_SIZE as int),
            blocks@.len() == i,
            forall|k: int| 0 <= k < i ==> #[trigger] blocks@[k]@ == body.subrange(
                k * (BLOCK_SIZE as int),
                (k + 1) * (BLOCK_SIZE as int),
            ),
        decreases num_blocks_usize - i,
    {
        proof {
            assert((i + 1) * (BLOCK_SIZE as int) <= num_blocks * (BLOCK_SIZE as int)) by (
            nonlinear_arith)
                requires
                    i < num_blocks,
            ;
            assert(i * (BLOCK_SIZE as int) >= 0) by (nonlinear_arith)
                requires
                    i >= 0,
            ;
        }
        let off = 25 + name_len + i * BLOCK_SIZE;
        let mut arr: [u8; BLOCK_SIZE] = [0u8; BLOCK_SIZE];
        let mut j: usize = 0;
        while j < BLOCK_SIZE
            invariant
                j <= BLOCK_SIZE,
                off == 25 + name_len + i * BLOCK_SIZE,
                off + BLOCK_SIZE <= bytes@.len(),
                bytes@.len() <= usize::MAX,
                arr@.len() == BLOCK_SIZE,
                forall|k: int| 0 <= k < j ==> arr@[k] == bytes@[off + k],
            decreases BLOCK_SIZE - j,
        {
            arr[j] = bytes[off + j];
            j = j + 1;
        }
        blocks.push(DataBlock(arr));
        proof {
            assert(arr@ =~= body.subrange(
                i * (BLOCK_SIZE as int),
                (i + 1) * (BLOCK_SIZE as int),
            ));
        }
        i = i + 1;
    }

    proof {
        let snap = spec_decode(bytes@).unwrap();
        assert(spec_block_views(blocks@) =~= snap.blocks);
    }
    Ok((info, Data(blocks)))
}

/// Every block of a device has exactly `BLOCK_SIZE` bytes, so a flattened
/// block vector has `len * BLOCK_SIZE` bytes.
pub proof fn lemma_flatten_uniform_len(blocks: Seq<Seq<u8>>)
    requires
        forall|i: int| 0 <= i < blocks.len() ==> (#[trigger] blocks[i]).len() == BLOCK_SIZE,
    ensures
        blocks.flatten().len() == blocks.len() * (BLOCK_SIZE as int),
    decreases blocks.len(),
{
    if blocks.len() == 0 {
        assert(blocks.flatten() =~= Seq::<u8>::empty());
    } else {
        assert(blocks =~= blocks.drop_last().push(blocks.last()));
        blocks.drop_last().lemma_flatten_push(blocks.last());
        lemma_flatten_uniform_len(blocks.drop_last());
        assert((blocks.len() - 1) * (BLOCK_SIZE as int) + (BLOCK_SIZE as int) == blocks.len() * (
        BLOCK_SIZE as int)) by (nonlinear_arith);
    }
}

/// Cutting a flattened block vector back at block boundaries recovers the
/// block vector.
pub proof fn lemma_split_flatten(blocks: Seq<Seq<u8>>)
    requires
        forall|i: int| 0 <= i < blocks.len() ==> (#[trigger] blocks[i]).len() == BLOCK_SIZE,
    ensures
        spec_split_blocks(blocks.flatten()) == blocks,
{
    let flat = blocks.flatten();
    lemma_flatten_uniform_len(blocks);
    assert(flat.len() as int / (BLOCK_SIZE as int) == blocks.len()) by (nonlinear_arith)
        requires
            flat.len() == blocks.len() * (BLOCK_SIZE as int),
    ;
    assert forall|i: int| 0 <= i < blocks.len() implies spec_split_blocks(flat)[i] == blocks[i] by {
        lemma_flatten_block_at(blocks, i);
    }
    assert(spec_split_blocks(flat) =~= blocks);
}

/// Within a flattened block vector, block `i` occupies exactly the bytes
/// `[i * BLOCK_SIZE, (i + 1) * BLOCK_SIZE)`.
proof fn lemma_flatten_block_at(blocks: Seq<Seq<u8>>, i: int)
    requires
        forall|k: int| 0 <= k < blocks.len() ==> (#[trigger] blocks[k]).len() == BLOCK_SIZE,
        0 <= i < blocks.len(),
    ensures
        blocks.flatten().subrange(i * (BLOCK_SIZE as int), (i + 1) * (BLOCK_SIZE as int))
            == blocks[i],
{
    let w = BLOCK_SIZE as int;
    let head = blocks.take(i);
    let tail = blocks.skip(i);
    assert(blocks =~= head + tail);
    lemma_flatten_concat(head, tail);
    lemma_flatten_uniform_len(head);
    assert(tail =~= seq![blocks[i]] + blocks.skip(i + 1));
    lemma_flatten_concat(seq![blocks[i]], blocks.skip(i + 1));
    seq![blocks[i]].lemma_flatten_one_element();
    assert(i * w + w == (i + 1) * w) by (nonlinear_arith);
    assert(blocks.flatten().subrange(i * w, (i + 1) * w) =~= blocks[i]);
}

/// The flush/load round trip at the device level: the record `flush`
/// produces for a consistent device decodes back to exactly that
/// device's descriptor and blocks, so a fresh instance's `load` of it
/// reproduces the pre-flush state.
pub proof fn lemma_flush_load_round_trip(info: DeviceInfoView, data: Seq<DataBlock>)
    requires
        info.wf(),
        data.len() == info.num_blocks,
        encode_utf8(info.name).len() <= u64::MAX,
    ensures
        spec_decode(spec_encode(info, spec_block_views(data))) matches Some(snap)
            && snap.device_type == info.device_type && snap.name == info.name
            && snap.device_size == info.device_size && snap.num_blocks == info.num_blocks
            && snap.blocks == spec_block_views(data),
{
    broadcast use vstd::array::group_array_axioms;

    assert forall|i: int| 0 <= i < spec_block_views(data).len() implies (#[trigger] spec_block_views(
        data,
    )[i]).len() == BLOCK_SIZE by {
        assert(data[i]@.len() == BLOCK_SIZE);
    }
    lemma_snapshot_round_trip(info, spec_block_views(data));
}

/// The snapshot round trip: a record built from a well-formed descriptor
/// and a matching block vector decodes back to exactly that descriptor
/// and those blocks.
pub proof fn lemma_snapshot_round_trip(info: DeviceInfoView, blocks: Seq<Seq<u8>>)
    requires
        info.wf(),
        blocks.len() == info.num_blocks,
        forall|i: int| 0 <= i < blocks.len() ==> (#[trigger] blocks[i]).len() == BLOCK_SIZE,
        encode_utf8(info.name).len() <= u64::MAX,
    ensures
        spec_decode(spec_encode(info, blocks)) == Some(
            SnapshotView {
                device_type: info.device_type,
                name: info.name,
                device_size: info.device_size,
                num_blocks: info.num_blocks,
                blocks,
            },
        ),
{
    lemma_auto_spec_u64_to_from_le_bytes();
    broadcast use encode_utf8_valid_utf8;

    let bytes = spec_encode(info, blocks);
    let name_bytes = encode_utf8(info.name);
    let name_len = name_bytes.len() as int;
    lemma_flatten_uniform_len(blocks);
    assert(bytes.len() == 25 + name_len + blocks.len() * (BLOCK_SIZE as int));
    assert(blocks.len() * (BLOCK_SIZE as int) >= 0) by (nonlinear_arith);

    assert(bytes[0] == spec_type_tag(info.device_type));
    assert(bytes.subrange(1, 9) =~= spec_u64_to_le_bytes(name_len as u64));
    assert(bytes.subrange(9, 9 + name_len) =~= name_bytes);
    assert(bytes.subrange(9 + name_len, 17 + name_len) =~= spec_u64_to_le_bytes(
        info.device_size,
    ));
    assert(bytes.subrange(17 + name_len, 25 + name_len) =~= spec_u64_to_le_bytes(
        info.num_blocks,
    ));
    assert(bytes.subrange(25 + name_len, bytes.len() as int) =~= blocks.flatten());

    encode_utf8_decode_utf8(info.name);
    lemma_split_flatten(blocks);
}

} // verus!
