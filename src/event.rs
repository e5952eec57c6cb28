//! The synthetic event that every strategy distributes.

use vstd::prelude::*;

verus! {

/// Settlement status carried by a block.
#[derive(Clone, Copy, Debug, PartialEq, Eq, Structural)]
pub enum Status {
    Yes,
    No,
}

/// A block record of non-trivial size.
#[derive(Clone, Debug)]
pub struct Block {
    pub block_hash: Vec<u8>,
    pub block_number: u64,
    pub gas_price: Option<u64>,
    pub parent_block_hash: [u8; 334],
    pub sequencer_address: Option<u64>,
    pub state_root: [u8; 32],
    pub status: Status,
    pub starknet_version: Option<bool>,
}

/// The payload handed to every listener: a boxed block.
#[derive(Clone, Debug)]
pub struct SyncEvent {
    pub block: Box<Block>,
}

/// The 26 bytes that the sample block hash repeats.
pub open spec fn hash_unit() -> Seq<u8> {
    seq![21, 2, 12, 12, 1, 21, 2, 32, 32, 23, 32, 4, 34, 5, 45, 45, 43, 167, 3, 54, 5, 4, 53, 5, 45, 43]
}

/// The sample block hash: 334 bytes cycling through `hash_unit`.
pub open spec fn sample_block_hash() -> Seq<u8> {
    Seq::new(334, |i: int| hash_unit()[i % 26])
}

fn build_block_hash() -> (r: Vec<u8>)
    ensures
        r@ == sample_block_hash(),
{
    let unit: [u8; 26] = [21, 2, 12, 12, 1, 21, 2, 32, 32, 23, 32, 4, 34, 5, 45, 45, 43, 167, 3, 54, 5, 4, 53, 5, 45, 43];
    assert(unit@ =~= hash_unit());
    let mut r: Vec<u8> = Vec::new();
    let mut i: usize = 0;
    while i < 334
        invariant
            i <= 334,
            unit@ == hash_unit(),
            r@ =~= sample_block_hash().take(i as int),
        decreases 334 - i,
    {
        r.push(unit[i % 26]);
        i += 1;
    }
    r
}

/// The 334 bytes of the sample parent block hash.
pub open spec fn sample_parent_hash() -> Seq<u8> {
    seq![
        1, 21, 2, 32, 32, 23, 32, 4, 34, 5, 45, 45, 43, 167, 3, 54, 5, 4, 53, 5, 45, 43, 21,
        2, 12, 12, 1, 21, 2, 32, 32, 23, 32, 4, 34, 5, 45, 45, 43, 167, 3, 54, 5, 4, 53, 5,
        45, 43, 4, 34, 5, 45, 45, 43, 167, 3, 54, 5, 4, 53, 5, 45, 43, 21, 2, 12, 12, 1, 21,
        2, 32, 32, 23, 32, 4, 34, 5, 45, 45, 43, 167, 3, 54, 5, 4, 53, 5, 45, 43, 21, 2, 12,
        12, 21, 2, 12, 12, 1, 21, 2, 32, 32, 23, 32, 4, 34, 5, 45, 45, 43, 167, 3, 54, 5, 4,
        53, 5, 45, 43, 21, 2, 12, 12, 1, 21, 2, 32, 32, 23, 32, 4, 34, 5, 45, 45, 43, 167,
        3, 54, 5, 4, 53, 5, 45, 43, 21, 2, 12, 12, 1, 21, 2, 32, 32, 23, 32, 4, 34, 5, 45,
        45, 43, 167, 3, 54, 5, 4, 53, 5, 45, 43, 21, 2, 12, 12, 1, 21, 2, 32, 32, 23, 32,
        53, 5, 45, 43, 21, 2, 12, 12, 1, 21, 2, 32, 32, 23, 32, 4, 34, 5, 45, 45, 43, 167,
        3, 54, 5, 4, 53, 5, 45, 43, 21, 2, 12, 12, 1, 21, 2, 32, 32, 23, 32, 4, 34, 5, 45,
        45, 43, 167, 3, 54, 5, 4, 53, 5, 45, 43, 21, 2, 12, 12, 1, 21, 2, 32, 32, 23, 32, 4,
        34, 5, 45, 45, 43, 167, 3, 54, 5, 4, 53, 5, 45, 43, 21, 2, 12, 12, 1, 21, 2, 32, 32,
        23, 32, 4, 34, 5, 45, 45, 43, 167, 3, 54, 5, 4, 53, 5, 45, 43, 21, 2, 12, 12, 1, 21,
        2, 32, 32, 23, 32, 4, 34, 5, 45, 45, 43, 167, 3, 54, 5, 4, 53, 5, 45, 43, 21, 2, 12,
        12, 1, 21, 2, 32, 32, 23, 32, 4, 34, 5, 45, 45, 4, 3
    ]
}

/// The 32 ASCII bytes of the sample state root.
pub open spec fn sample_state_root() -> Seq<u8> {
    seq![
        97, 115, 100, 108, 102, 107, 106, 104, 114, 105, 101, 117, 103, 110, 118, 100, 108,
        105, 117, 102, 103, 110, 108, 107, 100, 97, 106, 110, 114, 108, 117, 110
    ]
}

/// `e` is the sample event, field by field.
pub open spec fn is_sample_event(e: SyncEvent) -> bool {
    &&& e.block.block_hash@ == sample_block_hash()
    &&& e.block.block_number == 22345
    &&& e.block.gas_price is None
    &&& e.block.parent_block_hash@ == sample_parent_hash()
    &&& e.block.sequencer_address == Some(2345u64)
    &&& e.block.state_root@ == sample_state_root()
    &&& e.block.status == Status::No
    &&& e.block.starknet_version is None
}

/// Builds the sample event that every strategy distributes.
pub fn get_event() -> (e: SyncEvent)
    ensures
        is_sample_event(e),
{
    let parent_block_hash: [u8; 334] = [
        1, 21, 2, 32, 32, 23, 32, 4, 34, 5, 45, 45, 43, 167, 3, 54, 5, 4, 53, 5, 45, 43, 21,
        2, 12, 12, 1, 21, 2, 32, 32, 23, 32, 4, 34, 5, 45, 45, 43, 167, 3, 54, 5, 4, 53, 5,
        45, 43, 4, 34, 5, 45, 45, 43, 167, 3, 54, 5, 4, 53, 5, 45, 43, 21, 2, 12, 12, 1, 21,
        2, 32, 32, 23, 32, 4, 34, 5, 45, 45, 43, 167, 3, 54, 5, 4, 53, 5, 45, 43, 21, 2, 12,
        12, 21, 2, 12, 12, 1, 21, 2, 32, 32, 23, 32, 4, 34, 5, 45, 45, 43, 167, 3, 54, 5, 4,
        53, 5, 45, 43, 21, 2, 12, 12, 1, 21, 2, 32, 32, 23, 32, 4, 34, 5, 45, 45, 43, 167,
        3, 54, 5, 4, 53, 5, 45, 43, 21, 2, 12, 12, 1, 21, 2, 32, 32, 23, 32, 4, 34, 5, 45,
        45, 43, 167, 3, 54, 5, 4, 53, 5, 45, 43, 21, 2, 12, 12, 1, 21, 2, 32, 32, 23, 32,
        53, 5, 45, 43, 21, 2, 12, 12, 1, 21, 2, 32, 32, 23, 32, 4, 34, 5, 45, 45, 43, 167,
        3, 54, 5, 4, 53, 5, 45, 43, 21, 2, 12, 12, 1, 21, 2, 32, 32, 23, 32, 4, 34, 5, 45,
        45, 43, 167, 3, 54, 5, 4, 53, 5, 45, 43, 21, 2, 12, 12, 1, 21, 2, 32, 32, 23, 32, 4,
        34, 5, 45, 45, 43, 167, 3, 54, 5, 4, 53, 5, 45, 43, 21, 2, 12, 12, 1, 21, 2, 32, 32,
        23, 32, 4, 34, 5, 45, 45, 43, 167, 3, 54, 5, 4, 53, 5, 45, 43, 21, 2, 12, 12, 1, 21,
        2, 32, 32, 23, 32, 4, 34, 5, 45, 45, 43, 167, 3, 54, 5, 4, 53, 5, 45, 43, 21, 2, 12,
        12, 1, 21, 2, 32, 32, 23, 32, 4, 34, 5, 45, 45, 4, 3
    ];
    assert(parent_block_hash@ =~= sample_parent_hash());
    let state_root: [u8; 32] = [
        97, 115, 100, 108, 102, 107, 106, 104, 114, 105, 101, 117, 103, 110, 118, 100, 108,
        105, 117, 102, 103, 110, 108, 107, 100, 97, 106, 110, 114, 108, 117, 110
    ];
    assert(state_root@ =~= sample_state_root());
    SyncEvent {
        block: Box::new(
            Block {
                block_hash: build_block_hash(),
                block_number: 22345,
                gas_price: None,
                parent_block_hash,
                sequencer_address: Some(2345),
                state_root,
                status: Status::No,
                starknet_version: None,
            },
        ),
    }
}

} // verus!
