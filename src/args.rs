use vstd::prelude::*;

use crate::cbor::{CountWidth, encoded_header, push_header};

verus! {

/// The number of bytes asked for by each read call.
pub const CHUNK_SIZE: u64 = 16384;

/// The CBOR tag number that marks an opaque value descriptor.
pub const IDENTIFIER_TAG: u64 = 39;

/// The bytes of the boot image's path, `/init.wasm`.
pub open spec fn boot_filename() -> Seq<u8> {
    seq![47u8, 105, 110, 105, 116, 46, 119, 97, 115, 109]
}

/// The path of the boot image, as bytes.
pub fn boot_filename_bytes() -> (r: Vec<u8>)
    ensures
        r@ == boot_filename(),
{
    let r: Vec<u8> = vec![47u8, 105, 110, 105, 116, 46, 119, 97, 115, 109];
    assert(r@ =~= boot_filename());
    r
}

/// The arguments of `open`: an array of one text string, the boot image's path.
pub open spec fn open_args_spec() -> Seq<u8> {
    encoded_header(4, CountWidth::Inline, 1) + encoded_header(3, CountWidth::One, 10)
        + boot_filename()
}

/// The arguments of `read`: an array of the descriptor, tagged as an identifier, and the chunk
/// size, both as four-byte unsigned integers.
pub open spec fn read_args_spec(descriptor: u32) -> Seq<u8> {
    encoded_header(4, CountWidth::Inline, 2) + encoded_header(6, CountWidth::One, IDENTIFIER_TAG)
        + encoded_header(0, CountWidth::Four, descriptor as u64) + encoded_header(
        0,
        CountWidth::Four,
        CHUNK_SIZE,
    )
}

/// Encodes the arguments of the call that opens the boot image.
pub fn open_args() -> (r: Vec<u8>)
    ensures
        r@ == open_args_spec(),
{
    let mut r: Vec<u8> = Vec::new();
    push_header(&mut r, 4, CountWidth::Inline, 1);
    proof {
        reveal_with_fuel(crate::cbor::byte_bound, 2);
    }
    push_header(&mut r, 3, CountWidth::One, 10);
    let name = boot_filename_bytes();
    let mut i: usize = 0;
    let ghost start = r@;
    while i < name.len()
        invariant
            i <= name@.len(),
            r@ == start + name@.subrange(0, i as int),
        decreases name@.len() - i,
    {
        r.push(name[i]);
        assert(name@.subrange(0, i as int + 1) =~= name@.subrange(0, i as int).push(name@[i as int]));
        i = i + 1;
    }
    assert(name@.subrange(0, name@.len() as int) =~= name@);
    assert(r@ =~= open_args_spec());
    r
}

/// Encodes the arguments of a call that reads the next chunk from the open file `descriptor`.
pub fn read_args(descriptor: u32) -> (r: Vec<u8>)
    ensures
        r@ == read_args_spec(descriptor),
{
    proof {
        crate::cbor::lemma_byte_bound_values();
    }
    let mut r: Vec<u8> = Vec::new();
    push_header(&mut r, 4, CountWidth::Inline, 2);
    push_header(&mut r, 6, CountWidth::One, IDENTIFIER_TAG);
    push_header(&mut r, 0, CountWidth::Four, descriptor as u64);
    push_header(&mut r, 0, CountWidth::Four, CHUNK_SIZE);
    assert(r@ =~= read_args_spec(descriptor));
    r
}

} // verus!
