//! The painter: the machine code that fills a region of target memory with the
//! canary value, and the order in which the probe is driven to run it.
//!
//! Writing a large region byte by byte over a debug link is slow. So a short
//! subroutine is written into the region itself and run on the target. It
//! paints what lies above it, and is then painted over from the host.

use vstd::prelude::*;

verus! {

/// The byte that the painted region is filled with.
pub const CANARY_VALUE: u8 = 0xAA;

/// The length of the painting subroutine, in bytes.
pub const PAINT_SUBROUTINE_LENGTH: usize = 28;

/// Why a region cannot be painted.
#[derive(Clone, Copy, Debug, PartialEq, Eq)]
pub enum RegionError {
    /// The region is smaller than the painting subroutine, which has to fit inside it.
    TooSmall,
    /// The region does not start at a multiple of 4.
    UnalignedStart,
    /// The size of the region is not a multiple of 4.
    UnalignedSize,
}

/// What keeps the painter from painting `size` bytes from `start` on, if anything does.
pub open spec fn region_error(start: int, size: int) -> Option<RegionError> {
    if size < PAINT_SUBROUTINE_LENGTH {
        Some(RegionError::TooSmall)
    } else if start % 4 != 0 {
        Some(RegionError::UnalignedStart)
    } else if size % 4 != 0 {
        Some(RegionError::UnalignedSize)
    } else {
        None
    }
}

/// Tells whether the painter can paint `size` bytes from `start` on.
pub fn check_region(start: u32, size: u32) -> (checked: Result<(), RegionError>)
    ensures
        match checked {
            Ok(_) => region_error(start as int, size as int) is None,
            Err(error) => region_error(start as int, size as int) == Some(error),
        },
{
    if size < PAINT_SUBROUTINE_LENGTH as u32 {
        Err(RegionError::TooSmall)
    } else if start % 4 != 0 {
        Err(RegionError::UnalignedStart)
    } else if size % 4 != 0 {
        Err(RegionError::UnalignedSize)
    } else {
        Ok(())
    }
}

/// The four bytes of a 32-bit `word`, least significant first.
pub open spec fn le_bytes(word: int) -> Seq<u8>
    recommends
        0 <= word <= u32::MAX,
{
    seq![
        (word % 0x100) as u8,
        (word / 0x100 % 0x100) as u8,
        (word / 0x1_0000 % 0x100) as u8,
        (word / 0x100_0000 % 0x100) as u8,
    ]
}

/// The 32-bit word that `bytes` holds at index `at`, least significant byte first.
pub open spec fn word_at(bytes: Seq<u8>, at: int) -> int
    recommends
        0 <= at,
        at + 4 <= bytes.len(),
{
    bytes[at] + 0x100 * bytes[at + 1] + 0x1_0000 * bytes[at + 2] + 0x100_0000 * bytes[at + 3]
}

/// The instructions of the painting subroutine (Thumb, two bytes each):
///
/// ``` text
///  0:  4803      ldr   r0, [pc, #12]   ; first word below
///  2:  4904      ldr   r1, [pc, #16]   ; second word
///  4:  4a04      ldr   r2, [pc, #16]   ; third word
/// loop:
///  6:  4281      cmp   r1, r0
///  8:  d001      beq.n end
///  a:  c004      stmia r0!, {r2}
///  c:  e7fb      b.n   loop
/// end:
///  e:  be00      bkpt  0x0000
/// ```
pub open spec fn paint_instructions() -> Seq<u8> {
    seq![
        0x03u8, 0x48u8,
        0x04u8, 0x49u8,
        0x04u8, 0x4au8,
        0x81u8, 0x42u8,
        0x01u8, 0xD0u8,
        0x04u8, 0xC0u8,
        0xFBu8, 0xE7u8,
        0x00u8, 0xBEu8,
    ]
}

/// As many bytes as the painting subroutine has, each of them the canary value.
pub open spec fn canary_fill() -> Seq<u8> {
    Seq::new(PAINT_SUBROUTINE_LENGTH as nat, |i: int| CANARY_VALUE)
}

/// The painting subroutine for the addresses from `start` up to `start + size`:
/// its instructions, then the three words that they load: `start`, `start + size`
/// and the pattern, which is the canary value four times.
pub open spec fn paint_subroutine_spec(start: int, size: int) -> Seq<u8>
    recommends
        0 <= start,
        0 <= size,
        start + size <= u32::MAX,
{
    paint_instructions() + le_bytes(start) + le_bytes(start + size) + seq![
        CANARY_VALUE,
        CANARY_VALUE,
        CANARY_VALUE,
        CANARY_VALUE,
    ]
}

/// The addresses that a painting subroutine stores the pattern to: from its first word up
/// to its second.
pub open spec fn painted_by(subroutine: Seq<u8>) -> Set<int> {
    Set::new(|address: int| word_at(subroutine, 16) <= address < word_at(subroutine, 20))
}

/// The little-endian bytes of `word`.
fn word_bytes(word: u32) -> (bytes: [u8; 4])
    ensures
        bytes@ == le_bytes(word as int),
{
    let b0: u8 = (word & 0xff) as u8;
    let b1: u8 = ((word >> 8) & 0xff) as u8;
    let b2: u8 = ((word >> 16) & 0xff) as u8;
    let b3: u8 = ((word >> 24) & 0xff) as u8;
    assert(word & 0xff == word % 0x100) by (bit_vector);
    assert((word >> 8) & 0xff == word / 0x100 % 0x100) by (bit_vector);
    assert((word >> 16) & 0xff == word / 0x1_0000 % 0x100) by (bit_vector);
    assert((word >> 24) & 0xff == word / 0x100_0000 % 0x100) by (bit_vector);
    let bytes: [u8; 4] = [b0, b1, b2, b3];
    assert(bytes@ =~= le_bytes(word as int));
    bytes
}

/// Creates a subroutine that paints `CANARY_VALUE` from `start` up to `start + size`.
///
/// Both `start` and `size` need to be 4-byte-aligned: the subroutine stores a word at a time
/// and stops when it meets the end address exactly.
pub fn paint_subroutine(start: u32, size: u32) -> (code: [u8; PAINT_SUBROUTINE_LENGTH])
    requires
        start % 4 == 0,
        size % 4 == 0,
        start + size <= u32::MAX,
    ensures
        code@ == paint_subroutine_spec(start as int, size as int),
{
    let end: u32 = start + size;

    let s = word_bytes(start);
    let e = word_bytes(end);

    let code: [u8; PAINT_SUBROUTINE_LENGTH] = [
        0x03, 0x48, // ldr r0, [pc, #12]
        0x04, 0x49, // ldr r1, [pc, #16]
        0x04, 0x4a, // ldr r2, [pc, #16]
        // loop:
        0x81, 0x42, // cmp r1, r0
        0x01, 0xD0, // beq.n end
        0x04, 0xC0, // stmia r0!, {r2}
        0xFB, 0xE7, // b.n loop
        // end:
        0x00, 0xBE, // bkpt 0x0000
        s[0], s[1], s[2], s[3], // .word ; start address
        e[0], e[1], e[2], e[3], // .word ; end address
        CANARY_VALUE, CANARY_VALUE, CANARY_VALUE, CANARY_VALUE, // .word ; pattern
    ];
    assert(code@ =~= paint_subroutine_spec(start as int, size as int));
    code
}

/// A word is read back from its little-endian bytes.
pub proof fn lemma_word_at_le_bytes(word: int)
    requires
        0 <= word <= u32::MAX,
    ensures
        le_bytes(word).len() == 4,
        word_at(le_bytes(word), 0) == word,
{
}

/// The three words of a painting subroutine are the start address, the end address and the
/// pattern.
pub proof fn lemma_subroutine_words(start: int, size: int)
    requires
        0 <= start,
        0 <= size,
        start + size <= u32::MAX,
    ensures
        paint_subroutine_spec(start, size).len() == PAINT_SUBROUTINE_LENGTH,
        paint_subroutine_spec(start, size).subrange(0, 16) == paint_instructions(),
        word_at(paint_subroutine_spec(start, size), 16) == start,
        word_at(paint_subroutine_spec(start, size), 20) == start + size,
        word_at(paint_subroutine_spec(start, size), 24) == 0xAAAA_AAAA,
{
    let code = paint_subroutine_spec(start, size);
    lemma_word_at_le_bytes(start);
    lemma_word_at_le_bytes(start + size);
    assert(code.subrange(0, 16) =~= paint_instructions());
    assert(code.subrange(16, 20) =~= le_bytes(start));
    assert(code.subrange(20, 24) =~= le_bytes(start + size));
    assert(word_at(code, 16) == word_at(code.subrange(16, 20), 0));
    assert(word_at(code, 20) == word_at(code.subrange(20, 24), 0));
}

} // verus!
