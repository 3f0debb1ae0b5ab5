//! Sign extension, wrapping sums and the loading of program images.

use byteorder::{BigEndian, ByteOrder};
use vstd::prelude::*;
use vstd::arithmetic::div_mod::{lemma_mod_multiples_vanish, lemma_small_mod};
use vstd::arithmetic::power2::{
    lemma2_to64, lemma_pow2_adds, lemma_pow2_pos, lemma_pow2_strictly_increases,
    lemma_pow2_unfold, pow2,
};
use vstd::bits::lemma_u32_shl_is_mul;
use vstd::slice::slice_subrange;

use crate::constants::{MEMORY_SIZE, R_COUNT};
use crate::memory::Memory;
use crate::registers::{with_flags, Registers};
use crate::vm_error::VmError;

verus! {

/// The two's-complement number held in the low bits of `word`, `modulus`
/// being two to the power of the number of those bits: the bits above them
/// are not looked at.
pub open spec fn signed_field(word: u16, modulus: int) -> int {
    let low = word as int % modulus;
    if low >= modulus / 2 {
        low - modulus
    } else {
        low
    }
}

/// The number that the low `bit_count` bits of `x` stand for in two's
/// complement: bit `bit_count - 1` is the sign.
pub open spec fn sign_extended(x: u16, bit_count: u16) -> int
    recommends
        1 <= bit_count <= 16,
{
    signed_field(x, pow2(bit_count as nat) as int)
}

/// The 16-bit word that the integer `v` wraps to.
pub open spec fn wrap16(v: int) -> u16 {
    (v % 0x10000) as u16
}

/// The 16-bit word that two bytes spell in big-endian order, the high byte
/// first.
pub open spec fn be_word(high: u8, low: u8) -> u16 {
    (high * 256 + low) as u16
}

/// The address at which an image asks to be loaded: the big-endian word
/// that its first two bytes spell.
pub open spec fn image_origin(image: Seq<u8>) -> u16
    recommends
        image.len() >= 2,
{
    be_word(image[0], image[1])
}

/// The number of words that an image holds behind its origin. A last odd
/// byte is no word.
pub open spec fn image_len(image: Seq<u8>) -> int
    recommends
        image.len() >= 2,
{
    (image.len() - 2) / 2
}

/// The word at position `k` of an image, the first word behind the origin
/// being at position 0.
pub open spec fn image_word(image: Seq<u8>, k: int) -> u16
    recommends
        0 <= k < image_len(image),
{
    be_word(image[2 + 2 * k], image[3 + 2 * k])
}

/// The memory `mem` with the first `count` words of an image placed at
/// consecutive addresses from the origin of the image on. A word whose
/// address would lie beyond the end of the memory is placed nowhere.
pub open spec fn loaded_words(mem: Seq<u16>, image: Seq<u8>, count: int) -> Seq<u16> {
    Seq::new(
        mem.len(),
        |a: int|
            if image_origin(image) <= a < image_origin(image) + count {
                image_word(image, a - image_origin(image))
            } else {
                mem[a]
            },
    )
}

/// The memory `mem` with all the words of an image placed in it.
pub open spec fn loaded(mem: Seq<u16>, image: Seq<u8>) -> Seq<u16> {
    loaded_words(mem, image, image_len(image))
}

/// Whether an image fits in the memory: whether it holds its origin and
/// none of its words would lie beyond the last address.
pub open spec fn image_fits(image: Seq<u8>) -> bool {
    image.len() >= 2 && image_origin(image) + image_len(image) <= MEMORY_SIZE
}

/// Decodes a big-endian word with `BigEndian::read_u16` of the crate
/// byteorder, which reads the first two bytes of the slice and panics on a
/// shorter one: the result is the first byte times 256 plus the second.
#[verifier::external_body]
fn read_u16_be(buf: &[u8]) -> (word: u16)
    requires
        buf@.len() >= 2,
    ensures
        word == be_word(buf@[0], buf@[1]),
{
    BigEndian::read_u16(buf)
}

/// Reads the contents of an image file into memory. The image is expected to start with
/// a 16-bit address indicating where in memory the data should be loaded, followed by
/// 16-bit instructions to be stored sequentially in memory, all of them
/// big-endian. A last odd byte is ignored.
///
/// An image of less than two bytes holds no origin: it is refused and the
/// memory is left as it was. An image with more words than lie between its
/// origin and the end of the memory is refused too, once the words that
/// fit have been written: the address does not wrap.
pub fn read_image_file(image: &[u8], memory: &mut Memory) -> (res: Result<(), VmError>)
    ensures
        image_fits(image@) <==> res is Ok,
        image@.len() < 2 ==> (res matches Err(VmError::FailedToReadBigEndian(msg)) && msg@
            == "failed to fill whole buffer"@) && *final(memory) == *old(memory),
        image@.len() >= 2 ==> final(memory)@ == loaded(old(memory)@, image@),
        image@.len() >= 2 && !image_fits(image@) ==> (res matches Err(
            VmError::FailedToReadBigEndian(msg),
        ) && msg@ == "Address overflow while reading image file"@),
{
    if image.len() < 2 {
        return Err(VmError::FailedToReadBigEndian("failed to fill whole buffer".to_string()));
    }
    let origin = read_u16_be(slice_subrange(image, 0, 2));
    let mut address: Option<u16> = Some(origin);
    let mut at: usize = 2;
    let ghost mut count: int = 0;
    assert(memory@ =~= loaded_words(old(memory)@, image@, 0));
    while image.len() - at >= 2
        invariant
            2 <= at <= image@.len(),
            at == 2 + 2 * count,
            origin == image_origin(image@),
            0 <= count <= image_len(image@),
            origin + count <= MEMORY_SIZE,
            address == (if origin + count < MEMORY_SIZE {
                Some((origin + count) as u16)
            } else {
                None::<u16>
            }),
            memory@.len() == MEMORY_SIZE,
            memory@ == loaded_words(old(memory)@, image@, count),
        decreases image@.len() - at,
    {
        let instr = read_u16_be(slice_subrange(image, at, at + 2));
        match address {
            Some(a) => {
                memory.write(a, instr);
                address = a.checked_add(1);
            },
            None => {
                assert(memory@ =~= loaded(old(memory)@, image@));
                return Err(
                    VmError::FailedToReadBigEndian(
                        "Address overflow while reading image file".to_string(),
                    ),
                );
            },
        }
        at += 2;
        proof {
            count = count + 1;
            assert(memory@ =~= loaded_words(old(memory)@, image@, count));
        }
    }
    Ok(())
}

/// Sign-extends a value based on a given bit count: the low `bit_count` bits
/// of `x` are read as a two's-complement number, and the result is that
/// number.
pub fn sign_extend(x: u16, bit_count: u16) -> (res: i16)
    requires
        1 <= bit_count <= 16,
    ensures
        res as int == sign_extended(x, bit_count),
{
    proof {
        lemma2_to64();
        lemma_pow2_unfold(bit_count as nat);
        if bit_count < 16 {
            lemma_pow2_strictly_increases(bit_count as nat, 16);
        }
        lemma_u32_shl_is_mul(1u32, bit_count as u32);
    }
    let modulus: u32 = 1u32 << (bit_count as u32);
    let low: u32 = (x as u32) % modulus;
    if low >= modulus / 2 {
        (low as i32 - modulus as i32) as i16
    } else {
        low as i16
    }
}

/// Sign extension is idempotent: the 16-bit pattern of a sign-extended
/// value, sign-extended again from the same number of bits, is that value.
pub proof fn lemma_sign_extend_idempotent(x: u16, bit_count: u16)
    requires
        1 <= bit_count <= 16,
    ensures
        sign_extended(wrap16(sign_extended(x, bit_count)), bit_count) == sign_extended(
            x,
            bit_count,
        ),
{
    let m = pow2(bit_count as nat) as int;
    let q = pow2((16 - bit_count) as nat) as int;
    let low = x as int % m;
    let value = sign_extended(x, bit_count);
    lemma2_to64();
    lemma_pow2_pos(bit_count as nat);
    lemma_pow2_pos((16 - bit_count) as nat);
    lemma_pow2_unfold(bit_count as nat);
    lemma_pow2_adds(bit_count as nat, (16 - bit_count) as nat);
    assert(m * q == 0x10000);
    assert(m <= 0x10000) by (nonlinear_arith)
        requires
            m * q == 0x10000,
            m > 0,
            q > 0,
    ;
    let word = wrap16(value) as int;
    if value >= 0 {
        assert(word == low);
        lemma_small_mod(low as nat, m as nat);
    } else {
        assert(word == low - m + 0x10000);
        assert(word == m * (q - 1) + low) by (nonlinear_arith)
            requires
                word == low - m + 0x10000,
                m * q == 0x10000,
        ;
        lemma_mod_multiples_vanish(q - 1, low, m);
        lemma_small_mod(low as nat, m as nat);
    }
    assert(word % m == low);
}

/// Sums wrap at the 16-bit boundary: the sum of a word and of a signed
/// offset that runs past the last word starts again from zero, and one that
/// falls below zero goes on down from the last word.
pub proof fn lemma_sum_wraps(base: u16, offset: int)
    requires
        -0x8000 <= offset < 0x8000,
    ensures
        0 <= base + offset < 0x10000 ==> wrap16(base + offset) == base + offset,
        base + offset >= 0x10000 ==> wrap16(base + offset) == base + offset - 0x10000,
        base + offset < 0 ==> wrap16(base + offset) == base + offset + 0x10000,
{
}

/// Adds a signed offset to a 16-bit word, wrapping at the 16-bit boundary.
pub fn add_offset(base: u16, offset: i16) -> (res: u16)
    ensures
        res == wrap16(base + offset),
{
    base.wrapping_add_signed(offset)
}

/// The 16-bit pattern of a signed word: the word itself if it is not
/// negative, else the word plus two to the sixteenth.
pub fn to_word(value: i16) -> (res: u16)
    ensures
        res == wrap16(value as int),
{
    assert(value as u16 == (if value < 0 {
        (value + 0x10000) as u16
    } else {
        value as u16
    })) by (bit_vector);
    value as u16
}

/// Updates the condition flags in the `Registers` struct from the value
/// that register `r` holds.
pub fn update_flags(registers: &mut Registers, r: u16) -> (res: Result<(), VmError>)
    ensures
        r < R_COUNT ==> res is Ok && final(registers)@ == with_flags(old(registers)@, r as int),
        r >= R_COUNT ==> (res matches Err(VmError::InvalidRegister(msg)) && msg@
            == "Invalid registers at get"@) && *final(registers) == *old(registers),
{
    registers.update_flags(r)
}

} // verus!
