//! The state word of the read-write lock and the transitions of its protocol.
//!
//! The state is one 64-bit word: bits 0..30 count the readers, bits 30..60
//! count the writers (the one that holds the lock and those that wait), and bit
//! 60 tells whether the lock is in write mode.
use crate::runtime::Task;
use crate::sync::rw_locks::lock_status::LockStatus;
use vstd::prelude::*;

verus! {

/// Mask of the bits that count the readers.
pub const READERS_COUNT_MASK: u64 = 0x3FFF_FFFF;

/// Mask of the bits that count the writers.
pub const WRITERS_COUNT_MASK: u64 = 0x0FFF_FFFF_C000_0000;

/// The position of the writers' count in the word.
pub const WRITERS_COUNT_SHIFT: u64 = 30;

/// One reader, added to the word.
pub const ONE_READER: u64 = 1;

/// One writer, added to the word.
pub const ONE_WRITER: u64 = 0x4000_0000;

/// The bit that is set while the lock is in write mode.
pub const IS_WRITE_MODE_BIT: u64 = 0x1000_0000_0000_0000;

/// The largest count that the reader or writer field can hold.
pub const MAX_COUNT: u64 = 0x3FFF_FFFF;

/// The readers counted in a state word.
pub open spec fn readers_of(state: u64) -> u64 {
    state & READERS_COUNT_MASK
}

/// The writers counted in a state word.
pub open spec fn writers_of(state: u64) -> u64 {
    (state & WRITERS_COUNT_MASK) >> WRITERS_COUNT_SHIFT
}

/// Whether a state word is in write mode.
pub open spec fn write_mode_of(state: u64) -> bool {
    state & IS_WRITE_MODE_BIT != 0
}

/// A state word has no bit set above the mode bit.
pub open spec fn well_packed(state: u64) -> bool {
    state < 0x2000_0000_0000_0000
}

/// The status that a state word stands for.
pub open spec fn lock_status_spec(state: u64) -> LockStatus {
    if state == 0 {
        LockStatus::Unlocked
    } else if !write_mode_of(state) {
        LockStatus::ReadLocked(readers_of(state) as usize)
    } else {
        LockStatus::WriteLocked
    }
}

/// Adding one reader to a word whose reader count is below the maximum changes
/// that count only.
pub proof fn lemma_add_reader(s: u64)
    requires
        well_packed(s),
        readers_of(s) < MAX_COUNT,
    ensures
        well_packed((s + ONE_READER) as u64),
        readers_of((s + ONE_READER) as u64) == readers_of(s) + 1,
        writers_of((s + ONE_READER) as u64) == writers_of(s),
        write_mode_of((s + ONE_READER) as u64) == write_mode_of(s),
{
    assert(s < 0x2000_0000_0000_0000 && (s & 0x3FFF_FFFF) < 0x3FFF_FFFF ==> {
        &&& ((s + 1) as u64) < 0x2000_0000_0000_0000
        &&& ((s + 1) as u64) & 0x3FFF_FFFF == (s & 0x3FFF_FFFF) + 1
        &&& ((s + 1) as u64) & 0x0FFF_FFFF_C000_0000 == s & 0x0FFF_FFFF_C000_0000
        &&& ((s + 1) as u64) & 0x1000_0000_0000_0000 == s & 0x1000_0000_0000_0000
    }) by (bit_vector);
}

/// Removing one reader from a word that counts some changes that count only.
pub proof fn lemma_sub_reader(s: u64)
    requires
        well_packed(s),
        readers_of(s) > 0,
    ensures
        s >= ONE_READER,
        well_packed((s - ONE_READER) as u64),
        readers_of((s - ONE_READER) as u64) == readers_of(s) - 1,
        writers_of((s - ONE_READER) as u64) == writers_of(s),
        write_mode_of((s - ONE_READER) as u64) == write_mode_of(s),
{
    assert(s < 0x2000_0000_0000_0000 && (s & 0x3FFF_FFFF) > 0 ==> {
        &&& s >= 1
        &&& ((s - 1) as u64) < 0x2000_0000_0000_0000
        &&& ((s - 1) as u64) & 0x3FFF_FFFF == (s & 0x3FFF_FFFF) - 1
        &&& ((s - 1) as u64) & 0x0FFF_FFFF_C000_0000 == s & 0x0FFF_FFFF_C000_0000
        &&& ((s - 1) as u64) & 0x1000_0000_0000_0000 == s & 0x1000_0000_0000_0000
    }) by (bit_vector);
}

/// Adding one writer to a word whose writer count is below the maximum changes
/// that count only.
pub proof fn lemma_add_writer(s: u64)
    requires
        well_packed(s),
        writers_of(s) < MAX_COUNT,
    ensures
        well_packed((s + ONE_WRITER) as u64),
        readers_of((s + ONE_WRITER) as u64) == readers_of(s),
        writers_of((s + ONE_WRITER) as u64) == writers_of(s) + 1,
        write_mode_of((s + ONE_WRITER) as u64) == write_mode_of(s),
{
    assert(s < 0x2000_0000_0000_0000 && ((s & 0x0FFF_FFFF_C000_0000) >> 30u64) < 0x3FFF_FFFF
        ==> {
        &&& ((s + 0x4000_0000) as u64) < 0x2000_0000_0000_0000
        &&& ((s + 0x4000_0000) as u64) & 0x3FFF_FFFF == s & 0x3FFF_FFFF
        &&& (((s + 0x4000_0000) as u64) & 0x0FFF_FFFF_C000_0000) >> 30u64 == ((s
            & 0x0FFF_FFFF_C000_0000) >> 30u64) + 1
        &&& ((s + 0x4000_0000) as u64) & 0x1000_0000_0000_0000 == s & 0x1000_0000_0000_0000
    }) by (bit_vector);
}

/// Removing one writer from a word that counts some changes that count only.
pub proof fn lemma_sub_writer(s: u64)
    requires
        well_packed(s),
        writers_of(s) > 0,
    ensures
        s >= ONE_WRITER,
        well_packed((s - ONE_WRITER) as u64),
        readers_of((s - ONE_WRITER) as u64) == readers_of(s),
        writers_of((s - ONE_WRITER) as u64) == writers_of(s) - 1,
        write_mode_of((s - ONE_WRITER) as u64) == write_mode_of(s),
{
    assert(s < 0x2000_0000_0000_0000 && ((s & 0x0FFF_FFFF_C000_0000) >> 30u64) > 0 ==> {
        &&& s >= 0x4000_0000
        &&& ((s - 0x4000_0000) as u64) < 0x2000_0000_0000_0000
        &&& ((s - 0x4000_0000) as u64) & 0x3FFF_FFFF == s & 0x3FFF_FFFF
        &&& (((s - 0x4000_0000) as u64) & 0x0FFF_FFFF_C000_0000) >> 30u64 == ((s
            & 0x0FFF_FFFF_C000_0000) >> 30u64) - 1
        &&& ((s - 0x4000_0000) as u64) & 0x1000_0000_0000_0000 == s & 0x1000_0000_0000_0000
    }) by (bit_vector);
}

/// Setting or clearing the mode bit changes the mode only.
pub proof fn lemma_mode_bit(s: u64)
    requires
        well_packed(s),
    ensures
        well_packed(s | IS_WRITE_MODE_BIT),
        readers_of(s | IS_WRITE_MODE_BIT) == readers_of(s),
        writers_of(s | IS_WRITE_MODE_BIT) == writers_of(s),
        write_mode_of(s | IS_WRITE_MODE_BIT),
        well_packed(s & !IS_WRITE_MODE_BIT),
        readers_of(s & !IS_WRITE_MODE_BIT) == readers_of(s),
        writers_of(s & !IS_WRITE_MODE_BIT) == writers_of(s),
        !write_mode_of(s & !IS_WRITE_MODE_BIT),
{
    assert(s < 0x2000_0000_0000_0000 ==> {
        &&& (s | 0x1000_0000_0000_0000) < 0x2000_0000_0000_0000
        &&& (s | 0x1000_0000_0000_0000) & 0x3FFF_FFFF == s & 0x3FFF_FFFF
        &&& (s | 0x1000_0000_0000_0000) & 0x0FFF_FFFF_C000_0000 == s & 0x0FFF_FFFF_C000_0000
        &&& (s | 0x1000_0000_0000_0000) & 0x1000_0000_0000_0000 != 0
        &&& (s & !0x1000_0000_0000_0000u64) < 0x2000_0000_0000_0000
        &&& (s & !0x1000_0000_0000_0000u64) & 0x3FFF_FFFF == s & 0x3FFF_FFFF
        &&& (s & !0x1000_0000_0000_0000u64) & 0x0FFF_FFFF_C000_0000 == s & 0x0FFF_FFFF_C000_0000
        &&& (s & !0x1000_0000_0000_0000u64) & 0x1000_0000_0000_0000 == 0
    }) by (bit_vector);
}

/// The word of an unlocked lock counts nobody and is not in write mode; the word
/// of a lock just taken by one writer counts that writer and is in write mode.
pub proof fn lemma_unlocked_and_first_writer()
    ensures
        well_packed(0),
        readers_of(0) == 0 && writers_of(0) == 0 && !write_mode_of(0),
        well_packed(IS_WRITE_MODE_BIT | ONE_WRITER),
        readers_of(IS_WRITE_MODE_BIT | ONE_WRITER) == 0,
        writers_of(IS_WRITE_MODE_BIT | ONE_WRITER) == 1,
        write_mode_of(IS_WRITE_MODE_BIT | ONE_WRITER),
        forall|s: u64|
            well_packed(s) && readers_of(s) == 0 && writers_of(s) == 0 && !write_mode_of(s)
                ==> s == 0,
{
    assert(0u64 & 0x3FFF_FFFF == 0 && (0u64 & 0x0FFF_FFFF_C000_0000) >> 30u64 == 0 && 0u64
        & 0x1000_0000_0000_0000 == 0) by (bit_vector);
    assert({
        let w = 0x1000_0000_0000_0000u64 | 0x4000_0000u64;
        &&& w < 0x2000_0000_0000_0000
        &&& w & 0x3FFF_FFFF == 0
        &&& (w & 0x0FFF_FFFF_C000_0000) >> 30u64 == 1
        &&& w & 0x1000_0000_0000_0000 != 0
    }) by (bit_vector);
    assert forall|s: u64|
        well_packed(s) && readers_of(s) == 0 && writers_of(s) == 0 && !write_mode_of(s)
            implies s == 0 by {
        assert(s < 0x2000_0000_0000_0000 && s & 0x3FFF_FFFF == 0 && (s & 0x0FFF_FFFF_C000_0000)
            >> 30u64 == 0 && s & 0x1000_0000_0000_0000 == 0 ==> s == 0) by (bit_vector);
    }
}

} // verus!
