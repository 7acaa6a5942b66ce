//! Geometry of the trace buffer and extraction of the recorded addresses.
//!
//! The kernel and the process share one region of `KCOV_BUF_LEN` bytes, seen
//! here as machine words: word 0 holds the number of addresses recorded so
//! far, the words behind it hold the addresses themselves.

use vstd::prelude::*;

verus! {

/// Size of the shared trace buffer, in bytes.
pub const KCOV_BUF_LEN: usize = 8 * 1024 * 1024;

/// Bytes in one machine word.
pub open spec fn word_bytes() -> nat {
    vstd::layout::size_of::<usize>()
}

/// Words in the trace buffer: the capacity that is negotiated with the kernel.
pub open spec fn capacity_words() -> nat {
    KCOV_BUF_LEN as nat / word_bytes()
}

/// Addresses that fit behind the count word.
pub open spec fn entry_capacity() -> nat {
    (capacity_words() - 1) as nat
}

/// The count slot: the first word of the buffer, which holds the number of
/// addresses recorded so far.
pub open spec fn count_slot(words: Seq<usize>) -> usize {
    words[0]
}

/// The entries slot: every word behind the count slot.
pub open spec fn entries_slot(words: Seq<usize>) -> Seq<usize> {
    words.subrange(1, words.len() as int)
}

/// The buffer invariant: there is a count slot, and the count it holds does
/// not exceed the number of entries behind it.
pub open spec fn well_formed(words: Seq<usize>) -> bool {
    words.len() >= 1 && count_slot(words) <= entries_slot(words).len()
}

/// The addresses a buffer reports: the first `count` entries.
pub open spec fn recorded(words: Seq<usize>) -> Seq<usize> {
    entries_slot(words).take(count_slot(words) as int)
}

/// The buffer with its count reset and every entry untouched.
pub open spec fn cleared(words: Seq<usize>) -> Seq<usize> {
    words.update(0, 0)
}

/// A machine word is four or eight bytes wide, and the buffer is a whole
/// number of words.
pub proof fn buffer_is_whole_words()
    ensures
        word_bytes() == 4 || word_bytes() == 8,
        capacity_words() * word_bytes() == KCOV_BUF_LEN,
        word_bytes() == 8 ==> capacity_words() == 1_048_576,
        word_bytes() == 4 ==> capacity_words() == 2_097_152,
        entry_capacity() + 1 == capacity_words(),
{
    broadcast use vstd::layout::layout_of_primitives;

}

/// Bytes in one machine word.
pub fn word_size() -> (n: usize)
    ensures
        n == word_bytes(),
        n == 4 || n == 8,
{
    proof {
        buffer_is_whole_words();
    }
    std::mem::size_of::<usize>()
}

/// Words in the trace buffer.
pub fn capacity() -> (n: usize)
    ensures
        n == capacity_words(),
        n * word_bytes() == KCOV_BUF_LEN,
{
    proof {
        buffer_is_whole_words();
    }
    KCOV_BUF_LEN / word_size()
}

/// Parts the buffer into its two slots: the count, and the entries behind
/// it.
pub fn partition(words: &[usize]) -> (slots: (usize, &[usize]))
    requires
        words@.len() >= 1,
    ensures
        slots.0 == count_slot(words@),
        slots.1@ == entries_slot(words@),
{
    (words[0], &words[1..words.len()])
}

/// Tells whether a buffer satisfies the invariant that `covers` relies on.
pub fn in_bounds(words: &[usize]) -> (ok: bool)
    ensures
        ok == well_formed(words@),
{
    if words.len() == 0 {
        return false;
    }
    let (count, entries) = partition(words);
    count <= entries.len()
}

/// Resets the count slot, so that nothing recorded earlier is reported
/// again. Whatever the count was, it is zero afterwards; no entry changes,
/// and the buffer reports no address until something is recorded.
pub fn clear(words: &mut [usize])
    requires
        old(words)@.len() >= 1,
    ensures
        final(words)@ == cleared(old(words)@),
        final(words)@.len() == old(words)@.len(),
        count_slot(final(words)@) == 0,
        entries_slot(final(words)@) == entries_slot(old(words)@),
        well_formed(final(words)@),
        recorded(final(words)@) == Seq::<usize>::empty(),
{
    words[0] = 0;
}

/// The recorded addresses: the first `count` entries, where `count` is what
/// the count slot holds now.
pub fn covers(words: &[usize]) -> (view: &[usize])
    requires
        well_formed(words@),
    ensures
        view@ == recorded(words@),
        view@.len() == count_slot(words@),
        view@.len() <= words@.len() - 1,
{
    let (count, entries) = partition(words);
    &entries[0..count]
}

/// A buffer that nothing wrote to since it was cleared reports no address,
/// whatever it held before.
pub proof fn cleared_buffer_reports_nothing(before: Seq<usize>)
    requires
        before.len() >= 1,
    ensures
        well_formed(cleared(before)),
        recorded(cleared(before)) == Seq::<usize>::empty(),
{
}

} // verus!
