use kcov_rs::layout::{capacity, clear, covers, in_bounds, partition, word_size};
use kcov_rs::KCOV_BUF_LEN;

#[test]
fn buffer_is_eight_mebibytes() {
    assert_eq!(KCOV_BUF_LEN, 8_388_608);
}

#[test]
fn word_size_is_that_of_the_machine() {
    assert_eq!(word_size(), std::mem::size_of::<usize>());
    assert_eq!(word_size() * 8, usize::BITS as usize);
}

#[test]
fn capacity_counts_words_not_bytes() {
    assert_eq!(capacity() * word_size(), 8_388_608);
    if word_size() == 8 {
        assert_eq!(capacity(), 1_048_576);
    } else {
        assert_eq!(capacity(), 2_097_152);
    }
}

#[test]
fn clear_resets_the_count_and_nothing_else() {
    let mut words = [3usize, 10, 20, 30, 40];
    clear(&mut words);
    assert_eq!(words, [0, 10, 20, 30, 40]);
}

#[test]
fn clear_of_a_cleared_buffer_changes_nothing() {
    let mut words = [0usize, 7];
    clear(&mut words);
    assert_eq!(words, [0, 7]);
}

#[test]
fn clear_accepts_any_earlier_count() {
    let mut words = [usize::MAX, 1, 2];
    clear(&mut words);
    assert_eq!(words, [0, 1, 2]);
    assert!(covers(&words).is_empty());
}

#[test]
fn covers_takes_the_counted_words_behind_the_count() {
    let words = [2usize, 10, 20, 30, 40];
    assert_eq!(covers(&words), &[10usize, 20][..]);
}

#[test]
fn covers_of_a_zero_count_is_empty() {
    let words = [0usize, 10, 20];
    assert!(covers(&words).is_empty());
    let only_count = [0usize];
    assert!(covers(&only_count).is_empty());
}

#[test]
fn covers_of_a_full_buffer_takes_every_entry() {
    let words = [4usize, 10, 20, 30, 40];
    assert_eq!(covers(&words), &[10usize, 20, 30, 40][..]);
}

#[test]
fn in_bounds_accepts_counts_up_to_the_entries() {
    assert!(in_bounds(&[0usize]));
    assert!(in_bounds(&[0usize, 1, 2]));
    assert!(in_bounds(&[2usize, 1, 2]));
}

#[test]
fn in_bounds_rejects_a_count_beyond_the_entries() {
    assert!(!in_bounds(&[3usize, 1, 2]));
    assert!(!in_bounds(&[1usize]));
    assert!(!in_bounds(&[usize::MAX, 1, 2]));
}

#[test]
fn in_bounds_rejects_a_buffer_without_a_count() {
    let empty: [usize; 0] = [];
    assert!(!in_bounds(&empty));
}

#[test]
fn partition_splits_count_from_entries() {
    let words = [2usize, 10, 20, 30];
    let (count, entries) = partition(&words);
    assert_eq!(count, 2);
    assert_eq!(entries, &[10usize, 20, 30][..]);
}

#[test]
fn partition_of_a_lone_count_has_no_entries() {
    let words = [0usize];
    let (count, entries) = partition(&words);
    assert_eq!(count, 0);
    assert!(entries.is_empty());
}
