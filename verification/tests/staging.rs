//! Tests of the pure staging pieces of the write path.

use uefi_console::encoder::{has_interior_nul, stage_chunks, translate_line_feeds};

#[test]
fn translation_prepends_a_carriage_return_to_each_line_feed() {
    assert_eq!(translate_line_feeds(&vec![]), Vec::<u16>::new());
    assert_eq!(translate_line_feeds(&vec![10]), vec![13, 10]);
    assert_eq!(translate_line_feeds(&vec![97, 10, 98]), vec![97, 13, 10, 98]);
    assert_eq!(
        translate_line_feeds(&vec![10, 10, 13]),
        vec![13, 10, 13, 10, 13]
    );
}

#[test]
fn staging_an_empty_sequence_yields_one_empty_terminated_chunk() {
    assert_eq!(stage_chunks(&vec![]), vec![vec![0u16]]);
}

#[test]
fn staging_a_full_buffer_yields_a_full_chunk_and_an_empty_one() {
    let units: Vec<u16> = std::iter::repeat(7u16).take(128).collect();
    let chunks = stage_chunks(&units);
    assert_eq!(chunks.len(), 2);
    let full: Vec<u16> = std::iter::repeat(7u16).take(128).chain([0u16]).collect();
    assert_eq!(chunks[0], full);
    assert_eq!(chunks[1], vec![0u16]);
}

#[test]
fn staging_keeps_the_remainder_in_the_last_chunk() {
    let mut units: Vec<u16> = std::iter::repeat(7u16).take(128).collect();
    units.push(8);
    units.push(9);
    let chunks = stage_chunks(&units);
    assert_eq!(chunks.len(), 2);
    assert_eq!(chunks[0].len(), 129);
    assert_eq!(chunks[1], vec![8, 9, 0]);
}

#[test]
fn interior_terminator_scan_ignores_the_final_slot() {
    assert!(!has_interior_nul(&vec![0u16]));
    assert!(!has_interior_nul(&vec![5, 0]));
    assert!(has_interior_nul(&vec![0, 0]));
    assert!(has_interior_nul(&vec![5, 0, 6, 0]));
}
