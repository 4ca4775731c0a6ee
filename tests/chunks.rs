use fileshare::chunk::{chunk_payload, plan, range_for, DEFAULT_CHUNK_SIZE};

const MIB: u64 = 1024 * 1024;

#[test]
fn empty_file_has_no_chunks() {
    assert_eq!(plan(0, MIB).total_chunks, 0);
    assert_eq!(plan(0, 1).total_chunks, 0);
}

#[test]
fn exact_chunk_is_one_chunk() {
    let p = plan(MIB, MIB);
    assert_eq!(p.total_chunks, 1);
    assert_eq!(p.range_for(0), (0, MIB));
}

#[test]
fn one_byte_over_makes_second_chunk_of_one_byte() {
    let p = plan(MIB + 1, MIB);
    assert_eq!(p.total_chunks, 2);
    assert_eq!(p.range_for(0), (0, MIB));
    let (s, e) = p.range_for(1);
    assert_eq!((s, e), (MIB, MIB + 1));
    assert_eq!(e - s, 1);
}

#[test]
fn two_and_a_half_mib_is_three_chunks() {
    let size = 2 * MIB + MIB / 2;
    assert_eq!(size, 2_621_440);
    let p = plan(size, DEFAULT_CHUNK_SIZE);
    assert_eq!(p.total_chunks, 3);
    assert_eq!(range_for(2, size, MIB), (2 * MIB, size));
}

#[test]
fn ceil_division() {
    assert_eq!(plan(10, 3).total_chunks, 4);
    assert_eq!(plan(9, 3).total_chunks, 3);
    assert_eq!(plan(1, 1000).total_chunks, 1);
    assert_eq!(plan(u64::MAX, 1).total_chunks, u64::MAX);
    assert_eq!(plan(u64::MAX, u64::MAX).total_chunks, 1);
    assert_eq!(plan(u64::MAX, 2).total_chunks, u64::MAX / 2 + 1);
}

#[test]
fn ranges_partition_the_file() {
    for &(s, c) in &[(0u64, 1u64), (1, 1), (10, 3), (9, 3), (100, 7), (5, 10), (64, 8)] {
        let p = plan(s, c);
        let mut covered = 0u64;
        for i in 0..p.total_chunks {
            let (start, end) = range_for(i, s, c);
            assert_eq!(start, covered);
            assert!(start < end);
            assert!(end - start <= c);
            covered = end;
        }
        assert_eq!(covered, s);
    }
}

#[test]
fn last_range_near_u64_max() {
    let p = plan(u64::MAX, 1 << 63);
    assert_eq!(p.total_chunks, 2);
    assert_eq!(p.range_for(1), (1 << 63, u64::MAX));
}

#[test]
fn payloads_concatenate_to_content() {
    let content: Vec<u8> = (0..=250u8).collect();
    let p = plan(content.len() as u64, 16);
    let mut joined = Vec::new();
    for i in 0..p.total_chunks {
        let part = chunk_payload(&content, 16, i);
        assert!(part.len() <= 16);
        joined.extend_from_slice(&part);
    }
    assert_eq!(joined, content);
    assert_eq!(chunk_payload(&content, 16, 15), content[240..].to_vec());
}
