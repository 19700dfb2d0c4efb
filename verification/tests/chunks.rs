use folder_transfer::chunks::{
    chunk_range, encrypted_chunk_range, num_chunks, num_encrypted_chunks, ChunkRange, CHUNK_SIZE,
    ENCRYPTED_CHUNK_SIZE, OVERHEAD,
};

#[test]
fn constants_add_up() {
    assert_eq!(OVERHEAD, 44);
    assert_eq!(ENCRYPTED_CHUNK_SIZE, CHUNK_SIZE + OVERHEAD);
    assert_eq!(CHUNK_SIZE, 1048576);
}

#[test]
fn empty_file_has_one_chunk() {
    assert_eq!(num_chunks(0), 1);
    assert_eq!(chunk_range(0, 0), Some(ChunkRange { offset: 0, length: 0 }));
    assert_eq!(chunk_range(0, 1), None);
}

#[test]
fn chunk_count_is_the_ceiling() {
    assert_eq!(num_chunks(1), 1);
    assert_eq!(num_chunks(CHUNK_SIZE - 1), 1);
    assert_eq!(num_chunks(CHUNK_SIZE), 1);
    assert_eq!(num_chunks(CHUNK_SIZE + 1), 2);
    assert_eq!(num_chunks(2 * CHUNK_SIZE), 2);
    assert_eq!(num_chunks(3 * CHUNK_SIZE + 1), 4);
    assert_eq!(num_chunks(u64::MAX), 17592186044416);
}

#[test]
fn last_chunk_holds_the_rest() {
    let size = 3 * CHUNK_SIZE + 1;
    let n = num_chunks(size);
    let last = chunk_range(size, n - 1).unwrap();
    assert_eq!(last.offset, 3 * CHUNK_SIZE);
    assert_eq!(last.length, size - (n - 1) * CHUNK_SIZE);
    assert_eq!(last.length, 1);
    assert_eq!(chunk_range(size, n), None);
}

#[test]
fn chunk_lengths_sum_to_the_size() {
    for size in [0u64, 1, 5, CHUNK_SIZE - 1, CHUNK_SIZE, CHUNK_SIZE + 7, 5 * CHUNK_SIZE + 123] {
        let n = num_chunks(size);
        let mut total = 0u64;
        for i in 0..n {
            let range = chunk_range(size, i).unwrap();
            assert_eq!(range.offset, total);
            assert!(range.length <= CHUNK_SIZE);
            total += range.length;
        }
        assert_eq!(total, size);
    }
}

#[test]
fn full_chunks_before_the_last() {
    let size = 2 * CHUNK_SIZE + 10;
    assert_eq!(chunk_range(size, 0), Some(ChunkRange { offset: 0, length: CHUNK_SIZE }));
    assert_eq!(chunk_range(size, 1), Some(ChunkRange { offset: CHUNK_SIZE, length: CHUNK_SIZE }));
    assert_eq!(chunk_range(size, 2), Some(ChunkRange { offset: 2 * CHUNK_SIZE, length: 10 }));
}

#[test]
fn stored_file_is_read_in_encrypted_chunks() {
    assert_eq!(num_encrypted_chunks(0), 0);
    assert_eq!(encrypted_chunk_range(0, 0), None);
    assert_eq!(num_encrypted_chunks(44), 1);
    assert_eq!(encrypted_chunk_range(44, 0), Some(ChunkRange { offset: 0, length: 44 }));
    assert_eq!(num_encrypted_chunks(ENCRYPTED_CHUNK_SIZE), 1);
    assert_eq!(num_encrypted_chunks(ENCRYPTED_CHUNK_SIZE + 45), 2);
    assert_eq!(
        encrypted_chunk_range(ENCRYPTED_CHUNK_SIZE + 45, 1),
        Some(ChunkRange { offset: ENCRYPTED_CHUNK_SIZE, length: 45 })
    );
    assert_eq!(encrypted_chunk_range(ENCRYPTED_CHUNK_SIZE + 45, 2), None);
}

#[test]
fn encrypted_size_of_a_sent_file_gives_back_its_chunk_count() {
    for size in [0u64, 1, CHUNK_SIZE, CHUNK_SIZE + 1, 3 * CHUNK_SIZE + 1] {
        let n = num_chunks(size);
        let stored = size + n * OVERHEAD;
        assert_eq!(num_encrypted_chunks(stored), n);
        for i in 0..n {
            let plain = chunk_range(size, i).unwrap();
            let cipher = encrypted_chunk_range(stored, i).unwrap();
            assert_eq!(cipher.length, plain.length + OVERHEAD);
            assert_eq!(cipher.offset, plain.offset + i * OVERHEAD);
        }
    }
}
