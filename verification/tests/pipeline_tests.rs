use audio_recorder::pipeline::CHUNK_SIZE;
use audio_recorder::pipeline::Pipeline;

#[test]
fn passthrough_one_chunk_per_callback() {
    // With no converter, every callback yields exactly one chunk holding the
    // samples unchanged.
    let mut p = Pipeline::new(false);
    assert!(p.is_passthrough());
    let samples: Vec<u32> = (0..5).collect();
    let chunks = p.accept(&samples);
    assert_eq!(chunks, vec![samples.clone()]);
    assert_eq!(p.buffered(), 0);
    let chunks = p.accept(&Vec::new());
    assert_eq!(chunks, vec![Vec::new()]);
    assert_eq!(p.total_samples(), 5);
    assert_eq!(p.chunks_consumed(), 0);
}

#[test]
fn converter_chunks_are_fixed_size() {
    let mut p = Pipeline::new(true);
    assert!(!p.is_passthrough());
    let samples: Vec<u32> = (0..1500).collect();
    let chunks = p.accept(&samples);
    assert_eq!(chunks.len(), 1);
    assert_eq!(chunks[0].len(), CHUNK_SIZE);
    assert_eq!(chunks[0][..], samples[..CHUNK_SIZE]);
    assert_eq!(p.buffered(), 1500 - CHUNK_SIZE);
}

#[test]
fn short_callbacks_accumulate() {
    let mut p = Pipeline::new(true);
    for _ in 0..3 {
        let chunks = p.accept(&vec![1u32; 300]);
        assert!(chunks.is_empty());
    }
    // 900 buffered; 300 more crosses the chunk boundary.
    let chunks = p.accept(&vec![1u32; 300]);
    assert_eq!(chunks.len(), 1);
    assert_eq!(p.buffered(), 1200 - CHUNK_SIZE);
    assert_eq!(p.chunks_consumed(), 1);
}

#[test]
fn no_loss_no_duplication_across_boundaries() {
    // Concatenating every handed-out chunk plus the final buffer reproduces
    // the whole input stream, and the chunk count is the floor of
    // total / CHUNK_SIZE.
    let mut p = Pipeline::new(true);
    let mut fed: Vec<u32> = Vec::new();
    let mut out: Vec<u32> = Vec::new();
    let mut next: u32 = 0;
    for len in [0usize, 1, 1023, 1024, 1025, 700, 5000, 3, 2048] {
        let samples: Vec<u32> = (0..len).map(|_| {
            next += 1;
            next
        }).collect();
        fed.extend_from_slice(&samples);
        for chunk in p.accept(&samples) {
            assert_eq!(chunk.len(), CHUNK_SIZE);
            out.extend_from_slice(&chunk);
        }
    }
    assert_eq!(p.total_samples() as usize, fed.len());
    assert_eq!(p.chunks_consumed() as usize, fed.len() / CHUNK_SIZE);
    assert_eq!(p.buffered(), fed.len() % CHUNK_SIZE);
    let tail = &fed[out.len()..];
    assert_eq!(out[..], fed[..out.len()]);
    assert_eq!(tail.len(), p.buffered());
}

#[test]
fn exact_multiple_leaves_empty_buffer() {
    let mut p = Pipeline::new(true);
    let chunks = p.accept(&vec![9u32; 2 * CHUNK_SIZE]);
    assert_eq!(chunks.len(), 2);
    assert_eq!(p.buffered(), 0);
    assert_eq!(p.chunks_consumed(), 2);
}
