use timg_rust::chunk::{average_chunk_len, sanitize_chunk_size, Base64Chunks};

#[test]
fn empty_input_yields_single_empty_chunk() {
    let chunks = Base64Chunks::new(&[], 1024);
    let collected: Vec<String> = chunks.chunks();
    assert_eq!(chunks.len(), 1);
    assert_eq!(collected, vec![String::new()]);
}

#[test]
fn chunking_respects_requested_size() {
    let data = vec![0u8; 8192];
    let chunks = Base64Chunks::new(&data, 1024);
    let pieces: Vec<String> = chunks.chunks();
    assert!(pieces.len() > 1);
    for piece in &pieces[..pieces.len() - 1] {
        assert_eq!(piece.len() % 4, 0);
        assert!(piece.len() <= sanitize_chunk_size(1024));
    }
}

#[test]
fn sanitize_rounds_up_to_multiple_of_four() {
    assert_eq!(sanitize_chunk_size(1), 4);
    assert_eq!(sanitize_chunk_size(6), 8);
    assert_eq!(sanitize_chunk_size(8), 8);
}

#[test]
fn chunk_contents_are_base64_pieces() {
    let data = b"0123456789";
    let chunks = Base64Chunks::new(data, 5);
    let pieces: Vec<String> = chunks.chunks();
    assert_eq!(pieces, vec!["MDEyMzQ1".to_string(), "Njc4OQ==".to_string()]);
    assert_eq!(chunks.encoded_len(), 16);
}

#[test]
fn chunk_at_matches_chunks() {
    let data = b"0123456789";
    let chunks = Base64Chunks::new(data, 5);
    assert_eq!(chunks.chunk_at(0), "MDEyMzQ1");
    assert_eq!(chunks.chunk_at(1), "Njc4OQ==");
}

#[test]
fn average_chunk_len_rounds_up() {
    let data = b"0123456789";
    let chunks = Base64Chunks::new(data, 5);
    assert_eq!(average_chunk_len(&chunks), 8);
    let empty = Base64Chunks::new(&[], 16);
    assert_eq!(average_chunk_len(&empty), 0);
}
