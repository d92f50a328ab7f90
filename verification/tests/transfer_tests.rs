use archdrop::receive::write_chunk_at;
use base64::Engine;
use archdrop::send::CompletionOutcome;
use archdrop::{
    chunk_bounds, chunks_for_size, claim_or_validate_session, encrypt_chunk_at_position,
    get_transfer_config, require_active_session, AppError, EncryptionKey, FileEntry, Manifest,
    Nonce, ProgressTracker, ReceiveSession, SendSession, ServerMode, Session, SessionStore,
    TransferConfig,
};

const MIB: u64 = 1024 * 1024;

fn config(chunk_size: u64) -> TransferConfig {
    TransferConfig { chunk_size, concurrency: 8 }
}

fn entry(index: u32, name: &str, size: u64, nonce: Nonce) -> FileEntry {
    FileEntry { index, name: name.to_string(), full_path: name.to_string(), size, nonce }
}

fn clone_key(key: &EncryptionKey) -> EncryptionKey {
    EncryptionKey::from_bytes(key.bytes().clone()).unwrap()
}

fn clone_nonce(nonce: &Nonce) -> Nonce {
    Nonce::from_bytes(nonce.bytes().clone()).unwrap()
}

#[test]
fn test_send_three_chunk_file() {
    // A 25 MiB file under 10 MiB chunks: three chunks, the last one 5 MiB.
    let manifest = Manifest::new(
        vec![entry(0, "big.bin", 25 * MIB, Nonce::new())],
        config(10 * MIB),
    );
    let total = manifest.total_chunks().unwrap();
    assert_eq!(total, 3);

    let mut session = SendSession::new(manifest, EncryptionKey::new(), total);
    let token = session.token().to_string();
    assert!(session.claim(&token, "client_a"));

    let mut progress = ProgressTracker::new(total);
    for j in 0..3usize {
        let plan = session.prepare_chunk(&token, "client_a", 0, j).unwrap();
        assert_eq!(plan.start, j as u64 * 10 * MIB);
        let expected_len = if j == 2 { 5 * MIB } else { 10 * MIB };
        assert_eq!(plan.len, expected_len);
        assert!(plan.fresh);
        if plan.fresh {
            progress.increment();
        }
    }
    assert_eq!(session.get_chunks_sent(), 3);
    assert_eq!(session.unique_chunks_sent(), 3);

    // Three of three chunks still reads 99 until completion is explicit.
    assert_eq!(progress.current_percent(), 99);
    progress.complete();
    assert_eq!(progress.current_percent(), 100);

    // A fourth request is out of range.
    let err = session.prepare_chunk(&token, "client_a", 0, 3).unwrap_err();
    assert_eq!(err.status_code(), 400);
}

#[test]
fn test_sequential_fetch_decrypts_exactly() {
    // The same three-chunk shape at a small scale: 25 bytes in 10-byte
    // chunks, fetched in order and decrypted by the client.
    let file: Vec<u8> = (0u32..25).map(|i| (i % 251) as u8).collect();
    let nonce = Nonce::new();
    let manifest = Manifest::new(
        vec![entry(0, "small.bin", 25, clone_nonce(&nonce))],
        config(10),
    );
    let total = manifest.total_chunks().unwrap();
    assert_eq!(total, 3);

    let mut session = SendSession::new(manifest, EncryptionKey::new(), total);
    let token = session.token().to_string();
    assert!(session.claim(&token, "client_a"));

    // The client only ever sees the base64 key from the URL fragment.
    let key_b64 = session.session_key_b64();
    let key_bytes = base64::engine::general_purpose::STANDARD.decode(&key_b64).unwrap();
    let client_key = EncryptionKey::from_bytes(key_bytes).unwrap();

    let mut reassembled: Vec<u8> = Vec::new();
    for j in 0..3usize {
        let plan = session.prepare_chunk(&token, "client_a", 0, j).unwrap();
        let start = plan.start as usize;
        let chunk = &file[start..start + plan.len as usize];
        let ciphertext = session.encrypt_chunk(0, j, chunk).unwrap();
        let plain =
            archdrop::decrypt_chunk_at_position(&client_key, &nonce, &ciphertext, j as u32)
                .unwrap();
        reassembled.extend_from_slice(&plain);
    }
    assert_eq!(reassembled, file);
    assert_eq!(session.get_chunks_sent(), 3);
}

#[test]
fn test_out_of_order_receive() {
    // A 3-chunk file posted in the order 2, 0, 1 ends up byte-identical.
    let file: Vec<u8> = b"0123456789".to_vec();
    let key = EncryptionKey::new();
    let nonce = Nonce::new();

    let mut session = ReceiveSession::new("incoming".to_string(), clone_key(&key));
    let token = session.token().to_string();
    assert!(session.claim(&token, "client_a"));

    let manifest = Manifest::new(
        vec![entry(0, "data.bin", 10, clone_nonce(&nonce))],
        config(4),
    );
    session.set_manifest(manifest).unwrap();
    assert_eq!(session.get_total_chunks(), 3);

    let mut disk = vec![0u8; 10];
    for &j in &[2usize, 0, 1] {
        let start = j * 4;
        let end = (start + 4).min(10);
        let ciphertext =
            encrypt_chunk_at_position(&key, &nonce, &file[start..end], j as u32).unwrap();
        let write = session
            .accept_chunk(&token, "client_a", 0, j, &ciphertext)
            .unwrap();
        assert_eq!(write.file_index, 0);
        assert_eq!(write.offset, start as u64);
        write_chunk_at(&mut disk, write.offset as usize, &write.data);
    }

    assert_eq!(disk, file, "file content must match regardless of order");
    assert_eq!(session.get_chunks_received(), 3);
    session.finalize(0, 10).unwrap();
    session.complete_transfer(&token, "client_a").unwrap();
    // Completing again is idempotent.
    session.complete_transfer(&token, "client_a").unwrap();
}

#[test]
fn test_retry_duplicate_chunk() {
    let nonce = Nonce::new();
    let manifest = Manifest::new(
        vec![entry(0, "data.bin", 10, clone_nonce(&nonce))],
        config(4),
    );
    let mut session = SendSession::new(manifest, EncryptionKey::new(), 3);
    let token = session.token().to_string();
    assert!(session.claim(&token, "client_a"));

    let mut progress = ProgressTracker::new(3);
    let mut ciphertexts = Vec::new();
    for _ in 0..3 {
        let plan = session.prepare_chunk(&token, "client_a", 0, 1).unwrap();
        if plan.fresh {
            progress.increment();
        }
        ciphertexts.push(session.encrypt_chunk(0, 1, b"4567").unwrap());
    }

    assert_eq!(ciphertexts[0], ciphertexts[1]);
    assert_eq!(ciphertexts[1], ciphertexts[2]);
    assert_eq!(session.unique_chunks_sent(), 1);
    assert_eq!(session.get_chunks_sent(), 1);
    assert_eq!(progress.get_progress().0, 1, "progress increments once");
}

#[test]
fn test_wrong_client_rejected() {
    let manifest = Manifest::new(vec![entry(0, "f.bin", 4, Nonce::new())], config(4));
    let mut session = SendSession::new(manifest, EncryptionKey::new(), 1);
    let token = session.token().to_string();

    assert!(claim_or_validate_session(&mut session, &token, "clientA").is_ok());

    let err = require_active_session(&session, &token, "clientB").unwrap_err();
    assert_eq!(err.status_code(), 401);

    let err2 = claim_or_validate_session(&mut session, &token, "clientB").unwrap_err();
    assert_eq!(err2.status_code(), 401);
}

#[test]
fn test_tampered_chunk_rejected() {
    let file = b"abcdefgh".to_vec();
    let key = EncryptionKey::new();
    let nonce = Nonce::new();

    let mut session = ReceiveSession::new("incoming".to_string(), clone_key(&key));
    let token = session.token().to_string();
    assert!(session.claim(&token, "client_a"));
    let manifest = Manifest::new(
        vec![entry(0, "f.bin", 8, clone_nonce(&nonce))],
        config(8),
    );
    session.set_manifest(manifest).unwrap();

    let mut ciphertext = encrypt_chunk_at_position(&key, &nonce, &file, 0).unwrap();
    ciphertext[3] ^= 0x80;

    let err = session
        .accept_chunk(&token, "client_a", 0, 0, &ciphertext)
        .unwrap_err();
    assert_eq!(err.status_code(), 400);
    assert_eq!(session.get_chunks_received(), 0, "counter unchanged");

    // The untampered ciphertext is still accepted afterwards.
    ciphertext[3] ^= 0x80;
    let write = session
        .accept_chunk(&token, "client_a", 0, 0, &ciphertext)
        .unwrap();
    assert_eq!(write.data, file);
}

#[test]
fn test_path_traversal_manifest_rejected() {
    let key = EncryptionKey::new();
    let mut session = ReceiveSession::new("incoming".to_string(), key);
    let token = session.token().to_string();
    assert!(session.claim(&token, "client_a"));

    let manifest = Manifest::new(
        vec![entry(0, "../etc/passwd", 8, Nonce::new())],
        config(8),
    );
    let err = session.set_manifest(manifest).unwrap_err();
    assert_eq!(err.status_code(), 400);
    assert!(!session.has_manifest(), "no manifest is adopted");

    // Without a manifest no chunk is accepted and nothing can complete.
    let err2 = session
        .accept_chunk(&token, "client_a", 0, 0, b"junk")
        .unwrap_err();
    assert_eq!(err2.status_code(), 400);
    assert!(session.complete_transfer(&token, "client_a").is_err());
}

#[test]
fn test_manifest_duplicate_index_conflict() {
    let key = EncryptionKey::new();
    let mut session = ReceiveSession::new("incoming".to_string(), key);

    let manifest = Manifest::new(
        vec![
            entry(3, "a.bin", 8, Nonce::new()),
            entry(3, "b.bin", 8, Nonce::new()),
        ],
        config(8),
    );
    let err = session.set_manifest(manifest).unwrap_err();
    assert_eq!(err.status_code(), 409);
}

#[test]
fn test_manifest_chunk_count_overflow_rejected() {
    let key = EncryptionKey::new();
    let mut session = ReceiveSession::new("incoming".to_string(), key);

    let manifest = Manifest::new(
        vec![
            entry(0, "a.bin", u64::MAX, Nonce::new()),
            entry(1, "b.bin", u64::MAX, Nonce::new()),
        ],
        config(1),
    );
    let err = session.set_manifest(manifest).unwrap_err();
    assert_eq!(err.status_code(), 400);
}

#[test]
fn test_finalize_checks_sizes() {
    let key = EncryptionKey::new();
    let mut session = ReceiveSession::new("incoming".to_string(), key);
    let manifest = Manifest::new(vec![entry(0, "f.bin", 10, Nonce::new())], config(4));
    session.set_manifest(manifest).unwrap();

    // A size mismatch is a bad request.
    let err = session.finalize(0, 9).unwrap_err();
    assert_eq!(err.status_code(), 400);

    // The right size finalizes once ...
    session.finalize(0, 10).unwrap();

    // ... and a second finalize is a conflict.
    let err2 = session.finalize(0, 10).unwrap_err();
    assert_eq!(err2.status_code(), 409);
}

#[test]
fn test_complete_request_idempotent() {
    let manifest = Manifest::new(vec![entry(0, "f.bin", 4, Nonce::new())], config(4));
    let mut session = SendSession::new(manifest, EncryptionKey::new(), 1);
    let token = session.token().to_string();
    assert!(session.claim(&token, "client_a"));
    session.prepare_chunk(&token, "client_a", 0, 0).unwrap();

    let first = session.complete_request(&token, "client_a").unwrap();
    assert!(matches!(first, CompletionOutcome::Completed { premature: false }));

    let second = session.complete_request(&token, "client_a").unwrap();
    assert!(matches!(second, CompletionOutcome::AlreadyComplete));

    // The plain completion calls answer true both times as well.
    assert!(session.complete(&token, "client_a"));
    assert!(session.complete(&token, "client_a"));

    // Another client still cannot complete.
    let err = session.complete_request(&token, "client_b").unwrap_err();
    assert_eq!(err.status_code(), 401);
}

#[test]
fn test_premature_complete_flagged() {
    let manifest = Manifest::new(vec![entry(0, "f.bin", 8, Nonce::new())], config(4));
    let mut session = SendSession::new(manifest, EncryptionKey::new(), 2);
    let token = session.token().to_string();
    assert!(session.claim(&token, "client_a"));
    session.prepare_chunk(&token, "client_a", 0, 0).unwrap();

    let outcome = session.complete_request(&token, "client_a").unwrap();
    assert!(matches!(outcome, CompletionOutcome::Completed { premature: true }));
}

#[test]
fn test_progress_cap_until_complete() {
    let mut tracker = ProgressTracker::new(5);
    let expected = [20u64, 40, 60, 80, 99];
    for step in 0..5usize {
        let (completed, total) = tracker.increment();
        assert_eq!(completed, step as u64 + 1);
        assert_eq!(total, 5);
        assert_eq!(tracker.current_percent(), expected[step]);
        assert!(tracker.current_percent() <= 99);
    }
    tracker.complete();
    assert_eq!(tracker.current_percent(), 100);

    // With no known total the emitted percentage stays at zero.
    let mut empty = ProgressTracker::new(0);
    empty.increment();
    assert_eq!(empty.current_percent(), 0);
    empty.set_total(4);
    empty.increment();
    assert_eq!(empty.current_percent(), 50);
}

#[test]
fn test_error_status_codes() {
    let cases = [
        (AppError::Unauthorized("a".to_string()), 401, "unauthorized"),
        (AppError::NotFound("b".to_string()), 404, "not_found"),
        (AppError::BadRequest("c".to_string()), 400, "bad_request"),
        (AppError::Conflict("d".to_string()), 409, "conflict"),
        (
            AppError::InsufficientStorage("e".to_string()),
            507,
            "insufficient_storage",
        ),
        (AppError::Internal("f".to_string()), 500, "internal_error"),
    ];
    for (err, status, kind) in cases {
        assert_eq!(err.status_code(), status);
        assert_eq!(err.error_type(), kind);
    }

    // The internal detail is never shown to the client.
    let internal = AppError::Internal("database exploded".to_string());
    assert_eq!(internal.client_message(), "An internal error occurred");
    let visible = AppError::BadRequest("chunk out of range".to_string());
    assert_eq!(visible.client_message(), "chunk out of range");
}

#[test]
fn test_session_store_single_use_tokens() {
    let mut store = SessionStore::new();
    let token = store.create_session("video.mkv".to_string());
    assert_eq!(token.len(), 36);
    assert!(store.is_valid(&token));

    let path = store.validate_and_mark_used(&token);
    assert_eq!(path.as_deref(), Some("video.mkv"));

    // A token never works twice.
    assert!(!store.is_valid(&token));
    assert!(store.validate_and_mark_used(&token).is_none());

    // Unknown tokens never validate.
    assert!(store.validate_and_mark_used("no-such-token").is_none());
}

#[test]
fn test_chunk_math() {
    assert_eq!(chunks_for_size(0, 10 * MIB), 0);
    assert_eq!(chunks_for_size(1, 10 * MIB), 1);
    assert_eq!(chunks_for_size(10 * MIB, 10 * MIB), 1);
    assert_eq!(chunks_for_size(25 * MIB, 10 * MIB), 3);

    assert_eq!(chunk_bounds(25 * MIB, 10 * MIB, 0).unwrap(), (0, 10 * MIB));
    assert_eq!(
        chunk_bounds(25 * MIB, 10 * MIB, 2).unwrap(),
        (20 * MIB, 5 * MIB)
    );
    let err = chunk_bounds(25 * MIB, 10 * MIB, 3).unwrap_err();
    assert_eq!(err.status_code(), 400);
}

#[test]
fn test_transfer_config_per_mode() {
    let local = get_transfer_config(&ServerMode::Local);
    assert_eq!(local.chunk_size, 10 * MIB);
    assert_eq!(local.concurrency, 8);

    let tunnel = get_transfer_config(&ServerMode::Tunnel);
    assert_eq!(tunnel.chunk_size, MIB);
    assert_eq!(tunnel.concurrency, 2);
}

#[test]
fn test_transfer_progress_is_complete() {
    let mut progress = archdrop::TransferProgress::default();
    assert!(!progress.is_complete(), "empty transfer is not complete");
    progress.total = 3;
    progress.completed = 2;
    assert!(!progress.is_complete());
    progress.completed = 3;
    assert!(progress.is_complete());
}
