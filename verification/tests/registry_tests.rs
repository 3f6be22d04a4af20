use bytebeam::appstate::{AppState, UploadError};
use bytebeam::chunks::{download_step, ChunkAssembler, DownloadStep};
use bytebeam::compression::Compression;
use bytebeam::front::done_message;
use bytebeam::keymanager::KeyManager;
use bytebeam::serveropts::ServerOptions;

fn tiny_tier(cache_size: usize, block_size: usize, cull_time: u64) -> ServerOptions {
    ServerOptions::new(
        cache_size,
        block_size,
        cull_time,
        "{uuid}".to_string(),
        "{uuid}".to_string(),
        None,
        Vec::new(),
    )
}

fn fresh_state() -> AppState {
    AppState::new(
        tiny_tier(4, 4, 3_600_000),
        tiny_tier(16, 4, 3_600_000),
        KeyManager::new(None),
    )
}

#[test]
fn forward_transfer_moves_every_byte() {
    let mut state = fresh_state();
    let meta = state
        .generate_file_upload(&"hello.txt".to_string(), None, 0)
        .expect("minted");
    assert_eq!(meta.file_name, "hello.txt");
    let (ticket, key) = meta.get_upload_info();

    let (tx, tier) = state.begin_upload(&ticket, &key).expect("upload granted");
    let block_size = tier.get_block_size();
    assert_eq!(block_size, 4);
    assert!(state.set_metadata(&ticket, None, Some(6), None));

    let mut assembler = ChunkAssembler::new(block_size);
    assembler.push(b"abcdef".to_vec());
    let mut sent: usize = 0;
    while assembler.has_full_block() {
        let block = assembler.pop_block();
        sent += block.len();
        tx.try_send(block).expect("channel has room");
    }
    let tail = assembler.flush();
    sent += tail.len();
    tx.try_send(tail).expect("channel has room");
    tx.try_send(Vec::new()).expect("sentinel fits");
    state.end_upload(&ticket);
    assert_eq!(done_message(sent), "Done! Sent 6 bytes");

    let mut rx = state.begin_download(&ticket).expect("download granted");
    let mut body: Vec<u8> = Vec::new();
    loop {
        match download_step(rx.try_recv().ok()) {
            DownloadStep::Deliver(chunk) => body.extend_from_slice(&chunk),
            DownloadStep::Finished => {
                state.end(&ticket);
                break;
            }
            DownloadStep::ChannelLost => panic!("sender vanished"),
        }
    }
    assert_eq!(body, b"abcdef".to_vec());
    let after = state.get_file_metadata(&ticket, 1).expect("still listed");
    assert!(after.download_finished());
    assert_eq!(after.file_size.get_content_length(), Some(6));
}

#[test]
fn second_upload_is_a_conflict() {
    let mut state = fresh_state();
    let meta = state
        .generate_file_upload(&"a.bin".to_string(), None, 0)
        .expect("minted");
    let (ticket, key) = meta.get_upload_info();
    state.begin_upload(&ticket, &key).expect("first upload");
    let err = state.begin_upload(&ticket, &key).unwrap_err();
    assert_eq!(err, UploadError::Conflict);
    assert_eq!(err.status_code(), 409);
}

#[test]
fn wrong_key_is_forbidden_and_unknown_ticket_not_found() {
    let mut state = fresh_state();
    let meta = state
        .generate_file_upload(&"a.bin".to_string(), None, 0)
        .expect("minted");
    let (ticket, _) = meta.get_upload_info();
    let err = state.begin_upload(&ticket, &"nope".to_string()).unwrap_err();
    assert_eq!(err, UploadError::Forbidden);
    assert_eq!(err.status_code(), 403);
    let err = state
        .begin_upload(&"missing".to_string(), &"nope".to_string())
        .unwrap_err();
    assert_eq!(err, UploadError::NotFound);
    assert_eq!(err.status_code(), 404);
    assert_eq!(UploadError::Gone.status_code(), 410);
}

#[test]
fn second_download_is_refused_while_running_and_after() {
    let mut state = fresh_state();
    let meta = state
        .generate_file_upload(&"a.bin".to_string(), None, 0)
        .expect("minted");
    let (ticket, _) = meta.get_upload_info();
    let _rx = state.begin_download(&ticket).expect("first download");
    assert!(state.begin_download(&ticket).is_none());
    let during = state.get_file_metadata(&ticket, 1).unwrap();
    assert!(during.download_locked() && !during.download_finished());
    state.end(&ticket);
    assert!(state.begin_download(&ticket).is_none());
    let after = state.get_file_metadata(&ticket, 2).unwrap();
    assert!(after.download_locked() && after.download_finished());
}

#[test]
fn paused_download_can_resume() {
    let mut state = fresh_state();
    let meta = state
        .generate_file_upload(&"a.bin".to_string(), None, 0)
        .expect("minted");
    let (ticket, _) = meta.get_upload_info();
    let rx = state.begin_download(&ticket).expect("first download");
    assert!(state.return_download(&ticket, rx));
    let rx2 = state.begin_download(&ticket).expect("resumed");
    assert!(!state.return_download(&"missing".to_string(), rx2));
}

#[test]
fn deleted_ticket_is_not_found_and_channel_closes() {
    let mut state = fresh_state();
    let meta = state
        .generate_file_upload(&"a.bin".to_string(), None, 0)
        .expect("minted");
    let (ticket, key) = meta.get_upload_info();
    let (tx, _) = state.begin_upload(&ticket, &key).expect("upload granted");
    assert!(!tx.is_closed());
    assert!(state.delete(&ticket));
    assert!(!state.delete(&ticket));
    assert!(tx.is_closed());
    let err = state.begin_upload(&ticket, &key).unwrap_err();
    assert_eq!(err, UploadError::NotFound);
    assert!(state.begin_download(&ticket).is_none());
    assert!(state.get_file_metadata(&ticket, 0).is_none());
}

#[test]
fn set_metadata_tracks_compression_trust() {
    let mut state = fresh_state();
    let meta = state
        .generate_file_upload(&"a.bin".to_string(), None, 0)
        .expect("minted");
    let (ticket, _) = meta.get_upload_info();
    assert!(state.set_metadata(&ticket, None, Some(10), Some(Compression::Zstd)));
    let m = state.get_file_metadata(&ticket, 1).unwrap();
    assert_eq!(m.file_size.file_size, Some(10));
    assert_eq!(m.get_compression(), Compression::Zstd);
    assert_eq!(m.file_size.get_content_length(), None);
    assert!(!state.set_metadata(&"missing".to_string(), None, None, None));
}

#[test]
fn progress_counters_accumulate() {
    let mut state = fresh_state();
    let meta = state
        .generate_file_upload(&"a.bin".to_string(), None, 0)
        .expect("minted");
    let (ticket, _) = meta.get_upload_info();
    let (u1, d1) = state
        .increase_upload_download_numbers(&ticket, 5, 0)
        .expect("counted");
    assert_eq!((u1, d1), (5, 0));
    let (u2, d2) = state
        .increase_upload_download_numbers(&ticket, 2, 4)
        .expect("counted");
    assert_eq!((u2, d2), (7, 4));
    assert!(state
        .increase_upload_download_numbers(&"missing".to_string(), 1, 1)
        .is_none());
}

#[test]
fn culling_drops_only_idle_waiting_tickets() {
    let mut state = AppState::new(
        tiny_tier(4, 4, 1000),
        tiny_tier(16, 4, 1000),
        KeyManager::new(None),
    );
    let idle = state
        .generate_file_upload(&"idle.bin".to_string(), None, 0)
        .expect("minted");
    let busy = state
        .generate_file_upload(&"busy.bin".to_string(), None, 0)
        .expect("minted");
    let (idle_ticket, _) = idle.get_upload_info();
    let (busy_ticket, busy_key) = busy.get_upload_info();
    state.begin_upload(&busy_ticket, &busy_key).expect("upload granted");
    state.begin_download(&busy_ticket).expect("download granted");

    assert_eq!(state.cull(500), 0);
    let culled = state.cull(2000);
    assert_eq!(culled, 1);
    assert!(state.get_file_metadata(&idle_ticket, 2000).is_none());
    assert!(state.get_file_metadata(&busy_ticket, 2000).is_some());
}

#[test]
fn backpressure_with_single_slot_buffer() {
    let mut state = AppState::new(
        tiny_tier(1, 1, 3_600_000),
        tiny_tier(16, 4, 3_600_000),
        KeyManager::new(None),
    );
    let meta = state
        .generate_file_upload(&"drip.bin".to_string(), None, 0)
        .expect("minted");
    let (ticket, key) = meta.get_upload_info();
    let (tx, tier) = state.begin_upload(&ticket, &key).expect("upload granted");
    assert_eq!(tier.get_block_size(), 1);

    let payload = b"0123456789";
    let mut assembler = ChunkAssembler::new(1);
    assembler.push(payload.to_vec());
    let first = assembler.pop_block();
    tx.try_send(first).expect("one block fits");
    let second = assembler.pop_block();
    let refused = tx.try_send(second).expect_err("buffer is full");
    let mut second = match refused {
        tokio::sync::mpsc::error::TrySendError::Full(block) => block,
        other => panic!("unexpected send failure: {:?}", other),
    };

    let mut rx = state.begin_download(&ticket).expect("download granted");
    let mut received: Vec<u8> = Vec::new();
    loop {
        let chunk = rx.try_recv().expect("a block is queued");
        received.extend_from_slice(&chunk);
        match tx.try_send(second) {
            Ok(()) => {}
            Err(tokio::sync::mpsc::error::TrySendError::Full(block)) => {
                second = block;
                continue;
            }
            Err(other) => panic!("unexpected send failure: {:?}", other),
        }
        if assembler.has_full_block() {
            second = assembler.pop_block();
        } else {
            break;
        }
    }
    loop {
        match rx.try_recv() {
            Ok(chunk) => received.extend_from_slice(&chunk),
            Err(_) => break,
        }
    }
    assert_eq!(received, payload.to_vec());
}

#[test]
fn register_ticket_refuses_taken_paths() {
    let mut state = fresh_state();
    let meta = state
        .generate_file_upload(&"a.bin".to_string(), None, 0)
        .expect("minted");
    let (ticket, _) = meta.get_upload_info();
    let clash = state.get_file_metadata(&ticket, 0).expect("listed");
    assert!(!state.register_ticket(clash));
    assert!(state.get_file_metadata(&ticket, 0).is_some());
}

#[test]
fn apply_upgrade_needs_a_live_ticket_and_a_free_path() {
    let mut state = fresh_state();
    let first = state
        .generate_file_upload(&"a.bin".to_string(), None, 0)
        .expect("minted");
    let second = state
        .generate_file_upload(&"b.bin".to_string(), None, 0)
        .expect("minted");
    let (first_ticket, _) = first.get_upload_info();
    let (second_ticket, _) = second.get_upload_info();

    let mut rekeyed = state.get_file_metadata(&first_ticket, 0).expect("listed");
    rekeyed.path = second_ticket.clone();
    assert!(!state.apply_upgrade(&first_ticket, rekeyed, false));
    assert!(state.get_file_metadata(&first_ticket, 0).is_some());

    let mut rekeyed = state.get_file_metadata(&first_ticket, 0).expect("listed");
    rekeyed.path = "fresh-path".to_string();
    assert!(state.apply_upgrade(&first_ticket, rekeyed, true));
    assert!(state.get_file_metadata(&first_ticket, 0).is_none());
    assert!(state.get_file_metadata(&"fresh-path".to_string(), 0).is_some());

    let ghost = state.get_file_metadata(&second_ticket, 0).expect("listed");
    assert!(!state.apply_upgrade(&"missing".to_string(), ghost, false));
}
