use eremote::file_transfer::{
    request_step, RequestStep,
    request_refused, ChunkCursor, FileChunk, FileReceiver, FileSender, FileTransferPayload, FsAccess,
    PathError, ReceiveError, CHUNK_SIZE,
};

fn parts(p: &str) -> Vec<Vec<u8>> {
    p.split('/').filter(|c| !c.is_empty()).map(|c| c.as_bytes().to_vec()).collect()
}

const ABC_SHA256: &str = "ba7816bf8f01cfea414140de5dae2223b00361a396177a9cb410ff61f20015ad";

#[test]
fn paths_inside_roots_only() {
    let fs = FsAccess::new(vec![parts("/home/u"), parts("/tmp/drop")]);
    assert!(fs.is_allowed(&parts("/home/u/a.txt")));
    assert!(fs.is_allowed(&parts("/home/u")));
    assert!(fs.is_allowed(&parts("/tmp/drop/x/y")));
    assert!(!fs.is_allowed(&parts("/home/user2/a.txt")));
    assert!(!fs.is_allowed(&parts("/home")));
    assert!(!fs.is_allowed(&parts("/etc/passwd")));
    match fs.validate_path(parts("/etc/passwd")) {
        Err(e) => assert_eq!(e.message("/etc/passwd"), "Path '/etc/passwd' is not in any allowed directory"),
        Ok(_) => panic!("outside the roots"),
    }
    assert_eq!(fs.validate_path(parts("/home/u/b")).ok(), Some(parts("/home/u/b")));
    let PathError::NotAllowed(p) = fs.validate_path(parts("/x")).err().unwrap();
    assert_eq!(p, parts("/x"));
}

#[test]
fn receive_verified_file() {
    let mut r = FileReceiver::new();
    r.start_receive("t1".into(), ABC_SHA256.into());
    assert!(matches!(r.receive_chunk("t1", b"a", false), Ok(None)));
    match r.receive_chunk("t1", b"bc", true) {
        Ok(Some(h)) => assert_eq!(h, ABC_SHA256),
        _ => panic!("hash should match"),
    }
    match r.receive_chunk("t1", b"more", true) {
        Err(e) => assert_eq!(e.message(), "Unknown transfer: t1"),
        Ok(_) => panic!("transfer is over"),
    }
}

#[test]
fn receive_corrupted_file() {
    let mut r = FileReceiver::new();
    r.start_receive("t2".into(), ABC_SHA256.into());
    match r.receive_chunk("t2", b"abd", true) {
        Err(ReceiveError::HashMismatch { expected, got }) => {
            assert_eq!(expected, ABC_SHA256);
            assert_ne!(got, ABC_SHA256);
            assert_eq!(got.len(), 64);
        }
        _ => panic!("hash should not match"),
    }
}

#[test]
fn restarted_transfer_starts_over() {
    let mut r = FileReceiver::new();
    r.start_receive("t".into(), ABC_SHA256.into());
    assert!(matches!(r.receive_chunk("t", b"zzz", false), Ok(None)));
    r.start_receive("t".into(), ABC_SHA256.into());
    assert!(matches!(r.receive_chunk("t", b"abc", true), Ok(Some(_))));
}

#[test]
fn replies_to_the_viewer() {
    let mut r = FileReceiver::new();
    match r.request_accepted("t3".into(), ABC_SHA256.into(), Ok(())) {
        FileTransferPayload::Accept { transfer_id } => assert_eq!(transfer_id, "t3"),
        _ => panic!("accepted"),
    }
    match r.request_accepted("t4".into(), ABC_SHA256.into(), Err("disk full".into())) {
        FileTransferPayload::Reject { transfer_id, reason } => {
            assert_eq!(transfer_id, "t4");
            assert_eq!(reason, "disk full");
        }
        _ => panic!("rejected"),
    }
    let reply = r.handle_chunk(FileChunk { transfer_id: "t3".into(), offset: 0, data: b"abc".to_vec(), last_chunk: true });
    match reply {
        Some(FileTransferPayload::Complete { transfer_id, sha256_hash }) => {
            assert_eq!(transfer_id, "t3");
            assert_eq!(sha256_hash, ABC_SHA256);
        }
        _ => panic!("complete"),
    }
    let reply = r.handle_chunk(FileChunk { transfer_id: "t4".into(), offset: 0, data: vec![], last_chunk: true });
    match reply {
        Some(FileTransferPayload::Error { error, .. }) => assert_eq!(error, "Unknown transfer: t4"),
        _ => panic!("error"),
    }
    match request_refused("t5".into(), "Path '/etc' is not in any allowed directory") {
        FileTransferPayload::Reject { reason, .. } => {
            assert_eq!(reason, "Access denied: Path '/etc' is not in any allowed directory")
        }
        _ => panic!("refused"),
    }
}

#[test]
fn sender_hashes_and_chunks() {
    let mut h = FileSender::start_hash();
    FileSender::hash_chunk(&mut h, b"a");
    FileSender::hash_chunk(&mut h, b"bc");
    let req = FileSender::prepare_request(&h, Some("notes.txt".into()), 3, "/home/u");
    assert_eq!(req.sha256_hash, ABC_SHA256);
    assert_eq!(req.file_name, "notes.txt");
    assert_eq!(req.file_size, 3);
    assert_eq!(req.destination_path, "/home/u");
    assert_eq!(req.transfer_id.len(), 36);
    let other = FileSender::prepare_request(&h, None, 3, "/");
    assert_eq!(other.file_name, "unknown");
    assert_ne!(other.transfer_id, req.transfer_id);

    let mut c = ChunkCursor::new("t".into());
    let first = c.next_chunk(vec![7u8; CHUNK_SIZE]).unwrap();
    assert_eq!((first.offset, first.last_chunk), (0, false));
    let second = c.next_chunk(vec![1u8; 10]).unwrap();
    assert_eq!((second.offset, second.last_chunk), (CHUNK_SIZE as u64, true));
    assert!(c.done);
    assert_eq!(c.offset, CHUNK_SIZE as u64 + 10);
    let mut empty = ChunkCursor::new("e".into());
    assert!(empty.next_chunk(vec![]).is_none());
    assert!(empty.done);
}

#[test]
fn file_needs_host_consent() {
    assert!(matches!(request_step("t", 1, 0), RequestStep::Create));
    assert!(matches!(request_step("t", 0, 29_999), RequestStep::Wait));
    match request_step("t", 2, 0) {
        RequestStep::Reply(FileTransferPayload::Reject { transfer_id, reason }) => {
            assert_eq!(transfer_id, "t");
            assert_eq!(reason, "Denied by host");
        }
        _ => panic!("expected a rejection"),
    }
    match request_step("t", 0, 30_000) {
        RequestStep::Reply(FileTransferPayload::Reject { transfer_id, reason }) => {
            assert_eq!(transfer_id, "t");
            assert_eq!(reason, "No answer from host");
        }
        _ => panic!("expected a rejection"),
    }
}
