use std::io::Write;
use std::sync::mpsc::sync_channel;

use audec::auto_decompress;
use audec::parallel::{worker_step, ParDecompressor, WorkerAction};

fn gzip_bytes(payload: &[u8]) -> Vec<u8> {
    let mut encoder = flate2::write::GzEncoder::new(Vec::new(), flate2::Compression::default());
    encoder.write_all(payload).unwrap();
    encoder.finish().unwrap()
}

fn drain(par: &mut ParDecompressor, request: usize) -> Vec<u8> {
    let mut out = Vec::new();
    loop {
        let chunk = par.read(request).unwrap();
        if chunk.is_empty() {
            break;
        }
        out.extend_from_slice(&chunk);
    }
    out
}

#[test]
fn parallel_bridge_matches_sync_path() {
    let payload: Vec<u8> = (0u8..=255).cycle().take(4096).collect();
    let compressed = gzip_bytes(&payload);
    let sync_out = auto_decompress(compressed.clone()).unwrap();

    // The worker runs the protocol and forwards small, uneven chunks
    // through the channel; the consumer drains them on its own schedule.
    let (tx, rx) = sync_channel::<Result<Vec<u8>, std::io::Error>>(4096);
    let decoded = auto_decompress(compressed).unwrap();
    let mut offset = 0usize;
    let mut size = 1usize;
    while offset < decoded.len() {
        let end = (offset + size).min(decoded.len());
        let fill = decoded[offset..end].to_vec();
        offset = end;
        size = size % 7 + 1;
        match worker_step(Ok(fill)) {
            WorkerAction::Forward(chunk) => tx.send(Ok(chunk)).unwrap(),
            _ => panic!("a non-empty fill must be forwarded"),
        }
    }
    match worker_step(Ok(Vec::new())) {
        WorkerAction::Finish => drop(tx),
        _ => panic!("an empty fill must finish the worker"),
    }

    let mut par = ParDecompressor::new(rx);
    let bridged = drain(&mut par, 5);
    assert_eq!(bridged, sync_out);
    assert_eq!(bridged, payload);
}

#[test]
fn reads_never_cross_chunk_boundaries() {
    let (tx, rx) = sync_channel::<Result<Vec<u8>, std::io::Error>>(4);
    tx.send(Ok(vec![1, 2, 3])).unwrap();
    tx.send(Ok(vec![4, 5])).unwrap();
    drop(tx);
    let mut par = ParDecompressor::new(rx);
    // A large request is capped at the current chunk.
    assert_eq!(par.read(100).unwrap(), vec![1, 2, 3]);
    // A small request leaves the rest of the chunk buffered.
    assert_eq!(par.read(1).unwrap(), vec![4]);
    assert_eq!(par.read(100).unwrap(), vec![5]);
    // Closed channel: clean end-of-stream.
    assert_eq!(par.read(100).unwrap(), Vec::<u8>::new());
}

#[test]
fn decode_error_is_surfaced_exactly_once() {
    let (tx, rx) = sync_channel::<Result<Vec<u8>, std::io::Error>>(4);
    tx.send(Ok(vec![10, 20, 30])).unwrap();
    tx.send(Ok(vec![40])).unwrap();
    tx.send(Err(std::io::Error::new(std::io::ErrorKind::Other, "injected"))).unwrap();
    drop(tx);
    let mut par = ParDecompressor::new(rx);
    // Bytes delivered before the failure stay intact and readable.
    assert_eq!(par.read(2).unwrap(), vec![10, 20]);
    assert_eq!(par.read(2).unwrap(), vec![30]);
    assert_eq!(par.read(2).unwrap(), vec![40]);
    // The error comes through verbatim, once.
    let err = par.read(2).unwrap_err();
    assert_eq!(err.to_string(), "injected");
    // After it, only the end-of-stream signal, never a second error.
    assert_eq!(par.read(2).unwrap(), Vec::<u8>::new());
    assert_eq!(par.read(2).unwrap(), Vec::<u8>::new());
}

#[test]
fn worker_terminates_when_consumer_disconnects() {
    let (tx, rx) = sync_channel::<Result<Vec<u8>, std::io::Error>>(1);
    // The consumer stops reading and releases its handle before
    // end-of-stream.
    let par = ParDecompressor::new(rx);
    drop(par);
    // The worker, with more to produce, must observe the disconnect on
    // its next attempted send and terminate instead of blocking: with
    // the consumer gone, the very first send fails.
    let mut terminated = false;
    for _ in 0..100 {
        match worker_step(Ok(vec![7u8; 8])) {
            WorkerAction::Forward(chunk) => {
                if tx.send(Ok(chunk)).is_err() {
                    terminated = true;
                    break;
                }
            }
            _ => panic!("a non-empty fill must be forwarded"),
        }
    }
    assert!(terminated);
}

#[test]
fn worker_step_follows_the_protocol() {
    match worker_step(Ok(Vec::new())) {
        WorkerAction::Finish => {}
        _ => panic!("empty fill must mean clean end-of-stream"),
    }
    match worker_step(Ok(vec![1, 2])) {
        WorkerAction::Forward(chunk) => assert_eq!(chunk, vec![1, 2]),
        _ => panic!("bytes must be forwarded"),
    }
    match worker_step(Err(std::io::Error::new(std::io::ErrorKind::Other, "boom"))) {
        WorkerAction::Fail(err) => assert_eq!(err.to_string(), "boom"),
        _ => panic!("a failed fill must forward the error"),
    }
}
