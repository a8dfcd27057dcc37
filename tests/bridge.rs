use helix_vte::bridge::{forward_read, ReadOutcome};
use helix_vte::session::PtyEvent;

fn run(reads: Vec<ReadOutcome>) -> Vec<PtyEvent> {
    let mut out = Vec::new();
    for read in reads {
        let (event, more) = forward_read(read);
        if let Some(e) = event {
            out.push(e);
        }
        if !more {
            break;
        }
    }
    out
}

#[test]
fn chunks_concatenate_to_bytes_read() {
    let events = run(vec![
        ReadOutcome::Read(b"hel".to_vec()),
        ReadOutcome::Read(b"lo ".to_vec()),
        ReadOutcome::Read(b"world".to_vec()),
        ReadOutcome::Read(Vec::new()),
        ReadOutcome::Read(b"late".to_vec()),
    ]);
    let mut bytes = Vec::new();
    for e in &events {
        match e {
            PtyEvent::Data(d) => bytes.extend_from_slice(d),
            other => panic!("unexpected {:?}", other),
        }
    }
    assert_eq!(events.len(), 3);
    assert_eq!(bytes, b"hello world".to_vec());
}

#[test]
fn read_failure_is_forwarded_once_and_stops() {
    let events = run(vec![
        ReadOutcome::Read(b"ab".to_vec()),
        ReadOutcome::Failed("input/output error".to_string()),
        ReadOutcome::Read(b"cd".to_vec()),
    ]);
    assert_eq!(
        events,
        vec![PtyEvent::Data(b"ab".to_vec()), PtyEvent::Error("input/output error".to_string())]
    );
}

#[test]
fn empty_stream_forwards_nothing() {
    assert_eq!(run(vec![ReadOutcome::Read(Vec::new())]), Vec::<PtyEvent>::new());
}
