//! Checks of the transport core: frame demultiplexing, JSON value streaming,
//! response classification, backend selection and endpoint building.

use shiplift::errors::Error;
use shiplift::stream::JsonValueStream;
use shiplift::transport::{
    check_upgrade, classify_response, fault_message, host_header, is_success_status, tar,
    upgrade_headers, ConnectionDescriptor, TlsConfig, Transport,
};
use shiplift::tty::{Frame, FrameDemultiplexer, StreamTag};

fn frame_bytes(tag: u8, payload: &[u8]) -> Vec<u8> {
    let mut out = vec![tag, 0, 0, 0];
    let len = payload.len() as u32;
    out.extend_from_slice(&len.to_be_bytes());
    out.extend_from_slice(payload);
    out
}

fn frames_eq(got: &[Frame], want: &[(StreamTag, &[u8])]) -> bool {
    got.len() == want.len()
        && got
            .iter()
            .zip(want.iter())
            .all(|(f, (t, p))| f.tag == *t && f.payload.as_slice() == *p)
}

#[test]
fn demux_single_chunk() {
    let mut bytes = frame_bytes(1, b"hello");
    bytes.extend_from_slice(&frame_bytes(2, b"oops"));
    let mut demux = FrameDemultiplexer::new();
    let frames = demux.feed(&bytes);
    assert!(frames_eq(
        &frames,
        &[(StreamTag::StdOut, b"hello"), (StreamTag::StdErr, b"oops")]
    ));
    assert!(!demux.is_failed());
    assert!(demux.finish().is_ok());
}

#[test]
fn demux_chunking_independence() {
    let mut bytes = frame_bytes(0, b"in");
    bytes.extend_from_slice(&frame_bytes(1, b"stdout data"));
    bytes.extend_from_slice(&frame_bytes(2, b""));

    let mut reference = FrameDemultiplexer::new();
    let whole = reference.feed(&bytes);
    assert!(reference.finish().is_ok());

    for cut in 0..=bytes.len() {
        let mut demux = FrameDemultiplexer::new();
        let mut got = demux.feed(&bytes[..cut]);
        got.extend(demux.feed(&bytes[cut..]));
        assert_eq!(got.len(), whole.len(), "split at {}", cut);
        for (a, b) in got.iter().zip(whole.iter()) {
            assert!(a.tag == b.tag && a.payload == b.payload, "split at {}", cut);
        }
        assert!(demux.finish().is_ok(), "split at {}", cut);
    }
}

#[test]
fn demux_byte_by_byte() {
    let bytes = frame_bytes(1, b"abc");
    let mut demux = FrameDemultiplexer::new();
    let mut got: Vec<Frame> = Vec::new();
    for b in bytes.iter() {
        got.extend(demux.feed(std::slice::from_ref(b)));
    }
    assert!(frames_eq(&got, &[(StreamTag::StdOut, b"abc")]));
    assert!(demux.finish().is_ok());
}

#[test]
fn demux_truncated_header() {
    let mut demux = FrameDemultiplexer::new();
    let frames = demux.feed(&[1, 0, 0, 0, 0]);
    assert!(frames.is_empty());
    assert_eq!(demux.finish(), Err(Error::TruncatedStream));
}

#[test]
fn demux_truncated_payload() {
    let mut demux = FrameDemultiplexer::new();
    let frames = demux.feed(&[1, 0, 0, 0, 0, 0, 0, 10, b'x', b'y']);
    assert!(frames.is_empty());
    assert_eq!(demux.finish(), Err(Error::TruncatedStream));
}

#[test]
fn demux_invalid_tag() {
    let mut demux = FrameDemultiplexer::new();
    let frames = demux.feed(&frame_bytes(7, b"bad"));
    assert!(frames.is_empty());
    assert!(demux.is_failed());
    assert_eq!(demux.finish(), Err(Error::TruncatedStream));
    // nothing further is emitted once the decoder failed
    let more = demux.feed(&frame_bytes(1, b"ok"));
    assert!(more.is_empty());
}

#[test]
fn demux_empty_payload() {
    let mut demux = FrameDemultiplexer::new();
    let frames = demux.feed(&frame_bytes(2, b""));
    assert!(frames_eq(&frames, &[(StreamTag::StdErr, b"")]));
    assert!(demux.finish().is_ok());
}

#[test]
fn json_stream_two_documents() {
    let mut stream = JsonValueStream::new();
    let vals = stream.feed(br#"{"a":1}{"b":2}"#).unwrap();
    assert_eq!(vals.len(), 2);
    let a: serde_json::Value = serde_json::from_str(r#"{"a":1}"#).unwrap();
    let b: serde_json::Value = serde_json::from_str(r#"{"b":2}"#).unwrap();
    assert_eq!(vals[0], a);
    assert_eq!(vals[1], b);
}

#[test]
fn json_stream_whitespace_and_arrays() {
    let mut stream = JsonValueStream::new();
    let vals = stream.feed(b" {\"a\": [1, 2]} \n [3, {\"b\": \"}\"}] ").unwrap();
    assert_eq!(vals.len(), 2);
    let b: serde_json::Value = serde_json::from_str(r#"[3, {"b": "}"}]"#).unwrap();
    assert_eq!(vals[1], b);
}

#[test]
fn json_stream_split_document_fails() {
    let mut stream = JsonValueStream::new();
    let r = stream.feed(br#"{"a":"#);
    assert!(matches!(r, Err(Error::Serialization(_))));
    // the stream yields nothing after its terminal error
    assert!(stream.feed(br#"{"a":1}"#).is_err());
}

#[test]
fn json_stream_non_document_fails() {
    let mut stream = JsonValueStream::new();
    assert!(matches!(stream.feed(b"hello"), Err(Error::Serialization(_))));
}

#[test]
fn classify_fault_message_from_envelope() {
    let r = classify_response(404, r#"{"message":"no such container"}"#);
    assert_eq!(
        r,
        Err(Error::Fault { status: 404, message: "no such container".to_string() })
    );
}

#[test]
fn classify_fault_fallback_reason() {
    assert_eq!(fault_message(404, "not json"), "Not Found");
    assert_eq!(fault_message(599, ""), "unknown error code");
}

#[test]
fn classify_success_statuses() {
    for status in [200u16, 201, 101, 204] {
        assert!(is_success_status(status));
        assert!(classify_response(status, "").is_ok());
    }
    assert!(!is_success_status(500));
}

#[test]
fn upgrade_decision() {
    assert!(check_upgrade(101).is_ok());
    assert_eq!(check_upgrade(200), Err(Error::UpgradeRejected));
    let headers = upgrade_headers();
    assert_eq!(headers[0], ("Connection".to_string(), "Upgrade".to_string()));
    assert_eq!(headers[1], ("Upgrade".to_string(), "tcp".to_string()));
    assert_eq!(host_header(), ("Host".to_string(), String::new()));
}

#[test]
fn backend_selection() {
    let unix = ConnectionDescriptor {
        scheme: "unix".to_string(),
        host: String::new(),
        port: None,
        path: "/var/run/docker.sock".to_string(),
        tls: None,
    };
    match Transport::from_descriptor(&unix).unwrap() {
        Transport::Unix { path } => assert_eq!(path, "/var/run/docker.sock"),
        _ => panic!("expected the domain-socket backend"),
    }

    let tcp = ConnectionDescriptor {
        scheme: "tcp".to_string(),
        host: "127.0.0.1".to_string(),
        port: Some(2375),
        path: String::new(),
        tls: None,
    };
    match Transport::from_descriptor(&tcp).unwrap() {
        Transport::Tcp { host } => assert_eq!(host, "tcp://127.0.0.1:2375"),
        _ => panic!("expected the plain TCP backend"),
    }

    let tls = ConnectionDescriptor {
        scheme: "tcp".to_string(),
        host: "example.test".to_string(),
        port: None,
        path: String::new(),
        tls: Some(TlsConfig { cert_dir: "/certs".to_string(), verify: true }),
    };
    match Transport::from_descriptor(&tls).unwrap() {
        Transport::EncryptedTcp { host } => assert_eq!(host, "https://example.test:80"),
        _ => panic!("expected the encrypted backend"),
    }

    let bad = ConnectionDescriptor {
        scheme: "tcp".to_string(),
        host: String::new(),
        port: None,
        path: String::new(),
        tls: None,
    };
    assert!(matches!(
        Transport::from_descriptor(&bad),
        Err(Error::Configuration(_))
    ));
}

#[test]
fn request_targets() {
    let tcp = Transport::Tcp { host: "tcp://127.0.0.1:2375".to_string() };
    assert_eq!(tcp.request_target("/containers/json"), "tcp://127.0.0.1:2375/containers/json");

    let unix = Transport::Unix { path: "/a".to_string() };
    // "/a" is 0x2f 0x61
    assert_eq!(unix.request_target("/info"), "unix://2f61:0/info");

    assert_eq!(tar(), "application/tar");
}

#[test]
fn decode_chunks_matches_single_feed() {
    let mut bytes = frame_bytes(1, b"first");
    bytes.extend_from_slice(&frame_bytes(2, b"second"));

    for cut in 0..=bytes.len() {
        let chunks = vec![bytes[..cut].to_vec(), bytes[cut..].to_vec()];
        let (frames, outcome) = shiplift::tty::decode_chunks(&chunks);
        assert!(frames_eq(
            &frames,
            &[(StreamTag::StdOut, b"first"), (StreamTag::StdErr, b"second")]
        ));
        assert!(outcome.is_ok());
    }

    let truncated = vec![bytes[..bytes.len() - 1].to_vec()];
    let (frames, outcome) = shiplift::tty::decode_chunks(&truncated);
    assert_eq!(frames.len(), 1);
    assert_eq!(outcome, Err(Error::TruncatedStream));
}
