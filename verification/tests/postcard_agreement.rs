use badge_net::message::Message;
use badge_net::message::Request;
use badge_net::message::Update;

/// What postcard writes for an update whose interval is given as its four
/// bytes, least significant first.
fn by_postcard(text: Option<&str>, freq: Option<u32>) -> Vec<u8> {
    let mut buf = [0u8; 512];
    let value = (text, freq.map(|f| f.to_le_bytes()));
    postcard::to_slice(&value, &mut buf).unwrap().to_vec()
}

fn by_library(text: Option<&str>, freq: Option<u32>) -> Vec<u8> {
    let mut buf = [0u8; 512];
    let update = Update {
        text: text.map(|t| t.to_string()),
        freq,
    };
    let n = update.encode(&mut buf).unwrap();
    buf[..n].to_vec()
}

#[test]
fn updates_are_encoded_as_postcard_encodes_them() {
    let long = "z".repeat(300);
    let texts = [
        None,
        Some(""),
        Some("HELLO"),
        Some("Hello, World!"),
        Some("gr\u{fc}\u{df}e \u{2603}"),
        Some(long.as_str()),
    ];
    let freqs = [None, Some(0), Some(10), Some(500), Some(2000), Some(u32::MAX)];
    for text in texts {
        for freq in freqs {
            assert_eq!(by_library(text, freq), by_postcard(text, freq));
        }
    }
}

#[test]
fn postcard_reads_what_the_library_writes() {
    let bytes = by_library(Some("Hello, World!"), Some(500));
    let (text, freq): (Option<&str>, Option<[u8; 4]>) = postcard::from_bytes(&bytes).unwrap();
    assert_eq!(text, Some("Hello, World!"));
    assert_eq!(freq.map(u32::from_le_bytes), Some(500));
}

#[test]
fn library_reads_what_postcard_writes() {
    let bytes = by_postcard(Some("Hello, World!"), Some(10));
    let update = Update::decode(&bytes).unwrap();
    assert_eq!(update.text.as_deref(), Some("Hello, World!"));
    assert_eq!(update.freq, Some(10));
}

#[test]
fn requests_are_encoded_as_postcard_encodes_a_variant() {
    let mut buf = [0u8; 8];
    assert_eq!(postcard::to_slice(&0u32, &mut buf).unwrap(), &Request::Ready.serialize()[..]);
    assert_eq!(postcard::to_slice(&1u32, &mut buf).unwrap(), &Request::Close.serialize()[..]);
}
