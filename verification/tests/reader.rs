use ed25519_dalek::SigningKey;
use serde_cbor::Value;
use sha2::{Digest, Sha512};

use s9pk_reader::{ByteStream, Error, Part, S9pkReader};

const SIG_CONTEXT: &[u8] = b"s9pk";

struct Sections {
    manifest: Vec<u8>,
    config_spec: Vec<u8>,
    license: Vec<u8>,
    icon: Vec<u8>,
    app_image: Vec<u8>,
    instructions: Option<Vec<u8>>,
}

impl Sections {
    fn simple() -> Sections {
        Sections {
            manifest: serde_cbor::to_vec(&Value::Text("the manifest".to_string())).unwrap(),
            config_spec: serde_cbor::to_vec(&Value::Text("the config".to_string())).unwrap(),
            license: b"MIT License".to_vec(),
            icon: vec![1, 2, 3, 4],
            app_image: vec![9, 9, 7],
            instructions: Some(b"read me first".to_vec()),
        }
    }
}

fn header_len(s: &Sections) -> u64 {
    if s.instructions.is_some() {
        193
    } else {
        177
    }
}

/// Serialize and sign an archive whose sections lie consecutively after
/// the header, in TOC order.
fn build_archive(s: &Sections) -> Vec<u8> {
    let start = header_len(s);
    let mut payload: Vec<u8> = Vec::new();
    let mut descs: Vec<(u64, u64)> = Vec::new();
    for part in [&s.manifest, &s.config_spec, &s.license, &s.icon, &s.app_image] {
        descs.push((start + payload.len() as u64, part.len() as u64));
        payload.extend_from_slice(part);
    }
    let instructions_desc = s.instructions.as_ref().map(|part| {
        let d = (start + payload.len() as u64, part.len() as u64);
        payload.extend_from_slice(part);
        d
    });

    let signing = SigningKey::from_bytes(&[7u8; 32]);
    let mut hasher = Sha512::new();
    hasher.update(&payload);
    let signature = signing
        .sign_prehashed(hasher, Some(SIG_CONTEXT))
        .expect("signing");

    let mut out: Vec<u8> = Vec::new();
    out.extend_from_slice(&signing.verifying_key().to_bytes());
    out.extend_from_slice(&signature.to_bytes());
    for (position, length) in &descs {
        out.extend_from_slice(&position.to_be_bytes());
        out.extend_from_slice(&length.to_be_bytes());
    }
    match instructions_desc {
        Some((position, length)) => {
            out.push(1);
            out.extend_from_slice(&position.to_be_bytes());
            out.extend_from_slice(&length.to_be_bytes());
        }
        None => out.push(0),
    }
    assert_eq!(out.len() as u64, start);
    out.extend_from_slice(&payload);
    out
}

fn open(bytes: Vec<u8>) -> Result<S9pkReader, Error> {
    S9pkReader::from_reader(ByteStream::new(bytes))
}

#[test]
fn valid_archive_sections_match() {
    let s = Sections::simple();
    let mut rdr = open(build_archive(&s)).expect("open");

    let manifest = rdr.manifest().expect("manifest");
    assert_eq!(manifest, Value::Text("the manifest".to_string()));
    let config = rdr.config_spec().expect("config_spec");
    assert_eq!(config, Value::Text("the config".to_string()));
    let license = rdr.license().expect("license");
    assert_eq!(license, "MIT License");
    let instructions = rdr.instructions().expect("instructions");
    assert_eq!(instructions.as_deref(), Some("read me first"));

    let handle = rdr.icon();
    let (rdr, icon) = handle.to_vec();
    assert_eq!(icon.expect("icon"), s.icon);
    let handle = rdr.app_image();
    let (_rdr, app_image) = handle.to_vec();
    assert_eq!(app_image.expect("app_image"), s.app_image);
}

#[test]
fn icon_and_app_image_read_disjoint_ranges() {
    let s = Sections::simple();
    let bytes = build_archive(&s);
    let rdr = open(bytes).expect("open");
    let (rdr, icon) = rdr.icon().to_vec();
    let (_rdr, app_image) = rdr.app_image().to_vec();
    let icon = icon.expect("icon");
    let app_image = app_image.expect("app_image");
    assert_eq!(icon, vec![1, 2, 3, 4]);
    assert_eq!(app_image, vec![9, 9, 7]);
    assert_ne!(icon, app_image);
}

#[test]
fn flipping_any_payload_byte_fails_signature() {
    let s = Sections::simple();
    let bytes = build_archive(&s);
    let start = header_len(&s) as usize;
    for i in start..bytes.len() {
        let mut corrupt = bytes.clone();
        corrupt[i] ^= 1;
        match open(corrupt) {
            Err(Error::Signature) => {}
            other => panic!("byte {} flipped: expected Signature error, got {:?}", i, other.map(|_| ())),
        }
    }
}

#[test]
fn wrong_verifying_key_fails_signature() {
    let s = Sections::simple();
    let mut bytes = build_archive(&s);
    let other = SigningKey::from_bytes(&[8u8; 32]);
    bytes[0..32].copy_from_slice(&other.verifying_key().to_bytes());
    assert!(matches!(open(bytes), Err(Error::Signature)));
}

#[test]
fn ascending_adjacent_access_costs_no_seek() {
    // Header ends at 177; manifest {position: 177, length: 10};
    // config spec {position: 187, length: 5}. After open, manifest() reads
    // [177, 187) and config_spec() reads [187, 192) with no further seek.
    let s = Sections {
        manifest: serde_cbor::to_vec(&Value::Text("123456789".to_string())).unwrap(),
        config_spec: serde_cbor::to_vec(&Value::Text("abcd".to_string())).unwrap(),
        license: b"L".to_vec(),
        icon: vec![5],
        app_image: vec![6],
        instructions: None,
    };
    assert_eq!(s.manifest.len(), 10);
    assert_eq!(s.config_spec.len(), 5);
    let mut rdr = open(build_archive(&s)).expect("open");

    let toc = rdr.table_of_contents();
    assert_eq!(toc.manifest.position, 177);
    assert_eq!(toc.manifest.length, 10);
    assert_eq!(toc.config_spec.position, 187);
    assert_eq!(toc.config_spec.length, 5);
    assert_eq!(toc.instructions, None);

    // The verification pass ends with one seek back to section-data start.
    assert_eq!(rdr.position(), 177);
    assert_eq!(rdr.seeks(), 1);

    rdr.manifest().expect("manifest");
    assert_eq!(rdr.position(), 187);
    assert_eq!(rdr.seeks(), 1); // cursor was already at 177: no seek

    rdr.config_spec().expect("config_spec");
    assert_eq!(rdr.position(), 192);
    assert_eq!(rdr.seeks(), 1); // adjacent: no seek

    rdr.license().expect("license");
    assert_eq!(rdr.seeks(), 1); // still adjacent

    // Going back to the manifest is a non-adjacent access: exactly one seek.
    rdr.manifest().expect("manifest again");
    assert_eq!(rdr.seeks(), 2);
}

#[test]
fn absent_instructions_is_absence_not_error() {
    let s = Sections {
        instructions: None,
        ..Sections::simple()
    };
    let mut rdr = open(build_archive(&s)).expect("open");
    let pos = rdr.position();
    let seeks = rdr.seeks();
    let got = rdr.instructions().expect("instructions");
    assert_eq!(got, None);
    // The stream was not touched.
    assert_eq!(rdr.position(), pos);
    assert_eq!(rdr.seeks(), seeks);
}

#[test]
fn present_instructions_decode() {
    let s = Sections::simple();
    let mut rdr = open(build_archive(&s)).expect("open");
    assert_eq!(rdr.instructions().expect("instructions").as_deref(), Some("read me first"));
}

#[test]
fn corrupt_manifest_names_manifest() {
    // A validly signed archive whose manifest bytes are not CBOR: the
    // signature covers the corrupt bytes, so verification passes and the
    // failure is a parse error naming the manifest.
    let s = Sections {
        manifest: vec![0xFF, 0xFF, 0xFF],
        ..Sections::simple()
    };
    let mut rdr = open(build_archive(&s)).expect("open");
    assert!(matches!(
        rdr.manifest(),
        Err(Error::ParseS9pk(Part::Manifest))
    ));
    // Section-local failure: later sections still read.
    assert_eq!(rdr.license().expect("license"), "MIT License");
}

#[test]
fn invalid_utf8_license_names_license() {
    let s = Sections {
        license: vec![0xFF, 0xFE, 0x41],
        ..Sections::simple()
    };
    let mut rdr = open(build_archive(&s)).expect("open");
    assert!(matches!(
        rdr.license(),
        Err(Error::ParseS9pk(Part::License))
    ));
}

#[test]
fn short_header_is_a_header_parse_error() {
    assert!(matches!(
        open(vec![0u8; 50]),
        Err(Error::ParseS9pk(Part::Header))
    ));
}

#[test]
fn bad_presence_byte_is_a_header_parse_error() {
    let s = Sections {
        instructions: None,
        ..Sections::simple()
    };
    let mut bytes = build_archive(&s);
    bytes[176] = 2;
    assert!(matches!(
        open(bytes),
        Err(Error::ParseS9pk(Part::Header))
    ));
}

#[test]
fn overlong_descriptor_is_an_io_error() {
    // The TOC is not covered by the signature, so a descriptor running
    // past end-of-stream is caught at first access, as a short read.
    let s = Sections {
        instructions: None,
        ..Sections::simple()
    };
    let mut bytes = build_archive(&s);
    // The manifest descriptor's length field lies at bytes [104, 112).
    bytes[104..112].copy_from_slice(&u64::MAX.to_be_bytes());
    let mut rdr = open(bytes).expect("open");
    assert!(matches!(rdr.manifest(), Err(Error::Io)));
}

#[test]
fn abandoned_streaming_read_keeps_cursor_honest() {
    let s = Sections::simple();
    let mut rdr = open(build_archive(&s)).expect("open");
    rdr.manifest().expect("manifest");
    rdr.config_spec().expect("config_spec");
    rdr.license().expect("license");

    let mut handle = rdr.icon();
    assert_eq!(handle.limit(), 4);
    let first = handle.read(3);
    assert_eq!(first, vec![1, 2, 3]);
    assert_eq!(handle.limit(), 1);
    let mut rdr = handle.finish();

    // The cursor reflects exactly the three bytes consumed, so the next
    // access computes its seek from the true position.
    let seeks = rdr.seeks();
    rdr.license().expect("license");
    assert_eq!(rdr.seeks(), seeks + 1);
}

#[test]
fn empty_section_data_verifies_over_emptiness() {
    let s = Sections {
        manifest: Vec::new(),
        config_spec: Vec::new(),
        license: Vec::new(),
        icon: Vec::new(),
        app_image: Vec::new(),
        instructions: None,
    };
    let mut rdr = open(build_archive(&s)).expect("open");
    assert_eq!(rdr.license().expect("license"), "");
    let (_rdr, icon) = rdr.icon().to_vec();
    assert_eq!(icon.expect("icon"), Vec::<u8>::new());
}

#[test]
fn parse_errors_name_their_step() {
    assert_eq!(Part::Manifest.step(), "Deserializing Manifest (CBOR)");
    assert_eq!(Part::ConfigSpec.step(), "Deserializing Config Spec (CBOR)");
    assert_eq!(Part::License.step(), "Parsing License (UTF-8)");
    assert_eq!(Part::Instructions.step(), "Parsing Instructions (UTF-8)");
    assert_eq!(Part::Header.step(), "Deserializing Header");
}

#[test]
fn truncated_optional_descriptor_is_a_header_parse_error() {
    // The presence byte claims a sixth descriptor, but the stream ends
    // before it.
    let s = Sections::simple();
    let bytes = build_archive(&s);
    let truncated = bytes[..180].to_vec();
    assert!(matches!(
        open(truncated),
        Err(Error::ParseS9pk(Part::Header))
    ));
}

#[test]
fn bounded_read_stops_at_section_end() {
    let s = Sections::simple();
    let rdr = open(build_archive(&s)).expect("open");
    let mut handle = rdr.icon();
    // Asking for more than the section holds yields exactly the section.
    let got = handle.read(1000);
    assert_eq!(got, vec![1, 2, 3, 4]);
    assert_eq!(handle.limit(), 0);
    let more = handle.read(10);
    assert!(more.is_empty());
}
