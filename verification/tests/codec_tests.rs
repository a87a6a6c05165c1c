use duplex_chat::codec::{
    copy_bytes, decode, encode, encode_with_nonce, nonce_from, DecodeError, Frame, Mode,
    MAX_CHUNK, NONCE_LEN, TAG_LEN,
};
use duplex_chat::digest::derive_key;
use std::collections::HashSet;

fn unhex(text: &str) -> Vec<u8> {
    let digits: Vec<u8> = text
        .bytes()
        .map(|b| match b {
            b'0'..=b'9' => b - b'0',
            b'a'..=b'f' => b - b'a' + 10,
            _ => panic!("not a hex digit"),
        })
        .collect();
    digits.chunks(2).map(|pair| pair[0] * 16 + pair[1]).collect()
}

fn sealed_parts(frame: &Frame) -> ([u8; 12], Vec<u8>) {
    match frame {
        Frame::Sealed { nonce, ciphertext } => (*nonce, ciphertext.clone()),
        Frame::Raw(_) => panic!("expected a sealed frame"),
    }
}

#[test]
fn mode_follows_the_password() {
    assert_eq!(Mode::from_password(b""), Mode::Unencrypted);
    assert_eq!(
        Mode::from_password(b"alpha"),
        Mode::Encrypted { key: derive_key(b"alpha") }
    );
    assert!(!Mode::from_password(b"").is_encrypted());
    assert!(Mode::from_password(b"alpha").is_encrypted());
}

#[test]
fn constants_are_those_of_the_wire_format() {
    assert_eq!(NONCE_LEN, 12);
    assert_eq!(TAG_LEN, 16);
    assert_eq!(MAX_CHUNK, 1024);
}

#[test]
fn sealing_nothing_under_the_zero_key_gives_the_published_tag() {
    let mode = Mode::Encrypted { key: [0u8; 32] };
    let frame = encode_with_nonce(b"", &mode, &[0u8; 12]).unwrap();
    let (nonce, ciphertext) = sealed_parts(&frame);
    assert_eq!(nonce, [0u8; 12]);
    assert_eq!(ciphertext, unhex("530f8afbc74536b9a963b4f1c4cb738b"));
}

#[test]
fn sealing_one_zero_block_under_the_zero_key_gives_the_published_ciphertext() {
    let mode = Mode::Encrypted { key: [0u8; 32] };
    let frame = encode_with_nonce(&[0u8; 16], &mode, &[0u8; 12]).unwrap();
    let (_, ciphertext) = sealed_parts(&frame);
    assert_eq!(
        ciphertext,
        unhex("cea7403d4d606b6e074ec5d3baf39d18d0d1c8a799996bf0265b98b5d48ab919")
    );
}

#[test]
fn opening_the_published_ciphertext_gives_the_zero_block() {
    let mode = Mode::Encrypted { key: [0u8; 32] };
    let frame = Frame::Sealed {
        nonce: [0u8; 12],
        ciphertext: unhex("cea7403d4d606b6e074ec5d3baf39d18d0d1c8a799996bf0265b98b5d48ab919"),
    };
    assert_eq!(decode(&frame, &mode), Ok(vec![0u8; 16]));
}

#[test]
fn sealed_round_trip_gives_the_plaintext_back() {
    let mode = Mode::from_password(b"alpha");
    let nonce = [9u8; 12];
    for plaintext in [&b""[..], &b"x"[..], &b"alice@host:~$ hello"[..], &[0xffu8; 1000][..]] {
        let frame = encode_with_nonce(plaintext, &mode, &nonce).unwrap();
        let (used, ciphertext) = sealed_parts(&frame);
        assert_eq!(used, nonce);
        assert_eq!(ciphertext.len(), plaintext.len() + TAG_LEN);
        assert_eq!(decode(&frame, &mode), Ok(plaintext.to_vec()));
    }
}

#[test]
fn sealed_round_trip_with_a_drawn_nonce() {
    let mode = Mode::from_password(b"alpha");
    let frame = encode(b"hello there", &mode).unwrap();
    assert!(matches!(frame, Frame::Sealed { .. }));
    assert_eq!(decode(&frame, &mode), Ok(b"hello there".to_vec()));
}

#[test]
fn sealing_hides_the_plaintext() {
    let mode = Mode::from_password(b"alpha");
    let plaintext = b"a line that must not travel in the clear";
    let frame = encode_with_nonce(plaintext, &mode, &[3u8; 12]).unwrap();
    let (_, ciphertext) = sealed_parts(&frame);
    assert_ne!(&ciphertext[..plaintext.len()], &plaintext[..]);
}

#[test]
fn unencrypted_encode_returns_the_plaintext_unchanged() {
    let frame = encode(b"alice@host:~$ hi", &Mode::Unencrypted).unwrap();
    assert_eq!(frame, Frame::Raw(b"alice@host:~$ hi".to_vec()));
    let same = encode_with_nonce(b"alice@host:~$ hi", &Mode::Unencrypted, &[1u8; 12]).unwrap();
    assert_eq!(same, frame);
    assert_eq!(decode(&frame, &Mode::Unencrypted), Ok(b"alice@host:~$ hi".to_vec()));
}

#[test]
fn delimiter_line_survives_the_unencrypted_codec_byte_for_byte() {
    let input = b"alice@host:~$ hello$world";
    let frame = encode(input, &Mode::Unencrypted).unwrap();
    assert_eq!(frame.to_wire(), input.to_vec());
    assert_eq!(decode(&frame, &Mode::Unencrypted), Ok(input.to_vec()));
}

#[test]
fn flipping_any_ciphertext_byte_is_rejected() {
    let mode = Mode::from_password(b"alpha");
    let frame = encode_with_nonce(b"alice@host:~$ hello", &mode, &[5u8; 12]).unwrap();
    let (nonce, ciphertext) = sealed_parts(&frame);
    for index in 0..ciphertext.len() {
        for mask in [0x01u8, 0x80u8, 0xffu8] {
            let mut tampered = ciphertext.clone();
            tampered[index] ^= mask;
            let forged = Frame::Sealed { nonce, ciphertext: tampered };
            assert_eq!(decode(&forged, &mode), Err(DecodeError::AuthenticationFailed));
        }
    }
}

#[test]
fn flipping_any_nonce_byte_is_rejected() {
    let mode = Mode::from_password(b"alpha");
    let frame = encode_with_nonce(b"alice@host:~$ hello", &mode, &[5u8; 12]).unwrap();
    let (nonce, ciphertext) = sealed_parts(&frame);
    for index in 0..nonce.len() {
        let mut other = nonce;
        other[index] ^= 0x01;
        let forged = Frame::Sealed { nonce: other, ciphertext: ciphertext.clone() };
        assert_eq!(decode(&forged, &mode), Err(DecodeError::AuthenticationFailed));
    }
}

#[test]
fn a_frame_sealed_under_another_key_is_rejected() {
    let frame = encode_with_nonce(b"hello", &Mode::from_password(b"alpha"), &[5u8; 12]).unwrap();
    assert_eq!(
        decode(&frame, &Mode::from_password(b"beta")),
        Err(DecodeError::AuthenticationFailed)
    );
}

#[test]
fn a_truncated_chunk_is_rejected() {
    let mode = Mode::from_password(b"alpha");
    let frame = encode_with_nonce(b"hello", &mode, &[5u8; 12]).unwrap();
    let (nonce, ciphertext) = sealed_parts(&frame);
    for keep in 0..ciphertext.len() {
        let cut = Frame::Sealed { nonce, ciphertext: ciphertext[..keep].to_vec() };
        assert_eq!(decode(&cut, &mode), Err(DecodeError::AuthenticationFailed));
    }
}

#[test]
fn a_frame_of_the_wrong_kind_is_a_mode_mismatch() {
    let sealed = encode_with_nonce(b"hello", &Mode::from_password(b"alpha"), &[5u8; 12]).unwrap();
    assert_eq!(decode(&sealed, &Mode::Unencrypted), Err(DecodeError::ModeMismatch));
    let raw = Frame::Raw(b"hello".to_vec());
    assert_eq!(
        decode(&raw, &Mode::from_password(b"alpha")),
        Err(DecodeError::ModeMismatch)
    );
}

#[test]
fn ten_thousand_encodes_never_repeat_a_nonce() {
    let mode = Mode::from_password(b"alpha");
    let mut seen: HashSet<[u8; 12]> = HashSet::new();
    for _ in 0..10_000 {
        let frame = encode(b"tick", &mode).unwrap();
        let (nonce, _) = sealed_parts(&frame);
        assert!(seen.insert(nonce));
    }
    assert_eq!(seen.len(), 10_000);
}

#[test]
fn wire_form_is_nonce_then_ciphertext() {
    let frame = Frame::Sealed { nonce: [7u8; 12], ciphertext: vec![1, 2, 3] };
    let mut expected = vec![7u8; 12];
    expected.extend_from_slice(&[1, 2, 3]);
    assert_eq!(frame.to_wire(), expected);
    assert_eq!(Frame::Raw(vec![4, 5]).to_wire(), vec![4, 5]);
}

#[test]
fn nonce_from_wants_exactly_twelve_bytes() {
    let twelve = [1, 2, 3, 4, 5, 6, 7, 8, 9, 10, 11, 12];
    assert_eq!(nonce_from(&twelve), Some(twelve));
    assert_eq!(nonce_from(&[0u8; 11]), None);
    assert_eq!(nonce_from(&[0u8; 13]), None);
    assert_eq!(nonce_from(&[]), None);
}

#[test]
fn copy_bytes_copies() {
    assert_eq!(copy_bytes(b"abc"), b"abc".to_vec());
    assert_eq!(copy_bytes(b""), Vec::<u8>::new());
}
