use duplex_chat::display::{prompt_for, split_line, Line, BLANK, DELIMITER};

fn parts(payload: &[u8]) -> (Vec<u8>, Vec<u8>) {
    let Line { tag, body } = split_line(payload);
    (tag, body)
}

#[test]
fn delimiter_scenario_splits_at_the_first_delimiter_only() {
    let (tag, body) = parts(b"alice@host:~$ hello$world");
    assert_eq!(tag, b"alice@host:~$ ".to_vec());
    assert_eq!(body, b"hello$world".to_vec());
}

#[test]
fn delimiter_and_blank_are_dollar_and_space() {
    assert_eq!(DELIMITER, b'$');
    assert_eq!(BLANK, b' ');
}

#[test]
fn split_keeps_every_byte() {
    for payload in [
        &b""[..],
        &b"$"[..],
        &b"$ "[..],
        &b"no delimiter here"[..],
        &b"a$b$c"[..],
        &b"a$ $ b"[..],
        &[0xff, 0x24, 0x20, 0x00, 0xfe][..],
    ] {
        let (mut tag, body) = parts(payload);
        tag.extend_from_slice(&body);
        assert_eq!(tag, payload.to_vec());
    }
}

#[test]
fn payload_without_delimiter_is_all_body() {
    assert_eq!(parts(b"hello world"), (Vec::new(), b"hello world".to_vec()));
    assert_eq!(parts(b""), (Vec::new(), Vec::new()));
}

#[test]
fn tag_ends_behind_the_delimiter_where_no_blank_follows() {
    assert_eq!(parts(b"bob$hi"), (b"bob$".to_vec(), b"hi".to_vec()));
    assert_eq!(parts(b"bob$"), (b"bob$".to_vec(), Vec::new()));
    assert_eq!(parts(b"$"), (b"$".to_vec(), Vec::new()));
}

#[test]
fn tag_takes_one_blank_only() {
    assert_eq!(parts(b"bob$  hi"), (b"bob$ ".to_vec(), b" hi".to_vec()));
    assert_eq!(parts(b"bob$ "), (b"bob$ ".to_vec(), Vec::new()));
}

#[test]
fn body_may_begin_with_a_delimiter() {
    assert_eq!(parts(b"bob$ $5"), (b"bob$ ".to_vec(), b"$5".to_vec()));
    assert_eq!(parts(b"bob$$5"), (b"bob$".to_vec(), b"$5".to_vec()));
}

#[test]
fn prompt_comes_off_whole_whatever_the_text() {
    let prompt = prompt_for("carol", "10.0.0.7");
    for text in ["", "hi", "$", " $ ", "cost: $5 $6", "~$ "] {
        let mut payload = prompt.clone().into_bytes();
        payload.extend_from_slice(text.as_bytes());
        let (tag, body) = parts(&payload);
        assert_eq!(tag, prompt.as_bytes().to_vec());
        assert_eq!(body, text.as_bytes().to_vec());
    }
}

#[test]
fn prompt_is_name_at_host_and_closing_mark() {
    assert_eq!(prompt_for("alice", "host"), "alice@host:~$ ");
    assert_eq!(prompt_for("", ""), "@:~$ ");
    assert_eq!(prompt_for("192.168.1.4", "192.168.1.4"), "192.168.1.4@192.168.1.4:~$ ");
}
