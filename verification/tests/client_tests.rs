use duplex_chat::client::{
    run_client_task, run_client_task_with_nonce, ClientAction, ClientEvent, ClientPhase,
    ClientTask, ConnectFailure, GiveUp, Key, Notice, RETRY_DELAY_MS,
};
use duplex_chat::codec::{decode, encode_with_nonce, nonce_from, Frame, Mode};
use duplex_chat::digest::respond;
use duplex_chat::display::{split_line, Line};

const PROMPT: &str = "alice@host:~$ ";

fn in_session(password: &[u8]) -> ClientTask {
    let mut task = ClientTask::new(password, PROMPT);
    assert_eq!(run_client_task(&mut task, ClientEvent::Started), ClientAction::Connect);
    if password.is_empty() {
        assert_eq!(run_client_task(&mut task, ClientEvent::Connected), ClientAction::Poll);
    } else {
        assert_eq!(
            run_client_task(&mut task, ClientEvent::Connected),
            ClientAction::ReadExact(32)
        );
        let _ = run_client_task(&mut task, ClientEvent::Data(vec![4; 32]));
        assert_eq!(run_client_task(&mut task, ClientEvent::Done), ClientAction::Poll);
    }
    assert_eq!(task.phase(), ClientPhase::Editing);
    task
}

fn type_text(task: &mut ClientTask, text: &str) {
    for ch in text.chars() {
        assert_eq!(
            run_client_task(task, ClientEvent::Key(Key::Char(ch))),
            ClientAction::Echo(ch)
        );
        assert_eq!(run_client_task(task, ClientEvent::Done), ClientAction::Poll);
    }
}

#[test]
fn retry_delay_is_one_second() {
    assert_eq!(RETRY_DELAY_MS, 1000);
}

#[test]
fn reconnect_scenario_succeeds_on_the_fourth_attempt() {
    let mut task = ClientTask::new(b"", PROMPT);
    let mut attempts = 0;
    let mut waited_ms = Vec::new();
    let mut action = run_client_task(&mut task, ClientEvent::Started);
    let mut refusals_left = 3;
    loop {
        match action {
            ClientAction::Connect => {
                attempts += 1;
                if refusals_left > 0 {
                    refusals_left -= 1;
                    action = run_client_task(
                        &mut task,
                        ClientEvent::ConnectFailed(ConnectFailure::Other),
                    );
                } else {
                    action = run_client_task(&mut task, ClientEvent::Connected);
                }
            }
            ClientAction::Sleep(ms) => {
                waited_ms.push(ms);
                action = run_client_task(&mut task, ClientEvent::Done);
            }
            ClientAction::Poll => break,
            other => panic!("unexpected action {:?}", other),
        }
    }
    assert_eq!(attempts, 4);
    assert_eq!(waited_ms, vec![1000, 1000, 1000]);
    assert_eq!(task.phase(), ClientPhase::Editing);
}

#[test]
fn every_failed_attempt_is_followed_by_the_delay_before_the_next() {
    let mut task = ClientTask::new(b"alpha", PROMPT);
    assert_eq!(run_client_task(&mut task, ClientEvent::Started), ClientAction::Connect);
    for _ in 0..50 {
        assert_eq!(
            run_client_task(&mut task, ClientEvent::ConnectFailed(ConnectFailure::Other)),
            ClientAction::Sleep(1000)
        );
        assert_eq!(task.phase(), ClientPhase::Waiting);
        assert_eq!(run_client_task(&mut task, ClientEvent::Done), ClientAction::Connect);
        assert_eq!(task.phase(), ClientPhase::Connecting);
    }
}

#[test]
fn invalid_port_ends_the_loop() {
    let mut task = ClientTask::new(b"", PROMPT);
    let _ = run_client_task(&mut task, ClientEvent::Started);
    let stop = ClientAction::Stop(GiveUp::InvalidPeerPort);
    assert_eq!(
        run_client_task(&mut task, ClientEvent::ConnectFailed(ConnectFailure::InvalidPort)),
        stop
    );
    assert_eq!(run_client_task(&mut task, ClientEvent::Done), stop);
    assert_eq!(run_client_task(&mut task, ClientEvent::Connected), stop);
    assert_eq!(task.phase(), ClientPhase::Stopped(GiveUp::InvalidPeerPort));
}

#[test]
fn unknown_host_ends_the_loop() {
    let mut task = ClientTask::new(b"", PROMPT);
    let _ = run_client_task(&mut task, ClientEvent::Started);
    let stop = ClientAction::Stop(GiveUp::UnknownHost);
    assert_eq!(
        run_client_task(&mut task, ClientEvent::ConnectFailed(ConnectFailure::UnknownHost)),
        stop
    );
    assert_eq!(run_client_task(&mut task, ClientEvent::Done), stop);
}

#[test]
fn initiator_answers_the_challenge_with_the_digest() {
    let mut task = ClientTask::new(b"alpha", PROMPT);
    let _ = run_client_task(&mut task, ClientEvent::Started);
    assert_eq!(
        run_client_task(&mut task, ClientEvent::Connected),
        ClientAction::ReadExact(32)
    );
    let challenge = [0x17u8; 32];
    assert_eq!(
        run_client_task(&mut task, ClientEvent::Data(challenge.to_vec())),
        ClientAction::Write(respond(b"alpha", &challenge).to_vec())
    );
    assert_eq!(task.phase(), ClientPhase::SendingResponse);
    assert_eq!(run_client_task(&mut task, ClientEvent::Done), ClientAction::Poll);
}

#[test]
fn initiator_enters_the_session_whatever_comes_of_the_handshake() {
    let mut task = ClientTask::new(b"alpha", PROMPT);
    let _ = run_client_task(&mut task, ClientEvent::Started);
    let _ = run_client_task(&mut task, ClientEvent::Connected);
    assert_eq!(
        run_client_task(&mut task, ClientEvent::Failed),
        ClientAction::Report(Notice::ChallengeNotRead)
    );
    assert_eq!(run_client_task(&mut task, ClientEvent::Done), ClientAction::Poll);

    let mut task = ClientTask::new(b"alpha", PROMPT);
    let _ = run_client_task(&mut task, ClientEvent::Started);
    let _ = run_client_task(&mut task, ClientEvent::Connected);
    assert_eq!(
        run_client_task(&mut task, ClientEvent::Data(vec![0; 7])),
        ClientAction::Report(Notice::ChallengeNotRead)
    );

    let mut task = ClientTask::new(b"alpha", PROMPT);
    let _ = run_client_task(&mut task, ClientEvent::Started);
    let _ = run_client_task(&mut task, ClientEvent::Connected);
    let _ = run_client_task(&mut task, ClientEvent::Data(vec![0; 32]));
    assert_eq!(
        run_client_task(&mut task, ClientEvent::Failed),
        ClientAction::Report(Notice::ResponseNotSent)
    );
    assert_eq!(run_client_task(&mut task, ClientEvent::Done), ClientAction::Poll);
    assert_eq!(task.phase(), ClientPhase::Editing);
}

#[test]
fn typed_characters_fill_the_input_line() {
    let mut task = in_session(b"");
    type_text(&mut task, "héllo");
    assert_eq!(task.buffer(), "héllo");
}

#[test]
fn idle_and_other_keys_change_nothing() {
    let mut task = in_session(b"");
    type_text(&mut task, "ab");
    assert_eq!(run_client_task(&mut task, ClientEvent::Idle), ClientAction::Poll);
    assert_eq!(run_client_task(&mut task, ClientEvent::Key(Key::Other)), ClientAction::Poll);
    assert_eq!(task.buffer(), "ab");
    assert_eq!(task.phase(), ClientPhase::Editing);
}

#[test]
fn backspace_wipes_only_right_of_the_prompt() {
    let mut task = in_session(b"");
    type_text(&mut task, "ab");
    let at_prompt_end = PROMPT.len() as u16;
    assert_eq!(
        run_client_task(
            &mut task,
            ClientEvent::Key(Key::Backspace { cursor: Some(at_prompt_end) })
        ),
        ClientAction::Poll
    );
    assert_eq!(task.buffer(), "ab");
    assert_eq!(
        run_client_task(
            &mut task,
            ClientEvent::Key(Key::Backspace { cursor: Some(at_prompt_end + 1) })
        ),
        ClientAction::Erase
    );
    assert_eq!(task.buffer(), "a");
    assert_eq!(run_client_task(&mut task, ClientEvent::Done), ClientAction::Poll);
    assert_eq!(
        run_client_task(&mut task, ClientEvent::Key(Key::Backspace { cursor: Some(0) })),
        ClientAction::Poll
    );
    assert_eq!(task.buffer(), "a");
}

#[test]
fn backspace_on_an_empty_line_wipes_nothing_more() {
    let mut task = in_session(b"");
    assert_eq!(
        run_client_task(&mut task, ClientEvent::Key(Key::Backspace { cursor: Some(500) })),
        ClientAction::Erase
    );
    assert_eq!(task.buffer(), "");
}

#[test]
fn backspace_without_a_cursor_position_is_reported() {
    let mut task = in_session(b"");
    type_text(&mut task, "ab");
    assert_eq!(
        run_client_task(&mut task, ClientEvent::Key(Key::Backspace { cursor: None })),
        ClientAction::Report(Notice::CursorUnknown)
    );
    assert_eq!(task.buffer(), "ab");
}

#[test]
fn backspace_limit_wraps_at_sixteen_bits() {
    let long_prompt = "p".repeat(65535);
    let mut task = ClientTask::new(b"", &long_prompt);
    let _ = run_client_task(&mut task, ClientEvent::Started);
    let _ = run_client_task(&mut task, ClientEvent::Connected);
    let _ = run_client_task(&mut task, ClientEvent::Key(Key::Char('x')));
    let _ = run_client_task(&mut task, ClientEvent::Done);
    assert_eq!(
        run_client_task(&mut task, ClientEvent::Key(Key::Backspace { cursor: Some(0) })),
        ClientAction::Erase
    );
    assert_eq!(task.buffer(), "");
}

#[test]
fn pending_output_redraws_the_input_line() {
    let mut task = in_session(b"");
    type_text(&mut task, "half a li");
    assert_eq!(
        run_client_task(&mut task, ClientEvent::OutputPending),
        ClientAction::Redraw("half a li".to_string())
    );
    assert_eq!(task.phase(), ClientPhase::Displaying);
    assert_eq!(run_client_task(&mut task, ClientEvent::Done), ClientAction::Poll);
    assert_eq!(task.buffer(), "half a li");
}

#[test]
fn enter_on_an_empty_line_sends_nothing() {
    let mut task = in_session(b"alpha");
    assert_eq!(run_client_task(&mut task, ClientEvent::Key(Key::Enter)), ClientAction::Poll);
    assert_eq!(task.phase(), ClientPhase::Editing);
}

#[test]
fn enter_sends_prompt_and_text_in_the_clear_without_a_password() {
    let mut task = in_session(b"");
    type_text(&mut task, "hello$world");
    assert_eq!(
        run_client_task(&mut task, ClientEvent::Key(Key::Enter)),
        ClientAction::Send(b"alice@host:~$ hello$world".to_vec())
    );
    assert_eq!(task.buffer(), "");
    assert_eq!(task.phase(), ClientPhase::Sending);
    assert_eq!(run_client_task(&mut task, ClientEvent::Done), ClientAction::Poll);
}

#[test]
fn enter_sends_nonce_then_sealed_line_with_a_password() {
    let mut task = in_session(b"alpha");
    type_text(&mut task, "hi there");
    let action = run_client_task_with_nonce(&mut task, ClientEvent::Key(Key::Enter), [6; 12]);
    let expected = encode_with_nonce(
        b"alice@host:~$ hi there",
        &Mode::from_password(b"alpha"),
        &[6; 12],
    )
    .unwrap();
    assert_eq!(action, ClientAction::Send(expected.to_wire()));
    assert_eq!(task.buffer(), "");
}

#[test]
fn what_the_initiator_sends_the_responder_side_can_show() {
    let mut task = in_session(b"alpha");
    type_text(&mut task, "see you at 5$");
    let wire = match run_client_task(&mut task, ClientEvent::Key(Key::Enter)) {
        ClientAction::Send(wire) => wire,
        other => panic!("expected a frame to send, got {:?}", other),
    };
    let frame = Frame::Sealed {
        nonce: nonce_from(&wire[..12]).unwrap(),
        ciphertext: wire[12..].to_vec(),
    };
    let payload = decode(&frame, &Mode::from_password(b"alpha")).unwrap();
    assert_eq!(
        split_line(&payload),
        Line { tag: PROMPT.as_bytes().to_vec(), body: b"see you at 5$".to_vec() }
    );
}

#[test]
fn two_sealed_lines_use_different_nonces() {
    let mut task = in_session(b"alpha");
    let mut nonces = Vec::new();
    for _ in 0..2 {
        type_text(&mut task, "same");
        match run_client_task(&mut task, ClientEvent::Key(Key::Enter)) {
            ClientAction::Send(wire) => nonces.push(wire[..12].to_vec()),
            other => panic!("expected a frame to send, got {:?}", other),
        }
        let _ = run_client_task(&mut task, ClientEvent::Done);
    }
    assert_ne!(nonces[0], nonces[1]);
}

#[test]
fn failed_write_leads_back_to_connecting() {
    let mut task = in_session(b"");
    type_text(&mut task, "lost");
    let _ = run_client_task(&mut task, ClientEvent::Key(Key::Enter));
    assert_eq!(run_client_task(&mut task, ClientEvent::Failed), ClientAction::Reconnect);
    assert_eq!(task.phase(), ClientPhase::Connecting);
    assert_eq!(run_client_task(&mut task, ClientEvent::Connected), ClientAction::Poll);
    assert_eq!(task.buffer(), "");
}

#[test]
fn esc_ends_the_process_at_once() {
    let mut task = in_session(b"alpha");
    type_text(&mut task, "unsent");
    assert_eq!(run_client_task(&mut task, ClientEvent::Key(Key::Esc)), ClientAction::Quit);
    assert_eq!(task.phase(), ClientPhase::Quit);
    assert_eq!(run_client_task(&mut task, ClientEvent::Done), ClientAction::Quit);
    assert_eq!(run_client_task(&mut task, ClientEvent::Connected), ClientAction::Quit);
}

#[test]
fn password_mode_and_prompt_stay_fixed() {
    let mut task = in_session(b"alpha");
    let mode = task.mode;
    type_text(&mut task, "x");
    let _ = run_client_task(&mut task, ClientEvent::Key(Key::Enter));
    let _ = run_client_task(&mut task, ClientEvent::Failed);
    let _ = run_client_task(&mut task, ClientEvent::ConnectFailed(ConnectFailure::Other));
    assert_eq!(task.mode, mode);
    assert_eq!(task.password, b"alpha".to_vec());
    assert_eq!(task.prompt, PROMPT);
}
