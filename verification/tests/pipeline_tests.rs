use skindle::errors::Error;
use skindle::pipeline::{run, start, Action, Args, Event, State, Step};
use skindle::settings::Settings;
use skindle::smtp::{SendOutcome, SmtpReply};

fn settings(convert: bool) -> Settings {
    Settings::new(
        "smtp.example.com".to_string(),
        "user".to_string(),
        "secret".to_string(),
        "Alice <alice@example.com>".to_string(),
        "kindle@example.com".to_string(),
        convert,
    )
    .unwrap()
}

fn next(step: Step) -> (State, Action) {
    match step {
        Step::Next { state, action } => (state, action),
        Step::Done { .. } => panic!("pipeline finished too early"),
    }
}

fn done(step: Step) -> (Result<(), Error>, Option<Error>) {
    match step {
        Step::Done { result, cleanup } => (result, cleanup),
        Step::Next { .. } => panic!("pipeline is not finished"),
    }
}

fn accepted() -> Event {
    Event::SendFinished {
        outcome: SendOutcome::Replied {
            reply: SmtpReply { code: 250, lines: vec!["Ok".to_string()] },
        },
    }
}

#[test]
fn scenario_send_pdf_without_conversion() {
    let s = settings(false);
    let args = Args { ebook_file: "report.pdf".to_string() };
    let (state, action) = next(start(&args, "/tmp".to_string()));
    assert!(matches!(action, Action::CheckFile { path } if path == "report.pdf"));

    let (state, action) = next(run(
        &s,
        state,
        Event::FileChecked { exists: true, is_regular: true },
    ));
    assert!(matches!(action, Action::ReadFile { path } if path == "report.pdf"));

    let bytes = vec![0x25, 0x50, 0x44, 0x46];
    let (state, action) = next(run(&s, state, Event::FileRead { result: Ok(bytes.clone()) }));
    match &state {
        State::Sending { message, temp_path } => {
            assert_eq!(message.subject, "report.pdf");
            assert_eq!(message.attachment.filename, "report.pdf");
            assert_eq!(message.attachment.media_type, "application/pdf");
            assert_eq!(message.attachment.bytes, bytes);
            assert!(temp_path.is_none());
        },
        _ => panic!("expected the sending stage"),
    }
    match action {
        Action::Send { server, username, password, .. } => {
            assert_eq!(server, "smtp.example.com");
            assert_eq!(username, "user");
            assert_eq!(password, "secret");
        },
        _ => panic!("expected a send action"),
    }

    let (result, cleanup) = done(run(&s, state, accepted()));
    assert!(result.is_ok());
    assert!(cleanup.is_none());
}

#[test]
fn scenario_convert_epub_then_send_and_clean_up() {
    let s = settings(true);
    let args = Args { ebook_file: "book.epub".to_string() };
    let (state, _) = next(start(&args, "/tmp".to_string()));

    let (state, action) = next(run(
        &s,
        state,
        Event::FileChecked { exists: true, is_regular: true },
    ));
    assert!(matches!(
        action,
        Action::Convert { source, dest } if source == "book.epub" && dest == "/tmp/book.mobi"
    ));

    let (state, action) = next(run(
        &s,
        state,
        Event::ConverterFinished { launched: true, success: true },
    ));
    assert!(matches!(action, Action::ReadFile { path } if path == "/tmp/book.mobi"));

    let (state, _) = next(run(&s, state, Event::FileRead { result: Ok(vec![7, 8]) }));
    match &state {
        State::Sending { message, temp_path } => {
            assert_eq!(message.subject, "book.mobi");
            assert_eq!(message.attachment.filename, "book.mobi");
            assert_eq!(message.attachment.media_type, "application/x-mobipocket-ebook");
            assert_eq!(temp_path.as_deref(), Some("/tmp/book.mobi"));
        },
        _ => panic!("expected the sending stage"),
    }

    let (state, action) = next(run(&s, state, accepted()));
    assert!(matches!(action, Action::DeleteFile { path } if path == "/tmp/book.mobi"));

    let (result, cleanup) = done(run(&s, state, Event::FileDeleted { deletion: Ok(()) }));
    assert!(result.is_ok());
    assert!(cleanup.is_none());
}

#[test]
fn scenario_missing_input_fails_without_any_activity() {
    let s = settings(true);
    let args = Args { ebook_file: "missing.pdf".to_string() };
    let (state, _) = next(start(&args, "/tmp".to_string()));
    let (result, cleanup) = done(run(
        &s,
        state,
        Event::FileChecked { exists: false, is_regular: false },
    ));
    assert!(matches!(
        result,
        Err(Error::InvalidInput { path, missing: true }) if path == "missing.pdf"
    ));
    assert!(cleanup.is_none());
}

#[test]
fn directory_input_is_rejected_as_irregular() {
    let s = settings(false);
    let args = Args { ebook_file: "books".to_string() };
    let (state, _) = next(start(&args, "/tmp".to_string()));
    let (result, _) = done(run(
        &s,
        state,
        Event::FileChecked { exists: true, is_regular: false },
    ));
    assert!(matches!(
        result,
        Err(Error::InvalidInput { path, missing: false }) if path == "books"
    ));
}

#[test]
fn path_without_file_name_is_rejected_after_the_check() {
    let s = settings(false);
    let args = Args { ebook_file: "books/".to_string() };
    let (state, _) = next(start(&args, "/tmp".to_string()));
    let (result, _) = done(run(
        &s,
        state,
        Event::FileChecked { exists: true, is_regular: true },
    ));
    assert!(matches!(result, Err(Error::InvalidPath { path }) if path == "books/"));
}

#[test]
fn failed_conversion_stops_before_any_send() {
    let s = settings(true);
    let args = Args { ebook_file: "book.epub".to_string() };
    let (state, _) = next(start(&args, "/tmp".to_string()));
    let (state, _) = next(run(
        &s,
        state,
        Event::FileChecked { exists: true, is_regular: true },
    ));
    let (result, cleanup) = done(run(
        &s,
        state,
        Event::ConverterFinished { launched: true, success: false },
    ));
    assert!(matches!(result, Err(Error::ConversionFailed)));
    assert!(cleanup.is_none());
}

#[test]
fn unlaunchable_converter_is_reported_as_unavailable() {
    let s = settings(true);
    let args = Args { ebook_file: "book.epub".to_string() };
    let (state, _) = next(start(&args, "/tmp".to_string()));
    let (state, _) = next(run(
        &s,
        state,
        Event::FileChecked { exists: true, is_regular: true },
    ));
    let (result, _) = done(run(
        &s,
        state,
        Event::ConverterFinished { launched: false, success: false },
    ));
    assert!(matches!(result, Err(Error::ConverterUnavailable)));
}

#[test]
fn unreadable_artifact_is_an_attachment_read_error() {
    let s = settings(false);
    let args = Args { ebook_file: "report.pdf".to_string() };
    let (state, _) = next(start(&args, "/tmp".to_string()));
    let (state, _) = next(run(
        &s,
        state,
        Event::FileChecked { exists: true, is_regular: true },
    ));
    let (result, _) = done(run(
        &s,
        state,
        Event::FileRead { result: Err("permission denied".to_string()) },
    ));
    assert!(matches!(
        result,
        Err(Error::AttachmentReadError { path, detail })
            if path == "report.pdf" && detail == "permission denied"
    ));
}

#[test]
fn malformed_from_address_fails_composition() {
    let s = Settings::new(
        "smtp.example.com".to_string(),
        "user".to_string(),
        "secret".to_string(),
        "not-an-address".to_string(),
        "kindle@example.com".to_string(),
        false,
    )
    .unwrap();
    let args = Args { ebook_file: "report.pdf".to_string() };
    let (state, _) = next(start(&args, "/tmp".to_string()));
    let (state, _) = next(run(
        &s,
        state,
        Event::FileChecked { exists: true, is_regular: true },
    ));
    let (result, _) = done(run(&s, state, Event::FileRead { result: Ok(vec![]) }));
    assert!(matches!(
        result,
        Err(Error::InvalidAddress { address, .. }) if address == "not-an-address"
    ));
}

#[test]
fn temp_file_is_deleted_even_when_the_server_rejects() {
    let s = settings(true);
    let args = Args { ebook_file: "book.epub".to_string() };
    let (state, _) = next(start(&args, "/tmp".to_string()));
    let (state, _) = next(run(
        &s,
        state,
        Event::FileChecked { exists: true, is_regular: true },
    ));
    let (state, _) = next(run(
        &s,
        state,
        Event::ConverterFinished { launched: true, success: true },
    ));
    let (state, _) = next(run(&s, state, Event::FileRead { result: Ok(vec![1]) }));
    let (state, action) = next(run(
        &s,
        state,
        Event::SendFinished {
            outcome: SendOutcome::Replied {
                reply: SmtpReply { code: 554, lines: vec!["5.7.1 denied".to_string()] },
            },
        },
    ));
    assert!(matches!(action, Action::DeleteFile { path } if path == "/tmp/book.mobi"));

    let (result, cleanup) = done(run(
        &s,
        state,
        Event::FileDeleted { deletion: Err("busy".to_string()) },
    ));
    assert!(matches!(result, Err(Error::SendRejected { reply }) if reply == "5.7.1 denied"));
    assert!(matches!(cleanup, Some(Error::CleanupError { detail }) if detail == "busy"));
}
