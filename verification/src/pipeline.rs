use vstd::prelude::*;

use crate::compose::{
    build_mime, compose, lemma_media_type_known, media_type_for, parsed_mailbox, OutgoingMessage,
};
use crate::errors::Error;
use crate::paths::{extension_of, file_name_of, has_file_name, FileInfo};
use crate::settings::Settings;
use crate::smtp::{interpret_send, is_positive, SendOutcome};
use crate::strings::joined_lines;

verus! {

/// The caller-supplied input: the path of the ebook file to deliver.
pub struct Args {
    pub ebook_file: String,
}

/// What the pipeline asks its caller to perform next.  The caller carries the
/// action out and feeds its outcome back into [`run`] as an [`Event`].
pub enum Action {
    /// Report whether the path exists and whether it is a regular file.
    CheckFile { path: String },
    /// Run the external converter on `source`, writing `dest`, and wait.
    Convert { source: String, dest: String },
    /// Read the full byte content of the file at `path`.
    ReadFile { path: String },
    /// Open an authenticated SMTP session to `server` and submit `mime`.
    Send { mime: lettre::Message, server: String, username: String, password: String },
    /// Delete the file at `path`.
    DeleteFile { path: String },
}

/// The outcome of the action the pipeline last asked for.
pub enum Event {
    FileChecked { exists: bool, is_regular: bool },
    ConverterFinished { launched: bool, success: bool },
    FileRead { result: Result<Vec<u8>, String> },
    SendFinished { outcome: SendOutcome },
    FileDeleted { deletion: Result<(), String> },
}

/// Where the pipeline stands between two actions.
pub enum State {
    /// Waiting to hear whether the input path is an existing regular file.
    Checking { path: String, temp_dir: String },
    /// Waiting for the external converter to finish.
    Converting { source: FileInfo, dest: FileInfo },
    /// Waiting for the artifact's bytes; `temp_path` is the converted file to
    /// delete later, if conversion happened.
    Reading { file: FileInfo, temp_path: Option<String> },
    /// Waiting for the SMTP submission's outcome.
    Sending { message: OutgoingMessage, temp_path: Option<String> },
    /// Waiting for the temporary converted file's deletion.
    CleaningUp { send_result: Result<(), Error> },
}

impl State {
    pub open spec fn wf(&self) -> bool {
        match *self {
            State::Checking { .. } => true,
            State::Converting { source, dest } => source.wf() && dest.wf(),
            State::Reading { file, .. } => file.wf(),
            State::Sending { message, .. } => message.wf(),
            State::CleaningUp { .. } => true,
        }
    }

    /// The event that answers this state's pending action.
    pub open spec fn expects(&self, event: Event) -> bool {
        match *self {
            State::Checking { .. } => event is FileChecked,
            State::Converting { .. } => event is ConverterFinished,
            State::Reading { .. } => event is FileRead,
            State::Sending { .. } => event is SendFinished,
            State::CleaningUp { .. } => event is FileDeleted,
        }
    }
}

/// One turn of the pipeline: either the next state with the action whose
/// outcome it waits for, or the finished pipeline's results.
pub enum Step {
    Next { state: State, action: Action },
    /// `result` is the delivery's outcome; `cleanup` is the secondary error
    /// of a failed temp-file deletion, which never overrides `result`.
    Done { result: Result<(), Error>, cleanup: Option<Error> },
}

/// The send stage's result for a given transport outcome: success exactly on
/// a positive server reply; a connection failure, a transport failure and a
/// server rejection (carrying the server's reply text) stay distinguishable.
pub open spec fn send_result_for(result: Result<(), Error>, outcome: SendOutcome) -> bool {
    &&& result is Ok <==> (outcome matches SendOutcome::Replied { reply } && is_positive(
        reply.code,
    ))
    &&& outcome matches SendOutcome::ConnectionFailed { detail } ==> (result matches Err(e)
        && e matches Error::ConnectionError { detail: d } && d@ == detail@)
    &&& outcome matches SendOutcome::TransportFailed { detail } ==> (result matches Err(e)
        && e matches Error::SendError { detail: d } && d@ == detail@)
    &&& outcome matches SendOutcome::Replied { reply } ==> (!is_positive(reply.code) ==> (
    result matches Err(e) && e matches Error::SendRejected { reply: t } && t@ == joined_lines(
        reply.lines.deep_view(),
    )))
}

/// Begins one delivery of `args.ebook_file`: the pipeline first asks its
/// caller whether the path exists and refers to a regular file.
pub fn start(args: &Args, temp_dir: String) -> (r: Step)
    ensures
        r matches Step::Next { state, action } && (state matches State::Checking {
            path,
            temp_dir: t,
        } && path@ == args.ebook_file@ && t@ == temp_dir@) && (
        action matches Action::CheckFile { path: p } && p@ == args.ebook_file@),
{
    let path = args.ebook_file.clone();
    Step::Next {
        state: State::Checking { path: args.ebook_file.clone(), temp_dir },
        action: Action::CheckFile { path },
    }
}

/// Advances the pipeline by one stage, from the outcome of the action it was
/// waiting for.  The stages run strictly in order — validate, optionally
/// convert, compose, send, optionally clean up — and every stage failure ends
/// the pipeline at once, except a cleanup failure, which is reported beside
/// the send stage's own outcome.
pub fn run(settings: &Settings, state: State, event: Event) -> (r: Step)
    requires
        settings.wf(),
        state.wf(),
        state.expects(event),
    ensures
        // The machine only ever moves to a well-formed state, a conversion is
        // requested only by validation, a submission only by composition, and
        // a deletion only by the send stage: never before the send attempt.
        r matches Step::Next { state: s2, action: a2 } ==> {
            &&& s2.wf()
            &&& a2 is CheckFile ==> false
            &&& a2 is Convert ==> state is Checking
            &&& a2 is ReadFile ==> state is Checking || state is Converting
            &&& a2 is Send ==> state is Reading
            &&& a2 is DeleteFile ==> state is Sending
        },
        // Validation: a missing or irregular path ends the pipeline with
        // `InvalidInput` and no further activity; a path without a file name
        // with `InvalidPath`; otherwise conversion is requested if and only
        // if the settings ask for it, else the artifact is read unchanged.
        state matches State::Checking { path, temp_dir } ==> (
        event matches Event::FileChecked { exists, is_regular } ==> {
            &&& !exists ==> (r matches Step::Done { result, cleanup } && cleanup is None && (
            result matches Err(e) && (e matches Error::InvalidInput { path: p, missing } && p@
                == path@ && missing)))
            &&& exists && !is_regular ==> (r matches Step::Done { result, cleanup }
                && cleanup is None && (result matches Err(e) && (
            e matches Error::InvalidInput { path: p, missing } && p@ == path@ && !missing)))
            &&& exists && is_regular && !has_file_name(path@) ==> (r matches Step::Done {
                result,
                cleanup,
            } && cleanup is None && (result matches Err(e) && (
            e matches Error::InvalidPath { path: p } && p@ == path@)))
            &&& exists && is_regular && has_file_name(path@)
                && settings.convert_before_send ==> (r matches Step::Next {
                state: s2,
                action: a2,
            } && (s2 matches State::Converting { source, dest } && source.path@ == path@
                && source.name@ == file_name_of(path@) && dest.path@ == temp_dir@ + "/"@
                + source.stem@ + "."@ + "mobi"@ && dest.name@ == source.stem@ + "."@
                + "mobi"@ && (a2 matches Action::Convert { source: sp, dest: dp } && sp@
                == path@ && dp@ == dest.path@)))
            &&& exists && is_regular && has_file_name(path@)
                && !settings.convert_before_send ==> (r matches Step::Next {
                state: s2,
                action: a2,
            } && (s2 matches State::Reading { file, temp_path } && file.path@ == path@
                && file.name@ == file_name_of(path@) && temp_path is None && (
            a2 matches Action::ReadFile { path: rp } && rp@ == path@)))
        }),
        // Conversion: a converter that could not launch, or exited with a
        // non-success status, ends the pipeline with no send attempted;
        // otherwise the converted artifact is read, and remembered as the
        // temporary file to delete.
        state matches State::Converting { source, dest } ==> (
        event matches Event::ConverterFinished { launched, success } ==> {
            &&& !launched ==> (r matches Step::Done { result, cleanup } && cleanup is None
                && (result matches Err(e) && e is ConverterUnavailable))
            &&& launched && !success ==> (r matches Step::Done { result, cleanup }
                && cleanup is None && (result matches Err(e) && e is ConversionFailed))
            &&& launched && success ==> (r matches Step::Next { state: s2, action: a2 } && (
            s2 matches State::Reading { file, temp_path } && file == dest && (
            temp_path matches Some(t) && t@ == dest.path@) && (
            a2 matches Action::ReadFile { path: rp } && rp@ == dest.path@)))
        }),
        // Composition: a failed read ends the pipeline with
        // `AttachmentReadError`; a malformed address with `InvalidAddress`
        // naming the field; otherwise the message's subject, body text and
        // attachment filename all equal the artifact's display name, the
        // attachment's bytes equal the bytes read, its media type follows the
        // artifact's extension, and submission is requested with the
        // configured server and credentials.
        state matches State::Reading { file, temp_path } ==> (
        event matches Event::FileRead { result: read } ==> {
            &&& read matches Err(d) ==> (r matches Step::Done { result, cleanup }
                && cleanup is None && (result matches Err(e) && (
            e matches Error::AttachmentReadError { path: p, detail } && p@ == file.path@
                && detail@ == d@)))
            &&& read matches Ok(bytes) ==> {
                &&& parsed_mailbox(settings.from_address@) is None ==> (r matches Step::Done {
                    result,
                    cleanup,
                } && cleanup is None && (result matches Err(e) && (
                e matches Error::InvalidAddress { field, address } && field is Sender
                    && address@ == settings.from_address@)))
                &&& parsed_mailbox(settings.from_address@) is Some && parsed_mailbox(
                    settings.to_address@,
                ) is None ==> (r matches Step::Done { result, cleanup } && cleanup is None
                    && (result matches Err(e) && (e matches Error::InvalidAddress {
                    field,
                    address,
                } && field is Recipient && address@ == settings.to_address@)))
                &&& parsed_mailbox(settings.from_address@) is Some && parsed_mailbox(
                    settings.to_address@,
                ) is Some ==> (r matches Step::Next { state: s2, action: a2 } && (
                s2 matches State::Sending { message, temp_path: t2 } && t2 == temp_path
                    && message.from == parsed_mailbox(settings.from_address@)->Some_0
                    && message.to == parsed_mailbox(settings.to_address@)->Some_0
                    && message.subject@ == file.name@ && message.body_text@ == file.name@
                    && message.attachment.filename@ == file.name@
                    && message.attachment.bytes@ == bytes@ && message.attachment.media_type@
                    == media_type_for(extension_of(file.name@)) && (
                a2 matches Action::Send { mime, server, username, password } && server@
                    == settings.smtp_server@ && username@ == settings.smtp_username@
                    && password@ == settings.smtp_password@)))
            }
        }),
        // Transmission: whatever the outcome, the temporary converted file —
        // if there is one — is deleted next, exactly once; without one the
        // pipeline is done.  Either way the send stage's result follows the
        // server's reply.
        state matches State::Sending { message, temp_path } ==> (
        event matches Event::SendFinished { outcome } ==> {
            &&& temp_path matches Some(t) ==> (r matches Step::Next { state: s2, action: a2 }
                && (s2 matches State::CleaningUp { send_result } && send_result_for(
                send_result,
                outcome,
            ) && (a2 matches Action::DeleteFile { path: p } && p@ == t@)))
            &&& temp_path is None ==> (r matches Step::Done { result, cleanup }
                && send_result_for(result, outcome) && cleanup is None)
        }),
        // Cleanup: the send stage's result is reported unchanged; a failed
        // deletion is surfaced beside it as a secondary `CleanupError`.
        state matches State::CleaningUp { send_result } ==> (
        event matches Event::FileDeleted { deletion: del } ==> (r matches Step::Done {
            result,
            cleanup,
        } && result == send_result && (del is Ok ==> cleanup is None) && (
        del matches Err(d) ==> (cleanup matches Some(c) && (
        c matches Error::CleanupError { detail } && detail@ == d@))))),
{
    match (state, event) {
        (State::Checking { path, temp_dir }, Event::FileChecked { exists, is_regular }) => {
            if !exists {
                Step::Done {
                    result: Err(Error::InvalidInput { path, missing: true }),
                    cleanup: None,
                }
            } else if !is_regular {
                Step::Done {
                    result: Err(Error::InvalidInput { path, missing: false }),
                    cleanup: None,
                }
            } else {
                match FileInfo::from_path(path.as_str()) {
                    Err(e) => Step::Done { result: Err(e), cleanup: None },
                    Ok(file) => {
                        if settings.convert_before_send {
                            proof {
                                reveal_strlit("mobi");
                                assert forall|i: int| 0 <= i < "mobi"@.len() implies "mobi"@[i]
                                    != '/' && "mobi"@[i] != '.' by {
                                    assert("mobi"@[0] == 'm');
                                    assert("mobi"@[1] == 'o');
                                    assert("mobi"@[2] == 'b');
                                    assert("mobi"@[3] == 'i');
                                }
                            }
                            let dest = file.converted_in(temp_dir.as_str(), "mobi");
                            let action = Action::Convert {
                                source: file.path.clone(),
                                dest: dest.path.clone(),
                            };
                            Step::Next { state: State::Converting { source: file, dest }, action }
                        } else {
                            let action = Action::ReadFile { path: file.path.clone() };
                            Step::Next { state: State::Reading { file, temp_path: None }, action }
                        }
                    },
                }
            }
        },
        (State::Converting { source, dest }, Event::ConverterFinished { launched, success }) => {
            if !launched {
                Step::Done { result: Err(Error::ConverterUnavailable), cleanup: None }
            } else if !success {
                Step::Done { result: Err(Error::ConversionFailed), cleanup: None }
            } else {
                let temp = dest.path.clone();
                let action = Action::ReadFile { path: dest.path.clone() };
                Step::Next { state: State::Reading { file: dest, temp_path: Some(temp) }, action }
            }
        },
        (State::Reading { file, temp_path }, Event::FileRead { result }) => {
            match result {
                Err(detail) => Step::Done {
                    result: Err(
                        Error::AttachmentReadError { path: file.path.clone(), detail },
                    ),
                    cleanup: None,
                },
                Ok(bytes) => {
                    match compose(settings, &file, bytes) {
                        Err(e) => Step::Done { result: Err(e), cleanup: None },
                        Ok(message) => {
                            proof {
                                lemma_media_type_known(extension_of(file.name@));
                            }
                            match build_mime(&message) {
                                Err(detail) => Step::Done {
                                    result: Err(Error::MessageBuildError { detail }),
                                    cleanup: None,
                                },
                                Ok(mime) => {
                                    let action = Action::Send {
                                        mime,
                                        server: settings.smtp_server.clone(),
                                        username: settings.smtp_username.clone(),
                                        password: settings.smtp_password.clone(),
                                    };
                                    Step::Next {
                                        state: State::Sending { message, temp_path },
                                        action,
                                    }
                                },
                            }
                        },
                    }
                },
            }
        },
        (State::Sending { message: _, temp_path }, Event::SendFinished { outcome }) => {
            let send_result = interpret_send(outcome);
            match temp_path {
                Some(t) => Step::Next {
                    state: State::CleaningUp { send_result },
                    action: Action::DeleteFile { path: t },
                },
                None => Step::Done { result: send_result, cleanup: None },
            }
        },
        (State::CleaningUp { send_result }, Event::FileDeleted { deletion }) => {
            match deletion {
                Ok(_) => Step::Done { result: send_result, cleanup: None },
                Err(detail) => Step::Done {
                    result: send_result,
                    cleanup: Some(Error::CleanupError { detail }),
                },
            }
        },
        _ => {
            proof {
                assert(false);
            }
            vstd::pervasive::unreached()
        },
    }
}

} // verus!
