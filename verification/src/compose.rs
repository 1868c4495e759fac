use vstd::prelude::*;

use crate::errors::{AddressField, Error};
use crate::paths::{extension_of, name_extension, FileInfo};
use crate::settings::Settings;
use crate::strings::str_eq;

verus! {

/// Declares lettre's `Mailbox` — a parsed address with an optional display
/// name — as an opaque type, so composed messages can carry it.
#[verifier::external_type_specification]
#[verifier::external_body]
pub struct ExMailbox(lettre::message::Mailbox);

/// Declares lettre's `Message` — a fully assembled MIME message — as an
/// opaque type; it is only carried from assembly to the transport.
#[verifier::external_type_specification]
#[verifier::external_body]
pub struct ExMessage(lettre::Message);

/// What lettre's `Mailbox` parser returns for a given string: `Some` exactly
/// on strings that conform to the mailbox grammar.  The parser's outcome
/// depends on the characters of the string alone.
pub uninterp spec fn parsed_mailbox(s: Seq<char>) -> Option<lettre::message::Mailbox>;

/// Relies on lettre's `FromStr` implementation for `Mailbox`
/// (`parsers::mailbox` followed by `Address::new`): a pure parser of the
/// mailbox grammar `[display name] local-part@domain`.
#[verifier::external_body]
fn parse_mailbox(s: &str) -> (r: Option<lettre::message::Mailbox>)
    ensures
        r == parsed_mailbox(s@),
{
    s.parse::<lettre::message::Mailbox>().ok()
}

/// The declared media type for an artifact with the given file extension.
pub open spec fn media_type_for(ext: Seq<char>) -> Seq<char> {
    if ext == "pdf"@ {
        "application/pdf"@
    } else if ext == "epub"@ {
        "application/epub+zip"@
    } else if ext == "mobi"@ {
        "application/x-mobipocket-ebook"@
    } else if ext == "azw3"@ {
        "application/vnd.amazon.ebook"@
    } else {
        "application/octet-stream"@
    }
}

/// The media types this crate ever declares on an attachment.
pub open spec fn is_known_media_type(m: Seq<char>) -> bool {
    ||| m == "application/pdf"@
    ||| m == "application/epub+zip"@
    ||| m == "application/x-mobipocket-ebook"@
    ||| m == "application/vnd.amazon.ebook"@
    ||| m == "application/octet-stream"@
}

/// Every extension maps to a known media type.
pub proof fn lemma_media_type_known(ext: Seq<char>)
    ensures
        is_known_media_type(media_type_for(ext)),
{
}

/// The declared media type for an artifact with the given file extension.
pub fn media_type_for_extension(ext: &str) -> (r: String)
    ensures
        r@ == media_type_for(ext@),
{
    if str_eq(ext, "pdf") {
        String::from_str("application/pdf")
    } else if str_eq(ext, "epub") {
        String::from_str("application/epub+zip")
    } else if str_eq(ext, "mobi") {
        String::from_str("application/x-mobipocket-ebook")
    } else if str_eq(ext, "azw3") {
        String::from_str("application/vnd.amazon.ebook")
    } else {
        String::from_str("application/octet-stream")
    }
}

/// The artifact as it travels inside the message: its filename, its declared
/// media type, and its full byte content.
pub struct Attachment {
    pub filename: String,
    pub media_type: String,
    pub bytes: Vec<u8>,
}

/// A composed message, immutable once built: parsed sender and recipient
/// mailboxes, a subject and plain-text body naming the artifact, and the
/// artifact itself as the attachment.
pub struct OutgoingMessage {
    pub from: lettre::message::Mailbox,
    pub to: lettre::message::Mailbox,
    pub subject: String,
    pub body_text: String,
    pub attachment: Attachment,
}

impl OutgoingMessage {
    /// The declared media type is one this crate knows.
    pub open spec fn wf(&self) -> bool {
        is_known_media_type(self.attachment.media_type@)
    }
}

/// Builds the outgoing message for the given artifact: subject, body text and
/// attachment filename are all the artifact's display name, the media type
/// follows the artifact's extension, and the attachment carries `bytes`
/// unchanged.  Fails exactly when a configured address does not parse as a
/// mailbox, naming the offending field.
pub fn compose(settings: &Settings, file: &FileInfo, bytes: Vec<u8>) -> (r: Result<
    OutgoingMessage,
    Error,
>)
    ensures
        r is Ok <==> (parsed_mailbox(settings.from_address@) is Some && parsed_mailbox(
            settings.to_address@,
        ) is Some),
        r is Ok ==> {
            let m = r->Ok_0;
            &&& m.wf()
            &&& m.from == parsed_mailbox(settings.from_address@)->Some_0
            &&& m.to == parsed_mailbox(settings.to_address@)->Some_0
            &&& m.subject@ == file.name@
            &&& m.body_text@ == file.name@
            &&& m.attachment.filename@ == file.name@
            &&& m.attachment.media_type@ == media_type_for(extension_of(file.name@))
            &&& m.attachment.bytes@ == bytes@
        },
        parsed_mailbox(settings.from_address@) is None ==> (
        r->Err_0 matches Error::InvalidAddress { field, address } && field is Sender
            && address@ == settings.from_address@),
        parsed_mailbox(settings.from_address@) is Some && parsed_mailbox(
            settings.to_address@,
        ) is None ==> (r->Err_0 matches Error::InvalidAddress { field, address }
            && field is Recipient && address@ == settings.to_address@),
{
    let from = match parse_mailbox(settings.from_address.as_str()) {
        Some(m) => m,
        None => {
            return Err(
                Error::InvalidAddress {
                    field: AddressField::Sender,
                    address: settings.from_address.clone(),
                },
            );
        },
    };
    let to = match parse_mailbox(settings.to_address.as_str()) {
        Some(m) => m,
        None => {
            return Err(
                Error::InvalidAddress {
                    field: AddressField::Recipient,
                    address: settings.to_address.clone(),
                },
            );
        },
    };
    let extension = name_extension(file.name.as_str());
    let media_type = media_type_for_extension(extension.as_str());
    Ok(
        OutgoingMessage {
            from,
            to,
            subject: file.name.clone(),
            body_text: file.name.clone(),
            attachment: Attachment { filename: file.name.clone(), media_type, bytes },
        },
    )
}

/// Relies on lettre's message builder: `ContentType::parse` accepts every
/// media type `is_known_media_type` lists, and `MessageBuilder::multipart`
/// returns `Ok` whenever exactly one `from` and one `to` mailbox are set,
/// which this body does.
#[verifier::external_body]
pub(crate) fn build_mime(m: &OutgoingMessage) -> (r: Result<lettre::Message, String>)
    ensures
        is_known_media_type(m.attachment.media_type@) ==> r is Ok,
{
    let ct = match lettre::message::header::ContentType::parse(m.attachment.media_type.as_str()) {
        Ok(ct) => ct,
        Err(e) => return Err(e.to_string()),
    };
    let part = lettre::message::Attachment::new(m.attachment.filename.clone())
        .body(m.attachment.bytes.clone(), ct);
    lettre::Message::builder()
        .from(m.from.clone()).to(m.to.clone()).subject(m.subject.as_str())
        .multipart(
            lettre::message::MultiPart::mixed()
                .singlepart(lettre::message::SinglePart::plain(m.body_text.clone()))
                .singlepart(part),
        )
        .map_err(|e| e.to_string())
}

} // verus!
