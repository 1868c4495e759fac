use vstd::prelude::*;

verus! {

/// Which configured address a mailbox-parsing failure refers to.
#[derive(Clone, Copy, PartialEq, Eq, Structural, Debug)]
pub enum AddressField {
    Sender,
    Recipient,
}

/// Every way the delivery pipeline can fail.
///
/// One variant per failure kind, so that an operator can tell which stage
/// failed: validation, configuration, composition, conversion, transmission
/// or cleanup.  The exact wording of [`Error::describe`] is not a stable
/// surface; the variant is.
#[derive(Debug)]
pub enum Error {
    /// The input path does not exist (`missing` is true) or exists but is not
    /// a regular file (`missing` is false).
    InvalidInput { path: String, missing: bool },
    /// The input path has no usable final file-name component.
    InvalidPath { path: String },
    /// A configuration field is empty or unusable; `detail` names it.
    ConfigError { detail: String },
    /// A configured address does not parse as a mailbox; `field` says which.
    InvalidAddress { field: AddressField, address: String },
    /// The external converter could not even be launched.
    ConverterUnavailable,
    /// The external converter ran but exited with a non-success status.
    ConversionFailed,
    /// Reading the artifact's bytes failed.
    AttachmentReadError { path: String, detail: String },
    /// Assembling the MIME message failed.
    MessageBuildError { detail: String },
    /// The relay could not be reached or refused the TLS upgrade.
    ConnectionError { detail: String },
    /// The SMTP session failed at the transport level after connecting.
    SendError { detail: String },
    /// The server answered the transaction with a non-2xx final reply;
    /// `reply` carries the server's reply text.
    SendRejected { reply: String },
    /// Deleting the temporary converted file failed (a secondary outcome
    /// that never overrides the send stage's result).
    CleanupError { detail: String },
}

/// What [`Error::describe`] returns for each variant.
pub open spec fn description_of(e: Error) -> Seq<char> {
    match e {
        Error::InvalidInput { path, missing } => {
            if missing {
                "input file \""@ + path@ + "\" does not exist"@
            } else {
                "input path \""@ + path@ + "\" is not a regular file"@
            }
        },
        Error::InvalidPath { path } => {
            "file path \""@ + path@ + "\" does not have a file name"@
        },
        Error::ConfigError { detail } => "invalid configuration: "@ + detail@,
        Error::InvalidAddress { field, address } => {
            if field is Sender {
                "from address \""@ + address@ + "\" is not a valid email address"@
            } else {
                "to address \""@ + address@ + "\" is not a valid email address"@
            }
        },
        Error::ConverterUnavailable => {
            "failed to launch \"ebook-convert\"; make sure calibre is installed"@
        },
        Error::ConversionFailed => "failed to convert the ebook file"@,
        Error::AttachmentReadError { path, detail } => {
            "failed to read the ebook file \""@ + path@ + "\": "@ + detail@
        },
        Error::MessageBuildError { detail } => "failed to build email: "@ + detail@,
        Error::ConnectionError { detail } => {
            "failed to connect to the SMTP server: "@ + detail@
        },
        Error::SendError { detail } => "sending email failed: "@ + detail@,
        Error::SendRejected { reply } => {
            "the SMTP server rejected the message: "@ + reply@
        },
        Error::CleanupError { detail } => {
            "failed to delete the temporary converted file: "@ + detail@
        },
    }
}

impl Error {
    /// A human-readable description of the failure, for the caller's report.
    pub fn describe(&self) -> (r: String)
        ensures
            r@ == description_of(*self),
    {
        match self {
            Error::InvalidInput { path, missing } => {
                if *missing {
                    String::from_str("input file \"")
                        .concat(path.as_str())
                        .concat("\" does not exist")
                } else {
                    String::from_str("input path \"")
                        .concat(path.as_str())
                        .concat("\" is not a regular file")
                }
            },
            Error::InvalidPath { path } => {
                String::from_str("file path \"")
                    .concat(path.as_str())
                    .concat("\" does not have a file name")
            },
            Error::ConfigError { detail } => {
                String::from_str("invalid configuration: ").concat(detail.as_str())
            },
            Error::InvalidAddress { field, address } => {
                if matches!(field, AddressField::Sender) {
                    String::from_str("from address \"")
                        .concat(address.as_str())
                        .concat("\" is not a valid email address")
                } else {
                    String::from_str("to address \"")
                        .concat(address.as_str())
                        .concat("\" is not a valid email address")
                }
            },
            Error::ConverterUnavailable => {
                String::from_str(
                    "failed to launch \"ebook-convert\"; make sure calibre is installed",
                )
            },
            Error::ConversionFailed => String::from_str("failed to convert the ebook file"),
            Error::AttachmentReadError { path, detail } => {
                String::from_str("failed to read the ebook file \"")
                    .concat(path.as_str())
                    .concat("\": ")
                    .concat(detail.as_str())
            },
            Error::MessageBuildError { detail } => {
                String::from_str("failed to build email: ").concat(detail.as_str())
            },
            Error::ConnectionError { detail } => {
                String::from_str("failed to connect to the SMTP server: ").concat(
                    detail.as_str(),
                )
            },
            Error::SendError { detail } => {
                String::from_str("sending email failed: ").concat(detail.as_str())
            },
            Error::SendRejected { reply } => {
                String::from_str("the SMTP server rejected the message: ").concat(
                    reply.as_str(),
                )
            },
            Error::CleanupError { detail } => {
                String::from_str("failed to delete the temporary converted file: ").concat(
                    detail.as_str(),
                )
            },
        }
    }
}

} // verus!
