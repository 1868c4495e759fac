use vstd::prelude::*;

use crate::errors::Error;

verus! {

/// The configuration the delivery pipeline runs under, supplied by an
/// external collaborator that loads it from a platform config file.
pub struct Settings {
    pub smtp_server: String,
    pub smtp_username: String,
    pub smtp_password: String,
    pub from_address: String,
    pub to_address: String,
    pub convert_before_send: bool,
}

impl Settings {
    /// Every string field is non-empty.
    pub open spec fn wf(&self) -> bool {
        &&& self.smtp_server@.len() > 0
        &&& self.smtp_username@.len() > 0
        &&& self.smtp_password@.len() > 0
        &&& self.from_address@.len() > 0
        &&& self.to_address@.len() > 0
    }

    /// Builds a settings record, refusing any empty string field; the error
    /// names the first field, in declaration order, that is empty.
    pub fn new(
        smtp_server: String,
        smtp_username: String,
        smtp_password: String,
        from_address: String,
        to_address: String,
        convert_before_send: bool,
    ) -> (r: Result<Settings, Error>)
        ensures
            r is Ok <==> (smtp_server@.len() > 0 && smtp_username@.len() > 0
                && smtp_password@.len() > 0 && from_address@.len() > 0 && to_address@.len()
                > 0),
            r is Ok ==> {
                let s = r->Ok_0;
                &&& s.wf()
                &&& s.smtp_server@ == smtp_server@
                &&& s.smtp_username@ == smtp_username@
                &&& s.smtp_password@ == smtp_password@
                &&& s.from_address@ == from_address@
                &&& s.to_address@ == to_address@
                &&& s.convert_before_send == convert_before_send
            },
            smtp_server@.len() == 0 ==> (r->Err_0 matches Error::ConfigError {
                detail,
            } && detail@ == "smtp_server must not be empty"@),
            smtp_server@.len() > 0 && smtp_username@.len() == 0 ==> (
            r->Err_0 matches Error::ConfigError { detail } && detail@
                == "smtp_username must not be empty"@),
            smtp_server@.len() > 0 && smtp_username@.len() > 0 && smtp_password@.len() == 0
                ==> (r->Err_0 matches Error::ConfigError { detail } && detail@
                == "smtp_password must not be empty"@),
            smtp_server@.len() > 0 && smtp_username@.len() > 0 && smtp_password@.len() > 0
                && from_address@.len() == 0 ==> (r->Err_0 matches Error::ConfigError {
                detail,
            } && detail@ == "from_address must not be empty"@),
            smtp_server@.len() > 0 && smtp_username@.len() > 0 && smtp_password@.len() > 0
                && from_address@.len() > 0 && to_address@.len() == 0 ==> (
            r->Err_0 matches Error::ConfigError { detail } && detail@
                == "to_address must not be empty"@),
    {
        if smtp_server.as_str().is_empty() {
            Err(Error::ConfigError { detail: String::from_str("smtp_server must not be empty") })
        } else if smtp_username.as_str().is_empty() {
            Err(Error::ConfigError { detail: String::from_str("smtp_username must not be empty") })
        } else if smtp_password.as_str().is_empty() {
            Err(Error::ConfigError { detail: String::from_str("smtp_password must not be empty") })
        } else if from_address.as_str().is_empty() {
            Err(Error::ConfigError { detail: String::from_str("from_address must not be empty") })
        } else if to_address.as_str().is_empty() {
            Err(Error::ConfigError { detail: String::from_str("to_address must not be empty") })
        } else {
            Ok(
                Settings {
                    smtp_server,
                    smtp_username,
                    smtp_password,
                    from_address,
                    to_address,
                    convert_before_send,
                },
            )
        }
    }
}

} // verus!
