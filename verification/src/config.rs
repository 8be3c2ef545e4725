//! The settings of the relay. Each may be absent; a step that needs an
//! absent one fails with `ConfigurationMissing`, and no step asks for more
//! than it needs.

use vstd::prelude::*;

verus! {

/// The variable that names the directory of the pending records.
pub const STORAGE_PATH_VAR: &'static str = "AXUM_BACKEND_STORAGE_PATH";

/// The variable that names the sender of every mail.
pub const EMAIL_FROM_VAR: &'static str = "AXUM_BACKEND_EMAIL_FROM";

/// The variable that names the recipient of the relayed messages.
pub const EMAIL_RECIPIENT_VAR: &'static str = "AXUM_BACKEND_EMAIL_RECIPIENT";

/// The variable that names the user of the mail relay.
pub const SMTP_USERNAME_VAR: &'static str = "AXUM_BACKEND_SMTP_USERNAME";

/// The variable that names the secret of that user.
pub const SMTP_TOKEN_VAR: &'static str = "AXUM_BACKEND_SMTP_TOKEN";

/// The variable that names the host of the mail relay.
pub const SMTP_SERVER_VAR: &'static str = "AXUM_BACKEND_SMTP_SERVER";

/// The settings, as found.
#[derive(Debug, PartialEq, Eq)]
pub struct Config {
    /// The directory of the pending records.
    pub storage_path: Option<String>,
    /// The sender of every mail.
    pub email_from: Option<String>,
    /// The recipient of the relayed messages.
    pub email_recipient: Option<String>,
    /// The user of the mail relay.
    pub smtp_username: Option<String>,
    /// The secret of that user.
    pub smtp_token: Option<String>,
    /// The host of the mail relay.
    pub smtp_server: Option<String>,
}

/// The characters of a `Config`.
pub ghost struct ConfigView {
    pub storage_path: Option<Seq<char>>,
    pub email_from: Option<Seq<char>>,
    pub email_recipient: Option<Seq<char>>,
    pub smtp_username: Option<Seq<char>>,
    pub smtp_token: Option<Seq<char>>,
    pub smtp_server: Option<Seq<char>>,
}

/// The characters of a setting, if it is there.
pub open spec fn setting_view(setting: Option<String>) -> Option<Seq<char>> {
    match setting {
        Some(text) => Some(text@),
        None => None,
    }
}

impl View for Config {
    type V = ConfigView;

    open spec fn view(&self) -> ConfigView {
        ConfigView {
            storage_path: setting_view(self.storage_path),
            email_from: setting_view(self.email_from),
            email_recipient: setting_view(self.email_recipient),
            smtp_username: setting_view(self.smtp_username),
            smtp_token: setting_view(self.smtp_token),
            smtp_server: setting_view(self.smtp_server),
        }
    }
}

impl ConfigView {
    /// Every setting is there.
    pub open spec fn complete(self) -> bool {
        &&& self.storage_path is Some
        &&& self.email_from is Some
        &&& self.email_recipient is Some
        &&& self.smtp_username is Some
        &&& self.smtp_token is Some
        &&& self.smtp_server is Some
    }
}

} // verus!
