use vstd::prelude::*;

verus! {

/// The configuration of a sendmail notification endpoint.
pub struct SendmailConfig {
    /// The endpoint's name.
    pub name: String,
    /// Mail recipients.
    pub mailto: Option<Vec<String>>,
    /// Users whose mail address is looked up.
    pub mailto_user: Option<Vec<String>>,
    /// The `From` address.
    pub from_address: Option<String>,
    /// The author of the mail.
    pub author: Option<String>,
    /// A comment.
    pub comment: Option<String>,
    /// Deprecated.
    pub filter: Option<String>,
}

/// The properties of a sendmail endpoint that can be deleted.
pub enum DeleteableSendmailProperty {
    FromAddress,
    Author,
    Comment,
    Mailto,
    MailtoUser,
}

/// A sendmail notification endpoint.
pub struct SendmailEndpoint {
    /// Its configuration.
    pub config: SendmailConfig,
}

/// The configuration of an OpenID Connect realm.
pub struct OpenIdConfig {
    /// The issuer URL.
    pub issuer_url: String,
    /// The client id.
    pub client_id: String,
    /// The client key, if any.
    pub client_key: Option<String>,
    /// The scopes to request.
    pub scopes: Option<Vec<String>>,
    /// The prompt parameter.
    pub prompt: Option<String>,
    /// The ACR values to request.
    pub acr_values: Option<Vec<String>>,
}

} // verus!
