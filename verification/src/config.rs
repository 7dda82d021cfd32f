//! The settings that a connection to the store is made from.

use crate::error::ErrorKind;
use vstd::prelude::*;
use vstd::string::*;

verus! {

/// Why no client could be set up.
#[derive(Clone, Copy, Debug, PartialEq, Eq, Structural)]
pub enum ConfigError {
    /// The region is empty.
    MissingRegion,
    /// The credential key id is absent or empty.
    MissingKeyId,
    /// The credential key secret is absent or empty.
    MissingKeySecret,
}

/// The region and the static credentials that every call of a client is made
/// with. A handle is only made by `create_client`, and none of its three
/// values is ever empty.
pub struct ClientHandle {
    region: String,
    key_id: String,
    key_secret: String,
}

/// What a `ClientHandle` holds, as plain text.
pub ghost struct ClientHandleView {
    pub region: Seq<char>,
    pub key_id: Seq<char>,
    pub key_secret: Seq<char>,
}

/// The text of a setting that may be absent.
pub open spec fn setting_text(value: Option<&str>) -> Option<Seq<char>> {
    match value {
        Some(text) => Some(text@),
        None => None,
    }
}

/// Whether a setting is there and not empty.
pub open spec fn is_given(value: Option<Seq<char>>) -> bool {
    value matches Some(text) && text.len() > 0
}

/// What `create_client` decides: the handle's contents where the region and
/// both credentials are given, otherwise the first of them that is missing.
pub open spec fn client_for(
    region: Seq<char>,
    key_id: Option<Seq<char>>,
    key_secret: Option<Seq<char>>,
) -> Result<ClientHandleView, ConfigError> {
    if region.len() == 0 {
        Err(ConfigError::MissingRegion)
    } else if !is_given(key_id) {
        Err(ConfigError::MissingKeyId)
    } else if !is_given(key_secret) {
        Err(ConfigError::MissingKeySecret)
    } else {
        Ok(ClientHandleView { region, key_id: key_id->0, key_secret: key_secret->0 })
    }
}

/// The message of a configuration failure.
pub open spec fn config_error_text(error: ConfigError) -> Seq<char> {
    match error {
        ConfigError::MissingRegion => "no region is configured"@,
        ConfigError::MissingKeyId => "the credential key id is missing or empty"@,
        ConfigError::MissingKeySecret => "the credential key secret is missing or empty"@,
    }
}

impl ConfigError {
    /// The kind of this failure: always `Config`.
    pub fn kind(&self) -> (kind: ErrorKind)
        ensures
            kind == ErrorKind::Config,
    {
        ErrorKind::Config
    }

    /// The text shown to the user when the failure ends the run.
    pub fn message(&self) -> (text: String)
        ensures
            text@ == config_error_text(*self),
    {
        match self {
            ConfigError::MissingRegion => String::from_str("no region is configured"),
            ConfigError::MissingKeyId => String::from_str(
                "the credential key id is missing or empty",
            ),
            ConfigError::MissingKeySecret => String::from_str(
                "the credential key secret is missing or empty",
            ),
        }
    }
}

impl View for ClientHandle {
    type V = ClientHandleView;

    closed spec fn view(&self) -> ClientHandleView {
        ClientHandleView {
            region: self.region@,
            key_id: self.key_id@,
            key_secret: self.key_secret@,
        }
    }
}

impl ClientHandle {
    #[verifier::type_invariant]
    spec fn complete(self) -> bool {
        &&& self.region@.len() > 0
        &&& self.key_id@.len() > 0
        &&& self.key_secret@.len() > 0
    }

    /// The region that the client is bound to.
    pub fn region(&self) -> (region: &str)
        ensures
            region@ == self@.region,
            region@.len() > 0,
    {
        proof {
            use_type_invariant(self);
        }
        self.region.as_str()
    }

    /// The access key that the client signs with.
    pub fn key_id(&self) -> (key_id: &str)
        ensures
            key_id@ == self@.key_id,
            key_id@.len() > 0,
    {
        proof {
            use_type_invariant(self);
        }
        self.key_id.as_str()
    }

    /// The secret that goes with the access key.
    pub fn key_secret(&self) -> (key_secret: &str)
        ensures
            key_secret@ == self@.key_secret,
            key_secret@.len() > 0,
    {
        proof {
            use_type_invariant(self);
        }
        self.key_secret.as_str()
    }
}

/// Sets up a client for `region` with a static pair of credentials.
///
/// Fails, before anything is sent anywhere, when the region is empty or when
/// a credential is absent or empty; a handle exists only where all three are
/// given, and then holds exactly them.
pub fn create_client(region: &str, key_id: Option<&str>, key_secret: Option<&str>) -> (outcome:
    Result<ClientHandle, ConfigError>)
    ensures
        match client_for(region@, setting_text(key_id), setting_text(key_secret)) {
            Ok(settings) => outcome matches Ok(handle) && handle@ == settings,
            Err(error) => outcome == Err::<ClientHandle, ConfigError>(error),
        },
{
    if region.is_empty() {
        return Err(ConfigError::MissingRegion);
    }
    let key_id = match key_id {
        Some(text) => text,
        None => {
            return Err(ConfigError::MissingKeyId);
        },
    };
    if key_id.is_empty() {
        return Err(ConfigError::MissingKeyId);
    }
    let key_secret = match key_secret {
        Some(text) => text,
        None => {
            return Err(ConfigError::MissingKeySecret);
        },
    };
    if key_secret.is_empty() {
        return Err(ConfigError::MissingKeySecret);
    }
    Ok(
        ClientHandle {
            region: String::from_str(region),
            key_id: String::from_str(key_id),
            key_secret: String::from_str(key_secret),
        },
    )
}

/// A client is set up exactly when the region and both credentials are given.
pub proof fn lemma_client_needs_every_setting(
    region: Seq<char>,
    key_id: Option<Seq<char>>,
    key_secret: Option<Seq<char>>,
)
    ensures
        client_for(region, key_id, key_secret) is Ok <==> region.len() > 0 && is_given(key_id)
            && is_given(key_secret),
        !is_given(key_id) || !is_given(key_secret) ==> client_for(region, key_id, key_secret)
            is Err,
{
}

} // verus!
