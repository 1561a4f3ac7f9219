//! Startup configuration: what the process environment asks for, checked once
//! before anything is served.
//!
//! The caller reads the environment and hands it over as an [`Environment`].
//! [`Configuration::load`] either accepts it or names the one reason why the
//! process must not start.

use vstd::prelude::*;
use crate::port::{parse_port, port_of};
use crate::text::{eq_ignore_ascii_case, fold_ascii_case, matches_ignoring_ascii_case, text_of};

verus! {

/// Name of the variable that holds the bucket. Required.
pub const BUCKET_VARIABLE: &'static str = "AWS_BUCKET";

/// Name of the variable that holds another endpoint for the object store.
/// Optional.
pub const ENDPOINT_VARIABLE: &'static str = "AWS_ENDPOINT";

/// Name of the variable that holds the access key id.
pub const ACCESS_KEY_ID_VARIABLE: &'static str = "AWS_ACCESS_KEY_ID";

/// Name of the variable that holds the secret access key.
pub const SECRET_ACCESS_KEY_VARIABLE: &'static str = "AWS_SECRET_ACCESS_KEY";

/// Name of the variable that holds the address to listen on.
pub const ADDRESS_VARIABLE: &'static str = "ADDRESS";

/// Name of the variable that holds the port to listen on.
pub const PORT_VARIABLE: &'static str = "PORT";

/// Name of the variable that switches the one-year cache header on.
pub const CACHE_CONTROL_VARIABLE: &'static str = "HEADER_CC_1Y";

/// Region of the object store where the environment names none.
pub const DEFAULT_REGION: &'static str = "us-east-1";

/// Port to listen on where the environment names none.
pub const DEFAULT_PORT: u16 = 8080;

/// An IP address, held as the number its bits write in network order.
#[derive(Clone, Copy, Debug, PartialEq, Eq)]
pub enum BindAddress {
    V4(u32),
    V6(u128),
}

/// What the address variable holds. Whether a text writes an address is for
/// the caller to find out; what follows from the answer is decided here.
#[derive(Clone, Copy, Debug, PartialEq, Eq)]
pub enum AddressSetting {
    /// The variable is not set.
    Unset,
    /// The variable is set to a text that writes no IP address.
    Unreadable,
    /// The variable is set to a text that writes this address.
    Address(BindAddress),
}

/// Address to listen on where the environment names none that can be read:
/// every IPv4 interface, `0.0.0.0`.
pub open spec fn default_address() -> BindAddress {
    BindAddress::V4(0)
}

/// Why the process must not start.
#[derive(Clone, Copy, Debug, PartialEq, Eq)]
pub enum StartupError {
    /// The bucket variable is unset or empty.
    MissingBucket,
    /// Exactly one of the two credential variables is set.
    ContradictoryCredentials,
    /// The port variable is set to something that is no port number.
    InvalidPort,
}

impl StartupError {
    /// What to tell the operator.
    pub open spec fn message_text(self) -> Seq<char> {
        match self {
            StartupError::MissingBucket => "AWS_BUCKET is not set"@,
            StartupError::ContradictoryCredentials =>
                "Either both AWS_ACCESS_KEY_ID and AWS_SECRET_ACCESS_KEY must be set or neither."@,
            StartupError::InvalidPort => "Invalid port number"@,
        }
    }

    /// What to tell the operator.
    pub fn message(&self) -> (text: &'static str)
        ensures
            text@ == self.message_text(),
    {
        match self {
            StartupError::MissingBucket => "AWS_BUCKET is not set",
            StartupError::ContradictoryCredentials =>
                "Either both AWS_ACCESS_KEY_ID and AWS_SECRET_ACCESS_KEY must be set or neither.",
            StartupError::InvalidPort => "Invalid port number",
        }
    }
}

/// The process environment as found at startup.
#[derive(Debug, PartialEq, Eq)]
pub struct Environment {
    /// Value of the bucket variable.
    pub bucket: Option<String>,
    /// Value of the endpoint variable.
    pub endpoint: Option<String>,
    /// Whether the access key id variable is set.
    pub access_key_id: bool,
    /// Whether the secret access key variable is set.
    pub secret_access_key: bool,
    /// What the address variable holds.
    pub address: AddressSetting,
    /// Value of the port variable.
    pub port: Option<String>,
    /// Value of the cache header variable.
    pub cache_control: Option<String>,
}

/// Mathematical content of an [`Environment`].
pub struct EnvironmentView {
    pub bucket: Option<Seq<char>>,
    pub endpoint: Option<Seq<char>>,
    pub access_key_id: bool,
    pub secret_access_key: bool,
    pub address: AddressSetting,
    pub port: Option<Seq<char>>,
    pub cache_control: Option<Seq<char>>,
}

impl View for Environment {
    type V = EnvironmentView;

    open spec fn view(&self) -> EnvironmentView {
        EnvironmentView {
            bucket: text_of(self.bucket),
            endpoint: text_of(self.endpoint),
            access_key_id: self.access_key_id,
            secret_access_key: self.secret_access_key,
            address: self.address,
            port: text_of(self.port),
            cache_control: text_of(self.cache_control),
        }
    }
}

/// What the server runs with, fixed for the lifetime of the process.
#[derive(Debug, PartialEq, Eq)]
pub struct Configuration {
    bucket: String,
    endpoint_override: Option<String>,
    bind_address: BindAddress,
    bind_port: u16,
    cache_control_enabled: bool,
    credentials_present: bool,
}

/// Mathematical content of a [`Configuration`].
pub struct ConfigurationView {
    pub bucket: Seq<char>,
    pub endpoint_override: Option<Seq<char>>,
    pub bind_address: BindAddress,
    pub bind_port: u16,
    pub cache_control_enabled: bool,
    pub credentials_present: bool,
}

impl View for Configuration {
    type V = ConfigurationView;

    closed spec fn view(&self) -> ConfigurationView {
        ConfigurationView {
            bucket: self.bucket@,
            endpoint_override: text_of(self.endpoint_override),
            bind_address: self.bind_address,
            bind_port: self.bind_port,
            cache_control_enabled: self.cache_control_enabled,
            credentials_present: self.credentials_present,
        }
    }
}

/// The cache header is switched on exactly by the word `true`, in any mix of
/// upper and lower case.
pub open spec fn cache_control_requested(value: Option<Seq<char>>) -> bool {
    value matches Some(word) && matches_ignoring_ascii_case(word, "true"@)
}

/// The port to listen on: the default where none is named, nothing where the
/// one named cannot be read.
pub open spec fn port_requested(value: Option<Seq<char>>) -> Option<u16> {
    match value {
        Some(text) => port_of(text),
        None => Some(DEFAULT_PORT),
    }
}

/// The address to listen on: the one that the variable writes, and the
/// default where the variable is unset or writes none. An unreadable address
/// is no error.
pub open spec fn address_requested(setting: AddressSetting) -> BindAddress {
    match setting {
        AddressSetting::Address(address) => address,
        AddressSetting::Unset => default_address(),
        AddressSetting::Unreadable => default_address(),
    }
}

/// What startup makes of an environment. The checks run in a fixed order, so
/// an environment with several faults is refused for the first of them: a
/// missing bucket, then contradictory credentials, then an unreadable port.
pub open spec fn configuration_for(env: EnvironmentView) -> Result<ConfigurationView, StartupError> {
    if env.bucket is None || env.bucket->0.len() == 0 {
        Err(StartupError::MissingBucket)
    } else if env.access_key_id != env.secret_access_key {
        Err(StartupError::ContradictoryCredentials)
    } else if port_requested(env.port) is None {
        Err(StartupError::InvalidPort)
    } else {
        Ok(
            ConfigurationView {
                bucket: env.bucket->0,
                endpoint_override: env.endpoint,
                bind_address: address_requested(env.address),
                bind_port: port_requested(env.port)->0,
                cache_control_enabled: cache_control_requested(env.cache_control),
                credentials_present: env.access_key_id,
            },
        )
    }
}

/// The address to listen on: the one that the address variable writes, and
/// the default where the variable is unset or cannot be read.
pub fn get_bind_address(setting: AddressSetting) -> (address: BindAddress)
    ensures
        address == address_requested(setting),
{
    match setting {
        AddressSetting::Address(address) => address,
        AddressSetting::Unset => BindAddress::V4(0),
        AddressSetting::Unreadable => BindAddress::V4(0),
    }
}

/// Whether `value` switches the one-year cache header on.
pub fn cache_control_flag(value: &Option<String>) -> (enabled: bool)
    ensures
        enabled == cache_control_requested(text_of(*value)),
{
    match value {
        Some(word) => eq_ignore_ascii_case(word.as_str(), "true"),
        None => false,
    }
}

impl Configuration {
    #[verifier::type_invariant]
    spec fn well_formed(&self) -> bool {
        self.bucket@.len() > 0
    }

    /// Checks the environment and builds the configuration from it.
    pub fn load(env: Environment) -> (loaded: Result<Configuration, StartupError>)
        ensures
            match configuration_for(env@) {
                Ok(expected) => loaded matches Ok(config) && config@ == expected,
                Err(error) => loaded == Err::<Configuration, StartupError>(error),
            },
    {
        let bucket = match env.bucket {
            Some(name) => name,
            None => {
                return Err(StartupError::MissingBucket);
            },
        };
        if bucket.as_str().is_empty() {
            return Err(StartupError::MissingBucket);
        }
        if env.access_key_id != env.secret_access_key {
            return Err(StartupError::ContradictoryCredentials);
        }
        let bind_port = match &env.port {
            Some(text) => match parse_port(text.as_str()) {
                Some(port) => port,
                None => {
                    return Err(StartupError::InvalidPort);
                },
            },
            None => DEFAULT_PORT,
        };
        Ok(
            Configuration {
                bucket,
                endpoint_override: env.endpoint,
                bind_address: get_bind_address(env.address),
                bind_port,
                cache_control_enabled: cache_control_flag(&env.cache_control),
                credentials_present: env.access_key_id,
            },
        )
    }

    /// The bucket that every request is served from. Never empty.
    pub fn bucket(&self) -> (bucket: &str)
        ensures
            bucket@ == self@.bucket,
            bucket@.len() > 0,
    {
        proof {
            use_type_invariant(self);
        }
        self.bucket.as_str()
    }

    /// The endpoint to reach the object store at, where it is not the
    /// store's own.
    pub fn endpoint_override(&self) -> (endpoint: &Option<String>)
        ensures
            text_of(*endpoint) == self@.endpoint_override,
    {
        &self.endpoint_override
    }

    /// The address to listen on.
    pub fn bind_address(&self) -> (address: BindAddress)
        ensures
            address == self@.bind_address,
    {
        self.bind_address
    }

    /// The port to listen on.
    pub fn bind_port(&self) -> (port: u16)
        ensures
            port == self@.bind_port,
    {
        self.bind_port
    }

    /// Whether successful responses carry the one-year cache header.
    pub fn cache_control_enabled(&self) -> (enabled: bool)
        ensures
            enabled == self@.cache_control_enabled,
    {
        self.cache_control_enabled
    }

    /// Whether the environment holds credentials for the object store.
    pub fn credentials_present(&self) -> (present: bool)
        ensures
            present == self@.credentials_present,
    {
        self.credentials_present
    }
}

/// The cache header is switched on by the sixteen spellings of `true` that
/// differ in the case of their letters, and by nothing else.
pub proof fn lemma_cache_control_spellings(word: Seq<char>)
    ensures
        cache_control_requested(Some(word)) <==> {
            &&& word.len() == 4
            &&& (word[0] == 't' || word[0] == 'T')
            &&& (word[1] == 'r' || word[1] == 'R')
            &&& (word[2] == 'u' || word[2] == 'U')
            &&& (word[3] == 'e' || word[3] == 'E')
        },
        !cache_control_requested(None),
{
    reveal_strlit("true");
    let lower = "true"@;
    if word.len() == 4 {
        assert(fold_ascii_case(lower[0]) == fold_ascii_case(word[0]) <==> word[0] == 't' || word[0] == 'T');
        assert(fold_ascii_case(lower[1]) == fold_ascii_case(word[1]) <==> word[1] == 'r' || word[1] == 'R');
        assert(fold_ascii_case(lower[2]) == fold_ascii_case(word[2]) <==> word[2] == 'u' || word[2] == 'U');
        assert(fold_ascii_case(lower[3]) == fold_ascii_case(word[3]) <==> word[3] == 'e' || word[3] == 'E');
    }
}

/// The process starts exactly when the environment names a bucket, holds both
/// credentials or neither, and names no port or one that can be read.
pub proof fn lemma_accepted_environments(env: EnvironmentView)
    ensures
        configuration_for(env) is Ok <==> {
            &&& env.bucket matches Some(bucket) && bucket.len() > 0
            &&& env.access_key_id == env.secret_access_key
            &&& env.port matches Some(text) ==> port_of(text) is Some
        },
        configuration_for(env) matches Ok(config) ==> config.bucket.len() > 0,
{
}

/// An address variable that cannot be read stops nothing: the environment is
/// taken exactly as if the variable were not set, and the server listens on
/// the default address.
pub proof fn lemma_unreadable_address_is_no_error(env: EnvironmentView)
    requires
        env.address == AddressSetting::Unreadable,
    ensures
        configuration_for(env) == configuration_for(
            EnvironmentView { address: AddressSetting::Unset, ..env },
        ),
        configuration_for(env) matches Ok(config) ==> config.bind_address == BindAddress::V4(0),
{
}

/// Without a bucket the process does not start, whatever else the
/// environment holds: no configuration comes out, so there is nothing to
/// listen with.
pub proof fn lemma_missing_bucket_is_refused(env: EnvironmentView)
    requires
        env.bucket is None,
    ensures
        configuration_for(env) == Err::<ConfigurationView, StartupError>(
            StartupError::MissingBucket,
        ),
{
}

/// With a bucket and exactly one of the two credential variables set, the
/// process does not start, and the reason given is the contradiction.
pub proof fn lemma_lone_credential_is_refused(env: EnvironmentView)
    requires
        env.bucket matches Some(bucket) && bucket.len() > 0,
        env.access_key_id != env.secret_access_key,
    ensures
        configuration_for(env) == Err::<ConfigurationView, StartupError>(
            StartupError::ContradictoryCredentials,
        ),
{
}

} // verus!
