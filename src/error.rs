use crate::decimal::{append_decimal, decimal};
use vstd::prelude::*;

verus! {

/// Code: the plugin's protocol version is not supported by the runtime.
pub const CODE_INCOMPATIBLE_CNI_VERSION: u64 = 1;

/// Code: a configuration field is not supported by the plugin.
pub const CODE_UNSUPPORTED_FIELD: u64 = 2;

/// Code: the container is unknown or does not exist.
pub const CODE_UNKNOWN_CONTAINER: u64 = 3;

/// Code: the environment variables passed to the plugin are invalid.
pub const CODE_INVALID_ENVIRONMENT_VARIABLES: u64 = 4;

/// Code: an I/O operation failed.
pub const CODE_IO_FAILURE: u64 = 5;

/// Code: the plugin failed to decode its input.
pub const CODE_DECODING_FAILURE: u64 = 6;

/// Code: the network configuration is invalid.
pub const CODE_INVALID_NETWORK_CONFIG: u64 = 7;

/// Code: a transient failure; the runtime should retry later.
pub const CODE_TRY_AGAIN_LATER: u64 = 11;

/// Codes below this bound are reserved by the protocol; codes at or above it
/// are free for implementation-specific use.
pub const CODE_CUSTOM_START: u64 = 100;

/// A protocol error code: one of the codes the protocol names, an unnamed
/// reserved code (kept verbatim), or an implementation-specific code.
#[derive(Debug, Clone, Copy, PartialEq, Eq, Structural)]
pub enum PluginErrorCode {
    IncompatibleCniVersion,
    UnsupportedField,
    UnknownContainer,
    InvalidEnvironmentVariables,
    IoFailure,
    DecodingFailure,
    InvalidNetworkConfig,
    TryAgainLater,
    UnknownReserved(u64),
    Custom(u64),
}

/// Whether `v` is one of the codes the protocol names.
pub open spec fn is_known_code(v: u64) -> bool {
    v == CODE_INCOMPATIBLE_CNI_VERSION || v == CODE_UNSUPPORTED_FIELD || v
        == CODE_UNKNOWN_CONTAINER || v == CODE_INVALID_ENVIRONMENT_VARIABLES || v
        == CODE_IO_FAILURE || v == CODE_DECODING_FAILURE || v == CODE_INVALID_NETWORK_CONFIG
        || v == CODE_TRY_AGAIN_LATER
}

/// The classification of a numeric code.
pub open spec fn code_from_numeric(v: u64) -> PluginErrorCode {
    if v == CODE_INCOMPATIBLE_CNI_VERSION {
        PluginErrorCode::IncompatibleCniVersion
    } else if v == CODE_UNSUPPORTED_FIELD {
        PluginErrorCode::UnsupportedField
    } else if v == CODE_UNKNOWN_CONTAINER {
        PluginErrorCode::UnknownContainer
    } else if v == CODE_INVALID_ENVIRONMENT_VARIABLES {
        PluginErrorCode::InvalidEnvironmentVariables
    } else if v == CODE_IO_FAILURE {
        PluginErrorCode::IoFailure
    } else if v == CODE_DECODING_FAILURE {
        PluginErrorCode::DecodingFailure
    } else if v == CODE_INVALID_NETWORK_CONFIG {
        PluginErrorCode::InvalidNetworkConfig
    } else if v == CODE_TRY_AGAIN_LATER {
        PluginErrorCode::TryAgainLater
    } else if v < CODE_CUSTOM_START {
        PluginErrorCode::UnknownReserved(v)
    } else {
        PluginErrorCode::Custom(v)
    }
}

/// The numeric value of a code.
pub open spec fn code_to_numeric(c: PluginErrorCode) -> u64 {
    match c {
        PluginErrorCode::IncompatibleCniVersion => CODE_INCOMPATIBLE_CNI_VERSION,
        PluginErrorCode::UnsupportedField => CODE_UNSUPPORTED_FIELD,
        PluginErrorCode::UnknownContainer => CODE_UNKNOWN_CONTAINER,
        PluginErrorCode::InvalidEnvironmentVariables => CODE_INVALID_ENVIRONMENT_VARIABLES,
        PluginErrorCode::IoFailure => CODE_IO_FAILURE,
        PluginErrorCode::DecodingFailure => CODE_DECODING_FAILURE,
        PluginErrorCode::InvalidNetworkConfig => CODE_INVALID_NETWORK_CONFIG,
        PluginErrorCode::TryAgainLater => CODE_TRY_AGAIN_LATER,
        PluginErrorCode::UnknownReserved(v) => v,
        PluginErrorCode::Custom(v) => v,
    }
}

impl PluginErrorCode {
    /// A code is canonical when it is what classification would give for its
    /// numeric value: an unnamed reserved code is below the custom range and
    /// not one of the named codes, and a custom code lies in the custom range.
    pub open spec fn is_canonical(self) -> bool {
        match self {
            PluginErrorCode::UnknownReserved(v) => v < CODE_CUSTOM_START && !is_known_code(v),
            PluginErrorCode::Custom(v) => v >= CODE_CUSTOM_START,
            _ => true,
        }
    }

    /// The text a code renders as: the identifier of a named code, or
    /// `UnknownReserved(<n>)` / `Custom(<n>)` with the value in decimal.
    pub open spec fn spec_display(self) -> Seq<char> {
        match self {
            PluginErrorCode::IncompatibleCniVersion => "IncompatibleCniVersion"@,
            PluginErrorCode::UnsupportedField => "UnsupportedField"@,
            PluginErrorCode::UnknownContainer => "UnknownContainer"@,
            PluginErrorCode::InvalidEnvironmentVariables => "InvalidEnvironmentVariables"@,
            PluginErrorCode::IoFailure => "IoFailure"@,
            PluginErrorCode::DecodingFailure => "DecodingFailure"@,
            PluginErrorCode::InvalidNetworkConfig => "InvalidNetworkConfig"@,
            PluginErrorCode::TryAgainLater => "TryAgainLater"@,
            PluginErrorCode::UnknownReserved(v) => "UnknownReserved("@ + decimal(v as nat) + ")"@,
            PluginErrorCode::Custom(v) => "Custom("@ + decimal(v as nat) + ")"@,
        }
    }

    /// Renders the code as text (see `spec_display`).
    pub fn to_display_string(&self) -> (r: String)
        ensures
            r@ == self.spec_display(),
    {
        match *self {
            PluginErrorCode::IncompatibleCniVersion => String::from_str("IncompatibleCniVersion"),
            PluginErrorCode::UnsupportedField => String::from_str("UnsupportedField"),
            PluginErrorCode::UnknownContainer => String::from_str("UnknownContainer"),
            PluginErrorCode::InvalidEnvironmentVariables => {
                String::from_str("InvalidEnvironmentVariables")
            },
            PluginErrorCode::IoFailure => String::from_str("IoFailure"),
            PluginErrorCode::DecodingFailure => String::from_str("DecodingFailure"),
            PluginErrorCode::InvalidNetworkConfig => String::from_str("InvalidNetworkConfig"),
            PluginErrorCode::TryAgainLater => String::from_str("TryAgainLater"),
            PluginErrorCode::UnknownReserved(v) => {
                let mut s = String::from_str("UnknownReserved(");
                append_decimal(&mut s, v);
                s.append(")");
                s
            },
            PluginErrorCode::Custom(v) => {
                let mut s = String::from_str("Custom(");
                append_decimal(&mut s, v);
                s.append(")");
                s
            },
        }
    }
}

impl From<u64> for PluginErrorCode {
    /// Classifies a numeric code: a named code if it is one, an unnamed
    /// reserved code below the custom range, a custom code otherwise.
    fn from(value: u64) -> (r: Self) {
        match value {
            CODE_INCOMPATIBLE_CNI_VERSION => PluginErrorCode::IncompatibleCniVersion,
            CODE_UNSUPPORTED_FIELD => PluginErrorCode::UnsupportedField,
            CODE_UNKNOWN_CONTAINER => PluginErrorCode::UnknownContainer,
            CODE_INVALID_ENVIRONMENT_VARIABLES => PluginErrorCode::InvalidEnvironmentVariables,
            CODE_IO_FAILURE => PluginErrorCode::IoFailure,
            CODE_DECODING_FAILURE => PluginErrorCode::DecodingFailure,
            CODE_INVALID_NETWORK_CONFIG => PluginErrorCode::InvalidNetworkConfig,
            CODE_TRY_AGAIN_LATER => PluginErrorCode::TryAgainLater,
            reserved if reserved < CODE_CUSTOM_START => PluginErrorCode::UnknownReserved(reserved),
            custom => PluginErrorCode::Custom(custom),
        }
    }
}

impl vstd::std_specs::convert::FromSpecImpl<u64> for PluginErrorCode {
    open spec fn obeys_from_spec() -> bool {
        true
    }

    open spec fn from_spec(v: u64) -> PluginErrorCode {
        code_from_numeric(v)
    }
}

impl From<PluginErrorCode> for u64 {
    /// The numeric value of a code.
    fn from(value: PluginErrorCode) -> (r: Self) {
        match value {
            PluginErrorCode::IncompatibleCniVersion => CODE_INCOMPATIBLE_CNI_VERSION,
            PluginErrorCode::UnsupportedField => CODE_UNSUPPORTED_FIELD,
            PluginErrorCode::UnknownContainer => CODE_UNKNOWN_CONTAINER,
            PluginErrorCode::InvalidEnvironmentVariables => CODE_INVALID_ENVIRONMENT_VARIABLES,
            PluginErrorCode::IoFailure => CODE_IO_FAILURE,
            PluginErrorCode::DecodingFailure => CODE_DECODING_FAILURE,
            PluginErrorCode::InvalidNetworkConfig => CODE_INVALID_NETWORK_CONFIG,
            PluginErrorCode::TryAgainLater => CODE_TRY_AGAIN_LATER,
            PluginErrorCode::UnknownReserved(val) | PluginErrorCode::Custom(val) => val,
        }
    }
}

impl vstd::std_specs::convert::FromSpecImpl<PluginErrorCode> for u64 {
    open spec fn obeys_from_spec() -> bool {
        true
    }

    open spec fn from_spec(c: PluginErrorCode) -> u64 {
        code_to_numeric(c)
    }
}

/// Converting any number to a code and back gives the number again.
pub proof fn lemma_numeric_round_trip(v: u64)
    ensures
        code_to_numeric(code_from_numeric(v)) == v,
        code_from_numeric(v).is_canonical(),
{
}

/// Converting a canonical code to its number and back gives the code again.
pub proof fn lemma_code_round_trip(c: PluginErrorCode)
    requires
        c.is_canonical(),
    ensures
        code_from_numeric(code_to_numeric(c)) == c,
{
}

/// A structured failure payload reported by a plugin.
#[derive(Debug, Clone)]
pub struct PluginError {
    /// The protocol version the error was reported under.
    pub cni_version: String,
    pub code: PluginErrorCode,
    pub msg: String,
    /// Further detail, left out of the wire form when absent.
    pub details: Option<String>,
}

impl PluginError {
    /// The text a plugin error renders as: `<code>, <message>`, followed by
    /// `: <details>` when details are present.
    pub open spec fn spec_display(&self) -> Seq<char> {
        let head = self.code.spec_display() + ", "@ + self.msg@;
        match self.details {
            Some(d) => head + ": "@ + d@,
            None => head,
        }
    }

    pub fn new(cni_version: String, code: PluginErrorCode, msg: String, details: Option<String>) -> (r: Self)
        ensures
            r.cni_version == cni_version,
            r.code == code,
            r.msg == msg,
            r.details == details,
    {
        PluginError { cni_version, code, msg, details }
    }

    /// Renders the error as text (see `spec_display`).
    pub fn to_display_string(&self) -> (r: String)
        ensures
            r@ == self.spec_display(),
    {
        let mut s = self.code.to_display_string();
        s.append(", ");
        s.append(self.msg.as_str());
        match &self.details {
            Some(d) => {
                s.append(": ");
                s.append(d.as_str());
            },
            None => {},
        }
        s
    }
}

#[verifier::external_type_specification]
#[verifier::external_body]
pub struct ExIoError(std::io::Error);

/// Every failure the library and its collaborators report.
#[derive(Debug)]
pub enum CNIError {
    /// No network configuration with the given name (first) in the given
    /// search path (second).
    NotFound(String, String),
    /// The given configuration directory holds no usable configuration.
    NoConfigsFound(String),
    /// Invoking a plugin failed, or it failed without a structured error.
    ExecuteError(String),
    /// The plugin reported a structured error, kept verbatim.
    PluginError(PluginError),
    /// A network configuration failed validation.
    Config(String),
    /// An I/O operation failed.
    Io(Box<std::io::Error>),
    EmptyKey,
    TooLong(String),
    InvalidChecksum(String),
    InvalidFilename(String),
    /// Structured data could not be decoded.
    VarDecode(String),
    TableRead(String),
    DBClosed,
    LogRead(String),
}

impl From<std::io::Error> for CNIError {
    /// Wraps an I/O failure, keeping it as the cause.
    fn from(e: std::io::Error) -> (r: CNIError) {
        CNIError::Io(Box::new(e))
    }
}

impl vstd::std_specs::convert::FromSpecImpl<std::io::Error> for CNIError {
    open spec fn obeys_from_spec() -> bool {
        true
    }

    open spec fn from_spec(e: std::io::Error) -> CNIError {
        CNIError::Io(Box::new(e))
    }
}

/// The outcome of a fallible operation of the library.
pub type Result<T> = std::result::Result<T, CNIError>;

} // verus!
