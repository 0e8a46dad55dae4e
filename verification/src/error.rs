use vstd::prelude::*;

verus! {

#[verifier::external_type_specification]
#[verifier::external_body]
pub struct ExRegexError(regex::Error);

/// Failures the library decides itself; the daemon adds device paths and
/// its own I/O failures around them.
pub enum DeviceError {
    /// The device lacks a capability the scroller needs.
    EvdevMissingCap { capability: &'static str },
    /// The configured device-name pattern is not a regex `regex` accepts.
    RegexInvalid { pattern: String, source: regex::Error },
    /// No device name matches the pattern.
    DeviceNotFound { regex: String },
}

} // verus!
