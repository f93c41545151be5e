//! What errors say to the user.
use vstd::prelude::*;
use crate::codec::document::{DefinitionParseError, ParseFailure};
use crate::definition::{Platform, Portability, VariableType};
use crate::interpolate::{Failure, SecretFailure, SecretResolutionError, VariableResolutionError};
use crate::text::{concat, concat3, concat4, decimal, format_u64};
use crate::validate::{Problem, ValidationError};

verus! {

pub open spec fn platform_label(p: Platform) -> Seq<char> {
    match p {
        Platform::Windows => "Windows"@,
        Platform::MacOs => "MacOs"@,
        Platform::Linux => "Linux"@,
    }
}

pub open spec fn variable_type_label(t: VariableType) -> Seq<char> {
    match t {
        VariableType::String => "String"@,
        VariableType::Boolean => "Boolean"@,
        VariableType::Number => "Number"@,
        VariableType::Json => "Json"@,
    }
}

pub open spec fn portability_label(p: Portability) -> Seq<char> {
    match p {
        Portability::Portable => "Portable"@,
        Portability::HasPlatformOverrides => "HasPlatformOverrides"@,
        Portability::WindowsOnly => "WindowsOnly"@,
        Portability::MacOsOnly => "MacOsOnly"@,
        Portability::LinuxOnly => "LinuxOnly"@,
    }
}

impl Platform {
    pub fn label(self) -> (r: &'static str)
        ensures
            r@ == platform_label(self),
    {
        match self {
            Platform::Windows => "Windows",
            Platform::MacOs => "MacOs",
            Platform::Linux => "Linux",
        }
    }
}

impl VariableType {
    pub fn label(self) -> (r: &'static str)
        ensures
            r@ == variable_type_label(self),
    {
        match self {
            VariableType::String => "String",
            VariableType::Boolean => "Boolean",
            VariableType::Number => "Number",
            VariableType::Json => "Json",
        }
    }
}

impl Portability {
    pub fn label(self) -> (r: &'static str)
        ensures
            r@ == portability_label(self),
    {
        match self {
            Portability::Portable => "Portable",
            Portability::HasPlatformOverrides => "HasPlatformOverrides",
            Portability::WindowsOnly => "WindowsOnly",
            Portability::MacOsOnly => "MacOsOnly",
            Portability::LinuxOnly => "LinuxOnly",
        }
    }
}

/// The words for a problem of a definition.
pub open spec fn problem_text(p: Problem) -> Seq<char> {
    match p {
        Problem::MissingField(field) => field + " is required"@,
        Problem::BlankField(field) => field + " must not be blank when present"@,
        Problem::InvalidIdentifier { field } => field + " must be a non-empty identifier"@,
        Problem::UnsupportedSchemaVersion { expected, actual } => "schema version "@ + decimal(
            actual as nat,
        ) + " is not supported; expected "@ + decimal(expected as nat),
        Problem::NoSteps => "automation must contain at least one step"@,
        Problem::DuplicateStepId(id) => "duplicate step id `"@ + id + "`"@,
        Problem::DuplicatePlatformOverride(platform) => "duplicate platform override for "@
            + platform_label(platform),
        Problem::EmptyTarget => "target must include at least one selector"@,
        Problem::EmptyAccessibilityTarget =>
            "accessibility target must include an id, name, or control type"@,
        Problem::EmptyPlatformSelector => "platform selector must include at least one selector"@,
        Problem::InvalidImageConfidence => "image target confidence must be between 1 and 255"@,
        Problem::InvalidImageRegion =>
            "image target region width and height must be greater than zero"@,
        Problem::InvalidDuration(field) => field + " must be greater than zero"@,
        Problem::InvalidRetryPolicy => "retry max_attempts must be greater than zero"@,
        Problem::RequiredVariableHasDefault(name) => "required variable `"@ + name
            + "` cannot also define a default"@,
        Problem::InvalidVariableType { name, expected } => "variable `"@ + name
            + "` must match declared type "@ + variable_type_label(expected),
    }
}

impl ValidationError {
    /// The words for the user.
    pub fn message(&self) -> (r: String)
        ensures
            r@ == problem_text(self@),
    {
        match self {
            ValidationError::MissingField(field) => concat(field, " is required"),
            ValidationError::BlankField(field) => concat(field, " must not be blank when present"),
            ValidationError::InvalidIdentifier { field } => concat(
                field,
                " must be a non-empty identifier",
            ),
            ValidationError::UnsupportedSchemaVersion { expected, actual } => concat4(
                "schema version ",
                format_u64(*actual as u64).as_str(),
                " is not supported; expected ",
                format_u64(*expected as u64).as_str(),
            ),
            ValidationError::NoSteps => "automation must contain at least one step".to_owned(),
            ValidationError::DuplicateStepId(id) => concat3(
                "duplicate step id `",
                id.as_str(),
                "`",
            ),
            ValidationError::DuplicatePlatformOverride(platform) => concat(
                "duplicate platform override for ",
                platform.label(),
            ),
            ValidationError::EmptyTarget => "target must include at least one selector".to_owned(),
            ValidationError::EmptyAccessibilityTarget =>
                "accessibility target must include an id, name, or control type".to_owned(),
            ValidationError::EmptyPlatformSelector =>
                "platform selector must include at least one selector".to_owned(),
            ValidationError::InvalidImageConfidence =>
                "image target confidence must be between 1 and 255".to_owned(),
            ValidationError::InvalidImageRegion =>
                "image target region width and height must be greater than zero".to_owned(),
            ValidationError::InvalidDuration(field) => concat(field, " must be greater than zero"),
            ValidationError::InvalidRetryPolicy =>
                "retry max_attempts must be greater than zero".to_owned(),
            ValidationError::RequiredVariableHasDefault(name) => concat3(
                "required variable `",
                name.as_str(),
                "` cannot also define a default",
            ),
            ValidationError::InvalidVariableType { name, expected } => concat4(
                "variable `",
                name.as_str(),
                "` must match declared type ",
                expected.label(),
            ),
        }
    }
}

pub open spec fn secret_failure_text(e: SecretFailure) -> Seq<char> {
    match e {
        SecretFailure::Unavailable { reference } => "secret reference `"@ + reference
            + "` is unavailable"@,
        SecretFailure::Failed { reference } => "secret reference `"@ + reference
            + "` could not be resolved"@,
    }
}

impl SecretResolutionError {
    /// The words for the user.
    pub fn message(&self) -> (r: String)
        ensures
            r@ == secret_failure_text(self@),
    {
        match self {
            SecretResolutionError::Unavailable { reference } => concat3(
                "secret reference `",
                reference.as_str(),
                "` is unavailable",
            ),
            SecretResolutionError::Failed { reference } => concat3(
                "secret reference `",
                reference.as_str(),
                "` could not be resolved",
            ),
        }
    }
}

/// The words for what keeps a run from being resolved.
pub open spec fn failure_text(e: Failure) -> Seq<char> {
    match e {
        Failure::InvalidDefinition(p) => "automation definition is invalid: "@ + problem_text(p),
        Failure::UndeclaredVariable(name) => "run config provided undeclared variable `"@ + name
            + "`"@,
        Failure::MissingRequiredVariable(name) => "required variable `"@ + name
            + "` has no value"@,
        Failure::MissingVariableValue(name) => "variable `"@ + name + "` has no value"@,
        Failure::UnknownVariable(name) => "unknown variable `"@ + name + "`"@,
        Failure::CircularReference(name) => "variable reference `"@ + name + "` is circular"@,
        Failure::MalformedInterpolation => "variable interpolation is malformed"@,
        Failure::NonScalarInterpolation =>
            "only string, boolean, and number values may be embedded in text"@,
        Failure::InvalidValueType { name, expected } => "variable `"@ + name
            + "` does not match declared type "@ + variable_type_label(expected),
        Failure::InvalidInterpolatedStep =>
            "interpolation produced a value incompatible with a string-only automation step field"@,
        Failure::InvalidResolvedDefinition(p) =>
            "interpolation produced an invalid automation definition: "@ + problem_text(p),
        Failure::Secret(e) => secret_failure_text(e),
        Failure::Unasked { name, reference } => secret_failure_text(
            SecretFailure::Unavailable { reference },
        ),
    }
}

impl VariableResolutionError {
    /// The words for the user.
    pub fn message(&self) -> (r: String)
        ensures
            r@ == failure_text(self@),
    {
        match self {
            VariableResolutionError::InvalidDefinition(e) => concat(
                "automation definition is invalid: ",
                e.message().as_str(),
            ),
            VariableResolutionError::UndeclaredVariable(name) => concat3(
                "run config provided undeclared variable `",
                name.as_str(),
                "`",
            ),
            VariableResolutionError::MissingRequiredVariable(name) => concat3(
                "required variable `",
                name.as_str(),
                "` has no value",
            ),
            VariableResolutionError::MissingVariableValue(name) => concat3(
                "variable `",
                name.as_str(),
                "` has no value",
            ),
            VariableResolutionError::UnknownVariable(name) => concat3(
                "unknown variable `",
                name.as_str(),
                "`",
            ),
            VariableResolutionError::CircularReference(name) => concat3(
                "variable reference `",
                name.as_str(),
                "` is circular",
            ),
            VariableResolutionError::MalformedInterpolation =>
                "variable interpolation is malformed".to_owned(),
            VariableResolutionError::NonScalarInterpolation =>
                "only string, boolean, and number values may be embedded in text".to_owned(),
            VariableResolutionError::InvalidValueType { name, expected } => concat4(
                "variable `",
                name.as_str(),
                "` does not match declared type ",
                expected.label(),
            ),
            VariableResolutionError::InvalidInterpolatedStep =>
                "interpolation produced a value incompatible with a string-only automation step field".to_owned(),
            VariableResolutionError::InvalidResolvedDefinition(e) => concat(
                "interpolation produced an invalid automation definition: ",
                e.message().as_str(),
            ),
            VariableResolutionError::Secret(e) => e.message(),
        }
    }
}

/// The words for why a text is not a definition.
pub open spec fn parse_failure_text(e: ParseFailure) -> Seq<char> {
    match e {
        ParseFailure::Json(message) => "automation definition JSON is invalid: "@ + message,
        ParseFailure::MissingSchemaVersion =>
            "automation definition schemaVersion is required and must be an unsigned 32-bit integer"@,
        ParseFailure::UnsupportedSchemaVersion { expected, actual } =>
            "automation definition schema version "@ + decimal(actual as nat)
            + " is not supported; expected "@ + decimal(expected as nat),
        ParseFailure::Validation(p) => "automation definition is invalid: "@ + problem_text(p),
    }
}

impl DefinitionParseError {
    /// The words for the user.
    pub fn message(&self) -> (r: String)
        ensures
            r@ == parse_failure_text(self@),
    {
        match self {
            DefinitionParseError::Json(message) => concat(
                "automation definition JSON is invalid: ",
                message.as_str(),
            ),
            DefinitionParseError::MissingSchemaVersion =>
                "automation definition schemaVersion is required and must be an unsigned 32-bit integer".to_owned(),
            DefinitionParseError::UnsupportedSchemaVersion { expected, actual } => concat4(
                "automation definition schema version ",
                format_u64(*actual as u64).as_str(),
                " is not supported; expected ",
                format_u64(*expected as u64).as_str(),
            ),
            DefinitionParseError::Validation(e) => concat(
                "automation definition is invalid: ",
                e.message().as_str(),
            ),
        }
    }
}

} // verus!
