//! What can go wrong while a rendering context is brought up or a shader is
//! loaded.

use vstd::prelude::*;
use vstd::string::*;
use crate::text::{push_signed_decimal, signed_decimal};

verus! {

/// The result code of a driver call that did not succeed.
#[derive(Clone, Copy, Debug, PartialEq, Eq, Structural)]
pub struct ApiResult {
    pub code: i32,
}

/// Why a shader could not be loaded.
#[derive(Clone, Debug, PartialEq, Eq)]
pub enum ShaderError {
    /// A shader with the same identity is already loaded.
    Duplicate,
    /// The path names no shader stage, or one that is not known.
    InvalidKind,
    /// The source text could not be read.
    Io(String),
    /// The compiler rejected the source text; its diagnostic is attached.
    CompileFailed(String),
}

/// Why the engine could not go on.
#[derive(Clone, Debug, PartialEq, Eq)]
pub enum EngineError {
    /// The graphics library could not be loaded.
    VulkanLoadingError(String),
    /// A required layer or extension is missing, or the driver refused the
    /// instance.
    InstanceCreationFailed(String),
    /// No physical device is suitable, or the driver refused the logical
    /// device.
    DeviceCreationFailed(String),
    /// Any other driver call failed.
    VulkanApiError(ApiResult),
    /// A shader could not be loaded.
    ShaderError(ShaderError),
    UnknownError(String),
}

pub type EngineResult<T> = Result<T, EngineError>;

impl ShaderError {
    /// What the message of this error reads.
    pub open spec fn message_text(self) -> Seq<char> {
        match self {
            ShaderError::Duplicate => "Found duplicated shader"@,
            ShaderError::InvalidKind => "Invalid shader kind"@,
            ShaderError::Io(cause) => "Failed to read shader file: "@ + cause@,
            ShaderError::CompileFailed(diagnostic) => "Failed to compile shader: "@ + diagnostic@,
        }
    }

    /// The message of this error.
    pub fn message(&self) -> (text: String)
        ensures
            text@ == self.message_text(),
    {
        match self {
            ShaderError::Duplicate => String::from_str("Found duplicated shader"),
            ShaderError::InvalidKind => String::from_str("Invalid shader kind"),
            ShaderError::Io(cause) => String::from_str("Failed to read shader file: ").concat(
                cause.as_str(),
            ),
            ShaderError::CompileFailed(diagnostic) => String::from_str(
                "Failed to compile shader: ",
            ).concat(diagnostic.as_str()),
        }
    }
}

impl EngineError {
    /// What the message of this error reads.
    pub open spec fn message_text(self) -> Seq<char> {
        match self {
            EngineError::VulkanLoadingError(cause) => "Failed to load Vulkan Lib: "@ + cause@
                + "."@,
            EngineError::InstanceCreationFailed(reason) => "Failed to create Vulkan Instance: "@
                + reason@ + "."@,
            EngineError::DeviceCreationFailed(reason) => "Failed to create Vulkan Device: "@
                + reason@ + "."@,
            EngineError::VulkanApiError(result) => "Vulkan API Error: "@ + signed_decimal(
                result.code as int,
            ) + "."@,
            EngineError::ShaderError(error) => error.message_text() + "."@,
            EngineError::UnknownError(text) => text@ + "."@,
        }
    }

    /// The message of this error, as it is shown to the user.
    pub fn message(&self) -> (text: String)
        ensures
            text@ == self.message_text(),
    {
        let mut out = String::new();
        match self {
            EngineError::VulkanLoadingError(cause) => {
                out.append("Failed to load Vulkan Lib: ");
                out.append(cause.as_str());
            },
            EngineError::InstanceCreationFailed(reason) => {
                out.append("Failed to create Vulkan Instance: ");
                out.append(reason.as_str());
            },
            EngineError::DeviceCreationFailed(reason) => {
                out.append("Failed to create Vulkan Device: ");
                out.append(reason.as_str());
            },
            EngineError::VulkanApiError(result) => {
                out.append("Vulkan API Error: ");
                push_signed_decimal(&mut out, result.code);
            },
            EngineError::ShaderError(error) => {
                let inner = error.message();
                out.append(inner.as_str());
            },
            EngineError::UnknownError(text) => {
                out.append(text.as_str());
            },
        }
        out.append(".");
        out
    }
}

impl From<ApiResult> for EngineError {
    fn from(result: ApiResult) -> (error: EngineError) {
        EngineError::VulkanApiError(result)
    }
}

impl vstd::std_specs::convert::FromSpecImpl<ApiResult> for EngineError {
    open spec fn obeys_from_spec() -> bool {
        true
    }

    open spec fn from_spec(result: ApiResult) -> EngineError {
        EngineError::VulkanApiError(result)
    }
}

} // verus!
