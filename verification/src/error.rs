//! The ways in which a deployment can fail.

use vstd::prelude::*;
use vstd::string::StringExecFns;
use crate::text::{decimal, decimal_text, signed_decimal, signed_decimal_text};

verus! {

/// Why a deployment stopped. Every failure ends the pipeline at once;
/// nothing is retried and nothing already sent is taken back.
#[derive(Clone, Debug, PartialEq, Eq)]
pub enum DeployError {
    /// The build tool is not installed.
    ToolMissing,
    /// The build tool could not be started; holds the system's account of why.
    ToolInvocationError(String),
    /// The build tool ran and reported failure.
    BuildFailed { code: i32, stderr: String },
    /// The bundle reaches the maximum size of a function.
    FunctionTooLarge { limit: usize },
    /// A file of the public directory reaches the maximum size of an asset.
    AssetTooLarge { path: String, max_size: u64 },
    /// The public directory holds as many entries as the maximum, or more.
    TooManyAssets { limit: usize },
    /// No stored configuration exists for the entry file.
    ConfigNotFound,
    /// A request did not complete; holds the transport's account of why.
    TransportError(String),
    /// The remote answered with a body that is neither envelope.
    ProtocolError(String),
    /// The remote answered with an error envelope; holds its message.
    RemoteError(String),
    /// The remote named an asset that was never collected.
    ProtocolMismatch(String),
    /// No authentication token is at hand.
    MissingToken,
    /// A path has no final component to name a file by.
    InvalidPath(String),
    /// A local file operation failed; holds the system's account of why.
    Io(String),
}

impl DeployError {
    /// The message for the user, as a sequence of characters.
    pub open spec fn message_text(&self) -> Seq<char> {
        match *self {
            DeployError::ToolMissing =>
                "Could not find ESBuild. Please install it with `npm install -g esbuild`"@,
            DeployError::ToolInvocationError(reason) =>
                "An error occured while running ESBuild: "@ + reason@,
            DeployError::BuildFailed { code, stderr } => "Unexpected status code "@
                + signed_decimal(code as int) + ":\n\n"@ + stderr@,
            DeployError::FunctionTooLarge { limit } => "Function can't be larger than "@ + decimal(
                limit as nat,
            ) + " bytes"@,
            DeployError::AssetTooLarge { path, max_size } => "File "@ + path@
                + " can't be larger than "@ + decimal(max_size as nat) + " bytes"@,
            DeployError::TooManyAssets { limit } =>
                "Too many assets in public directory, max is "@ + decimal(limit as nat),
            DeployError::ConfigNotFound => "No configuration found in this directory."@,
            DeployError::TransportError(reason) => reason@,
            DeployError::ProtocolError(body) => "Could not parse error from response: "@ + body@,
            DeployError::RemoteError(message) => "Error from API: "@ + message@,
            DeployError::ProtocolMismatch(name) => "Couldn't find asset "@ + name@,
            DeployError::MissingToken => "No authentication token found. Please log in first."@,
            DeployError::InvalidPath(path) => "Could not find a file name in "@ + path@,
            DeployError::Io(reason) => reason@,
        }
    }

    /// The message for the user.
    pub fn message(&self) -> (message: String)
        ensures
            message@ == self.message_text(),
    {
        match self {
            DeployError::ToolMissing => String::from_str(
                "Could not find ESBuild. Please install it with `npm install -g esbuild`",
            ),
            DeployError::ToolInvocationError(reason) => String::from_str(
                "An error occured while running ESBuild: ",
            ).concat(reason.as_str()),
            DeployError::BuildFailed { code, stderr } => {
                let mut message = String::from_str("Unexpected status code ");
                message.append(signed_decimal_text(*code).as_str());
                message.append(":\n\n");
                message.append(stderr.as_str());
                message
            },
            DeployError::FunctionTooLarge { limit } => {
                let mut message = String::from_str("Function can't be larger than ");
                message.append(decimal_text(*limit as u64).as_str());
                message.append(" bytes");
                message
            },
            DeployError::AssetTooLarge { path, max_size } => {
                let mut message = String::from_str("File ");
                message.append(path.as_str());
                message.append(" can't be larger than ");
                message.append(decimal_text(*max_size).as_str());
                message.append(" bytes");
                message
            },
            DeployError::TooManyAssets { limit } => String::from_str(
                "Too many assets in public directory, max is ",
            ).concat(decimal_text(*limit as u64).as_str()),
            DeployError::ConfigNotFound => String::from_str(
                "No configuration found in this directory.",
            ),
            DeployError::TransportError(reason) => reason.clone(),
            DeployError::ProtocolError(body) => String::from_str(
                "Could not parse error from response: ",
            ).concat(body.as_str()),
            DeployError::RemoteError(message) => String::from_str("Error from API: ").concat(
                message.as_str(),
            ),
            DeployError::ProtocolMismatch(name) => String::from_str("Couldn't find asset ").concat(
                name.as_str(),
            ),
            DeployError::MissingToken => String::from_str(
                "No authentication token found. Please log in first.",
            ),
            DeployError::InvalidPath(path) => String::from_str(
                "Could not find a file name in ",
            ).concat(path.as_str()),
            DeployError::Io(reason) => reason.clone(),
        }
    }
}

} // verus!
