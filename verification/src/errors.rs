//! The error taxonomy: a missing credential, a failed or rejected service
//! call, an empty or malformed reply, an invalid plan, a rejected command,
//! and a failed screen capture. Each error renders to the exact text the
//! caller reports.

use vstd::prelude::*;
use vstd::string::*;
use crate::text::{dec_str, u16_to_string};

verus! {

/// Everything that can abort an instruction's processing.
#[derive(Debug, Clone)]
pub enum AgentError {
    /// The service credential is absent from the environment.
    Configuration,
    /// The network call to the planning service failed.
    Transport { detail: String },
    /// The planning service answered with a non-success status; the body is
    /// kept verbatim.
    Service { status: u16, body: String },
    /// The reply held no candidates, no parts, or no text.
    EmptyResponse { detail: String },
    /// The reply's text did not parse as a plan; both the raw and the
    /// cleaned text are kept for diagnosis.
    MalformedPlan { raw: String, cleaned: String },
    /// The plan asked to execute but listed no steps.
    InvalidPlan,
    /// A command was rejected before any external process was invoked.
    Validation { command: String },
    /// The screenshot pipeline failed.
    Capture { detail: String },
}

impl AgentError {
    /// The plain-text form reported to callers.
    pub fn message(&self) -> (r: String)
        ensures
            match self {
                AgentError::Configuration => r@
                    == "GEMINI_API_KEY environment variable not set"@,
                AgentError::Transport { detail } => r@
                    == "Failed to send request to Gemini API: "@ + detail@,
                AgentError::Service { status, body } => r@ == "Gemini API error ("@
                    + dec_str(*status as int) + "): "@ + body@,
                AgentError::EmptyResponse { detail } => r@ == detail@,
                AgentError::MalformedPlan { raw, cleaned } => r@
                    == "Failed to parse browser plan from Gemini response. Raw response: "@
                    + raw@ + "\nCleaned JSON: "@ + cleaned@,
                AgentError::InvalidPlan => r@
                    == "Steps are required and must not be empty when action is 'execute', but none were provided"@,
                AgentError::Validation { command } => r@
                    == "Command must start with ':' but got: "@ + command@,
                AgentError::Capture { detail } => r@ == "Screenshot failed: "@ + detail@,
            },
    {
        match self {
            AgentError::Configuration => String::from_str(
                "GEMINI_API_KEY environment variable not set",
            ),
            AgentError::Transport { detail } => {
                let mut r = String::from_str("Failed to send request to Gemini API: ");
                r.append(detail.as_str());
                r
            },
            AgentError::Service { status, body } => {
                let mut r = String::from_str("Gemini API error (");
                r.append(u16_to_string(*status).as_str());
                r.append("): ");
                r.append(body.as_str());
                r
            },
            AgentError::EmptyResponse { detail } => detail.clone(),
            AgentError::MalformedPlan { raw, cleaned } => {
                let mut r = String::from_str(
                    "Failed to parse browser plan from Gemini response. Raw response: ",
                );
                r.append(raw.as_str());
                r.append("\nCleaned JSON: ");
                r.append(cleaned.as_str());
                r
            },
            AgentError::InvalidPlan => String::from_str(
                "Steps are required and must not be empty when action is 'execute', but none were provided",
            ),
            AgentError::Validation { command } => {
                let mut r = String::from_str("Command must start with ':' but got: ");
                r.append(command.as_str());
                r
            },
            AgentError::Capture { detail } => {
                let mut r = String::from_str("Screenshot failed: ");
                r.append(detail.as_str());
                r
            },
        }
    }
}

} // verus!
