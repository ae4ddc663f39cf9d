//! The descriptions of agents in the marketplace: their framework, type,
//! runtime, tools, resource needs and usage tracking.

use vstd::prelude::*;
use crate::text::owned;

verus! {

/// The framework or platform used to build an agent.
#[derive(Clone, Debug, PartialEq, Eq)]
pub enum AgentFramework {
    LangChain,
    AutoGPT,
    CrewAI,
    LlamaIndex,
    BabyAGI,
    AgentGPT,
    FormationAgent,
    CustomRust,
    CustomPython,
    CustomJS,
    Other(String),
}

/// The category of an agent.
#[derive(Clone, Debug, PartialEq, Eq)]
pub enum AgentType {
    Chatbot,
    Assistant,
    DataAnalyst,
    CodeGenerator,
    ContentCreator,
    Researcher,
    AutomationAgent,
    MultiAgent,
    Copilot,
    Other(String),
}

/// The runtime environment of an agent.
#[derive(Clone, Debug, PartialEq, Eq)]
pub enum AgentRuntime {
    Python,
    NodeJS,
    Rust,
    Go,
    Java,
    Docker,
    WebAssembly,
    Other(String),
}

/// A tool that an agent can use.
#[derive(Clone, Debug)]
pub struct AgentTool {
    /// Tool identifier
    pub id: String,
    /// Human-readable name
    pub name: String,
    /// Description of what the tool does
    pub description: String,
    /// Tool category/type
    pub tool_type: String,
    /// Authentication requirements (if any)
    pub auth_required: bool,
    /// Configuration template (JSON schema)
    pub config_schema: Option<String>,
}

impl Default for AgentTool {
    /// A generic tool with empty texts and no authentication.
    fn default() -> (r: Self)
        ensures
            r.id@.len() == 0,
            r.name@.len() == 0,
            r.description@.len() == 0,
            r.tool_type@ == "generic"@,
            !r.auth_required,
            r.config_schema is None,
    {
        proof {
            reveal_strlit("");
        }
        AgentTool {
            id: owned(""),
            name: owned(""),
            description: owned(""),
            tool_type: owned("generic"),
            auth_required: false,
            config_schema: None,
        }
    }
}

/// The computing resources required to run an agent.
#[derive(Clone, Copy, Debug, PartialEq, Eq, Structural)]
pub struct AgentResourceRequirements {
    /// Minimum CPU cores required
    pub min_vcpus: u8,
    /// Recommended CPU cores for optimal performance
    pub recommended_vcpus: u8,
    /// Minimum RAM required (MB)
    pub min_memory_mb: u64,
    /// Recommended RAM for optimal performance (MB)
    pub recommended_memory_mb: u64,
    /// Minimum disk space required (GB)
    pub min_disk_gb: u64,
    /// Recommended disk space (GB)
    pub recommended_disk_gb: u64,
    /// Whether GPU is required (excluding model requirements)
    pub requires_gpu: bool,
}

impl Default for AgentResourceRequirements {
    /// One CPU, 512 MB (1024 MB recommended), 5 GB disk (10 GB
    /// recommended), no GPU.
    fn default() -> (r: Self)
        ensures
            r == (AgentResourceRequirements {
                min_vcpus: 1,
                recommended_vcpus: 1,
                min_memory_mb: 512,
                recommended_memory_mb: 1024,
                min_disk_gb: 5,
                recommended_disk_gb: 10,
                requires_gpu: false,
            }),
    {
        AgentResourceRequirements {
            min_vcpus: 1,
            recommended_vcpus: 1,
            min_memory_mb: 512,
            recommended_memory_mb: 1024,
            min_disk_gb: 5,
            recommended_disk_gb: 10,
            requires_gpu: false,
        }
    }
}

/// How usage is tracked for an agent.
#[derive(Clone, Debug)]
pub struct AgentUsageTracking {
    /// Whether to track requests
    pub track_requests: bool,
    /// Additional usage metrics to track
    pub custom_metrics: Vec<String>,
}

impl Default for AgentUsageTracking {
    /// Requests are tracked; no further metrics.
    fn default() -> (r: Self)
        ensures
            r.track_requests,
            r.custom_metrics@.len() == 0,
    {
        AgentUsageTracking { track_requests: true, custom_metrics: Vec::new() }
    }
}

} // verus!
