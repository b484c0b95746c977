//! The typed entities exchanged with the remote service. All values are
//! client-side and ephemeral: reconstructed per invocation from responses,
//! never stored. Scalar trait strengths and activations are carried in
//! thousandths of the unit interval; durations in microseconds.

use vstd::prelude::*;

verus! {

/// One memory to store: free text with an optional context note.
#[derive(Debug, Clone)]
pub struct MemoryItem {
    pub content: String,
    pub context: Option<String>,
}

/// An ordered batch of memories submitted in one request. When
/// `document_id` is absent the service assigns one.
#[derive(Debug, Clone)]
pub struct BatchMemoryRequest {
    pub items: Vec<MemoryItem>,
    pub document_id: Option<String>,
}

impl BatchMemoryRequest {
    /// A batch worth sending: it holds at least one item. An empty batch is
    /// rejected before any transport is attempted.
    pub open spec fn wf(&self) -> bool {
        self.items@.len() > 0
    }

    /// Whether the batch holds at least one item.
    pub fn has_items(&self) -> (b: bool)
        ensures
            b == self.wf(),
    {
        self.items.len() > 0
    }
}

/// A semantic search request.
#[derive(Debug, Clone)]
pub struct SearchRequest {
    pub query: String,
    pub fact_type: Vec<String>,
    pub thinking_budget: i32,
    pub max_tokens: i32,
    pub trace: bool,
}

/// A request to generate an answer from the agent's memories.
#[derive(Debug, Clone)]
pub struct ThinkRequest {
    pub query: String,
    pub thinking_budget: i32,
    pub context: Option<String>,
}

/// The five trait strengths plus the bias strength, each in thousandths of
/// the unit interval (0 ..= 1000).
#[derive(Debug, Clone, Copy)]
pub struct Personality {
    pub openness: u32,
    pub conscientiousness: u32,
    pub extraversion: u32,
    pub agreeableness: u32,
    pub neuroticism: u32,
    pub bias_strength: u32,
}

impl Personality {
    /// Every strength lies in the unit interval.
    pub open spec fn wf(&self) -> bool {
        self.openness <= 1000 && self.conscientiousness <= 1000 && self.extraversion <= 1000
            && self.agreeableness <= 1000 && self.neuroticism <= 1000 && self.bias_strength
            <= 1000
    }
}

/// An agent's full profile.
#[derive(Debug, Clone)]
pub struct AgentProfile {
    pub agent_id: String,
    pub name: String,
    pub background: String,
    pub personality: Personality,
}

/// One known agent.
#[derive(Debug, Clone)]
pub struct AgentInfo {
    pub agent_id: String,
}

/// One retrieved memory unit with its semantic category and optional
/// temporal and activation metadata.
#[derive(Debug, Clone)]
pub struct Fact {
    pub text: String,
    pub fact_type: Option<String>,
    /// Activation score in thousandths, when reported.
    pub activation: Option<u32>,
    pub context: Option<String>,
    pub occurred_start: Option<String>,
    pub occurred_end: Option<String>,
    /// Legacy single date, reported by older services.
    pub event_date: Option<String>,
    pub mentioned_at: Option<String>,
    pub document_id: Option<String>,
}

/// Diagnostic figures a search may report.
#[derive(Debug, Clone, Copy)]
pub struct TraceInfo {
    /// Total search time in microseconds, when reported.
    pub total_time_us: Option<u64>,
    pub activation_count: Option<u64>,
}

/// An ordered search result list plus optional trace diagnostics.
#[derive(Debug, Clone)]
pub struct SearchResponse {
    pub results: Vec<Fact>,
    pub trace: Option<TraceInfo>,
}

/// A generated answer and the memory units it rests on.
#[derive(Debug, Clone)]
pub struct ThinkResponse {
    pub text: String,
    pub based_on: Vec<String>,
}

/// What a store call returned. A queued background job carries `job_id`;
/// an immediate store carries a count. Both fields exist on the wire type;
/// the caller decides how to report them.
#[derive(Debug, Clone)]
pub struct PutMemoriesResult {
    pub job_id: Option<String>,
    pub stored_count: Option<u64>,
    pub items_count: Option<u64>,
}

/// The outcome envelope every mutating call returns: an explicit success
/// flag plus a message, independent of transport status.
#[derive(Debug, Clone)]
pub struct Outcome {
    pub success: bool,
    pub message: String,
}

/// A server-side asynchronous job.
#[derive(Debug, Clone)]
pub struct Operation {
    pub id: String,
    pub task_type: String,
    pub status: String,
    pub items_count: u64,
    pub document_id: Option<String>,
}

/// The jobs currently known for an agent.
#[derive(Debug, Clone)]
pub struct OperationsResponse {
    pub operations: Vec<Operation>,
}

/// Summary of one stored document.
#[derive(Debug, Clone)]
pub struct DocumentInfo {
    pub id: String,
    pub agent_id: String,
    pub created_at: String,
    pub updated_at: String,
    pub text_length: u64,
    pub memory_unit_count: u64,
    pub original_text: String,
}

/// A page of documents plus the total count.
#[derive(Debug, Clone)]
pub struct DocumentsResponse {
    pub items: Vec<DocumentInfo>,
    pub total: u64,
}

/// Memory statistics for an agent. The per-type breakdowns are ordered
/// association lists of (category, count).
#[derive(Debug, Clone)]
pub struct MemoryStats {
    pub total_nodes: u64,
    pub total_links: u64,
    pub total_documents: u64,
    pub nodes_by_fact_type: Vec<(String, u64)>,
    pub links_by_link_type: Vec<(String, u64)>,
    pub links_by_fact_type: Vec<(String, u64)>,
    pub pending_operations: u64,
    pub failed_operations: u64,
}

} // verus!
