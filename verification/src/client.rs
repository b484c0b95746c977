//! The API client: bound to a validated endpoint, it builds one fully
//! determined HTTP request per remote capability and classifies what came
//! back. Transport itself is the caller's concern; every request is a
//! single best-effort round trip with no retries and no caching.

use vstd::prelude::*;
use crate::config::valid_api_url;
use crate::model::{BatchMemoryRequest, Outcome, SearchRequest, ThinkRequest};
use crate::render::{
    background_body_json, batch_request_json, int_digits, name_body_json, render_background_body_json,
    render_batch_request_json, render_name_body_json, render_search_request_json,
    render_think_request_json, i32_string, search_request_json, think_request_json,
};

verus! {

/// The HTTP method of a request. Which method an operation uses is part of
/// the remote service's contract.
#[derive(Debug, Clone, Copy, PartialEq, Eq, Structural)]
pub enum HttpMethod {
    Get,
    Post,
    Put,
    Delete,
}

impl HttpMethod {
    /// The method's wire name.
    pub open spec fn name_spec(&self) -> Seq<char> {
        match self {
            HttpMethod::Get => "GET"@,
            HttpMethod::Post => "POST"@,
            HttpMethod::Put => "PUT"@,
            HttpMethod::Delete => "DELETE"@,
        }
    }

    /// The method's wire name.
    pub fn name(&self) -> (r: &'static str)
        ensures
            r@ == self.name_spec(),
    {
        match self {
            HttpMethod::Get => "GET",
            HttpMethod::Post => "POST",
            HttpMethod::Put => "PUT",
            HttpMethod::Delete => "DELETE",
        }
    }
}

/// One fully determined request: method, absolute URL, and an optional
/// JSON body.
#[derive(Debug, Clone)]
pub struct HttpRequest {
    pub method: HttpMethod,
    pub url: String,
    pub body: Option<String>,
}

/// The failure taxonomy for one round trip. Every per-command branch
/// surfaces exactly one of these; none is retried.
#[derive(Debug, Clone)]
pub enum ApiError {
    /// The connection itself failed; carries the transport's description.
    Transport(String),
    /// A non-2xx status, or a body that did not decode: carries the status
    /// and the raw body.
    Protocol(u16, String),
    /// A well-formed response whose envelope said `success = false`;
    /// carries its message.
    OutcomeFailure(String),
}

/// Construction failed: the base URL is unusable at transport-build time.
/// Distinguishable from any later per-request failure.
#[derive(Debug, Clone)]
pub enum ClientError {
    InvalidBaseUrl(String),
}

/// Whether a status is a transport-level success.
pub open spec fn status_ok(status: u16) -> bool {
    200 <= status < 300
}

/// Classifies one HTTP exchange. A 2xx status with a decodable body is a
/// success; anything else is a protocol error carrying the status and the
/// raw body.
pub fn classify_response(status: u16, decoded: bool, raw_body: String) -> (r: Result<
    (),
    ApiError,
>)
    ensures
        status_ok(status) && decoded ==> r is Ok,
        !(status_ok(status) && decoded) ==> r is Err && r->Err_0 is Protocol
            && r->Err_0->Protocol_0 == status && r->Err_0->Protocol_1@ == raw_body@,
{
    if 200 <= status && status < 300 && decoded {
        Ok(())
    } else {
        Err(ApiError::Protocol(status, raw_body))
    }
}

/// Surfaces an embedded `success = false` envelope as an outcome failure,
/// folding it into the same taxonomy as transport-level errors. A 2xx
/// response can still fail here.
pub fn outcome_gate(o: Outcome) -> (r: Result<Outcome, ApiError>)
    ensures
        o.success ==> r is Ok && r->Ok_0.success && r->Ok_0.message@ == o.message@,
        !o.success ==> r is Err && r->Err_0 is OutcomeFailure && r->Err_0->OutcomeFailure_0@
            == o.message@,
{
    if o.success {
        Ok(o)
    } else {
        Err(ApiError::OutcomeFailure(o.message))
    }
}

/// The API client, bound once to a validated endpoint.
#[derive(Debug, Clone)]
pub struct ApiClient {
    pub base_url: String,
}

impl ApiClient {
    /// The bound endpoint is usable.
    pub open spec fn wf(&self) -> bool {
        valid_api_url(self.base_url@)
    }

    /// Binds a client to `base_url`, rejecting a URL without an
    /// `http://`/`https://` scheme before any request can be made.
    pub fn new(base_url: String) -> (r: Result<ApiClient, ClientError>)
        ensures
            valid_api_url(base_url@) ==> r is Ok && r->Ok_0.base_url@ == base_url@
                && r->Ok_0.wf(),
            !valid_api_url(base_url@) ==> r is Err && r->Err_0->InvalidBaseUrl_0@ == base_url@,
    {
        if crate::config::is_valid_api_url(base_url.as_str()) {
            Ok(ApiClient { base_url })
        } else {
            Err(ClientError::InvalidBaseUrl(base_url))
        }
    }

    /// `base_url` + `/agents/` + `agent_id` + `suffix`.
    fn agent_url(&self, agent_id: &str, suffix: &str) -> (r: String)
        ensures
            r@ == self.base_url@ + "/agents/"@ + agent_id@ + suffix@,
    {
        let mut s = String::from_str(self.base_url.as_str());
        s.append("/agents/");
        s.append(agent_id);
        s.append(suffix);
        s
    }

    /// Lists all agents.
    pub fn list_agents(&self) -> (r: HttpRequest)
        ensures
            r.method == HttpMethod::Get,
            r.url@ == self.base_url@ + "/agents"@,
            r.body is None,
    {
        let mut s = String::from_str(self.base_url.as_str());
        s.append("/agents");
        HttpRequest { method: HttpMethod::Get, url: s, body: None }
    }

    /// Fetches one agent's profile.
    pub fn get_profile(&self, agent_id: &str) -> (r: HttpRequest)
        ensures
            r.method == HttpMethod::Get,
            r.url@ == self.base_url@ + "/agents/"@ + agent_id@ + "/profile"@,
            r.body is None,
    {
        HttpRequest { method: HttpMethod::Get, url: self.agent_url(agent_id, "/profile"), body: None }
    }

    /// Fetches one agent's memory statistics.
    pub fn get_stats(&self, agent_id: &str) -> (r: HttpRequest)
        ensures
            r.method == HttpMethod::Get,
            r.url@ == self.base_url@ + "/agents/"@ + agent_id@ + "/stats"@,
            r.body is None,
    {
        HttpRequest { method: HttpMethod::Get, url: self.agent_url(agent_id, "/stats"), body: None }
    }

    /// Sets an agent's name.
    pub fn update_agent_name(&self, agent_id: &str, name: &str) -> (r: HttpRequest)
        ensures
            r.method == HttpMethod::Put,
            r.url@ == self.base_url@ + "/agents/"@ + agent_id@ + "/name"@,
            r.body matches Some(b) && b@ == name_body_json(name@),
    {
        HttpRequest {
            method: HttpMethod::Put,
            url: self.agent_url(agent_id, "/name"),
            body: Some(render_name_body_json(name)),
        }
    }

    /// Merges new background text into an agent's profile, optionally
    /// asking the service to re-infer the personality.
    pub fn add_background(&self, agent_id: &str, content: &str, update_personality: bool) -> (r:
        HttpRequest)
        ensures
            r.method == HttpMethod::Put,
            r.url@ == self.base_url@ + "/agents/"@ + agent_id@ + "/background"@,
            r.body matches Some(b) && b@ == background_body_json(content@, update_personality),
    {
        HttpRequest {
            method: HttpMethod::Put,
            url: self.agent_url(agent_id, "/background"),
            body: Some(render_background_body_json(content, update_personality)),
        }
    }

    /// Searches an agent's memories.
    pub fn search(&self, agent_id: &str, request: &SearchRequest) -> (r: HttpRequest)
        ensures
            r.method == HttpMethod::Post,
            r.url@ == self.base_url@ + "/agents/"@ + agent_id@ + "/search"@,
            r.body matches Some(b) && b@ == search_request_json(*request),
    {
        HttpRequest {
            method: HttpMethod::Post,
            url: self.agent_url(agent_id, "/search"),
            body: Some(render_search_request_json(request)),
        }
    }

    /// Generates an answer from an agent's memories.
    pub fn think(&self, agent_id: &str, request: &ThinkRequest) -> (r: HttpRequest)
        ensures
            r.method == HttpMethod::Post,
            r.url@ == self.base_url@ + "/agents/"@ + agent_id@ + "/think"@,
            r.body matches Some(b) && b@ == think_request_json(*request),
    {
        HttpRequest {
            method: HttpMethod::Post,
            url: self.agent_url(agent_id, "/think"),
            body: Some(render_think_request_json(request)),
        }
    }

    /// Stores a batch of memories; with `background` set the service queues
    /// the work as a job instead of storing immediately. The batch must
    /// hold at least one item; `try_put_memories` checks that first.
    pub fn put_memories(&self, agent_id: &str, request: &BatchMemoryRequest, background: bool) -> (r:
        HttpRequest)
        requires
            request.wf(),
        ensures
            r.method == HttpMethod::Post,
            background ==> r.url@ == self.base_url@ + "/agents/"@ + agent_id@
                + "/memories?async=true"@,
            !background ==> r.url@ == self.base_url@ + "/agents/"@ + agent_id@ + "/memories"@,
            r.body matches Some(b) && b@ == batch_request_json(*request),
    {
        let url = if background {
            self.agent_url(agent_id, "/memories?async=true")
        } else {
            self.agent_url(agent_id, "/memories")
        };
        HttpRequest {
            method: HttpMethod::Post,
            url,
            body: Some(render_batch_request_json(request)),
        }
    }

    /// Stores a batch of memories, rejecting an empty batch before any
    /// transport is attempted.
    pub fn try_put_memories(&self, agent_id: &str, request: &BatchMemoryRequest, background: bool)
        -> (r: Result<HttpRequest, ApiError>)
        ensures
            !request.wf() ==> r is Err && r->Err_0 is OutcomeFailure,
            request.wf() ==> r is Ok && r->Ok_0.method == HttpMethod::Post && (r->Ok_0.body
                matches Some(b) && b@ == batch_request_json(*request)),
            request.wf() && background ==> r->Ok_0.url@ == self.base_url@ + "/agents/"@
                + agent_id@ + "/memories?async=true"@,
            request.wf() && !background ==> r->Ok_0.url@ == self.base_url@ + "/agents/"@
                + agent_id@ + "/memories"@,
    {
        if request.has_items() {
            Ok(self.put_memories(agent_id, request, background))
        } else {
            Err(ApiError::OutcomeFailure(String::from_str("No memory items to store")))
        }
    }

    /// Deletes one memory unit.
    pub fn delete_memory(&self, agent_id: &str, unit_id: &str) -> (r: HttpRequest)
        ensures
            r.method == HttpMethod::Delete,
            r.url@ == self.base_url@ + "/agents/"@ + agent_id@ + "/memories/"@ + unit_id@,
            r.body is None,
    {
        let mut s = self.agent_url(agent_id, "/memories/");
        s.append(unit_id);
        HttpRequest { method: HttpMethod::Delete, url: s, body: None }
    }

    /// Clears an agent's memories, all of them or one semantic category.
    pub fn clear_memories(&self, agent_id: &str, fact_type: Option<&str>) -> (r: HttpRequest)
        ensures
            r.method == HttpMethod::Delete,
            fact_type matches Some(ft) ==> r.url@ == self.base_url@ + "/agents/"@ + agent_id@
                + "/memories?fact_type="@ + ft@,
            fact_type is None ==> r.url@ == self.base_url@ + "/agents/"@ + agent_id@
                + "/memories"@,
            r.body is None,
    {
        let url = match fact_type {
            Some(ft) => {
                let mut s = self.agent_url(agent_id, "/memories?fact_type=");
                s.append(ft);
                s
            },
            None => self.agent_url(agent_id, "/memories"),
        };
        HttpRequest { method: HttpMethod::Delete, url, body: None }
    }

    /// Lists an agent's documents, paged, optionally filtered by a query.
    pub fn list_documents(&self, agent_id: &str, query: Option<&str>, limit: i32, offset: i32)
        -> (r: HttpRequest)
        ensures
            r.method == HttpMethod::Get,
            r.url@ == self.base_url@ + "/agents/"@ + agent_id@ + "/documents?limit="@
                + int_digits(limit as int) + "&offset="@ + int_digits(offset as int) + (
            if query is Some {
                "&q="@ + query->Some_0@
            } else {
                Seq::<char>::empty()
            }),
            r.body is None,
    {
        let mut s = self.agent_url(agent_id, "/documents?limit=");
        let l = i32_string(limit);
        s.append(l.as_str());
        s.append("&offset=");
        let o = i32_string(offset);
        s.append(o.as_str());
        match query {
            Some(q) => {
                s.append("&q=");
                s.append(q);
            },
            None => {
                proof {
                    assert(s@ =~= s@ + Seq::<char>::empty());
                }
            },
        }
        HttpRequest { method: HttpMethod::Get, url: s, body: None }
    }

    /// Fetches one document.
    pub fn get_document(&self, agent_id: &str, document_id: &str) -> (r: HttpRequest)
        ensures
            r.method == HttpMethod::Get,
            r.url@ == self.base_url@ + "/agents/"@ + agent_id@ + "/documents/"@ + document_id@,
            r.body is None,
    {
        let mut s = self.agent_url(agent_id, "/documents/");
        s.append(document_id);
        HttpRequest { method: HttpMethod::Get, url: s, body: None }
    }

    /// Deletes one document and its memory units.
    pub fn delete_document(&self, agent_id: &str, document_id: &str) -> (r: HttpRequest)
        ensures
            r.method == HttpMethod::Delete,
            r.url@ == self.base_url@ + "/agents/"@ + agent_id@ + "/documents/"@ + document_id@,
            r.body is None,
    {
        let mut s = self.agent_url(agent_id, "/documents/");
        s.append(document_id);
        HttpRequest { method: HttpMethod::Delete, url: s, body: None }
    }

    /// Lists an agent's asynchronous jobs.
    pub fn list_operations(&self, agent_id: &str) -> (r: HttpRequest)
        ensures
            r.method == HttpMethod::Get,
            r.url@ == self.base_url@ + "/agents/"@ + agent_id@ + "/operations"@,
            r.body is None,
    {
        HttpRequest {
            method: HttpMethod::Get,
            url: self.agent_url(agent_id, "/operations"),
            body: None,
        }
    }

    /// Cancels one pending asynchronous job.
    pub fn cancel_operation(&self, agent_id: &str, operation_id: &str) -> (r: HttpRequest)
        ensures
            r.method == HttpMethod::Post,
            r.url@ == self.base_url@ + "/agents/"@ + agent_id@ + "/operations/"@ + operation_id@
                + "/cancel"@,
            r.body is None,
    {
        let mut s = self.agent_url(agent_id, "/operations/");
        s.append(operation_id);
        s.append("/cancel");
        HttpRequest { method: HttpMethod::Post, url: s, body: None }
    }
}

} // verus!
