//! Per-command decisions the dispatcher makes before and after the single
//! round trip: whether to ask for confirmation, how to assemble a bulk
//! import, how to report a store result, and the process exit status.

use vstd::prelude::*;
use crate::model::{BatchMemoryRequest, MemoryItem, PutMemoriesResult};

verus! {

/// Two optional strings carry the same text, or are both absent.
pub open spec fn same_opt_text(a: Option<String>, b: Option<String>) -> bool {
    &&& a is Some <==> b is Some
    &&& a is Some ==> a->Some_0@ == b->Some_0@
}

fn clone_opt_string(o: &Option<String>) -> (r: Option<String>)
    ensures
        same_opt_text(r, *o),
{
    match o {
        Some(s) => Some(s.clone()),
        None => None,
    }
}

// ---------------------------------------------------------------------------
// Clearing memories: the confirmation gate.
// ---------------------------------------------------------------------------

/// What the dispatcher does with a clear command after the confirmation
/// gate.
#[derive(Debug, Clone, Copy, PartialEq, Eq, Structural)]
pub enum ClearDecision {
    /// Send the request.
    Proceed,
    /// Send nothing; exit successfully with an informational message.
    Cancelled,
}

/// Confirmation is required unless the skip flag is set or the output mode
/// is non-interactive.
pub open spec fn confirmation_required(skip: bool, interactive: bool) -> bool {
    !skip && interactive
}

/// The confirmation gate for clearing memories: when confirmation is
/// required, only an explicit yes proceeds; a declined or missing answer
/// cancels, and no request is sent.
pub fn clear_decision(skip: bool, interactive: bool, answer: Option<bool>) -> (r: ClearDecision)
    ensures
        !confirmation_required(skip, interactive) ==> r == ClearDecision::Proceed,
        confirmation_required(skip, interactive) && answer == Some(true) ==> r
            == ClearDecision::Proceed,
        confirmation_required(skip, interactive) && answer != Some(true) ==> r
            == ClearDecision::Cancelled,
{
    if !skip && interactive {
        match answer {
            Some(true) => ClearDecision::Proceed,
            _ => ClearDecision::Cancelled,
        }
    } else {
        ClearDecision::Proceed
    }
}

// ---------------------------------------------------------------------------
// Bulk import assembly.
// ---------------------------------------------------------------------------

/// One gathered file: its name stem (when representable) and its text
/// (absent when the file could not be read).
#[derive(Debug, Clone)]
pub struct FileBlob {
    pub stem: Option<String>,
    pub content: Option<String>,
}

/// How a bulk import proceeds.
#[derive(Debug)]
pub enum ImportPlan {
    /// Nothing to import; no request is made.
    Empty,
    /// The file at this index could not be read; the whole command aborts
    /// before any request is made.
    Unreadable(usize),
    /// One batch request covering every file, in order.
    Ready(BatchMemoryRequest),
}

/// Assembles a bulk import into a single all-or-nothing batch: every file's
/// text becomes one item, all items share the same context, and the
/// document id comes from the first file's stem (or the supplied fallback).
/// One unreadable file aborts the whole import before any transport.
pub fn plan_import(files: &Vec<FileBlob>, context: &Option<String>, fallback_doc_id: String) -> (r:
    ImportPlan)
    ensures
        files@.len() == 0 <==> r is Empty,
        r matches ImportPlan::Unreadable(i) ==> 0 <= i < files@.len() && files@[i as int].content
            is None && (forall|k: int| 0 <= k < i ==> files@[k].content is Some),
        files@.len() > 0 && (exists|k: int|
            0 <= k < files@.len() && files@[k].content is None) ==> r is Unreadable,
        r matches ImportPlan::Ready(req) ==> {
            &&& forall|k: int| 0 <= k < files@.len() ==> files@[k].content is Some
            &&& req.wf()
            &&& req.items@.len() == files@.len()
            &&& forall|k: int|
                0 <= k < files@.len() ==> req.items@[k].content@
                    == files@[k].content->Some_0@
            &&& forall|k: int|
                0 <= k < files@.len() ==> same_opt_text(req.items@[k].context, *context)
            &&& req.document_id is Some
            &&& req.document_id->Some_0@ == if files@[0].stem is Some {
                files@[0].stem->Some_0@
            } else {
                fallback_doc_id@
            }
        },
        files@.len() > 0 && (forall|k: int|
            0 <= k < files@.len() ==> files@[k].content is Some) ==> r is Ready,
{
    let n: usize = files.len();
    if n == 0 {
        return ImportPlan::Empty;
    }
    let mut items: Vec<MemoryItem> = Vec::new();
    let mut i: usize = 0;
    while i < n
        invariant
            0 <= i <= n,
            n == files@.len(),
            items@.len() == i,
            forall|k: int| 0 <= k < i ==> files@[k].content is Some,
            forall|k: int|
                0 <= k < i ==> items@[k].content@ == files@[k].content->Some_0@,
            forall|k: int| 0 <= k < i ==> same_opt_text(items@[k].context, *context),
        decreases n - i,
    {
        match &files[i].content {
            Some(c) => {
                items.push(
                    MemoryItem { content: c.clone(), context: clone_opt_string(context) },
                );
            },
            None => {
                return ImportPlan::Unreadable(i);
            },
        }
        i = i + 1;
    }
    let doc: String = match &files[0].stem {
        Some(s) => s.clone(),
        None => fallback_doc_id,
    };
    ImportPlan::Ready(BatchMemoryRequest { items, document_id: Some(doc) })
}

// ---------------------------------------------------------------------------
// Reporting a store result.
// ---------------------------------------------------------------------------

/// How a store call is reported to the operator.
#[derive(Debug, Clone)]
pub enum PutReport {
    /// The work was queued as a background job with this operation id.
    Queued(String),
    /// The memories were stored immediately; this many units were created.
    Stored(u64),
}

/// The stored count a result implies: the explicit stored count, else the
/// item count, else zero.
pub open spec fn stored_count_of(r: PutMemoriesResult) -> u64 {
    if r.stored_count is Some {
        r.stored_count->Some_0
    } else if r.items_count is Some {
        r.items_count->Some_0
    } else {
        0
    }
}

/// Decides how a store result is reported: a job id means queued background
/// work (reported as such even though both fields exist on the wire type);
/// otherwise the stored count is reported.
pub fn put_report(r: &PutMemoriesResult) -> (rep: PutReport)
    ensures
        r.job_id is Some ==> rep is Queued && rep->Queued_0@ == r.job_id->Some_0@,
        r.job_id is None ==> rep == PutReport::Stored(stored_count_of(*r)),
{
    match &r.job_id {
        Some(id) => PutReport::Queued(id.clone()),
        None => match r.stored_count {
            Some(c) => PutReport::Stored(c),
            None => match r.items_count {
                Some(c) => PutReport::Stored(c),
                None => PutReport::Stored(0),
            },
        },
    }
}

// ---------------------------------------------------------------------------
// Exit status.
// ---------------------------------------------------------------------------

/// The process exit code: zero on success, one on any surfaced error.
pub fn exit_code(success: bool) -> (c: i32)
    ensures
        success ==> c == 0,
        !success ==> c == 1,
{
    if success {
        0
    } else {
        1
    }
}

} // verus!
