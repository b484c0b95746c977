//! Structured rendering: every typed result is serialized to a JSON text
//! whose exact contents the contracts pin down. Rendering is a pure
//! function of the typed value, so repeated renderings are byte-identical.

use vstd::prelude::*;
use crate::model::{
    AgentInfo, AgentProfile, BatchMemoryRequest, DocumentInfo, DocumentsResponse, Fact,
    MemoryItem, MemoryStats, Operation, OperationsResponse, Outcome, Personality,
    PutMemoriesResult, SearchRequest, SearchResponse, ThinkRequest, ThinkResponse, TraceInfo,
};

verus! {

/// The output channels: an interactive pretty view, or a structured
/// serialization.
#[derive(Debug, Clone, Copy, PartialEq, Eq, Structural)]
pub enum OutputFormat {
    Pretty,
    Json,
    Yaml,
}

/// Appends one character.
///
/// Relies on std's `String::push`: appends the given character to the end
/// of the string.
#[verifier::external_body]
fn push_char(s: &mut String, c: char)
    ensures
        final(s)@ == old(s)@ + seq![c],
{
    s.push(c);
}

// ---------------------------------------------------------------------------
// Decimal numbers.
// ---------------------------------------------------------------------------

/// The decimal digit character for `d` (0 ..= 9).
pub open spec fn digit_char(d: int) -> char {
    if d == 0 {
        '0'
    } else if d == 1 {
        '1'
    } else if d == 2 {
        '2'
    } else if d == 3 {
        '3'
    } else if d == 4 {
        '4'
    } else if d == 5 {
        '5'
    } else if d == 6 {
        '6'
    } else if d == 7 {
        '7'
    } else if d == 8 {
        '8'
    } else {
        '9'
    }
}

/// The decimal rendering of a non-negative number, most significant digit
/// first, with no leading zeros (except for zero itself).
pub open spec fn dec_digits(v: int) -> Seq<char>
    decreases v,
{
    if v < 10 {
        seq![digit_char(v)]
    } else {
        dec_digits(v / 10) + seq![digit_char(v % 10)]
    }
}

/// The decimal rendering of a possibly negative number.
pub open spec fn int_digits(v: int) -> Seq<char> {
    if v < 0 {
        seq!['-'] + dec_digits(-v)
    } else {
        dec_digits(v)
    }
}

fn digit_to_char(d: u8) -> (c: char)
    requires
        d < 10,
    ensures
        c == digit_char(d as int),
{
    match d {
        0 => '0',
        1 => '1',
        2 => '2',
        3 => '3',
        4 => '4',
        5 => '5',
        6 => '6',
        7 => '7',
        8 => '8',
        _ => '9',
    }
}

/// Renders an unsigned number in decimal.
pub fn u64_string(v: u64) -> (r: String)
    ensures
        r@ == dec_digits(v as int),
    decreases v,
{
    if v < 10 {
        let mut s = String::new();
        push_char(&mut s, digit_to_char(v as u8));
        proof {
            assert(s@ =~= dec_digits(v as int));
        }
        s
    } else {
        let mut s = u64_string(v / 10);
        push_char(&mut s, digit_to_char((v % 10) as u8));
        proof {
            assert(s@ =~= dec_digits(v as int));
        }
        s
    }
}

/// Renders a signed number in decimal.
pub fn i32_string(v: i32) -> (r: String)
    ensures
        r@ == int_digits(v as int),
{
    if v >= 0 {
        u64_string(v as u64)
    } else {
        let w: i64 = v as i64;
        let m: u64 = (-w) as u64;
        let mut s = String::from_str("-");
        let t = u64_string(m);
        s.append(t.as_str());
        proof {
            reveal_strlit("-");
            assert("-"@ =~= seq!['-']);
        }
        s
    }
}

// ---------------------------------------------------------------------------
// JSON strings.
// ---------------------------------------------------------------------------

/// How one character appears inside a JSON string literal.
pub open spec fn esc_char(c: char) -> Seq<char> {
    if c == '"' {
        seq!['\\', '"']
    } else if c == '\\' {
        seq!['\\', '\\']
    } else if c == '\n' {
        seq!['\\', 'n']
    } else if c == '\r' {
        seq!['\\', 'r']
    } else if c == '\t' {
        seq!['\\', 't']
    } else {
        seq![c]
    }
}

/// The body of a JSON string literal for `s`.
pub open spec fn json_escaped(s: Seq<char>) -> Seq<char>
    decreases s.len(),
{
    if s.len() == 0 {
        Seq::empty()
    } else {
        json_escaped(s.take(s.len() - 1)) + esc_char(s[s.len() - 1])
    }
}

/// A complete JSON string literal for `s`, quotes included.
pub open spec fn json_str(s: Seq<char>) -> Seq<char> {
    seq!['"'] + json_escaped(s) + seq!['"']
}

/// Escapes `s` for inclusion in a JSON string literal.
pub fn json_escape(s: &str) -> (r: String)
    ensures
        r@ == json_escaped(s@),
{
    let n: usize = s.unicode_len();
    let mut out = String::new();
    let mut i: usize = 0;
    while i < n
        invariant
            0 <= i <= n,
            n == s@.len(),
            out@ == json_escaped(s@.take(i as int)),
        decreases n - i,
    {
        let c = s.get_char(i);
        if c == '"' {
            push_char(&mut out, '\\');
            push_char(&mut out, '"');
        } else if c == '\\' {
            push_char(&mut out, '\\');
            push_char(&mut out, '\\');
        } else if c == '\n' {
            push_char(&mut out, '\\');
            push_char(&mut out, 'n');
        } else if c == '\r' {
            push_char(&mut out, '\\');
            push_char(&mut out, 'r');
        } else if c == '\t' {
            push_char(&mut out, '\\');
            push_char(&mut out, 't');
        } else {
            push_char(&mut out, c);
        }
        proof {
            assert(s@.take(i as int + 1).take(i as int) =~= s@.take(i as int));
            assert(s@.take(i as int + 1).last() == s@[i as int]);
            assert(out@ =~= json_escaped(s@.take(i as int + 1)));
        }
        i = i + 1;
    }
    proof {
        assert(s@.take(n as int) =~= s@);
    }
    out
}

/// Renders `s` as a JSON string literal.
pub fn json_quote(s: &str) -> (r: String)
    ensures
        r@ == json_str(s@),
{
    let mut out = String::new();
    push_char(&mut out, '"');
    let e = json_escape(s);
    out.append(e.as_str());
    push_char(&mut out, '"');
    proof {
        assert(out@ =~= json_str(s@));
    }
    out
}

/// The text of an optional string field: a string literal, or `null`.
pub open spec fn json_opt_str(o: Option<Seq<char>>) -> Seq<char> {
    match o {
        Some(s) => json_str(s),
        None => "null"@,
    }
}

/// The sequence view of an optional string.
pub open spec fn opt_text(o: Option<String>) -> Option<Seq<char>> {
    match o {
        Some(s) => Some(s@),
        None => None,
    }
}

/// Renders an optional string field.
pub fn json_quote_opt(o: &Option<String>) -> (r: String)
    ensures
        r@ == json_opt_str(opt_text(*o)),
{
    match o {
        Some(s) => json_quote(s.as_str()),
        None => String::from_str("null"),
    }
}

/// The text of a boolean field.
pub open spec fn json_bool(b: bool) -> Seq<char> {
    if b {
        "true"@
    } else {
        "false"@
    }
}

/// The text of an optional unsigned number field: digits, or `null`.
pub open spec fn json_opt_u64(o: Option<u64>) -> Seq<char> {
    match o {
        Some(v) => dec_digits(v as int),
        None => "null"@,
    }
}

/// Renders an optional unsigned number field.
pub fn u64_string_opt(o: &Option<u64>) -> (r: String)
    ensures
        r@ == json_opt_u64(*o),
{
    match o {
        Some(v) => u64_string(*v),
        None => String::from_str("null"),
    }
}

// ---------------------------------------------------------------------------
// Determinism of rendering.
// ---------------------------------------------------------------------------

/// Rendering is a pure function of the typed value: any two renderings
/// meeting the same contract are byte-identical, so rendering a given
/// result twice yields identical output.
pub proof fn lemma_render_deterministic(r1: String, r2: String, text: Seq<char>)
    requires
        r1@ == text,
        r2@ == text,
    ensures
        r1@ == r2@,
{
}

// ---------------------------------------------------------------------------
// Trait bars for the interactive profile view.
// ---------------------------------------------------------------------------

/// `n` copies of `c`.
pub open spec fn repeat_char(c: char, n: int) -> Seq<char>
    decreases n,
{
    if n <= 0 {
        Seq::empty()
    } else {
        repeat_char(c, n - 1) + seq![c]
    }
}

pub proof fn lemma_repeat_len(c: char, n: int)
    requires
        n >= 0,
    ensures
        repeat_char(c, n).len() == n,
    decreases n,
{
    if n > 0 {
        lemma_repeat_len(c, n - 1);
    }
}

/// The forty-cell bar for a trait strength in thousandths: filled cells
/// first, then empty ones.
pub open spec fn bar_text(permille: u32) -> Seq<char> {
    repeat_char('\u{2588}', permille as int * 40 / 1000) + repeat_char(
        '\u{2591}',
        40 - permille as int * 40 / 1000,
    )
}

/// Renders the bar for a trait strength. A strength of exactly one renders
/// a completely filled bar, with no overflow past the forty cells.
pub fn render_trait_bar(permille: u32) -> (r: String)
    requires
        permille <= 1000,
    ensures
        r@ == bar_text(permille),
        r@.len() == 40,
        permille == 1000 ==> r@ == repeat_char('\u{2588}', 40),
{
    let filled: u32 = permille * 40 / 1000;
    let mut out = String::new();
    let mut k: usize = 0;
    while k < filled as usize
        invariant
            0 <= k <= filled,
            filled == permille * 40 / 1000,
            permille <= 1000,
            out@ == repeat_char('\u{2588}', k as int),
        decreases filled - k,
    {
        push_char(&mut out, '\u{2588}');
        proof {
            assert(out@ =~= repeat_char('\u{2588}', k as int + 1));
        }
        k = k + 1;
    }
    let mut m: usize = 0;
    while m < 40 - filled as usize
        invariant
            filled <= 40,
            0 <= m <= 40 - filled,
            filled == permille * 40 / 1000,
            permille <= 1000,
            out@ == repeat_char('\u{2588}', filled as int) + repeat_char('\u{2591}', m as int),
        decreases 40 - filled - m,
    {
        push_char(&mut out, '\u{2591}');
        proof {
            assert(out@ =~= repeat_char('\u{2588}', filled as int) + repeat_char(
                '\u{2591}',
                m as int + 1,
            ));
        }
        m = m + 1;
    }
    proof {
        lemma_repeat_len('\u{2588}', filled as int);
        lemma_repeat_len('\u{2591}', 40 - filled as int);
        if permille == 1000 {
            assert(out@ =~= repeat_char('\u{2588}', 40));
        }
    }
    out
}

// ---------------------------------------------------------------------------
// JSON texts of the typed results.
// ---------------------------------------------------------------------------

/// The outcome envelope as JSON.
pub open spec fn outcome_json(o: Outcome) -> Seq<char> {
    "{\"success\":"@ + json_bool(o.success) + ",\"message\":"@ + json_str(o.message@) + "}"@
}

/// Renders the outcome envelope.
pub fn render_outcome_json(o: &Outcome) -> (r: String)
    ensures
        r@ == outcome_json(*o),
{
    let mut s = String::from_str("{\"success\":");
    if o.success {
        s.append("true");
    } else {
        s.append("false");
    }
    s.append(",\"message\":");
    let q = json_quote(o.message.as_str());
    s.append(q.as_str());
    s.append("}");
    s
}

/// A store result as JSON.
pub open spec fn put_result_json(p: PutMemoriesResult) -> Seq<char> {
    "{\"job_id\":"@ + json_opt_str(opt_text(p.job_id)) + ",\"stored_count\":"@ + json_opt_u64(
        p.stored_count,
    ) + ",\"items_count\":"@ + json_opt_u64(p.items_count) + "}"@
}

/// Renders a store result.
pub fn render_put_result_json(p: &PutMemoriesResult) -> (r: String)
    ensures
        r@ == put_result_json(*p),
{
    let mut s = String::from_str("{\"job_id\":");
    let a = json_quote_opt(&p.job_id);
    s.append(a.as_str());
    s.append(",\"stored_count\":");
    let b = u64_string_opt(&p.stored_count);
    s.append(b.as_str());
    s.append(",\"items_count\":");
    let c = u64_string_opt(&p.items_count);
    s.append(c.as_str());
    s.append("}");
    s
}

/// A personality as JSON, strengths in thousandths.
pub open spec fn personality_json(p: Personality) -> Seq<char> {
    "{\"openness\":"@ + dec_digits(p.openness as int) + ",\"conscientiousness\":"@ + dec_digits(
        p.conscientiousness as int,
    ) + ",\"extraversion\":"@ + dec_digits(p.extraversion as int) + ",\"agreeableness\":"@
        + dec_digits(p.agreeableness as int) + ",\"neuroticism\":"@ + dec_digits(
        p.neuroticism as int,
    ) + ",\"bias_strength\":"@ + dec_digits(p.bias_strength as int) + "}"@
}

/// Renders a personality.
pub fn render_personality_json(p: &Personality) -> (r: String)
    ensures
        r@ == personality_json(*p),
{
    let mut s = String::from_str("{\"openness\":");
    let a = u64_string(p.openness as u64);
    s.append(a.as_str());
    s.append(",\"conscientiousness\":");
    let b = u64_string(p.conscientiousness as u64);
    s.append(b.as_str());
    s.append(",\"extraversion\":");
    let c = u64_string(p.extraversion as u64);
    s.append(c.as_str());
    s.append(",\"agreeableness\":");
    let d = u64_string(p.agreeableness as u64);
    s.append(d.as_str());
    s.append(",\"neuroticism\":");
    let e = u64_string(p.neuroticism as u64);
    s.append(e.as_str());
    s.append(",\"bias_strength\":");
    let f = u64_string(p.bias_strength as u64);
    s.append(f.as_str());
    s.append("}");
    s
}

/// An agent profile as JSON.
pub open spec fn profile_json(p: AgentProfile) -> Seq<char> {
    "{\"agent_id\":"@ + json_str(p.agent_id@) + ",\"name\":"@ + json_str(p.name@)
        + ",\"background\":"@ + json_str(p.background@) + ",\"personality\":"@ + personality_json(
        p.personality,
    ) + "}"@
}

/// Renders an agent profile.
pub fn render_profile_json(p: &AgentProfile) -> (r: String)
    ensures
        r@ == profile_json(*p),
{
    let mut s = String::from_str("{\"agent_id\":");
    let a = json_quote(p.agent_id.as_str());
    s.append(a.as_str());
    s.append(",\"name\":");
    let b = json_quote(p.name.as_str());
    s.append(b.as_str());
    s.append(",\"background\":");
    let c = json_quote(p.background.as_str());
    s.append(c.as_str());
    s.append(",\"personality\":");
    let d = render_personality_json(&p.personality);
    s.append(d.as_str());
    s.append("}");
    s
}

/// One known agent as JSON.
pub open spec fn agent_info_json(a: AgentInfo) -> Seq<char> {
    "{\"agent_id\":"@ + json_str(a.agent_id@) + "}"@
}

/// The comma-joined agent list body.
pub open spec fn agents_join(aa: Seq<AgentInfo>) -> Seq<char>
    decreases aa.len(),
{
    if aa.len() == 0 {
        Seq::empty()
    } else if aa.len() == 1 {
        agent_info_json(aa[0])
    } else {
        agents_join(aa.take(aa.len() - 1)) + ","@ + agent_info_json(aa.last())
    }
}

/// The agent list as a JSON array.
pub open spec fn agents_json(aa: Seq<AgentInfo>) -> Seq<char> {
    "["@ + agents_join(aa) + "]"@
}

/// Renders the agent list.
pub fn render_agents_json(aa: &Vec<AgentInfo>) -> (r: String)
    ensures
        r@ == agents_json(aa@),
{
    let mut s = String::from_str("[");
    let n: usize = aa.len();
    let mut i: usize = 0;
    while i < n
        invariant
            0 <= i <= n,
            n == aa@.len(),
            s@ == "["@ + agents_join(aa@.take(i as int)),
        decreases n - i,
    {
        if i > 0 {
            s.append(",");
        }
        let q = json_quote(aa[i].agent_id.as_str());
        s.append("{\"agent_id\":");
        s.append(q.as_str());
        s.append("}");
        proof {
            assert(aa@.take(i as int + 1).take(i as int) =~= aa@.take(i as int));
            assert(aa@.take(i as int + 1).last() == aa@[i as int]);
            assert(s@ =~= "["@ + agents_join(aa@.take(i as int + 1)));
        }
        i = i + 1;
    }
    s.append("]");
    proof {
        assert(aa@.take(n as int) =~= aa@);
    }
    s
}

/// One retrieved fact as JSON.
pub open spec fn fact_json(f: Fact) -> Seq<char> {
    "{\"text\":"@ + json_str(f.text@) + ",\"fact_type\":"@ + json_opt_str(opt_text(f.fact_type))
        + ",\"activation\":"@ + json_opt_u32(f.activation) + ",\"context\":"@ + json_opt_str(
        opt_text(f.context),
    ) + ",\"occurred_start\":"@ + json_opt_str(opt_text(f.occurred_start)) + ",\"occurred_end\":"@
        + json_opt_str(opt_text(f.occurred_end)) + ",\"event_date\":"@ + json_opt_str(
        opt_text(f.event_date),
    ) + ",\"mentioned_at\":"@ + json_opt_str(opt_text(f.mentioned_at)) + ",\"document_id\":"@
        + json_opt_str(opt_text(f.document_id)) + "}"@
}

/// The text of an optional activation in thousandths: digits, or `null`.
pub open spec fn json_opt_u32(o: Option<u32>) -> Seq<char> {
    match o {
        Some(v) => dec_digits(v as int),
        None => "null"@,
    }
}

/// Renders an optional activation in thousandths.
pub fn u32_string_opt(o: &Option<u32>) -> (r: String)
    ensures
        r@ == json_opt_u32(*o),
{
    match o {
        Some(v) => u64_string(*v as u64),
        None => String::from_str("null"),
    }
}

/// Renders one retrieved fact.
pub fn render_fact_json(f: &Fact) -> (r: String)
    ensures
        r@ == fact_json(*f),
{
    let mut s = String::from_str("{\"text\":");
    let a = json_quote(f.text.as_str());
    s.append(a.as_str());
    s.append(",\"fact_type\":");
    let b = json_quote_opt(&f.fact_type);
    s.append(b.as_str());
    s.append(",\"activation\":");
    let c = u32_string_opt(&f.activation);
    s.append(c.as_str());
    s.append(",\"context\":");
    let d = json_quote_opt(&f.context);
    s.append(d.as_str());
    s.append(",\"occurred_start\":");
    let e = json_quote_opt(&f.occurred_start);
    s.append(e.as_str());
    s.append(",\"occurred_end\":");
    let g = json_quote_opt(&f.occurred_end);
    s.append(g.as_str());
    s.append(",\"event_date\":");
    let h = json_quote_opt(&f.event_date);
    s.append(h.as_str());
    s.append(",\"mentioned_at\":");
    let k = json_quote_opt(&f.mentioned_at);
    s.append(k.as_str());
    s.append(",\"document_id\":");
    let l = json_quote_opt(&f.document_id);
    s.append(l.as_str());
    s.append("}");
    s
}

/// The comma-joined search result body.
pub open spec fn facts_join(fs: Seq<Fact>) -> Seq<char>
    decreases fs.len(),
{
    if fs.len() == 0 {
        Seq::empty()
    } else if fs.len() == 1 {
        fact_json(fs[0])
    } else {
        facts_join(fs.take(fs.len() - 1)) + ","@ + fact_json(fs.last())
    }
}

/// Search trace diagnostics as JSON.
pub open spec fn trace_json(t: TraceInfo) -> Seq<char> {
    "{\"total_time_us\":"@ + json_opt_u64(t.total_time_us) + ",\"activation_count\":"@
        + json_opt_u64(t.activation_count) + "}"@
}

/// Renders trace diagnostics.
pub fn render_trace_json(t: &TraceInfo) -> (r: String)
    ensures
        r@ == trace_json(*t),
{
    let mut s = String::from_str("{\"total_time_us\":");
    let a = u64_string_opt(&t.total_time_us);
    s.append(a.as_str());
    s.append(",\"activation_count\":");
    let b = u64_string_opt(&t.activation_count);
    s.append(b.as_str());
    s.append("}");
    s
}

/// The optional trace field: a trace object, or `null`.
pub open spec fn json_opt_trace(o: Option<TraceInfo>) -> Seq<char> {
    match o {
        Some(t) => trace_json(t),
        None => "null"@,
    }
}

/// A search response as JSON.
pub open spec fn search_response_json(resp: SearchResponse) -> Seq<char> {
    "{\"results\":["@ + facts_join(resp.results@) + "],\"trace\":"@ + json_opt_trace(resp.trace)
        + "}"@
}

/// Renders a search response.
pub fn render_search_response_json(resp: &SearchResponse) -> (r: String)
    ensures
        r@ == search_response_json(*resp),
{
    let mut s = String::from_str("{\"results\":[");
    let n: usize = resp.results.len();
    let mut i: usize = 0;
    while i < n
        invariant
            0 <= i <= n,
            n == resp.results@.len(),
            s@ == "{\"results\":["@ + facts_join(resp.results@.take(i as int)),
        decreases n - i,
    {
        if i > 0 {
            s.append(",");
        }
        let f = render_fact_json(&resp.results[i]);
        s.append(f.as_str());
        proof {
            assert(resp.results@.take(i as int + 1).take(i as int) =~= resp.results@.take(
                i as int,
            ));
            assert(resp.results@.take(i as int + 1).last() == resp.results@[i as int]);
            assert(s@ =~= "{\"results\":["@ + facts_join(resp.results@.take(i as int + 1)));
        }
        i = i + 1;
    }
    s.append("],\"trace\":");
    match &resp.trace {
        Some(t) => {
            let q = render_trace_json(t);
            s.append(q.as_str());
        },
        None => {
            s.append("null");
        },
    }
    s.append("}");
    proof {
        assert(resp.results@.take(n as int) =~= resp.results@);
    }
    s
}

/// The comma-joined body of a JSON array of strings.
pub open spec fn strings_join(ss: Seq<String>) -> Seq<char>
    decreases ss.len(),
{
    if ss.len() == 0 {
        Seq::empty()
    } else if ss.len() == 1 {
        json_str(ss[0]@)
    } else {
        strings_join(ss.take(ss.len() - 1)) + ","@ + json_str(ss.last()@)
    }
}

/// A think response as JSON.
pub open spec fn think_response_json(resp: ThinkResponse) -> Seq<char> {
    "{\"text\":"@ + json_str(resp.text@) + ",\"based_on\":["@ + strings_join(resp.based_on@)
        + "]}"@
}

/// Renders a think response.
pub fn render_think_response_json(resp: &ThinkResponse) -> (r: String)
    ensures
        r@ == think_response_json(*resp),
{
    let mut s = String::from_str("{\"text\":");
    let a = json_quote(resp.text.as_str());
    s.append(a.as_str());
    s.append(",\"based_on\":[");
    let ghost head: Seq<char> = s@;
    let n: usize = resp.based_on.len();
    let mut i: usize = 0;
    while i < n
        invariant
            0 <= i <= n,
            n == resp.based_on@.len(),
            s@ == head + strings_join(resp.based_on@.take(i as int)),
        decreases n - i,
    {
        if i > 0 {
            s.append(",");
        }
        let q = json_quote(resp.based_on[i].as_str());
        s.append(q.as_str());
        proof {
            assert(resp.based_on@.take(i as int + 1).take(i as int) =~= resp.based_on@.take(
                i as int,
            ));
            assert(resp.based_on@.take(i as int + 1).last() == resp.based_on@[i as int]);
            assert(s@ =~= head + strings_join(resp.based_on@.take(i as int + 1)));
        }
        i = i + 1;
    }
    s.append("]}");
    proof {
        assert(resp.based_on@.take(n as int) =~= resp.based_on@);
        assert(s@ =~= think_response_json(*resp));
    }
    s
}

/// One asynchronous job as JSON.
pub open spec fn operation_json(o: Operation) -> Seq<char> {
    "{\"id\":"@ + json_str(o.id@) + ",\"task_type\":"@ + json_str(o.task_type@) + ",\"status\":"@
        + json_str(o.status@) + ",\"items_count\":"@ + dec_digits(o.items_count as int)
        + ",\"document_id\":"@ + json_opt_str(opt_text(o.document_id)) + "}"@
}

/// Renders one asynchronous job.
pub fn render_operation_json(o: &Operation) -> (r: String)
    ensures
        r@ == operation_json(*o),
{
    let mut s = String::from_str("{\"id\":");
    let a = json_quote(o.id.as_str());
    s.append(a.as_str());
    s.append(",\"task_type\":");
    let b = json_quote(o.task_type.as_str());
    s.append(b.as_str());
    s.append(",\"status\":");
    let c = json_quote(o.status.as_str());
    s.append(c.as_str());
    s.append(",\"items_count\":");
    let d = u64_string(o.items_count);
    s.append(d.as_str());
    s.append(",\"document_id\":");
    let e = json_quote_opt(&o.document_id);
    s.append(e.as_str());
    s.append("}");
    s
}

/// The comma-joined job list body.
pub open spec fn operations_join(oo: Seq<Operation>) -> Seq<char>
    decreases oo.len(),
{
    if oo.len() == 0 {
        Seq::empty()
    } else if oo.len() == 1 {
        operation_json(oo[0])
    } else {
        operations_join(oo.take(oo.len() - 1)) + ","@ + operation_json(oo.last())
    }
}

/// The job list as JSON.
pub open spec fn operations_response_json(resp: OperationsResponse) -> Seq<char> {
    "{\"operations\":["@ + operations_join(resp.operations@) + "]}"@
}

/// Renders the job list.
pub fn render_operations_json(resp: &OperationsResponse) -> (r: String)
    ensures
        r@ == operations_response_json(*resp),
{
    let mut s = String::from_str("{\"operations\":[");
    let n: usize = resp.operations.len();
    let mut i: usize = 0;
    while i < n
        invariant
            0 <= i <= n,
            n == resp.operations@.len(),
            s@ == "{\"operations\":["@ + operations_join(resp.operations@.take(i as int)),
        decreases n - i,
    {
        if i > 0 {
            s.append(",");
        }
        let q = render_operation_json(&resp.operations[i]);
        s.append(q.as_str());
        proof {
            assert(resp.operations@.take(i as int + 1).take(i as int) =~= resp.operations@.take(
                i as int,
            ));
            assert(resp.operations@.take(i as int + 1).last() == resp.operations@[i as int]);
            assert(s@ =~= "{\"operations\":["@ + operations_join(
                resp.operations@.take(i as int + 1),
            ));
        }
        i = i + 1;
    }
    s.append("]}");
    proof {
        assert(resp.operations@.take(n as int) =~= resp.operations@);
    }
    s
}

// ---------------------------------------------------------------------------
// JSON request bodies.
// ---------------------------------------------------------------------------

/// A search request body.
pub open spec fn search_request_json(q: SearchRequest) -> Seq<char> {
    "{\"query\":"@ + json_str(q.query@) + ",\"fact_type\":["@ + strings_join(q.fact_type@)
        + "],\"thinking_budget\":"@ + int_digits(q.thinking_budget as int) + ",\"max_tokens\":"@
        + int_digits(q.max_tokens as int) + ",\"trace\":"@ + json_bool(q.trace) + "}"@
}

/// Renders a search request body.
pub fn render_search_request_json(q: &SearchRequest) -> (r: String)
    ensures
        r@ == search_request_json(*q),
{
    let mut s = String::from_str("{\"query\":");
    let a = json_quote(q.query.as_str());
    s.append(a.as_str());
    s.append(",\"fact_type\":[");
    let ghost head: Seq<char> = s@;
    let n: usize = q.fact_type.len();
    let mut i: usize = 0;
    while i < n
        invariant
            0 <= i <= n,
            n == q.fact_type@.len(),
            s@ == head + strings_join(q.fact_type@.take(i as int)),
        decreases n - i,
    {
        if i > 0 {
            s.append(",");
        }
        let t = json_quote(q.fact_type[i].as_str());
        s.append(t.as_str());
        proof {
            assert(q.fact_type@.take(i as int + 1).take(i as int) =~= q.fact_type@.take(
                i as int,
            ));
            assert(q.fact_type@.take(i as int + 1).last() == q.fact_type@[i as int]);
            assert(s@ =~= head + strings_join(q.fact_type@.take(i as int + 1)));
        }
        i = i + 1;
    }
    s.append("],\"thinking_budget\":");
    let b = i32_string(q.thinking_budget);
    s.append(b.as_str());
    s.append(",\"max_tokens\":");
    let c = i32_string(q.max_tokens);
    s.append(c.as_str());
    s.append(",\"trace\":");
    if q.trace {
        s.append("true");
    } else {
        s.append("false");
    }
    s.append("}");
    proof {
        assert(q.fact_type@.take(n as int) =~= q.fact_type@);
        assert(s@ =~= search_request_json(*q));
    }
    s
}

/// A think request body.
pub open spec fn think_request_json(q: ThinkRequest) -> Seq<char> {
    "{\"query\":"@ + json_str(q.query@) + ",\"thinking_budget\":"@ + int_digits(
        q.thinking_budget as int,
    ) + ",\"context\":"@ + json_opt_str(opt_text(q.context)) + "}"@
}

/// Renders a think request body.
pub fn render_think_request_json(q: &ThinkRequest) -> (r: String)
    ensures
        r@ == think_request_json(*q),
{
    let mut s = String::from_str("{\"query\":");
    let a = json_quote(q.query.as_str());
    s.append(a.as_str());
    s.append(",\"thinking_budget\":");
    let b = i32_string(q.thinking_budget);
    s.append(b.as_str());
    s.append(",\"context\":");
    let c = json_quote_opt(&q.context);
    s.append(c.as_str());
    s.append("}");
    s
}

/// One memory item as JSON.
pub open spec fn memory_item_json(m: MemoryItem) -> Seq<char> {
    "{\"content\":"@ + json_str(m.content@) + ",\"context\":"@ + json_opt_str(opt_text(m.context))
        + "}"@
}

/// Renders one memory item.
pub fn render_memory_item_json(m: &MemoryItem) -> (r: String)
    ensures
        r@ == memory_item_json(*m),
{
    let mut s = String::from_str("{\"content\":");
    let a = json_quote(m.content.as_str());
    s.append(a.as_str());
    s.append(",\"context\":");
    let b = json_quote_opt(&m.context);
    s.append(b.as_str());
    s.append("}");
    s
}

/// The comma-joined batch item body.
pub open spec fn items_join(ms: Seq<MemoryItem>) -> Seq<char>
    decreases ms.len(),
{
    if ms.len() == 0 {
        Seq::empty()
    } else if ms.len() == 1 {
        memory_item_json(ms[0])
    } else {
        items_join(ms.take(ms.len() - 1)) + ","@ + memory_item_json(ms.last())
    }
}

/// A batch store request body.
pub open spec fn batch_request_json(b: BatchMemoryRequest) -> Seq<char> {
    "{\"items\":["@ + items_join(b.items@) + "],\"document_id\":"@ + json_opt_str(
        opt_text(b.document_id),
    ) + "}"@
}

/// Renders a batch store request body.
pub fn render_batch_request_json(b: &BatchMemoryRequest) -> (r: String)
    ensures
        r@ == batch_request_json(*b),
{
    let mut s = String::from_str("{\"items\":[");
    let n: usize = b.items.len();
    let mut i: usize = 0;
    while i < n
        invariant
            0 <= i <= n,
            n == b.items@.len(),
            s@ == "{\"items\":["@ + items_join(b.items@.take(i as int)),
        decreases n - i,
    {
        if i > 0 {
            s.append(",");
        }
        let q = render_memory_item_json(&b.items[i]);
        s.append(q.as_str());
        proof {
            assert(b.items@.take(i as int + 1).take(i as int) =~= b.items@.take(i as int));
            assert(b.items@.take(i as int + 1).last() == b.items@[i as int]);
            assert(s@ =~= "{\"items\":["@ + items_join(b.items@.take(i as int + 1)));
        }
        i = i + 1;
    }
    s.append("],\"document_id\":");
    let d = json_quote_opt(&b.document_id);
    s.append(d.as_str());
    s.append("}");
    proof {
        assert(b.items@.take(n as int) =~= b.items@);
    }
    s
}

/// The body for setting an agent's name.
pub open spec fn name_body_json(name: Seq<char>) -> Seq<char> {
    "{\"name\":"@ + json_str(name) + "}"@
}

/// Renders the body for setting an agent's name.
pub fn render_name_body_json(name: &str) -> (r: String)
    ensures
        r@ == name_body_json(name@),
{
    let mut s = String::from_str("{\"name\":");
    let a = json_quote(name);
    s.append(a.as_str());
    s.append("}");
    s
}

/// The body for merging an agent's background.
pub open spec fn background_body_json(content: Seq<char>, update_personality: bool) -> Seq<char> {
    "{\"background\":"@ + json_str(content) + ",\"update_personality\":"@ + json_bool(
        update_personality,
    ) + "}"@
}

/// Renders the body for merging an agent's background.
pub fn render_background_body_json(content: &str, update_personality: bool) -> (r: String)
    ensures
        r@ == background_body_json(content@, update_personality),
{
    let mut s = String::from_str("{\"background\":");
    let a = json_quote(content);
    s.append(a.as_str());
    s.append(",\"update_personality\":");
    if update_personality {
        s.append("true");
    } else {
        s.append("false");
    }
    s.append("}");
    s
}

// ---------------------------------------------------------------------------
// Documents and statistics.
// ---------------------------------------------------------------------------

/// One document summary as JSON.
pub open spec fn document_json(d: DocumentInfo) -> Seq<char> {
    "{\"id\":"@ + json_str(d.id@) + ",\"agent_id\":"@ + json_str(d.agent_id@)
        + ",\"created_at\":"@ + json_str(d.created_at@) + ",\"updated_at\":"@ + json_str(
        d.updated_at@,
    ) + ",\"text_length\":"@ + dec_digits(d.text_length as int) + ",\"memory_unit_count\":"@
        + dec_digits(d.memory_unit_count as int) + ",\"original_text\":"@ + json_str(
        d.original_text@,
    ) + "}"@
}

/// Renders one document summary.
pub fn render_document_json(d: &DocumentInfo) -> (r: String)
    ensures
        r@ == document_json(*d),
{
    let mut s = String::from_str("{\"id\":");
    let a = json_quote(d.id.as_str());
    s.append(a.as_str());
    s.append(",\"agent_id\":");
    let b = json_quote(d.agent_id.as_str());
    s.append(b.as_str());
    s.append(",\"created_at\":");
    let c = json_quote(d.created_at.as_str());
    s.append(c.as_str());
    s.append(",\"updated_at\":");
    let e = json_quote(d.updated_at.as_str());
    s.append(e.as_str());
    s.append(",\"text_length\":");
    let f = u64_string(d.text_length);
    s.append(f.as_str());
    s.append(",\"memory_unit_count\":");
    let g = u64_string(d.memory_unit_count);
    s.append(g.as_str());
    s.append(",\"original_text\":");
    let h = json_quote(d.original_text.as_str());
    s.append(h.as_str());
    s.append("}");
    s
}

/// The comma-joined document list body.
pub open spec fn documents_join(ds: Seq<DocumentInfo>) -> Seq<char>
    decreases ds.len(),
{
    if ds.len() == 0 {
        Seq::empty()
    } else if ds.len() == 1 {
        document_json(ds[0])
    } else {
        documents_join(ds.take(ds.len() - 1)) + ","@ + document_json(ds.last())
    }
}

/// A document page as JSON.
pub open spec fn documents_response_json(resp: DocumentsResponse) -> Seq<char> {
    "{\"items\":["@ + documents_join(resp.items@) + "],\"total\":"@ + dec_digits(
        resp.total as int,
    ) + "}"@
}

/// Renders a document page.
pub fn render_documents_json(resp: &DocumentsResponse) -> (r: String)
    ensures
        r@ == documents_response_json(*resp),
{
    let mut s = String::from_str("{\"items\":[");
    let n: usize = resp.items.len();
    let mut i: usize = 0;
    while i < n
        invariant
            0 <= i <= n,
            n == resp.items@.len(),
            s@ == "{\"items\":["@ + documents_join(resp.items@.take(i as int)),
        decreases n - i,
    {
        if i > 0 {
            s.append(",");
        }
        let q = render_document_json(&resp.items[i]);
        s.append(q.as_str());
        proof {
            assert(resp.items@.take(i as int + 1).take(i as int) =~= resp.items@.take(i as int));
            assert(resp.items@.take(i as int + 1).last() == resp.items@[i as int]);
            assert(s@ =~= "{\"items\":["@ + documents_join(resp.items@.take(i as int + 1)));
        }
        i = i + 1;
    }
    s.append("],\"total\":");
    let t = u64_string(resp.total);
    s.append(t.as_str());
    s.append("}");
    proof {
        assert(resp.items@.take(n as int) =~= resp.items@);
    }
    s
}

/// The comma-joined members of a JSON object of (category, count) pairs.
pub open spec fn pairs_join(ps: Seq<(String, u64)>) -> Seq<char>
    decreases ps.len(),
{
    if ps.len() == 0 {
        Seq::empty()
    } else if ps.len() == 1 {
        json_str(ps[0].0@) + ":"@ + dec_digits(ps[0].1 as int)
    } else {
        pairs_join(ps.take(ps.len() - 1)) + ","@ + json_str(ps.last().0@) + ":"@ + dec_digits(
            ps.last().1 as int,
        )
    }
}

/// A (category, count) association list as a JSON object.
pub open spec fn pairs_obj_json(ps: Seq<(String, u64)>) -> Seq<char> {
    "{"@ + pairs_join(ps) + "}"@
}

/// Renders a (category, count) association list as a JSON object.
pub fn render_pairs_obj(ps: &Vec<(String, u64)>) -> (r: String)
    ensures
        r@ == pairs_obj_json(ps@),
{
    let mut s = String::from_str("{");
    let n: usize = ps.len();
    let mut i: usize = 0;
    while i < n
        invariant
            0 <= i <= n,
            n == ps@.len(),
            s@ == "{"@ + pairs_join(ps@.take(i as int)),
        decreases n - i,
    {
        if i > 0 {
            s.append(",");
        }
        let q = json_quote(ps[i].0.as_str());
        s.append(q.as_str());
        s.append(":");
        let v = u64_string(ps[i].1);
        s.append(v.as_str());
        proof {
            assert(ps@.take(i as int + 1).take(i as int) =~= ps@.take(i as int));
            assert(ps@.take(i as int + 1).last() == ps@[i as int]);
            assert(s@ =~= "{"@ + pairs_join(ps@.take(i as int + 1)));
        }
        i = i + 1;
    }
    s.append("}");
    proof {
        assert(ps@.take(n as int) =~= ps@);
    }
    s
}

/// Memory statistics as JSON.
pub open spec fn stats_json(st: MemoryStats) -> Seq<char> {
    "{\"total_nodes\":"@ + dec_digits(st.total_nodes as int) + ",\"total_links\":"@ + dec_digits(
        st.total_links as int,
    ) + ",\"total_documents\":"@ + dec_digits(st.total_documents as int)
        + ",\"nodes_by_fact_type\":"@ + pairs_obj_json(st.nodes_by_fact_type@)
        + ",\"links_by_link_type\":"@ + pairs_obj_json(st.links_by_link_type@)
        + ",\"links_by_fact_type\":"@ + pairs_obj_json(st.links_by_fact_type@)
        + ",\"pending_operations\":"@ + dec_digits(st.pending_operations as int)
        + ",\"failed_operations\":"@ + dec_digits(st.failed_operations as int) + "}"@
}

/// Renders memory statistics.
pub fn render_stats_json(st: &MemoryStats) -> (r: String)
    ensures
        r@ == stats_json(*st),
{
    let mut s = String::from_str("{\"total_nodes\":");
    let a = u64_string(st.total_nodes);
    s.append(a.as_str());
    s.append(",\"total_links\":");
    let b = u64_string(st.total_links);
    s.append(b.as_str());
    s.append(",\"total_documents\":");
    let c = u64_string(st.total_documents);
    s.append(c.as_str());
    s.append(",\"nodes_by_fact_type\":");
    let d = render_pairs_obj(&st.nodes_by_fact_type);
    s.append(d.as_str());
    s.append(",\"links_by_link_type\":");
    let e = render_pairs_obj(&st.links_by_link_type);
    s.append(e.as_str());
    s.append(",\"links_by_fact_type\":");
    let f = render_pairs_obj(&st.links_by_fact_type);
    s.append(f.as_str());
    s.append(",\"pending_operations\":");
    let g = u64_string(st.pending_operations);
    s.append(g.as_str());
    s.append(",\"failed_operations\":");
    let h = u64_string(st.failed_operations);
    s.append(h.as_str());
    s.append("}");
    s
}

// ---------------------------------------------------------------------------
// YAML texts: one top-level key per line, nested values in flow style.
// ---------------------------------------------------------------------------

fn render_facts_body(fs: &Vec<Fact>) -> (r: String)
    ensures
        r@ == facts_join(fs@),
{
    let mut s = String::new();
    let n: usize = fs.len();
    let mut i: usize = 0;
    while i < n
        invariant
            0 <= i <= n,
            n == fs@.len(),
            s@ == facts_join(fs@.take(i as int)),
        decreases n - i,
    {
        if i > 0 {
            s.append(",");
        }
        let q = render_fact_json(&fs[i]);
        s.append(q.as_str());
        proof {
            assert(fs@.take(i as int + 1).take(i as int) =~= fs@.take(i as int));
            assert(fs@.take(i as int + 1).last() == fs@[i as int]);
            assert(s@ =~= facts_join(fs@.take(i as int + 1)));
        }
        i = i + 1;
    }
    proof {
        assert(fs@.take(n as int) =~= fs@);
    }
    s
}

fn render_strings_body(ss: &Vec<String>) -> (r: String)
    ensures
        r@ == strings_join(ss@),
{
    let mut s = String::new();
    let n: usize = ss.len();
    let mut i: usize = 0;
    while i < n
        invariant
            0 <= i <= n,
            n == ss@.len(),
            s@ == strings_join(ss@.take(i as int)),
        decreases n - i,
    {
        if i > 0 {
            s.append(",");
        }
        let q = json_quote(ss[i].as_str());
        s.append(q.as_str());
        proof {
            assert(ss@.take(i as int + 1).take(i as int) =~= ss@.take(i as int));
            assert(ss@.take(i as int + 1).last() == ss@[i as int]);
            assert(s@ =~= strings_join(ss@.take(i as int + 1)));
        }
        i = i + 1;
    }
    proof {
        assert(ss@.take(n as int) =~= ss@);
    }
    s
}

fn render_operations_body(oo: &Vec<Operation>) -> (r: String)
    ensures
        r@ == operations_join(oo@),
{
    let mut s = String::new();
    let n: usize = oo.len();
    let mut i: usize = 0;
    while i < n
        invariant
            0 <= i <= n,
            n == oo@.len(),
            s@ == operations_join(oo@.take(i as int)),
        decreases n - i,
    {
        if i > 0 {
            s.append(",");
        }
        let q = render_operation_json(&oo[i]);
        s.append(q.as_str());
        proof {
            assert(oo@.take(i as int + 1).take(i as int) =~= oo@.take(i as int));
            assert(oo@.take(i as int + 1).last() == oo@[i as int]);
            assert(s@ =~= operations_join(oo@.take(i as int + 1)));
        }
        i = i + 1;
    }
    proof {
        assert(oo@.take(n as int) =~= oo@);
    }
    s
}

fn render_documents_body(ds: &Vec<DocumentInfo>) -> (r: String)
    ensures
        r@ == documents_join(ds@),
{
    let mut s = String::new();
    let n: usize = ds.len();
    let mut i: usize = 0;
    while i < n
        invariant
            0 <= i <= n,
            n == ds@.len(),
            s@ == documents_join(ds@.take(i as int)),
        decreases n - i,
    {
        if i > 0 {
            s.append(",");
        }
        let q = render_document_json(&ds[i]);
        s.append(q.as_str());
        proof {
            assert(ds@.take(i as int + 1).take(i as int) =~= ds@.take(i as int));
            assert(ds@.take(i as int + 1).last() == ds@[i as int]);
            assert(s@ =~= documents_join(ds@.take(i as int + 1)));
        }
        i = i + 1;
    }
    proof {
        assert(ds@.take(n as int) =~= ds@);
    }
    s
}

/// The outcome envelope as YAML.
pub open spec fn outcome_yaml(o: Outcome) -> Seq<char> {
    "success: "@ + json_bool(o.success) + "\nmessage: "@ + json_str(o.message@) + "\n"@
}

/// Renders the outcome envelope as YAML.
pub fn render_outcome_yaml(o: &Outcome) -> (r: String)
    ensures
        r@ == outcome_yaml(*o),
{
    let mut s = String::from_str("success: ");
    if o.success {
        s.append("true");
    } else {
        s.append("false");
    }
    s.append("\nmessage: ");
    let q = json_quote(o.message.as_str());
    s.append(q.as_str());
    s.append("\n");
    s
}

/// A store result as YAML.
pub open spec fn put_result_yaml(p: PutMemoriesResult) -> Seq<char> {
    "job_id: "@ + json_opt_str(opt_text(p.job_id)) + "\nstored_count: "@ + json_opt_u64(
        p.stored_count,
    ) + "\nitems_count: "@ + json_opt_u64(p.items_count) + "\n"@
}

/// Renders a store result as YAML.
pub fn render_put_result_yaml(p: &PutMemoriesResult) -> (r: String)
    ensures
        r@ == put_result_yaml(*p),
{
    let mut s = String::from_str("job_id: ");
    let a = json_quote_opt(&p.job_id);
    s.append(a.as_str());
    s.append("\nstored_count: ");
    let b = u64_string_opt(&p.stored_count);
    s.append(b.as_str());
    s.append("\nitems_count: ");
    let c = u64_string_opt(&p.items_count);
    s.append(c.as_str());
    s.append("\n");
    s
}

/// An agent profile as YAML.
pub open spec fn profile_yaml(p: AgentProfile) -> Seq<char> {
    "agent_id: "@ + json_str(p.agent_id@) + "\nname: "@ + json_str(p.name@) + "\nbackground: "@
        + json_str(p.background@) + "\npersonality: "@ + personality_json(p.personality) + "\n"@
}

/// Renders an agent profile as YAML.
pub fn render_profile_yaml(p: &AgentProfile) -> (r: String)
    ensures
        r@ == profile_yaml(*p),
{
    let mut s = String::from_str("agent_id: ");
    let a = json_quote(p.agent_id.as_str());
    s.append(a.as_str());
    s.append("\nname: ");
    let b = json_quote(p.name.as_str());
    s.append(b.as_str());
    s.append("\nbackground: ");
    let c = json_quote(p.background.as_str());
    s.append(c.as_str());
    s.append("\npersonality: ");
    let d = render_personality_json(&p.personality);
    s.append(d.as_str());
    s.append("\n");
    s
}

/// A search response as YAML.
pub open spec fn search_response_yaml(resp: SearchResponse) -> Seq<char> {
    "results: ["@ + facts_join(resp.results@) + "]\ntrace: "@ + json_opt_trace(resp.trace)
        + "\n"@
}

/// Renders a search response as YAML.
pub fn render_search_response_yaml(resp: &SearchResponse) -> (r: String)
    ensures
        r@ == search_response_yaml(*resp),
{
    let mut s = String::from_str("results: [");
    let body = render_facts_body(&resp.results);
    s.append(body.as_str());
    s.append("]\ntrace: ");
    match &resp.trace {
        Some(t) => {
            let q = render_trace_json(t);
            s.append(q.as_str());
        },
        None => {
            s.append("null");
        },
    }
    s.append("\n");
    s
}

/// A think response as YAML.
pub open spec fn think_response_yaml(resp: ThinkResponse) -> Seq<char> {
    "text: "@ + json_str(resp.text@) + "\nbased_on: ["@ + strings_join(resp.based_on@) + "]\n"@
}

/// Renders a think response as YAML.
pub fn render_think_response_yaml(resp: &ThinkResponse) -> (r: String)
    ensures
        r@ == think_response_yaml(*resp),
{
    let mut s = String::from_str("text: ");
    let a = json_quote(resp.text.as_str());
    s.append(a.as_str());
    s.append("\nbased_on: [");
    let body = render_strings_body(&resp.based_on);
    s.append(body.as_str());
    s.append("]\n");
    s
}

/// The job list as YAML.
pub open spec fn operations_response_yaml(resp: OperationsResponse) -> Seq<char> {
    "operations: ["@ + operations_join(resp.operations@) + "]\n"@
}

/// Renders the job list as YAML.
pub fn render_operations_yaml(resp: &OperationsResponse) -> (r: String)
    ensures
        r@ == operations_response_yaml(*resp),
{
    let mut s = String::from_str("operations: [");
    let body = render_operations_body(&resp.operations);
    s.append(body.as_str());
    s.append("]\n");
    s
}

/// The agent list as YAML.
pub open spec fn agents_yaml(aa: Seq<AgentInfo>) -> Seq<char> {
    "agents: ["@ + agents_join(aa) + "]\n"@
}

/// Renders the agent list as YAML.
pub fn render_agents_yaml(aa: &Vec<AgentInfo>) -> (r: String)
    ensures
        r@ == agents_yaml(aa@),
{
    let mut s = String::from_str("agents: [");
    let n: usize = aa.len();
    let mut i: usize = 0;
    while i < n
        invariant
            0 <= i <= n,
            n == aa@.len(),
            s@ == "agents: ["@ + agents_join(aa@.take(i as int)),
        decreases n - i,
    {
        if i > 0 {
            s.append(",");
        }
        let q = json_quote(aa[i].agent_id.as_str());
        s.append("{\"agent_id\":");
        s.append(q.as_str());
        s.append("}");
        proof {
            assert(aa@.take(i as int + 1).take(i as int) =~= aa@.take(i as int));
            assert(aa@.take(i as int + 1).last() == aa@[i as int]);
            assert(s@ =~= "agents: ["@ + agents_join(aa@.take(i as int + 1)));
        }
        i = i + 1;
    }
    s.append("]\n");
    proof {
        assert(aa@.take(n as int) =~= aa@);
    }
    s
}

/// A document page as YAML.
pub open spec fn documents_response_yaml(resp: DocumentsResponse) -> Seq<char> {
    "items: ["@ + documents_join(resp.items@) + "]\ntotal: "@ + dec_digits(resp.total as int)
        + "\n"@
}

/// Renders a document page as YAML.
pub fn render_documents_yaml(resp: &DocumentsResponse) -> (r: String)
    ensures
        r@ == documents_response_yaml(*resp),
{
    let mut s = String::from_str("items: [");
    let body = render_documents_body(&resp.items);
    s.append(body.as_str());
    s.append("]\ntotal: ");
    let t = u64_string(resp.total);
    s.append(t.as_str());
    s.append("\n");
    s
}

/// Memory statistics as YAML.
pub open spec fn stats_yaml(st: MemoryStats) -> Seq<char> {
    "total_nodes: "@ + dec_digits(st.total_nodes as int) + "\ntotal_links: "@ + dec_digits(
        st.total_links as int,
    ) + "\ntotal_documents: "@ + dec_digits(st.total_documents as int)
        + "\nnodes_by_fact_type: "@ + pairs_obj_json(st.nodes_by_fact_type@)
        + "\nlinks_by_link_type: "@ + pairs_obj_json(st.links_by_link_type@)
        + "\nlinks_by_fact_type: "@ + pairs_obj_json(st.links_by_fact_type@)
        + "\npending_operations: "@ + dec_digits(st.pending_operations as int)
        + "\nfailed_operations: "@ + dec_digits(st.failed_operations as int) + "\n"@
}

/// Renders memory statistics as YAML.
pub fn render_stats_yaml(st: &MemoryStats) -> (r: String)
    ensures
        r@ == stats_yaml(*st),
{
    let mut s = String::from_str("total_nodes: ");
    let a = u64_string(st.total_nodes);
    s.append(a.as_str());
    s.append("\ntotal_links: ");
    let b = u64_string(st.total_links);
    s.append(b.as_str());
    s.append("\ntotal_documents: ");
    let c = u64_string(st.total_documents);
    s.append(c.as_str());
    s.append("\nnodes_by_fact_type: ");
    let d = render_pairs_obj(&st.nodes_by_fact_type);
    s.append(d.as_str());
    s.append("\nlinks_by_link_type: ");
    let e = render_pairs_obj(&st.links_by_link_type);
    s.append(e.as_str());
    s.append("\nlinks_by_fact_type: ");
    let f = render_pairs_obj(&st.links_by_fact_type);
    s.append(f.as_str());
    s.append("\npending_operations: ");
    let g = u64_string(st.pending_operations);
    s.append(g.as_str());
    s.append("\nfailed_operations: ");
    let h = u64_string(st.failed_operations);
    s.append(h.as_str());
    s.append("\n");
    s
}

} // verus!
