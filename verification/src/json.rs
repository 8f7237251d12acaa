//! The JSON formatter/minifier pipeline.
//!
//! A submitted buffer is classified by byte size: empty and oversized
//! inputs are answered at once, small ones are parsed synchronously, and
//! medium or large ones produce the worker's event stream — a fixed
//! progress ladder followed by the single terminal result. Parsing and
//! serialization are done by serde_json behind trusted wrappers; the
//! classification, the pre-check, the ladders and the message texts are
//! verified here.

use vstd::prelude::*;
use vstd::string::StringSliceAdditionalSpecFns;

use crate::numeric::spec_udec;
use crate::numeric::u64_to_dec;
use crate::progress::ProcessUpdate;
use crate::progress::stream_wf;
use crate::scan::spec_skip_ws;
use crate::scan::spec_trim_end;
use crate::scan::first_mark;
use crate::scan::end_mark;

verus! {

/// Inputs strictly larger than this many bytes are rejected unparsed.
pub const MAX_INPUT_SIZE: usize = 20_000_000;

/// Inputs strictly larger than this many bytes take the large schedule.
pub const LARGE_JSON_THRESHOLD: usize = 500_000;

/// Inputs strictly smaller than this many bytes are processed
/// synchronously, with no progress events.
pub const SMALL_SYNC_LIMIT: usize = 5_000;

/// The requested operation on a JSON buffer.
#[derive(Clone, Copy, PartialEq, Eq, Structural, Debug)]
pub enum JsonOp {
    Pretty,
    Minify,
}

/// The size class of an input, by its byte length.
#[derive(Clone, Copy, PartialEq, Eq, Structural, Debug)]
pub enum SizeClass {
    Empty,
    Small,
    Medium,
    Large,
    Oversized,
}

/// The byte length of a text buffer, which is what every size threshold
/// is measured in.
pub open spec fn byte_len(s: &str) -> int {
    (s.spec_bytes().len() as usize) as int
}

/// The size class of a byte length.
pub open spec fn spec_size_class(b: int) -> SizeClass {
    if b == 0 {
        SizeClass::Empty
    } else if b < SMALL_SYNC_LIMIT as int {
        SizeClass::Small
    } else if b <= LARGE_JSON_THRESHOLD as int {
        SizeClass::Medium
    } else if b <= MAX_INPUT_SIZE as int {
        SizeClass::Large
    } else {
        SizeClass::Oversized
    }
}

/// Classifies a byte length. The caller runs Empty, Small and Oversized
/// inputs synchronously and moves Medium and Large ones to a worker with
/// a 120-second timeout.
pub fn size_class(b: usize) -> (r: SizeClass)
    ensures
        r == spec_size_class(b as int),
{
    if b == 0 {
        SizeClass::Empty
    } else if b < SMALL_SYNC_LIMIT {
        SizeClass::Small
    } else if b <= LARGE_JSON_THRESHOLD {
        SizeClass::Medium
    } else if b <= MAX_INPUT_SIZE {
        SizeClass::Large
    } else {
        SizeClass::Oversized
    }
}

// ---------------------------------------------------------------------
// What serde_json computes, by name.
// ---------------------------------------------------------------------

/// Whether serde_json parses this text as a JSON document.
pub uninterp spec fn json_ok(s: Seq<char>) -> bool;

/// The parser's error message for a text it rejects.
pub uninterp spec fn json_err(s: Seq<char>) -> Seq<char>;

/// The pretty serialization (two-space indent) of the document this text
/// parses to.
pub uninterp spec fn json_pretty(s: Seq<char>) -> Seq<char>;

/// The compact serialization of the document this text parses to.
pub uninterp spec fn json_min(s: Seq<char>) -> Seq<char>;

/// The element count of the document this text parses to, when that
/// document is an array; `None` when it is not.
pub uninterp spec fn json_top_array(s: Seq<char>) -> Option<int>;

/// How a serde_json call fails: the input did not parse (with the
/// parser's message), or the serializer itself failed afterwards — an
/// outcome the wrappers' contracts rule out for parsed documents, kept
/// so the pipeline degrades to a message instead of panicking.
pub enum JsonFailure {
    Parse(String),
    Render,
}

/// Relies on serde_json::from_str and serde_json::to_string_pretty: the
/// parse accepts exactly the texts serde_json accepts, its error message
/// is a function of the text, and the pretty serialization of the parsed
/// document is two-space-indented JSON that parses back to a document
/// with the same compact and pretty forms. Serializing a parsed document
/// cannot fail — its maps have string keys, its numbers hold no
/// non-finite floats, and the sink is an in-memory buffer — so the
/// serializer-failure arm is unreachable.
#[verifier::external_body]
fn render_pretty(s: &str) -> (r: Result<String, JsonFailure>)
    ensures
        match r {
            Ok(t) => {
                &&& json_ok(s@)
                &&& t@ == json_pretty(s@)
                &&& json_ok(t@)
                &&& json_min(t@) == json_min(s@)
                &&& json_pretty(t@) == json_pretty(s@)
            },
            Err(JsonFailure::Parse(m)) => !json_ok(s@) && m@ == json_err(s@),
            Err(JsonFailure::Render) => false,
        },
{
    match serde_json::from_str::<serde_json::Value>(s) {
        Ok(v) => match serde_json::to_string_pretty(&v) {
            Ok(t) => Ok(t),
            Err(_) => Err(JsonFailure::Render),
        },
        Err(e) => Err(JsonFailure::Parse(e.to_string())),
    }
}

/// Relies on serde_json::from_str and serde_json::to_string: as above
/// (including the unreachable serializer-failure arm), and the compact
/// serialization is canonical — parsing it back and re-serializing
/// reproduces it, and its pretty form is the pretty form of the input
/// text.
#[verifier::external_body]
fn render_min(s: &str) -> (r: Result<String, JsonFailure>)
    ensures
        match r {
            Ok(t) => {
                &&& json_ok(s@)
                &&& t@ == json_min(s@)
                &&& json_ok(t@)
                &&& json_min(t@) == t@
                &&& json_pretty(t@) == json_pretty(s@)
            },
            Err(JsonFailure::Parse(m)) => !json_ok(s@) && m@ == json_err(s@),
            Err(JsonFailure::Render) => false,
        },
{
    match serde_json::from_str::<serde_json::Value>(s) {
        Ok(v) => match serde_json::to_string(&v) {
            Ok(t) => Ok(t),
            Err(_) => Err(JsonFailure::Render),
        },
        Err(e) => Err(JsonFailure::Parse(e.to_string())),
    }
}

/// Relies on serde_json::from_str and serde_json::Value::as_array: for a
/// text that parses, reports the top-level array's element count, and
/// `None` for any other top-level shape.
#[verifier::external_body]
fn top_array_len(s: &str) -> (r: Option<usize>)
    ensures
        json_ok(s@) ==> match json_top_array(s@) {
            Some(n) => r matches Some(k) && k as int == n,
            None => r is None,
        },
{
    match serde_json::from_str::<serde_json::Value>(s) {
        Ok(v) => v.as_array().map(|a| a.len()),
        Err(_) => None,
    }
}

// ---------------------------------------------------------------------
// Message texts.
// ---------------------------------------------------------------------

/// The terminal text for an empty submission.
pub open spec fn please_enter_text() -> Seq<char> {
    "please enter JSON content"@
}

/// The terminal text when the structural pre-check rejects the input.
pub open spec fn invalid_json_text() -> Seq<char> {
    "invalid JSON"@
}

/// The terminal text when the parser rejects the input.
pub open spec fn invalid_json_detail_text(s: Seq<char>) -> Seq<char> {
    "invalid JSON: "@ + json_err(s)
}

/// The terminal text reserved for a serialization failure after a
/// successful parse — an outcome the wrappers rule out.
pub open spec fn fail_text(pretty: bool) -> Seq<char> {
    if pretty {
        "format failed"@
    } else {
        "minify failed"@
    }
}

/// The terminal text for an oversized input, with its size in whole
/// megabytes.
pub open spec fn oversize_text(b: int) -> Seq<char> {
    "JSON too large ("@ + spec_udec((b / 1048576) as nat) + "MB), please split"@
}

/// The successful terminal text: the pretty or the compact serialization.
pub open spec fn result_text(s: Seq<char>, pretty: bool) -> Seq<char> {
    if pretty {
        json_pretty(s)
    } else {
        json_min(s)
    }
}

/// Builds the oversized-input message for a given byte size.
pub fn size_limit_error_msg(size: usize) -> (r: String)
    ensures
        r@ == oversize_text(size as int),
{
    let mb: usize = size / 1048576;
    let mut t = String::from_str("JSON too large (");
    let d = u64_to_dec(mb as u64);
    t.append(d.as_str());
    t.append("MB), please split");
    t
}

fn please_enter_message() -> (r: String)
    ensures
        r@ == please_enter_text(),
{
    String::from_str("please enter JSON content")
}

fn invalid_json_message() -> (r: String)
    ensures
        r@ == invalid_json_text(),
{
    String::from_str("invalid JSON")
}

fn invalid_detail_message(m: &String, ghost_src: Ghost<Seq<char>>) -> (r: String)
    requires
        m@ == json_err(ghost_src@),
    ensures
        r@ == invalid_json_detail_text(ghost_src@),
{
    let mut t = String::from_str("invalid JSON: ");
    t.append(m.as_str());
    t
}

fn fail_message(pretty: bool) -> (r: String)
    ensures
        r@ == fail_text(pretty),
{
    if pretty {
        String::from_str("format failed")
    } else {
        String::from_str("minify failed")
    }
}

// ---------------------------------------------------------------------
// The structural pre-check.
// ---------------------------------------------------------------------

/// The constant-time structural sniff: after trimming whitespace the
/// text must start and end with a matching brace or bracket pair.
pub open spec fn spec_quick_check(s: Seq<char>) -> bool {
    let a = spec_skip_ws(s, 0);
    let b = spec_trim_end(s, s.len() as int);
    a < b && ((s[a] == '{' && s[b - 1] == '}') || (s[a] == '[' && s[b - 1] == ']'))
}

/// Runs the structural pre-check: trims whitespace and requires a
/// matching `{...}` or `[...]` envelope. Rejects obvious garbage before
/// any parse is paid for.
pub fn is_valid_json_quick_check(s: &str) -> (r: bool)
    ensures
        r == spec_quick_check(s@),
{
    let a = first_mark(s);
    let b = end_mark(s);
    if a >= b {
        return false;
    }
    let first = s.get_char(a);
    let last = s.get_char(b - 1);
    (first == '{' && last == '}') || (first == '[' && last == ']')
}

// ---------------------------------------------------------------------
// Synchronous processing.
// ---------------------------------------------------------------------

/// What the synchronous result text is, for either operation: the
/// oversized message, the parser's complaint, or the serialization.
pub open spec fn sync_result_post(s: &str, pretty: bool, t: Seq<char>) -> bool {
    let b = byte_len(s);
    if b > MAX_INPUT_SIZE as int {
        t == oversize_text(b)
    } else if !json_ok(s@) {
        t == invalid_json_detail_text(s@)
    } else {
        t == result_text(s@, pretty) && json_ok(t) && json_pretty(t) == json_pretty(s@)
    }
}

/// Pretty-prints a JSON text synchronously. For a parseable input the
/// result is the two-space-indented serialization, itself valid JSON
/// with the same compact and pretty forms as the input — which is what
/// makes pretty/minify round trips value-preserving.
pub fn format_json(s: &str) -> (r: String)
    ensures
        sync_result_post(s, true, r@),
        byte_len(s) <= MAX_INPUT_SIZE as int && json_ok(s@) ==> r@ == json_pretty(s@)
            && json_min(r@) == json_min(s@),
{
    if s.len() > MAX_INPUT_SIZE {
        return size_limit_error_msg(s.len());
    }
    match render_pretty(s) {
        Ok(t) => t,
        Err(JsonFailure::Parse(m)) => invalid_detail_message(&m, Ghost(s@)),
        Err(JsonFailure::Render) => fail_message(true),
    }
}

/// Minifies a JSON text synchronously. For a parseable input the result
/// is the compact serialization, itself valid JSON whose compact form is
/// itself and whose pretty form is the input's pretty form.
pub fn minify_json(s: &str) -> (r: String)
    ensures
        sync_result_post(s, false, r@),
        byte_len(s) <= MAX_INPUT_SIZE as int && json_ok(s@) ==> r@ == json_min(s@)
            && json_min(r@) == r@,
{
    if s.len() > MAX_INPUT_SIZE {
        return size_limit_error_msg(s.len());
    }
    match render_min(s) {
        Ok(t) => t,
        Err(JsonFailure::Parse(m)) => invalid_detail_message(&m, Ghost(s@)),
        Err(JsonFailure::Render) => fail_message(false),
    }
}

/// The worker's result for a job submitted without progress reporting:
/// the pre-check runs first and rejects with the bare "invalid JSON"
/// text, as does a failed parse.
pub fn process_json_plain(s: &str, pretty: bool) -> (r: String)
    ensures
        !spec_quick_check(s@) ==> r@ == invalid_json_text(),
        spec_quick_check(s@) && !json_ok(s@) ==> r@ == invalid_json_text(),
        spec_quick_check(s@) && json_ok(s@) ==> r@ == result_text(s@, pretty),
{
    if !is_valid_json_quick_check(s) {
        return invalid_json_message();
    }
    let outcome = if pretty {
        render_pretty(s)
    } else {
        render_min(s)
    };
    match outcome {
        Ok(t) => t,
        Err(JsonFailure::Parse(_)) => invalid_json_message(),
        Err(JsonFailure::Render) => fail_message(pretty),
    }
}

// ---------------------------------------------------------------------
// The worker's progress ladders.
// ---------------------------------------------------------------------

/// The events match the ladder: one `Progress` per ladder entry, in
/// order, then the single terminal `Result` carrying the given text.
pub open spec fn matches_ladder(ev: Seq<ProcessUpdate>, ps: Seq<int>, text: Seq<char>) -> bool {
    &&& ev.len() == ps.len() + 1
    &&& forall|i: int|
        0 <= i < ps.len() ==> (#[trigger] ev[i]) is Progress && ev[i].spec_progress() == ps[i]
    &&& ev.last() is Result
    &&& ev.last().spec_text() == text
}

/// The medium schedule on success.
pub open spec fn medium_ladder() -> Seq<int> {
    seq![5, 30, 60, 90, 100]
}

/// The shape-dependent middle of the large schedule: a 60–85 ramp for an
/// array of more than 1,000 elements, a single 70 mark for an object,
/// nothing for a smaller array.
pub open spec fn shape_steps(shape: Option<int>) -> Seq<int> {
    match shape {
        Option::None => seq![70],
        Option::Some(n) => if n > 1000 {
            seq![60, 65, 70, 75, 80, 85]
        } else {
            Seq::empty()
        },
    }
}

/// The large schedule on success.
pub open spec fn large_ladder(shape: Option<int>) -> Seq<int> {
    seq![5, 10, 15, 20, 50] + shape_steps(shape) + seq![90, 100]
}

/// The worker's whole observable behaviour, by size class and outcome:
/// which ladder is emitted and which terminal text ends the stream.
pub open spec fn worker_post(s: &str, pretty: bool, ev: Seq<ProcessUpdate>) -> bool {
    let b = byte_len(s);
    if b > MAX_INPUT_SIZE as int {
        matches_ladder(ev, Seq::empty(), oversize_text(b))
    } else if !spec_quick_check(s@) {
        matches_ladder(ev, Seq::empty(), invalid_json_text())
    } else if b <= LARGE_JSON_THRESHOLD as int {
        if !json_ok(s@) {
            matches_ladder(ev, seq![5, 30], invalid_json_detail_text(s@))
        } else {
            matches_ladder(ev, medium_ladder(), result_text(s@, pretty))
        }
    } else {
        if !json_ok(s@) {
            matches_ladder(ev, seq![5, 10], invalid_json_detail_text(s@))
        } else {
            matches_ladder(ev, large_ladder(json_top_array(s@)), result_text(s@, pretty))
        }
    }
}

/// The shape-dependent middle of the large schedule, as events.
pub open spec fn shape_events(shape: Option<int>) -> Seq<ProcessUpdate> {
    match shape {
        Option::None => seq![ProcessUpdate::Progress(70)],
        Option::Some(n) => if n > 1000 {
            seq![
                ProcessUpdate::Progress(60),
                ProcessUpdate::Progress(65),
                ProcessUpdate::Progress(70),
                ProcessUpdate::Progress(75),
                ProcessUpdate::Progress(80),
                ProcessUpdate::Progress(85),
            ]
        } else {
            Seq::empty()
        },
    }
}

/// Emits the shape-dependent part of the large schedule: inspects the
/// parsed document's top-level shape and pushes its progress marks.
fn push_large_shape(ev: &mut Vec<ProcessUpdate>, s: &str)
    requires
        json_ok(s@),
    ensures
        final(ev)@ == old(ev)@ + shape_events(json_top_array(s@)),
{
    let shape = top_array_len(s);
    match shape {
        None => {
            ev.push(ProcessUpdate::Progress(70));
            proof {
                assert(ev@ =~= old(ev)@ + shape_events(json_top_array(s@)));
            }
        },
        Some(n) => {
            if n > 1000 {
                ev.push(ProcessUpdate::Progress(60));
                ev.push(ProcessUpdate::Progress(65));
                ev.push(ProcessUpdate::Progress(70));
                ev.push(ProcessUpdate::Progress(75));
                ev.push(ProcessUpdate::Progress(80));
                ev.push(ProcessUpdate::Progress(85));
            }
            proof {
                assert(ev@ =~= old(ev)@ + shape_events(json_top_array(s@)));
            }
        },
    }
}

/// Runs a JSON job the worker way: size cap, structural pre-check, then
/// the medium or large schedule ending in the single terminal result.
/// The returned vector is the job's whole event stream, in order; the
/// caller replays it to its consumer, pausing between events so the
/// consumer can drain.
pub fn process_json_with_progress(s: &str, pretty: bool) -> (ev: Vec<ProcessUpdate>)
    ensures
        stream_wf(ev@),
        worker_post(s, pretty, ev@),
{
    let mut ev: Vec<ProcessUpdate> = Vec::new();
    if s.len() > MAX_INPUT_SIZE {
        ev.push(ProcessUpdate::Result(size_limit_error_msg(s.len())));
        return ev;
    }
    if !is_valid_json_quick_check(s) {
        ev.push(ProcessUpdate::Result(invalid_json_message()));
        return ev;
    }
    if s.len() <= LARGE_JSON_THRESHOLD {
        ev.push(ProcessUpdate::Progress(5));
        ev.push(ProcessUpdate::Progress(30));
        let outcome = if pretty {
            render_pretty(s)
        } else {
            render_min(s)
        };
        match outcome {
            Err(JsonFailure::Parse(m)) => {
                ev.push(ProcessUpdate::Result(invalid_detail_message(&m, Ghost(s@))));
            },
            Ok(t) => {
                ev.push(ProcessUpdate::Progress(60));
                ev.push(ProcessUpdate::Progress(90));
                ev.push(ProcessUpdate::Progress(100));
                ev.push(ProcessUpdate::Result(t));
            },
            Err(JsonFailure::Render) => {
                // Unreachable: serializing a parsed document cannot fail.
                ev.push(ProcessUpdate::Result(fail_message(pretty)));
            },
        }
        return ev;
    }
    ev.push(ProcessUpdate::Progress(5));
    ev.push(ProcessUpdate::Progress(10));
    let outcome = if pretty {
        render_pretty(s)
    } else {
        render_min(s)
    };
    match outcome {
        Err(JsonFailure::Parse(m)) => {
            ev.push(ProcessUpdate::Result(invalid_detail_message(&m, Ghost(s@))));
        },
        Ok(t) => {
            ev.push(ProcessUpdate::Progress(15));
            ev.push(ProcessUpdate::Progress(20));
            ev.push(ProcessUpdate::Progress(50));
            push_large_shape(&mut ev, s);
            ev.push(ProcessUpdate::Progress(90));
            ev.push(ProcessUpdate::Progress(100));
            ev.push(ProcessUpdate::Result(t));
            proof {
                lemma_large_ladder_shape(ev@, json_top_array(s@));
            }
        },
        Err(JsonFailure::Render) => {
            // Unreachable: serializing a parsed document cannot fail.
            ev.push(ProcessUpdate::Result(fail_message(pretty)));
        },
    }
    ev
}

/// The assembled large-schedule stream matches its ladder and is a
/// well-formed job stream.
proof fn lemma_large_ladder_shape(ev: Seq<ProcessUpdate>, shape: Option<int>)
    requires
        ev.len() == shape_events(shape).len() + 8,
        ev =~= seq![
            ProcessUpdate::Progress(5),
            ProcessUpdate::Progress(10),
            ProcessUpdate::Progress(15),
            ProcessUpdate::Progress(20),
            ProcessUpdate::Progress(50),
        ] + shape_events(shape) + seq![
            ProcessUpdate::Progress(90),
            ProcessUpdate::Progress(100),
            ev.last(),
        ],
        ev.last() is Result,
    ensures
        matches_ladder(ev, large_ladder(shape), ev.last().spec_text()),
        stream_wf(ev),
{
    let steps = shape_steps(shape);
    let evs = shape_events(shape);
    assert(evs.len() == steps.len());
    assert(forall|i: int|
        0 <= i < steps.len() ==> (#[trigger] evs[i]) is Progress && evs[i].spec_progress()
            == steps[i] && 60 <= steps[i] <= 85);
    let ps = large_ladder(shape);
    assert(ps.len() == steps.len() + 7);
    assert(forall|i: int|
        0 <= i < ps.len() ==> (#[trigger] ev[i]) is Progress && ev[i].spec_progress() == ps[i]);
    assert(forall|i: int| 0 <= i < ps.len() ==> 0 <= (#[trigger] ps[i]) <= 100);
    assert(forall|i: int, j: int| 0 <= i <= j < ps.len() ==> ps[i] <= ps[j]);
    assert(matches_ladder(ev, ps, ev.last().spec_text()));
}

/// Runs a pretty-print job with the worker's progress schedule.
pub fn format_json_with_progress(json_str: &str) -> (ev: Vec<ProcessUpdate>)
    ensures
        stream_wf(ev@),
        worker_post(json_str, true, ev@),
{
    process_json_with_progress(json_str, true)
}

/// Runs a minify job with the worker's progress schedule.
pub fn minify_json_with_progress(json_str: &str) -> (ev: Vec<ProcessUpdate>)
    ensures
        stream_wf(ev@),
        worker_post(json_str, false, ev@),
{
    process_json_with_progress(json_str, false)
}

// ---------------------------------------------------------------------
// Submission.
// ---------------------------------------------------------------------

/// Submits a buffer with an operation and returns the job's whole event
/// stream: empty and small inputs answer synchronously with a single
/// terminal event and no progress at all; anything else is the worker's
/// schedule.
pub fn submit(s: &str, op: JsonOp) -> (ev: Vec<ProcessUpdate>)
    ensures
        stream_wf(ev@),
        byte_len(s) == 0 ==> ev@.len() == 1 && ev@[0] is Result && ev@[0].spec_text()
            == please_enter_text(),
        0 < byte_len(s) < SMALL_SYNC_LIMIT as int ==> ev@.len() == 1 && ev@[0] is Result
            && sync_result_post(s, op is Pretty, ev@[0].spec_text()),
        byte_len(s) >= SMALL_SYNC_LIMIT as int ==> worker_post(s, op is Pretty, ev@),
{
    let b = s.len();
    if b == 0 {
        let mut ev: Vec<ProcessUpdate> = Vec::new();
        ev.push(ProcessUpdate::Result(please_enter_message()));
        return ev;
    }
    if b < SMALL_SYNC_LIMIT {
        let t = match op {
            JsonOp::Pretty => format_json(s),
            JsonOp::Minify => minify_json(s),
        };
        let mut ev: Vec<ProcessUpdate> = Vec::new();
        ev.push(ProcessUpdate::Result(t));
        return ev;
    }
    match op {
        JsonOp::Pretty => process_json_with_progress(s, true),
        JsonOp::Minify => process_json_with_progress(s, false),
    }
}

// ---------------------------------------------------------------------
// The façade the GUI talks to.
// ---------------------------------------------------------------------

/// The JSON side of the tool, as one handle.
#[derive(Clone, Copy)]
pub struct JsonLogic;

impl JsonLogic {
    pub fn new() -> (r: JsonLogic)
    {
        JsonLogic
    }

    /// Pretty-prints synchronously; see `format_json`.
    pub fn format(&self, json_str: &str) -> (r: String)
        ensures
            sync_result_post(json_str, true, r@),
    {
        format_json(json_str)
    }

    /// Minifies synchronously; see `minify_json`.
    pub fn minify(&self, json_str: &str) -> (r: String)
        ensures
            sync_result_post(json_str, false, r@),
    {
        minify_json(json_str)
    }

    /// The background variant without progress: pre-check, then parse
    /// and pretty-print, with the bare rejection text on any failure.
    /// The caller moves this onto its own thread.
    pub fn format_async(&self, json_str: &str) -> (r: String)
        ensures
            !spec_quick_check(json_str@) || !json_ok(json_str@) ==> r@ == invalid_json_text(),
            spec_quick_check(json_str@) && json_ok(json_str@) ==> r@ == json_pretty(json_str@),
    {
        process_json_plain(json_str, true)
    }

    /// The background variant without progress, minifying.
    pub fn minify_async(&self, json_str: &str) -> (r: String)
        ensures
            !spec_quick_check(json_str@) || !json_ok(json_str@) ==> r@ == invalid_json_text(),
            spec_quick_check(json_str@) && json_ok(json_str@) ==> r@ == json_min(json_str@),
    {
        process_json_plain(json_str, false)
    }

    /// The worker schedule, pretty-printing; see
    /// `process_json_with_progress`.
    pub fn format_with_progress(&self, json_str: &str) -> (ev: Vec<ProcessUpdate>)
        ensures
            stream_wf(ev@),
            worker_post(json_str, true, ev@),
    {
        process_json_with_progress(json_str, true)
    }

    /// The worker schedule, minifying.
    pub fn minify_with_progress(&self, json_str: &str) -> (ev: Vec<ProcessUpdate>)
        ensures
            stream_wf(ev@),
            worker_post(json_str, false, ev@),
    {
        process_json_with_progress(json_str, false)
    }
}

} // verus!
