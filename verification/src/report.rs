//! The failure report: a tree of at most two diagnostic nodes. The base node
//! carries the message, the optional location header and the trace text; when
//! a source span resolved, a span node wraps the base node as its related
//! diagnostic, so the rendering shows the source context first and the raw
//! message and trace after it.
use vstd::prelude::*;
use vstd::string::StringExecFns;

use crate::location::location_header;
use crate::location::spec_location_header;
use crate::location::SourceLocation;
use crate::payload::extract_message;
use crate::payload::spec_message;
use crate::payload::Payload;
use crate::resolve::SourceSpan;
use crate::text::dec_u64;
use crate::text::spec_dec;

verus! {

/// One abnormal termination: the payload it carried and, when the runtime
/// reported one, the source location of the abort point.
pub struct AbortEvent {
    pub payload: Payload,
    pub location: Option<SourceLocation>,
}

/// A failure report: the bare diagnostic, or a source span wrapping it.
pub enum Report {
    Bare { message: String, location: Option<SourceLocation>, trace: String },
    WithSpan { span: SourceSpan, inner: Box<Report> },
}

/// The text of the base diagnostic: the location header and a newline when a
/// location is known, then the message with the trace text appended directly
/// after it — no separator of its own, the trace text brings its leading
/// newline or is empty.
pub open spec fn spec_base_text(
    message: Seq<char>,
    location: Option<SourceLocation>,
    trace: Seq<char>,
) -> Seq<char> {
    (match location {
        Some(l) => spec_location_header(l) + "\n"@,
        None => Seq::<char>::empty(),
    }) + message + trace
}

/// The text of a span node: `{path}:{line}`, the excerpt, and a newline
/// before the related diagnostic that follows.
pub open spec fn spec_render_span(sp: SourceSpan) -> Seq<char> {
    sp.path@ + ":"@ + spec_dec(sp.line as nat) + "\n"@ + sp.excerpt@ + "\n"@
}

/// The text of a whole report.
pub open spec fn spec_render(r: Report) -> Seq<char>
    decreases r,
{
    match r {
        Report::Bare { message, location, trace } => spec_base_text(message@, location, trace@),
        Report::WithSpan { span, inner } => spec_render_span(span) + spec_render(*inner),
    }
}

/// The text of the report composed from an abort's parts: the base diagnostic
/// alone, or, when a span resolved, the span's text followed by it.
pub open spec fn spec_report_text(
    message: Seq<char>,
    location: Option<SourceLocation>,
    trace: Seq<char>,
    span: Option<SourceSpan>,
) -> Seq<char> {
    match span {
        Some(sp) => spec_render_span(sp) + spec_base_text(message, location, trace),
        None => spec_base_text(message, location, trace),
    }
}

/// Composes the report for one abort: the base diagnostic from message,
/// location and trace text; when a span resolved, that span becomes the top
/// node and the base diagnostic is attached beneath it unchanged. Total: no
/// input is rejected.
pub fn compose_report(
    message: String,
    location: Option<SourceLocation>,
    trace: String,
    span: Option<SourceSpan>,
) -> (r: Report)
    ensures
        spec_render(r) == spec_report_text(message@, location, trace@, span),
        match span {
            None => r == (Report::Bare { message, location, trace }),
            Some(sp) => r matches Report::WithSpan { span: s2, inner } && s2 == sp && *inner
                == (Report::Bare { message, location, trace }),
        },
{
    let ghost m = message@;
    let ghost tr = trace@;
    let ghost sp0 = span;
    let base = Report::Bare { message, location, trace };
    let ghost b = base;
    let r = match span {
        None => base,
        Some(sp) => Report::WithSpan { span: sp, inner: Box::new(base) },
    };
    proof {
        assert(spec_render(b) == spec_base_text(m, location, tr));
        match sp0 {
            None => {
                assert(r == b);
            },
            Some(sp) => {
                assert(r matches Report::WithSpan { span: s2, inner } && s2 == sp && *inner == b);
                assert(spec_render(r) == spec_render_span(sp) + spec_render(b));
            },
        }
    }
    r
}

/// Renders a span node's text.
pub fn render_span(sp: &SourceSpan) -> (r: String)
    ensures
        r@ == spec_render_span(*sp),
{
    let mut r = sp.path.clone();
    r.append(":");
    let line_text = dec_u64(sp.line as u64);
    r.append(line_text.as_str());
    r.append("\n");
    r.append(sp.excerpt.as_str());
    r.append("\n");
    proof {
        assert(r@ =~= spec_render_span(*sp));
    }
    r
}

/// Renders a whole report to the text written to the error stream.
pub fn render_report(r: &Report) -> (out: String)
    ensures
        out@ == spec_render(*r),
    decreases *r,
{
    match r {
        Report::Bare { message, location, trace } => {
            let mut out = match location {
                Some(l) => {
                    let mut h = location_header(l);
                    h.append("\n");
                    h
                },
                None => String::new(),
            };
            out.append(message.as_str());
            out.append(trace.as_str());
            proof {
                assert(out@ =~= spec_render(*r));
            }
            out
        },
        Report::WithSpan { span, inner } => {
            let mut out = render_span(span);
            let inner_text = render_report(&**inner);
            out.append(inner_text.as_str());
            proof {
                assert(out@ =~= spec_render(*r));
            }
            out
        },
    }
}

/// Builds and renders the whole report for one abort event: the message drawn
/// from the payload, the location header when a location is known, the trace
/// text, and, when a span resolved, the span wrapped around the base
/// diagnostic. Total: every event yields a report text.
pub fn abort_report_text(event: AbortEvent, trace: String, span: Option<SourceSpan>) -> (r: String)
    ensures
        r@ == spec_report_text(spec_message(event.payload), event.location, trace@, span),
{
    let AbortEvent { payload, location } = event;
    let message = extract_message(&payload);
    let report = compose_report(message, location, trace, span);
    render_report(&report)
}

/// Law: without a source span the report is the base diagnostic alone — its
/// rendering is exactly the header, the message and the trace text, with no
/// source excerpt section.
pub proof fn lemma_no_span_renders_base(
    message: Seq<char>,
    location: Option<SourceLocation>,
    trace: Seq<char>,
)
    ensures
        spec_report_text(message, location, trace, None::<SourceSpan>) == spec_base_text(
            message,
            location,
            trace,
        ),
{
}

/// Law: with a source span the rendering shows the source context first and
/// the whole base diagnostic, unchanged, directly after it.
pub proof fn lemma_span_renders_first(
    message: Seq<char>,
    location: Option<SourceLocation>,
    trace: Seq<char>,
    sp: SourceSpan,
)
    ensures
        spec_report_text(message, location, trace, Some(sp)) == spec_render_span(sp)
            + spec_base_text(message, location, trace),
{
}

} // verus!
