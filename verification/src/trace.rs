//! The raw stack trace model and its text rendering.
//!
//! A captured trace is a sequence of frames; each frame is an instruction
//! address plus zero or more symbols (several symbols on one frame mean
//! inlined calls). The rendering is the wire format downstream log scraping
//! relies on: per frame a line holding a width-4 index, `: `, and the address
//! as `0x` plus 16 lowercase hex digits (18 characters, two per address byte
//! plus the prefix); then ` - {name}` per symbol, with `<unresolved>` or
//! `<unknown>` placeholders, symbols after the first on their own line
//! indented 24 columns (the 18 address characters plus 6), and an
//! `at {file}:{line}` continuation under each symbol that has debug info.
use vstd::prelude::*;
use vstd::string::StringExecFns;
use vstd::string::StrSliceExecFns;

use crate::text::dec_u64;
use crate::text::hex_u64;
use crate::text::pad_left;
use crate::text::pad_left_string;
use crate::text::spaces;
use crate::text::spaces_string;
use crate::text::spec_dec;
use crate::text::spec_hex_padded;

verus! {

/// One resolved symbol of a frame: a demangled name and, when the debug
/// information carries them, the source file and line it came from.
pub struct Symbol {
    pub name: Option<String>,
    pub file: Option<String>,
    pub line: Option<u32>,
}

/// One stack frame: its instruction address and the symbols resolved for it,
/// innermost inlined call first.
pub struct Frame {
    pub ip: u64,
    pub symbols: Vec<Symbol>,
}

/// The text for one symbol: ` - {name}` (or ` - <unknown>` without a name),
/// then, only when both file and line are known, a continuation line
/// `at {file}:{line}` indented 24 columns.
pub open spec fn spec_symbol_text(s: Symbol) -> Seq<char> {
    (match s.name {
        Some(n) => " - "@ + n@,
        None => " - <unknown>"@,
    }) + (match (s.file, s.line) {
        (Some(f), Some(l)) => "\n"@ + spaces(24) + "at "@ + f@ + ":"@ + spec_dec(l as nat),
        _ => Seq::<char>::empty(),
    })
}

/// The text for a frame's symbols from position `i` on; each symbol after the
/// first starts on a new line indented 24 columns instead of repeating the
/// index/address prefix.
pub open spec fn spec_symbols_from(syms: Seq<Symbol>, i: nat) -> Seq<char>
    decreases syms.len() - i,
{
    if i >= syms.len() {
        Seq::empty()
    } else {
        (if i == 0 {
            Seq::<char>::empty()
        } else {
            "\n"@ + spaces(24)
        }) + spec_symbol_text(syms[i as int]) + spec_symbols_from(syms, i + 1)
    }
}

/// The text for frame number `idx`: a newline, the index right-aligned to
/// width 4, `: `, the address as `0x` and 16 hex digits, then the symbol
/// texts, or ` - <unresolved>` when no symbol resolved.
pub open spec fn spec_frame_text(idx: nat, f: Frame) -> Seq<char> {
    "\n"@ + pad_left(spec_dec(idx), 4) + ": "@ + "0x"@ + spec_hex_padded(f.ip as nat, 16) + (
    if f.symbols@.len() == 0 {
        " - <unresolved>"@
    } else {
        spec_symbols_from(f.symbols@, 0)
    })
}

/// The trace text for the frames from position `i` on, frame `i` numbered `i`.
pub open spec fn spec_trace_from(frames: Seq<Frame>, i: nat) -> Seq<char>
    decreases frames.len() - i,
{
    if i >= frames.len() {
        Seq::empty()
    } else {
        spec_frame_text(i, frames[i as int]) + spec_trace_from(frames, i + 1)
    }
}

/// The full trace text: every frame in order, starting with frame 0. Empty
/// for an empty trace.
pub open spec fn spec_trace_text(frames: Seq<Frame>) -> Seq<char> {
    spec_trace_from(frames, 0)
}

/// What the report appends after the message: the trace text when the toggle
/// is on, and the empty string when it is off, whatever the trace holds.
pub open spec fn spec_formatted_trace(enabled: bool, frames: Seq<Frame>) -> Seq<char> {
    if enabled {
        spec_trace_text(frames)
    } else {
        Seq::empty()
    }
}

/// Law: with the capture toggle off the formatted trace is the empty string,
/// whatever the captured trace holds.
pub proof fn lemma_toggle_off_means_empty(frames: Seq<Frame>)
    ensures
        spec_formatted_trace(false, frames) == Seq::<char>::empty(),
{
}

/// Renders one symbol's text, placeholders included.
pub fn render_symbol(s: &Symbol) -> (r: String)
    ensures
        r@ == spec_symbol_text(*s),
{
    let mut r = match &s.name {
        Some(n) => {
            let mut t = " - ".to_owned();
            t.append(n.as_str());
            t
        },
        None => " - <unknown>".to_owned(),
    };
    match (&s.file, &s.line) {
        (Some(f), Some(l)) => {
            r.append("\n");
            let pad = spaces_string(24);
            r.append(pad.as_str());
            r.append("at ");
            r.append(f.as_str());
            r.append(":");
            let line_text = dec_u64(*l as u64);
            r.append(line_text.as_str());
        },
        _ => {},
    }
    proof {
        assert(r@ =~= spec_symbol_text(*s));
    }
    r
}

/// Renders the text for frame number `idx`, degrading to the `<unresolved>`
/// placeholder when the frame has no symbols.
pub fn render_frame(idx: usize, f: &Frame) -> (r: String)
    ensures
        r@ == spec_frame_text(idx as nat, *f),
{
    let mut r = "\n".to_owned();
    let idx_text = pad_left_string(dec_u64(idx as u64), 4);
    r.append(idx_text.as_str());
    r.append(": ");
    r.append("0x");
    let addr = hex_u64(f.ip, 16);
    r.append(addr.as_str());
    if f.symbols.len() == 0 {
        r.append(" - <unresolved>");
        proof {
            assert(r@ =~= spec_frame_text(idx as nat, *f));
        }
        r
    } else {
        proof {
            assert(r@ + spec_symbols_from(f.symbols@, 0) =~= spec_frame_text(idx as nat, *f));
        }
        let mut j: usize = 0;
        while j < f.symbols.len()
            invariant
                j <= f.symbols@.len(),
                f.symbols@.len() > 0,
                r@ + spec_symbols_from(f.symbols@, j as nat) == spec_frame_text(
                    idx as nat,
                    *f,
                ),
            decreases f.symbols@.len() - j,
        {
            let ghost r0 = r@;
            let ghost j0 = j as nat;
            if j != 0 {
                r.append("\n");
                let pad = spaces_string(24);
                r.append(pad.as_str());
            }
            let sym_text = render_symbol(&f.symbols[j]);
            r.append(sym_text.as_str());
            j = j + 1;
            proof {
                assert(spec_symbols_from(f.symbols@, j0) == (if j0 == 0 {
                    Seq::<char>::empty()
                } else {
                    "\n"@ + spaces(24)
                }) + spec_symbol_text(f.symbols@[j0 as int]) + spec_symbols_from(
                    f.symbols@,
                    j0 + 1,
                ));
                assert(r@ + spec_symbols_from(f.symbols@, j as nat) =~= r0 + spec_symbols_from(
                    f.symbols@,
                    j0,
                ));
            }
        }
        proof {
            assert(r@ =~= r@ + spec_symbols_from(f.symbols@, j as nat));
        }
        r
    }
}

/// Renders the whole trace: frame texts in order, each numbered by its
/// position. An empty trace renders as the empty string.
pub fn format_trace(frames: &Vec<Frame>) -> (r: String)
    ensures
        r@ == spec_trace_text(frames@),
{
    let mut r = String::new();
    proof {
        assert(r@ + spec_trace_from(frames@, 0) =~= spec_trace_text(frames@));
    }
    let mut i: usize = 0;
    while i < frames.len()
        invariant
            i <= frames@.len(),
            r@ + spec_trace_from(frames@, i as nat) == spec_trace_text(frames@),
        decreases frames@.len() - i,
    {
        let ghost r0 = r@;
        let ghost i0 = i as nat;
        let frame_text = render_frame(i, &frames[i]);
        r.append(frame_text.as_str());
        i = i + 1;
        proof {
            assert(spec_trace_from(frames@, i0) == spec_frame_text(i0, frames@[i0 as int])
                + spec_trace_from(frames@, i0 + 1));
            assert(r@ + spec_trace_from(frames@, i as nat) =~= r0 + spec_trace_from(
                frames@,
                i0,
            ));
        }
    }
    proof {
        assert(r@ =~= r@ + spec_trace_from(frames@, i as nat));
    }
    r
}

/// The trace text the report carries: rendered when the toggle is on, the
/// empty string when it is off, whatever the trace holds.
pub fn formatted_trace(enabled: bool, frames: &Vec<Frame>) -> (r: String)
    ensures
        r@ == spec_formatted_trace(enabled, frames@),
{
    if enabled {
        format_trace(frames)
    } else {
        String::new()
    }
}

/// Whether the two-state capture toggle is on. The toggle's raw value is the
/// text of the controlling switch, absent when unset; it is on exactly when
/// set, non-empty, and not `0`. Default off.
pub open spec fn spec_backtrace_enabled(v: Option<String>) -> bool {
    match v {
        Some(s) => s@.len() > 0 && s@ != "0"@,
        None => false,
    }
}

/// Decides the capture toggle from the switch's raw value.
pub fn backtrace_enabled(v: &Option<String>) -> (r: bool)
    ensures
        r == spec_backtrace_enabled(*v),
{
    proof {
        reveal_strlit("0");
    }
    match v {
        Some(s) => {
            let len = s.as_str().unicode_len();
            if len == 0 {
                false
            } else if len == 1 && s.as_str().get_char(0) == '0' {
                proof {
                    assert(s@ =~= "0"@);
                }
                false
            } else {
                proof {
                    if s@ == "0"@ {
                        assert(s@.len() == 1 && s@[0] == '0');
                    }
                }
                true
            }
        },
        None => false,
    }
}

#[verifier::external_type_specification]
#[verifier::external_body]
pub struct ExBacktrace(backtrace::Backtrace);

/// Relies on `backtrace::Backtrace::new`: captures and symbolicates the stack
/// of the calling thread at the call site. What it holds depends on the
/// machine and the moment, so nothing is promised of the value.
#[verifier::external_body]
fn capture_backtrace() -> backtrace::Backtrace {
    backtrace::Backtrace::new()
}

/// Relies on `backtrace_ext::short_frames_strict`: yields the frames between
/// the short-backtrace markers (the whole stack when none are found), with
/// the range of each frame's symbols that belongs inside the markers, and on
/// the `backtrace` crate's frame and symbol accessors to read the address,
/// name, file and line converted here. Which frames come back depends on the
/// machine, so nothing is promised of the value.
#[verifier::external_body]
fn filtered_frames(bt: &backtrace::Backtrace) -> (r: Vec<Frame>) {
    backtrace_ext::short_frames_strict(bt).map(|(frame, sub)| Frame {
        ip: frame.ip() as u64,
        symbols: frame.symbols()[sub].iter().map(|s| Symbol {
            name: s.name().map(|n| n.to_string()),
            file: s.filename().map(|p| p.display().to_string()),
            line: s.lineno(),
        }).collect(),
    }).collect()
}

/// Captures the current thread's stack and returns the frames the report may
/// show: the machinery between the fault site and the handler is already
/// trimmed away. The frames are whatever the platform's unwinder and debug
/// information yield at this moment.
pub fn captured_frames() -> Vec<Frame> {
    let bt = capture_backtrace();
    filtered_frames(&bt)
}

/// The trace text of the moment: empty when the toggle is off — the stack is
/// not even captured then — and otherwise the exact rendering of whatever
/// frames the capture yielded.
pub fn current_backtrace_text(toggle: &Option<String>) -> (r: String)
    ensures
        !spec_backtrace_enabled(*toggle) ==> r@ == Seq::<char>::empty(),
        spec_backtrace_enabled(*toggle) ==> exists|frames: Seq<Frame>|
            r@ == spec_trace_text(frames),
{
    if backtrace_enabled(toggle) {
        let frames = captured_frames();
        let r = format_trace(&frames);
        proof {
            assert(r@ == spec_trace_text(frames@));
        }
        r
    } else {
        String::new()
    }
}

} // verus!
