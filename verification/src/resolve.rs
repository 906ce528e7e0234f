//! The source span resolver: scanning a trace, innermost frame first, for the
//! first symbol whose debug file path lies inside the project root, and
//! cutting an excerpt around the reported line out of that file's text once a
//! caller has read it. File reading itself is left to the caller; everything
//! here is a total function of the values handed in, so a read that fails is
//! simply not handed in and the scan can go on at the next frame.
use vstd::prelude::*;
use vstd::string::StringExecFns;
use vstd::string::StrSliceExecFns;

use crate::trace::Frame;
use crate::trace::Symbol;

verus! {

/// Whether `s` starts with the characters of `p`.
pub fn has_prefix(s: &str, p: &str) -> (r: bool)
    ensures
        r == p@.is_prefix_of(s@),
{
    let sl = s.unicode_len();
    let pl = p.unicode_len();
    if pl > sl {
        return false;
    }
    let mut i: usize = 0;
    while i < pl
        invariant
            i <= pl,
            pl <= sl,
            pl == p@.len(),
            sl == s@.len(),
            forall|k: int| 0 <= k < i ==> s@[k] == p@[k],
        decreases pl - i,
    {
        if s.get_char(i) != p.get_char(i) {
            proof {
                assert(s@.subrange(0, pl as int)[i as int] == s@[i as int]);
                assert(!p@.is_prefix_of(s@));
            }
            return false;
        }
        i = i + 1;
    }
    proof {
        assert(p@ =~= s@.subrange(0, pl as int));
    }
    true
}

/// Whether symbol `s` points into the project: it carries a file and a line,
/// and the file path starts with `root`.
pub open spec fn sym_hit(root: Seq<char>, s: Symbol) -> bool {
    match (s.file, s.line) {
        (Some(f), Some(l)) => root.is_prefix_of(f@),
        _ => false,
    }
}

/// Whether any symbol of frame `f` points into the project.
pub open spec fn frame_hit(root: Seq<char>, f: Frame) -> bool {
    exists|j: int| 0 <= j < f.symbols@.len() && sym_hit(root, f.symbols@[j])
}

/// Whether position `j` holds the first project symbol of `syms`.
pub open spec fn first_sym_hit_at(root: Seq<char>, syms: Seq<Symbol>, j: int) -> bool {
    &&& 0 <= j < syms.len()
    &&& sym_hit(root, syms[j])
    &&& forall|k: int| 0 <= k < j ==> !sym_hit(root, syms[k])
}

/// A qualifying place in the trace: the frame's position and the file and
/// line its first project symbol reports.
pub struct FrameHit {
    pub frame_idx: usize,
    pub file: String,
    pub line: u32,
}

/// Finds the first frame at or after position `from` with a symbol inside the
/// project root, and hands back that frame's position with its first project
/// symbol's file and line. `None` exactly when no frame from `from` on
/// qualifies.
pub fn next_project_frame(root: &str, frames: &Vec<Frame>, from: usize) -> (r: Option<FrameHit>)
    ensures
        match r {
            Some(h) => ({
                let syms = frames@[h.frame_idx as int].symbols@;
                from <= h.frame_idx < frames@.len() && (forall|i: int|
                    from <= i < h.frame_idx ==> !frame_hit(root@, frames@[i])) && (exists|j: int|
                    first_sym_hit_at(root@, syms, j) && syms[j].file == Some(h.file) && syms[j].line
                        == Some(h.line))
            }),
            None => forall|i: int| from <= i < frames@.len() ==> !frame_hit(root@, frames@[i]),
        },
{
    if from >= frames.len() {
        return None;
    }
    let mut i: usize = from;
    while i < frames.len()
        invariant
            from <= i <= frames@.len(),
            forall|k: int| from <= k < i ==> !frame_hit(root@, frames@[k]),
        decreases frames@.len() - i,
    {
        let fr = &frames[i];
        let mut j: usize = 0;
        while j < fr.symbols.len()
            invariant
                from <= i < frames@.len(),
                forall|k: int| from <= k < i ==> !frame_hit(root@, frames@[k]),
                *fr == frames@[i as int],
                j <= fr.symbols@.len(),
                forall|k: int| 0 <= k < j ==> !sym_hit(root@, fr.symbols@[k]),
            decreases fr.symbols@.len() - j,
        {
            let sym = &fr.symbols[j];
            match (&sym.file, &sym.line) {
                (Some(f), Some(l)) => {
                    if has_prefix(f.as_str(), root) {
                        let hit = FrameHit { frame_idx: i, file: f.clone(), line: *l };
                        proof {
                            assert(sym_hit(root@, fr.symbols@[j as int]));
                            assert(first_sym_hit_at(root@, frames@[i as int].symbols@, j as int));
                            assert(fr.symbols@[j as int].file == Some(hit.file));
                            assert(fr.symbols@[j as int].line == Some(hit.line));
                            assert(exists|k: int|
                                first_sym_hit_at(root@, frames@[i as int].symbols@, k) && frames@[
                                    i as int
                                ].symbols@[k].file == Some(hit.file) && frames@[
                                    i as int
                                ].symbols@[k].line == Some(hit.line)) by {
                                assert(first_sym_hit_at(
                                    root@,
                                    frames@[i as int].symbols@,
                                    j as int,
                                ) && frames@[i as int].symbols@[j as int].file == Some(hit.file)
                                    && frames@[i as int].symbols@[j as int].line == Some(hit.line));
                            }
                        }
                        return Some(hit);
                    }
                },
                _ => {},
            }
            proof {
                assert(!sym_hit(root@, fr.symbols@[j as int]));
            }
            j = j + 1;
        }
        proof {
            assert(!frame_hit(root@, frames@[i as int]));
        }
        i = i + 1;
    }
    None
}

/// How many newline characters `s` holds. Lines are the maximal runs between
/// newlines, so a text with `n` newlines has lines numbered `0` through `n`.
pub open spec fn nl_count(s: Seq<char>) -> nat
    decreases s.len(),
{
    if s.len() == 0 {
        0
    } else {
        nl_count(s.drop_last()) + (if s.last() == '\n' {
            1nat
        } else {
            0nat
        })
    }
}

proof fn lemma_nl_count_step(s: Seq<char>, i: int)
    requires
        0 <= i < s.len(),
    ensures
        nl_count(s.subrange(0, i + 1)) == nl_count(s.subrange(0, i)) + (if s[i] == '\n' {
            1nat
        } else {
            0nat
        }),
{
    assert(s.subrange(0, i + 1).drop_last() =~= s.subrange(0, i));
    assert(s.subrange(0, i + 1).last() == s[i]);
}

/// Whether position `a` is where line number `n` (counting from 0) of `s`
/// begins: right after the `n`-th newline.
pub open spec fn line_start_at(s: Seq<char>, n: nat, a: int) -> bool {
    &&& 0 <= a <= s.len()
    &&& nl_count(s.subrange(0, a)) == n
    &&& (a == 0 || s[a - 1] == '\n')
}

/// Whether position `b` is where line number `n` (counting from 0) of `s`
/// ends: on its newline, or at the end of the text.
pub open spec fn line_end_at(s: Seq<char>, n: nat, b: int) -> bool {
    &&& 0 <= b <= s.len()
    &&& nl_count(s.subrange(0, b)) == n
    &&& (b == s.len() || s[b] == '\n')
}

/// Counts the newlines of `s`.
pub fn count_newlines(s: &str) -> (r: usize)
    ensures
        r as nat == nl_count(s@),
{
    let len = s.unicode_len();
    let mut i: usize = 0;
    let mut cnt: usize = 0;
    while i < len
        invariant
            i <= len,
            cnt <= i,
            len == s@.len(),
            nl_count(s@.subrange(0, i as int)) == cnt as nat,
        decreases len - i,
    {
        proof {
            lemma_nl_count_step(s@, i as int);
        }
        if s.get_char(i) == '\n' {
            cnt = cnt + 1;
        }
        i = i + 1;
    }
    proof {
        assert(s@.subrange(0, len as int) =~= s@);
    }
    cnt
}

/// Cuts the text from the start of line `lo` through the end of line `hi`
/// (counting lines from 0), inner newlines kept, the final newline not.
/// `None` exactly when the range is backwards or `s` has too few lines.
pub fn line_range(s: &str, lo: usize, hi: usize) -> (r: Option<String>)
    ensures
        match r {
            Some(t) => lo <= hi && (exists|a: int, b: int|
                line_start_at(s@, lo as nat, a) && line_end_at(s@, hi as nat, b) && a <= b && t@
                    == s@.subrange(a, b)),
            None => hi < lo || nl_count(s@) < lo || nl_count(s@) < hi,
        },
{
    if hi < lo {
        return None;
    }
    let len = s.unicode_len();
    let mut i: usize = 0;
    let mut cnt: usize = 0;
    let mut line_start: usize = 0;
    while i < len && cnt < lo
        invariant
            line_start <= i <= len,
            cnt <= lo,
            len == s@.len(),
            nl_count(s@.subrange(0, i as int)) == cnt as nat,
            nl_count(s@.subrange(0, line_start as int)) == cnt as nat,
            line_start == 0 || s@[line_start - 1] == '\n',
        decreases len - i,
    {
        proof {
            lemma_nl_count_step(s@, i as int);
        }
        if s.get_char(i) == '\n' {
            cnt = cnt + 1;
            line_start = i + 1;
        }
        i = i + 1;
    }
    if cnt < lo {
        proof {
            assert(s@.subrange(0, len as int) =~= s@);
        }
        return None;
    }
    let a = line_start;
    while i < len && !(cnt == hi && s.get_char(i) == '\n')
        invariant
            a <= i <= len,
            cnt <= hi,
            len == s@.len(),
            nl_count(s@.subrange(0, i as int)) == cnt as nat,
        decreases len - i,
    {
        proof {
            lemma_nl_count_step(s@, i as int);
        }
        if s.get_char(i) == '\n' {
            cnt = cnt + 1;
        }
        i = i + 1;
    }
    let b = i;
    if cnt < hi {
        proof {
            assert(s@.subrange(0, len as int) =~= s@);
        }
        return None;
    }
    let t = s.substring_char(a, b).to_owned();
    proof {
        assert(line_start_at(s@, lo as nat, a as int));
        assert(line_end_at(s@, hi as nat, b as int));
    }
    Some(t)
}

/// A source excerpt standing for the likely origin of a failure: the file's
/// path relative to the project root, the reported line number, the one-based
/// range of excerpted lines — the reported line with one line of context on
/// each side, as far as the file has them — and the text of those lines.
pub struct SourceSpan {
    pub path: String,
    pub line: u32,
    pub line_start: u64,
    pub line_end: u64,
    pub excerpt: String,
}

/// Builds the span for a symbol that reported `file` and `line` (counting
/// lines from 1), out of that file's text. The excerpt covers the reported
/// line and one context line on each side where the file has them. `None`
/// exactly when the file does not lie under `root`, the line number is 0, or
/// the text has too few lines — each a soft failure the caller answers by
/// scanning on.
pub fn build_span(root: &str, file: &str, line: u32, contents: &str) -> (r: Option<SourceSpan>)
    ensures
        match r {
            Some(sp) => ({
                &&& root@.is_prefix_of(file@)
                &&& line >= 1
                &&& nl_count(contents@) >= line - 1
                &&& sp.path@ == file@.subrange(root@.len() as int, file@.len() as int)
                &&& sp.line == line
                &&& sp.line_start as nat == (if line >= 2 {
                    (line - 1) as nat
                } else {
                    1nat
                })
                &&& sp.line_end as nat == (if line as nat <= nl_count(contents@) {
                    line as nat + 1
                } else {
                    nl_count(contents@) + 1
                })
                &&& (exists|a: int, b: int|
                    line_start_at(contents@, (sp.line_start - 1) as nat, a) && line_end_at(
                        contents@,
                        (sp.line_end - 1) as nat,
                        b,
                    ) && a <= b && sp.excerpt@ == contents@.subrange(a, b))
            }),
            None => !root@.is_prefix_of(file@) || line < 1 || nl_count(contents@) < line - 1,
        },
{
    if !has_prefix(file, root) {
        return None;
    }
    if line < 1 {
        return None;
    }
    let n = (line - 1) as usize;
    let count = count_newlines(contents);
    if n > count {
        return None;
    }
    let lo = if n > 0 {
        n - 1
    } else {
        0
    };
    let hi = if n < count {
        n + 1
    } else {
        count
    };
    match line_range(contents, lo, hi) {
        None => {
            proof {
                assert(false);
            }
            None
        },
        Some(excerpt) => {
            let root_len = root.unicode_len();
            let file_len = file.unicode_len();
            let path = file.substring_char(root_len, file_len).to_owned();
            let line_start: u64 = if n > 0 {
                line as u64 - 1
            } else {
                1
            };
            let line_end: u64 = if n < count {
                line as u64 + 1
            } else {
                count as u64 + 1
            };
            Some(SourceSpan { path, line, line_start, line_end, excerpt })
        },
    }
}

} // verus!
