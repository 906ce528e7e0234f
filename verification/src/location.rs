//! The source location an abort reports, and the report's location header.
use vstd::prelude::*;
use vstd::string::StringExecFns;

use crate::text::spec_dec;
use crate::text::dec_u64;

verus! {

/// The file, line and column at which an abort was raised, when the runtime
/// could tell.
pub struct SourceLocation {
    pub file: String,
    pub line: u32,
    pub col: u32,
}

/// The report's location header for `l`: exactly `Panic at {file}:{line}:{col}`.
pub open spec fn spec_location_header(l: SourceLocation) -> Seq<char> {
    "Panic at "@ + l.file@ + ":"@ + spec_dec(l.line as nat) + ":"@ + spec_dec(l.col as nat)
}

/// Renders the location header, exactly `Panic at {file}:{line}:{col}`.
pub fn location_header(l: &SourceLocation) -> (r: String)
    ensures
        r@ == spec_location_header(*l),
{
    let mut r = "Panic at ".to_owned();
    r.append(l.file.as_str());
    r.append(":");
    let line_text = dec_u64(l.line as u64);
    r.append(line_text.as_str());
    r.append(":");
    let col_text = dec_u64(l.col as u64);
    r.append(col_text.as_str());
    proof {
        assert(r@ =~= spec_location_header(*l));
    }
    r
}

} // verus!
