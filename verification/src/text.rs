//! Rendering of the diagnostic log lines.
//!
//! A call's start and its completion are reported as single text lines that
//! share a sequence number, so lines of calls that overlap in time can be
//! correlated. The exact text of both lines is pinned down here, over a
//! verified decimal rendering of the numbers they carry.

use crate::call::{spec_output_id, Id, OutputInfo};
use vstd::prelude::*;
use vstd::string::StringExecFns;

verus! {

broadcast use vstd::string::group_string_axioms;

/// The character for one decimal digit.
pub open spec fn spec_digit_char(d: nat) -> char {
    if d == 0 {
        '0'
    } else if d == 1 {
        '1'
    } else if d == 2 {
        '2'
    } else if d == 3 {
        '3'
    } else if d == 4 {
        '4'
    } else if d == 5 {
        '5'
    } else if d == 6 {
        '6'
    } else if d == 7 {
        '7'
    } else if d == 8 {
        '8'
    } else {
        '9'
    }
}

/// The decimal rendering of a natural number, most significant digit first,
/// with no leading zeroes (a lone zero for 0).
pub open spec fn spec_decimal(n: nat) -> Seq<char>
    decreases n,
{
    if n < 10 {
        seq![spec_digit_char(n)]
    } else {
        spec_decimal(n / 10) + seq![spec_digit_char(n % 10)]
    }
}

fn digit_str(d: u128) -> (r: &'static str)
    requires
        d < 10,
    ensures
        r@ == seq![spec_digit_char(d as nat)],
{
    proof {
        reveal_strlit("0");
        reveal_strlit("1");
        reveal_strlit("2");
        reveal_strlit("3");
        reveal_strlit("4");
        reveal_strlit("5");
        reveal_strlit("6");
        reveal_strlit("7");
        reveal_strlit("8");
        reveal_strlit("9");
    }
    let r: &'static str = if d == 0 {
        "0"
    } else if d == 1 {
        "1"
    } else if d == 2 {
        "2"
    } else if d == 3 {
        "3"
    } else if d == 4 {
        "4"
    } else if d == 5 {
        "5"
    } else if d == 6 {
        "6"
    } else if d == 7 {
        "7"
    } else if d == 8 {
        "8"
    } else {
        "9"
    };
    proof {
        assert(r@ =~= seq![spec_digit_char(d as nat)]);
    }
    r
}

/// Renders a number in decimal, exactly as [`spec_decimal`] describes.
pub fn decimal_string(n: u128) -> (r: String)
    ensures
        r@ == spec_decimal(n as nat),
    decreases n,
{
    if n < 10 {
        String::from_str(digit_str(n))
    } else {
        proof {
            assert(n / 10 < n) by (nonlinear_arith)
                requires
                    n >= 10,
            ;
            assert(n % 10 < 10) by (nonlinear_arith);
        }
        let mut s = decimal_string(n / 10);
        s.append(digit_str(n % 10));
        s
    }
}

/// The text a correlation id is rendered as in the log lines: the decimal
/// digits of a numeric id, a string id verbatim, and `null` for no id.
pub open spec fn spec_id_text(id: Id) -> Seq<char> {
    match id {
        Id::Num(n) => spec_decimal(n as nat),
        Id::Str(s) => s@,
        Id::Null => "null"@,
    }
}

/// Renders a correlation id the way the log lines carry it: the decimal
/// digits of a numeric id, a string id verbatim, and `null` for no id.
pub fn id_to_string(id: &Id) -> (r: String)
    ensures
        r@ == spec_id_text(*id),
{
    match id {
        Id::Num(n) => decimal_string(*n as u128),
        Id::Str(s) => s.clone(),
        Id::Null => String::from_str("null"),
    }
}

/// The text of the line that reports a call's start: its correlation id, the
/// sequence number that the completion line will repeat, the method name,
/// and the byte length of the call's serialized form.
pub open spec fn spec_request_line(id: Id, seq_no: nat, method: Seq<char>, len: nat) -> Seq<char> {
    "Request [id: "@ + spec_id_text(id) + " - server_id: "@ + spec_decimal(seq_no)
        + " - method: "@ + method + " - "@ + spec_decimal(len) + " bytes]"@
}

/// The text of the line that reports a call's completion: the same fields as
/// the start line, plus the byte length of the serialized outcome, the
/// elapsed milliseconds, and `success` or the failure's error detail.
pub open spec fn spec_response_line(
    output: OutputInfo,
    seq_no: nat,
    method: Seq<char>,
    len: nat,
    elapsed_ms: nat,
) -> Seq<char> {
    "Response [id: "@ + spec_id_text(spec_output_id(output)) + " - server_id: "@
        + spec_decimal(seq_no) + " - method: "@ + method + " - "@ + spec_decimal(len)
        + " bytes - Processing took "@ + spec_decimal(elapsed_ms) + " ms]: "@ + (
    match output {
        OutputInfo::Success { .. } => "success"@,
        OutputInfo::Failure { error, .. } => error@,
    })
}

/// Builds the start line, exactly as [`spec_request_line`] describes.
pub fn request_line(id: &Id, seq_no: usize, method: &str, len: usize) -> (r: String)
    ensures
        r@ == spec_request_line(*id, seq_no as nat, method@, len as nat),
{
    let mut s = String::from_str("Request [id: ");
    let id_text = id_to_string(id);
    s.append(id_text.as_str());
    s.append(" - server_id: ");
    let seq_text = decimal_string(seq_no as u128);
    s.append(seq_text.as_str());
    s.append(" - method: ");
    s.append(method);
    s.append(" - ");
    let len_text = decimal_string(len as u128);
    s.append(len_text.as_str());
    s.append(" bytes]");
    proof {
        assert(s@ =~= spec_request_line(*id, seq_no as nat, method@, len as nat));
    }
    s
}

/// Builds the completion line, exactly as [`spec_response_line`] describes.
pub fn response_line(
    output: &OutputInfo,
    seq_no: usize,
    method: &str,
    len: usize,
    elapsed_ms: u128,
) -> (r: String)
    ensures
        r@ == spec_response_line(*output, seq_no as nat, method@, len as nat, elapsed_ms as nat),
{
    let mut s = String::from_str("Response [id: ");
    let id = match output {
        OutputInfo::Success { id } => id,
        OutputInfo::Failure { id, .. } => id,
    };
    let id_text = id_to_string(id);
    s.append(id_text.as_str());
    s.append(" - server_id: ");
    let seq_text = decimal_string(seq_no as u128);
    s.append(seq_text.as_str());
    s.append(" - method: ");
    s.append(method);
    s.append(" - ");
    let len_text = decimal_string(len as u128);
    s.append(len_text.as_str());
    s.append(" bytes - Processing took ");
    let ms_text = decimal_string(elapsed_ms);
    s.append(ms_text.as_str());
    s.append(" ms]: ");
    match output {
        OutputInfo::Success { .. } => s.append("success"),
        OutputInfo::Failure { error, .. } => s.append(error.as_str()),
    }
    proof {
        assert(s@ =~= spec_response_line(
            *output,
            seq_no as nat,
            method@,
            len as nat,
            elapsed_ms as nat,
        ));
    }
    s
}

} // verus!
