//! Decoding of the executor's fixed-format resource-usage report: a
//! whitespace-separated body of exactly fifteen tokens, with memory,
//! elapsed time, exit code and exit signal at fixed positions.
use vstd::prelude::*;
use vstd::string::StringExecFns;
use crate::text::{
    wsp_tokens, parse_i32_spec, parse_i32, is_float_token, is_float_literal, split_ascii_tokens,
};

verus! {

/// The outcome of one executed task, as decoded from the executor's
/// report. The time field keeps the elapsed-time token as written, so
/// the caller may read it at any precision. `-1` marks a numeric field
/// that could not be read; the token `-1` marks an unreadable time.
#[derive(Debug)]
pub struct JudgerResult {
    pub memory: i32,
    pub time: String,
    pub exit_code: i32,
    pub exit_signal: i32,
    pub report_path: String,
    pub output_path: String,
}

/// The sentinel outcome: nothing could be decoded.
pub open spec fn is_default_result(r: &JudgerResult) -> bool {
    r.memory == -1 && r.time@ == "-1"@ && r.exit_code == -1 && r.exit_signal == -1
        && r.report_path@ == Seq::<char>::empty() && r.output_path@ == Seq::<char>::empty()
}

/// An integer report field: the written value, or `-1` when malformed.
pub open spec fn spec_i32_field(tok: Seq<char>) -> int {
    match parse_i32_spec(tok) {
        Some(v) => v as int,
        None => -1,
    }
}

/// A time report field: the token as written when it is a well-formed
/// number, or the token `-1` when malformed.
pub open spec fn spec_time_field(tok: Seq<char>) -> Seq<char> {
    if is_float_token(tok) {
        tok
    } else {
        "-1"@
    }
}

/// What decoding a report body against the fifteen-token layout yields.
pub open spec fn parsed_report_ok(
    body: Seq<char>,
    rep_path: Seq<char>,
    out_path: Seq<char>,
    r: &JudgerResult,
) -> bool {
    let toks = wsp_tokens(body);
    if toks.len() == 15 {
        r.memory == spec_i32_field(toks[2]) && r.time@ == spec_time_field(toks[8]) && r.exit_code
            == spec_i32_field(toks[11]) && r.exit_signal == spec_i32_field(toks[14])
            && r.report_path@ == rep_path && r.output_path@ == out_path
    } else {
        is_default_result(r)
    }
}

impl Default for JudgerResult {
    /// The sentinel outcome.
    fn default() -> (r: Self)
        ensures
            is_default_result(&r),
    {
        JudgerResult {
            memory: -1,
            time: String::from_str("-1"),
            exit_code: -1,
            exit_signal: -1,
            report_path: String::new(),
            output_path: String::new(),
        }
    }
}

fn i32_field(tok: &String) -> (r: i32)
    ensures
        r == spec_i32_field(tok@),
{
    match parse_i32(tok.as_str()) {
        Some(v) => v,
        None => -1,
    }
}

impl JudgerResult {
    /// Decode a report body read from `path`, with `output` as the
    /// captured-output path of the same task. Any token count other than
    /// fifteen yields the sentinel outcome; a malformed numeric token
    /// only degrades its own field.
    pub fn from_report(report: &str, path: &String, output: &String) -> (r: Self)
        ensures
            parsed_report_ok(report@, path@, output@, &r),
    {
        let toks = split_ascii_tokens(report);
        if toks.len() == 15 {
            proof {
                assert forall|i: int| 0 <= i < 15 implies toks@.map_values(|t: String| t@)[i]
                    == toks@[i]@ by {}
            }
            let time = if is_float_literal(toks[8].as_str()) {
                toks[8].clone()
            } else {
                String::from_str("-1")
            };
            JudgerResult {
                memory: i32_field(&toks[2]),
                time,
                exit_code: i32_field(&toks[11]),
                exit_signal: i32_field(&toks[14]),
                report_path: path.clone(),
                output_path: output.clone(),
            }
        } else {
            JudgerResult::default()
        }
    }

    /// A deep copy of the outcome.
    pub fn duplicate(&self) -> (r: Self)
        ensures
            r.memory == self.memory,
            r.time@ == self.time@,
            r.exit_code == self.exit_code,
            r.exit_signal == self.exit_signal,
            r.report_path@ == self.report_path@,
            r.output_path@ == self.output_path@,
    {
        JudgerResult {
            memory: self.memory,
            time: self.time.clone(),
            exit_code: self.exit_code,
            exit_signal: self.exit_signal,
            report_path: self.report_path.clone(),
            output_path: self.output_path.clone(),
        }
    }
}

/// Whether a task outcome stops the batch: a non-zero exit code or a
/// non-zero exit signal.
pub open spec fn spec_task_failed(r: &JudgerResult) -> bool {
    r.exit_code != 0 || r.exit_signal != 0
}

/// Whether a task outcome stops the batch.
pub fn task_failed(r: &JudgerResult) -> (b: bool)
    ensures
        b == spec_task_failed(r),
{
    r.exit_code != 0 || r.exit_signal != 0
}

} // verus!
