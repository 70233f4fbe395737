//! Talking to the `harbor` command line: checking the values handed to it,
//! choosing its binary, and reading its replies.
use vstd::prelude::*;
use vstd::utf8::encode_utf8;

use crate::formats::{
    decode_lossy, json_parse, parse_json, read_toml_text_entry, toml_text_entry, utf8_lossy,
};
use crate::text::{begins_with, decimal, decimal_text, trim, trimmed};

verus! {

/// The texts of a result whose both sides are strings.
pub open spec fn text_result(r: Result<String, String>) -> Result<Seq<char>, Seq<char>> {
    match r {
        Ok(v) => Ok(v@),
        Err(e) => Err(e@),
    }
}

/// The texts of an optional string.
pub open spec fn opt_text(o: Option<String>) -> Option<Seq<char>> {
    match o {
        Some(s) => Some(s@),
        None => None,
    }
}

/// A value handed to harbor as one argument: trimmed, and refused when
/// empty or when it could be read as a flag (a leading `-`).
pub open spec fn checked_arg(label: Seq<char>, value: Seq<char>) -> Result<Seq<char>, Seq<char>> {
    let v = trim(value);
    if v.len() == 0 {
        Err(label + " must not be empty"@)
    } else if v[0] == '-' {
        Err(label + " must not start with '-'"@)
    } else {
        Ok(v)
    }
}

/// Checks a value before it becomes an argument of harbor: the trimmed value,
/// or an error naming `label` when it is empty or begins with `-`.
pub fn safe_arg(label: &str, value: &str) -> (r: Result<String, String>)
    ensures
        text_result(r) == checked_arg(label@, value@),
{
    let v = trimmed(value);
    if v.as_str().is_empty() {
        return Err(String::from_str(label).concat(" must not be empty"));
    }
    if begins_with(v.as_str(), '-') {
        return Err(String::from_str(label).concat(" must not start with '-'"));
    }
    Ok(v)
}

/// The reply of a mutating harbor command: its trimmed output when it
/// succeeded, else its trimmed output and error output, a line apart and
/// trimmed together.
pub open spec fn text_reply(success: bool, stdout: Seq<u8>, stderr: Seq<u8>) -> Result<
    Seq<char>,
    Seq<char>,
> {
    let out = trim(utf8_lossy(stdout));
    if success {
        Ok(out)
    } else {
        Err(trim(out + "\n"@ + trim(utf8_lossy(stderr))))
    }
}

/// Reads a mutating command's output, a failed exit being an error.
pub fn text_output(success: bool, stdout: &[u8], stderr: &[u8]) -> (r: Result<String, String>)
    ensures
        text_result(r) == text_reply(success, stdout@, stderr@),
{
    let out = trimmed(decode_lossy(stdout).as_str());
    if !success {
        let err = trimmed(decode_lossy(stderr).as_str());
        let combined = out.concat("\n").concat(err.as_str());
        return Err(trimmed(combined.as_str()));
    }
    Ok(out)
}

/// The error of a failed read command: its exit status and its trimmed
/// error output.
pub open spec fn failed_read_message(status: Seq<char>, stderr: Seq<u8>) -> Seq<char> {
    "harbor "@ + status + ": "@ + trim(utf8_lossy(stderr))
}

/// The error of a read command whose output is no JSON document: the
/// parser's message and the size in bytes of the output read as text (a
/// `usize`, as `str::len` gives it).
pub open spec fn invalid_json_message(detail: Seq<char>, stdout: Seq<u8>) -> Seq<char> {
    "harbor returned invalid JSON: "@ + detail + " (got "@ + decimal(
        (encode_utf8(utf8_lossy(stdout)).len() as usize) as nat,
    ) + " bytes)"@
}

/// Reads a read command's output as the JSON document it holds. A failed
/// exit gives an error with the exit status (`status`, as the exit status
/// displays) and the error output; output that is no JSON document gives the
/// parser's error.
pub fn json_output(success: bool, status: &str, stdout: &[u8], stderr: &[u8]) -> (r: Result<
    serde_json::Value,
    String,
>)
    ensures
        !success ==> (r matches Err(m) && m@ == failed_read_message(status@, stderr@)),
        success ==> match json_parse(stdout@) {
            Ok(v) => r == Ok::<serde_json::Value, String>(v),
            Err(detail) => (r matches Err(m) && m@ == invalid_json_message(detail, stdout@)),
        },
{
    if !success {
        let err = trimmed(decode_lossy(stderr).as_str());
        return Err(
            String::from_str("harbor ").concat(status).concat(": ").concat(err.as_str()),
        );
    }
    match parse_json(stdout) {
        Ok(v) => Ok(v),
        Err(detail) => {
            let preview = decode_lossy(stdout);
            let n = preview.as_str().len();
            Err(
                String::from_str("harbor returned invalid JSON: ").concat(detail.as_str()).concat(
                    " (got ",
                ).concat(decimal_text(n).as_str()).concat(" bytes)"),
            )
        },
    }
}

/// Whether the policy location given in the environment is used: only when
/// it is set and not blank.
pub open spec fn policy_override(env_value: Option<Seq<char>>) -> Option<Seq<char>> {
    match env_value {
        Some(p) => if trim(p).len() > 0 {
            Some(p)
        } else {
            None
        },
        None => None,
    }
}

/// The policy location from the environment's value, when it is set and not
/// blank; otherwise the caller falls back to the home directory.
pub fn policy_path_override(env_value: Option<&str>) -> (r: Option<String>)
    ensures
        opt_text(r) == policy_override(
            match env_value {
                Some(p) => Some(p@),
                None => None,
            },
        ),
{
    match env_value {
        Some(p) => {
            if trimmed(p).as_str().is_empty() {
                None
            } else {
                Some(String::from_str(p))
            }
        },
        None => None,
    }
}

/// The harbor binary: the configured one when it is not blank, else
/// `harbor` from the search path.
pub open spec fn harbor_binary_of(configured: Option<Seq<char>>) -> Seq<char> {
    match configured {
        Some(c) => if trim(c).len() > 0 {
            c
        } else {
            "harbor"@
        },
        None => "harbor"@,
    }
}

/// Chooses the harbor binary from the policy's `harbor_command`, if any.
pub fn choose_harbor_binary(configured: Option<String>) -> (r: String)
    ensures
        r@ == harbor_binary_of(opt_text(configured)),
{
    match configured {
        Some(c) => {
            if trimmed(c.as_str()).as_str().is_empty() {
                String::from_str("harbor")
            } else {
                c
            }
        },
        None => String::from_str("harbor"),
    }
}

/// The harbor binary the policy document names at its top level under
/// `harbor_command`; `policy_text` is `None` when the document could not be
/// read.
pub fn harbor_binary(policy_text: Option<&str>) -> (r: String)
    ensures
        r@ == harbor_binary_of(
            match policy_text {
                Some(t) => toml_text_entry(t@, "harbor_command"@),
                None => None,
            },
        ),
{
    match policy_text {
        Some(t) => choose_harbor_binary(read_toml_text_entry(t, "harbor_command")),
        None => choose_harbor_binary(None),
    }
}

} // verus!
