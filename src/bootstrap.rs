use vstd::prelude::*;

verus! {

/// Lower-case hexadecimal digit of `n`, for `n < 16`.
pub open spec fn hex_digit(n: u32) -> char {
    "0123456789abcdef"@[n as int]
}

/// JSON text of one character: `"` and `\` escaped with a backslash, the
/// short escapes for backspace, tab, line feed, form feed and carriage return,
/// other control characters below 0x20 as `\u00XX`, and anything else as is.
pub open spec fn json_char(c: char) -> Seq<char> {
    let u = c as u32;
    if u == 0x22 {
        seq!['\\', '"']
    } else if u == 0x5C {
        seq!['\\', '\\']
    } else if u == 0x08 {
        seq!['\\', 'b']
    } else if u == 0x09 {
        seq!['\\', 't']
    } else if u == 0x0A {
        seq!['\\', 'n']
    } else if u == 0x0C {
        seq!['\\', 'f']
    } else if u == 0x0D {
        seq!['\\', 'r']
    } else if u < 0x20 {
        seq!['\\', 'u', '0', '0', hex_digit(u / 16), hex_digit(u % 16)]
    } else {
        seq![c]
    }
}

pub open spec fn json_escaped(s: Seq<char>) -> Seq<char>
    decreases s.len(),
{
    if s.len() == 0 {
        Seq::empty()
    } else {
        json_escaped(s.drop_last()) + json_char(s.last())
    }
}

/// The JSON text of the string `s`: its characters escaped, between quotes.
pub open spec fn json_string(s: Seq<char>) -> Seq<char> {
    seq!['"'] + json_escaped(s) + seq!['"']
}

/// Relies on serde_json's `Display` for `Value`: the compact JSON text of a
/// string value, escaped as its escape table (`ESCAPE` in ser.rs) gives.
#[verifier::external_body]
fn json_string_text(s: &str) -> (r: String)
    ensures
        r@ == json_string(s@),
{
    serde_json::Value::String(s.to_string()).to_string()
}

pub open spec fn bool_text(b: bool) -> Seq<char> {
    if b {
        "true"@
    } else {
        "false"@
    }
}

/// The version announced where none is configured.
pub open spec fn default_version() -> Seq<char> {
    "0.1.0"@
}

/// The bootstrap call run once in each isolate before any guest code.
pub open spec fn bootstrap_text(
    target: Seq<char>,
    is_user: bool,
    is_events: bool,
    version: Seq<char>,
) -> Seq<char> {
    "globalThis.bootstrapSBEdge({\"target\":"@ + json_string(target) + "}, "@ + bool_text(is_user)
        + ", "@ + bool_text(is_events) + ", '"@ + version + "')"@
}

/// The configured version, or the default one.
pub open spec fn version_or_default(version: Option<&str>) -> Seq<char> {
    match version {
        Some(v) => v@,
        None => default_version(),
    }
}

fn bool_string(b: bool) -> (r: String)
    ensures
        r@ == bool_text(b),
{
    if b {
        String::from_str("true")
    } else {
        String::from_str("false")
    }
}

/// Builds the bootstrap call: the target platform as a JSON object, whether
/// the worker is a user worker, whether it is an events worker, and the version.
pub fn bootstrap_script(target: &str, is_user: bool, is_events: bool, version: Option<&str>) -> (r:
    String)
    ensures
        r@ == bootstrap_text(target@, is_user, is_events, version_or_default(version)),
{
    let mut r = String::from_str("globalThis.bootstrapSBEdge({\"target\":");
    let t = json_string_text(target);
    r.append(t.as_str());
    r.append("}, ");
    let u = bool_string(is_user);
    r.append(u.as_str());
    r.append(", ");
    let e = bool_string(is_events);
    r.append(e.as_str());
    r.append(", '");
    match version {
        Some(v) => r.append(v),
        None => r.append("0.1.0"),
    }
    r.append("')");
    r
}

} // verus!
