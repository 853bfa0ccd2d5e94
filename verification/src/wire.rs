//! The trusted boundary for incoming JSON: `serde_json` parses the raw
//! text, and small conversion wrappers turn the parsed document into the
//! library's plain request values. The parse result is named by the
//! uninterpreted `json_of` — parsing depends on the text alone — and
//! each wrapper's contract is stated over the document shape `json_view`
//! reports, so `parse_request`'s own contract pins exactly which texts
//! decode and to what.

use vstd::prelude::*;
use vstd::string::StringExecFns;
use crate::proto::{ArgV, ArgValue, IdV, Params, ParamsV, ReqId, ReqV, Request, args_view};

verus! {

/// A request the engine could not act on at all: the transport decides
/// what to answer.
#[derive(Debug)]
pub struct RequestError {
    pub message: String,
}

#[verifier::external_type_specification]
#[verifier::external_body]
pub struct ExValue(serde_json::Value);

/// The shape of a parsed JSON document, as far as the engine reads it.
/// `IntNum` holds the numbers the parser reports as whole 64-bit
/// integers; every other number is `OtherNum`.
pub enum JsonV {
    Null,
    Bool(bool),
    IntNum(i64),
    OtherNum,
    Str(Seq<char>),
    Arr(Seq<JsonV>),
    Obj(Seq<(Seq<char>, JsonV)>),
}

/// The shape of a parsed JSON value: what `serde_json::Value` holds,
/// abstracted to the members the engine reads.
pub uninterp spec fn json_view(v: serde_json::Value) -> JsonV;

/// What one text parses to: `serde_json::from_str`'s result depends on
/// the text alone, so it bears a name.
pub uninterp spec fn json_of(s: Seq<char>) -> Option<JsonV>;

/// The members of a JSON object; nothing for any other value.
pub open spec fn obj_members(j: JsonV) -> Option<Seq<(Seq<char>, JsonV)>> {
    match j {
        JsonV::Obj(ms) => Some(ms),
        _ => None,
    }
}

/// The first member bound to `k`, if any.
pub open spec fn members_get(ms: Seq<(Seq<char>, JsonV)>, k: Seq<char>) -> Option<JsonV>
    decreases ms.len(),
{
    if ms.len() == 0 {
        None
    } else if ms[0].0 == k {
        Some(ms[0].1)
    } else {
        members_get(ms.drop_first(), k)
    }
}

/// The value under key `k` of a JSON object; nothing for a missing key
/// or a non-object.
pub open spec fn obj_get(j: JsonV, k: Seq<char>) -> Option<JsonV> {
    match j {
        JsonV::Obj(ms) => members_get(ms, k),
        _ => None,
    }
}

/// One JSON value as the plain argument value the tools read.
pub open spec fn arg_of(j: JsonV) -> ArgV {
    match j {
        JsonV::Null => ArgV::Null,
        JsonV::Bool(b) => ArgV::Bool(b),
        JsonV::IntNum(n) => ArgV::Int(n as int),
        JsonV::OtherNum => ArgV::Other,
        JsonV::Str(s) => ArgV::Str(s),
        JsonV::Arr(_) => ArgV::Other,
        JsonV::Obj(_) => ArgV::Other,
    }
}

/// An object's members as a tool's arguments.
pub open spec fn args_of_members(ms: Seq<(Seq<char>, JsonV)>) -> Seq<(Seq<char>, ArgV)> {
    ms.map_values(|e: (Seq<char>, JsonV)| (e.0, arg_of(e.1)))
}

/// Relies on `serde_json::from_str`: parses one JSON document — a
/// function of the text alone, named `json_of`; `None` when the text is
/// not valid JSON.
#[verifier::external_body]
fn json_parse(s: &str) -> (r: Option<serde_json::Value>)
    ensures
        match r {
            Some(v) => json_of(s@) == Some(json_view(v)),
            None => json_of(s@) is None,
        },
{
    serde_json::from_str(s).ok()
}

/// Relies on `serde_json::Value::get`: the value under a key of a JSON
/// object; `None` for a missing key or a non-object.
#[verifier::external_body]
fn value_get<'a>(v: &'a serde_json::Value, key: &str) -> (r: Option<&'a serde_json::Value>)
    ensures
        match r {
            Some(w) => obj_get(json_view(*v), key@) == Some(json_view(*w)),
            None => obj_get(json_view(*v), key@) is None,
        },
{
    v.get(key)
}

/// Relies on `serde_json::Value::as_str`: the text of a JSON string;
/// `None` for any other value.
#[verifier::external_body]
fn value_str(v: &serde_json::Value) -> (r: Option<String>)
    ensures
        match r {
            Some(t) => json_view(*v) == JsonV::Str(t@),
            None => !(json_view(*v) is Str),
        },
{
    v.as_str().map(|s| s.to_string())
}

/// Relies on `serde_json::Value::as_i64`: the value of a JSON number
/// that is a whole 64-bit integer; `None` otherwise.
#[verifier::external_body]
fn value_i64(v: &serde_json::Value) -> (r: Option<i64>)
    ensures
        match r {
            Some(n) => json_view(*v) == JsonV::IntNum(n),
            None => !(json_view(*v) is IntNum),
        },
{
    v.as_i64()
}

/// Relies on `serde_json::Value::is_null`.
#[verifier::external_body]
fn value_is_null(v: &serde_json::Value) -> (r: bool)
    ensures
        r == (json_view(*v) is Null),
{
    v.is_null()
}

/// Relies on `serde_json::Value`'s variants and `Number::as_i64`: one
/// JSON value as the plain argument value the tools read; whatever they
/// do not read becomes `Other`.
#[verifier::external_body]
fn value_arg(v: &serde_json::Value) -> (r: ArgValue)
    ensures
        r@ == arg_of(json_view(*v)),
{
    match v {
        serde_json::Value::Null => ArgValue::Null,
        serde_json::Value::Bool(b) => ArgValue::Bool(*b),
        serde_json::Value::Number(n) => match n.as_i64() {
            Some(i) => ArgValue::Int(i),
            None => ArgValue::Other,
        },
        serde_json::Value::String(s) => ArgValue::Str(s.clone()),
        _ => ArgValue::Other,
    }
}

/// Relies on `serde_json::Value::as_object` and `Map::iter`: the members
/// of a JSON object, each value converted by `value_arg`; `None` for a
/// non-object.
#[verifier::external_body]
fn value_args(v: &serde_json::Value) -> (r: Option<Vec<(String, ArgValue)>>)
    ensures
        match r {
            Some(ar) => (obj_members(json_view(*v)) matches Some(ms) && args_view(ar@)
                == args_of_members(ms)),
            None => obj_members(json_view(*v)) is None,
        },
{
    match v.as_object() {
        None => None,
        Some(m) => Some(m.iter().map(|(k, x)| (k.clone(), value_arg(x))).collect()),
    }
}

/// The method of a decoded document: the string under `method`.
pub open spec fn dec_method(j: JsonV) -> Option<Seq<char>> {
    match obj_get(j, "method"@) {
        Some(JsonV::Str(m)) => Some(m),
        _ => None,
    }
}

/// The correlation token of a decoded document: absent or null means a
/// notification-style request; a whole number or a string is carried;
/// any other `id` makes the document undecodable.
pub open spec fn dec_id(j: JsonV) -> Option<Option<IdV>> {
    match obj_get(j, "id"@) {
        None => Some(None),
        Some(iv) => match iv {
            JsonV::Null => Some(None),
            JsonV::IntNum(n) => Some(Some(IdV::Num(n as int))),
            JsonV::Str(t) => Some(Some(IdV::Str(t))),
            _ => None,
        },
    }
}

/// The parameters of a decoded document: a `params` object with a string
/// `name` and an object `arguments` is the tool-call shape; any other
/// `params` value is carried as such; absent stays absent.
pub open spec fn dec_params(j: JsonV) -> Option<ParamsV> {
    match obj_get(j, "params"@) {
        None => None,
        Some(pv) => Some(
            match obj_get(pv, "name"@) {
                Some(JsonV::Str(nm)) => match obj_get(pv, "arguments"@) {
                    Some(av) => match obj_members(av) {
                        Some(ms) => ParamsV::Call { name: nm, arguments: args_of_members(ms) },
                        None => ParamsV::Other,
                    },
                    None => ParamsV::Other,
                },
                _ => ParamsV::Other,
            },
        ),
    }
}

/// Which texts decode to a request, and to which: a JSON object with a
/// string `method` and an admissible `id`.
pub open spec fn decoded_request(s: Seq<char>) -> Option<ReqV> {
    match json_of(s) {
        None => None,
        Some(j) => match (dec_method(j), dec_id(j)) {
            (Some(m), Some(id)) => Some(ReqV { id, method: m, params: dec_params(j) }),
            _ => None,
        },
    }
}

fn fail(msg: &str) -> (r: RequestError)
    ensures
        r.message@ == msg@,
{
    RequestError { message: String::from_str(msg) }
}

/// Decodes one raw request, succeeding exactly on the texts
/// `decoded_request` admits and returning exactly the request it names.
pub fn parse_request(s: &str) -> (r: Result<Request, RequestError>)
    ensures
        r matches Ok(q) ==> decoded_request(s@) == Some(q@),
        r matches Err(_) ==> decoded_request(s@) is None,
{
    let root = match json_parse(s) {
        None => {
            return Err(fail("Invalid JSON"));
        },
        Some(v) => v,
    };
    let method = match value_get(&root, "method") {
        None => {
            return Err(fail("Missing method"));
        },
        Some(mv) => match value_str(mv) {
            None => {
                return Err(fail("Method must be a string"));
            },
            Some(m) => m,
        },
    };
    let id: Option<ReqId> = match value_get(&root, "id") {
        None => None,
        Some(iv) => {
            if value_is_null(iv) {
                None
            } else {
                match value_i64(iv) {
                    Some(n) => Some(ReqId::Num(n)),
                    None => match value_str(iv) {
                        Some(sv) => Some(ReqId::Str(sv)),
                        None => {
                            return Err(fail("Unsupported id"));
                        },
                    },
                }
            }
        },
    };
    let params: Option<Params> = match value_get(&root, "params") {
        None => None,
        Some(pv) => Some(
            match value_get(pv, "name") {
                None => Params::Other,
                Some(nv) => match value_str(nv) {
                    None => Params::Other,
                    Some(nm) => match value_get(pv, "arguments") {
                        None => Params::Other,
                        Some(av) => match value_args(av) {
                            None => Params::Other,
                            Some(ar) => Params::Call { name: nm, arguments: ar },
                        },
                    },
                },
            },
        ),
    };
    Ok(Request { id, method, params })
}

} // verus!
