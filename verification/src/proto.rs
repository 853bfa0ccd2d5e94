//! The wire-level data model: requests, responses, tool metadata and tool
//! arguments, together with the verified encoder that renders a response
//! as one JSON document.

use vstd::prelude::*;
use vstd::string::StringExecFns;
use crate::text::{dec_i64, dec_of_int, escape_json, escaped};

verus! {

/// Method not found (reserved JSON-RPC code).
pub const CODE_METHOD_NOT_FOUND: i64 = -32601;

/// Server not initialized.
pub const CODE_NOT_INITIALIZED: i64 = -32002;

/// Tool execution failed (the tool's own message is wrapped).
pub const CODE_TOOL_EXECUTION: i64 = -32603;

/// Malformed or missing `params` for a method that needs them.
pub const CODE_INVALID_PARAMS: i64 = -32602;

/// `tools/call` named a tool that is not registered.
pub const CODE_TOOL_NOT_FOUND: i64 = -32000;

/// One argument value handed to a tool. The provided tools read strings,
/// integers and booleans; any other JSON value (a fraction, an array, an
/// object) arrives as `Other` and fails the tool's own validation.
pub enum ArgValue {
    Null,
    Bool(bool),
    Int(i64),
    Str(String),
    Other,
}

/// The spec-level shape of an argument value.
pub enum ArgV {
    Null,
    Bool(bool),
    Int(int),
    Str(Seq<char>),
    Other,
}

impl View for ArgValue {
    type V = ArgV;

    open spec fn view(&self) -> ArgV {
        match self {
            ArgValue::Null => ArgV::Null,
            ArgValue::Bool(b) => ArgV::Bool(*b),
            ArgValue::Int(n) => ArgV::Int(*n as int),
            ArgValue::Str(s) => ArgV::Str(s@),
            ArgValue::Other => ArgV::Other,
        }
    }
}

/// A request correlation token: a number or a string. A request without
/// one is a notification and never receives a response.
pub enum ReqId {
    Num(i64),
    Str(String),
}

/// The spec-level shape of a correlation token.
pub enum IdV {
    Num(int),
    Str(Seq<char>),
}

impl View for ReqId {
    type V = IdV;

    open spec fn view(&self) -> IdV {
        match self {
            ReqId::Num(n) => IdV::Num(*n as int),
            ReqId::Str(s) => IdV::Str(s@),
        }
    }
}

/// The parameters of a request, as far as the engine reads them: a
/// `tools/call` shape (a tool name plus an arguments object), or anything
/// else, which the tool-calling path rejects.
pub enum Params {
    Call { name: String, arguments: Vec<(String, ArgValue)> },
    Other,
}

/// The spec-level shape of request parameters.
pub enum ParamsV {
    Call { name: Seq<char>, arguments: Seq<(Seq<char>, ArgV)> },
    Other,
}

/// The spec-level view of an arguments object.
pub open spec fn args_view(s: Seq<(String, ArgValue)>) -> Seq<(Seq<char>, ArgV)> {
    s.map_values(|e: (String, ArgValue)| (e.0@, e.1@))
}

impl View for Params {
    type V = ParamsV;

    open spec fn view(&self) -> ParamsV {
        match self {
            Params::Call { name, arguments } => ParamsV::Call {
                name: name@,
                arguments: args_view(arguments@),
            },
            Params::Other => ParamsV::Other,
        }
    }
}

/// One decoded request.
pub struct Request {
    pub id: Option<ReqId>,
    pub method: String,
    pub params: Option<Params>,
}

/// The spec-level shape of a request.
pub struct ReqV {
    pub id: Option<IdV>,
    pub method: Seq<char>,
    pub params: Option<ParamsV>,
}

/// The spec-level view of an optional correlation token.
pub open spec fn id_view(id: Option<ReqId>) -> Option<IdV> {
    match id {
        None => None,
        Some(i) => Some(i@),
    }
}

impl View for Request {
    type V = ReqV;

    open spec fn view(&self) -> ReqV {
        ReqV {
            id: id_view(self.id),
            method: self.method@,
            params: match self.params {
                None => None,
                Some(ref p) => Some(p@),
            },
        }
    }
}

/// A protocol-level error: an integer code and a message.
pub struct ErrBody {
    pub code: i64,
    pub message: String,
}

/// The spec-level shape of a protocol-level error.
pub struct ErrV {
    pub code: int,
    pub message: Seq<char>,
}

impl View for ErrBody {
    type V = ErrV;

    open spec fn view(&self) -> ErrV {
        ErrV { code: self.code as int, message: self.message@ }
    }
}

/// One response: either a result (already rendered as a JSON value) or a
/// protocol-level error, correlated by the request's token.
pub struct Response {
    pub id: Option<ReqId>,
    pub body: Result<String, ErrBody>,
}

/// The spec-level shape of a response.
pub struct RespV {
    pub id: Option<IdV>,
    pub body: Result<Seq<char>, ErrV>,
}

impl View for Response {
    type V = RespV;

    open spec fn view(&self) -> RespV {
        RespV {
            id: id_view(self.id),
            body: match self.body {
                Ok(ref s) => Ok(s@),
                Err(ref e) => Err(e@),
            },
        }
    }
}

/// A tool's immutable metadata: its unique name, a description, and a
/// JSON-Schema-like description of the accepted arguments, held as the
/// JSON text it is sent as (no logic reads inside it).
pub struct Tool {
    pub name: String,
    pub description: String,
    pub input_schema: String,
}

/// The spec-level shape of tool metadata.
pub struct ToolV {
    pub name: Seq<char>,
    pub description: Seq<char>,
    pub input_schema: Seq<char>,
}

impl View for Tool {
    type V = ToolV;

    open spec fn view(&self) -> ToolV {
        ToolV { name: self.name@, description: self.description@, input_schema: self.input_schema@ }
    }
}

/// How a correlation token is rendered inside a response.
pub open spec fn id_text(id: Option<IdV>) -> Seq<char> {
    match id {
        None => "null"@,
        Some(IdV::Num(n)) => dec_of_int(n),
        Some(IdV::Str(s)) => seq!['"'] + escaped(s) + seq!['"'],
    }
}

/// The full JSON document for a response.
pub open spec fn resp_text(r: RespV) -> Seq<char> {
    match r.body {
        Ok(b) => "{\"id\":"@ + id_text(r.id) + ",\"result\":"@ + b + "}"@,
        Err(e) => "{\"id\":"@ + id_text(r.id) + ",\"error\":{\"code\":"@ + dec_of_int(e.code)
            + ",\"message\":\""@ + escaped(e.message) + "\"}}"@,
    }
}

/// Renders a response as one JSON document.
pub fn encode_response(resp: &Response) -> (r: String)
    ensures
        r@ == resp_text(resp@),
{
    let mut out = String::from_str("{\"id\":");
    proof {
        reveal_strlit("{\"id\":");
    }
    match &resp.id {
        None => {
            out.append("null");
            proof {
                reveal_strlit("null");
            }
        },
        Some(ReqId::Num(n)) => {
            let d = dec_i64(*n);
            out.append(d.as_str());
        },
        Some(ReqId::Str(s)) => {
            out.append("\"");
            let e = escape_json(s.as_str());
            out.append(e.as_str());
            out.append("\"");
            proof {
                reveal_strlit("\"");
                assert(out@ =~= "{\"id\":"@ + id_text(resp@.id));
            }
        },
    }
    proof {
        assert(out@ == "{\"id\":"@ + id_text(resp@.id));
    }
    match &resp.body {
        Ok(body) => {
            out.append(",\"result\":");
            out.append(body.as_str());
            out.append("}");
            proof {
                reveal_strlit(",\"result\":");
                reveal_strlit("}");
                assert(out@ =~= resp_text(resp@));
            }
        },
        Err(e) => {
            out.append(",\"error\":{\"code\":");
            let c = dec_i64(e.code);
            out.append(c.as_str());
            out.append(",\"message\":\"");
            let m = escape_json(e.message.as_str());
            out.append(m.as_str());
            out.append("\"}}");
            proof {
                reveal_strlit(",\"error\":{\"code\":");
                reveal_strlit(",\"message\":\"");
                reveal_strlit("\"}}");
                assert(out@ =~= resp_text(resp@));
            }
        },
    }
    out
}

/// The first value bound to `name` in an arguments object, if any.
pub open spec fn spec_arg(args: Seq<(Seq<char>, ArgV)>, name: Seq<char>) -> Option<ArgV>
    decreases args.len(),
{
    if args.len() == 0 {
        None
    } else if args[0].0 == name {
        Some(args[0].1)
    } else {
        spec_arg(args.drop_first(), name)
    }
}

/// Looks an argument up by name.
pub fn get_arg<'a>(args: &'a Vec<(String, ArgValue)>, name: &str) -> (r: Option<&'a ArgValue>)
    ensures
        match r {
            Some(a) => spec_arg(args_view(args@), name@) == Some(a@),
            None => spec_arg(args_view(args@), name@) is None,
        },
{
    let ghost av = args_view(args@);
    let n = args.len();
    let mut i: usize = 0;
    proof {
        assert(av.skip(0) =~= av);
    }
    while i < n
        invariant
            n == args.len(),
            i <= n,
            av == args_view(args@),
            av.len() == n,
            forall|j: int| 0 <= j < av.len() ==> av[j] == (args@[j].0@, args@[j].1@),
            spec_arg(av, name@) == spec_arg(av.skip(i as int), name@),
        decreases n - i,
    {
        if crate::text::str_is(args[i].0.as_str(), name) {
            proof {
                assert(av.skip(i as int)[0] == av[i as int]);
            }
            return Some(&args[i].1);
        }
        proof {
            assert(av.skip(i as int).drop_first() =~= av.skip(i + 1 as int));
            assert(av.skip(i as int)[0] == av[i as int]);
        }
        i = i + 1;
    }
    proof {
        assert(av.skip(n as int).len() == 0);
    }
    None
}

} // verus!
