//! Echoes a message back, with its byte length and a generation
//! timestamp.

use vstd::prelude::*;
use vstd::string::StringExecFns;
use vstd::string::StringSliceAdditionalSpecFns;
use crate::proto::{ArgV, ArgValue, Tool, ToolV, spec_arg, get_arg};
use crate::text::{dec_of, dec_usize, escape_json, escaped};
use crate::tools::{ToolCtx, ToolError, ToolHandler};

verus! {

/// The byte length of a string's UTF-8 form, as the machine reports it.
pub open spec fn byte_len(m: Seq<char>) -> nat {
    (vstd::utf8::encode_utf8(m).len() as usize) as nat
}

/// The rendered echo result value.
pub open spec fn echo_ok_text(m: Seq<char>, blen: nat, ts: Seq<char>) -> Seq<char> {
    "{\"echo\":\""@ + escaped(m) + "\",\"length\":"@ + dec_of(blen) + ",\"timestamp\":\""@
        + escaped(ts) + "\"}"@
}

/// Echoes a message back.
pub struct EchoTool;

impl ToolHandler for EchoTool {
    open spec fn spec_name(&self) -> Seq<char> {
        "echo"@
    }

    open spec fn spec_def(&self) -> ToolV {
        ToolV {
            name: "echo"@,
            description: "Echo back a message (for testing)"@,
            input_schema: "{\"type\":\"object\",\"properties\":{\"message\":{\"type\":\"string\",\"description\":\"The message to echo back\"}},\"required\":[\"message\"]}"@,
        }
    }

    open spec fn execute_post(
        &self,
        args: Seq<(Seq<char>, ArgV)>,
        pre: ToolCtx,
        post: ToolCtx,
        r: Result<Seq<char>, Seq<char>>,
    ) -> bool {
        post == pre && match spec_arg(args, "message"@) {
            Some(ArgV::Str(m)) => if m.len() == 0 {
                r == Err::<Seq<char>, Seq<char>>("Message is required"@)
            } else {
                exists|ts: Seq<char>|
                    r == Ok::<Seq<char>, Seq<char>>(
                        echo_ok_text(m, byte_len(m), ts),
                    )
            },
            _ => r == Err::<Seq<char>, Seq<char>>("Invalid arguments: message is required"@),
        }
    }

    fn definition(&self) -> (t: Tool) {
        Tool {
            name: String::from_str("echo"),
            description: String::from_str("Echo back a message (for testing)"),
            input_schema: String::from_str(
                "{\"type\":\"object\",\"properties\":{\"message\":{\"type\":\"string\",\"description\":\"The message to echo back\"}},\"required\":[\"message\"]}",
            ),
        }
    }

    fn execute(&self, args: &Vec<(String, ArgValue)>, ctx: &mut ToolCtx) -> (r: Result<
        String,
        ToolError,
    >) {
        match get_arg(args, "message") {
            Some(ArgValue::Str(m)) => {
                if m.as_str().is_empty() {
                    Err(ToolError { message: String::from_str("Message is required") })
                } else {
                    let ts = crate::clock::now_rfc3339();
                    let mut s = String::from_str("{\"echo\":\"");
                    let em = escape_json(m.as_str());
                    s.append(em.as_str());
                    s.append("\",\"length\":");
                    let dl = dec_usize(m.as_str().len());
                    s.append(dl.as_str());
                    s.append(",\"timestamp\":\"");
                    let ets = escape_json(ts.as_str());
                    s.append(ets.as_str());
                    s.append("\"}");
                    proof {
                        reveal_strlit("{\"echo\":\"");
                        reveal_strlit("\",\"length\":");
                        reveal_strlit(",\"timestamp\":\"");
                        reveal_strlit("\"}");
                        assert(s@ =~= echo_ok_text(m@, byte_len(m@), ts@));
                    }
                    Ok(s)
                }
            },
            _ => Err(ToolError { message: String::from_str("Invalid arguments: message is required") }),
        }
    }
}

} // verus!
