//! Reports facts about the host and the running server: platform,
//! architecture, toolchain, uptime since engine start, server identity
//! and a timestamp.

use vstd::prelude::*;
use vstd::string::StringExecFns;
use crate::proto::{ArgV, ArgValue, Tool, ToolV};
use crate::text::{dec_of, dec_u64, escape_json, escaped};
use crate::tools::{ToolCtx, ToolError, ToolHandler};

verus! {

/// The rendered system information result value.
pub open spec fn sysinfo_text(
    platform: Seq<char>,
    arch: Seq<char>,
    rustv: Seq<char>,
    up_ms: nat,
    ts: Seq<char>,
) -> Seq<char> {
    "{\"platform\":\""@ + escaped(platform) + "\",\"architecture\":\""@ + escaped(arch)
        + "\",\"rustVersion\":\""@ + escaped(rustv) + "\",\"uptime\":\""@ + dec_of(up_ms)
        + "ms\",\"serverType\":\"Rust MCP Server\",\"timestamp\":\""@ + escaped(ts) + "\"}"@
}

/// Reports host and server facts.
pub struct SystemInfoTool;

impl ToolHandler for SystemInfoTool {
    open spec fn spec_name(&self) -> Seq<char> {
        "system_info"@
    }

    open spec fn spec_def(&self) -> ToolV {
        ToolV {
            name: "system_info"@,
            description: "Get system information about the Rust runtime"@,
            input_schema: "{\"type\":\"object\",\"properties\":{}}"@,
        }
    }

    open spec fn execute_post(
        &self,
        args: Seq<(Seq<char>, ArgV)>,
        pre: ToolCtx,
        post: ToolCtx,
        r: Result<Seq<char>, Seq<char>>,
    ) -> bool {
        post == pre && exists|up_ms: nat, ts: Seq<char>|
            r == Ok::<Seq<char>, Seq<char>>(
                sysinfo_text(pre.platform@, pre.architecture@, pre.rust_version@, up_ms, ts),
            )
    }

    fn definition(&self) -> (t: Tool) {
        Tool {
            name: String::from_str("system_info"),
            description: String::from_str("Get system information about the Rust runtime"),
            input_schema: String::from_str("{\"type\":\"object\",\"properties\":{}}"),
        }
    }

    fn execute(&self, args: &Vec<(String, ArgValue)>, ctx: &mut ToolCtx) -> (r: Result<
        String,
        ToolError,
    >) {
        let t = crate::clock::now_millis();
        let now_ms: u64 = if t < 0 {
            0
        } else {
            t as u64
        };
        let up: u64 = if now_ms >= ctx.start_ms {
            now_ms - ctx.start_ms
        } else {
            0
        };
        let ts = crate::clock::now_rfc3339();
        let mut s = String::from_str("{\"platform\":\"");
        let ep = escape_json(ctx.platform.as_str());
        s.append(ep.as_str());
        s.append("\",\"architecture\":\"");
        let ea = escape_json(ctx.architecture.as_str());
        s.append(ea.as_str());
        s.append("\",\"rustVersion\":\"");
        let er = escape_json(ctx.rust_version.as_str());
        s.append(er.as_str());
        s.append("\",\"uptime\":\"");
        let du = dec_u64(up);
        s.append(du.as_str());
        s.append("ms\",\"serverType\":\"Rust MCP Server\",\"timestamp\":\"");
        let ets = escape_json(ts.as_str());
        s.append(ets.as_str());
        s.append("\"}");
        proof {
            reveal_strlit("{\"platform\":\"");
            reveal_strlit("\",\"architecture\":\"");
            reveal_strlit("\",\"rustVersion\":\"");
            reveal_strlit("\",\"uptime\":\"");
            reveal_strlit("ms\",\"serverType\":\"Rust MCP Server\",\"timestamp\":\"");
            reveal_strlit("\"}");
            assert(s@ =~= sysinfo_text(
                ctx.platform@,
                ctx.architecture@,
                ctx.rust_version@,
                up as nat,
                ts@,
            ));
        }
        Ok(s)
    }
}

} // verus!
