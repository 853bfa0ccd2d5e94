//! The protocol engine: owns the registry, the session flag and the tool
//! context; routes one decoded request to its handler and produces a
//! response, or none for a notification. The per-method behaviour is
//! pinned by `dispatch`'s contract.

use vstd::prelude::*;
use vstd::string::StringExecFns;
use crate::proto::{
    CODE_INVALID_PARAMS, CODE_METHOD_NOT_FOUND, CODE_NOT_INITIALIZED, CODE_TOOL_EXECUTION,
    CODE_TOOL_NOT_FOUND, ErrBody, ErrV, IdV, ParamsV, Params, ReqV, Request, RespV, Response,
    ToolV, encode_response, id_view, resp_text,
};
use crate::registry::Registry;
use crate::store::KvStore;
use crate::text::{escape_json, escaped, str_is};
use crate::tools::{ToolCtx, ToolKind, all_tool_defs, kind_name, kind_post, res_view, run_tool};
use crate::wire::{RequestError, decoded_request, parse_request};

verus! {

/// The fixed result of `initialize`: protocol version, capabilities
/// advertising tool support, and the server's identity.
pub open spec fn init_result_text() -> Seq<char> {
    "{\"protocolVersion\":\"2024-11-05\",\"capabilities\":{\"tools\":{}},\"serverInfo\":{\"name\":\"rust-mcp-server\",\"version\":\"1.0.0\"}}"@
}

/// The fixed acknowledgment of `ping`.
pub open spec fn ping_result_text() -> Seq<char> {
    "{\"status\":\"ok\"}"@
}

/// One tool definition as it is listed.
pub open spec fn tool_def_text(t: ToolV) -> Seq<char> {
    "{\"name\":\""@ + escaped(t.name) + "\",\"description\":\""@ + escaped(t.description)
        + "\",\"inputSchema\":"@ + t.input_schema + "}"@
}

/// The comma-separated body of the listed definitions.
pub open spec fn defs_joined(ds: Seq<ToolV>) -> Seq<char>
    decreases ds.len(),
{
    if ds.len() == 0 {
        Seq::empty()
    } else if ds.len() == 1 {
        tool_def_text(ds[0])
    } else {
        defs_joined(ds.drop_last()) + ","@ + tool_def_text(ds.last())
    }
}

/// The result of `tools/list`.
pub open spec fn list_result_text(ds: Seq<ToolV>) -> Seq<char> {
    "{\"tools\":["@ + defs_joined(ds) + "]}"@
}

/// A tool's rendered output wrapped as the single text-content item that
/// crosses the wire.
pub open spec fn call_wrap_text(t: Seq<char>) -> Seq<char> {
    "{\"content\":[{\"type\":\"text\",\"text\":\""@ + escaped(t) + "\"}]}"@
}

/// The not-initialized protocol error.
pub open spec fn not_init_err() -> ErrV {
    ErrV { code: CODE_NOT_INITIALIZED as int, message: "Server not initialized"@ }
}

/// The session flag after one request: only the `initialized`
/// notification flips it, and nothing clears it.
pub open spec fn flag_after(init: bool, method: Seq<char>) -> bool {
    if method == "initialized"@ {
        true
    } else {
        init
    }
}

/// The methods the engine routes; anything else is method-not-found.
pub open spec fn known_method(m: Seq<char>) -> bool {
    m == "initialize"@ || m == "initialized"@ || m == "tools/list"@ || m == "tools/call"@ || m
        == "ping"@
}

/// How a tool outcome becomes a response: success is wrapped, failure
/// becomes a tool-execution error carrying the tool's message.
pub open spec fn call_outcome_resp(id: Option<IdV>, tr: Result<Seq<char>, Seq<char>>) -> RespV {
    match tr {
        Ok(t) => RespV { id, body: Ok(call_wrap_text(t)) },
        Err(m) => RespV {
            id,
            body: Err(
                ErrV {
                    code: CODE_TOOL_EXECUTION as int,
                    message: "Tool execution error: "@ + m,
                },
            ),
        },
    }
}

/// The view of an optional response.
pub open spec fn opt_resp_view(r: Option<Response>) -> Option<RespV> {
    match r {
        None => None,
        Some(x) => Some(x@),
    }
}

/// Host facts the engine is constructed with; the engine itself cannot
/// read the environment.
pub struct HostInfo {
    pub platform: String,
    pub architecture: String,
    pub rust_version: String,
}

/// The protocol engine.
pub struct McpServer {
    pub registry: Registry,
    pub initialized: bool,
    pub ctx: ToolCtx,
}

/// Everything `tools/call` guarantees: gating on the session flag, exact
/// errors for missing parameters and unknown tools (no handler runs and
/// nothing changes), and for a registered tool exactly the wrapped
/// outcome that the tool's own contract admits.
pub open spec fn call_post(
    pre: McpServer,
    post: McpServer,
    id: Option<IdV>,
    params: Option<ParamsV>,
    rv: RespV,
) -> bool {
    &&& post.initialized == pre.initialized
    &&& post.registry == pre.registry
    &&& pre.ctx.same_host(post.ctx)
    &&& if !pre.initialized {
        post == pre && rv == RespV { id, body: Err(not_init_err()) }
    } else {
        match params {
            Some(ParamsV::Call { name, arguments }) => match pre.registry.spec_lookup(name) {
                None => post == pre && rv == RespV {
                    id,
                    body: Err(
                        ErrV {
                            code: CODE_TOOL_NOT_FOUND as int,
                            message: "Tool not found: "@ + name,
                        },
                    ),
                },
                Some(k) => exists|tr: Result<Seq<char>, Seq<char>>|
                    kind_post(k, arguments, pre.ctx, post.ctx, tr) && rv == call_outcome_resp(
                        id,
                        tr,
                    ),
            },
            _ => post == pre && rv == RespV {
                id,
                body: Err(
                    ErrV { code: CODE_INVALID_PARAMS as int, message: "Invalid params"@ },
                ),
            },
        }
    }
}

/// Everything one routed request guarantees: the registry and host
/// facts are kept, the session flag follows `flag_after`, and each
/// method's response and state change are pinned.
pub open spec fn dispatch_post(pre: McpServer, post: McpServer, q: ReqV, r: Option<RespV>) -> bool {
    &&& post.registry == pre.registry
    &&& pre.ctx.same_host(post.ctx)
    &&& post.initialized == flag_after(pre.initialized, q.method)
    &&& (q.method == "initialize"@ ==> post.ctx == pre.ctx && r == Some(
        RespV { id: q.id, body: Ok(init_result_text()) },
    ))
    &&& (q.method == "initialized"@ ==> r is None && post.ctx == pre.ctx)
    &&& (q.method == "ping"@ ==> post == pre && r == Some(
        RespV { id: q.id, body: Ok(ping_result_text()) },
    ))
    &&& (q.method == "tools/list"@ ==> post == pre && r == Some(pre.list_resp(q.id)))
    &&& (q.method == "tools/call"@ ==> (r matches Some(resp) && call_post(
        pre,
        post,
        q.id,
        q.params,
        resp,
    )))
    &&& (!known_method(q.method) ==> post == pre && r == Some(
        RespV {
            id: q.id,
            body: Err(
                ErrV {
                    code: CODE_METHOD_NOT_FOUND as int,
                    message: "Method not found: "@ + q.method,
                },
            ),
        },
    ))
}

/// The view of an emitted wire text.
pub open spec fn opt_str_view(o: Option<String>) -> Option<Seq<char>> {
    match o {
        None => None,
        Some(t) => Some(t@),
    }
}

/// True when the emitted text is exactly the encoding of the routed
/// response: nothing for a notification, the rendered document
/// otherwise.
pub open spec fn encodes(rv: Option<RespV>, out: Option<Seq<char>>) -> bool {
    match (rv, out) {
        (None, None) => true,
        (Some(x), Some(t)) => t == resp_text(x),
        _ => false,
    }
}

impl McpServer {
    /// The engine's invariant: a well-formed registry and store.
    pub open spec fn wf(self) -> bool {
        self.registry.wf() && self.ctx.wf()
    }

    /// A fresh engine: the fixed registry, an uninitialized session, an
    /// empty store, and the given host facts.
    pub fn new(host: HostInfo) -> (r: McpServer)
        ensures
            r.wf(),
            !r.initialized,
            r.registry.spec_defs() == all_tool_defs(),
            forall|k: ToolKind| r.registry.spec_lookup(kind_name(k)) == Some(k),
            r.ctx.store.spec_len() == 0,
            forall|k: Seq<char>| r.ctx.store.spec_get(k) is None,
            r.ctx.platform == host.platform,
            r.ctx.architecture == host.architecture,
            r.ctx.rust_version == host.rust_version,
    {
        let t = crate::clock::now_millis();
        let start: u64 = if t < 0 {
            0
        } else {
            t as u64
        };
        McpServer {
            registry: Registry::new(),
            initialized: false,
            ctx: ToolCtx {
                store: KvStore::new(),
                platform: host.platform,
                architecture: host.architecture,
                rust_version: host.rust_version,
                start_ms: start,
            },
        }
    }

    /// `initialize`: always succeeds with the fixed capabilities result;
    /// the session flag does not flip here.
    pub fn handle_initialize(&mut self, request: Request) -> (r: Response)
        ensures
            *final(self) == *old(self),
            r@ == (RespV { id: id_view(request.id), body: Ok(init_result_text()) }),
    {
        Response {
            id: request.id,
            body: Ok(
                String::from_str(
                    "{\"protocolVersion\":\"2024-11-05\",\"capabilities\":{\"tools\":{}},\"serverInfo\":{\"name\":\"rust-mcp-server\",\"version\":\"1.0.0\"}}",
                ),
            ),
        }
    }

    /// `initialized`: a notification; flips the session flag and emits
    /// nothing.
    pub fn handle_initialized(&mut self, _request: Request)
        ensures
            final(self).initialized,
            final(self).registry == old(self).registry,
            final(self).ctx == old(self).ctx,
    {
        self.initialized = true;
    }

    /// `ping`: the same fixed acknowledgment whatever the session state.
    pub fn handle_ping(&self, request: Request) -> (r: Response)
        ensures
            r@ == (RespV { id: id_view(request.id), body: Ok(ping_result_text()) }),
    {
        Response { id: request.id, body: Ok(String::from_str("{\"status\":\"ok\"}")) }
    }

    /// The response `tools/list` owes: the not-initialized error before
    /// the handshake, every registered definition after it.
    pub open spec fn list_resp(self, id: Option<IdV>) -> RespV {
        if !self.initialized {
            RespV { id, body: Err(not_init_err()) }
        } else {
            RespV { id, body: Ok(list_result_text(self.registry.spec_defs())) }
        }
    }

    /// `tools/list`: requires the session to be initialized; lists all
    /// registry definitions.
    pub fn handle_list_tools(&self, request: Request) -> (r: Response)
        requires
            self.wf(),
        ensures
            r@ == self.list_resp(id_view(request.id)),
    {
        if !self.initialized {
            return Response {
                id: request.id,
                body: Err(
                    ErrBody {
                        code: CODE_NOT_INITIALIZED,
                        message: String::from_str("Server not initialized"),
                    },
                ),
            };
        }
        let defs = self.registry.list();
        let ghost dv = self.registry.spec_defs();
        let mut s = String::from_str("{\"tools\":[");
        let n = defs.len();
        let mut i: usize = 0;
        proof {
            assert(dv.take(0) =~= Seq::<ToolV>::empty());
        }
        while i < n
            invariant
                n == defs.len(),
                i <= n,
                dv.len() == n,
                forall|j: int| 0 <= j < n ==> defs@[j]@ == dv[j],
                s@ == "{\"tools\":["@ + defs_joined(dv.take(i as int)),
            decreases n - i,
        {
            if i > 0 {
                s.append(",");
            }
            s.append("{\"name\":\"");
            let en = escape_json(defs[i].name.as_str());
            s.append(en.as_str());
            s.append("\",\"description\":\"");
            let ed = escape_json(defs[i].description.as_str());
            s.append(ed.as_str());
            s.append("\",\"inputSchema\":");
            s.append(defs[i].input_schema.as_str());
            s.append("}");
            proof {
                reveal_strlit(",");
                reveal_strlit("{\"name\":\"");
                reveal_strlit("\",\"description\":\"");
                reveal_strlit("\",\"inputSchema\":");
                reveal_strlit("}");
                assert(dv.take(i + 1 as int).drop_last() =~= dv.take(i as int));
                assert(dv.take(i + 1 as int).last() == dv[i as int]);
                assert(s@ =~= "{\"tools\":["@ + defs_joined(dv.take(i + 1 as int)));
            }
            i = i + 1;
        }
        s.append("]}");
        proof {
            reveal_strlit("{\"tools\":[");
            reveal_strlit("]}");
            assert(dv.take(n as int) =~= dv);
            assert(s@ =~= list_result_text(dv));
        }
        Response { id: request.id, body: Ok(s) }
    }

    /// `tools/call`: requires the session to be initialized and a
    /// `{name, arguments}` parameter shape; an unregistered name yields
    /// the tool-not-found error without executing anything; a handler
    /// failure becomes a structured error; a handler success is wrapped
    /// as one text-content item.
    pub fn handle_call_tool(&mut self, request: Request) -> (r: Response)
        requires
            old(self).wf(),
        ensures
            final(self).wf(),
            call_post(*old(self), *final(self), id_view(request.id), request@.params, r@),
    {
        if !self.initialized {
            return Response {
                id: request.id,
                body: Err(
                    ErrBody {
                        code: CODE_NOT_INITIALIZED,
                        message: String::from_str("Server not initialized"),
                    },
                ),
            };
        }
        match request.params {
            Some(Params::Call { name, arguments }) => {
                match self.registry.lookup(name.as_str()) {
                    None => {
                        let mut m = String::from_str("Tool not found: ");
                        m.append(name.as_str());
                        Response {
                            id: request.id,
                            body: Err(ErrBody { code: CODE_TOOL_NOT_FOUND, message: m }),
                        }
                    },
                    Some(k) => {
                        let out = run_tool(k, &arguments, &mut self.ctx);
                        let ghost tr = res_view(out);
                        let resp = match out {
                            Ok(t) => {
                                let mut s = String::from_str(
                                    "{\"content\":[{\"type\":\"text\",\"text\":\"",
                                );
                                let et = escape_json(t.as_str());
                                s.append(et.as_str());
                                s.append("\"}]}");
                                proof {
                                    reveal_strlit("{\"content\":[{\"type\":\"text\",\"text\":\"");
                                    reveal_strlit("\"}]}");
                                    assert(s@ =~= call_wrap_text(t@));
                                }
                                Response { id: request.id, body: Ok(s) }
                            },
                            Err(e) => {
                                let mut m = String::from_str("Tool execution error: ");
                                m.append(e.message.as_str());
                                Response {
                                    id: request.id,
                                    body: Err(ErrBody { code: CODE_TOOL_EXECUTION, message: m }),
                                }
                            },
                        };
                        proof {
                            assert(resp@ == call_outcome_resp(id_view(request.id), tr));
                            assert(kind_post(
                                k,
                                crate::proto::args_view(arguments@),
                                old(self).ctx,
                                self.ctx,
                                tr,
                            ) && resp@ == call_outcome_resp(id_view(request.id), tr));
                        }
                        resp
                    },
                }
            },
            _ => Response {
                id: request.id,
                body: Err(
                    ErrBody {
                        code: CODE_INVALID_PARAMS,
                        message: String::from_str("Invalid params"),
                    },
                ),
            },
        }
    }

    /// Routes one decoded request: the notification produces nothing,
    /// every other method produces exactly the response its handler owes,
    /// and an unknown method the method-not-found error.
    pub fn dispatch(&mut self, request: Request) -> (r: Option<Response>)
        requires
            old(self).wf(),
        ensures
            final(self).wf(),
            old(self).initialized ==> final(self).initialized,
            dispatch_post(*old(self), *final(self), request@, opt_resp_view(r)),
    {
        proof {
            reveal_strlit("initialize");
            reveal_strlit("initialized");
            reveal_strlit("tools/list");
            reveal_strlit("tools/call");
            reveal_strlit("ping");
            assert("initialize"@[0] != "tools/list"@[0]);
            assert("initialize"@[0] != "tools/call"@[0]);
            assert("tools/list"@[6] != "tools/call"@[6]);
        }
        if str_is(request.method.as_str(), "initialize") {
            Some(self.handle_initialize(request))
        } else if str_is(request.method.as_str(), "initialized") {
            self.handle_initialized(request);
            None
        } else if str_is(request.method.as_str(), "tools/list") {
            Some(self.handle_list_tools(request))
        } else if str_is(request.method.as_str(), "tools/call") {
            Some(self.handle_call_tool(request))
        } else if str_is(request.method.as_str(), "ping") {
            Some(self.handle_ping(request))
        } else {
            let mut m = String::from_str("Method not found: ");
            m.append(request.method.as_str());
            Some(
                Response {
                    id: request.id,
                    body: Err(ErrBody { code: CODE_METHOD_NOT_FOUND, message: m }),
                },
            )
        }
    }

    /// Handles one raw request: parse, route, encode. A body that cannot
    /// be parsed into a request is surfaced to the transport as an error
    /// and leaves the engine untouched; the routing itself is pinned by
    /// `dispatch`'s contract.
    pub fn handle_request(&mut self, request_data: &str) -> (r: Result<
        Option<String>,
        RequestError,
    >)
        requires
            old(self).wf(),
        ensures
            final(self).wf(),
            final(self).registry == old(self).registry,
            old(self).ctx.same_host(final(self).ctx),
            old(self).initialized ==> final(self).initialized,
            (r matches Err(_)) <==> (decoded_request(request_data@) is None),
            r matches Err(_) ==> *final(self) == *old(self),
            decoded_request(request_data@) matches Some(q) ==> (r matches Ok(o) && exists|
                rv: Option<RespV>,
            |
                dispatch_post(*old(self), *final(self), q, rv) && encodes(rv, opt_str_view(o))),
    {
        match parse_request(request_data) {
            Err(e) => Err(e),
            Ok(req) => {
                let out = self.dispatch(req);
                let ghost rv = opt_resp_view(out);
                match out {
                    None => {
                        proof {
                            assert(dispatch_post(*old(self), *self, req@, rv) && encodes(
                                rv,
                                opt_str_view(None::<String>),
                            ));
                        }
                        Ok(None)
                    },
                    Some(resp) => {
                        let t = encode_response(&resp);
                        proof {
                            assert(dispatch_post(*old(self), *self, req@, rv) && encodes(
                                rv,
                                opt_str_view(Some(t)),
                            ));
                        }
                        Ok(Some(t))
                    },
                }
            },
        }
    }
}

impl Default for McpServer {
    /// A fresh engine that knows nothing of its host.
    fn default() -> (r: McpServer)
        ensures
            r.wf(),
            !r.initialized,
            r.registry.spec_defs() == all_tool_defs(),
            forall|k: ToolKind| r.registry.spec_lookup(kind_name(k)) == Some(k),
    {
        McpServer::new(
            HostInfo {
                platform: String::from_str("unknown"),
                architecture: String::from_str("unknown"),
                rust_version: String::from_str("unknown"),
            },
        )
    }
}

/// After the full handshake — `initialize`, then the `initialized`
/// notification — the session flag is set, and before it the flag is
/// still clear, so `tools/list` fails with the not-initialized error
/// before the handshake and succeeds after it.
pub proof fn lemma_handshake_initializes()
    ensures
        flag_after(false, "initialize"@) == false,
        flag_after(flag_after(false, "initialize"@), "initialized"@) == true,
{
    reveal_strlit("initialize");
    reveal_strlit("initialized");
    assert("initialize"@.len() == 10);
    assert("initialized"@.len() == 11);
}

/// Once a session is initialized it stays initialized: no method clears
/// the flag.
pub proof fn lemma_flag_is_monotone(m: Seq<char>)
    ensures
        flag_after(true, m) == true,
{
}

} // verus!


