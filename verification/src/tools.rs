//! The closed set of tools the server exposes, the contract every tool
//! satisfies, and the context a tool invocation runs against.

pub mod calculator;
pub mod echo;
pub mod storage;
pub mod system;

use vstd::prelude::*;
use crate::proto::{ArgV, ArgValue, Tool, ToolV, args_view};
use crate::store::KvStore;

verus! {

/// What a tool invocation can reach: the shared key/value store and the
/// host facts the engine was constructed with. Handed in explicitly so a
/// fresh engine has a fresh store.
pub struct ToolCtx {
    pub store: KvStore,
    pub platform: String,
    pub architecture: String,
    pub rust_version: String,
    pub start_ms: u64,
}

impl ToolCtx {
    /// The store's own invariant.
    pub open spec fn wf(self) -> bool {
        self.store.wf()
    }

    /// True when everything but the store is unchanged.
    pub open spec fn same_host(self, other: ToolCtx) -> bool {
        self.platform == other.platform && self.architecture == other.architecture
            && self.rust_version == other.rust_version && self.start_ms == other.start_ms
    }
}

/// A tool's failure: a descriptive message, never a crash.
#[derive(Debug)]
pub struct ToolError {
    pub message: String,
}

/// The spec-level shape of a tool's outcome: the rendered result value on
/// success, the failure message otherwise.
pub open spec fn res_view(r: Result<String, ToolError>) -> Result<Seq<char>, Seq<char>> {
    match r {
        Ok(s) => Ok(s@),
        Err(e) => Err(e.message@),
    }
}

/// The interface every tool satisfies: immutable metadata, and an
/// execution whose effect each implementation pins down in its
/// `execute_post`.
pub trait ToolHandler: Sized {
    /// The tool's registered name.
    spec fn spec_name(&self) -> Seq<char>;

    /// The tool's full metadata, pinned at the spec level.
    spec fn spec_def(&self) -> ToolV;

    /// Exactly what one invocation does: how the outcome and the new
    /// context relate to the arguments and the old context.
    spec fn execute_post(
        &self,
        args: Seq<(Seq<char>, ArgV)>,
        pre: ToolCtx,
        post: ToolCtx,
        r: Result<Seq<char>, Seq<char>>,
    ) -> bool;

    /// The tool's immutable metadata; its name is the registered name.
    fn definition(&self) -> (t: Tool)
        ensures
            t@ == self.spec_def(),
            t@.name == self.spec_name(),
    ;

    /// Runs the tool. Malformed arguments and business-rule violations
    /// come back as errors, never as a panic.
    fn execute(&self, args: &Vec<(String, ArgValue)>, ctx: &mut ToolCtx) -> (r: Result<
        String,
        ToolError,
    >)
        requires
            old(ctx).wf(),
        ensures
            final(ctx).wf(),
            self.execute_post(args_view(args@), *old(ctx), *final(ctx), res_view(r)),
    ;
}

/// The closed, static set of tools, as a tag per tool.
#[derive(Clone, Copy, Debug, PartialEq, Eq, Structural)]
pub enum ToolKind {
    Calculator,
    StorageSet,
    StorageGet,
    StorageDelete,
    StorageList,
    SystemInfo,
    Echo,
}

/// The registered name of each tool.
pub open spec fn kind_name(k: ToolKind) -> Seq<char> {
    match k {
        ToolKind::Calculator => "calculator"@,
        ToolKind::StorageSet => "storage_set"@,
        ToolKind::StorageGet => "storage_get"@,
        ToolKind::StorageDelete => "storage_delete"@,
        ToolKind::StorageList => "storage_list"@,
        ToolKind::SystemInfo => "system_info"@,
        ToolKind::Echo => "echo"@,
    }
}

/// The full metadata of each tool.
pub open spec fn kind_def(k: ToolKind) -> ToolV {
    match k {
        ToolKind::Calculator => (calculator::CalculatorTool {}).spec_def(),
        ToolKind::StorageSet => (storage::StorageSetTool {}).spec_def(),
        ToolKind::StorageGet => (storage::StorageGetTool {}).spec_def(),
        ToolKind::StorageDelete => (storage::StorageDeleteTool {}).spec_def(),
        ToolKind::StorageList => (storage::StorageListTool {}).spec_def(),
        ToolKind::SystemInfo => (system::SystemInfoTool {}).spec_def(),
        ToolKind::Echo => (echo::EchoTool {}).spec_def(),
    }
}

/// The fixed tool list, in registration order.
pub open spec fn all_tool_kinds() -> Seq<ToolKind> {
    seq![
        ToolKind::Calculator,
        ToolKind::StorageSet,
        ToolKind::StorageGet,
        ToolKind::StorageDelete,
        ToolKind::StorageList,
        ToolKind::SystemInfo,
        ToolKind::Echo,
    ]
}

/// How the fixed list reads position by position.
pub proof fn lemma_all_tools_indexed()
    ensures
        all_tool_kinds().len() == 7,
        all_tool_defs().len() == 7,
        forall|j: int| 0 <= j < 7 ==> all_tool_defs()[j] == kind_def(#[trigger] all_tool_kinds()[j]),
        forall|a: int, b: int|
            0 <= a < 7 && 0 <= b < 7 && a != b ==> all_tool_kinds()[a] != all_tool_kinds()[b],
{
    assert(all_tool_kinds()[0] == ToolKind::Calculator);
    assert(all_tool_kinds()[1] == ToolKind::StorageSet);
    assert(all_tool_kinds()[2] == ToolKind::StorageGet);
    assert(all_tool_kinds()[3] == ToolKind::StorageDelete);
    assert(all_tool_kinds()[4] == ToolKind::StorageList);
    assert(all_tool_kinds()[5] == ToolKind::SystemInfo);
    assert(all_tool_kinds()[6] == ToolKind::Echo);
    assert(all_tool_defs()[0] == kind_def(ToolKind::Calculator));
    assert(all_tool_defs()[1] == kind_def(ToolKind::StorageSet));
    assert(all_tool_defs()[2] == kind_def(ToolKind::StorageGet));
    assert(all_tool_defs()[3] == kind_def(ToolKind::StorageDelete));
    assert(all_tool_defs()[4] == kind_def(ToolKind::StorageList));
    assert(all_tool_defs()[5] == kind_def(ToolKind::SystemInfo));
    assert(all_tool_defs()[6] == kind_def(ToolKind::Echo));
}

/// The definitions of the fixed tool list, in registration order.
pub open spec fn all_tool_defs() -> Seq<ToolV> {
    seq![
        kind_def(ToolKind::Calculator),
        kind_def(ToolKind::StorageSet),
        kind_def(ToolKind::StorageGet),
        kind_def(ToolKind::StorageDelete),
        kind_def(ToolKind::StorageList),
        kind_def(ToolKind::SystemInfo),
        kind_def(ToolKind::Echo),
    ]
}

/// Each tool is registered under its own definition's name.
pub proof fn lemma_kind_def_name(k: ToolKind)
    ensures
        kind_def(k).name == kind_name(k),
{
}

/// Different tools carry different names.
pub proof fn lemma_kind_names_distinct(k1: ToolKind, k2: ToolKind)
    requires
        k1 != k2,
    ensures
        kind_name(k1) != kind_name(k2),
{
    reveal_strlit("calculator");
    reveal_strlit("storage_set");
    reveal_strlit("storage_get");
    reveal_strlit("storage_delete");
    reveal_strlit("storage_list");
    reveal_strlit("system_info");
    reveal_strlit("echo");
    assert("calculator"@.len() == 10);
    assert("storage_set"@.len() == 11);
    assert("storage_get"@.len() == 11);
    assert("storage_delete"@.len() == 14);
    assert("storage_list"@.len() == 12);
    assert("system_info"@.len() == 11);
    assert("echo"@.len() == 4);
    assert("storage_set"@[8] != "storage_get"@[8]);
    assert("storage_set"@[1] != "system_info"@[1]);
    assert("storage_get"@[1] != "system_info"@[1]);
}

/// A definition identifies its tool: the names alone already differ.
pub proof fn lemma_kind_def_injective(k1: ToolKind, k2: ToolKind)
    requires
        kind_def(k1) == kind_def(k2),
    ensures
        k1 == k2,
{
    if k1 != k2 {
        lemma_kind_names_distinct(k1, k2);
        lemma_kind_def_name(k1);
        lemma_kind_def_name(k2);
    }
}

/// What running a given tool guarantees, dispatched over the closed set.
pub open spec fn kind_post(
    k: ToolKind,
    args: Seq<(Seq<char>, ArgV)>,
    pre: ToolCtx,
    post: ToolCtx,
    r: Result<Seq<char>, Seq<char>>,
) -> bool {
    match k {
        ToolKind::Calculator => (calculator::CalculatorTool {}).execute_post(args, pre, post, r),
        ToolKind::StorageSet => (storage::StorageSetTool {}).execute_post(args, pre, post, r),
        ToolKind::StorageGet => (storage::StorageGetTool {}).execute_post(args, pre, post, r),
        ToolKind::StorageDelete => (storage::StorageDeleteTool {}).execute_post(
            args,
            pre,
            post,
            r,
        ),
        ToolKind::StorageList => (storage::StorageListTool {}).execute_post(args, pre, post, r),
        ToolKind::SystemInfo => (system::SystemInfoTool {}).execute_post(args, pre, post, r),
        ToolKind::Echo => (echo::EchoTool {}).execute_post(args, pre, post, r),
    }
}

/// The fixed list of tools the registry is built from, in registration
/// order.
pub fn get_all_tools() -> (r: Vec<ToolKind>)
    ensures
        r@ == all_tool_kinds(),
{
    let mut v: Vec<ToolKind> = Vec::new();
    v.push(ToolKind::Calculator);
    v.push(ToolKind::StorageSet);
    v.push(ToolKind::StorageGet);
    v.push(ToolKind::StorageDelete);
    v.push(ToolKind::StorageList);
    v.push(ToolKind::SystemInfo);
    v.push(ToolKind::Echo);
    proof {
        assert(v@ =~= all_tool_kinds());
    }
    v
}

/// The metadata of a tool given by its tag.
pub fn definition_of(k: ToolKind) -> (t: Tool)
    ensures
        t@ == kind_def(k),
        t@.name == kind_name(k),
{
    match k {
        ToolKind::Calculator => (calculator::CalculatorTool {}).definition(),
        ToolKind::StorageSet => (storage::StorageSetTool {}).definition(),
        ToolKind::StorageGet => (storage::StorageGetTool {}).definition(),
        ToolKind::StorageDelete => (storage::StorageDeleteTool {}).definition(),
        ToolKind::StorageList => (storage::StorageListTool {}).definition(),
        ToolKind::SystemInfo => (system::SystemInfoTool {}).definition(),
        ToolKind::Echo => (echo::EchoTool {}).definition(),
    }
}

/// Runs the tool given by its tag.
pub fn run_tool(k: ToolKind, args: &Vec<(String, ArgValue)>, ctx: &mut ToolCtx) -> (r: Result<
    String,
    ToolError,
>)
    requires
        old(ctx).wf(),
    ensures
        final(ctx).wf(),
        old(ctx).same_host(*final(ctx)),
        kind_post(k, args_view(args@), *old(ctx), *final(ctx), res_view(r)),
{
    match k {
        ToolKind::Calculator => (calculator::CalculatorTool {}).execute(args, ctx),
        ToolKind::StorageSet => (storage::StorageSetTool {}).execute(args, ctx),
        ToolKind::StorageGet => (storage::StorageGetTool {}).execute(args, ctx),
        ToolKind::StorageDelete => (storage::StorageDeleteTool {}).execute(args, ctx),
        ToolKind::StorageList => (storage::StorageListTool {}).execute(args, ctx),
        ToolKind::SystemInfo => (system::SystemInfoTool {}).execute(args, ctx),
        ToolKind::Echo => (echo::EchoTool {}).execute(args, ctx),
    }
}

} // verus!
