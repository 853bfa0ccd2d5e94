//! The storage tools: set, get, delete and list over the shared
//! key/value store. Writes go through the store's exclusive access;
//! reads leave it untouched.

use vstd::prelude::*;
use vstd::string::StringExecFns;
use crate::proto::{ArgV, ArgValue, Tool, ToolV, spec_arg, get_arg};
use crate::text::{dec_of, dec_usize, escape_json, escaped};
use crate::tools::{ToolCtx, ToolError, ToolHandler};

verus! {

/// The rendered confirmation for a successful set.
pub open spec fn set_ok_text(k: Seq<char>) -> Seq<char> {
    "{\"success\":true,\"message\":\"Stored value for key '"@ + escaped(k) + "'\"}"@
}

/// The rendered result for a get that found the key.
pub open spec fn get_found_text(k: Seq<char>, v: Seq<char>) -> Seq<char> {
    "{\"found\":true,\"key\":\""@ + escaped(k) + "\",\"value\":\""@ + escaped(v) + "\"}"@
}

/// The rendered result for a get that found nothing.
pub open spec fn get_missing_text(k: Seq<char>) -> Seq<char> {
    "{\"found\":false,\"key\":\""@ + escaped(k) + "\"}"@
}

/// The rendered result for a delete that removed the key.
pub open spec fn delete_ok_text(k: Seq<char>) -> Seq<char> {
    "{\"success\":true,\"message\":\"Deleted key '"@ + escaped(k) + "'\"}"@
}

/// The rendered result for a delete of an absent key: a reported
/// `false`, not an error.
pub open spec fn delete_missing_text(k: Seq<char>) -> Seq<char> {
    "{\"success\":false,\"message\":\"Key '"@ + escaped(k) + "' not found\"}"@
}

/// A key as a JSON string literal.
pub open spec fn quoted(k: Seq<char>) -> Seq<char> {
    seq!['"'] + escaped(k) + seq!['"']
}

/// The comma-separated body of the rendered key list.
pub open spec fn keys_joined(keys: Seq<Seq<char>>) -> Seq<char>
    decreases keys.len(),
{
    if keys.len() == 0 {
        Seq::empty()
    } else if keys.len() == 1 {
        quoted(keys[0])
    } else {
        keys_joined(keys.drop_last()) + ","@ + quoted(keys.last())
    }
}

/// The rendered result of a list: every stored key and the count.
pub open spec fn list_ok_text(keys: Seq<Seq<char>>) -> Seq<char> {
    "{\"keys\":["@ + keys_joined(keys) + "],\"count\":"@ + dec_of(keys.len()) + "}"@
}

/// Stores a key/value pair.
pub struct StorageSetTool;

impl ToolHandler for StorageSetTool {
    open spec fn spec_name(&self) -> Seq<char> {
        "storage_set"@
    }

    open spec fn spec_def(&self) -> ToolV {
        ToolV {
            name: "storage_set"@,
            description: "Store a key-value pair in memory"@,
            input_schema: "{\"type\":\"object\",\"properties\":{\"key\":{\"type\":\"string\",\"description\":\"The key to store the value under\"},\"value\":{\"type\":\"string\",\"description\":\"The value to store\"}},\"required\":[\"key\",\"value\"]}"@,
        }
    }

    open spec fn execute_post(
        &self,
        args: Seq<(Seq<char>, ArgV)>,
        pre: ToolCtx,
        post: ToolCtx,
        r: Result<Seq<char>, Seq<char>>,
    ) -> bool {
        match (spec_arg(args, "key"@), spec_arg(args, "value"@)) {
            (Some(ArgV::Str(k)), Some(ArgV::Str(v))) => if k.len() == 0 {
                post == pre && r == Err::<Seq<char>, Seq<char>>("Key is required"@)
            } else {
                &&& pre.same_host(post)
                &&& post.store.spec_get(k) == Some(v)
                &&& forall|k2: Seq<char>|
                    k2 != k ==> post.store.spec_get(k2) == pre.store.spec_get(k2)
                &&& pre.store.spec_get(k) is Some ==> post.store.spec_len()
                    == pre.store.spec_len()
                &&& pre.store.spec_get(k) is None ==> post.store.spec_len()
                    == pre.store.spec_len() + 1
                &&& r == Ok::<Seq<char>, Seq<char>>(set_ok_text(k))
            },
            _ => post == pre && r == Err::<Seq<char>, Seq<char>>(
                "Invalid arguments: key and value are required"@,
            ),
        }
    }

    fn definition(&self) -> (t: Tool) {
        Tool {
            name: String::from_str("storage_set"),
            description: String::from_str("Store a key-value pair in memory"),
            input_schema: String::from_str(
                "{\"type\":\"object\",\"properties\":{\"key\":{\"type\":\"string\",\"description\":\"The key to store the value under\"},\"value\":{\"type\":\"string\",\"description\":\"The value to store\"}},\"required\":[\"key\",\"value\"]}",
            ),
        }
    }

    fn execute(&self, args: &Vec<(String, ArgValue)>, ctx: &mut ToolCtx) -> (r: Result<
        String,
        ToolError,
    >) {
        match (get_arg(args, "key"), get_arg(args, "value")) {
            (Some(ArgValue::Str(k)), Some(ArgValue::Str(v))) => {
                if k.as_str().is_empty() {
                    Err(ToolError { message: String::from_str("Key is required") })
                } else {
                    ctx.store.set(k.as_str(), v.as_str());
                    let mut s = String::from_str("{\"success\":true,\"message\":\"Stored value for key '");
                    let ek = escape_json(k.as_str());
                    s.append(ek.as_str());
                    s.append("'\"}");
                    proof {
                        reveal_strlit("{\"success\":true,\"message\":\"Stored value for key '");
                        reveal_strlit("'\"}");
                        assert(s@ =~= set_ok_text(k@));
                    }
                    Ok(s)
                }
            },
            _ => Err(
                ToolError { message: String::from_str("Invalid arguments: key and value are required") },
            ),
        }
    }
}

/// Retrieves a value by key.
pub struct StorageGetTool;

impl ToolHandler for StorageGetTool {
    open spec fn spec_name(&self) -> Seq<char> {
        "storage_get"@
    }

    open spec fn spec_def(&self) -> ToolV {
        ToolV {
            name: "storage_get"@,
            description: "Retrieve a value by key from memory"@,
            input_schema: "{\"type\":\"object\",\"properties\":{\"key\":{\"type\":\"string\",\"description\":\"The key to retrieve\"}},\"required\":[\"key\"]}"@,
        }
    }

    open spec fn execute_post(
        &self,
        args: Seq<(Seq<char>, ArgV)>,
        pre: ToolCtx,
        post: ToolCtx,
        r: Result<Seq<char>, Seq<char>>,
    ) -> bool {
        post == pre && match spec_arg(args, "key"@) {
            Some(ArgV::Str(k)) => if k.len() == 0 {
                r == Err::<Seq<char>, Seq<char>>("Key is required"@)
            } else {
                match pre.store.spec_get(k) {
                    Some(v) => r == Ok::<Seq<char>, Seq<char>>(get_found_text(k, v)),
                    None => r == Ok::<Seq<char>, Seq<char>>(get_missing_text(k)),
                }
            },
            _ => r == Err::<Seq<char>, Seq<char>>("Invalid arguments: key is required"@),
        }
    }

    fn definition(&self) -> (t: Tool) {
        Tool {
            name: String::from_str("storage_get"),
            description: String::from_str("Retrieve a value by key from memory"),
            input_schema: String::from_str(
                "{\"type\":\"object\",\"properties\":{\"key\":{\"type\":\"string\",\"description\":\"The key to retrieve\"}},\"required\":[\"key\"]}",
            ),
        }
    }

    fn execute(&self, args: &Vec<(String, ArgValue)>, ctx: &mut ToolCtx) -> (r: Result<
        String,
        ToolError,
    >) {
        match get_arg(args, "key") {
            Some(ArgValue::Str(k)) => {
                if k.as_str().is_empty() {
                    Err(ToolError { message: String::from_str("Key is required") })
                } else {
                    match ctx.store.get(k.as_str()) {
                        Some(v) => {
                            let mut s = String::from_str("{\"found\":true,\"key\":\"");
                            let ek = escape_json(k.as_str());
                            s.append(ek.as_str());
                            s.append("\",\"value\":\"");
                            let ev = escape_json(v.as_str());
                            s.append(ev.as_str());
                            s.append("\"}");
                            proof {
                                reveal_strlit("{\"found\":true,\"key\":\"");
                                reveal_strlit("\",\"value\":\"");
                                reveal_strlit("\"}");
                                assert(s@ =~= get_found_text(k@, v@));
                            }
                            Ok(s)
                        },
                        None => {
                            let mut s = String::from_str("{\"found\":false,\"key\":\"");
                            let ek = escape_json(k.as_str());
                            s.append(ek.as_str());
                            s.append("\"}");
                            proof {
                                reveal_strlit("{\"found\":false,\"key\":\"");
                                reveal_strlit("\"}");
                                assert(s@ =~= get_missing_text(k@));
                            }
                            Ok(s)
                        },
                    }
                }
            },
            _ => Err(ToolError { message: String::from_str("Invalid arguments: key is required") }),
        }
    }
}

/// Deletes a key/value pair.
pub struct StorageDeleteTool;

impl ToolHandler for StorageDeleteTool {
    open spec fn spec_name(&self) -> Seq<char> {
        "storage_delete"@
    }

    open spec fn spec_def(&self) -> ToolV {
        ToolV {
            name: "storage_delete"@,
            description: "Delete a key-value pair from memory"@,
            input_schema: "{\"type\":\"object\",\"properties\":{\"key\":{\"type\":\"string\",\"description\":\"The key to delete\"}},\"required\":[\"key\"]}"@,
        }
    }

    open spec fn execute_post(
        &self,
        args: Seq<(Seq<char>, ArgV)>,
        pre: ToolCtx,
        post: ToolCtx,
        r: Result<Seq<char>, Seq<char>>,
    ) -> bool {
        match spec_arg(args, "key"@) {
            Some(ArgV::Str(k)) => if k.len() == 0 {
                post == pre && r == Err::<Seq<char>, Seq<char>>("Key is required"@)
            } else {
                &&& pre.same_host(post)
                &&& post.store.spec_get(k) is None
                &&& forall|k2: Seq<char>|
                    k2 != k ==> post.store.spec_get(k2) == pre.store.spec_get(k2)
                &&& match pre.store.spec_get(k) {
                    Some(_) => post.store.spec_len() + 1 == pre.store.spec_len() && r == Ok::<
                        Seq<char>,
                        Seq<char>,
                    >(delete_ok_text(k)),
                    None => post == pre && r == Ok::<Seq<char>, Seq<char>>(
                        delete_missing_text(k),
                    ),
                }
            },
            _ => post == pre && r == Err::<Seq<char>, Seq<char>>(
                "Invalid arguments: key is required"@,
            ),
        }
    }

    fn definition(&self) -> (t: Tool) {
        Tool {
            name: String::from_str("storage_delete"),
            description: String::from_str("Delete a key-value pair from memory"),
            input_schema: String::from_str(
                "{\"type\":\"object\",\"properties\":{\"key\":{\"type\":\"string\",\"description\":\"The key to delete\"}},\"required\":[\"key\"]}",
            ),
        }
    }

    fn execute(&self, args: &Vec<(String, ArgValue)>, ctx: &mut ToolCtx) -> (r: Result<
        String,
        ToolError,
    >) {
        match get_arg(args, "key") {
            Some(ArgValue::Str(k)) => {
                if k.as_str().is_empty() {
                    Err(ToolError { message: String::from_str("Key is required") })
                } else {
                    let was = ctx.store.remove(k.as_str());
                    if was {
                        let mut s = String::from_str("{\"success\":true,\"message\":\"Deleted key '");
                        let ek = escape_json(k.as_str());
                        s.append(ek.as_str());
                        s.append("'\"}");
                        proof {
                            reveal_strlit("{\"success\":true,\"message\":\"Deleted key '");
                            reveal_strlit("'\"}");
                            assert(s@ =~= delete_ok_text(k@));
                        }
                        Ok(s)
                    } else {
                        let mut s = String::from_str("{\"success\":false,\"message\":\"Key '");
                        let ek = escape_json(k.as_str());
                        s.append(ek.as_str());
                        s.append("' not found\"}");
                        proof {
                            reveal_strlit("{\"success\":false,\"message\":\"Key '");
                            reveal_strlit("' not found\"}");
                            assert(s@ =~= delete_missing_text(k@));
                        }
                        Ok(s)
                    }
                }
            },
            _ => Err(ToolError { message: String::from_str("Invalid arguments: key is required") }),
        }
    }
}

/// Lists all stored keys.
pub struct StorageListTool;

impl ToolHandler for StorageListTool {
    open spec fn spec_name(&self) -> Seq<char> {
        "storage_list"@
    }

    open spec fn spec_def(&self) -> ToolV {
        ToolV {
            name: "storage_list"@,
            description: "List all stored keys"@,
            input_schema: "{\"type\":\"object\",\"properties\":{}}"@,
        }
    }

    open spec fn execute_post(
        &self,
        args: Seq<(Seq<char>, ArgV)>,
        pre: ToolCtx,
        post: ToolCtx,
        r: Result<Seq<char>, Seq<char>>,
    ) -> bool {
        post == pre && r == Ok::<Seq<char>, Seq<char>>(list_ok_text(pre.store.spec_keys()))
    }

    fn definition(&self) -> (t: Tool) {
        Tool {
            name: String::from_str("storage_list"),
            description: String::from_str("List all stored keys"),
            input_schema: String::from_str("{\"type\":\"object\",\"properties\":{}}"),
        }
    }

    fn execute(&self, _args: &Vec<(String, ArgValue)>, ctx: &mut ToolCtx) -> (r: Result<
        String,
        ToolError,
    >) {
        let keys = ctx.store.keys();
        let ghost sk = ctx.store.spec_keys();
        let mut s = String::from_str("{\"keys\":[");
        let n = keys.len();
        let mut i: usize = 0;
        proof {
            assert(sk.take(0) =~= Seq::<Seq<char>>::empty());
        }
        while i < n
            invariant
                n == keys.len(),
                i <= n,
                sk.len() == n,
                forall|j: int| 0 <= j < n ==> keys@[j]@ == sk[j],
                s@ == "{\"keys\":["@ + keys_joined(sk.take(i as int)),
            decreases n - i,
        {
            if i > 0 {
                s.append(",");
            }
            s.append("\"");
            let ek = escape_json(keys[i].as_str());
            s.append(ek.as_str());
            s.append("\"");
            proof {
                reveal_strlit(",");
                reveal_strlit("\"");
                assert(sk.take(i + 1 as int).drop_last() =~= sk.take(i as int));
                assert(sk.take(i + 1 as int).last() == sk[i as int]);
                if i == 0 {
                    assert(keys_joined(sk.take(1)) == quoted(sk[0]));
                    assert(s@ =~= "{\"keys\":["@ + keys_joined(sk.take(i + 1 as int)));
                } else {
                    assert(s@ =~= "{\"keys\":["@ + keys_joined(sk.take(i + 1 as int)));
                }
            }
            i = i + 1;
        }
        s.append("],\"count\":");
        let dc = dec_usize(keys.len());
        s.append(dc.as_str());
        s.append("}");
        proof {
            reveal_strlit("{\"keys\":[");
            reveal_strlit("],\"count\":");
            reveal_strlit("}");
            assert(sk.take(n as int) =~= sk);
            assert(s@ =~= list_ok_text(sk));
        }
        Ok(s)
    }
}

} // verus!
