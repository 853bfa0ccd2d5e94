//! Basic arithmetic over whole numbers: add, subtract, multiply, divide.
//! Division truncates toward zero; division by zero and a result outside
//! the representable range fail with a descriptive error.

use vstd::prelude::*;
use vstd::string::StringExecFns;
use crate::proto::{ArgV, ArgValue, Tool, ToolV, spec_arg, get_arg};
use crate::text::{dec_i64, dec_of_int, str_is};
use crate::tools::{ToolCtx, ToolError, ToolHandler};

verus! {

/// The magnitude of an integer.
pub open spec fn abs_int(x: int) -> int {
    if x < 0 {
        -x
    } else {
        x
    }
}

/// Division truncating toward zero, as machine division does.
pub open spec fn tdiv(a: int, b: int) -> int {
    if (a < 0) == (b < 0) {
        abs_int(a) / abs_int(b)
    } else {
        -(abs_int(a) / abs_int(b))
    }
}

/// True when `x` is representable as a 64-bit signed integer.
pub open spec fn fits_i64(x: int) -> bool {
    i64::MIN <= x <= i64::MAX
}

/// The human-readable expression string in a calculator result.
pub open spec fn calc_expr_text(op: Seq<char>, a: int, b: int, r: int) -> Seq<char> {
    dec_of_int(a) + " "@ + op + " "@ + dec_of_int(b) + " = "@ + dec_of_int(r)
}

/// The rendered calculator result value.
pub open spec fn calc_ok_text(op: Seq<char>, a: int, b: int, r: int) -> Seq<char> {
    "{\"result\":"@ + dec_of_int(r) + ",\"operation\":\""@ + calc_expr_text(op, a, b, r) + "\"}"@
}

/// Exactly what the calculator returns for given arguments: the rendered
/// result for the four known operations when the result is representable,
/// a descriptive error otherwise. It never touches shared state.
pub open spec fn calc_result(args: Seq<(Seq<char>, ArgV)>) -> Result<Seq<char>, Seq<char>> {
    match (spec_arg(args, "operation"@), spec_arg(args, "a"@), spec_arg(args, "b"@)) {
        (Some(ArgV::Str(op)), Some(ArgV::Int(a)), Some(ArgV::Int(b))) => {
            if op == "add"@ {
                if fits_i64(a + b) {
                    Ok(calc_ok_text(op, a, b, a + b))
                } else {
                    Err("Result out of range"@)
                }
            } else if op == "subtract"@ {
                if fits_i64(a - b) {
                    Ok(calc_ok_text(op, a, b, a - b))
                } else {
                    Err("Result out of range"@)
                }
            } else if op == "multiply"@ {
                if fits_i64(a * b) {
                    Ok(calc_ok_text(op, a, b, a * b))
                } else {
                    Err("Result out of range"@)
                }
            } else if op == "divide"@ {
                if b == 0 {
                    Err("Division by zero"@)
                } else if fits_i64(tdiv(a, b)) {
                    Ok(calc_ok_text(op, a, b, tdiv(a, b)))
                } else {
                    Err("Result out of range"@)
                }
            } else {
                Err("Unsupported operation: "@ + op)
            }
        },
        _ => Err("Invalid arguments: operation, a and b are required"@),
    }
}

/// Performs basic arithmetic operations.
pub struct CalculatorTool;

fn calc_text_exec(op: &str, a: i64, b: i64, r: i64) -> (t: String)
    ensures
        t@ == calc_ok_text(op@, a as int, b as int, r as int),
{
    let mut s = String::from_str("{\"result\":");
    let dr = dec_i64(r);
    s.append(dr.as_str());
    s.append(",\"operation\":\"");
    let da = dec_i64(a);
    s.append(da.as_str());
    s.append(" ");
    s.append(op);
    s.append(" ");
    let db = dec_i64(b);
    s.append(db.as_str());
    s.append(" = ");
    s.append(dr.as_str());
    s.append("\"}");
    proof {
        reveal_strlit("{\"result\":");
        reveal_strlit(",\"operation\":\"");
        reveal_strlit(" ");
        reveal_strlit(" = ");
        reveal_strlit("\"}");
        assert(s@ =~= calc_ok_text(op@, a as int, b as int, r as int));
    }
    s
}

fn err(msg: &str) -> (r: ToolError)
    ensures
        r.message@ == msg@,
{
    ToolError { message: String::from_str(msg) }
}

impl ToolHandler for CalculatorTool {
    open spec fn spec_name(&self) -> Seq<char> {
        "calculator"@
    }

    open spec fn spec_def(&self) -> ToolV {
        ToolV {
            name: "calculator"@,
            description: "Perform basic arithmetic operations (add, subtract, multiply, divide)"@,
            input_schema: "{\"type\":\"object\",\"properties\":{\"operation\":{\"type\":\"string\",\"enum\":[\"add\",\"subtract\",\"multiply\",\"divide\"],\"description\":\"The arithmetic operation to perform\"},\"a\":{\"type\":\"number\",\"description\":\"First operand\"},\"b\":{\"type\":\"number\",\"description\":\"Second operand\"}},\"required\":[\"operation\",\"a\",\"b\"]}"@,
        }
    }

    open spec fn execute_post(
        &self,
        args: Seq<(Seq<char>, ArgV)>,
        pre: ToolCtx,
        post: ToolCtx,
        r: Result<Seq<char>, Seq<char>>,
    ) -> bool {
        post == pre && r == calc_result(args)
    }

    fn definition(&self) -> (t: Tool) {
        Tool {
            name: String::from_str("calculator"),
            description: String::from_str(
                "Perform basic arithmetic operations (add, subtract, multiply, divide)",
            ),
            input_schema: String::from_str(
                "{\"type\":\"object\",\"properties\":{\"operation\":{\"type\":\"string\",\"enum\":[\"add\",\"subtract\",\"multiply\",\"divide\"],\"description\":\"The arithmetic operation to perform\"},\"a\":{\"type\":\"number\",\"description\":\"First operand\"},\"b\":{\"type\":\"number\",\"description\":\"Second operand\"}},\"required\":[\"operation\",\"a\",\"b\"]}",
            ),
        }
    }

    fn execute(&self, args: &Vec<(String, ArgValue)>, ctx: &mut ToolCtx) -> (r: Result<
        String,
        ToolError,
    >) {
        match (get_arg(args, "operation"), get_arg(args, "a"), get_arg(args, "b")) {
            (
                Some(ArgValue::Str(op)),
                Some(ArgValue::Int(a)),
                Some(ArgValue::Int(b)),
            ) => {
                let av = *a;
                let bv = *b;
                if str_is(op.as_str(), "add") {
                    match av.checked_add(bv) {
                        Some(s) => Ok(calc_text_exec("add", av, bv, s)),
                        None => Err(err("Result out of range")),
                    }
                } else if str_is(op.as_str(), "subtract") {
                    match av.checked_sub(bv) {
                        Some(s) => Ok(calc_text_exec("subtract", av, bv, s)),
                        None => Err(err("Result out of range")),
                    }
                } else if str_is(op.as_str(), "multiply") {
                    match av.checked_mul(bv) {
                        Some(s) => Ok(calc_text_exec("multiply", av, bv, s)),
                        None => Err(err("Result out of range")),
                    }
                } else if str_is(op.as_str(), "divide") {
                    if bv == 0 {
                        Err(err("Division by zero"))
                    } else {
                        let neg = (av < 0) != (bv < 0);
                        let ua: u64 = if av < 0 {
                            (-(av as i128)) as u64
                        } else {
                            av as u64
                        };
                        let ub: u64 = if bv < 0 {
                            (-(bv as i128)) as u64
                        } else {
                            bv as u64
                        };
                        proof {
                            assert(ua == abs_int(av as int));
                            assert(ub == abs_int(bv as int));
                        }
                        let uq = ua / ub;
                        if neg {
                            let q = (-(uq as i128)) as i64;
                            proof {
                                assert(uq <= ua);
                                assert(q as int == tdiv(av as int, bv as int));
                            }
                            Ok(calc_text_exec("divide", av, bv, q))
                        } else {
                            if uq > 9223372036854775807u64 {
                                proof {
                                    assert(!fits_i64(tdiv(av as int, bv as int)));
                                }
                                Err(err("Result out of range"))
                            } else {
                                let q = uq as i64;
                                proof {
                                    assert(q as int == tdiv(av as int, bv as int));
                                }
                                Ok(calc_text_exec("divide", av, bv, q))
                            }
                        }
                    }
                } else {
                    let mut m = String::from_str("Unsupported operation: ");
                    m.append(op.as_str());
                    Err(ToolError { message: m })
                }
            },
            _ => Err(err("Invalid arguments: operation, a and b are required")),
        }
    }
}

} // verus!
