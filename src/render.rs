use vstd::prelude::*;
use vstd::string::StringExecFns;
use crate::emit::{expand, expansion_result, AccumulatorUse, GeneratedFn, RegBinding, TrapCall};
use crate::model::{FnArg, ItemType, ReturnType, SyscallError, TypeExpr};
use crate::registers::register_name;

verus! {

/// One parameter as written in a signature: `name: type`, or the type alone
/// when it has no name.
pub open spec fn arg_text(a: FnArg) -> Seq<char> {
    match a.name {
        Some(n) => n@ + ": "@ + a.ty@,
        None => a.ty@,
    }
}

/// A parameter list, its entries separated by `, `.
pub open spec fn params_text(s: Seq<FnArg>) -> Seq<char>
    decreases s.len(),
{
    if s.len() == 0 {
        Seq::empty()
    } else if s.len() == 1 {
        arg_text(s[0])
    } else {
        params_text(s.drop_last()) + ", "@ + arg_text(s.last())
    }
}

/// A return type as written after the parameter list.
pub open spec fn return_text(o: ReturnType) -> Seq<char> {
    match o {
        ReturnType::Default => Seq::empty(),
        ReturnType::Type(TypeExpr::Never) => " -> !"@,
        ReturnType::Type(TypeExpr::Other(t)) => " -> "@ + t@,
    }
}

/// The declared part of a signature: parameter list and return type.
pub open spec fn signature_text(inputs: Seq<FnArg>, output: ReturnType) -> Seq<char> {
    "("@ + params_text(inputs) + ")"@ + return_text(output)
}

/// The visibility followed by a space, or nothing when none is written.
pub open spec fn vis_text(vis: Seq<char>) -> Seq<char> {
    if vis.len() == 0 {
        Seq::empty()
    } else {
        vis + " "@
    }
}

/// The attributes and the start of the function's header, up to its name.
pub open spec fn header_text(vis: Seq<char>, name: Seq<char>) -> Seq<char> {
    "#[inline(always)]\n#[cfg(target_arch = \"x86_64\")]\n"@ + vis_text(vis) + "unsafe fn "@ + name
}

/// The operand that moves a parameter into its register.
pub open spec fn binding_line(b: RegBinding) -> Seq<char> {
    "        in(\""@ + register_name(b.reg) + "\") "@ + b.var@ + ",\n"@
}

/// The operands of all bindings, in order.
pub open spec fn bindings_text(s: Seq<RegBinding>) -> Seq<char>
    decreases s.len(),
{
    if s.len() == 0 {
        Seq::empty()
    } else {
        bindings_text(s.drop_last()) + binding_line(s.last())
    }
}

/// The accumulator's operand.
pub open spec fn accumulator_line(a: AccumulatorUse) -> Seq<char> {
    match a {
        AccumulatorUse::In => "        in(\"rax\") rax,\n"@,
        AccumulatorUse::InOut => "        inout(\"rax\") rax,\n"@,
    }
}

/// The options of the trap: it never touches the stack, and may be marked as
/// not returning.
pub open spec fn options_text(no_return: bool) -> Seq<char> {
    if no_return {
        "        options(nostack),\n        options(noreturn),\n"@
    } else {
        "        options(nostack),\n"@
    }
}

/// The inline assembly block that performs the trap.
pub open spec fn trap_text(t: TrapCall) -> Seq<char> {
    "    core::arch::asm!(\n        \"syscall\",\n"@ + accumulator_line(t.accumulator) + bindings_text(
        t.args@,
    ) + "        clobber_abi(\"system\"),\n"@ + options_text(t.no_return) + "    );\n"@
}

/// The statement that loads the call number into the accumulator.
pub open spec fn load_text(sys_num: Seq<char>, returns_accumulator: bool) -> Seq<char> {
    if returns_accumulator {
        "    let mut rax = "@ + sys_num + " as _;\n"@
    } else {
        "    let rax = "@ + sys_num + ";\n"@
    }
}

/// The read of the accumulator that ends a returning function's body.
pub open spec fn tail_text(returns_accumulator: bool) -> Seq<char> {
    if returns_accumulator {
        "    rax\n"@
    } else {
        Seq::empty()
    }
}

/// The body of the generated function, between its braces.
pub open spec fn body_text(g: GeneratedFn) -> Seq<char> {
    load_text(g.sys_num@, g.returns_accumulator) + trap_text(g.trap) + tail_text(
        g.returns_accumulator,
    )
}

/// The whole generated function as source text.
pub open spec fn function_text(g: GeneratedFn) -> Seq<char> {
    header_text(g.vis@, g.name@) + signature_text(g.inputs@, g.output) + " {\n"@ + body_text(g)
        + "}\n"@
}

/// Writes one parameter as it stands in a signature.
pub fn arg_string(a: &FnArg) -> (r: String)
    ensures
        r@ == arg_text(*a),
{
    match &a.name {
        Some(n) => {
            let mut out = n.clone();
            out.append(": ");
            out.append(a.ty.as_str());
            out
        },
        None => a.ty.clone(),
    }
}

/// Writes a parameter list, entries separated by `, `.
pub fn params_string(inputs: &Vec<FnArg>) -> (r: String)
    ensures
        r@ == params_text(inputs@),
{
    let mut out = String::new();
    let mut i: usize = 0;
    while i < inputs.len()
        invariant
            i <= inputs@.len(),
            out@ == params_text(inputs@.subrange(0, i as int)),
        decreases inputs@.len() - i,
    {
        let ghost prev = inputs@.subrange(0, i as int);
        let ghost next = inputs@.subrange(0, i + 1);
        assert(next.drop_last() =~= prev);
        let a = arg_string(&inputs[i]);
        if i == 0 {
            assert(Seq::<char>::empty() + a@ =~= a@);
            out.append(a.as_str());
        } else {
            out.append(", ");
            out.append(a.as_str());
        }
        i += 1;
    }
    assert(inputs@.subrange(0, inputs@.len() as int) =~= inputs@);
    out
}

/// Writes a return type as it stands after the parameter list.
pub fn return_string(o: &ReturnType) -> (r: String)
    ensures
        r@ == return_text(*o),
{
    match o {
        ReturnType::Default => String::new(),
        ReturnType::Type(TypeExpr::Never) => String::from_str(" -> !"),
        ReturnType::Type(TypeExpr::Other(t)) => {
            let mut out = String::from_str(" -> ");
            out.append(t.as_str());
            out
        },
    }
}

/// Writes the operands that bind the parameters to their registers.
pub fn bindings_string(args: &Vec<RegBinding>) -> (r: String)
    ensures
        r@ == bindings_text(args@),
{
    let mut out = String::new();
    let mut i: usize = 0;
    while i < args.len()
        invariant
            i <= args@.len(),
            out@ == bindings_text(args@.subrange(0, i as int)),
        decreases args@.len() - i,
    {
        let ghost prev = args@.subrange(0, i as int);
        let ghost next = args@.subrange(0, i + 1);
        assert(next.drop_last() =~= prev);
        let b = &args[i];
        out.append("        in(\"");
        out.append(b.reg.name());
        out.append("\") ");
        out.append(b.var.as_str());
        out.append(",\n");
        assert(out@ =~= bindings_text(prev) + binding_line(*b));
        i += 1;
    }
    assert(args@.subrange(0, args@.len() as int) =~= args@);
    out
}

/// Writes the inline assembly block that performs the trap.
pub fn trap_string(t: &TrapCall) -> (r: String)
    ensures
        r@ == trap_text(*t),
{
    let mut out = String::from_str("    core::arch::asm!(\n        \"syscall\",\n");
    match t.accumulator {
        AccumulatorUse::In => out.append("        in(\"rax\") rax,\n"),
        AccumulatorUse::InOut => out.append("        inout(\"rax\") rax,\n"),
    }
    let args = bindings_string(&t.args);
    out.append(args.as_str());
    out.append("        clobber_abi(\"system\"),\n");
    if t.no_return {
        out.append("        options(nostack),\n        options(noreturn),\n");
    } else {
        out.append("        options(nostack),\n");
    }
    out.append("    );\n");
    out
}

/// Writes the body of a generated function, between its braces.
pub fn body_string(g: &GeneratedFn) -> (r: String)
    ensures
        r@ == body_text(*g),
{
    let mut out = if g.returns_accumulator {
        String::from_str("    let mut rax = ")
    } else {
        String::from_str("    let rax = ")
    };
    out.append(g.sys_num.as_str());
    if g.returns_accumulator {
        out.append(" as _;\n");
    } else {
        out.append(";\n");
    }
    let trap = trap_string(&g.trap);
    out.append(trap.as_str());
    if g.returns_accumulator {
        out.append("    rax\n");
    } else {
        assert(out@ + Seq::<char>::empty() =~= out@);
    }
    out
}

/// Writes a generated function as source text.
pub fn render(g: &GeneratedFn) -> (r: String)
    ensures
        r@ == function_text(*g),
{
    let mut out = String::from_str("#[inline(always)]\n#[cfg(target_arch = \"x86_64\")]\n");
    if !g.vis.as_str().is_empty() {
        out.append(g.vis.as_str());
        out.append(" ");
    } else {
        assert(out@ + Seq::<char>::empty() =~= out@);
    }
    out.append("unsafe fn ");
    out.append(g.name.as_str());
    let ghost head = out@;
    assert(head =~= header_text(g.vis@, g.name@));
    let params = params_string(&g.inputs);
    let ret = return_string(&g.output);
    out.append("(");
    out.append(params.as_str());
    out.append(")");
    out.append(ret.as_str());
    assert(out@ =~= head + signature_text(g.inputs@, g.output));
    out.append(" {\n");
    let body = body_string(g);
    out.append(body.as_str());
    out.append("}\n");
    out
}

/// The source text of a successful expansion: some function generated for the
/// declaration, written out.
pub open spec fn expands_to_text(t: Seq<char>, sys_num: String, item: ItemType) -> bool {
    exists|g: GeneratedFn| #[trigger] function_text(g) == t && expansion_result(Ok(g), sys_num, item)
}

/// Turns a system call declaration into the source text of the function that
/// performs the call, or reports which rule the declaration breaks.
pub fn syscall(attr: String, item: ItemType) -> (r: Result<String, SyscallError>)
    ensures
        match r {
            Ok(t) => expands_to_text(t@, attr, item),
            Err(e) => expansion_result(Err(e), attr, item),
        },
{
    match expand(attr, item) {
        Ok(g) => {
            let t = render(&g);
            assert(function_text(g) == t@);
            Ok(t)
        },
        Err(e) => Err(e),
    }
}

} // verus!
