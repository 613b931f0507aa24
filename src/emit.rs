use vstd::prelude::*;
use crate::model::{all_named, is_never, never_returns, AliasedType, BareFn, FnArg, ItemType, ReturnType, SyscallError};
use crate::naming::{function_name, snake_case_of};
use crate::registers::{arg_register, register_map, Register, MAX_ARGS};

verus! {

/// A parameter bound as an input to its argument register.
pub struct RegBinding {
    pub reg: Register,
    pub var: String,
}

/// How the accumulator register takes part in the trap: it carries the call
/// number in, and for a call that returns also carries the result out.
#[derive(Clone, Copy, Debug, PartialEq, Eq, Structural)]
pub enum AccumulatorUse {
    In,
    InOut,
}

/// The trap instruction with its operands. Its clobbers (every register the
/// system convention does not preserve) and its promise not to touch the stack
/// are the same for every call.
pub struct TrapCall {
    pub accumulator: AccumulatorUse,
    pub args: Vec<RegBinding>,
    pub no_return: bool,
}

/// The function generated for a declaration: its visibility, normalized name,
/// signature, call number (as source text) and the body's trap, followed by a
/// read of the accumulator when the call returns.
pub struct GeneratedFn {
    pub vis: String,
    pub name: String,
    pub inputs: Vec<FnArg>,
    pub output: ReturnType,
    pub sys_num: String,
    pub trap: TrapCall,
    pub returns_accumulator: bool,
}

/// Parameter `i` is bound to the `i`-th argument register, by its own name,
/// for every position.
pub open spec fn binds_in_order(bindings: Seq<RegBinding>, inputs: Seq<FnArg>) -> bool {
    &&& bindings.len() == inputs.len()
    &&& forall|i: int|
        0 <= i < bindings.len() ==> {
            &&& (#[trigger] bindings[i]).reg == register_map(i)
            &&& inputs[i].name matches Some(n) && bindings[i].var@ == n@
        }
}

/// The trap and the function's tail have the shape that the return type asks
/// for: a diverging call passes the number in only, is marked as not
/// returning, and reads nothing back; any other call reads the accumulator
/// back and returns it.
pub open spec fn shaped_for(trap: TrapCall, returns_accumulator: bool, output: ReturnType) -> bool {
    if is_never(output) {
        &&& trap.accumulator == AccumulatorUse::In
        &&& trap.no_return
        &&& !returns_accumulator
    } else {
        &&& trap.accumulator == AccumulatorUse::InOut
        &&& !trap.no_return
        &&& returns_accumulator
    }
}

/// `g` is the function generated for the declaration with visibility `vis`,
/// name `ident` and function type `f`, under call number `sys_num`.
pub open spec fn generated_from(
    g: GeneratedFn,
    sys_num: String,
    vis: String,
    ident: String,
    f: BareFn,
) -> bool {
    &&& g.vis == vis
    &&& g.name@ == snake_case_of(ident@)
    &&& g.inputs == f.inputs
    &&& g.output == f.output
    &&& g.sys_num == sys_num
    &&& binds_in_order(g.trap.args@, f.inputs@)
    &&& shaped_for(g.trap, g.returns_accumulator, f.output)
}

/// What expanding a declaration yields: an error for a type that is not a
/// function type, for more parameters than argument registers, and for an
/// unnamed parameter, checked in that order; otherwise the generated function.
pub open spec fn expansion_result(
    r: Result<GeneratedFn, SyscallError>,
    sys_num: String,
    item: ItemType,
) -> bool {
    match item.ty {
        AliasedType::Other(_) => r == Err::<GeneratedFn, SyscallError>(SyscallError::NotAFunctionType),
        AliasedType::BareFn(f) => if f.inputs@.len() > MAX_ARGS {
            r == Err::<GeneratedFn, SyscallError>(SyscallError::TooManyArguments)
        } else if !all_named(f.inputs@) {
            r == Err::<GeneratedFn, SyscallError>(SyscallError::UnnamedParameter)
        } else {
            r matches Ok(g) && generated_from(g, sys_num, item.vis, item.ident, f)
        },
    }
}

/// Binds each parameter, by position, to its argument register.
pub fn bind_registers(inputs: &Vec<FnArg>) -> (r: Result<Vec<RegBinding>, SyscallError>)
    requires
        inputs@.len() <= MAX_ARGS,
    ensures
        match r {
            Ok(b) => all_named(inputs@) && binds_in_order(b@, inputs@),
            Err(e) => e == SyscallError::UnnamedParameter && !all_named(inputs@),
        },
{
    let mut out: Vec<RegBinding> = Vec::new();
    let mut i: usize = 0;
    while i < inputs.len()
        invariant
            i <= inputs@.len() <= MAX_ARGS,
            out@.len() == i,
            forall|j: int|
                0 <= j < i ==> {
                    &&& (#[trigger] out@[j]).reg == register_map(j)
                    &&& inputs@[j].name matches Some(n) && out@[j].var@ == n@
                },
        decreases inputs@.len() - i,
    {
        match &inputs[i].name {
            Some(n) => {
                let b = RegBinding { reg: arg_register(i), var: n.clone() };
                out.push(b);
            },
            None => {
                assert(!(inputs@[i as int].name is Some));
                return Err(SyscallError::UnnamedParameter);
            },
        }
        i += 1;
    }
    assert(all_named(inputs@)) by {
        assert forall|j: int| 0 <= j < inputs@.len() implies (#[trigger] inputs@[j]).name is Some by {
            assert(out@[j].reg == register_map(j));
        }
    }
    Ok(out)
}

/// Validates a declaration and builds the function that performs its system
/// call, with `sys_num` copied as it stands into the accumulator.
pub fn expand(sys_num: String, item: ItemType) -> (r: Result<GeneratedFn, SyscallError>)
    ensures
        expansion_result(r, sys_num, item),
{
    let ItemType { vis, ident, ty } = item;
    let f = match ty {
        AliasedType::BareFn(f) => f,
        AliasedType::Other(_) => {
            return Err(SyscallError::NotAFunctionType);
        },
    };
    if f.inputs.len() > MAX_ARGS {
        return Err(SyscallError::TooManyArguments);
    }
    let args = match bind_registers(&f.inputs) {
        Ok(args) => args,
        Err(e) => {
            return Err(e);
        },
    };
    let name = function_name(&ident);
    let diverges = never_returns(&f.output);
    let accumulator = if diverges {
        AccumulatorUse::In
    } else {
        AccumulatorUse::InOut
    };
    let BareFn { inputs, output } = f;
    let trap = TrapCall { accumulator, args, no_return: diverges };
    Ok(GeneratedFn { vis, name, inputs, output, sys_num, trap, returns_accumulator: !diverges })
}

} // verus!
