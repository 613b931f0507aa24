use vstd::prelude::*;
use crate::emit::{expansion_result, AccumulatorUse, GeneratedFn};
use crate::model::{is_never, AliasedType, ItemType, SyscallError};
use crate::naming::snake_case_of;
use crate::registers::{register_map, MAX_ARGS};
use crate::render::{body_text, function_text, header_text, load_text, signature_text, trap_text};

verus! {

/// Register assignment depends on position alone: two declarations with the
/// same number of parameters, whatever their names and types, bind parameter
/// `i` to the same register, the `i`-th argument register.
pub proof fn lemma_registers_follow_position(
    r1: Result<GeneratedFn, SyscallError>,
    sys_num1: String,
    item1: ItemType,
    r2: Result<GeneratedFn, SyscallError>,
    sys_num2: String,
    item2: ItemType,
)
    requires
        expansion_result(r1, sys_num1, item1),
        expansion_result(r2, sys_num2, item2),
        r1 is Ok,
        r2 is Ok,
        item1.ty is BareFn,
        item2.ty is BareFn,
        item1.ty->BareFn_0.inputs@.len() == item2.ty->BareFn_0.inputs@.len(),
    ensures
        r1->Ok_0.trap.args@.len() == r2->Ok_0.trap.args@.len(),
        forall|i: int|
            0 <= i < r1->Ok_0.trap.args@.len() ==> {
                &&& (#[trigger] r1->Ok_0.trap.args@[i]).reg == r2->Ok_0.trap.args@[i].reg
                &&& r1->Ok_0.trap.args@[i].reg == register_map(i)
            },
{
}

/// A diverging call loads the number, traps with the trap marked as not
/// returning, and ends there; any other call traps and then reads the
/// accumulator once, as the function's value.
pub proof fn lemma_divergence_shapes_body(
    r: Result<GeneratedFn, SyscallError>,
    sys_num: String,
    item: ItemType,
)
    requires
        expansion_result(r, sys_num, item),
        r is Ok,
    ensures
        item.ty is BareFn,
        is_never(item.ty->BareFn_0.output) ==> {
            &&& r->Ok_0.trap.no_return
            &&& r->Ok_0.trap.accumulator == AccumulatorUse::In
            &&& body_text(r->Ok_0) == load_text(sys_num@, false) + trap_text(r->Ok_0.trap)
        },
        !is_never(item.ty->BareFn_0.output) ==> {
            &&& !r->Ok_0.trap.no_return
            &&& r->Ok_0.trap.accumulator == AccumulatorUse::InOut
            &&& body_text(r->Ok_0) == load_text(sys_num@, true) + trap_text(r->Ok_0.trap)
                + "    rax\n"@
        },
{
    let g = r->Ok_0;
    if !g.returns_accumulator {
        assert(body_text(g) =~= load_text(sys_num@, false) + trap_text(g.trap));
    }
}

/// The generated function declares exactly the parameter list and return type
/// of the declaration; only its name and body are written anew.
pub proof fn lemma_signature_round_trip(
    r: Result<GeneratedFn, SyscallError>,
    sys_num: String,
    item: ItemType,
)
    requires
        expansion_result(r, sys_num, item),
        r is Ok,
    ensures
        item.ty is BareFn,
        signature_text(r->Ok_0.inputs@, r->Ok_0.output) == signature_text(
            item.ty->BareFn_0.inputs@,
            item.ty->BareFn_0.output,
        ),
        function_text(r->Ok_0) == header_text(item.vis@, snake_case_of(item.ident@))
            + signature_text(item.ty->BareFn_0.inputs@, item.ty->BareFn_0.output) + " {\n"@
            + body_text(r->Ok_0) + "}\n"@,
{
}

/// Six named parameters are accepted; a seventh is refused as too many.
pub proof fn lemma_argument_limit(
    r: Result<GeneratedFn, SyscallError>,
    sys_num: String,
    item: ItemType,
)
    requires
        expansion_result(r, sys_num, item),
        item.ty is BareFn,
    ensures
        item.ty->BareFn_0.inputs@.len() == MAX_ARGS && (forall|i: int|
            0 <= i < MAX_ARGS ==> (#[trigger] item.ty->BareFn_0.inputs@[i]).name is Some)
            ==> r is Ok,
        item.ty->BareFn_0.inputs@.len() == MAX_ARGS + 1 ==> r == Err::<GeneratedFn, SyscallError>(
            SyscallError::TooManyArguments,
        ),
{
}

/// Within the limit, one unnamed parameter makes the declaration fail as
/// unnamed, however many of the others are named.
pub proof fn lemma_unnamed_parameter(
    r: Result<GeneratedFn, SyscallError>,
    sys_num: String,
    item: ItemType,
    k: int,
)
    requires
        expansion_result(r, sys_num, item),
        item.ty is BareFn,
        item.ty->BareFn_0.inputs@.len() <= MAX_ARGS,
        0 <= k < item.ty->BareFn_0.inputs@.len(),
        item.ty->BareFn_0.inputs@[k].name is None,
    ensures
        r == Err::<GeneratedFn, SyscallError>(SyscallError::UnnamedParameter),
{
}

} // verus!
