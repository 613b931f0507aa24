//! Generates the function that performs a Linux x86-64 system call from a
//! declaration of its number, parameters and return type.
//!
//! The work runs in three steps: the declaration is validated, its return type
//! classified as diverging or not, and each parameter bound by position to its
//! argument register. `expand` yields the generated function as a model,
//! `render` writes it out, and `syscall` does both.
mod emit;
mod laws;
mod model;
mod naming;
mod registers;
mod render;

pub use emit::{
    bind_registers, binds_in_order, expand, expansion_result, generated_from, shaped_for,
    AccumulatorUse, GeneratedFn, RegBinding, TrapCall,
};
pub use laws::{
    lemma_argument_limit, lemma_divergence_shapes_body, lemma_registers_follow_position,
    lemma_signature_round_trip, lemma_unnamed_parameter,
};
pub use model::{
    all_named, error_message, is_never, never_returns, AliasedType, BareFn, FnArg, ItemType,
    ReturnType, SyscallError, TypeExpr,
};
pub use naming::{function_name, snake_case_of};
pub use registers::{
    arg_register, lemma_register_map_distinct, register_map, register_name, Register, MAX_ARGS,
};
pub use render::{
    accumulator_line, arg_string, arg_text, binding_line, bindings_string, bindings_text,
    body_string, body_text, expands_to_text, function_text, header_text, load_text, options_text,
    params_string, params_text, render, return_string, return_text, signature_text, syscall,
    tail_text, trap_string, trap_text, vis_text,
};
