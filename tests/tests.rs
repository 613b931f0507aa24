use proc_syscall::{
    arg_register, expand, function_name, never_returns, syscall, AccumulatorUse, AliasedType,
    BareFn, FnArg, ItemType, Register, ReturnType, SyscallError, TypeExpr,
};

fn arg(name: &str, ty: &str) -> FnArg {
    FnArg { name: Some(name.to_string()), ty: ty.to_string() }
}

fn unnamed(ty: &str) -> FnArg {
    FnArg { name: None, ty: ty.to_string() }
}

fn fn_item(vis: &str, ident: &str, inputs: Vec<FnArg>, output: ReturnType) -> ItemType {
    ItemType {
        vis: vis.to_string(),
        ident: ident.to_string(),
        ty: AliasedType::BareFn(BareFn { inputs, output }),
    }
}

fn value(ty: &str) -> ReturnType {
    ReturnType::Type(TypeExpr::Other(ty.to_string()))
}

fn never() -> ReturnType {
    ReturnType::Type(TypeExpr::Never)
}

fn named_args(n: usize) -> Vec<FnArg> {
    (0..n).map(|i| arg(&format!("a{}", i), "usize")).collect()
}

#[test]
fn test_sys_exit() {
    let item = fn_item("pub", "SysExit", vec![arg("code", "i32")], never());
    let text = syscall("SYS_EXIT".to_string(), item).unwrap();
    let expected = "#[inline(always)]\n\
#[cfg(target_arch = \"x86_64\")]\n\
pub unsafe fn sys_exit(code: i32) -> ! {\n\
\x20   let rax = SYS_EXIT;\n\
\x20   core::arch::asm!(\n\
\x20       \"syscall\",\n\
\x20       in(\"rax\") rax,\n\
\x20       in(\"rdi\") code,\n\
\x20       clobber_abi(\"system\"),\n\
\x20       options(nostack),\n\
\x20       options(noreturn),\n\
\x20   );\n\
}\n";
    assert_eq!(text, expected);
}

#[test]
fn exit_scenario_has_no_trailing_read() {
    let item = fn_item("pub", "SysExit", vec![arg("code", "i32")], never());
    let g = expand("1".to_string(), item).unwrap();
    assert_eq!(g.name, "sys_exit");
    assert_eq!(g.sys_num, "1");
    assert_eq!(g.trap.accumulator, AccumulatorUse::In);
    assert!(g.trap.no_return);
    assert!(!g.returns_accumulator);
    assert_eq!(g.trap.args.len(), 1);
    assert_eq!(g.trap.args[0].reg, Register::Rdi);
    assert_eq!(g.trap.args[0].var, "code");
}

#[test]
fn read_scenario() {
    let item = fn_item(
        "pub",
        "Read",
        vec![arg("fd", "u32"), arg("buf", "* mut u8"), arg("count", "usize")],
        value("isize"),
    );
    let text = syscall("0".to_string(), item).unwrap();
    let expected = "#[inline(always)]\n\
#[cfg(target_arch = \"x86_64\")]\n\
pub unsafe fn read(fd: u32, buf: * mut u8, count: usize) -> isize {\n\
\x20   let mut rax = 0 as _;\n\
\x20   core::arch::asm!(\n\
\x20       \"syscall\",\n\
\x20       inout(\"rax\") rax,\n\
\x20       in(\"rdi\") fd,\n\
\x20       in(\"rsi\") buf,\n\
\x20       in(\"rdx\") count,\n\
\x20       clobber_abi(\"system\"),\n\
\x20       options(nostack),\n\
\x20   );\n\
\x20   rax\n\
}\n";
    assert_eq!(text, expected);
}

#[test]
fn six_named_parameters_are_accepted() {
    let item = fn_item("", "Mmap", named_args(6), value("usize"));
    let g = expand("9".to_string(), item).unwrap();
    let regs: Vec<Register> = g.trap.args.iter().map(|b| b.reg).collect();
    assert_eq!(
        regs,
        vec![Register::Rdi, Register::Rsi, Register::Rdx, Register::R10, Register::R8, Register::R9]
    );
    let vars: Vec<&str> = g.trap.args.iter().map(|b| b.var.as_str()).collect();
    assert_eq!(vars, vec!["a0", "a1", "a2", "a3", "a4", "a5"]);
}

#[test]
fn seven_parameters_are_too_many() {
    let item = fn_item("", "Mmap", named_args(7), value("usize"));
    assert_eq!(expand("9".to_string(), item).err(), Some(SyscallError::TooManyArguments));
}

#[test]
fn seven_parameters_with_an_unnamed_one_are_too_many() {
    let mut inputs = named_args(6);
    inputs.push(unnamed("usize"));
    let item = fn_item("", "Mmap", inputs, value("usize"));
    assert_eq!(syscall("9".to_string(), item).err(), Some(SyscallError::TooManyArguments));
}

#[test]
fn one_unnamed_parameter_is_refused() {
    let inputs = vec![arg("fd", "u32"), unnamed("usize"), arg("count", "usize")];
    let item = fn_item("pub", "Write", inputs, value("isize"));
    assert_eq!(syscall("1".to_string(), item).err(), Some(SyscallError::UnnamedParameter));
}

#[test]
fn not_a_function_type_is_refused() {
    let item = ItemType {
        vis: "pub".to_string(),
        ident: "Exit".to_string(),
        ty: AliasedType::Other("usize".to_string()),
    };
    assert_eq!(syscall("60".to_string(), item).err(), Some(SyscallError::NotAFunctionType));
}

#[test]
fn registers_depend_on_position_only() {
    let a = fn_item("", "First", vec![arg("x", "u8"), arg("y", "i64")], value("usize"));
    let b = fn_item("", "Second", vec![arg("path", "* const u8"), arg("mode", "u32")], never());
    let ga = expand("2".to_string(), a).unwrap();
    let gb = expand("3".to_string(), b).unwrap();
    for i in 0..2 {
        assert_eq!(ga.trap.args[i].reg, gb.trap.args[i].reg);
        assert_eq!(ga.trap.args[i].reg, arg_register(i));
    }
}

#[test]
fn register_table_order() {
    let names: Vec<&str> = (0..6).map(|i| arg_register(i).name()).collect();
    assert_eq!(names, vec!["rdi", "rsi", "rdx", "r10", "r8", "r9"]);
}

#[test]
fn name_normalization_is_idempotent() {
    for name in ["SysExit", "sys_exit", "Read", "GetPid", "RtSigAction", "clock_gettime"] {
        let once = function_name(&name.to_string());
        let twice = function_name(&once);
        assert_eq!(once, twice);
    }
    assert_eq!(function_name(&"SysExit".to_string()), "sys_exit");
    assert_eq!(function_name(&"sys_exit".to_string()), "sys_exit");
    assert_eq!(function_name(&"GetPid".to_string()), "get_pid");
}

#[test]
fn signature_is_kept_as_written() {
    let item = fn_item(
        "pub(crate)",
        "OpenAt",
        vec![arg("dirfd", "i32"), arg("path", "* const u8"), arg("flags", "i32")],
        value("isize"),
    );
    let text = syscall("257".to_string(), item).unwrap();
    assert!(text.contains("pub(crate) unsafe fn open_at(dirfd: i32, path: * const u8, flags: i32) -> isize {\n"));
}

#[test]
fn default_return_reads_the_accumulator() {
    let item = fn_item("", "SchedYield", vec![], ReturnType::Default);
    let text = syscall("24".to_string(), item).unwrap();
    let expected = "#[inline(always)]\n\
#[cfg(target_arch = \"x86_64\")]\n\
unsafe fn sched_yield() {\n\
\x20   let mut rax = 24 as _;\n\
\x20   core::arch::asm!(\n\
\x20       \"syscall\",\n\
\x20       inout(\"rax\") rax,\n\
\x20       clobber_abi(\"system\"),\n\
\x20       options(nostack),\n\
\x20   );\n\
\x20   rax\n\
}\n";
    assert_eq!(text, expected);
}

#[test]
fn classifier_recognizes_only_never() {
    assert!(never_returns(&never()));
    assert!(!never_returns(&value("usize")));
    assert!(!never_returns(&ReturnType::Default));
}

#[test]
fn error_messages_name_the_rule() {
    assert_eq!(SyscallError::TooManyArguments.message(), "A syscall has a maximum of six arguments");
    assert_eq!(SyscallError::UnnamedParameter.message(), "BareFnArg must have a name");
    assert!(SyscallError::NotAFunctionType.message().starts_with("Must be a fn type"));
}
