use nimble_backend::ast::{BinOp, Expr, LiteralValue, TargetPlatform, Type};
use nimble_backend::errors::CodegenError;
use nimble_backend::frame::Frame;
use nimble_backend::instr::{push_instrs, Instr};
use nimble_backend::machine::Machine;
use nimble_backend::pool::LiteralPool;
use nimble_backend::expr::lower_expr;
use nimble_backend::stmt::lower_echo;
use nimble_backend::ast::{CallArg, Param};
use nimble_backend::callconv::{bind_args, ArgSource};
use nimble_backend::errors::ArgumentFault;
use nimble_backend::ast::{FunctionDecl, Stmt};
use nimble_backend::config::{parse_config, ConfigError};

fn lit_int(v: i64) -> Expr {
    Expr::Literal(LiteralValue::Int(v))
}

fn bin(l: Expr, op: BinOp, r: Expr) -> Expr {
    Expr::Binary { left: Box::new(l), op, right: Box::new(r) }
}

#[test]
fn intern_string_dedups_byte_identical_strings() {
    let mut pool = LiteralPool::new();
    let i1 = pool.intern_string(String::from("hello"));
    let n_after_first = pool.len();
    let i2 = pool.intern_string(String::from("hello"));
    assert_eq!(i1, i2);
    assert_eq!(pool.len(), n_after_first);
    let i3 = pool.intern_string(String::from("world"));
    assert_ne!(i1, i3);
}

#[test]
fn intern_float_always_appends() {
    let mut pool = LiteralPool::new();
    let bits = 2.5f64.to_bits();
    let i1 = pool.intern_float(bits);
    let i2 = pool.intern_float(bits);
    assert_ne!(i1, i2);
    assert_eq!(pool.len(), 2);
}

#[test]
fn sequential_declarations_use_one_slot_each() {
    let mut frame = Frame::new();
    let mut prev = 0u64;
    for k in 0..10u64 {
        let off = frame.declare(format!("v{}", k), Type::I64);
        assert!(off > prev);
        prev = off;
    }
    assert_eq!(frame.size(), 80);
}

#[test]
fn shadowing_last_writer_wins() {
    let mut frame = Frame::new();
    let first = frame.declare(String::from("x"), Type::I64);
    let second = frame.declare(String::from("x"), Type::Str);
    assert_ne!(first, second);
    let loc = frame.lookup(&String::from("x")).unwrap();
    assert_eq!(loc.stack_offset, second);
}

#[test]
fn integer_expression_lowers_and_executes_to_eleven() {
    // x = 3 + 4 * 2 evaluates to 11 after lowering and running.
    let program = Vec::new();
    let mut pool = LiteralPool::new();
    let mut frame = Frame::new();
    let e = bin(lit_int(3), BinOp::Add, bin(lit_int(4), BinOp::Mul, lit_int(2)));
    let code = lower_expr(&program, TargetPlatform::Linux, &mut pool, &mut frame, &e)
        .expect("lowering failed");
    let mut m = Machine::new();
    assert!(m.run(&code));
    assert_eq!(m.rax, 11);
}

#[test]
fn integer_ops_match_two_complement_semantics() {
    let program = Vec::new();
    let cases: [(i64, BinOp, i64, i64); 5] = [
        (7, BinOp::Add, 5, 12),
        (7, BinOp::Sub, 9, -2),
        (-3, BinOp::Mul, 4, -12),
        (i64::MAX, BinOp::Add, 1, i64::MIN),
        (i64::MIN, BinOp::Sub, 1, i64::MAX),
    ];
    for (a, op, b, want) in cases {
        let mut pool = LiteralPool::new();
        let mut frame = Frame::new();
        let e = bin(lit_int(a), op, lit_int(b));
        let code = lower_expr(&program, TargetPlatform::Linux, &mut pool, &mut frame, &e)
            .expect("lowering failed");
        let mut m = Machine::new();
        assert!(m.run(&code));
        assert_eq!(m.rax, want);
    }
}

#[test]
fn float_modulo_fails_with_unsupported_operator() {
    let program = Vec::new();
    let mut pool = LiteralPool::new();
    let mut frame = Frame::new();
    let e = bin(
        Expr::Literal(LiteralValue::Float(1.5f64.to_bits())),
        BinOp::Mod,
        Expr::Literal(LiteralValue::Float(2.5f64.to_bits())),
    );
    let r = lower_expr(&program, TargetPlatform::Linux, &mut pool, &mut frame, &e);
    assert!(matches!(r, Err(CodegenError::UnsupportedOperator(BinOp::Mod))));
}

#[test]
fn float_division_lowers_to_divsd() {
    let program = Vec::new();
    let mut pool = LiteralPool::new();
    let mut frame = Frame::new();
    let e = bin(
        Expr::Literal(LiteralValue::Float(1.0f64.to_bits())),
        BinOp::Div,
        Expr::Literal(LiteralValue::Float(2.0f64.to_bits())),
    );
    let code = lower_expr(&program, TargetPlatform::Linux, &mut pool, &mut frame, &e)
        .expect("lowering failed");
    let mut text = String::new();
    push_instrs(&mut text, &code);
    assert!(text.contains("divsd xmm0, xmm1"));
}

#[test]
fn echo_string_literal_appends_platform_line_terminator() {
    // The literal itself is stored untouched; the platform's line
    // terminator rides in the fixed `%s` format string.
    let program = Vec::new();

    let mut pool = LiteralPool::new();
    let mut frame = Frame::new();
    let e = Expr::Literal(LiteralValue::Str(String::from("hi")));
    lower_echo(&program, TargetPlatform::Linux, &mut pool, &mut frame, &e)
        .expect("echo failed");
    let data = pool.render_data_segment();
    assert!(data.contains("str_0 db `hi`, 0"));
    assert!(data.contains("str_1 db `%s`, 10, 0"));

    let mut pool_w = LiteralPool::new();
    let mut frame_w = Frame::new();
    let e2 = Expr::Literal(LiteralValue::Str(String::from("hi")));
    lower_echo(&program, TargetPlatform::Windows, &mut pool_w, &mut frame_w, &e2)
        .expect("echo failed");
    let data_w = pool_w.render_data_segment();
    assert!(data_w.contains("str_1 db `%s`, 13, 10, 0"));
}

#[test]
fn echo_literal_bytes_are_never_read_as_a_format() {
    // A user literal holding conversion specifiers is passed as a
    // plain argument behind a fixed `%s` conversion.
    let program = Vec::new();
    let mut pool = LiteralPool::new();
    let mut frame = Frame::new();
    let e = Expr::Literal(LiteralValue::Str(String::from("100%d")));
    let code = lower_echo(&program, TargetPlatform::Linux, &mut pool, &mut frame, &e)
        .expect("echo failed");
    let data = pool.render_data_segment();
    assert!(data.contains("str_0 db `100%d`, 0"));
    assert!(data.contains("str_1 db `%s`, 10, 0"));
    let mut text = String::new();
    push_instrs(&mut text, &code);
    assert!(text.contains("lea rsi, [rel str_0]"));
    assert!(text.contains("lea rdi, [rel str_1]"));
}

#[test]
fn interpolated_echo_orders_specifiers_and_registers() {
    // One string variable then one float variable: the format string
    // holds %s then %f in source order, and the arguments go to the
    // first integer value register and the first float register.
    let program = Vec::new();
    let mut pool = LiteralPool::new();
    let mut frame = Frame::new();
    frame.declare(String::from("s"), Type::Str);
    frame.declare(String::from("f"), Type::F64);
    let e = Expr::InterpolatedString(vec![
        Expr::Variable(String::from("s")),
        Expr::Variable(String::from("f")),
    ]);
    lower_echo(&program, TargetPlatform::Linux, &mut pool, &mut frame, &e)
        .expect("echo failed");
    let data = pool.render_data_segment();
    assert!(data.contains("str_0 db `%s%f`, 10, 0"));
}

#[test]
fn fresh_session_has_no_active_loop_context() {
    let cg = nimble_backend::codegen::Codegen::new(Vec::new(), TargetPlatform::Linux);
    assert!(cg.loop_stack.is_empty());
}

#[test]
fn rendered_mov_uses_decimal_immediates() {
    let mut out = String::new();
    let code = vec![Instr::MovImm(nimble_backend::instr::Reg::Rax, -42)];
    push_instrs(&mut out, &code);
    assert_eq!(out, "    mov rax, -42\n");
}

#[test]
fn keyword_and_positional_arguments_bind_by_parameter_identity() {
    // Two-parameter callee; first argument positional, second by
    // keyword out of textual order: both bind to their declared
    // parameters.
    let params = vec![
        Param { name: String::from("a"), ty: Type::I64, default: None },
        Param { name: String::from("b"), ty: Type::I64, default: None },
    ];
    let args = vec![
        CallArg { name: Some(String::from("b")), value: lit_int(2) },
        CallArg { name: None, value: lit_int(1) },
    ];
    let bound = bind_args(&params, &args).expect("binding failed");
    assert_eq!(bound, vec![ArgSource::Positional(1), ArgSource::Named(0)]);
}

#[test]
fn missing_required_parameter_is_a_binding_error() {
    let params = vec![Param { name: String::from("a"), ty: Type::I64, default: None }];
    let args: Vec<CallArg> = Vec::new();
    let r = bind_args(&params, &args);
    assert_eq!(
        r,
        Err(CodegenError::ArgumentBindingError(ArgumentFault::MissingParameter(String::from(
            "a"
        ))))
    );
}

#[test]
fn excess_positional_arguments_are_rejected() {
    let params = vec![Param { name: String::from("a"), ty: Type::I64, default: None }];
    let args = vec![
        CallArg { name: None, value: lit_int(1) },
        CallArg { name: None, value: lit_int(2) },
    ];
    let r = bind_args(&params, &args);
    assert_eq!(r, Err(CodegenError::ArgumentBindingError(ArgumentFault::ExcessPositional)));
}

#[test]
fn unresolved_variable_reports_its_name() {
    let program = Vec::new();
    let mut pool = LiteralPool::new();
    let mut frame = Frame::new();
    let e = Expr::Variable(String::from("ghostvar"));
    let r = lower_expr(&program, TargetPlatform::Linux, &mut pool, &mut frame, &e);
    match r {
        Err(CodegenError::UnresolvedIdentifier(n)) => assert_eq!(n, "ghostvar"),
        other => panic!("unexpected result: {:?}", other),
    }
}

#[test]
fn break_outside_any_loop_is_control_flow_misuse() {
    let mut cg = nimble_backend::codegen::Codegen::new(Vec::new(), TargetPlatform::Linux);
    let r = cg.lower_stmt(&Stmt::Break);
    assert!(matches!(r, Err(CodegenError::ControlFlowMisuse)));
    let r2 = cg.lower_stmt(&Stmt::Continue);
    assert!(matches!(r2, Err(CodegenError::ControlFlowMisuse)));
}

#[test]
fn while_loop_emits_start_test_backedge_and_end() {
    let mut cg = nimble_backend::codegen::Codegen::new(Vec::new(), TargetPlatform::Linux);
    let s = Stmt::While {
        condition: lit_int(1),
        body: Box::new(Stmt::Break),
    };
    let code = cg.lower_stmt(&s).expect("lowering failed");
    let mut text = String::new();
    push_instrs(&mut text, &code);
    assert!(text.contains("WHILE_START_1:"));
    assert!(text.contains("    cmp rax, 0\n    je WHILE_END_2"));
    assert!(text.contains("    jmp WHILE_END_2"));
    assert!(text.contains("    jmp WHILE_START_1"));
    assert!(text.ends_with("WHILE_END_2:\n"));
}

#[test]
fn generated_program_computes_eleven_and_prints_it() {
    // x = 3 + 4 * 2; echo x — the assembled text holds the literal
    // pool, the entry point, the arithmetic, the print call and the
    // process exit.
    let body = Stmt::Block(vec![
        Stmt::Assign { name: String::from("x"), value: bin(lit_int(3), BinOp::Add, bin(lit_int(4), BinOp::Mul, lit_int(2))) },
        Stmt::Echo(Expr::Variable(String::from("x"))),
    ]);
    let program = vec![FunctionDecl {
        name: String::from("main"),
        params: Vec::new(),
        return_type: Type::Void,
        body,
    }];
    let mut cg = nimble_backend::codegen::Codegen::new(program, TargetPlatform::Linux);
    let emitted = cg.generate().expect("generation failed");
    assert!(emitted.starts_with("section .data\n"));
    assert!(emitted.contains("str_0 db `%d`, 10, 0"));
    assert!(emitted.contains("section .text\n"));
    assert!(emitted.contains("    global _start\n"));
    assert!(emitted.contains("_start:\n    push rbp\n    mov rbp, rsp\n"));
    assert!(emitted.contains("    mov rax, 2\n    push rax\n    mov rax, 4\n    pop rbx\n    imul rax, rbx\n"));
    assert!(emitted.contains("    pop rbx\n    add rax, rbx\n"));
    assert!(emitted.contains("    call printf\n"));
    assert!(emitted.contains("    mov rax, 60\n    syscall\n"));
}

#[test]
fn function_parameters_bind_from_abi_registers_in_order() {
    let program = vec![FunctionDecl {
        name: String::from("f"),
        params: vec![
            Param { name: String::from("a"), ty: Type::I64, default: None },
            Param { name: String::from("b"), ty: Type::I64, default: None },
        ],
        return_type: Type::Void,
        body: Stmt::Empty,
    }];
    let mut cg = nimble_backend::codegen::Codegen::new(program, TargetPlatform::Linux);
    let code = cg.lower_function_at(0).expect("lowering failed");
    let mut text = String::new();
    push_instrs(&mut text, &code);
    assert!(text.starts_with("f:\n    push rbp\n    mov rbp, rsp\n"));
    assert!(text.contains("    mov [rbp - 8], rdi\n"));
    assert!(text.contains("    mov [rbp - 16], rsi\n"));
    assert!(text.ends_with("    mov rsp, rbp\n    pop rbp\n    ret\n"));
}

#[test]
fn too_many_float_parameters_are_a_binding_error() {
    let params: Vec<Param> = (0..5)
        .map(|k| Param { name: format!("p{}", k), ty: Type::F64, default: None })
        .collect();
    let program = vec![FunctionDecl {
        name: String::from("f"),
        params,
        return_type: Type::Void,
        body: Stmt::Empty,
    }];
    let mut cg = nimble_backend::codegen::Codegen::new(program, TargetPlatform::Linux);
    let r = cg.lower_function_at(0);
    assert!(matches!(
        r,
        Err(CodegenError::ArgumentBindingError(ArgumentFault::TooManyFloatArguments))
    ));
}

#[test]
fn windows_program_appends_the_self_hosted_formatter() {
    let program = vec![FunctionDecl {
        name: String::from("main"),
        params: Vec::new(),
        return_type: Type::Void,
        body: Stmt::Echo(Expr::Literal(LiteralValue::Str(String::from("hi")))),
    }];
    let mut cg = nimble_backend::codegen::Codegen::new(program, TargetPlatform::Windows);
    let emitted = cg.generate().expect("generation failed");
    assert!(emitted.contains("    global main\n"));
    assert!(emitted.contains("main:\n"));
    assert!(emitted.contains("SetConsoleOutputCP"));
    assert!(emitted.contains("_printf:\n"));
    assert!(emitted.contains("call WriteFile"));
    assert!(emitted.contains("call ExitProcess"));
}

#[test]
fn parse_config_binds_flags_and_defaults() {
    let args: Vec<String> = ["nim", "prog.nim", "--target", "windows", "-Iextra"]
        .iter()
        .map(|a| a.to_string())
        .collect();
    let cfg = parse_config(args, vec![String::from("lib")], TargetPlatform::Linux)
        .expect("parsing failed");
    assert_eq!(cfg.input_file, "prog.nim");
    assert_eq!(cfg.target_platform, TargetPlatform::Windows);
    assert!(!cfg.show_help);
    assert_eq!(cfg.include_paths, vec![".", "./libs", "lib", "extra"]);
}

#[test]
fn parse_config_defaults_to_host_and_help_without_input() {
    let args: Vec<String> = vec![String::from("nim")];
    let cfg = parse_config(args, Vec::new(), TargetPlatform::Macos).expect("parsing failed");
    assert_eq!(cfg.target_platform, TargetPlatform::Macos);
    assert!(cfg.show_help);

    let args2: Vec<String> = ["nim", "--help"].iter().map(|a| a.to_string()).collect();
    let cfg2 = parse_config(args2, Vec::new(), TargetPlatform::Linux).expect("parsing failed");
    assert!(cfg2.show_help);
}

#[test]
fn parse_config_rejects_bad_command_lines() {
    let args: Vec<String> = ["nim", "--target"].iter().map(|a| a.to_string()).collect();
    assert!(matches!(
        parse_config(args, Vec::new(), TargetPlatform::Linux),
        Err(ConfigError::MissingTargetValue)
    ));
    let args2: Vec<String> = ["nim", "--target", "plan9"].iter().map(|a| a.to_string()).collect();
    assert!(matches!(
        parse_config(args2, Vec::new(), TargetPlatform::Linux),
        Err(ConfigError::UnknownTarget(t)) if t == "plan9"
    ));
    let args3: Vec<String> = ["nim", "bogus"].iter().map(|a| a.to_string()).collect();
    assert!(matches!(
        parse_config(args3, Vec::new(), TargetPlatform::Linux),
        Err(ConfigError::UnknownArgument(a)) if a == "bogus"
    ));
}
