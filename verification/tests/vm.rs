use scriptcore::vm::instruction::opcode::Opcode;
use scriptcore::vm::instruction::{instruction_map, Handler, Instruction, State};
use scriptcore::vm::machine::{BinaryOp, Flow, Frame, UnaryOp};
use scriptcore::vm::{
    Context, Error, PredefinedProc, Procedure, Program, ProgramState, Scope, Suspend, Value, Vm,
};

/// A sequence type for the contexts of these tests; nothing ever runs it.
struct Never;

/// Assembles code from tags and raw bytes.
struct Code(Vec<u8>);

impl Code {
    fn new() -> Self {
        Code(Vec::new())
    }

    fn op(mut self, op: Opcode) -> Self {
        self.0.extend_from_slice(&op.to_u16().to_be_bytes());
        self
    }

    fn long(mut self, v: i32) -> Self {
        self = self.op(Opcode::ConstLong);
        self.0.extend_from_slice(&v.to_be_bytes());
        self
    }

    fn float_bits(mut self, v: u32) -> Self {
        self = self.op(Opcode::ConstFloat);
        self.0.extend_from_slice(&v.to_be_bytes());
        self
    }

    fn string(mut self, s: &[u8]) -> Self {
        self = self.op(Opcode::ConstString);
        self.0.extend_from_slice(&(s.len() as u16).to_be_bytes());
        self.0.extend_from_slice(s);
        self
    }

    fn raw(mut self, bytes: &[u8]) -> Self {
        self.0.extend_from_slice(bytes);
        self
    }

    fn program(self) -> Program {
        Program { code: self.0, procs: Vec::new(), pool: Vec::new() }
    }

    fn machine(self) -> ProgramState {
        ProgramState::new(self.program())
    }
}

fn context() -> Context<Never> {
    Context::new(Scope::new(4), Scope::new(4))
}

fn proc(offset: usize, arg_count: usize, hook: Option<PredefinedProc>) -> Procedure {
    Procedure { name: b"p".to_vec(), offset, arg_count, hook }
}

#[test]
fn opcode_codes_are_those_of_the_format() {
    assert_eq!(Opcode::SIZE, 2);
    assert_eq!(Opcode::Noop8000.to_u16(), 0x8000);
    assert_eq!(Opcode::ConstShort.to_u16(), 0x8001);
    assert_eq!(Opcode::Add.to_u16(), 0x8039);
    assert_eq!(Opcode::Playmovierect.to_u16(), 0x807c);
    assert_eq!(Opcode::Addregion.to_u16(), 0x807f);
    assert_eq!(Opcode::CritterStopAttacking.to_u16(), 0x8155);
    assert_eq!(Opcode::ConstString.to_u16(), 0x9001);
    assert_eq!(Opcode::ConstFloat.to_u16(), 0xa001);
    assert_eq!(Opcode::ConstLong.to_u16(), 0xc001);
}

#[test]
fn opcode_decoding_inverts_encoding() {
    let mut known = 0;
    for code in 0..=0xffffu16 {
        if let Some(op) = Opcode::from_u16(code) {
            assert_eq!(op.to_u16(), code);
            known += 1;
        }
    }
    assert_eq!(known, 343);
}

#[test]
fn opcode_numbering_keeps_its_gap() {
    assert_eq!(Opcode::from_u16(0x807d), None);
    assert_eq!(Opcode::from_u16(0x807e), None);
    assert_eq!(Opcode::from_u16(0x7fff), None);
    assert_eq!(Opcode::from_u16(0x8156), None);
    assert_eq!(Opcode::from_u16(0x9000), None);
    assert_eq!(Opcode::from_u16(0xffff), None);
    assert_eq!(Opcode::from_u16(0x807c), Some(Opcode::Playmovierect));
    assert_eq!(Opcode::from_u16(0x807f), Some(Opcode::Addregion));
}

#[test]
fn only_three_opcodes_carry_a_literal() {
    let mut with_literal = Vec::new();
    for code in 0..=0xffffu16 {
        if let Some(op) = Opcode::from_u16(code) {
            if op.has_literal() {
                with_literal.push(op);
            }
        }
    }
    assert_eq!(with_literal, vec![Opcode::ConstString, Opcode::ConstFloat, Opcode::ConstLong]);
}

#[test]
fn instruction_map_has_one_entry_per_opcode() {
    let map = instruction_map();
    assert_eq!(map.len(), 343);
    for (code, instruction) in map.iter() {
        assert_eq!(instruction.opcode().to_u16(), *code);
        assert_eq!(instruction.handler, Handler::for_opcode(instruction.opcode()));
    }
    assert!(!map.contains_key(&0x807d));
    assert!(!map.contains_key(&0x807e));
    assert_eq!(map[&0x8039].opcode(), Opcode::Add);
    assert_eq!(map[&0x8039].handler, Handler::Binary(BinaryOp::Add));
}

#[test]
fn engine_looks_instructions_up_by_code() {
    let vm = Vm::new();
    let add = vm.instruction(0x8039).unwrap();
    assert_eq!(add.opcode(), Opcode::Add);
    assert_eq!(add.handler, Handler::Binary(BinaryOp::Add));
    assert!(vm.instruction(0x807d).is_none());
    assert!(vm.instruction(0x807e).is_none());
    assert!(vm.instruction(0).is_none());
    assert_eq!(vm.instruction(0xc001).unwrap().handler, Handler::ConstInt);
}

#[test]
fn handlers_of_the_returning_family_are_one_primitive() {
    let r = |has_value, is_exit, is_extern| Handler::Return { has_value, is_exit, is_extern };
    assert_eq!(Handler::for_opcode(Opcode::PopFlagsReturn), r(false, false, false));
    assert_eq!(Handler::for_opcode(Opcode::PopFlagsExit), r(false, true, false));
    assert_eq!(Handler::for_opcode(Opcode::PopFlagsReturnExtern), r(false, false, true));
    assert_eq!(Handler::for_opcode(Opcode::PopFlagsExitExtern), r(false, true, true));
    assert_eq!(Handler::for_opcode(Opcode::PopFlagsReturnValExtern), r(true, false, true));
    assert_eq!(Handler::for_opcode(Opcode::PopFlagsReturnValExit), r(true, true, false));
    assert_eq!(Handler::for_opcode(Opcode::PopFlagsReturnValExitExtern), r(true, true, true));
}

#[test]
fn handlers_of_some_opcodes() {
    assert_eq!(Handler::for_opcode(Opcode::Noop8000), Handler::Noop);
    assert_eq!(Handler::for_opcode(Opcode::CriticalStart), Handler::Noop);
    assert_eq!(Handler::for_opcode(Opcode::ConstLong), Handler::ConstInt);
    assert_eq!(Handler::for_opcode(Opcode::ConstFloat), Handler::ConstFloat);
    assert_eq!(Handler::for_opcode(Opcode::ConstString), Handler::ConstString);
    assert_eq!(Handler::for_opcode(Opcode::GsayEnd), Handler::GsayEnd);
    assert_eq!(Handler::for_opcode(Opcode::MapVar), Handler::MapVar);
    assert_eq!(Handler::for_opcode(Opcode::SetGlobalVar), Handler::SetGlobalVar);
    assert_eq!(Handler::for_opcode(Opcode::TileNum), Handler::Host);
    assert_eq!(Handler::for_opcode(Opcode::Wait), Handler::Unimplemented);
    assert_eq!(Handler::for_opcode(Opcode::Negate), Handler::Unary(UnaryOp::Negate));
    assert_eq!(Handler::for_opcode(Opcode::Bwxor), Handler::Binary(BinaryOp::Bwxor));
    assert_eq!(Handler::for_opcode(Opcode::Bwnot), Handler::Unary(UnaryOp::Bwnot));
}

#[test]
fn instruction_state_starts_empty() {
    let s: State<Never> = State::new();
    assert!(s.sequences.is_empty());
    assert!(!s.script_overrides);
}

#[test]
fn binary_operations_on_integers() {
    assert_eq!(BinaryOp::Add.eval(5, 3), Some(8));
    assert_eq!(BinaryOp::Add.eval(i32::MAX, 1), Some(i32::MIN));
    assert_eq!(BinaryOp::Sub.eval(5, 3), Some(2));
    assert_eq!(BinaryOp::Sub.eval(i32::MIN, 1), Some(i32::MAX));
    assert_eq!(BinaryOp::Mul.eval(-4, 6), Some(-24));
    assert_eq!(BinaryOp::Mul.eval(0x10000, 0x10000), Some(0));
    assert_eq!(BinaryOp::Div.eval(7, 2), Some(3));
    assert_eq!(BinaryOp::Div.eval(-7, 2), Some(-3));
    assert_eq!(BinaryOp::Div.eval(7, 0), None);
    assert_eq!(BinaryOp::Div.eval(i32::MIN, -1), None);
    assert_eq!(BinaryOp::Mod.eval(7, 3), Some(1));
    assert_eq!(BinaryOp::Mod.eval(-7, 3), Some(-1));
    assert_eq!(BinaryOp::Mod.eval(7, 0), None);
    assert_eq!(BinaryOp::Equal.eval(2, 2), Some(1));
    assert_eq!(BinaryOp::Equal.eval(2, 3), Some(0));
    assert_eq!(BinaryOp::NotEqual.eval(2, 3), Some(1));
    assert_eq!(BinaryOp::Less.eval(2, 3), Some(1));
    assert_eq!(BinaryOp::Less.eval(3, 3), Some(0));
    assert_eq!(BinaryOp::LessEqual.eval(3, 3), Some(1));
    assert_eq!(BinaryOp::Greater.eval(3, 2), Some(1));
    assert_eq!(BinaryOp::GreaterEqual.eval(2, 3), Some(0));
    assert_eq!(BinaryOp::And.eval(2, 0), Some(0));
    assert_eq!(BinaryOp::And.eval(2, -1), Some(1));
    assert_eq!(BinaryOp::Or.eval(0, 0), Some(0));
    assert_eq!(BinaryOp::Or.eval(0, 9), Some(1));
    assert_eq!(BinaryOp::Bwand.eval(0b1100, 0b1010), Some(0b1000));
    assert_eq!(BinaryOp::Bwor.eval(0b1100, 0b1010), Some(0b1110));
    assert_eq!(BinaryOp::Bwxor.eval(0b1100, 0b1010), Some(0b0110));
    assert_eq!(BinaryOp::Bwand.eval(-1, i32::MIN), Some(i32::MIN));
    assert_eq!(UnaryOp::Bwnot.eval(0), -1);
    assert_eq!(UnaryOp::Bwnot.eval(i32::MAX), i32::MIN);
    assert_eq!(UnaryOp::Negate.eval(5), -5);
    assert_eq!(UnaryOp::Negate.eval(i32::MIN), i32::MIN);
    assert_eq!(UnaryOp::Not.eval(0), 1);
    assert_eq!(UnaryOp::Not.eval(7), 0);
}

#[test]
fn scope_reads_zero_where_nothing_was_written() {
    let s = Scope::new(3);
    assert_eq!(s.len(), 3);
    assert_eq!(s.fetch(0), Ok(Value::Int(0)));
    assert_eq!(s.fetch(2), Ok(Value::Int(0)));
    assert!(!s.is_set(0));
}

#[test]
fn scope_fails_outside_its_declared_size() {
    let mut s = Scope::new(3);
    assert_eq!(s.fetch(3), Err(Error::OutOfBoundsVariable));
    assert_eq!(s.fetch(usize::MAX), Err(Error::OutOfBoundsVariable));
    assert_eq!(s.store(3, Value::Int(1)), Err(Error::OutOfBoundsVariable));
    assert_eq!(s.len(), 3);
    assert_eq!(Scope::new(0).fetch(0), Err(Error::OutOfBoundsVariable));
}

#[test]
fn scope_store_is_read_back_and_touches_no_other_slot() {
    let mut s = Scope::new(3);
    assert_eq!(s.store(1, Value::Object(Some(9))), Ok(()));
    assert_eq!(s.fetch(1), Ok(Value::Object(Some(9))));
    assert_eq!(s.fetch(0), Ok(Value::Int(0)));
    assert_eq!(s.fetch(2), Ok(Value::Int(0)));
    assert!(s.is_set(1));
    assert!(!s.is_set(3));
}

#[test]
fn scope_snapshot_round_trips() {
    let mut s = Scope::new(3);
    s.store(2, Value::Int(-5)).unwrap();
    let values = s.snapshot();
    assert_eq!(values, vec![Value::Int(0), Value::Int(0), Value::Int(-5)]);
    let t = Scope::from_values(&values);
    assert_eq!(t.len(), 3);
    assert_eq!(t.snapshot(), values);
    assert!(t.is_set(0));
    let bits = Scope::from_values(&vec![Value::Float(0x7fc0_0001), Value::Int(i32::MIN)]);
    assert_eq!(bits.snapshot(), vec![Value::Float(0x7fc0_0001), Value::Int(i32::MIN)]);
}

#[test]
fn value_from_bool() {
    assert_eq!(Value::from_bool(true), Value::Int(1));
    assert_eq!(Value::from_bool(false), Value::Int(0));
}

#[test]
fn push_five_push_three_add_leaves_eight() {
    let mut m = Code::new().long(5).long(3).op(Opcode::Add).machine();
    let mut ctx = context();
    assert_eq!(Vm::new().step(&mut m, &mut ctx), Ok(Flow::Continue));
    assert_eq!(Vm::new().step(&mut m, &mut ctx), Ok(Flow::Continue));
    assert_eq!(m.data_stack, vec![Value::Int(5), Value::Int(3)]);
    assert_eq!(Vm::new().step(&mut m, &mut ctx), Ok(Flow::Continue));
    assert_eq!(m.data_stack, vec![Value::Int(8)]);
    assert_eq!(m.pc, 14);
}

#[test]
fn literals_are_read_and_stepped_over() {
    let mut m = Code::new().long(-2).float_bits(0x3fc0_0000).string(b"hello").op(Opcode::Noop8000).machine();
    let mut ctx = context();
    assert_eq!(Vm::new().run(&mut m, &mut ctx, 4), Ok(Flow::Continue));
    assert_eq!(
        m.data_stack,
        vec![Value::Int(-2), Value::Float(0x3fc0_0000), Value::String { start: 16, len: 5 }]
    );
    assert_eq!(&m.program.code[16..21], b"hello");
    assert_eq!(m.program.string(m.data_stack[2]), Some(&b"hello"[..]));
    assert_eq!(m.program.string(m.data_stack[0]), None);
    assert_eq!(m.program.string(Value::String { start: 20, len: 5 }), None);
    assert_eq!(m.program.string(Value::String { start: usize::MAX, len: 2 }), None);
    assert_eq!(m.program.string(Value::String { start: 23, len: 0 }), Some(&b""[..]));
    assert_eq!(m.program.string(Value::String { start: 24, len: 0 }), None);
    assert_eq!(m.pc, 23);
}

#[test]
fn empty_string_literal() {
    let mut m = Code::new().string(b"").machine();
    let mut ctx = context();
    assert_eq!(Vm::new().step(&mut m, &mut ctx), Ok(Flow::Continue));
    assert_eq!(m.data_stack, vec![Value::String { start: 4, len: 0 }]);
    assert_eq!(m.pc, 4);
}

#[test]
fn truncated_code_is_malformed() {
    let mut ctx = context();
    let mut m = Code::new().raw(&[0x80]).machine();
    assert_eq!(Vm::new().step(&mut m, &mut ctx), Err(Error::MalformedCode));
    assert_eq!(m.pc, 0);
    let mut m = Code::new().op(Opcode::ConstLong).raw(&[0, 0, 1]).machine();
    assert_eq!(Vm::new().step(&mut m, &mut ctx), Err(Error::MalformedCode));
    assert_eq!(m.pc, 0);
    assert!(m.data_stack.is_empty());
    let mut m = Code::new().op(Opcode::ConstString).raw(&[0, 3, b'a', b'b']).machine();
    assert_eq!(Vm::new().step(&mut m, &mut ctx), Err(Error::MalformedCode));
    let mut m = Code::new().op(Opcode::ConstString).raw(&[0]).machine();
    assert_eq!(Vm::new().step(&mut m, &mut ctx), Err(Error::MalformedCode));
    let mut m = Code::new().machine();
    assert_eq!(Vm::new().step(&mut m, &mut ctx), Err(Error::MalformedCode));
}

#[test]
fn unknown_code_is_malformed() {
    let mut ctx = context();
    let mut m = Code::new().raw(&[0x80, 0x7d]).machine();
    assert_eq!(Vm::new().step(&mut m, &mut ctx), Err(Error::MalformedCode));
    let mut m = Code::new().raw(&[0x12, 0x34]).machine();
    assert_eq!(Vm::new().step(&mut m, &mut ctx), Err(Error::MalformedCode));
    assert_eq!(m.fetch(), Err(Error::MalformedCode));
}

#[test]
fn fetch_decodes_the_tag_at_the_program_counter() {
    let m = Code::new().op(Opcode::Dup).machine();
    assert_eq!(m.fetch(), Ok(Opcode::Dup));
}

#[test]
fn unimplemented_opcode_fails_and_changes_nothing() {
    let mut m = Code::new().long(1).op(Opcode::Wait).op(Opcode::Pop).machine();
    let mut ctx = context();
    assert_eq!(Vm::new().run(&mut m, &mut ctx, 10), Err(Error::UnimplementedOpcode));
    assert_eq!(m.pc, 6);
    assert_eq!(m.data_stack, vec![Value::Int(1)]);
    assert_eq!(Vm::new().step(&mut m, &mut ctx), Err(Error::UnimplementedOpcode));
}

#[test]
fn short_constant_has_no_handler() {
    let mut m = Code::new().op(Opcode::ConstShort).raw(&[0, 0, 0, 1]).machine();
    let mut ctx = context();
    assert_eq!(Vm::new().step(&mut m, &mut ctx), Err(Error::UnimplementedOpcode));
}

#[test]
fn stack_underflow_changes_nothing() {
    let mut ctx = context();
    for op in [Opcode::Pop, Opcode::Dup, Opcode::Swap, Opcode::Add, Opcode::Negate, Opcode::Jmp, Opcode::If] {
        let mut m = Code::new().op(op).machine();
        assert_eq!(Vm::new().step(&mut m, &mut ctx), Err(Error::StackUnderflow));
        assert_eq!(m.pc, 0);
    }
    let mut m = Code::new().long(1).op(Opcode::Add).machine();
    assert_eq!(Vm::new().run(&mut m, &mut ctx, 5), Err(Error::StackUnderflow));
    assert_eq!(m.data_stack, vec![Value::Int(1)]);
    assert_eq!(m.pc, 6);
}

#[test]
fn bad_operand_type_changes_nothing() {
    let mut ctx = context();
    let mut m = Code::new().long(1).float_bits(0).op(Opcode::Add).machine();
    assert_eq!(Vm::new().run(&mut m, &mut ctx, 5), Err(Error::BadOperandType));
    assert_eq!(m.data_stack, vec![Value::Int(1), Value::Float(0)]);
    assert_eq!(m.pc, 12);
    let mut m = Code::new().long(1).long(0).op(Opcode::Div).machine();
    assert_eq!(Vm::new().run(&mut m, &mut ctx, 5), Err(Error::BadOperandType));
    assert_eq!(m.data_stack, vec![Value::Int(1), Value::Int(0)]);
    let mut m = Code::new().string(b"x").op(Opcode::Not).machine();
    assert_eq!(Vm::new().run(&mut m, &mut ctx, 5), Err(Error::BadOperandType));
    let mut m = Code::new().long(-1).op(Opcode::Jmp).machine();
    assert_eq!(Vm::new().run(&mut m, &mut ctx, 5), Err(Error::BadOperandType));
    let mut m = Code::new().long(1).op(Opcode::Call).machine();
    assert_eq!(Vm::new().run(&mut m, &mut ctx, 5), Err(Error::BadOperandType));
}

#[test]
fn stack_instructions() {
    let mut ctx = context();
    let mut m = Code::new().long(1).long(2).op(Opcode::Swap).op(Opcode::Dup).op(Opcode::Pop).op(Opcode::Pop).machine();
    assert_eq!(Vm::new().run(&mut m, &mut ctx, 3), Ok(Flow::Continue));
    assert_eq!(m.data_stack, vec![Value::Int(2), Value::Int(1)]);
    assert_eq!(Vm::new().step(&mut m, &mut ctx), Ok(Flow::Continue));
    assert_eq!(m.data_stack, vec![Value::Int(2), Value::Int(1), Value::Int(1)]);
    assert_eq!(Vm::new().run(&mut m, &mut ctx, 2), Ok(Flow::Continue));
    assert_eq!(m.data_stack, vec![Value::Int(2)]);
}

#[test]
fn arithmetic_takes_the_top_as_right_operand() {
    let mut ctx = context();
    let mut m = Code::new().long(10).long(3).op(Opcode::Sub).machine();
    assert_eq!(Vm::new().run(&mut m, &mut ctx, 3), Ok(Flow::Continue));
    assert_eq!(m.data_stack, vec![Value::Int(7)]);
    let mut m = Code::new().long(10).long(3).op(Opcode::Less).op(Opcode::Not).machine();
    assert_eq!(Vm::new().run(&mut m, &mut ctx, 4), Ok(Flow::Continue));
    assert_eq!(m.data_stack, vec![Value::Int(1)]);
    let mut m = Code::new().long(10).op(Opcode::Negate).machine();
    assert_eq!(Vm::new().run(&mut m, &mut ctx, 2), Ok(Flow::Continue));
    assert_eq!(m.data_stack, vec![Value::Int(-10)]);
}

#[test]
fn jump_goes_to_the_address_on_the_stack() {
    let mut ctx = context();
    // 0: push 10; 6: jmp; 8: push 1 (skipped); 14: push 2
    let mut m = Code::new().long(14).op(Opcode::Jmp).long(1).long(2).machine();
    assert_eq!(Vm::new().run(&mut m, &mut ctx, 3), Ok(Flow::Continue));
    assert_eq!(m.data_stack, vec![Value::Int(2)]);
    assert_eq!(m.pc, 20);
}

#[test]
fn conditional_jump_is_taken_on_zero() {
    let mut ctx = context();
    // 0: push cond; 6: push 22; 12: if; 14: push 1; 20: noop; 22: push 2
    let code = |cond| Code::new().long(cond).long(22).op(Opcode::If).long(1).op(Opcode::Noop8000).long(2);
    let mut m = code(0).machine();
    assert_eq!(Vm::new().run(&mut m, &mut ctx, 4), Ok(Flow::Continue));
    assert_eq!(m.data_stack, vec![Value::Int(2)]);
    let mut m = code(5).machine();
    assert_eq!(Vm::new().run(&mut m, &mut ctx, 4), Ok(Flow::Continue));
    assert_eq!(m.data_stack, vec![Value::Int(1)]);
    assert_eq!(m.pc, 20);
}

#[test]
fn jump_beyond_the_code_fails_at_the_next_fetch() {
    let mut ctx = context();
    let mut m = Code::new().long(1000).op(Opcode::Jmp).machine();
    assert_eq!(Vm::new().run(&mut m, &mut ctx, 1), Ok(Flow::Continue));
    assert_eq!(Vm::new().step(&mut m, &mut ctx), Ok(Flow::Continue));
    assert_eq!(m.pc, 1000);
    assert_eq!(Vm::new().step(&mut m, &mut ctx), Err(Error::MalformedCode));
    assert_eq!(m.pc, 1000);
}

/// A program whose procedure 0, at offset 100, adds its two arguments.
fn adder() -> ProgramState {
    // main: push 7, push 9 (arguments), then the call is made by hand
    let mut code = Code::new().long(7).long(9);
    while code.0.len() < 100 {
        code = code.op(Opcode::Noop8000);
    }
    // proc 0 at 100: fetch local 0, fetch local 1, add, return with value
    let code = code
        .long(0)
        .op(Opcode::Fetch)
        .long(1)
        .op(Opcode::Fetch)
        .op(Opcode::Add)
        .op(Opcode::PopFlagsReturnValExtern);
    let mut program = code.program();
    program.procs.push(proc(100, 2, None));
    ProgramState::new(program)
}

#[test]
fn call_opens_a_window_and_return_closes_it() {
    let mut ctx = context();
    let mut m = adder();
    m.push(Value::Int(100));
    assert_eq!(Vm::new().run(&mut m, &mut ctx, 2), Ok(Flow::Continue));
    m.push(Value::Proc(0));
    m.flags = 0xabc;
    let call = Instruction::for_opcode(Opcode::Call);
    let pc = m.pc;
    assert_eq!(
        call.execute(scriptcore::vm::instruction::Context { prg: &mut m, ext: &mut ctx }),
        Ok(Flow::Continue)
    );
    assert_eq!(m.pc, 100);
    assert_eq!(m.base, 1);
    assert_eq!(
        m.frames,
        vec![Frame { return_pc: pc, saved_base: 0, arg_count: 2, flags: 0xabc }]
    );
    assert_eq!(m.data_stack, vec![Value::Int(100), Value::Int(7), Value::Int(9)]);
    m.flags = 0;
    assert_eq!(Vm::new().run(&mut m, &mut ctx, 100), Ok(Flow::Returned));
    assert_eq!(m.data_stack, vec![Value::Int(100), Value::Int(16)]);
    assert_eq!(m.base, 0);
    assert_eq!(m.flags, 0xabc);
    assert_eq!(m.pc, pc);
    assert!(m.frames.is_empty());
}

#[test]
fn call_needs_its_arguments() {
    let mut ctx = context();
    let mut m = adder();
    m.push(Value::Int(1));
    m.push(Value::Proc(0));
    let call = Instruction::for_opcode(Opcode::Call);
    assert_eq!(
        call.execute(scriptcore::vm::instruction::Context { prg: &mut m, ext: &mut ctx }),
        Err(Error::StackUnderflow)
    );
    assert_eq!(m.data_stack, vec![Value::Int(1), Value::Proc(0)]);
    assert!(m.frames.is_empty());
}

fn returning(op: Opcode) -> (ProgramState, Result<Flow, Error>) {
    let mut ctx = context();
    let mut m = Code::new().op(op).machine();
    m.push(Value::Int(1));
    m.frames.push(Frame { return_pc: 40, saved_base: 0, arg_count: 1, flags: 5 });
    m.base = 1;
    m.push(Value::Int(2));
    m.push(Value::Int(3));
    let r = Vm::new().step(&mut m, &mut ctx);
    (m, r)
}

#[test]
fn return_family_follows_its_three_flags() {
    let (m, r) = returning(Opcode::PopFlagsReturn);
    assert_eq!(r, Ok(Flow::Continue));
    assert_eq!(m.data_stack, vec![Value::Int(1)]);
    assert_eq!((m.pc, m.base, m.flags, m.frames.len()), (40, 0, 5, 0));
    let (m, r) = returning(Opcode::PopFlagsExit);
    assert_eq!(r, Ok(Flow::Exited));
    assert_eq!(m.data_stack, vec![Value::Int(1)]);
    let (m, r) = returning(Opcode::PopFlagsReturnExtern);
    assert_eq!(r, Ok(Flow::Returned));
    assert_eq!(m.data_stack, vec![Value::Int(1)]);
    let (m, r) = returning(Opcode::PopFlagsExitExtern);
    assert_eq!(r, Ok(Flow::Exited));
    assert_eq!(m.data_stack, vec![Value::Int(1)]);
    let (m, r) = returning(Opcode::PopFlagsReturnValExtern);
    assert_eq!(r, Ok(Flow::Returned));
    assert_eq!(m.data_stack, vec![Value::Int(1), Value::Int(3)]);
    let (m, r) = returning(Opcode::PopFlagsReturnValExit);
    assert_eq!(r, Ok(Flow::Exited));
    assert_eq!(m.data_stack, vec![Value::Int(1), Value::Int(3)]);
    let (m, r) = returning(Opcode::PopFlagsReturnValExitExtern);
    assert_eq!(r, Ok(Flow::Exited));
    assert_eq!(m.data_stack, vec![Value::Int(1), Value::Int(3)]);
    assert_eq!((m.pc, m.base, m.flags, m.frames.len()), (40, 0, 5, 0));
}

#[test]
fn return_without_a_frame_underflows() {
    let mut ctx = context();
    let mut m = Code::new().op(Opcode::PopFlagsReturn).machine();
    m.push(Value::Int(1));
    assert_eq!(Vm::new().step(&mut m, &mut ctx), Err(Error::StackUnderflow));
    assert_eq!(m.data_stack, vec![Value::Int(1)]);
    assert_eq!(m.pc, 0);
}

#[test]
fn values_below_the_window_are_out_of_reach() {
    let mut ctx = context();
    let mut m = Code::new().op(Opcode::Pop).op(Opcode::PopFlagsReturnValExtern).machine();
    m.push(Value::Int(1));
    m.frames.push(Frame { return_pc: 0, saved_base: 0, arg_count: 0, flags: 0 });
    m.base = 1;
    assert_eq!(Vm::new().step(&mut m, &mut ctx), Err(Error::StackUnderflow));
    assert_eq!(m.pop(), Err(Error::StackUnderflow));
    m.pc = 2;
    assert_eq!(Vm::new().step(&mut m, &mut ctx), Err(Error::StackUnderflow));
    assert_eq!(m.data_stack, vec![Value::Int(1)]);
}

#[test]
fn local_variables_live_in_the_window() {
    let mut ctx = context();
    // window: [10, 20]; store 99 to local 1; fetch local 1; fetch local 3 fails
    let mut m = Code::new()
        .long(99)
        .long(1)
        .op(Opcode::Store)
        .long(1)
        .op(Opcode::Fetch)
        .long(3)
        .op(Opcode::Fetch)
        .machine();
    m.push(Value::Int(0));
    m.base = 1;
    m.push(Value::Int(10));
    m.push(Value::Int(20));
    assert_eq!(Vm::new().run(&mut m, &mut ctx, 3), Ok(Flow::Continue));
    assert_eq!(m.data_stack, vec![Value::Int(0), Value::Int(10), Value::Int(99)]);
    assert_eq!(Vm::new().run(&mut m, &mut ctx, 2), Ok(Flow::Continue));
    assert_eq!(m.data_stack, vec![Value::Int(0), Value::Int(10), Value::Int(99), Value::Int(99)]);
    assert_eq!(Vm::new().run(&mut m, &mut ctx, 2), Err(Error::OutOfBoundsVariable));
    assert_eq!(m.data_stack.len(), 5);
}

#[test]
fn local_store_outside_the_window_fails() {
    let mut ctx = context();
    let mut m = Code::new().long(5).long(0).op(Opcode::Store).machine();
    assert_eq!(Vm::new().run(&mut m, &mut ctx, 3), Err(Error::OutOfBoundsVariable));
    assert_eq!(m.data_stack, vec![Value::Int(5), Value::Int(0)]);
    let mut m = Code::new().long(5).long(-1).op(Opcode::Store).machine();
    assert_eq!(Vm::new().run(&mut m, &mut ctx, 3), Err(Error::OutOfBoundsVariable));
}

#[test]
fn map_and_global_variables_read_zero_until_written() {
    let mut ctx = context();
    let mut m = Code::new().long(2).op(Opcode::MapVar).long(3).op(Opcode::GlobalVar).machine();
    assert_eq!(Vm::new().run(&mut m, &mut ctx, 4), Ok(Flow::Continue));
    assert_eq!(m.data_stack, vec![Value::Int(0), Value::Int(0)]);
}

#[test]
fn map_and_global_variables_fail_out_of_range() {
    for op in [Opcode::MapVar, Opcode::GlobalVar] {
        for index in [4, 5, i32::MAX, -1] {
            let mut ctx = context();
            let mut m = Code::new().long(index).op(op).machine();
            assert_eq!(Vm::new().run(&mut m, &mut ctx, 2), Err(Error::OutOfBoundsVariable));
            assert_eq!(m.data_stack, vec![Value::Int(index)]);
            assert_eq!(m.pc, 6);
        }
    }
    for op in [Opcode::SetMapVar, Opcode::SetGlobalVar] {
        let mut ctx = context();
        let mut m = Code::new().long(1).long(4).op(op).machine();
        assert_eq!(Vm::new().run(&mut m, &mut ctx, 3), Err(Error::OutOfBoundsVariable));
        assert_eq!(m.data_stack, vec![Value::Int(1), Value::Int(4)]);
        assert_eq!(ctx.map_vars.snapshot(), vec![Value::Int(0); 4]);
        assert_eq!(ctx.global_vars.snapshot(), vec![Value::Int(0); 4]);
    }
}

#[test]
fn map_and_global_variables_are_separate_scopes() {
    let mut ctx = context();
    let mut m = Code::new()
        .long(11)
        .long(1)
        .op(Opcode::SetMapVar)
        .long(22)
        .long(1)
        .op(Opcode::SetGlobalVar)
        .long(1)
        .op(Opcode::MapVar)
        .long(1)
        .op(Opcode::GlobalVar)
        .machine();
    assert_eq!(Vm::new().run(&mut m, &mut ctx, 10), Ok(Flow::Continue));
    assert_eq!(m.data_stack, vec![Value::Int(11), Value::Int(22)]);
    assert_eq!(ctx.map_vars.fetch(1), Ok(Value::Int(11)));
    assert_eq!(ctx.global_vars.fetch(1), Ok(Value::Int(22)));
    assert_eq!(ctx.map_vars.fetch(0), Ok(Value::Int(0)));
}

#[test]
fn exported_variables_belong_to_the_program() {
    let mut ctx = context();
    let mut program = Code::new()
        .long(5)
        .long(0)
        .op(Opcode::StoreExternal)
        .long(0)
        .op(Opcode::FetchExternal)
        .long(1)
        .op(Opcode::FetchExternal)
        .program();
    program.pool.push(b"counter".to_vec());
    let mut m = ProgramState::new(program);
    assert_eq!(m.exported.len(), 1);
    assert_eq!(Vm::new().run(&mut m, &mut ctx, 5), Ok(Flow::Continue));
    assert_eq!(m.data_stack, vec![Value::Int(5)]);
    assert_eq!(m.exported.fetch(0), Ok(Value::Int(5)));
    assert_eq!(Vm::new().run(&mut m, &mut ctx, 5), Err(Error::OutOfBoundsVariable));
}

#[test]
fn script_overrides_raises_the_flag() {
    let mut ctx = context();
    let mut m = Code::new().op(Opcode::ScriptOverrides).machine();
    assert!(!ctx.state.script_overrides);
    assert_eq!(Vm::new().step(&mut m, &mut ctx), Ok(Flow::Continue));
    assert!(ctx.state.script_overrides);
    assert!(m.data_stack.is_empty());
}

#[test]
fn host_instruction_yields_behind_the_tag() {
    let mut ctx = context();
    let mut m = Code::new().long(3).op(Opcode::TileNum).op(Opcode::Dup).machine();
    assert_eq!(Vm::new().run(&mut m, &mut ctx, 10), Ok(Flow::Host(Opcode::TileNum)));
    assert_eq!(m.pc, 8);
    // The game does the instruction's work through the stack, and the run goes on.
    assert_eq!(m.pop(), Ok(Value::Int(3)));
    m.push(Value::Int(20100));
    assert_eq!(Vm::new().run(&mut m, &mut ctx, 10), Err(Error::MalformedCode));
    assert_eq!(m.data_stack, vec![Value::Int(20100), Value::Int(20100)]);
}

#[test]
fn exit_prog_ends_the_run() {
    let mut ctx = context();
    let mut m = Code::new().long(1).op(Opcode::ExitProg).long(2).machine();
    assert_eq!(Vm::new().run(&mut m, &mut ctx, 10), Ok(Flow::Exited));
    assert_eq!(m.data_stack, vec![Value::Int(1)]);
    assert_eq!(m.pc, 8);
}

#[test]
fn run_stops_when_the_budget_is_used_up() {
    let mut ctx = context();
    // An endless loop: push 0, jmp.
    let mut m = Code::new().long(0).op(Opcode::Jmp).machine();
    assert_eq!(Vm::new().run(&mut m, &mut ctx, 0), Ok(Flow::Continue));
    assert_eq!(m.pc, 0);
    assert_eq!(Vm::new().run(&mut m, &mut ctx, 1001), Ok(Flow::Continue));
    assert_eq!(m.pc, 6);
    assert_eq!(m.data_stack, vec![Value::Int(0)]);
}

#[test]
fn running_in_two_goes_is_running_in_one() {
    let code = || Code::new().long(5).long(3).op(Opcode::Add).long(2).op(Opcode::Mul).op(Opcode::ExitProg);
    let mut ctx = context();
    let mut whole = code().machine();
    let r = Vm::new().run(&mut whole, &mut ctx, 6);
    let mut halves = code().machine();
    assert_eq!(Vm::new().run(&mut halves, &mut ctx, 2), Ok(Flow::Continue));
    assert_eq!(Vm::new().run(&mut halves, &mut ctx, 4), r);
    assert_eq!(r, Ok(Flow::Exited));
    assert_eq!(halves.data_stack, whole.data_stack);
    assert_eq!(whole.data_stack, vec![Value::Int(16)]);
    assert_eq!(halves.pc, whole.pc);
}

#[test]
fn suspension_leaves_the_machine_behind_the_instruction() {
    let mut ctx = context();
    let mut m = Code::new().long(1).op(Opcode::GsayEnd).long(2).op(Opcode::Add).op(Opcode::ExitProg).machine();
    assert_eq!(Vm::new().run(&mut m, &mut ctx, 100), Ok(Flow::Suspend(Suspend::GsayEnd)));
    assert_eq!(m.pc, 8);
    assert_eq!(m.data_stack, vec![Value::Int(1)]);
    assert_eq!(Vm::new().run(&mut m, &mut ctx, 100), Ok(Flow::Exited));
    assert_eq!(m.data_stack, vec![Value::Int(3)]);
}

#[test]
fn suspended_script_ends_like_the_same_script_without_suspension() {
    let code = |op| Code::new().long(1).op(op).long(2).op(Opcode::Add).op(Opcode::ExitProg);
    let mut ctx = context();
    let mut with = code(Opcode::GsayEnd).machine();
    assert_eq!(Vm::new().run(&mut with, &mut ctx, 100), Ok(Flow::Suspend(Suspend::GsayEnd)));
    let parked = with.park();
    assert!(with.data_stack.is_empty());
    with.unpark(parked);
    assert_eq!(Vm::new().run(&mut with, &mut ctx, 100), Ok(Flow::Exited));
    let mut without = code(Opcode::Noop8000).machine();
    assert_eq!(Vm::new().run(&mut without, &mut ctx, 100), Ok(Flow::Exited));
    assert_eq!(with.data_stack, without.data_stack);
    assert_eq!(with.frames, without.frames);
    assert_eq!(with.pc, without.pc);
    assert_eq!(with.base, without.base);
}

#[test]
fn enter_prepares_a_call_from_outside() {
    let mut m = adder();
    m.push(Value::Int(1));
    m.pc = 12;
    m.flags = 3;
    assert_eq!(m.enter(1), Err(Error::BadOperandType));
    assert_eq!(m.data_stack, vec![Value::Int(1)]);
    assert_eq!(m.enter(0), Ok(()));
    assert_eq!(m.pc, 100);
    assert!(m.data_stack.is_empty());
    assert_eq!(m.base, 0);
    assert_eq!(m.frames, vec![Frame { return_pc: 12, saved_base: 0, arg_count: 0, flags: 3 }]);
}

#[test]
fn find_hook_takes_the_first_procedure_that_serves_it() {
    let mut program = Code::new().program();
    assert_eq!(program.find_hook(PredefinedProc::Start), None);
    program.procs.push(proc(0, 0, None));
    program.procs.push(proc(10, 0, Some(PredefinedProc::Talk)));
    program.procs.push(proc(20, 0, Some(PredefinedProc::Start)));
    program.procs.push(proc(30, 0, Some(PredefinedProc::Talk)));
    assert_eq!(program.find_hook(PredefinedProc::Talk), Some(1));
    assert_eq!(program.find_hook(PredefinedProc::Start), Some(2));
    assert_eq!(program.find_hook(PredefinedProc::MapEnter), None);
}

#[test]
fn well_formedness_can_be_checked() {
    let mut m = adder();
    assert!(m.is_well_formed());
    m.push(Value::Int(1));
    m.frames.push(Frame { return_pc: 0, saved_base: 0, arg_count: 0, flags: 0 });
    m.base = 1;
    m.frames.push(Frame { return_pc: 0, saved_base: 1, arg_count: 0, flags: 0 });
    assert!(m.is_well_formed());
    m.base = 2;
    assert!(!m.is_well_formed());
    m.push(Value::Int(2));
    assert!(m.is_well_formed());
    m.frames[0].saved_base = 2;
    assert!(!m.is_well_formed());
    m.frames[0].saved_base = 1;
    m.frames[1].saved_base = 3;
    assert!(!m.is_well_formed());
}
