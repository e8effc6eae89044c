use fam::connection::{CpuConnection, CpuConnectionEndpoint};
use fam::simulation::controller::Controller;
use fam::simulation::cpu::{Cpu, Netlists};
use fam::simulation::cpu_registers::{CpuRegisterBank, CpuRegisterDataReader, CpuRegisterPortName};
use fam::simulation::instruction::Instruction;
use fam::simulation::main_memory::MainMemory;
use fam::simulation::talu::{TaluCore, TaluPortName, TaluState};
use fam::simulation::talu_op::{
    cmp_eval, word_add, word_div, word_mul, word_neg, word_rem, word_shl, word_shr, word_sub,
    CmpOp, TaluOperation,
};
use fam::word::{Activation, ToActivation, ToWord};

fn run_ticks(cpu: &mut Cpu, n: usize) -> Vec<bool> {
    let mut results = Vec::new();
    for _ in 0..n {
        results.push(cpu.execute());
    }
    results
}

#[test]
fn set_literal_writes_register_and_program_terminates() {
    let program = vec![Instruction::SetLiteral { literal: 42, reg_addr: 7 }];
    let mut cpu = Cpu::new(program, Vec::new());
    let first = cpu.execute();
    assert!(first);
    assert_eq!(cpu.register_bank.components[7].value, 42);
    // the tick records the register write and the program-counter wires
    let writer_conn = CpuConnection::new(
        CpuConnectionEndpoint::Controller(
            fam::simulation::controller::ControllerPortName::RegisterWriter,
        ),
        CpuConnectionEndpoint::Register(7, CpuRegisterPortName::Input),
    );
    assert!(cpu.connections.iter().any(|c| *c == writer_conn));
    let pc_read_conn = CpuConnection::new(
        CpuConnectionEndpoint::Controller(
            fam::simulation::controller::ControllerPortName::ProgramCounterReader,
        ),
        CpuConnectionEndpoint::Register(63, CpuRegisterPortName::Output),
    );
    assert!(cpu.connections.iter().any(|c| *c == pc_read_conn));
    // the counter advanced past the end: the next tick halts
    let second = cpu.execute();
    assert!(!second);
    let third = cpu.execute();
    assert!(!third);
}

#[test]
fn jump_loop_never_terminates_and_pc_oscillates() {
    let program = vec![
        Instruction::SetLiteral { literal: 0, reg_addr: 0 },
        Instruction::Jump { addr: 0 },
    ];
    let mut cpu = Cpu::new(program, Vec::new());
    let results = run_ticks(&mut cpu, 10);
    assert!(results.iter().all(|r| *r));
    // after an even number of ticks the counter is back at 0
    assert_eq!(cpu.register_bank.components[63].value, 0);
    assert!(cpu.execute());
    assert_eq!(cpu.register_bank.components[63].value, 1);
}

#[test]
fn cmp_less_than_writes_all_ones_word() {
    let program = vec![
        Instruction::SetLiteral { literal: 3, reg_addr: 0 },
        Instruction::SetLiteral { literal: 5, reg_addr: 1 },
        Instruction::SetLiteral { literal: 1, reg_addr: 10 },
        Instruction::SetTaluConfig {
            talu_addr: 0,
            talu_config: TaluOperation::Cmp {
                op: CmpOp::LessThan,
                activation_input: 10,
                data_input_0: 0,
                data_input_1: 1,
                data_output: 2,
                activation_output: None,
            },
        },
    ];
    let mut cpu = Cpu::new(program, Vec::new());
    // literals, configuration dispatch, then the tick that applies the
    // configuration, reads 3 < 5, and writes the result
    for _ in 0..5 {
        cpu.execute();
    }
    assert_eq!(cpu.register_bank.components[2].value, -1);
}

#[test]
fn cmp_less_than_on_swapped_operands_writes_zero() {
    let program = vec![
        Instruction::SetLiteral { literal: 5, reg_addr: 0 },
        Instruction::SetLiteral { literal: 3, reg_addr: 1 },
        Instruction::SetLiteral { literal: 1, reg_addr: 10 },
        Instruction::SetTaluConfig {
            talu_addr: 0,
            talu_config: TaluOperation::Cmp {
                op: CmpOp::LessThan,
                activation_input: 10,
                data_input_0: 0,
                data_input_1: 1,
                data_output: 2,
                activation_output: None,
            },
        },
        Instruction::NoOp,
    ];
    let mut cpu = Cpu::new(program, Vec::new());
    for _ in 0..6 {
        cpu.execute();
    }
    assert_eq!(cpu.register_bank.components[2].value, 0);
}

#[test]
fn mov_copies_between_registers_via_talu() {
    let program = vec![
        Instruction::SetLiteral { literal: 1234, reg_addr: 0 },
        Instruction::SetLiteral { literal: 1, reg_addr: 1 },
        Instruction::SetTaluConfig {
            talu_addr: 3,
            talu_config: TaluOperation::Mov {
                activation_input: 1,
                value_input: 0,
                data_output: 2,
                activation_output: None,
            },
        },
    ];
    let mut cpu = Cpu::new(program, Vec::new());
    for _ in 0..4 {
        cpu.execute();
    }
    assert_eq!(cpu.register_bank.components[2].value, 1234);
}

#[test]
fn read_and_write_memory_through_talus() {
    let program = vec![
        Instruction::SetLiteral { literal: 1, reg_addr: 1 },
        Instruction::SetLiteral { literal: 2, reg_addr: 0 },
        Instruction::SetTaluConfig {
            talu_addr: 0,
            talu_config: TaluOperation::ReadFromMem {
                activation_input: 1,
                data_input_0: 0,
                data_output_0: 4,
                activation_output: None,
            },
        },
    ];
    let mut cpu = Cpu::new(program, vec![10, 20, 30, 40]);
    for _ in 0..4 {
        cpu.execute();
    }
    assert_eq!(cpu.register_bank.components[4].value, 30);
}

#[test]
fn activation_pulse_true_false_absent() {
    // a lone TALU driven by hand through three ticks of its cycle
    let mut talu = TaluCore::new(0);
    let mut mem = MainMemory::new(Vec::new());
    talu.set_new_operation(TaluOperation::Mov {
        activation_input: 1,
        value_input: 0,
        data_output: 2,
        activation_output: Some(5),
    });
    assert_eq!(talu.state, TaluState::Done);
    // tick 1: activation input reads Active
    talu.data_input_0.store_read_result(77);
    talu.activation_input.store_read_result(-1);
    talu.execute(&mut mem);
    assert_eq!(talu.state, TaluState::JustProcessed);
    let req = talu.activation_output.get_write_request().unwrap();
    assert_eq!(req.value, -1);
    assert_eq!(req.register_addr, 5);
    // tick 2: input inactive: output goes low
    talu.activation_input.store_read_result(0);
    talu.execute(&mut mem);
    assert_eq!(talu.state, TaluState::Closing);
    let req = talu.activation_output.get_write_request().unwrap();
    assert_eq!(req.value, 0);
    // tick 3: still inactive: no pending value at all
    talu.execute(&mut mem);
    assert_eq!(talu.state, TaluState::Done);
    assert!(talu.activation_output.get_write_request().is_none());
}

#[test]
fn reads_of_a_tick_see_pre_tick_values() {
    // the controller waits on register 4 while a TALU writes it: the
    // wait decision of the writing tick still sees the old zero
    let program = vec![
        Instruction::SetLiteral { literal: 1, reg_addr: 1 },
        Instruction::SetTaluConfig {
            talu_addr: 0,
            talu_config: TaluOperation::Mov {
                activation_input: 1,
                value_input: 1,
                data_output: 4,
                activation_output: None,
            },
        },
        Instruction::WaitForActivationSignal { register_index: 4 },
        Instruction::NoOp,
    ];
    let mut cpu = Cpu::new(program, Vec::new());
    cpu.execute();  // literal
    cpu.execute();  // configure
    // config applied; wait dispatched; the TALU's read of r1 this tick
    // is satisfied before its write of r4 lands
    cpu.execute();
    assert_eq!(cpu.register_bank.components[4].value, 1);
    // the next tick's wait read sees the value written last tick
    assert!(cpu.execute());
    assert!(cpu.execute());  // the NoOp after the wait
    assert!(!cpu.execute());  // past the program's end
}

#[test]
fn netlist_closure_either_order() {
    let a = CpuConnectionEndpoint::Register(1, CpuRegisterPortName::Output);
    let b = CpuConnectionEndpoint::Talu(0, TaluPortName::DataIn0);
    let c = CpuConnectionEndpoint::Controller(
        fam::simulation::controller::ControllerPortName::RegisterReader,
    );
    let conn_ab = CpuConnection::new(a, b);
    let conn_bc = CpuConnection::new(b, c);
    let mut nl = Netlists::new();
    nl.add(&conn_ab);
    nl.add(&conn_bc);
    let ida = nl.get_for_endpoint(&a).unwrap();
    let idb = nl.get_for_endpoint(&b).unwrap();
    let idc = nl.get_for_endpoint(&c).unwrap();
    assert_eq!(ida, idb);
    assert_eq!(idb, idc);
    let mut nl2 = Netlists::new();
    nl2.add(&conn_bc);
    nl2.add(&conn_ab);
    let ida = nl2.get_for_endpoint(&a).unwrap();
    let idb = nl2.get_for_endpoint(&b).unwrap();
    let idc = nl2.get_for_endpoint(&c).unwrap();
    assert_eq!(ida, idb);
    assert_eq!(idb, idc);
}

#[test]
fn connection_canonical_form() {
    let a = CpuConnectionEndpoint::Talu(3, TaluPortName::DataOut0);
    let b = CpuConnectionEndpoint::Register(9, CpuRegisterPortName::Input);
    let ab = CpuConnection::new(a, b);
    let ba = CpuConnection::new(b, a);
    assert_eq!(ab, ba);
    assert_eq!(*ab.first(), b);
    assert_eq!(*ab.second(), a);
}

#[test]
fn word_arithmetic_helpers() {
    assert_eq!(word_add(3, 4), (7, false));
    assert_eq!(word_add(i32::MAX, 1), (i32::MIN, true));
    assert_eq!(word_sub(3, 4), (-1, false));
    assert_eq!(word_sub(i32::MIN, 1), (i32::MAX, true));
    assert_eq!(word_mul(6, 7), 42);
    assert_eq!(word_div(7, 2), 3);
    assert_eq!(word_div(-7, 2), -3);
    assert_eq!(word_div(i32::MIN, -1), i32::MIN);
    assert_eq!(word_rem(7, 2), 1);
    assert_eq!(word_rem(-7, 2), -1);
    assert_eq!(word_rem(i32::MIN, -1), 0);
    assert_eq!(word_neg(5), -5);
    assert_eq!(word_neg(i32::MIN), i32::MIN);
    assert_eq!(word_shl(1, 4), 16);
    assert_eq!(word_shr(-8, 1), -4);
    assert_eq!(word_shl(1, 33), 2);
    assert_eq!(cmp_eval(CmpOp::Equal, 4, 4), -1);
    assert_eq!(cmp_eval(CmpOp::NotEqual, 4, 4), 0);
    assert_eq!(cmp_eval(CmpOp::GreaterThanOrEq, 4, 4), -1);
}

#[test]
fn word_activation_conversions() {
    assert_eq!(true.to_word(), -1);
    assert_eq!(false.to_word(), 0);
    assert_eq!(0i32.to_activation(), Activation::Inactive);
    assert_eq!(7i32.to_activation(), Activation::Active);
    assert_eq!((-1i32).to_activation(), Activation::Active);
}

#[test]
fn register_bank_starts_zeroed_with_addresses() {
    let bank = CpuRegisterBank::new();
    assert_eq!(bank.components.len(), 64);
    for (i, r) in bank.components.iter().enumerate() {
        assert_eq!(r.address, i);
        assert_eq!(r.value, 0);
    }
}

#[test]
fn data_reader_lifecycle() {
    let mut r = CpuRegisterDataReader::new();
    assert!(!r.is_active());
    assert_eq!(r.read(), None);
    r.set_connection(Some(9));
    assert!(r.is_active());
    assert_eq!(r.read(), None);
    let req = r.get_read_request().unwrap();
    assert_eq!(req.addr(), 9);
    r.store_read_result(55);
    assert_eq!(r.read(), Some(55));
    r.deactivate();
    assert!(!r.is_active());
}

#[test]
fn controller_halts_on_missing_instruction() {
    let memory = fam::simulation::instruction_reader::InstructionMemory::new(Vec::new());
    let mut controller = Controller::new();
    controller
        .instruction_reader
        .program_counter_reader
        .store_read_result(0);
    let continuing = controller.execute(&memory);
    assert!(!continuing);
}

#[test]
fn reset_all_talus_configures_whole_bank() {
    let program = vec![
        Instruction::SetLiteral { literal: 9, reg_addr: 0 },
        Instruction::ResetAllTalus,
    ];
    let mut cpu = Cpu::new(program, Vec::new());
    cpu.execute();
    cpu.execute();  // dispatch ResetAllTalus
    cpu.execute();  // applied to every unit this tick
    for talu in cpu.talu_bank.components.iter() {
        assert_eq!(talu.operation, TaluOperation::NoOp);
    }
}
