use std::collections::HashMap;

use synacore::{
    Command, Console, Dest, Directive, DirectiveError, Event, HaltReason, Stop, VmError, VM,
};

const R0: u16 = 32768;
const R1: u16 = 32769;

fn machine(program: &[u16]) -> VM {
    VM::new(&program.to_vec(), &HashMap::new())
}

fn queue(vm: &VM) -> String {
    vm.input_buffer.iter().collect()
}

#[test]
fn add_to_buffer_appends_the_line_and_a_terminator() {
    let mut vm = machine(&[]);
    vm.add_to_buffer("go north");
    assert_eq!(queue(&vm), "go north\n");
    vm.add_to_buffer("");
    vm.add_to_buffer(".debug");
    assert_eq!(queue(&vm), "go north\n\n.debug\n");
}

#[test]
fn in_reads_the_queue_in_order() {
    let mut vm = machine(&[20, R0, 20, R1, 20, R0, 20, R1]);
    vm.add_to_buffer("hi");
    assert_eq!(vm.step(), Ok(Event::Continue));
    assert_eq!(vm.regs(0), 104);
    assert_eq!(vm.step(), Ok(Event::Continue));
    assert_eq!(vm.regs(1), 105);
    assert_eq!(vm.step(), Ok(Event::Continue));
    assert_eq!(vm.regs(0), 10);
    assert_eq!(vm.ip, 6);
    assert_eq!(vm.step(), Ok(Event::NeedInput));
    assert_eq!(vm.ip, 6);
    assert_eq!(vm.regs(1), 105);
}

#[test]
fn in_keeps_the_low_16_bits_of_a_wide_character() {
    let mut vm = machine(&[20, R0, 20, R1]);
    vm.add_to_buffer("\u{20ac}\u{1f600}");
    assert_eq!(vm.step(), Ok(Event::Continue));
    assert_eq!(vm.regs(0), 0x20ac);
    assert_eq!(vm.step(), Ok(Event::Continue));
    assert_eq!(vm.regs(1), 0xf600);
}

#[test]
fn in_with_a_literal_destination_keeps_the_queue() {
    let mut vm = machine(&[20, 5]);
    assert_eq!(vm.step(), Ok(Event::NeedInput));
    vm.add_to_buffer("x");
    assert_eq!(vm.step(), Err(VmError::InvalidAddress(5)));
    assert_eq!(queue(&vm), "x\n");
}

#[test]
fn run_waits_for_input_and_resumes() {
    // 0: in r0   2: out r0   4: jmp 0
    let mut vm = machine(&[20, R0, 19, R0, 6, 0]);
    let mut console = Console::new();
    assert_eq!(vm.run(&mut console, 1000), Ok(Stop::NeedInput));
    assert!(console.output.is_empty());
    assert_eq!(vm.feed_line("ab"), None);
    assert_eq!(vm.run(&mut console, 1000), Ok(Stop::NeedInput));
    assert_eq!(console.output, vec![97, 98, 10]);
    assert_eq!(vm.ip, 0);
}

#[test]
fn directive_lines_never_reach_the_queue() {
    // 0: in r0   2: out r0   4: jmp 0
    let mut vm = machine(&[20, R0, 19, R0, 6, 0]);
    let mut console = Console::new();
    assert_eq!(vm.run(&mut console, 1000), Ok(Stop::NeedInput));
    assert_eq!(vm.feed_line(".debug"), Some(Ok(Directive::ToggleDebug)));
    assert!(vm.input_buffer.is_empty());
    assert_eq!(vm.run(&mut console, 1000), Ok(Stop::NeedInput));
    assert_eq!(vm.feed_line(".nonsense"), Some(Err(DirectiveError::Unknown)));
    assert!(vm.input_buffer.is_empty());
    assert_eq!(vm.feed_line(".wreg 1 66"), Some(Ok(Directive::WriteRegister { reg: 1, value: 66 })));
    assert!(vm.input_buffer.is_empty());
    assert_eq!(vm.run(&mut console, 1000), Ok(Stop::NeedInput));
    assert!(console.output.is_empty());
    assert_eq!(vm.feed_line("ok"), None);
    assert_eq!(vm.run(&mut console, 1000), Ok(Stop::NeedInput));
    assert_eq!(console.output, vec![111, 107, 10]);
    assert_eq!(vm.regs(1), 66);
}

#[test]
fn feed_line_queues_ordinary_lines() {
    let mut vm = machine(&[]);
    assert_eq!(vm.feed_line("take tablet"), None);
    assert_eq!(vm.feed_line(""), None);
    assert_eq!(vm.feed_line(" .debug"), None);
    assert_eq!(queue(&vm), "take tablet\n\n .debug\n");
    assert!(!vm.debug);
}

#[test]
fn debug_directive_toggles_tracing() {
    let mut vm = machine(&[]);
    assert_eq!(vm.handle_debug(".debug"), Ok(Directive::ToggleDebug));
    assert!(vm.debug);
    assert_eq!(vm.handle_debug(".debug"), Ok(Directive::ToggleDebug));
    assert!(!vm.debug);
    assert_eq!(vm.handle_debug(".debug now"), Ok(Directive::ToggleDebug));
    assert!(vm.debug);
}

#[test]
fn wmem_directive_writes_a_cell_in_hex() {
    let mut vm = machine(&[]);
    assert_eq!(
        vm.handle_debug(".wmem 1f ABCD"),
        Ok(Directive::WriteMemory { addr: 0x1f, value: 0xabcd })
    );
    assert_eq!(vm.mem[0x1f], 0xabcd);
    assert_eq!(
        vm.handle_debug(".wmem 8007 +10 ignored"),
        Ok(Directive::WriteMemory { addr: 0x8007, value: 0x10 })
    );
    assert_eq!(vm.regs(7), 16);
}

#[test]
fn wmem_directive_errors_change_nothing() {
    let mut vm = machine(&[1, 2, 3]);
    let before = vm.mem.clone();
    assert_eq!(
        vm.handle_debug(".wmem"),
        Err(DirectiveError::MissingArguments(Command::Wmem))
    );
    assert_eq!(
        vm.handle_debug(".wmem 10"),
        Err(DirectiveError::MissingArguments(Command::Wmem))
    );
    assert_eq!(
        vm.handle_debug(".wmem 10 xyz"),
        Err(DirectiveError::BadArguments(Command::Wmem))
    );
    assert_eq!(
        vm.handle_debug(".wmem  10 20"),
        Err(DirectiveError::BadArguments(Command::Wmem))
    );
    assert_eq!(
        vm.handle_debug(".wmem 10000 1"),
        Err(DirectiveError::BadArguments(Command::Wmem))
    );
    assert_eq!(
        vm.handle_debug(".wmem 8008 1"),
        Err(DirectiveError::InvalidAddress(0x8008))
    );
    assert_eq!(
        vm.handle_debug(".wmem ffff 1"),
        Err(DirectiveError::InvalidAddress(0xffff))
    );
    assert_eq!(vm.mem, before);
}

#[test]
fn wreg_directive_writes_a_register_in_decimal() {
    let mut vm = machine(&[]);
    assert_eq!(
        vm.handle_debug(".wreg 7 65535"),
        Ok(Directive::WriteRegister { reg: 7, value: 65535 })
    );
    assert_eq!(vm.regs(7), 65535);
    assert_eq!(
        vm.handle_debug(".wreg 0 0012"),
        Ok(Directive::WriteRegister { reg: 0, value: 12 })
    );
    assert_eq!(vm.regs(0), 12);
}

#[test]
fn wreg_directive_errors_change_nothing() {
    let mut vm = machine(&[]);
    assert_eq!(
        vm.handle_debug(".wreg 8 1"),
        Err(DirectiveError::InvalidRegister(8))
    );
    assert_eq!(
        vm.handle_debug(".wreg 65535 1"),
        Err(DirectiveError::InvalidRegister(65535))
    );
    assert_eq!(
        vm.handle_debug(".wreg 1"),
        Err(DirectiveError::MissingArguments(Command::Wreg))
    );
    assert_eq!(
        vm.handle_debug(".wreg a 1"),
        Err(DirectiveError::BadArguments(Command::Wreg))
    );
    assert_eq!(
        vm.handle_debug(".wreg 1 65536"),
        Err(DirectiveError::BadArguments(Command::Wreg))
    );
    assert_eq!(
        vm.handle_debug(".wreg 1 -1"),
        Err(DirectiveError::BadArguments(Command::Wreg))
    );
    assert_eq!(
        vm.handle_debug(".wreg 9 x"),
        Err(DirectiveError::BadArguments(Command::Wreg))
    );
    assert_eq!(vm.registers(), vec![0u16; 8]);
}

#[test]
fn unknown_directives_are_reported() {
    let mut vm = machine(&[]);
    assert_eq!(vm.handle_debug("."), Err(DirectiveError::Unknown));
    assert_eq!(vm.handle_debug(". debug"), Err(DirectiveError::Unknown));
    assert_eq!(vm.handle_debug(".Debug"), Err(DirectiveError::Unknown));
    assert_eq!(vm.handle_debug(".wmemx 1 2"), Err(DirectiveError::Unknown));
    assert!(!vm.debug);
}

#[test]
fn apply_directive_carries_out_a_directive() {
    let mut vm = machine(&[]);
    vm.apply_directive(Directive::WriteMemory { addr: 3, value: 4 });
    vm.apply_directive(Directive::WriteRegister { reg: 2, value: 5 });
    vm.apply_directive(Directive::ToggleDebug);
    assert_eq!(vm.mem[3], 4);
    assert_eq!(vm.regs(2), 5);
    assert!(vm.debug);
    assert_eq!(vm.convert_arg(32770), Ok(5));
    vm.store(Dest::Register(2), 6);
    assert_eq!(vm.regs(2), 6);
}

#[test]
fn a_directive_can_release_a_spinning_program() {
    // 0: jf r0 0   3: out 33   5: halt
    let mut vm = machine(&[8, R0, 0, 19, 33, 0]);
    let mut console = Console::new();
    assert_eq!(vm.run(&mut console, 50), Ok(Stop::OutOfSteps));
    assert_eq!(vm.feed_line(".wreg 0 1"), Some(Ok(Directive::WriteRegister { reg: 0, value: 1 })));
    assert_eq!(vm.run(&mut console, 50), Ok(Stop::Halted(HaltReason::Explicit)));
    assert_eq!(console.output, vec![33]);
}

#[test]
fn any_number_of_directives_before_a_line_deliver_only_the_line() {
    for k in [1usize, 2, 5, 40] {
        // 0: in r0   2: in r1   4: in r2   6: in r3
        let mut vm = machine(&[20, R0, 20, R1, 20, 32770, 20, 32771]);
        let mut console = Console::new();
        assert_eq!(vm.run(&mut console, 100), Ok(Stop::NeedInput));
        let directives = [".debug", ".wreg 5 9", ".wmem 64 1", ".bogus", ".", ".wreg 9 9"];
        for i in 0..k {
            assert!(vm.feed_line(directives[i % directives.len()]).is_some());
            assert!(vm.input_buffer.is_empty());
            vm.debug = false;
            assert_eq!(vm.run(&mut console, 100), Ok(Stop::NeedInput));
            assert_eq!(vm.ip, 0);
        }
        assert_eq!(vm.feed_line("no"), None);
        assert_eq!(vm.run(&mut console, 100), Ok(Stop::NeedInput));
        assert_eq!(vm.regs(0), 110);
        assert_eq!(vm.regs(1), 111);
        assert_eq!(vm.regs(2), 10);
        assert_eq!(vm.ip, 6);
        assert!(console.output.is_empty());
    }
}

#[test]
fn an_empty_line_after_directives_delivers_the_terminator() {
    let mut vm = machine(&[20, R0, 20, R1]);
    let mut console = Console::new();
    assert_eq!(vm.run(&mut console, 100), Ok(Stop::NeedInput));
    assert!(vm.feed_line(".wreg 0 7").is_some());
    assert!(vm.feed_line(".debug").is_some());
    assert!(vm.feed_line(".debug").is_some());
    assert_eq!(vm.feed_line(""), None);
    assert_eq!(vm.run(&mut console, 100), Ok(Stop::NeedInput));
    assert_eq!(vm.regs(0), 10);
    assert_eq!(vm.ip, 2);
}

#[test]
fn a_waiting_in_is_completed_after_a_directive_rewrote_its_cell() {
    // 0: in r0   2: halt
    let mut vm = machine(&[20, R0, 0]);
    let mut console = Console::new();
    assert_eq!(vm.run(&mut console, 100), Ok(Stop::NeedInput));
    assert!(vm.waiting);
    // The directive puts a noop where the waiting `in` stands.
    assert_eq!(
        vm.feed_line(".wmem 0 15"),
        Some(Ok(Directive::WriteMemory { addr: 0, value: 21 }))
    );
    assert_eq!(vm.feed_line("a"), None);
    assert_eq!(vm.step(), Ok(Event::Continue));
    assert_eq!(vm.regs(0), 97);
    assert_eq!(vm.ip, 2);
    assert!(!vm.waiting);
    assert_eq!(queue(&vm), "\n");
    assert_eq!(vm.run(&mut console, 100), Ok(Stop::Halted(HaltReason::Explicit)));
    assert_eq!(vm.ip, 2);
    assert_eq!(vm.mem[0], 21);
    assert!(console.output.is_empty());
}

#[test]
fn directives_alone_do_not_end_the_wait() {
    // 0: in r0   2: halt
    let mut vm = machine(&[20, R0, 0]);
    let mut console = Console::new();
    assert_eq!(vm.run(&mut console, 100), Ok(Stop::NeedInput));
    // Turn the cell of the waiting `in r0` into `out r0`, and set r0.
    assert_eq!(
        vm.feed_line(".wmem 0 13"),
        Some(Ok(Directive::WriteMemory { addr: 0, value: 19 }))
    );
    assert_eq!(vm.feed_line(".wreg 0 65"), Some(Ok(Directive::WriteRegister { reg: 0, value: 65 })));
    assert!(vm.input_buffer.is_empty());
    assert_eq!(vm.run(&mut console, 100), Ok(Stop::NeedInput));
    assert_eq!(vm.run(&mut console, 100), Ok(Stop::NeedInput));
    assert!(vm.waiting);
    assert_eq!(vm.ip, 0);
    assert!(console.output.is_empty());
    assert_eq!(vm.feed_line("z"), None);
    assert_eq!(vm.run(&mut console, 100), Ok(Stop::Halted(HaltReason::Explicit)));
    assert_eq!(vm.regs(0), 122);
    assert_eq!(vm.ip, 2);
    assert!(console.output.is_empty());
}

#[test]
fn a_waiting_in_takes_its_destination_as_it_stands_after_the_directives() {
    // 0: in r0   2: halt
    let mut vm = machine(&[20, R0, 0]);
    assert_eq!(vm.step(), Ok(Event::NeedInput));
    assert_eq!(
        vm.feed_line(".wmem 1 8001"),
        Some(Ok(Directive::WriteMemory { addr: 1, value: R1 }))
    );
    assert_eq!(vm.feed_line("q"), None);
    assert_eq!(vm.step(), Ok(Event::Continue));
    assert_eq!(vm.regs(0), 0);
    assert_eq!(vm.regs(1), 113);
    assert_eq!(vm.ip, 2);

    let mut vm = machine(&[20, R0, 0]);
    assert_eq!(vm.step(), Ok(Event::NeedInput));
    assert!(vm.feed_line(".wmem 1 7").is_some());
    assert_eq!(vm.feed_line("q"), None);
    assert_eq!(vm.step(), Err(VmError::InvalidAddress(7)));
    assert!(vm.waiting);
    assert_eq!(vm.ip, 0);
    assert_eq!(queue(&vm), "q\n");
}

#[test]
fn the_machine_waits_only_after_an_in_on_an_empty_queue() {
    // 0: in r0   2: noop   3: in r1
    let mut vm = machine(&[20, R0, 21, 20, R1]);
    assert!(!vm.waiting);
    vm.add_to_buffer("");
    assert_eq!(vm.step(), Ok(Event::Continue));
    assert!(!vm.waiting);
    assert_eq!(vm.step(), Ok(Event::Continue));
    assert!(!vm.waiting);
    assert_eq!(vm.step(), Ok(Event::NeedInput));
    assert!(vm.waiting);
    assert_eq!(vm.step(), Ok(Event::NeedInput));
    assert!(vm.waiting);
    assert_eq!(vm.ip, 3);
    vm.add_to_buffer("x");
    assert_eq!(vm.step(), Ok(Event::Continue));
    assert!(!vm.waiting);
    assert_eq!(vm.regs(1), 120);
    assert_eq!(vm.ip, 5);
}

#[test]
fn a_traced_wait_records_the_completed_in() {
    let mut vm = machine(&[20, R0, 0]);
    vm.debug = true;
    let mut console = Console::new();
    assert_eq!(vm.run(&mut console, 100), Ok(Stop::NeedInput));
    assert!(console.trace.is_empty());
    assert!(vm.feed_line(".wmem 0 15").is_some());
    assert_eq!(vm.feed_line("a"), None);
    let (event, record) = vm.step_traced();
    assert_eq!(event, Ok(Event::Continue));
    let t = record.unwrap();
    assert_eq!(t.ip, 0);
    assert_eq!(t.instr, synacore::Instr::In { a: R0 });
    assert_eq!(t.next_ip, 2);
    assert_eq!(t.registers[0], 97);
}
