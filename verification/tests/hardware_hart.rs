use security_monitor::architecture::control_status_registers::ControlStatusRegisters;
use security_monitor::architecture::general_purpose_registers::{
    GeneralPurposeRegister, GeneralPurposeRegisters,
};
use security_monitor::architecture::hart_architectural_state::HartArchitecturalState;
use security_monitor::architecture::is_bit_enabled;
use security_monitor::architecture::sbi::{AceExtension, SbiExtension};
use security_monitor::architecture::specification::{
    CSR_HSTATUS_GVA, CSR_HSTATUS_SPV, CSR_HSTATUS_SPVP, CSR_MSTATUS_MPIE, CSR_MSTATUS_MPP,
    CSR_MSTATUS_MPV, CSR_MSTATUS_SIE, CSR_MSTATUS_SPP, CSR_SSTATUS_SPP,
};
use security_monitor::architecture::trap_cause::TrapCause;
use security_monitor::control_data::confidential_hart::{ConfidentialHart, ConfidentialVmId};
use security_monitor::control_data::hardware_hart::HardwareHart;
use security_monitor::memory_protector::{HypervisorMemoryProtector, PageSize};
use security_monitor::page_allocator::{Page, UnAllocated};
use security_monitor::transformations::guest_load_page_fault::GuestLoadPageFaultRequest;
use security_monitor::transformations::interrupts::{EnabledInterrupts, InterruptRequest};
use security_monitor::transformations::mmio::{MmioLoadRequest, MmioStoreRequest};
use security_monitor::transformations::opensbi::{OpensbiResult, TrapRegisters};
use security_monitor::transformations::sbi_request::{SbiRequest, SbiVmRequest};
use security_monitor::transformations::sbi_result::SbiResult;
use security_monitor::transformations::ExposeToHypervisor;

const TRAP_HANDLER: u64 = 0x8020_0000;
const RESUME_ADDRESS: u64 = 0x8040_1234;
const STATUS_VALUES: [u64; 6] = [
    0,
    u64::MAX,
    0x0000_0080_0000_0082,
    0x0000_0000_0000_0900,
    0xaaaa_aaaa_aaaa_aaaa,
    0x5555_5555_5555_5555,
];

fn new_hart() -> HardwareHart {
    let stack = Page::<UnAllocated>::init(0x8010_0000, PageSize::Size4KiB, vec![0xa5u64; 512]);
    HardwareHart::init(1, stack.unwrap(), HypervisorMemoryProtector::create())
}

// A hart in the middle of its work: every register holds a value of its own.
fn busy_hart() -> HardwareHart {
    let mut hart = new_hart();
    let all = [
        GeneralPurposeRegister::ra, GeneralPurposeRegister::sp, GeneralPurposeRegister::gp,
        GeneralPurposeRegister::tp, GeneralPurposeRegister::t0, GeneralPurposeRegister::t1,
        GeneralPurposeRegister::t2, GeneralPurposeRegister::s0, GeneralPurposeRegister::s1,
        GeneralPurposeRegister::a0, GeneralPurposeRegister::a1, GeneralPurposeRegister::a2,
        GeneralPurposeRegister::a3, GeneralPurposeRegister::a4, GeneralPurposeRegister::a5,
        GeneralPurposeRegister::a6, GeneralPurposeRegister::a7, GeneralPurposeRegister::s2,
        GeneralPurposeRegister::s3, GeneralPurposeRegister::s4, GeneralPurposeRegister::s5,
        GeneralPurposeRegister::s6, GeneralPurposeRegister::s7, GeneralPurposeRegister::s8,
        GeneralPurposeRegister::s9, GeneralPurposeRegister::s10, GeneralPurposeRegister::s11,
        GeneralPurposeRegister::t3, GeneralPurposeRegister::t4, GeneralPurposeRegister::t5,
        GeneralPurposeRegister::t6,
    ];
    let state = hart.non_confidential_hart_state_mut();
    for register in all {
        state.set_gpr(register, 0x1000 + register.index() as u64);
    }
    state.mepc = RESUME_ADDRESS;
    state.mstatus = 0x0000_0080_0000_1882;
    state.sstatus = 0x101;
    state.hstatus = 0x102;
    state.sepc = 0x103;
    state.scause = 0x104;
    state.stvec = 0x105;
    state.stval = 0x106;
    state.htval = 0x107;
    state.hgatp = 0x108;
    state.hvip = 0x109;
    state.vsstatus = 0x10a;
    state.vsie = 0x10b;
    state.vstvec = 0x10c;
    state.vsscratch = 0x10d;
    state.vsepc = 0x10e;
    state.vscause = 0x10f;
    state.vstval = 0x110;
    state.vsatp = 0x111;
    let csr = hart.control_status_registers_mut();
    csr.mepc.set(0x201);
    csr.mcause.set(0x202);
    csr.mstatus.set(0x203);
    csr.mscratch.set(0x204);
    csr.sstatus.set(0x205);
    csr.sepc.set(0x206);
    csr.scause.set(0x207);
    csr.stvec.set(TRAP_HANDLER);
    csr.stval.set(0x209);
    csr.hstatus.set(0x20a);
    csr.htval.set(0x20b);
    csr.hgatp.set(0x20c);
    csr.hvip.set(0x20d);
    csr.vsstatus.set(0x20e);
    csr.vsie.set(0x20f);
    csr.vstvec.set(0x210);
    csr.vsscratch.set(0x211);
    csr.vsepc.set(0x212);
    csr.vscause.set(0x213);
    csr.vstval.set(0x214);
    csr.vsatp.set(0x215);
    hart
}

fn state_of(hart: &HardwareHart) -> HartArchitecturalState {
    *hart.non_confidential_hart_state()
}

fn bank_of(hart: &HardwareHart) -> ControlStatusRegisters {
    *hart.control_status_registers()
}

// What emulating a trap makes of the saved state and the bank.
fn expect_trap(state: &mut HartArchitecturalState, csr: &mut ControlStatusRegisters, gva: bool) {
    csr.sepc.set(state.mepc);
    state.mepc = csr.stvec.read();
    state.mstatus = (state.mstatus & !((1 << 39) | (1 << 7) | (1 << 1))) | (1 << 11) | (1 << 8);
    let hstatus = csr.hstatus.read() | (1 << 7) | (1 << 8);
    csr.hstatus.set(if gva { hstatus | (1 << 6) } else { hstatus & !(1 << 6) });
    csr.sstatus.set(csr.sstatus.read() | (1 << 8));
}

fn assert_rest_untouched(hart: &HardwareHart, before: &HardwareHart) {
    assert_eq!(hart.stack_address(), before.stack_address());
    assert_eq!(hart.stack().address(), before.stack().address());
    assert_eq!(hart.stack().read(0), before.stack().read(0));
    assert_eq!(hart.confidential_hart(), before.confidential_hart());
}

fn assert_forwarded_trap_status(hart: &HardwareHart, gva: bool) {
    let mstatus = hart.non_confidential_hart_state().mstatus;
    assert!(!is_bit_enabled(mstatus, CSR_MSTATUS_MPV));
    assert!(is_bit_enabled(mstatus, CSR_MSTATUS_MPP));
    assert!(!is_bit_enabled(mstatus, CSR_MSTATUS_MPIE));
    assert!(!is_bit_enabled(mstatus, CSR_MSTATUS_SIE));
    assert!(is_bit_enabled(mstatus, CSR_MSTATUS_SPP));
    let hstatus = hart.control_status_registers().hstatus.read();
    assert!(is_bit_enabled(hstatus, CSR_HSTATUS_SPV));
    assert!(is_bit_enabled(hstatus, CSR_HSTATUS_SPVP));
    assert_eq!(is_bit_enabled(hstatus, CSR_HSTATUS_GVA), gva);
    assert!(is_bit_enabled(hart.control_status_registers().sstatus.read(), CSR_SSTATUS_SPP));
}

fn forwarding_transformations() -> Vec<(ExposeToHypervisor, bool)> {
    vec![
        (ExposeToHypervisor::SbiRequest(SbiRequest::new(1, 2, 3, 4, 5, 6, 7, 8)), false),
        (
            ExposeToHypervisor::SbiVmRequest(SbiVmRequest {
                sbi_request: SbiRequest::new(8, 7, 6, 5, 4, 3, 2, 1),
            }),
            false,
        ),
        (ExposeToHypervisor::MmioLoadRequest(MmioLoadRequest::new(21, 1, 2, 3)), true),
        (
            ExposeToHypervisor::MmioStoreRequest(MmioStoreRequest::new(
                23,
                1,
                2,
                3,
                GeneralPurposeRegister::s5,
                4,
            )),
            true,
        ),
        (ExposeToHypervisor::InterruptRequest(InterruptRequest::new(9)), false),
    ]
}

#[test]
fn init_zeroes_the_stack_and_keeps_its_end() {
    let hart = new_hart();
    assert_eq!(hart.stack_address(), 0x8010_1000);
    assert_eq!(hart.stack().address(), 0x8010_0000);
    assert_eq!(hart.stack().end_address(), hart.stack_address());
    for offset in 0..512 {
        assert_eq!(hart.stack().read(offset * 8), Some(0));
    }
    assert_eq!(state_of(&hart), HartArchitecturalState::empty(1));
    assert_eq!(bank_of(&hart), ControlStatusRegisters::empty());
    assert!(hart.confidential_hart().is_dummy());
    assert_eq!(hart.confidential_hart().confidential_hart_id(), 1);
}

#[test]
fn swap_mscratch_exchanges_and_swaps_back() {
    let mut hart = busy_hart();
    let before = bank_of(&hart);
    hart.swap_mscratch();
    let mut expected = before;
    expected.mscratch.set(0);
    assert_eq!(bank_of(&hart), expected);
    hart.control_status_registers_mut().mscratch.set(0x77);
    hart.swap_mscratch();
    assert_eq!(hart.control_status_registers().mscratch.read(), 0x204);
    hart.swap_mscratch();
    assert_eq!(hart.control_status_registers().mscratch.read(), 0x77);
    assert_eq!(state_of(&hart), state_of(&busy_hart()));
}

#[test]
fn confidential_hart_mut_lets_the_scheduler_swap_harts() {
    let mut hart = busy_hart();
    let mut virtual_hart = ConfidentialHart::from_vm_hart_reset(3, ConfidentialVmId::new(12));
    std::mem::swap(hart.confidential_hart_mut(), &mut virtual_hart);
    assert!(virtual_hart.is_dummy());
    assert!(!hart.confidential_hart().is_dummy());
    assert_eq!(hart.confidential_hart().confidential_vm_id(), Some(ConfidentialVmId::new(12)));
    assert_eq!(hart.confidential_hart().confidential_hart_id(), 3);
    assert_eq!(state_of(&hart), state_of(&busy_hart()));
    assert_eq!(bank_of(&hart), bank_of(&busy_hart()));
}

#[test]
fn store_control_status_registers_saves_the_bank() {
    let mut hart = busy_hart();
    let before = busy_hart();
    let interrupts = hart.store_control_status_registers_in_main_memory();
    assert_eq!(interrupts.hvip(), 0x20d);
    let mut expected = state_of(&before);
    expected.store_control_status_registers_in_main_memory(before.control_status_registers());
    assert_eq!(state_of(&hart), expected);
    assert_eq!(hart.non_confidential_hart_state().mepc, 0x201);
    assert_eq!(hart.non_confidential_hart_state().vsatp, 0x215);
    assert_eq!(hart.non_confidential_hart_state().gprs, before.non_confidential_hart_state().gprs);
    assert_eq!(bank_of(&hart), bank_of(&before));
    assert_rest_untouched(&hart, &before);
}

#[test]
fn store_volatile_control_status_registers_saves_two_registers() {
    let mut hart = busy_hart();
    let before = busy_hart();
    hart.store_volatile_control_status_registers_in_main_memory();
    let mut expected = state_of(&before);
    expected.mepc = 0x201;
    expected.mstatus = 0x203;
    assert_eq!(state_of(&hart), expected);
    assert_eq!(bank_of(&hart), bank_of(&before));
}

#[test]
fn load_control_status_registers_restores_the_bank_and_exposes_interrupts() {
    let mut hart = busy_hart();
    let before = busy_hart();
    hart.load_control_status_registers_from_main_memory(EnabledInterrupts { vsie: 0x222 });
    let mut expected = bank_of(&before);
    let saved = before.non_confidential_hart_state();
    saved.load_control_status_registers_from_main_memory(&mut expected);
    assert_eq!(expected.vsie.read(), 0x10b);
    expected.vsie.set(0x222);
    assert_eq!(bank_of(&hart), expected);
    assert_eq!(hart.control_status_registers().mcause.read(), 0x202);
    assert_eq!(hart.control_status_registers().mscratch.read(), 0x204);
    assert_eq!(hart.control_status_registers().mepc.read(), RESUME_ADDRESS);
    assert_eq!(state_of(&hart), state_of(&before));
}

#[test]
fn load_volatile_control_status_registers_restores_two_registers() {
    let mut hart = busy_hart();
    let before = busy_hart();
    hart.load_volatile_control_status_registers_from_main_memory();
    let mut expected = bank_of(&before);
    expected.mepc.set(RESUME_ADDRESS);
    expected.mstatus.set(0x0000_0080_0000_1882);
    assert_eq!(bank_of(&hart), expected);
    assert_eq!(state_of(&hart), state_of(&before));
}

#[test]
fn apply_enabled_interrupts_writes_vsie_only() {
    let mut hart = busy_hart();
    let before = busy_hart();
    hart.apply(&ExposeToHypervisor::EnabledInterrupts(EnabledInterrupts { vsie: 0x444 }));
    let mut expected = bank_of(&before);
    expected.vsie.set(0x444);
    assert_eq!(bank_of(&hart), expected);
    assert_eq!(state_of(&hart), state_of(&before));
    assert_rest_untouched(&hart, &before);
}

#[test]
fn apply_sbi_result_writes_result_and_advances_pc() {
    let mut hart = busy_hart();
    let before = busy_hart();
    let result = ExposeToHypervisor::SbiResult(SbiResult::new(0xaa, 0xbb, 4));
    assert!(hart.accepts(&result));
    hart.apply(&result);
    let mut expected = state_of(&before);
    expected.set_gpr(GeneralPurposeRegister::a0, 0xaa);
    expected.set_gpr(GeneralPurposeRegister::a1, 0xbb);
    expected.mepc = RESUME_ADDRESS + 4;
    assert_eq!(state_of(&hart), expected);
    assert_eq!(bank_of(&hart), bank_of(&before));
    assert_rest_untouched(&hart, &before);

    hart.apply(&ExposeToHypervisor::SbiResult(SbiResult::new(1, 2, 0)));
    assert_eq!(hart.non_confidential_hart_state().mepc, RESUME_ADDRESS + 4);
}

#[test]
fn accepts_refuses_a_result_that_overflows_the_program_counter() {
    let mut hart = busy_hart();
    hart.non_confidential_hart_state_mut().mepc = u64::MAX - 3;
    assert!(!hart.accepts(&ExposeToHypervisor::SbiResult(SbiResult::new(0, 0, 4))));
    assert!(hart.accepts(&ExposeToHypervisor::SbiResult(SbiResult::new(0, 0, 3))));
    hart.apply(&ExposeToHypervisor::SbiResult(SbiResult::new(0, 0, 3)));
    assert_eq!(hart.non_confidential_hart_state().mepc, u64::MAX);
}

#[test]
fn apply_opensbi_result_writes_what_the_firmware_left() {
    let mut hart = busy_hart();
    let before = busy_hart();
    let mut gprs = GeneralPurposeRegisters::empty();
    gprs.set(GeneralPurposeRegister::a0, 0x51);
    gprs.set(GeneralPurposeRegister::a1, 0x52);
    gprs.set(GeneralPurposeRegister::a2, 0x53);
    gprs.set(GeneralPurposeRegister::sp, 0x54);
    let trap_regs = TrapRegisters { gprs, mepc: 0x9000, mstatus: 0x1800 };
    hart.apply(&ExposeToHypervisor::OpensbiResult(OpensbiResult::from_opensbi_handler(trap_regs)));
    let mut expected = state_of(&before);
    expected.mstatus = 0x1800;
    expected.mepc = 0x9000;
    expected.set_gpr(GeneralPurposeRegister::a0, 0x51);
    expected.set_gpr(GeneralPurposeRegister::a1, 0x52);
    assert_eq!(state_of(&hart), expected);
    assert_eq!(bank_of(&hart), bank_of(&before));
    assert_rest_untouched(&hart, &before);
}

#[test]
fn apply_sbi_request_writes_the_call_and_emulates_a_trap() {
    let mut hart = busy_hart();
    let before = busy_hart();
    hart.apply(&ExposeToHypervisor::SbiRequest(SbiRequest::new(
        0x48534D, 2, 0x11, 0x12, 0x13, 0x14, 0x15, 0x16,
    )));
    let mut state = state_of(&before);
    let mut csr = bank_of(&before);
    state.set_gpr(GeneralPurposeRegister::a7, 0x48534D);
    state.set_gpr(GeneralPurposeRegister::a6, 2);
    state.set_gpr(GeneralPurposeRegister::a0, 0x11);
    state.set_gpr(GeneralPurposeRegister::a1, 0x12);
    state.set_gpr(GeneralPurposeRegister::a2, 0x13);
    state.set_gpr(GeneralPurposeRegister::a3, 0x14);
    state.set_gpr(GeneralPurposeRegister::a4, 0x15);
    state.set_gpr(GeneralPurposeRegister::a5, 0x16);
    csr.scause.set(10);
    expect_trap(&mut state, &mut csr, false);
    assert_eq!(state_of(&hart), state);
    assert_eq!(bank_of(&hart), csr);
    assert_eq!(hart.non_confidential_hart_state().mepc, TRAP_HANDLER);
    assert_eq!(hart.control_status_registers().sepc.read(), RESUME_ADDRESS);
    assert_eq!(hart.non_confidential_hart_state().mstatus, 0x0000_0000_0000_1900);
    assert_eq!(hart.control_status_registers().hstatus.read(), 0x38a);
    assert_eq!(hart.control_status_registers().sstatus.read(), 0x305);
    assert_rest_untouched(&hart, &before);
}

#[test]
fn apply_sbi_vm_request_is_applied_like_the_call_it_holds() {
    let call = SbiRequest::new(0x10, 3, 1, 2, 3, 4, 5, 6);
    let mut hart = busy_hart();
    hart.apply(&ExposeToHypervisor::SbiVmRequest(SbiVmRequest { sbi_request: call }));
    let mut other = busy_hart();
    other.apply(&ExposeToHypervisor::SbiRequest(call));
    assert_eq!(state_of(&hart), state_of(&other));
    assert_eq!(bank_of(&hart), bank_of(&other));
    assert_eq!(*hart.sbi_vm_request().sbi_request(), call);
    assert_eq!(hart.control_status_registers().scause.read(), 10);
}

#[test]
fn apply_mmio_load_request_describes_the_fault_and_emulates_a_trap() {
    let mut hart = busy_hart();
    let before = busy_hart();
    hart.apply(&ExposeToHypervisor::MmioLoadRequest(MmioLoadRequest::new(
        21, 0x1000_0004, 0x0400_0001, 0x0005_2503,
    )));
    let mut state = state_of(&before);
    let mut csr = bank_of(&before);
    csr.scause.set(21);
    csr.stval.set(0x1000_0004);
    csr.htval.set(0x0400_0001);
    csr.vsscratch.set(0x0005_2503);
    expect_trap(&mut state, &mut csr, true);
    assert_eq!(state_of(&hart), state);
    assert_eq!(bank_of(&hart), csr);
    assert_eq!(hart.control_status_registers().hstatus.read(), 0x3ca);
    assert_eq!(hart.non_confidential_hart_state().gprs, before.non_confidential_hart_state().gprs);
    assert_rest_untouched(&hart, &before);
}

#[test]
fn apply_mmio_store_request_writes_the_stored_register() {
    let mut hart = busy_hart();
    let before = busy_hart();
    hart.apply(&ExposeToHypervisor::MmioStoreRequest(MmioStoreRequest::new(
        23,
        0x1000_0008,
        0x0400_0002,
        0x00b5_2023,
        GeneralPurposeRegister::a1,
        0xfeed,
    )));
    let mut state = state_of(&before);
    let mut csr = bank_of(&before);
    csr.scause.set(23);
    csr.stval.set(0x1000_0008);
    csr.htval.set(0x0400_0002);
    csr.vsscratch.set(0x00b5_2023);
    state.set_gpr(GeneralPurposeRegister::a1, 0xfeed);
    expect_trap(&mut state, &mut csr, true);
    assert_eq!(state_of(&hart), state);
    assert_eq!(bank_of(&hart), csr);
    assert_rest_untouched(&hart, &before);
}

#[test]
fn mmio_store_of_zero_with_zero_instruction_still_traps_with_gva() {
    let mut hart = busy_hart();
    let before = busy_hart();
    assert_eq!(hart.non_confidential_hart_state().gpr(GeneralPurposeRegister::t1), 0x1006);
    hart.apply(&ExposeToHypervisor::MmioStoreRequest(MmioStoreRequest::new(
        23,
        0,
        0,
        0,
        GeneralPurposeRegister::t1,
        0,
    )));
    assert!(is_bit_enabled(hart.control_status_registers().hstatus.read(), CSR_HSTATUS_GVA));
    assert_eq!(hart.non_confidential_hart_state().gpr(GeneralPurposeRegister::t1), 0);
    assert_eq!(hart.control_status_registers().vsscratch.read(), 0);
    assert_eq!(hart.control_status_registers().stval.read(), 0);
    assert_eq!(hart.control_status_registers().htval.read(), 0);
    assert_eq!(hart.control_status_registers().scause.read(), 23);
    assert_eq!(hart.non_confidential_hart_state().mepc, TRAP_HANDLER);
    assert_eq!(hart.control_status_registers().sepc.read(), RESUME_ADDRESS);
    let mut gprs = before.non_confidential_hart_state().gprs;
    gprs.set(GeneralPurposeRegister::t1, 0);
    assert_eq!(hart.non_confidential_hart_state().gprs, gprs);
    assert_forwarded_trap_status(&hart, true);
}

#[test]
fn apply_interrupt_request_sets_the_interrupt_bit_of_the_cause() {
    let mut hart = busy_hart();
    let before = busy_hart();
    hart.apply(&ExposeToHypervisor::InterruptRequest(InterruptRequest::new(5)));
    let mut state = state_of(&before);
    let mut csr = bank_of(&before);
    csr.scause.set(0x8000_0000_0000_0005);
    expect_trap(&mut state, &mut csr, false);
    assert_eq!(state_of(&hart), state);
    assert_eq!(bank_of(&hart), csr);
    assert_rest_untouched(&hart, &before);
}

#[test]
fn forwarded_trap_status_holds_for_every_initial_status() {
    for (transformation, gva) in forwarding_transformations() {
        for mstatus in STATUS_VALUES {
            for status in STATUS_VALUES {
                let mut hart = busy_hart();
                hart.non_confidential_hart_state_mut().mstatus = mstatus;
                hart.control_status_registers_mut().hstatus.set(status);
                hart.control_status_registers_mut().sstatus.set(!status);
                assert!(hart.accepts(&transformation));
                hart.apply(&transformation);
                assert_forwarded_trap_status(&hart, gva);
                let kept = !((1u64 << 39) | (1 << 11) | (1 << 8) | (1 << 7) | (1 << 1));
                assert_eq!(hart.non_confidential_hart_state().mstatus & kept, mstatus & kept);
                let kept = !((1u64 << 8) | (1 << 7) | (1 << 6));
                assert_eq!(hart.control_status_registers().hstatus.read() & kept, status & kept);
                let kept = !(1u64 << 8);
                assert_eq!(hart.control_status_registers().sstatus.read() & kept, !status & kept);
            }
        }
    }
}

#[test]
fn previous_privilege_reads_supervisor_unless_its_high_bit_was_set() {
    let mut hart = busy_hart();
    hart.non_confidential_hart_state_mut().mstatus = 0;
    hart.apply_trap(false);
    assert_eq!((hart.non_confidential_hart_state().mstatus >> 11) & 3, 1);
    let mut hart = busy_hart();
    hart.non_confidential_hart_state_mut().mstatus = 1 << 12;
    hart.apply_trap(false);
    assert_eq!((hart.non_confidential_hart_state().mstatus >> 11) & 3, 3);
}

#[test]
fn apply_trap_twice_tracks_the_latest_gva_flag() {
    let mut hart = busy_hart();
    hart.apply_trap(true);
    assert_forwarded_trap_status(&hart, true);
    let mstatus = hart.non_confidential_hart_state().mstatus;
    let sstatus = hart.control_status_registers().sstatus.read();
    hart.apply_trap(false);
    assert_forwarded_trap_status(&hart, false);
    assert_eq!(hart.non_confidential_hart_state().mstatus, mstatus);
    assert_eq!(hart.control_status_registers().sstatus.read(), sstatus);
    assert_eq!(hart.control_status_registers().sepc.read(), TRAP_HANDLER);
    assert_eq!(hart.non_confidential_hart_state().mepc, TRAP_HANDLER);
    hart.apply_trap(true);
    assert_forwarded_trap_status(&hart, true);

    let mut once = busy_hart();
    once.apply_trap(true);
    assert_eq!(
        hart.control_status_registers().hstatus.read(),
        once.control_status_registers().hstatus.read()
    );
}

#[test]
fn mmio_then_interrupt_clears_gva() {
    let mut hart = busy_hart();
    hart.apply(&ExposeToHypervisor::MmioLoadRequest(MmioLoadRequest::new(21, 1, 2, 3)));
    assert!(is_bit_enabled(hart.control_status_registers().hstatus.read(), CSR_HSTATUS_GVA));
    hart.apply(&ExposeToHypervisor::InterruptRequest(InterruptRequest::new(5)));
    assert!(!is_bit_enabled(hart.control_status_registers().hstatus.read(), CSR_HSTATUS_GVA));
    assert_eq!(hart.control_status_registers().vsscratch.read(), 3);
}

#[test]
fn accepts_refuses_forwarding_while_trap_delivery_is_vectored() {
    let mut hart = busy_hart();
    hart.control_status_registers_mut().stvec.set(TRAP_HANDLER | 1);
    let state = state_of(&hart);
    let csr = bank_of(&hart);
    for (transformation, _) in forwarding_transformations() {
        assert!(!hart.accepts(&transformation));
    }
    assert!(hart.accepts(&ExposeToHypervisor::EnabledInterrupts(EnabledInterrupts { vsie: 1 })));
    assert!(hart.accepts(&ExposeToHypervisor::SbiResult(SbiResult::new(0, 0, 4))));
    let firmware = TrapRegisters { gprs: GeneralPurposeRegisters::empty(), mepc: 0, mstatus: 0 };
    let result = OpensbiResult::from_opensbi_handler(firmware);
    assert!(hart.accepts(&ExposeToHypervisor::OpensbiResult(result)));
    assert_eq!(state_of(&hart), state);
    assert_eq!(bank_of(&hart), csr);

    hart.control_status_registers_mut().stvec.set(TRAP_HANDLER | 2);
    for (transformation, _) in forwarding_transformations() {
        assert!(hart.accepts(&transformation));
    }
    hart.control_status_registers_mut().stvec.set(TRAP_HANDLER | 3);
    for (transformation, _) in forwarding_transformations() {
        assert!(!hart.accepts(&transformation));
    }
}

#[test]
fn trap_reason_restores_gprs_for_a_security_monitor_call() {
    let mut hart = busy_hart();
    hart.control_status_registers_mut().mcause.set(9);
    hart.control_status_registers_mut().vstval.set(0x510000);
    hart.control_status_registers_mut().vsepc.set(1010);
    hart.non_confidential_hart_state_mut().set_gpr(GeneralPurposeRegister::a7, 0x510000);
    hart.non_confidential_hart_state_mut().set_gpr(GeneralPurposeRegister::a6, 3001);
    let before_state = state_of(&hart);
    let before_bank = bank_of(&hart);
    let reason = hart.trap_reason();
    let terminate = SbiExtension::Ace(AceExtension::TerminateConfidentialVm);
    assert_eq!(reason, TrapCause::HsEcall(terminate));
    let mut expected = before_state;
    expected.set_gpr(GeneralPurposeRegister::a7, 0x510000);
    expected.set_gpr(GeneralPurposeRegister::a6, 1010);
    assert_eq!(state_of(&hart), expected);
    assert_eq!(bank_of(&hart), before_bank);
}

#[test]
fn trap_reason_leaves_the_hart_alone_for_other_traps() {
    let causes = [
        (9u64, 0x10u64, TrapCause::HsEcall(SbiExtension::Base(0x1010))),
        (10, 0x510000, TrapCause::VsEcall(SbiExtension::Ace(AceExtension::Unknown(0x1010)))),
        (21, 0x510000, TrapCause::GuestLoadPageFault),
        (0x8000_0000_0000_0009, 0x510000, TrapCause::Interrupt),
    ];
    for (cause, extension_id, expected) in causes {
        let mut hart = busy_hart();
        hart.control_status_registers_mut().mcause.set(cause);
        hart.non_confidential_hart_state_mut().set_gpr(GeneralPurposeRegister::a7, extension_id);
        let state = state_of(&hart);
        let csr = bank_of(&hart);
        assert_eq!(hart.trap_reason(), expected);
        assert_eq!(state_of(&hart), state);
        assert_eq!(bank_of(&hart), csr);
    }
}

#[test]
fn restore_original_gprs_then_trap_reason_reports_the_smuggled_identifiers() {
    let mut hart = busy_hart();
    hart.control_status_registers_mut().mcause.set(9);
    hart.control_status_registers_mut().vstval.set(0x510000);
    hart.control_status_registers_mut().vsepc.set(1010);
    // An answer of the hypervisor to an earlier call sits in the registers.
    hart.non_confidential_hart_state_mut().set_gpr(GeneralPurposeRegister::a7, 0xdead_beef);
    hart.non_confidential_hart_state_mut().set_gpr(GeneralPurposeRegister::a6, 0xcafe);
    hart.restore_original_gprs();
    assert_eq!(hart.non_confidential_hart_state().gpr(GeneralPurposeRegister::a7), 0x510000);
    assert_eq!(hart.non_confidential_hart_state().gpr(GeneralPurposeRegister::a6), 1010);
    let restored = state_of(&hart);
    let reason = hart.trap_reason();
    let resume = SbiExtension::Ace(AceExtension::ResumeConfidentialHart);
    assert_eq!(reason, TrapCause::HsEcall(resume));
    assert_eq!(reason, TrapCause::from(9, 0x510000, 1010));
    assert_eq!(state_of(&hart), restored);
    let mut expected = state_of(&busy_hart());
    expected.set_gpr(GeneralPurposeRegister::a7, 0x510000);
    expected.set_gpr(GeneralPurposeRegister::a6, 1010);
    assert_eq!(restored, expected);
}

#[test]
fn resume_and_terminate_requests_read_the_smuggled_identifiers() {
    let mut hart = busy_hart();
    hart.control_status_registers_mut().vstvec.set(7);
    hart.control_status_registers_mut().vsscratch.set(2);
    let state = state_of(&hart);
    let csr = bank_of(&hart);
    let resume = hart.resume_request();
    assert_eq!(resume.confidential_vm_id(), ConfidentialVmId::new(7));
    assert_eq!(resume.confidential_hart_id(), 2);
    let terminate = hart.terminate_request();
    assert_eq!(terminate.confidential_vm_id(), ConfidentialVmId::new(7));
    assert_eq!(state_of(&hart), state);
    assert_eq!(bank_of(&hart), csr);
}

#[test]
fn results_are_read_from_the_saved_state() {
    let hart = busy_hart();
    let hypercall = hart.hypercall_result();
    assert_eq!(hypercall, SbiResult::new(0x100a, 0x100b, 4));
    let share = hart.share_page_result();
    assert!(share.is_error());
    assert_eq!(share.response_code(), 0x100a);
    assert_eq!(share.hypervisor_page_address(), 0x100b);
    let load = hart.guest_load_page_fault_result(GuestLoadPageFaultRequest::new(
        4,
        GeneralPurposeRegister::s3,
    ));
    assert_eq!(load.value(), 0x1013);
    assert_eq!(load.result_gpr(), GeneralPurposeRegister::s3);
    assert_eq!(load.instruction_length(), 4);
    let call = hart.sbi_vm_request();
    assert_eq!(
        *call.sbi_request(),
        SbiRequest::new(0x1011, 0x1010, 0x100a, 0x100b, 0x100c, 0x100d, 0x100e, 0x100f)
    );
    let promote = hart.promote_to_confidential_vm_request();
    assert_eq!(*promote.hart_state(), state_of(&hart));
    let firmware = hart.opensbi_request();
    assert_eq!(firmware.regs.gprs, hart.non_confidential_hart_state().gprs);
    assert_eq!(firmware.regs.mepc, RESUME_ADDRESS);
    assert_eq!(firmware.regs.mstatus, 0x0000_0080_0000_1882);
    assert_eq!(hart.interrupts_to_inject().hvip(), 0x20d);
    assert_eq!(state_of(&hart), state_of(&busy_hart()));
    assert_eq!(bank_of(&hart), bank_of(&busy_hart()));
}

#[test]
fn share_page_result_of_a_successful_call() {
    let mut hart = busy_hart();
    hart.non_confidential_hart_state_mut().set_gpr(GeneralPurposeRegister::a0, 0);
    hart.non_confidential_hart_state_mut().set_gpr(GeneralPurposeRegister::a1, 0x9000_0000);
    let share = hart.share_page_result();
    assert!(!share.is_error());
    assert_eq!(share.hypervisor_page_address(), 0x9000_0000);
}
