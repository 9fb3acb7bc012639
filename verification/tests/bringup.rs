use kernel_addr::acpi::xsdt_entry_count;
use kernel_addr::align_down;
use kernel_addr::align_up;
use kernel_addr::exceptions::error_code;
use kernel_addr::exceptions::InterruptFrame;
use kernel_addr::exceptions::INVALID_TSS;
use kernel_addr::syscall::efer_enable_syscalls;
use kernel_addr::syscall::gdt_selector;
use kernel_addr::syscall::star_image;
use kernel_addr::syscall::SYSCALL_FLAG_MASK;
use kernel_addr::Exception;
use kernel_addr::ExceptionHandler;

#[test]
fn align_bounds_on_concrete_values() {
    assert_eq!(align_down(0x1234, 0x100), 0x1200);
    assert_eq!(align_up(0x1234, 0x100), 0x1300);
    assert_eq!(align_up(0x1200, 0x100), 0x1200);
    assert_eq!(align_down(0, 0x1000), 0);
    assert_eq!(align_up(0, 0x1000), 0);
    assert_eq!(align_down(7, 1), 7);
    assert_eq!(align_up(7, 1), 7);
    let v: u64 = 0xdead_beef;
    let a: u64 = 0x1000;
    let down = align_down(v, a);
    let up = align_up(v, a);
    assert!(down <= v && v < down + a);
    assert!(v <= up && up - down == a);
}

#[test]
fn selector_composition() {
    assert_eq!(gdt_selector(1, 0), 0x08);
    assert_eq!(gdt_selector(3, 3), 0x1b);
}

#[test]
fn star_image_places_both_selector_bases() {
    assert_eq!(star_image(0x08, 0x1b), 0x001b_0008_0000_0000);
    assert_eq!(star_image(0, 0), 0);
}

#[test]
fn efer_keeps_other_bits() {
    assert_eq!(efer_enable_syscalls(0), 1);
    assert_eq!(efer_enable_syscalls(0x500), 0x501);
    assert_eq!(efer_enable_syscalls(0xd01), 0xd01);
}

#[test]
fn flag_mask_clears_trap_and_interrupt_flags() {
    assert_eq!(SYSCALL_FLAG_MASK, 0x300);
}

#[test]
fn xsdt_entry_count_excludes_the_header() {
    assert_eq!(xsdt_entry_count(36), 0);
    assert_eq!(xsdt_entry_count(36 + 40), 5);
    assert_eq!(xsdt_entry_count(36 + 43), 5);
}

#[test]
fn exception_mnemonics() {
    assert_eq!(error_code(INVALID_TSS), "#TS");
    assert_eq!(error_code(0x0), "#DE");
    assert_eq!(error_code(0xd), "#GP");
    assert_eq!(error_code(0xff), "Unknown");
}

#[test]
fn handler_reports_its_vector() {
    let frame = InterruptFrame {
        instruction_pointer: 0x1000,
        code_segment: 0x08,
        cpu_flags: 0x202,
        stack_pointer: 0x7000,
        stack_segment: 0x10,
    };
    let vector = <ExceptionHandler<INVALID_TSS> as Exception<INVALID_TSS>>::handle(frame);
    assert_eq!(vector, INVALID_TSS);
}
