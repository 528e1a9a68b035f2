use kernel_core::external_redirect::handle_external_syscall;
use kernel_core::external_redirect::ExternalCall;
use kernel_core::drivers::LifeDriver;
use kernel_core::drivers::MaryDriver;
use kernel_core::router::DriverRegistry;
use kernel_core::router::KernelDriver;
use kernel_core::syscall::CommandReturn;
use kernel_core::syscall::ErrorCode;
use kernel_core::syscall::ProcessId;
use kernel_core::syscall::Syscall;
use kernel_core::uart1::UartCapsule;
use kernel_core::virtual_uart::TestVirtualUartReceive;
use kernel_core::virtual_uart::TestVirtualUartTransmit;

#[test]
fn redirect_services_only_when_pending() {
    let mut registry = DriverRegistry::new();
    registry.register(2, KernelDriver::Mary(MaryDriver::new()));
    let mut call = ExternalCall::new(3);
    assert!(!call.has_tasks());
    assert_eq!(call.service_pending(&registry), None);
    call.set();
    assert!(call.has_tasks());
    // The probe request is driver 2, command 1, argument 1: Mary rejects
    // the argument as not her age.
    assert_eq!(
        call.service_pending(&registry),
        Some(CommandReturn::Failure(ErrorCode::Inval))
    );
    assert!(!call.has_tasks());
    assert_eq!(call.service_pending(&registry), None);
}

#[test]
fn redirect_handle_routes_through_registry() {
    let mut registry = DriverRegistry::new();
    registry.register(42, KernelDriver::Life(LifeDriver::new()));
    let pid = ProcessId::new(1, 0);
    let hit = handle_external_syscall(
        &registry,
        pid,
        Syscall::Command {
            driver_number: 42,
            subdriver_number: 0,
            arg0: 0,
            arg1: 0,
        },
    );
    assert_eq!(hit, CommandReturn::SuccessU32(42));
    let miss = handle_external_syscall(
        &registry,
        pid,
        Syscall::Command {
            driver_number: 1,
            subdriver_number: 0,
            arg0: 0,
            arg1: 0,
        },
    );
    assert_eq!(miss, CommandReturn::Failure(ErrorCode::Nodevice));
}

#[test]
fn uart_capsule_transmission_copies_and_blocks_until_returned() {
    let mut capsule = UartCapsule::new(vec![0; 4], vec![0; 4]);
    let sent = capsule.start_transmission(&[1, 2, 3]).unwrap();
    assert_eq!(sent, vec![1, 2, 3, 0]);
    assert_eq!(capsule.start_transmission(&[9]), Err(ErrorCode::Busy));
    capsule.transmitted_buffer(sent);
    assert!(capsule.start_transmission(&[9]).is_ok());
}

#[test]
fn uart_capsule_receive_lends_buffer_once() {
    let mut capsule = UartCapsule::new(vec![0; 4], vec![7; 4]);
    let lent = capsule.receive().unwrap();
    assert_eq!(lent, vec![7; 4]);
    assert_eq!(capsule.receive(), Err(ErrorCode::Busy));
}

#[test]
fn uart_capsule_pongs_with_incremented_first_byte() {
    let mut capsule = UartCapsule::new(vec![0; 4], vec![0; 4]);
    let lent = capsule.receive().unwrap();
    drop(lent);
    let arrived = vec![0x61, 0x62, 0x63, 0x64];
    let sent = capsule.received_buffer(arrived).unwrap();
    assert_eq!(sent, vec![0x62, 0x62, 0x63, 0x64]);
    // The buffer is back for the next reception, incremented.
    let lent = capsule.receive().unwrap();
    assert_eq!(lent, vec![0x62, 0x62, 0x63, 0x64]);
}

#[test]
fn uart_capsule_pong_wraps_at_byte_limit() {
    let mut capsule = UartCapsule::new(vec![0; 2], vec![0; 2]);
    let _ = capsule.receive().unwrap();
    let sent = capsule.received_buffer(vec![255, 1]).unwrap();
    assert_eq!(sent, vec![0, 1]);
}

#[test]
fn virtual_uart_transmit_runs_full_buffer() {
    let mut test = TestVirtualUartTransmit::new(vec![42; 1]);
    let (buf, len) = test.run();
    assert_eq!(buf, vec![42]);
    assert_eq!(len, 1);
    let (again, len2) = test.transmitted_buffer(buf, len);
    assert_eq!(again, vec![42]);
    assert_eq!(len2, 1);
}

#[test]
fn virtual_uart_receive_runs_full_buffer() {
    let mut test = TestVirtualUartReceive::new(vec![0; 7]);
    let (buf, len) = test.run();
    assert_eq!(buf.len(), 7);
    assert_eq!(len, 7);
    let (again, len2) = test.received_buffer(buf, 3);
    assert_eq!(again.len(), 7);
    assert_eq!(len2, 3);
}
