use kernel_core::drivers::EchoDriver;
use kernel_core::drivers::LifeDriver;
use kernel_core::external_call::pack_command_frame;
use kernel_core::external_call::pack_response_frame;
use kernel_core::external_call::ExternalCall;
use kernel_core::external_call::FRAME_LEN;
use kernel_core::router::DriverRegistry;
use kernel_core::router::KernelDriver;
use kernel_core::syscall::CommandReturn;
use kernel_core::syscall::ErrorCode;
use kernel_core::syscall::Syscall;

fn command(driver_number: u32, subdriver_number: u32, arg0: u32, arg1: u32) -> Syscall {
    Syscall::Command {
        driver_number,
        subdriver_number,
        arg0,
        arg1,
    }
}

#[test]
fn command_frame_layout_is_big_endian_with_tag() {
    let frame = pack_command_frame(0x0102_0304, 0x0506_0708, 0x090A_0B0C, 0x0D0E_0F10);
    assert_eq!(
        frame,
        vec![1, 0x01, 0x02, 0x03, 0x04, 0x05, 0x06, 0x07, 0x08, 0x09, 0x0A, 0x0B, 0x0C, 0x0D, 0x0E, 0x0F, 0x10]
    );
}

#[test]
fn command_frame_clears_top_bit_of_driver_number() {
    let frame = pack_command_frame(0x8000_002A, 0, 0, 0);
    assert_eq!(frame[1], 0x00);
    assert_eq!(frame[4], 0x2A);
}

#[test]
fn response_frame_carries_variant_and_payload() {
    let frame = pack_response_frame(CommandReturn::SuccessU32(7));
    let mut expected = vec![2, 0, 0, 0, 129, 0, 0, 0, 7];
    expected.extend_from_slice(&[0; 8]);
    assert_eq!(frame, expected);
    let failure = pack_response_frame(CommandReturn::Failure(ErrorCode::Nodevice));
    assert_eq!(failure[0], 2);
    assert_eq!(&failure[1..5], &[0, 0, 0, 0]);
    assert_eq!(&failure[5..9], &[0, 0, 0, 11]);
}

#[test]
fn unpack_parses_what_pack_wrote() {
    let mut call = ExternalCall::new(1, vec![0; FRAME_LEN], vec![0; FRAME_LEN]);
    let sent = call
        .pack_syscall_and_send(command(0x0000_002A, 3, 0xDEAD_BEEF, 17))
        .unwrap();
    assert_eq!(sent.len(), FRAME_LEN);
    // The peer receives the frame: feed it back as a reception.
    let r = call.received_buffer(sent).unwrap();
    assert!(r.is_none(), "a pending job must hold the receive buffer");
    assert!(call.has_tasks());
    let parsed = call.unpack_bytes().unwrap();
    assert_eq!(parsed, command(0x0000_002A, 3, 0xDEAD_BEEF, 17));
}

#[test]
fn unpack_without_buffer_is_inval() {
    let mut call = ExternalCall::new(1, vec![0; FRAME_LEN], vec![0; FRAME_LEN]);
    // Hand the receive buffer out and do not give it back.
    let lent = call.receive().unwrap();
    assert!(lent.is_some());
    assert_eq!(call.unpack_bytes(), Err(ErrorCode::Inval));
}

#[test]
fn unpack_short_buffer_is_size_error() {
    let call = ExternalCall::new(1, vec![0; FRAME_LEN], vec![0; 4]);
    assert_eq!(call.unpack_bytes(), Err(ErrorCode::Size));
}

#[test]
fn transmission_busy_while_buffer_is_out() {
    let mut call = ExternalCall::new(1, vec![0; FRAME_LEN], vec![0; FRAME_LEN]);
    let first = call.start_transmission(&[9, 9, 9]).unwrap();
    assert_eq!(&first[..3], &[9, 9, 9]);
    assert_eq!(
        call.start_transmission(&[1]),
        Err(ErrorCode::Busy)
    );
    // Returning the buffer makes transmission possible again.
    let _ = call.transmitted_buffer(first);
    assert!(call.start_transmission(&[1]).is_ok());
}

#[test]
fn transmission_copies_at_most_buffer_length() {
    let mut call = ExternalCall::new(1, vec![0xFF; 4], vec![0; FRAME_LEN]);
    let sent = call.start_transmission(&[1, 2]).unwrap();
    assert_eq!(sent, vec![1, 2, 0xFF, 0xFF]);
    let _ = call.transmitted_buffer(sent);
    let sent = call.start_transmission(&[5, 6, 7, 8, 9]).unwrap();
    assert_eq!(sent, vec![5, 6, 7, 8]);
}

#[test]
fn receive_is_noop_while_job_pending() {
    let mut call = ExternalCall::new(1, vec![0; FRAME_LEN], vec![0; FRAME_LEN]);
    let mut frame = vec![1u8];
    frame.extend_from_slice(&[0; 16]);
    let r = call.received_buffer(frame);
    assert_eq!(r.unwrap(), None);
    assert!(call.has_tasks());
    assert_eq!(call.receive().unwrap(), None);
}

#[test]
fn response_frame_reception_sets_no_job() {
    let mut call = ExternalCall::new(1, vec![0; FRAME_LEN], vec![0; FRAME_LEN]);
    let mut frame = vec![2u8];
    frame.extend_from_slice(&[0; 16]);
    let r = call.received_buffer(frame).unwrap();
    assert!(r.is_some(), "no job pending: the buffer goes right back out");
    assert!(!call.has_tasks());
}

#[test]
fn driver_num_is_external_checks_top_bit() {
    let call = ExternalCall::new(1, vec![], vec![]);
    assert!(call.driver_num_is_external(0x8000_0000));
    assert!(call.driver_num_is_external(0xFFFF_FFFF));
    assert!(!call.driver_num_is_external(0x7FFF_FFFF));
    assert!(!call.driver_num_is_external(0));
}

#[test]
fn service_next_pending_answers_over_the_wire() {
    let mut registry = DriverRegistry::new();
    registry.register(42, KernelDriver::Echo(EchoDriver::new()));
    let mut call = ExternalCall::new(1, vec![0; FRAME_LEN], vec![0; FRAME_LEN]);

    // Nothing pending: nothing to do.
    assert_eq!(call.service_next_pending(&registry).unwrap(), None);

    // A request frame arrives: echo of 7 at driver 42, command 0.
    let request = pack_command_frame(42, 0, 7, 0);
    call.received_buffer(request).unwrap();
    assert!(call.has_tasks());

    let response = call
        .service_next_pending(&registry)
        .unwrap()
        .expect("a pending job must produce a response transmission");
    assert!(!call.has_tasks());
    assert_eq!(response, pack_response_frame(CommandReturn::SuccessU32(7)));
}

#[test]
fn service_answers_nodevice_for_unknown_driver() {
    let mut registry = DriverRegistry::new();
    registry.register(42, KernelDriver::Life(LifeDriver::new()));
    let mut call = ExternalCall::new(1, vec![0; FRAME_LEN], vec![0; FRAME_LEN]);
    let request = pack_command_frame(9, 0, 0, 0);
    call.received_buffer(request).unwrap();
    let response = call.service_next_pending(&registry).unwrap().unwrap();
    assert_eq!(
        response,
        pack_response_frame(CommandReturn::Failure(ErrorCode::Nodevice))
    );
}

#[test]
fn handle_external_syscall_transmits_the_answer() {
    let mut registry = DriverRegistry::new();
    registry.register(42, KernelDriver::Life(LifeDriver::new()));
    let mut call = ExternalCall::new(5, vec![0; FRAME_LEN], vec![0; FRAME_LEN]);
    let pid = kernel_core::syscall::ProcessId::new(5, 0);
    let bytes = call
        .handle_external_syscall(&registry, pid, command(42, 0, 0, 0))
        .unwrap();
    assert_eq!(bytes, pack_response_frame(CommandReturn::SuccessU32(42)));
}
