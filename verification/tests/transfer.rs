use nrf52::registers::{Register, RegisterOp};
use nrf52::uart::{
    ClientId, Error, Interrupt, Outcome, Transmit, TransmitError, Unimplemented, BUF_SIZE,
    ENDRX_INTERRUPT, ENDTX_INTERRUPT, TASK_TRIGGER, UARTE,
};

fn start_ops(len: u32) -> Vec<RegisterOp> {
    vec![
        RegisterOp::PointTx { offset: 0 },
        RegisterOp::Write { register: Register::TxdMaxCnt, value: len },
        RegisterOp::Write { register: Register::TaskStopTx, value: 1 },
        RegisterOp::Write { register: Register::TaskStartTx, value: 1 },
        RegisterOp::Write { register: Register::IntenSet, value: 0x100 },
    ]
}

fn completion_ops() -> Vec<RegisterOp> {
    vec![
        RegisterOp::Write { register: Register::IntenClr, value: 0x100 },
        RegisterOp::Write { register: Register::TaskStopTx, value: 1 },
    ]
}

fn continuation_ops(offset: usize) -> Vec<RegisterOp> {
    vec![
        RegisterOp::Write { register: Register::IntenClr, value: 0x100 },
        RegisterOp::Write { register: Register::TaskStopTx, value: 1 },
        RegisterOp::PointTx { offset },
        RegisterOp::Write { register: Register::TaskStartTx, value: 1 },
        RegisterOp::Write { register: Register::IntenSet, value: 0x100 },
    ]
}

#[test]
fn constants() {
    assert_eq!(BUF_SIZE, 64);
    assert_eq!(ENDTX_INTERRUPT, 1 << 8);
    assert_eq!(ENDRX_INTERRUPT, 1 << 4);
    assert_eq!(TASK_TRIGGER, 1);
}

#[test]
fn new_device_is_quiescent() {
    let uart = UARTE::new();
    assert_eq!(uart.remaining_bytes(), 0);
    assert_eq!(uart.offset(), 0);
    assert_eq!(uart.client(), None);
    assert!(!uart.holds_buffer());
    assert_eq!(uart.staging(), &[0u8; 64]);
}

#[test]
fn set_client_registers_and_overwrites() {
    let mut uart = UARTE::new();
    uart.set_client(ClientId { id: 1 });
    assert_eq!(uart.client(), Some(ClientId { id: 1 }));
    uart.set_client(ClientId { id: 2 });
    assert_eq!(uart.client(), Some(ClientId { id: 2 }));
    assert_eq!(uart.remaining_bytes(), 0);
    assert_eq!(uart.offset(), 0);
    assert!(!uart.holds_buffer());
}

#[test]
fn transmit_ten_bytes_then_complete() {
    let mut uart = UARTE::new();
    uart.set_client(ClientId { id: 1 });
    let buf = vec![0xAAu8; 10];

    let started = uart.transmit(buf.clone(), 10);
    assert_eq!(started, Transmit::Started { ops: start_ops(10) });
    assert_eq!(uart.remaining_bytes(), 10);
    assert_eq!(uart.offset(), 0);
    assert!(uart.holds_buffer());
    assert_eq!(&uart.staging()[..10], &[0xAAu8; 10][..]);
    assert_eq!(&uart.staging()[10..], &[0u8; 54][..]);

    let answer = uart.handle_interrupt(1, 10);
    assert_eq!(
        answer,
        Interrupt {
            ops: completion_ops(),
            outcome: Outcome::Completed {
                client: ClientId { id: 1 },
                buffer: buf,
                error: Error::CommandComplete,
            },
        }
    );
    assert_eq!(uart.remaining_bytes(), 0);
    assert!(!uart.holds_buffer());
}

#[test]
fn transmit_five_bytes_partial_burst_of_three() {
    let mut uart = UARTE::new();
    uart.set_client(ClientId { id: 1 });
    let buf = vec![10u8, 20, 30, 40, 50];

    let started = uart.transmit(buf.clone(), 5);
    assert_eq!(started, Transmit::Started { ops: start_ops(5) });

    let answer = uart.handle_interrupt(1, 3);
    assert_eq!(answer.outcome, Outcome::Continued);
    assert_eq!(answer.ops, continuation_ops(3));
    assert_eq!(uart.remaining_bytes(), 2);
    assert_eq!(uart.offset(), 3);
    assert!(uart.holds_buffer());
    assert_eq!(&uart.staging()[uart.offset()..5], &[40u8, 50][..]);

    let answer = uart.handle_interrupt(1, 2);
    assert_eq!(
        answer.outcome,
        Outcome::Completed {
            client: ClientId { id: 1 },
            buffer: buf,
            error: Error::CommandComplete,
        }
    );
    assert_eq!(answer.ops, completion_ops());
    assert_eq!(uart.remaining_bytes(), 0);
    assert!(!uart.holds_buffer());
}

#[test]
fn buffer_is_returned_exactly_once() {
    let mut uart = UARTE::new();
    uart.set_client(ClientId { id: 9 });
    let buf = vec![1u8, 2, 3];
    assert!(matches!(uart.transmit(buf.clone(), 3), Transmit::Started { .. }));

    let first = uart.handle_interrupt(1, 3);
    assert_eq!(
        first.outcome,
        Outcome::Completed { client: ClientId { id: 9 }, buffer: buf, error: Error::CommandComplete }
    );
    for (event, amount) in [(1u32, 0u32), (1, 3), (0, 0), (1, 1), (3, 0)] {
        let again = uart.handle_interrupt(event, amount);
        assert!(!matches!(again.outcome, Outcome::Completed { .. }));
        assert!(!uart.holds_buffer());
    }
}

#[test]
fn every_length_up_to_the_capacity_completes_in_one_burst() {
    for len in 1..=BUF_SIZE {
        let mut uart = UARTE::new();
        uart.set_client(ClientId { id: len });
        let buf: Vec<u8> = (0..len).map(|i| (i * 3 + 1) as u8).collect();
        let started = uart.transmit(buf.clone(), len);
        assert_eq!(started, Transmit::Started { ops: start_ops(len as u32) });
        assert_eq!(uart.remaining_bytes(), len);
        assert_eq!(&uart.staging()[..len], &buf[..]);
        let answer = uart.handle_interrupt(1, len as u32);
        assert_eq!(
            answer.outcome,
            Outcome::Completed {
                client: ClientId { id: len },
                buffer: buf,
                error: Error::CommandComplete,
            }
        );
        assert_eq!(uart.remaining_bytes(), 0);
        assert!(!uart.holds_buffer());
    }
}

#[test]
fn offset_and_remaining_add_up_to_the_length_after_the_first_burst() {
    for len in 1..=BUF_SIZE {
        for sent in 0..=len {
            let mut uart = UARTE::new();
            let buf = vec![0x55u8; len];
            assert!(matches!(uart.transmit(buf, len), Transmit::Started { .. }));
            assert_eq!(uart.offset() + uart.remaining_bytes(), len);
            uart.handle_interrupt(1, sent as u32);
            assert_eq!(uart.offset() + uart.remaining_bytes(), len);
            assert_eq!(uart.offset(), sent);
        }
    }
}

#[test]
fn offset_is_the_last_reported_count() {
    let mut uart = UARTE::new();
    uart.set_client(ClientId { id: 1 });
    let buf = vec![1u8, 2, 3, 4, 5];
    assert!(matches!(uart.transmit(buf.clone(), 5), Transmit::Started { .. }));

    let first = uart.handle_interrupt(1, 2);
    assert_eq!(first.outcome, Outcome::Continued);
    assert_eq!(first.ops, continuation_ops(2));
    assert_eq!((uart.offset(), uart.remaining_bytes()), (2, 3));

    let second = uart.handle_interrupt(1, 1);
    assert_eq!(second.outcome, Outcome::Continued);
    assert_eq!(second.ops, continuation_ops(1));
    assert_eq!((uart.offset(), uart.remaining_bytes()), (1, 2));

    let third = uart.handle_interrupt(1, 2);
    assert_eq!(
        third.outcome,
        Outcome::Completed { client: ClientId { id: 1 }, buffer: buf, error: Error::CommandComplete }
    );
    assert_eq!((uart.offset(), uart.remaining_bytes()), (2, 0));
}

#[test]
fn remaining_never_grows() {
    let mut uart = UARTE::new();
    assert!(matches!(uart.transmit(vec![7u8; 40], 40), Transmit::Started { .. }));
    let mut before = uart.remaining_bytes();
    for (event, amount) in [(0u32, 5u32), (1, 10), (1, 100), (1, 0), (2, 3), (1, 29), (1, 2), (1, 1)]
    {
        uart.handle_interrupt(event, amount);
        assert!(uart.remaining_bytes() <= before);
        before = uart.remaining_bytes();
    }
    assert_eq!(before, 0);
}

#[test]
fn zero_length_transmit_is_a_noop() {
    let mut uart = UARTE::new();
    uart.set_client(ClientId { id: 1 });
    let buf = vec![1u8, 2, 3];
    let r = uart.transmit(buf.clone(), 0);
    assert_eq!(r, Transmit::Nothing { buffer: buf });
    assert_eq!(uart.remaining_bytes(), 0);
    assert_eq!(uart.offset(), 0);
    assert!(!uart.holds_buffer());
    assert_eq!(uart.staging(), &[0u8; 64]);
    assert_eq!(uart.client(), Some(ClientId { id: 1 }));
}

#[test]
fn zero_length_transmit_does_not_disturb_a_transfer() {
    let mut uart = UARTE::new();
    assert!(matches!(uart.transmit(vec![9u8; 4], 4), Transmit::Started { .. }));
    uart.handle_interrupt(1, 1);
    let r = uart.transmit(vec![1u8, 2], 0);
    assert_eq!(r, Transmit::Nothing { buffer: vec![1u8, 2] });
    assert_eq!((uart.offset(), uart.remaining_bytes()), (1, 3));
    assert!(uart.holds_buffer());
    assert_eq!(&uart.staging()[..4], &[9u8; 4][..]);
}

#[test]
fn zero_length_transmit_of_an_empty_buffer() {
    let mut uart = UARTE::new();
    assert_eq!(uart.transmit(Vec::new(), 0), Transmit::Nothing { buffer: Vec::new() });
}

#[test]
fn transmit_of_the_full_capacity() {
    let mut uart = UARTE::new();
    let buf: Vec<u8> = (0..64u8).collect();
    let r = uart.transmit(buf.clone(), 64);
    assert_eq!(r, Transmit::Started { ops: start_ops(64) });
    assert_eq!(&uart.staging()[..], &buf[..]);
    assert_eq!(uart.remaining_bytes(), 64);
}

#[test]
fn transmit_beyond_the_capacity_is_refused() {
    let mut uart = UARTE::new();
    let buf = vec![3u8; 100];
    let r = uart.transmit(buf.clone(), 65);
    assert_eq!(r, Transmit::Refused { buffer: buf, error: TransmitError::ExceedsStaging });
    assert_eq!(uart.remaining_bytes(), 0);
    assert!(!uart.holds_buffer());
    assert_eq!(uart.staging(), &[0u8; 64]);
}

#[test]
fn transmit_beyond_the_buffer_is_refused() {
    let mut uart = UARTE::new();
    let buf = vec![3u8; 4];
    let r = uart.transmit(buf.clone(), 5);
    assert_eq!(r, Transmit::Refused { buffer: buf, error: TransmitError::ExceedsBuffer });
    assert_eq!(uart.remaining_bytes(), 0);
    assert!(!uart.holds_buffer());
    assert_eq!(uart.staging(), &[0u8; 64]);
}

#[test]
fn transmit_while_a_buffer_is_held_is_refused() {
    let mut uart = UARTE::new();
    assert!(matches!(uart.transmit(vec![1u8, 2, 3], 3), Transmit::Started { .. }));
    let second = vec![4u8, 5];
    let r = uart.transmit(second.clone(), 2);
    assert_eq!(r, Transmit::Refused { buffer: second, error: TransmitError::Busy });
    assert_eq!(uart.remaining_bytes(), 3);
    assert_eq!(&uart.staging()[..3], &[1u8, 2, 3][..]);
}

#[test]
fn busy_is_reported_before_the_length_checks() {
    let mut uart = UARTE::new();
    assert!(matches!(uart.transmit(vec![1u8], 1), Transmit::Started { .. }));
    let r = uart.transmit(vec![0u8; 2], 200);
    assert_eq!(r, Transmit::Refused { buffer: vec![0u8; 2], error: TransmitError::Busy });
}

#[test]
fn capacity_is_checked_before_the_buffer_length() {
    let mut uart = UARTE::new();
    let r = uart.transmit(vec![0u8; 2], 200);
    assert_eq!(
        r,
        Transmit::Refused { buffer: vec![0u8; 2], error: TransmitError::ExceedsStaging }
    );
}

#[test]
fn transmit_sends_a_prefix_of_a_longer_buffer() {
    let mut uart = UARTE::new();
    uart.set_client(ClientId { id: 4 });
    let buf = vec![1u8, 2, 3, 4, 5, 6];
    assert_eq!(uart.transmit(buf.clone(), 2), Transmit::Started { ops: start_ops(2) });
    assert_eq!(&uart.staging()[..3], &[1u8, 2, 0][..]);
    let answer = uart.handle_interrupt(1, 2);
    assert_eq!(
        answer.outcome,
        Outcome::Completed { client: ClientId { id: 4 }, buffer: buf, error: Error::CommandComplete }
    );
}

#[test]
fn staging_keeps_old_bytes_behind_the_new_ones() {
    let mut uart = UARTE::new();
    assert!(matches!(uart.transmit(vec![1u8, 2, 3, 4], 4), Transmit::Started { .. }));
    uart.handle_interrupt(1, 4);
    assert!(matches!(uart.transmit(vec![9u8, 8], 2), Transmit::Started { .. }));
    assert_eq!(&uart.staging()[..5], &[9u8, 8, 3, 4, 0][..]);
}

#[test]
fn driver_can_transmit_again_after_completion() {
    let mut uart = UARTE::new();
    uart.set_client(ClientId { id: 1 });
    assert!(matches!(uart.transmit(vec![1u8], 1), Transmit::Started { .. }));
    uart.handle_interrupt(1, 1);
    let buf = vec![5u8, 6];
    assert_eq!(uart.transmit(buf.clone(), 2), Transmit::Started { ops: start_ops(2) });
    let answer = uart.handle_interrupt(1, 2);
    assert_eq!(
        answer.outcome,
        Outcome::Completed { client: ClientId { id: 1 }, buffer: buf, error: Error::CommandComplete }
    );
}

#[test]
fn interrupt_without_the_event_only_switches_the_interrupt_off() {
    let mut uart = UARTE::new();
    assert!(matches!(uart.transmit(vec![1u8, 2], 2), Transmit::Started { .. }));
    for word in [0u32, 2, 0xFFFF_FFFE] {
        let answer = uart.handle_interrupt(word, 2);
        assert_eq!(
            answer,
            Interrupt {
                ops: vec![RegisterOp::Write { register: Register::IntenClr, value: 0x100 }],
                outcome: Outcome::NoEvent,
            }
        );
        assert_eq!((uart.offset(), uart.remaining_bytes()), (0, 2));
        assert!(uart.holds_buffer());
    }
}

#[test]
fn report_of_too_many_bytes_stalls_the_transfer() {
    let mut uart = UARTE::new();
    uart.set_client(ClientId { id: 1 });
    assert!(matches!(uart.transmit(vec![1u8, 2, 3], 3), Transmit::Started { .. }));
    let answer = uart.handle_interrupt(1, 4);
    assert_eq!(answer, Interrupt { ops: completion_ops(), outcome: Outcome::Stalled });
    assert_eq!((uart.offset(), uart.remaining_bytes()), (0, 3));
    assert!(uart.holds_buffer());
    let answer = uart.handle_interrupt(1, u32::MAX);
    assert_eq!(answer.outcome, Outcome::Stalled);
    assert_eq!((uart.offset(), uart.remaining_bytes()), (0, 3));
}

#[test]
fn completion_without_a_client_drops_the_buffer() {
    let mut uart = UARTE::new();
    assert!(matches!(uart.transmit(vec![1u8, 2, 3], 3), Transmit::Started { .. }));
    let answer = uart.handle_interrupt(1, 3);
    assert_eq!(answer, Interrupt { ops: completion_ops(), outcome: Outcome::Finished });
    assert_eq!(uart.remaining_bytes(), 0);
    assert!(!uart.holds_buffer());
}

#[test]
fn completion_goes_to_the_client_registered_last() {
    let mut uart = UARTE::new();
    uart.set_client(ClientId { id: 1 });
    assert!(matches!(uart.transmit(vec![1u8], 1), Transmit::Started { .. }));
    uart.set_client(ClientId { id: 2 });
    let answer = uart.handle_interrupt(1, 1);
    assert_eq!(
        answer.outcome,
        Outcome::Completed {
            client: ClientId { id: 2 },
            buffer: vec![1u8],
            error: Error::CommandComplete,
        }
    );
}

#[test]
fn tx_ready_reflects_the_flag_bit() {
    let uart = UARTE::new();
    assert!(uart.tx_ready(1));
    assert!(uart.tx_ready(0xFFFF_FFFF));
    assert!(uart.tx_ready(3));
    assert!(!uart.tx_ready(0));
    assert!(!uart.tx_ready(2));
    assert!(!uart.tx_ready(0xFFFF_FFFE));
}

#[test]
fn tx_ready_changes_nothing() {
    let mut uart = UARTE::new();
    uart.set_client(ClientId { id: 3 });
    assert!(matches!(uart.transmit(vec![1u8, 2, 3], 3), Transmit::Started { .. }));
    uart.handle_interrupt(1, 1);
    let staging = *uart.staging();
    for _ in 0..3 {
        assert!(uart.tx_ready(1));
        assert!(!uart.tx_ready(0));
    }
    assert_eq!((uart.offset(), uart.remaining_bytes()), (1, 2));
    assert!(uart.holds_buffer());
    assert_eq!(uart.client(), Some(ClientId { id: 3 }));
    assert_eq!(uart.staging(), &staging);
}

#[test]
fn send_byte_stages_and_starts_one_byte() {
    let mut uart = UARTE::new();
    let ops = uart.send_byte(0x41);
    assert_eq!(
        ops,
        vec![
            RegisterOp::Write { register: Register::TaskStopTx, value: 1 },
            RegisterOp::PointTx { offset: 0 },
            RegisterOp::Write { register: Register::TxdMaxCnt, value: 1 },
            RegisterOp::Write { register: Register::TaskStartTx, value: 1 },
            RegisterOp::Write { register: Register::IntenSet, value: 0x100 },
        ]
    );
    assert_eq!(uart.staging()[0], 0x41);
    assert_eq!(&uart.staging()[1..], &[0u8; 63][..]);
    assert_eq!((uart.offset(), uart.remaining_bytes()), (0, 1));
    assert!(!uart.holds_buffer());
}

#[test]
fn send_byte_completes_without_a_callback() {
    let mut uart = UARTE::new();
    uart.set_client(ClientId { id: 1 });
    uart.send_byte(b'x');
    let answer = uart.handle_interrupt(1, 1);
    assert_eq!(answer, Interrupt { ops: completion_ops(), outcome: Outcome::Finished });
    assert_eq!(uart.remaining_bytes(), 0);
}

#[test]
fn send_byte_leaves_client_and_buffer_alone() {
    let mut uart = UARTE::new();
    uart.set_client(ClientId { id: 6 });
    assert!(matches!(uart.transmit(vec![1u8, 2, 3], 3), Transmit::Started { .. }));
    uart.send_byte(0xFF);
    assert_eq!(uart.client(), Some(ClientId { id: 6 }));
    assert!(uart.holds_buffer());
    assert_eq!(&uart.staging()[..3], &[0xFFu8, 2, 3][..]);
    assert_eq!((uart.offset(), uart.remaining_bytes()), (0, 1));
}

#[test]
fn receive_always_fails() {
    let uart = UARTE::new();
    assert_eq!(
        uart.receive(vec![0u8; 8], 8),
        Err(Unimplemented { buffer: vec![0u8; 8] })
    );
    assert_eq!(uart.receive(Vec::new(), 0), Err(Unimplemented { buffer: Vec::new() }));
    assert_eq!(uart.receive(vec![1u8], 100), Err(Unimplemented { buffer: vec![1u8] }));
}

#[test]
fn receive_changes_nothing() {
    let mut uart = UARTE::new();
    assert!(matches!(uart.transmit(vec![1u8, 2], 2), Transmit::Started { .. }));
    assert!(uart.receive(vec![0u8; 4], 4).is_err());
    assert_eq!((uart.offset(), uart.remaining_bytes()), (0, 2));
    assert!(uart.holds_buffer());
}

#[test]
fn no_operation_stores_to_a_read_only_register() {
    let mut uart = UARTE::new();
    let mut all: Vec<RegisterOp> = Vec::new();
    all.extend(uart.send_byte(1));
    if let Transmit::Started { ops } = uart.transmit(vec![1u8; 8], 8) {
        all.extend(ops);
    }
    all.extend(uart.handle_interrupt(1, 3).ops);
    all.extend(uart.handle_interrupt(0, 0).ops);
    all.extend(uart.handle_interrupt(1, 9).ops);
    all.extend(uart.handle_interrupt(1, 5).ops);
    assert_eq!(all.len(), 5 + 5 + 5 + 1 + 2 + 2);
    for op in all {
        match op {
            RegisterOp::Write { register, .. } => {
                assert_ne!(register.access(), nrf52::registers::Access::ReadOnly)
            }
            RegisterOp::PointTx { offset } => assert!(offset <= BUF_SIZE),
        }
    }
}
