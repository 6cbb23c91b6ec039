//! What holds of the driver across calls, stated over its state model and
//! proved.

use vstd::prelude::*;
use crate::pinmux::Pinmux;
use crate::registers::{Register, RegisterOp};
use crate::uart::{
    configure_ops, continue_ops, event_raised, init_ops, send_byte_ops, transmit_ops, Error,
    OutcomeView, State, TransmitView, UARTParams, BUF_SIZE,
};

verus! {

/// Whether every operation of `ops` stores to a register that software may
/// write.
pub open spec fn all_writable(ops: Seq<RegisterOp>) -> bool {
    forall|i: int| 0 <= i < ops.len() ==> (#[trigger] ops[i]).target().writable()
}

/// Whether every DMA pointer that `ops` sets lies inside the staging buffer
/// or just behind its end.
pub open spec fn pointers_in_staging(ops: Seq<RegisterOp>) -> bool {
    forall|i: int|
        0 <= i < ops.len() ==> (#[trigger] ops[i] matches RegisterOp::PointTx { offset }
            ==> offset <= BUF_SIZE)
}

/// A request of length zero does nothing: no register operation is handed
/// out, the buffer comes back, and the state is untouched, whatever the
/// state was.
pub proof fn lemma_zero_length_transmit_is_noop(s: State, data: Seq<u8>)
    ensures
        s.transmit_result(data, 0) == (TransmitView::Nothing { buffer: data }),
        s.after_transmit(data, 0) == s,
{
}

/// A refused request does nothing either.
pub proof fn lemma_refused_transmit_is_noop(s: State, data: Seq<u8>, len: nat)
    requires
        len > 0,
        s.refusal(data, len).is_some(),
    ensures
        s.transmit_result(data, len) == (TransmitView::Refused {
            buffer: data,
            error: s.refusal(data, len).unwrap(),
        }),
        s.after_transmit(data, len) == s,
{
}

/// An accepted request leaves the driver with the whole length
/// outstanding, the buffer held, and exactly the requested bytes staged at
/// the front.
pub proof fn lemma_accepted_transmit(s: State, data: Seq<u8>, len: nat)
    requires
        s.wf(),
        s.accepts(data, len),
    ensures
        s.after_transmit(data, len).wf(),
        s.after_transmit(data, len).remaining_bytes == len,
        s.after_transmit(data, len).offset + s.after_transmit(data, len).remaining_bytes == len,
        s.after_transmit(data, len).buffer == Some(data),
        s.after_transmit(data, len).staging.subrange(0, len as int) == data.subrange(
            0,
            len as int,
        ),
        s.after_transmit(data, len).staging.subrange(len as int, BUF_SIZE as int)
            == s.staging.subrange(len as int, BUF_SIZE as int),
{
    let t = s.after_transmit(data, len);
    assert(t.staging.subrange(0, len as int) =~= data.subrange(0, len as int));
    assert(t.staging.subrange(len as int, BUF_SIZE as int) =~= s.staging.subrange(
        len as int,
        BUF_SIZE as int,
    ));
}

/// A transfer that the hardware reports as sent in one burst completes:
/// nothing is outstanding afterwards, the buffer has left the driver, and
/// it goes to the client, if one is registered, with the status "command
/// complete". No later interrupt hands a buffer out again until another
/// transfer is accepted.
pub proof fn lemma_full_burst_returns_buffer_once(
    s: State,
    data: Seq<u8>,
    len: nat,
    event_endtx: u32,
    txd_amount: u32,
)
    requires
        s.accepts(data, len),
        event_raised(event_endtx),
        txd_amount == len,
    ensures
        ({
            let started = s.after_transmit(data, len);
            let done = started.after_interrupt(event_endtx, txd_amount);
            &&& done.remaining_bytes == 0
            &&& done.buffer.is_none()
            &&& started.interrupt_outcome(event_endtx, txd_amount) == match s.client {
                Some(client) => OutcomeView::Completed {
                    client,
                    buffer: data,
                    error: Error::CommandComplete,
                },
                None => OutcomeView::Finished,
            }
            &&& forall|e: u32, a: u32|
                !(#[trigger] done.interrupt_outcome(e, a) is Completed)
            &&& forall|e: u32, a: u32|
                (#[trigger] done.after_interrupt(e, a)).buffer.is_none()
        }),
{
}

/// The buffer leaves the driver only on completion, and only the buffer
/// that the driver held.
pub proof fn lemma_buffer_leaves_on_completion_only(s: State, event_endtx: u32, txd_amount: u32)
    ensures
        s.interrupt_outcome(event_endtx, txd_amount) matches OutcomeView::Completed {
            client,
            buffer,
            error,
        } ==> {
            &&& s.completes(event_endtx, txd_amount)
            &&& s.client == Some(client)
            &&& s.buffer == Some(buffer)
            &&& error == Error::CommandComplete
            &&& s.after_interrupt(event_endtx, txd_amount).buffer.is_none()
        },
        !s.completes(event_endtx, txd_amount) ==> s.after_interrupt(event_endtx, txd_amount).buffer
            == s.buffer,
{
}

/// An interrupt never adds to the outstanding count, and the count reaches
/// zero through progress exactly when the transfer completes.
pub proof fn lemma_remaining_never_grows(s: State, event_endtx: u32, txd_amount: u32)
    ensures
        s.after_interrupt(event_endtx, txd_amount).remaining_bytes <= s.remaining_bytes,
        s.progresses(event_endtx, txd_amount) ==> (s.after_interrupt(
            event_endtx,
            txd_amount,
        ).remaining_bytes == 0 <==> s.completes(event_endtx, txd_amount)),
{
}

/// Across an interrupt that meets the transfer at offset zero, or that
/// makes no progress, offset and outstanding count still add up to what
/// they added up to before.
pub proof fn lemma_interrupt_keeps_total(s: State, event_endtx: u32, txd_amount: u32)
    requires
        s.offset == 0 || !s.progresses(event_endtx, txd_amount),
    ensures
        s.after_interrupt(event_endtx, txd_amount).offset + s.after_interrupt(
            event_endtx,
            txd_amount,
        ).remaining_bytes == s.offset + s.remaining_bytes,
{
}

/// From an accepted request through the first interrupt, whatever the
/// hardware reports, offset and outstanding count add up to the requested
/// length.
pub proof fn lemma_total_is_requested_length(
    s: State,
    data: Seq<u8>,
    len: nat,
    event_endtx: u32,
    txd_amount: u32,
)
    requires
        s.accepts(data, len),
    ensures
        ({
            let started = s.after_transmit(data, len);
            let next = started.after_interrupt(event_endtx, txd_amount);
            &&& started.offset + started.remaining_bytes == len
            &&& next.offset + next.remaining_bytes == len
        }),
{
    lemma_interrupt_keeps_total(s.after_transmit(data, len), event_endtx, txd_amount);
}

/// A partial burst restarts the transmitter exactly where the burst ended:
/// the DMA pointer is set to that index before the start task is
/// triggered, and the new offset is that index.
pub proof fn lemma_partial_burst_continues(s: State, event_endtx: u32, txd_amount: u32)
    requires
        s.wf(),
        event_raised(event_endtx),
        txd_amount < s.remaining_bytes,
    ensures
        s.interrupt_outcome(event_endtx, txd_amount) == OutcomeView::Continued,
        s.after_interrupt(event_endtx, txd_amount).offset == txd_amount,
        s.after_interrupt(event_endtx, txd_amount).remaining_bytes == s.remaining_bytes
            - txd_amount,
        s.interrupt_ops(event_endtx, txd_amount).len() == 5,
        s.interrupt_ops(event_endtx, txd_amount)[2] == (RegisterOp::PointTx {
            offset: txd_amount as usize,
        }),
        s.interrupt_ops(event_endtx, txd_amount)[3] == (RegisterOp::Write {
            register: Register::TaskStartTx,
            value: 1,
        }),
{
}

/// A report of more bytes than were outstanding stalls the transfer: the
/// state stays as it was, the transmitter is stopped and not restarted, and
/// the completion interrupt stays off.
pub proof fn lemma_overrun_stalls(s: State, event_endtx: u32, txd_amount: u32)
    requires
        event_raised(event_endtx),
        txd_amount > s.remaining_bytes,
    ensures
        s.interrupt_outcome(event_endtx, txd_amount) == OutcomeView::Stalled,
        s.after_interrupt(event_endtx, txd_amount) == s,
        s.interrupt_ops(event_endtx, txd_amount) =~= seq![
            RegisterOp::Write { register: Register::IntenClr, value: 0x100 },
            RegisterOp::Write { register: Register::TaskStopTx, value: 1 },
        ],
{
}

/// Every transition keeps the state well-formed.
pub proof fn lemma_transitions_keep_wf(
    s: State,
    data: Seq<u8>,
    len: nat,
    byte: u8,
    event_endtx: u32,
    txd_amount: u32,
)
    requires
        s.wf(),
    ensures
        State::idle().wf(),
        s.after_transmit(data, len).wf(),
        s.after_send_byte(byte).wf(),
        s.after_interrupt(event_endtx, txd_amount).wf(),
{
}

/// The driver stores only to registers that software may write, and every
/// DMA pointer it sets lies inside the staging buffer or just behind it.
pub proof fn lemma_ops_respect_register_map(
    s: State,
    len: nat,
    event_endtx: u32,
    txd_amount: u32,
    tx: Pinmux,
    rx: Pinmux,
    cts: Pinmux,
    rts: Pinmux,
    params: UARTParams,
)
    requires
        s.wf(),
    ensures
        all_writable(configure_ops(tx, rx, cts, rts)),
        all_writable(init_ops(params)),
        all_writable(transmit_ops(len)),
        all_writable(send_byte_ops()),
        all_writable(s.interrupt_ops(event_endtx, txd_amount)),
        pointers_in_staging(transmit_ops(len)),
        pointers_in_staging(send_byte_ops()),
        pointers_in_staging(s.interrupt_ops(event_endtx, txd_amount)),
{
    let ops = s.interrupt_ops(event_endtx, txd_amount);
    if event_raised(event_endtx) && txd_amount < s.remaining_bytes {
        let c = continue_ops(txd_amount as nat);
        assert(ops.len() == 5);
        assert(ops[0] == RegisterOp::Write { register: Register::IntenClr, value: 0x100 });
        assert(ops[1] == RegisterOp::Write { register: Register::TaskStopTx, value: 1 });
        assert(ops[2] == c[0]);
        assert(ops[3] == c[1]);
        assert(ops[4] == c[2]);
    }
}

} // verus!
