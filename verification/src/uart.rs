//! The UARTE transmit driver: a state machine that stages the caller's
//! bytes for DMA, programs a transfer, and follows it through completion
//! interrupts until the buffer can go back to its owner.

use vstd::prelude::*;
use crate::baud::{baud_register, translate};
use crate::pinmux::Pinmux;
use crate::registers::{Bitfield, Register, RegisterOp, ENABLE_ENABLED};
use crate::regs::FieldValue;

verus! {

/// Capacity of the staging buffer in bytes.
pub const BUF_SIZE: usize = 64;

/// INTENSET / INTENCLR word that selects the end-of-transmission interrupt.
pub const ENDTX_INTERRUPT: u32 = 0x100;

/// INTENSET / INTENCLR word that selects the end-of-reception interrupt.
pub const ENDRX_INTERRUPT: u32 = 0x10;

/// Word that triggers a task register.
pub const TASK_TRIGGER: u32 = 1;

/// Line settings applied by `init`.
#[derive(Clone, Copy, Debug, PartialEq, Eq, Structural)]
pub struct UARTParams {
    pub baud_rate: u32,
}

/// Names the target of the completion callback.
#[derive(Clone, Copy, Debug, PartialEq, Eq, Structural)]
pub struct ClientId {
    pub id: usize,
}

/// Status handed to the client with a returned buffer.
#[derive(Clone, Copy, Debug, PartialEq, Eq, Structural)]
pub enum Error {
    ParityError,
    FramingError,
    OverrunError,
    RepeatCallError,
    ResetError,
    CommandComplete,
}

/// Whether an event register word has its flag raised.
pub open spec fn event_raised(word: u32) -> bool {
    word & 1 == 1
}

/// The word that selects a single-bit field of a set/clear register, or
/// triggers a task: the field's bit, set.
fn set_bit(field: Bitfield) -> (fv: FieldValue)
    requires
        field.layout().numbits == 1,
    ensures
        fv == field.layout().val_spec(1),
        fv.mask == fv.value,
{
    let f = field.field();
    let shift: u32 = f.shift;
    assert(((1u32 << shift) & (1u32 << shift)) == 1u32 << shift) by (bit_vector);
    assert(((1u32 << 1u32) - 1) as u32 == 1u32) by (bit_vector);
    f.val(1)
}

/// Switches the peripheral on.
pub fn enable() -> (op: RegisterOp)
    ensures
        op == (RegisterOp::Write { register: Register::Enable, value: ENABLE_ENABLED }),
{
    let fv = Bitfield::EnableEnable.field().val(ENABLE_ENABLED);
    assert(((8u32 << 0u32) & ((((1u32 << 4u32) - 1) as u32) << 0u32)) == 8u32) by (bit_vector);
    RegisterOp::Write { register: Register::Enable, value: fv.value }
}

/// Lets the end-of-reception event raise the interrupt.
pub fn enable_rx_interrupts() -> (op: RegisterOp)
    ensures
        op == (RegisterOp::Write { register: Register::IntenSet, value: ENDRX_INTERRUPT }),
{
    let fv = set_bit(Bitfield::InterruptEndRx);
    assert(((1u32 << 4u32) & ((((1u32 << 1u32) - 1) as u32) << 4u32)) == 0x10u32) by (bit_vector);
    RegisterOp::Write { register: Register::IntenSet, value: fv.value }
}

/// Lets the end-of-transmission event raise the interrupt.
pub fn enable_tx_interrupts() -> (op: RegisterOp)
    ensures
        op == (RegisterOp::Write { register: Register::IntenSet, value: ENDTX_INTERRUPT }),
{
    let fv = set_bit(Bitfield::InterruptEndTx);
    assert(((1u32 << 8u32) & ((((1u32 << 1u32) - 1) as u32) << 8u32)) == 0x100u32) by (bit_vector);
    RegisterOp::Write { register: Register::IntenSet, value: fv.value }
}

/// Stops the end-of-reception event from raising the interrupt.
pub fn disable_rx_interrupts() -> (op: RegisterOp)
    ensures
        op == (RegisterOp::Write { register: Register::IntenClr, value: ENDRX_INTERRUPT }),
{
    let fv = set_bit(Bitfield::InterruptEndRx);
    assert(((1u32 << 4u32) & ((((1u32 << 1u32) - 1) as u32) << 4u32)) == 0x10u32) by (bit_vector);
    RegisterOp::Write { register: Register::IntenClr, value: fv.value }
}

/// Stops the end-of-transmission event from raising the interrupt.
pub fn disable_tx_interrupts() -> (op: RegisterOp)
    ensures
        op == (RegisterOp::Write { register: Register::IntenClr, value: ENDTX_INTERRUPT }),
{
    let fv = set_bit(Bitfield::InterruptEndTx);
    assert(((1u32 << 8u32) & ((((1u32 << 1u32) - 1) as u32) << 8u32)) == 0x100u32) by (bit_vector);
    RegisterOp::Write { register: Register::IntenClr, value: fv.value }
}

/// Triggers the task behind `register`.
fn trigger(register: Register) -> (op: RegisterOp)
    ensures
        op == (RegisterOp::Write { register, value: TASK_TRIGGER }),
{
    let fv = set_bit(Bitfield::TaskEnable);
    assert(((1u32 << 0u32) & ((((1u32 << 1u32) - 1) as u32) << 0u32)) == 1u32) by (bit_vector);
    RegisterOp::Write { register, value: fv.value }
}

/// Programs the baud rate: the BAUDRATE register receives the translation
/// of `baud_rate`.
pub fn set_baud_rate(baud_rate: u32) -> (op: RegisterOp)
    ensures
        op == (RegisterOp::Write {
            register: Register::Baudrate,
            value: baud_register(baud_rate),
        }),
{
    RegisterOp::Write { register: Register::Baudrate, value: translate(baud_rate) }
}

/// The PSEL word that routes a signal to `pin`: the pin number in the low
/// five bits, the connect bit clear.
pub open spec fn psel_word(pin: Pinmux) -> u32 {
    pin.pin & 0x1F
}

/// Routes one signal: `register` receives the PSEL word of `pin`.
fn select_pin(register: Register, pin: Pinmux) -> (op: RegisterOp)
    ensures
        op == (RegisterOp::Write { register, value: psel_word(pin) }),
{
    let n: u32 = pin.number();
    let fv = Bitfield::PselPin.field().val(n);
    assert(((n << 0u32) & ((((1u32 << 5u32) - 1) as u32) << 0u32)) == n & 0x1Fu32) by (bit_vector);
    RegisterOp::Write { register, value: fv.value }
}

/// The operations that `configure` hands out.
pub open spec fn configure_ops(tx: Pinmux, rx: Pinmux, cts: Pinmux, rts: Pinmux) -> Seq<
    RegisterOp,
> {
    seq![
        RegisterOp::Write { register: Register::PselTxd, value: psel_word(tx) },
        RegisterOp::Write { register: Register::PselRxd, value: psel_word(rx) },
        RegisterOp::Write { register: Register::PselCts, value: psel_word(cts) },
        RegisterOp::Write { register: Register::PselRts, value: psel_word(rts) },
    ]
}

/// The operations that `init` hands out.
pub open spec fn init_ops(params: UARTParams) -> Seq<RegisterOp> {
    seq![
        RegisterOp::Write { register: Register::Enable, value: ENABLE_ENABLED },
        RegisterOp::Write { register: Register::Baudrate, value: baud_register(params.baud_rate) },
    ]
}

/// The driver's state as a mathematical value.
pub struct State {
    /// Who is told when a transfer completes, if anyone.
    pub client: Option<ClientId>,
    /// The caller's buffer, held while its transfer is in flight.
    pub buffer: Option<Seq<u8>>,
    /// Bytes of the transfer in flight not yet confirmed as sent.
    pub remaining_bytes: nat,
    /// Index in the staging buffer where the next DMA burst starts.
    pub offset: nat,
    /// The bytes that the DMA engine reads.
    pub staging: Seq<u8>,
}

impl State {
    /// The staging buffer has its fixed capacity, and neither counter
    /// points beyond it.
    pub open spec fn wf(self) -> bool {
        &&& self.staging.len() == BUF_SIZE
        &&& self.remaining_bytes <= BUF_SIZE
        &&& self.offset <= BUF_SIZE
    }

    /// The quiescent state of a fresh driver: no client, no buffer,
    /// nothing to send, the staging buffer zeroed.
    pub open spec fn idle() -> State {
        State {
            client: None,
            buffer: None,
            remaining_bytes: 0,
            offset: 0,
            staging: Seq::new(BUF_SIZE as nat, |i: int| 0u8),
        }
    }
}

/// Why `transmit` refused a request.
#[derive(Clone, Copy, Debug, PartialEq, Eq, Structural)]
pub enum TransmitError {
    /// The driver still holds the buffer of an earlier transfer.
    Busy,
    /// The requested length exceeds the staging buffer's capacity.
    ExceedsStaging,
    /// The requested length exceeds the length of the buffer handed in.
    ExceedsBuffer,
}

/// What `transmit` did with a request.
#[derive(Debug, PartialEq, Eq)]
pub enum Transmit {
    /// The transfer was started: perform `ops` in order. The driver keeps
    /// the buffer until the transfer completes.
    Started { ops: Vec<RegisterOp> },
    /// The requested length was zero: nothing was done and the buffer is
    /// handed straight back.
    Nothing { buffer: Vec<u8> },
    /// The request was refused: nothing was done and the buffer is handed
    /// straight back.
    Refused { buffer: Vec<u8>, error: TransmitError },
}

/// `Transmit` as a mathematical value.
pub enum TransmitView {
    Started { ops: Seq<RegisterOp> },
    Nothing { buffer: Seq<u8> },
    Refused { buffer: Seq<u8>, error: TransmitError },
}

impl View for Transmit {
    type V = TransmitView;

    open spec fn view(&self) -> TransmitView {
        match *self {
            Transmit::Started { ops } => TransmitView::Started { ops: ops@ },
            Transmit::Nothing { buffer } => TransmitView::Nothing { buffer: buffer@ },
            Transmit::Refused { buffer, error } => TransmitView::Refused {
                buffer: buffer@,
                error,
            },
        }
    }
}

/// What an interrupt meant for the transfer in flight.
#[derive(Debug, PartialEq, Eq)]
pub enum Outcome {
    /// The end-of-transmission event was not raised.
    NoEvent,
    /// The hardware reported more bytes than were outstanding. The transfer
    /// is left as it was: nothing is restarted and nobody is told.
    Stalled,
    /// Part of the data went out; the next burst has been programmed.
    Continued,
    /// All data went out, and there is no buffer to return or nobody to
    /// return it to.
    Finished,
    /// All data went out: hand `buffer` back to `client` with `error` as
    /// the status.
    Completed { client: ClientId, buffer: Vec<u8>, error: Error },
}

/// `Outcome` as a mathematical value.
pub enum OutcomeView {
    NoEvent,
    Stalled,
    Continued,
    Finished,
    Completed { client: ClientId, buffer: Seq<u8>, error: Error },
}

impl View for Outcome {
    type V = OutcomeView;

    open spec fn view(&self) -> OutcomeView {
        match *self {
            Outcome::NoEvent => OutcomeView::NoEvent,
            Outcome::Stalled => OutcomeView::Stalled,
            Outcome::Continued => OutcomeView::Continued,
            Outcome::Finished => OutcomeView::Finished,
            Outcome::Completed { client, buffer, error } => OutcomeView::Completed {
                client,
                buffer: buffer@,
                error,
            },
        }
    }
}

/// The driver's answer to an interrupt: the register operations to
/// perform, in order, and what the interrupt meant.
#[derive(Debug, PartialEq, Eq)]
pub struct Interrupt {
    pub ops: Vec<RegisterOp>,
    pub outcome: Outcome,
}

/// The failure of every receive request: reception is not implemented. The
/// buffer is handed straight back.
#[derive(Debug, PartialEq, Eq)]
pub struct Unimplemented {
    pub buffer: Vec<u8>,
}

/// The staging buffer `staging` after the first `len` bytes of `data` were
/// copied to its front.
pub open spec fn staged(staging: Seq<u8>, data: Seq<u8>, len: nat) -> Seq<u8> {
    Seq::new(
        staging.len(),
        |i: int|
            if i < len {
                data[i]
            } else {
                staging[i]
            },
    )
}

/// The operations that start a transfer of `len` bytes from the front of
/// the staging buffer: aim the DMA engine, set the byte count, stop and
/// restart the transmitter, let the completion raise the interrupt.
pub open spec fn transmit_ops(len: nat) -> Seq<RegisterOp> {
    seq![
        RegisterOp::PointTx { offset: 0 },
        RegisterOp::Write { register: Register::TxdMaxCnt, value: len as u32 },
        RegisterOp::Write { register: Register::TaskStopTx, value: TASK_TRIGGER },
        RegisterOp::Write { register: Register::TaskStartTx, value: TASK_TRIGGER },
        RegisterOp::Write { register: Register::IntenSet, value: ENDTX_INTERRUPT },
    ]
}

/// The operations that send the single byte at the front of the staging
/// buffer.
pub open spec fn send_byte_ops() -> Seq<RegisterOp> {
    seq![
        RegisterOp::Write { register: Register::TaskStopTx, value: TASK_TRIGGER },
        RegisterOp::PointTx { offset: 0 },
        RegisterOp::Write { register: Register::TxdMaxCnt, value: 1 },
        RegisterOp::Write { register: Register::TaskStartTx, value: TASK_TRIGGER },
        RegisterOp::Write { register: Register::IntenSet, value: ENDTX_INTERRUPT },
    ]
}

/// The operations that restart the transmitter at index `offset` of the
/// staging buffer.
pub open spec fn continue_ops(offset: nat) -> Seq<RegisterOp> {
    seq![
        RegisterOp::PointTx { offset: offset as usize },
        RegisterOp::Write { register: Register::TaskStartTx, value: TASK_TRIGGER },
        RegisterOp::Write { register: Register::IntenSet, value: ENDTX_INTERRUPT },
    ]
}

impl State {
    /// Why a request to send the first `len` bytes of `data` is refused,
    /// if it is. Asked only of requests with `len > 0`.
    pub open spec fn refusal(self, data: Seq<u8>, len: nat) -> Option<TransmitError> {
        if self.buffer.is_some() {
            Some(TransmitError::Busy)
        } else if len > BUF_SIZE {
            Some(TransmitError::ExceedsStaging)
        } else if len > data.len() {
            Some(TransmitError::ExceedsBuffer)
        } else {
            None
        }
    }

    /// Whether a request to send the first `len` bytes of `data` starts a
    /// transfer.
    pub open spec fn accepts(self, data: Seq<u8>, len: nat) -> bool {
        len > 0 && self.refusal(data, len).is_none()
    }

    /// The answer to a request to send the first `len` bytes of `data`.
    pub open spec fn transmit_result(self, data: Seq<u8>, len: nat) -> TransmitView {
        if len == 0 {
            TransmitView::Nothing { buffer: data }
        } else {
            match self.refusal(data, len) {
                Some(error) => TransmitView::Refused { buffer: data, error },
                None => TransmitView::Started { ops: transmit_ops(len) },
            }
        }
    }

    /// The state after a request to send the first `len` bytes of `data`.
    /// An accepted request resets both counters, takes the buffer and
    /// stages the bytes; any other leaves the state as it was.
    pub open spec fn after_transmit(self, data: Seq<u8>, len: nat) -> State {
        if self.accepts(data, len) {
            State {
                client: self.client,
                buffer: Some(data),
                remaining_bytes: len,
                offset: 0,
                staging: staged(self.staging, data, len),
            }
        } else {
            self
        }
    }

    /// The state after `send_byte`: one byte outstanding, staged at the
    /// front. Client and buffer are not touched.
    pub open spec fn after_send_byte(self, byte: u8) -> State {
        State {
            remaining_bytes: 1,
            offset: 0,
            staging: self.staging.update(0, byte),
            ..self
        }
    }

    /// Whether an interrupt with these register words makes progress: the
    /// event is raised and the hardware reports no more bytes than were
    /// outstanding.
    pub open spec fn progresses(self, event_endtx: u32, txd_amount: u32) -> bool {
        event_raised(event_endtx) && txd_amount <= self.remaining_bytes
    }

    /// Whether an interrupt with these register words ends the transfer.
    pub open spec fn completes(self, event_endtx: u32, txd_amount: u32) -> bool {
        event_raised(event_endtx) && txd_amount == self.remaining_bytes
    }

    /// The state after an interrupt. Progress takes the reported bytes off
    /// the outstanding count and moves the offset to the reported count;
    /// the end of the transfer empties the buffer slot as well. Without
    /// progress the state stays as it was.
    pub open spec fn after_interrupt(self, event_endtx: u32, txd_amount: u32) -> State {
        if self.progresses(event_endtx, txd_amount) {
            State {
                buffer: if self.completes(event_endtx, txd_amount) {
                    None
                } else {
                    self.buffer
                },
                remaining_bytes: (self.remaining_bytes - txd_amount) as nat,
                offset: txd_amount as nat,
                ..self
            }
        } else {
            self
        }
    }

    /// What an interrupt means.
    pub open spec fn interrupt_outcome(self, event_endtx: u32, txd_amount: u32) -> OutcomeView {
        if !event_raised(event_endtx) {
            OutcomeView::NoEvent
        } else if txd_amount > self.remaining_bytes {
            OutcomeView::Stalled
        } else if txd_amount < self.remaining_bytes {
            OutcomeView::Continued
        } else {
            match (self.client, self.buffer) {
                (Some(client), Some(buffer)) => OutcomeView::Completed {
                    client,
                    buffer,
                    error: Error::CommandComplete,
                },
                _ => OutcomeView::Finished,
            }
        }
    }

    /// The register operations that answer an interrupt. The completion
    /// interrupt is always switched off first; a raised event stops the
    /// transmitter; a partial burst restarts it at the reported count.
    pub open spec fn interrupt_ops(self, event_endtx: u32, txd_amount: u32) -> Seq<RegisterOp> {
        let off = seq![
            RegisterOp::Write { register: Register::IntenClr, value: ENDTX_INTERRUPT },
        ];
        let stop = seq![
            RegisterOp::Write { register: Register::TaskStopTx, value: TASK_TRIGGER },
        ];
        if !event_raised(event_endtx) {
            off
        } else if txd_amount < self.remaining_bytes {
            off + stop + continue_ops(txd_amount as nat)
        } else {
            off + stop
        }
    }
}

/// The UARTE device: the transfer in flight and the staging buffer that
/// the DMA engine reads from.
pub struct UARTE {
    client: Option<ClientId>,
    buffer: Option<Vec<u8>>,
    remaining_bytes: usize,
    offset: usize,
    staging: [u8; BUF_SIZE],
}

impl View for UARTE {
    type V = State;

    closed spec fn view(&self) -> State {
        State {
            client: self.client,
            buffer: match self.buffer {
                Some(b) => Some(b@),
                None => None,
            },
            remaining_bytes: self.remaining_bytes as nat,
            offset: self.offset as nat,
            staging: self.staging@,
        }
    }
}

impl UARTE {
    #[verifier::type_invariant]
    spec fn inv(self) -> bool {
        self.remaining_bytes <= BUF_SIZE && self.offset <= BUF_SIZE
    }

    /// A quiescent device.
    pub fn new() -> (uart: UARTE)
        ensures
            uart@ == State::idle(),
            uart@.wf(),
    {
        let uart = UARTE {
            client: None,
            buffer: None,
            remaining_bytes: 0,
            offset: 0,
            staging: [0u8; BUF_SIZE],
        };
        assert(uart@.staging =~= State::idle().staging);
        uart
    }

    /// Bytes of the transfer in flight not yet confirmed as sent.
    pub fn remaining_bytes(&self) -> (n: usize)
        ensures
            n == self@.remaining_bytes,
            self@.wf(),
    {
        proof {
            use_type_invariant(self);
        }
        self.remaining_bytes
    }

    /// Index in the staging buffer where the next DMA burst starts.
    pub fn offset(&self) -> (n: usize)
        ensures
            n == self@.offset,
            self@.wf(),
    {
        proof {
            use_type_invariant(self);
        }
        self.offset
    }

    /// The registered client, if any.
    pub fn client(&self) -> (c: Option<ClientId>)
        ensures
            c == self@.client,
    {
        self.client
    }

    /// Whether the driver holds a caller's buffer.
    pub fn holds_buffer(&self) -> (b: bool)
        ensures
            b == self@.buffer.is_some(),
    {
        self.buffer.is_some()
    }

    /// The staging buffer, for the DMA engine to read.
    pub fn staging(&self) -> (bytes: &[u8; BUF_SIZE])
        ensures
            bytes@ == self@.staging,
    {
        &self.staging
    }

    /// Routes the four UART signals to their pins. The PSEL registers are
    /// written in the order TXD, RXD, CTS, RTS.
    pub fn configure(&self, tx: Pinmux, rx: Pinmux, cts: Pinmux, rts: Pinmux) -> (ops: Vec<
        RegisterOp,
    >)
        ensures
            ops@ == configure_ops(tx, rx, cts, rts),
    {
        let mut ops: Vec<RegisterOp> = Vec::new();
        ops.push(select_pin(Register::PselTxd, tx));
        ops.push(select_pin(Register::PselRxd, rx));
        ops.push(select_pin(Register::PselCts, cts));
        ops.push(select_pin(Register::PselRts, rts));
        assert(ops@ =~= configure_ops(tx, rx, cts, rts));
        ops
    }

    /// Registers the target of the completion callback, replacing any
    /// earlier one. Nothing else changes.
    pub fn set_client(&mut self, client: ClientId)
        ensures
            final(self)@ == (State { client: Some(client), ..old(self)@ }),
    {
        proof {
            use_type_invariant(&*self);
        }
        self.client = Some(client);
    }

    /// Switches the peripheral on, then programs the baud rate.
    pub fn init(&self, params: UARTParams) -> (ops: Vec<RegisterOp>)
        ensures
            ops@ == init_ops(params),
    {
        let mut ops: Vec<RegisterOp> = Vec::new();
        ops.push(enable());
        ops.push(set_baud_rate(params.baud_rate));
        assert(ops@ =~= init_ops(params));
        ops
    }

    /// Whether the last transmission has ended, as the EVENTS_ENDTX word
    /// `event_endtx` shows it. Looks at the flag bit alone and changes
    /// nothing.
    pub fn tx_ready(&self, event_endtx: u32) -> (ready: bool)
        ensures
            ready == event_raised(event_endtx),
    {
        let fv = set_bit(Bitfield::EventReady);
        assert(((1u32 << 0u32) & ((((1u32 << 1u32) - 1) as u32) << 0u32)) == 1u32) by (bit_vector);
        assert(((((1u32 << 1u32) - 1) as u32) << 0u32) == 1u32) by (bit_vector);
        fv.matches(event_endtx)
    }

    /// Aims the DMA engine at the staging buffer, at the current offset.
    fn set_dma_pointer_to_buffer(&self) -> (op: RegisterOp)
        ensures
            op == (RegisterOp::PointTx { offset: self.offset }),
            self.offset <= BUF_SIZE,
    {
        proof {
            use_type_invariant(self);
        }
        RegisterOp::PointTx { offset: self.offset }
    }

    /// Copies the first `tx_len` bytes of the held buffer to the front of
    /// the staging buffer.
    fn copy_data_to_uart_buffer(&mut self, tx_len: usize)
        requires
            old(self).buffer is Some,
            tx_len <= old(self).buffer->0@.len(),
            tx_len <= BUF_SIZE,
        ensures
            final(self)@ == (State {
                staging: staged(old(self)@.staging, old(self).buffer->0@, tx_len as nat),
                ..old(self)@
            }),
    {
        let mut i: usize = 0;
        while i < tx_len
            invariant
                i <= tx_len <= BUF_SIZE,
                self.buffer == old(self).buffer,
                self.buffer is Some,
                tx_len <= self.buffer->0@.len(),
                self.client == old(self).client,
                self.remaining_bytes == old(self).remaining_bytes,
                self.offset == old(self).offset,
                forall|j: int| 0 <= j < i ==> self.staging@[j] == self.buffer->0@[j],
                forall|j: int| i <= j < BUF_SIZE ==> self.staging@[j] == old(self).staging@[j],
            decreases tx_len - i,
        {
            proof {
                use_type_invariant(&*self);
            }
            let byte: u8 = match &self.buffer {
                Some(buffer) => buffer[i],
                None => 0,
            };
            self.staging[i] = byte;
            i += 1;
        }
        assert(self@.staging =~= staged(old(self)@.staging, old(self).buffer->0@, tx_len as nat));
    }

    /// Asks for the first `tx_len` bytes of `tx_data` to be sent.
    ///
    /// A zero length is a no-op. A request made while the driver holds a
    /// buffer, or for more bytes than the staging buffer or `tx_data`
    /// holds, is refused. In both cases the buffer comes straight back and
    /// nothing changes. Otherwise the driver takes the buffer, stages the
    /// bytes, and hands out the operations that start the transfer.
    pub fn transmit(&mut self, tx_data: Vec<u8>, tx_len: usize) -> (r: Transmit)
        ensures
            r@ == old(self)@.transmit_result(tx_data@, tx_len as nat),
            final(self)@ == old(self)@.after_transmit(tx_data@, tx_len as nat),
            final(self)@.wf(),
    {
        proof {
            use_type_invariant(&*self);
        }
        if tx_len == 0 {
            return Transmit::Nothing { buffer: tx_data };
        }
        if self.buffer.is_some() {
            return Transmit::Refused { buffer: tx_data, error: TransmitError::Busy };
        }
        if tx_len > BUF_SIZE {
            return Transmit::Refused { buffer: tx_data, error: TransmitError::ExceedsStaging };
        }
        if tx_len > tx_data.len() {
            return Transmit::Refused { buffer: tx_data, error: TransmitError::ExceedsBuffer };
        }
        self.remaining_bytes = tx_len;
        self.offset = 0;
        self.buffer = Some(tx_data);
        self.copy_data_to_uart_buffer(tx_len);

        let mut ops: Vec<RegisterOp> = Vec::new();
        ops.push(self.set_dma_pointer_to_buffer());
        ops.push(RegisterOp::Write { register: Register::TxdMaxCnt, value: tx_len as u32 });
        ops.push(trigger(Register::TaskStopTx));
        ops.push(trigger(Register::TaskStartTx));
        ops.push(enable_tx_interrupts());
        assert(ops@ =~= transmit_ops(tx_len as nat));
        Transmit::Started { ops }
    }

    /// Always fails: reception is not implemented. The buffer comes
    /// straight back.
    pub fn receive(&self, rx_buffer: Vec<u8>, rx_len: usize) -> (r: Result<(), Unimplemented>)
        ensures
            r matches Err(e) && e.buffer == rx_buffer,
    {
        Err(Unimplemented { buffer: rx_buffer })
    }

    /// Sends one byte, without a caller's buffer: stages it at the front
    /// and hands out the operations that send it.
    pub fn send_byte(&mut self, byte: u8) -> (ops: Vec<RegisterOp>)
        ensures
            ops@ == send_byte_ops(),
            final(self)@ == old(self)@.after_send_byte(byte),
            final(self)@.wf(),
    {
        proof {
            use_type_invariant(&*self);
        }
        let mut ops: Vec<RegisterOp> = Vec::new();
        self.remaining_bytes = 1;
        self.offset = 0;
        ops.push(trigger(Register::TaskStopTx));
        self.staging[0] = byte;
        ops.push(self.set_dma_pointer_to_buffer());
        ops.push(RegisterOp::Write { register: Register::TxdMaxCnt, value: 1 });
        ops.push(trigger(Register::TaskStartTx));
        ops.push(enable_tx_interrupts());
        assert(ops@ =~= send_byte_ops());
        ops
    }

    /// Answers the peripheral's interrupt. `event_endtx` is the word read
    /// from EVENTS_ENDTX and `txd_amount` the word read from TXD.AMOUNT.
    ///
    /// The completion interrupt is switched off first. If the event is
    /// raised, the transmitter is stopped and the reported byte count is
    /// taken off the outstanding count. A report of more bytes than were
    /// outstanding stalls the transfer. When nothing is outstanding the
    /// buffer leaves the driver, to the client if there is one; otherwise
    /// the transmitter is restarted where the last burst ended.
    pub fn handle_interrupt(&mut self, event_endtx: u32, txd_amount: u32) -> (r: Interrupt)
        ensures
            r.ops@ == old(self)@.interrupt_ops(event_endtx, txd_amount),
            r.outcome@ == old(self)@.interrupt_outcome(event_endtx, txd_amount),
            final(self)@ == old(self)@.after_interrupt(event_endtx, txd_amount),
            final(self)@.wf(),
    {
        proof {
            use_type_invariant(&*self);
        }
        let mut ops: Vec<RegisterOp> = Vec::new();
        ops.push(disable_tx_interrupts());

        if !self.tx_ready(event_endtx) {
            assert(ops@ =~= old(self)@.interrupt_ops(event_endtx, txd_amount));
            return Interrupt { ops, outcome: Outcome::NoEvent };
        }
        ops.push(trigger(Register::TaskStopTx));
        let tx_bytes: usize = txd_amount as usize;
        let rem: usize = self.remaining_bytes;

        if tx_bytes > rem {
            assert(ops@ =~= old(self)@.interrupt_ops(event_endtx, txd_amount));
            return Interrupt { ops, outcome: Outcome::Stalled };
        }
        self.remaining_bytes = rem - tx_bytes;
        self.offset = tx_bytes;

        if self.remaining_bytes == 0 {
            let mut buffer: Option<Vec<u8>> = None;
            std::mem::swap(&mut self.buffer, &mut buffer);
            assert(ops@ =~= old(self)@.interrupt_ops(event_endtx, txd_amount));
            match (self.client, buffer) {
                (Some(client), Some(buffer)) => Interrupt {
                    ops,
                    outcome: Outcome::Completed { client, buffer, error: Error::CommandComplete },
                },
                _ => Interrupt { ops, outcome: Outcome::Finished },
            }
        } else {
            ops.push(self.set_dma_pointer_to_buffer());
            ops.push(RegisterOp::Write { register: Register::TaskStartTx, value: 1 });
            ops.push(enable_tx_interrupts());
            assert(ops@ =~= old(self)@.interrupt_ops(event_endtx, txd_amount));
            Interrupt { ops, outcome: Outcome::Continued }
        }
    }
}

} // verus!
