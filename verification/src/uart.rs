//! PL011 UART driver: the concrete serial transport behind the console.
//!
//! The transceiver is a register-level state machine driven by polling three
//! flag bits: `BUSY` (transmitter shift register non-empty), `RXFE` (receive
//! FIFO empty) and `TXFF` (transmit FIFO full). The register block here is
//! modeled as data with scripted timing: the flag bits clear after a chosen
//! number of polls, received bytes are queued by the environment, and every
//! transmitted byte is recorded in order. A hardware-backed block would issue
//! volatile loads and stores at a fixed physical address instead; the driver
//! logic above the block is the same either way.

use vstd::prelude::*;

verus! {

use crate::driver::DeviceDriver;
use crate::synchronization::NullLock;
use vstd::std_specs::iter::IteratorSpec;

/// Flag register bit: transmitter busy (shift register non-empty).
pub const UART_FR_BUSY: u32 = 1u32 << 3;

/// Flag register bit: receive FIFO empty.
pub const UART_FR_RXFE: u32 = 1u32 << 4;

/// Flag register bit: transmit FIFO full.
pub const UART_FR_TXFF: u32 = 1u32 << 5;

/// The abstract state of the serial transceiver.
///
/// `wire` is the sequence of bytes physically transmitted, oldest first.
/// `fifo` is the receive FIFO, next byte to be read first; `pending` holds
/// bytes still in flight on the receive path, which enter the FIFO one per
/// poll. `busy` and `txff` are the number of polls after which the
/// corresponding flag clears, and `polls` counts the poll iterations the
/// driver has performed so far (saturating at `u64::MAX`).
pub struct UartModel {
    pub fifo: Seq<u8>,
    pub pending: Seq<u8>,
    pub wire: Seq<u8>,
    pub busy: nat,
    pub txff: nat,
    pub polls: nat,
}

/// Every byte the receive path still holds, in the order it will be read.
pub open spec fn rx_stream(m: UartModel) -> Seq<u8> {
    m.fifo + m.pending
}

/// Addition capped at `u64::MAX`, mirroring the saturating poll counter.
pub open spec fn sat_add(a: nat, k: nat) -> nat {
    if a + k <= u64::MAX {
        a + k
    } else {
        u64::MAX as nat
    }
}

/// Subtraction floored at zero.
pub open spec fn sat_sub(a: nat, k: nat) -> nat {
    if a >= k {
        (a - k) as nat
    } else {
        0
    }
}

/// One poll iteration: the hardware makes progress while the driver spins.
pub open spec fn step_model(m: UartModel) -> UartModel {
    UartModel {
        fifo: if m.pending.len() > 0 {
            m.fifo.push(m.pending[0])
        } else {
            m.fifo
        },
        pending: if m.pending.len() > 0 {
            m.pending.drop_first()
        } else {
            m.pending
        },
        busy: sat_sub(m.busy, 1),
        txff: sat_sub(m.txff, 1),
        polls: sat_add(m.polls, 1),
        ..m
    }
}

/// A poll step never loses or duplicates a byte on the receive path.
pub proof fn lemma_step_preserves_rx_stream(m: UartModel)
    ensures
        rx_stream(step_model(m)) == rx_stream(m),
        step_model(m).wire == m.wire,
{
    assert(rx_stream(step_model(m)) =~= rx_stream(m));
}

/// The low byte that the data register transmits for a character.
pub open spec fn byte_of(c: char) -> u8 {
    (c as u32 & 0xff) as u8
}

/// The memory-mapped register block of the transceiver, modeled as data.
///
/// All driver access goes through the flag register, the data register and
/// one poll step; the remaining methods are the environment's half of the
/// protocol (bytes arriving, the transmitter being busy) and stand in for
/// what real hardware would do on its own.
pub struct Pl011Regs {
    rx_fifo: Vec<u8>,
    rx_pending: Vec<u8>,
    wire: Vec<u8>,
    busy_polls: u64,
    txff_polls: u64,
    polls: u64,
}

impl View for Pl011Regs {
    type V = UartModel;

    closed spec fn view(&self) -> UartModel {
        UartModel {
            fifo: self.rx_fifo@,
            pending: self.rx_pending@,
            wire: self.wire@,
            busy: self.busy_polls as nat,
            txff: self.txff_polls as nat,
            polls: self.polls as nat,
        }
    }
}

impl Pl011Regs {
    /// A transceiver at rest: nothing received, nothing sent, all flags clear.
    pub fn new() -> (r: Self)
        ensures
            r@ == (UartModel {
                fifo: Seq::<u8>::empty(),
                pending: Seq::<u8>::empty(),
                wire: Seq::<u8>::empty(),
                busy: 0nat,
                txff: 0nat,
                polls: 0nat,
            }),
    {
        let r = Pl011Regs {
            rx_fifo: Vec::new(),
            rx_pending: Vec::new(),
            wire: Vec::new(),
            busy_polls: 0,
            txff_polls: 0,
            polls: 0,
        };
        proof {
            assert(r@ =~= UartModel {
                fifo: Seq::<u8>::empty(),
                pending: Seq::<u8>::empty(),
                wire: Seq::<u8>::empty(),
                busy: 0nat,
                txff: 0nat,
                polls: 0nat,
            });
        }
        r
    }

    /// Read the flag register.
    pub fn flag(&self) -> (r: u32)
        ensures
            (r & UART_FR_BUSY != 0) <==> self@.busy > 0,
            (r & UART_FR_RXFE != 0) <==> self@.fifo.len() == 0,
            (r & UART_FR_TXFF != 0) <==> self@.txff > 0,
    {
        let busy: u32 = if self.busy_polls > 0 { UART_FR_BUSY } else { 0 };
        let rxfe: u32 = if self.rx_fifo.len() == 0 { UART_FR_RXFE } else { 0 };
        let txff: u32 = if self.txff_polls > 0 { UART_FR_TXFF } else { 0 };
        let r = busy | rxfe | txff;
        proof {
            assert(1u32 << 3 == 8 && 1u32 << 4 == 16 && 1u32 << 5 == 32) by (bit_vector);
            assert(((busy | rxfe | txff) & 8u32 != 0) == (busy == 8u32) && ((busy | rxfe | txff)
                & 16u32 != 0) == (rxfe == 16u32) && ((busy | rxfe | txff) & 32u32 != 0) == (txff
                == 32u32)) by (bit_vector)
                requires
                    (busy == 0 || busy == 8u32) && (rxfe == 0 || rxfe == 16u32) && (txff == 0
                        || txff == 32u32),
            ;
        }
        r
    }

    /// One spin-wait iteration: time passes, the hardware makes progress.
    pub fn step(&mut self)
        ensures
            final(self)@ == step_model(old(self)@),
    {
        if self.rx_pending.len() > 0 {
            let b = self.rx_pending.remove(0);
            self.rx_fifo.push(b);
        }
        if self.busy_polls > 0 {
            self.busy_polls = self.busy_polls - 1;
        }
        if self.txff_polls > 0 {
            self.txff_polls = self.txff_polls - 1;
        }
        if self.polls < u64::MAX {
            self.polls = self.polls + 1;
        }
        proof {
            assert(self@.pending =~= step_model(old(self)@).pending);
            assert(self@ =~= step_model(old(self)@));
        }
    }

    /// Read the data register: pop the next received byte.
    pub fn read_data(&mut self) -> (r: u32)
        requires
            old(self)@.fifo.len() > 0,
        ensures
            r == old(self)@.fifo[0] as u32,
            final(self)@ == (UartModel { fifo: old(self)@.fifo.drop_first(), ..old(self)@ }),
    {
        let b = self.rx_fifo.remove(0);
        proof {
            assert(self@.fifo =~= old(self)@.fifo.drop_first());
            assert(self@ =~= UartModel { fifo: old(self)@.fifo.drop_first(), ..old(self)@ });
        }
        b as u32
    }

    /// Write the data register: the transmitter puts the low byte on the wire.
    pub fn write_data(&mut self, v: u32)
        requires
            old(self)@.txff == 0,
        ensures
            final(self)@ == (UartModel { wire: old(self)@.wire.push((v & 0xff) as u8), ..old(self)@ }),
    {
        self.wire.push((v & 0xff) as u8);
        proof {
            assert(self@ =~= UartModel { wire: old(self)@.wire.push((v & 0xff) as u8), ..old(self)@ });
        }
    }

    /// Environment: a byte arrives and sits in the receive FIFO, readable now.
    pub fn receive_byte(&mut self, b: u8)
        ensures
            final(self)@ == (UartModel { fifo: old(self)@.fifo.push(b), ..old(self)@ }),
    {
        self.rx_fifo.push(b);
        proof {
            assert(self@ =~= UartModel { fifo: old(self)@.fifo.push(b), ..old(self)@ });
        }
    }

    /// Environment: a byte is in flight on the receive path; it will enter
    /// the FIFO on a later poll.
    pub fn queue_arrival(&mut self, b: u8)
        ensures
            final(self)@ == (UartModel { pending: old(self)@.pending.push(b), ..old(self)@ }),
    {
        self.rx_pending.push(b);
        proof {
            assert(self@ =~= UartModel { pending: old(self)@.pending.push(b), ..old(self)@ });
        }
    }

    /// Environment: the transmitter stays busy for the next `n` polls.
    pub fn set_busy_polls(&mut self, n: u64)
        ensures
            final(self)@ == (UartModel { busy: n as nat, ..old(self)@ }),
    {
        self.busy_polls = n;
        proof {
            assert(self@ =~= UartModel { busy: n as nat, ..old(self)@ });
        }
    }

    /// Environment: the transmit FIFO stays full for the next `n` polls.
    pub fn set_txff_polls(&mut self, n: u64)
        ensures
            final(self)@ == (UartModel { txff: n as nat, ..old(self)@ }),
    {
        self.txff_polls = n;
        proof {
            assert(self@ =~= UartModel { txff: n as nat, ..old(self)@ });
        }
    }

    /// The bytes physically transmitted so far, oldest first.
    pub fn transmitted(&self) -> (r: &Vec<u8>)
        ensures
            r@ == self@.wire,
    {
        &self.wire
    }

    /// How many bytes are pending in the receive FIFO.
    pub fn rx_len(&self) -> (r: usize)
        ensures
            r == self@.fifo.len(),
    {
        self.rx_fifo.len()
    }

    /// How many poll iterations the driver has performed (saturating).
    pub fn poll_count(&self) -> (r: u64)
        ensures
            r == self@.polls,
    {
        self.polls
    }
}

/// The character a received byte is handed up as.
pub open spec fn char_of(b: u8) -> char {
    b as char
}

/// The bytes one written character puts on the wire: a newline is expanded
/// to carriage return plus linefeed, every other character passes unchanged.
pub open spec fn expand(c: char) -> Seq<u8> {
    if c == '\n' {
        seq![13u8, byte_of(c)]
    } else {
        seq![byte_of(c)]
    }
}

/// Newline expansion, spelled out: writing `'\n'` puts exactly carriage
/// return then linefeed on the wire, in that order, and writing any other
/// character puts exactly its own byte.
pub proof fn lemma_newline_expansion()
    ensures
        expand('\n') == seq![13u8, 10u8],
        forall|c: char| c != '\n' ==> #[trigger] expand(c) == seq![byte_of(c)],
{
    assert('\n' as u32 == 10);
    assert(10u32 & 0xff == 10) by (bit_vector);
    assert(expand('\n') =~= seq![13u8, 10u8]);
}

/// The bytes a whole text puts on the wire, character by character.
pub open spec fn expand_text(s: Seq<char>) -> Seq<u8>
    decreases s.len(),
{
    if s.len() == 0 {
        Seq::<u8>::empty()
    } else {
        expand(s[0]) + expand_text(s.drop_first())
    }
}

/// Writing one more character appends exactly its expansion.
pub proof fn lemma_expand_text_snoc(s: Seq<char>, c: char)
    ensures
        expand_text(s.push(c)) == expand_text(s) + expand(c),
    decreases s.len(),
{
    if s.len() == 0 {
        assert(s.push(c)[0] == c);
        assert(s.push(c).drop_first() =~= Seq::<char>::empty());
        assert(expand_text(s.push(c)) == expand(c) + expand_text(Seq::<char>::empty()));
        assert(expand_text(s.push(c)) =~= expand_text(s) + expand(c));
    } else {
        assert(s.push(c)[0] == s[0]);
        assert(s.push(c).drop_first() =~= s.drop_first().push(c));
        lemma_expand_text_snoc(s.drop_first(), c);
        assert(expand_text(s.push(c)) == expand(s[0]) + (expand_text(s.drop_first()) + expand(
            c,
        )));
        assert(expand_text(s.push(c)) =~= expand_text(s) + expand(c));
    }
}

/// The state after the receive FIFO has been drained; nothing else moves.
pub open spec fn drained(m: UartModel) -> UartModel {
    UartModel { fifo: Seq::<u8>::empty(), ..m }
}

/// What a non-blocking read reports: the front of the receive FIFO, or no
/// data when the FIFO is empty.
pub open spec fn nb_read_result(m: UartModel) -> Option<u8> {
    if m.fifo.len() == 0 {
        None
    } else {
        Some(m.fifo[0])
    }
}

/// Draining is idempotent: a non-blocking read immediately after the receive
/// FIFO was drained reports no data.
pub proof fn lemma_drain_idempotent(m: UartModel)
    ensures
        nb_read_result(drained(m)) is None,
{
}

/// An empty receive FIFO gives a non-blocking read nothing to report; the
/// read leaves every part of the transceiver state, counters included,
/// exactly as it was (see `Uart::read_char`, which returns its state
/// unchanged whenever it reports no data).
pub proof fn lemma_nb_read_empty(m: UartModel)
    requires
        m.fifo.len() == 0,
    ensures
        nb_read_result(m) is None,
{
}

/// Whether a read polls until data arrives or returns at once without it.
#[derive(PartialEq, Eq, Structural)]
pub enum BlockingMode {
    Blocking,
    NonBlocking,
}

/// The transport contract of the serial transceiver: character writes with
/// newline expansion, and blocking or non-blocking polled reads.
pub trait Uart: Sized {
    /// The transceiver state that this transport's contracts speak of.
    spec fn model(&self) -> UartModel;

    /// Write one character with the transport's own flow control; `'\n'`
    /// puts carriage return then linefeed on the wire, in that order.
    fn write_char(&mut self, c: char)
        ensures
            final(self).model().wire == old(self).model().wire + expand(c),
            rx_stream(final(self).model()) == rx_stream(old(self).model()),
            final(self).model().txff == 0,
            final(self).model().busy <= old(self).model().busy,
            final(self).model().polls >= old(self).model().polls,
    ;

    /// Read one character. If the receive FIFO is empty a non-blocking read
    /// returns no data at once and changes nothing; a blocking read polls
    /// until a byte arrives.
    fn read_char(&mut self, mode: BlockingMode) -> (r: Option<char>)
        requires
            mode == BlockingMode::Blocking ==> rx_stream(old(self).model()).len() > 0,
        ensures
            mode == BlockingMode::NonBlocking ==> ((r is None) <==> nb_read_result(
                old(self).model(),
            ) is None),
            r is None ==> *final(self) == *old(self),
            r is Some ==> rx_stream(old(self).model()).len() > 0 && r == Some(
                char_of(rx_stream(old(self).model())[0]),
            ) && rx_stream(final(self).model()) == rx_stream(old(self).model()).drop_first()
                && final(self).model().wire == old(self).model().wire,
            old(self).model().fifo.len() > 0 ==> final(self).model() == (UartModel {
                fifo: old(self).model().fifo.drop_first(),
                ..old(self).model()
            }),
            mode == BlockingMode::Blocking ==> r is Some,
    ;

    /// Write every character of `s`, in order.
    fn write_str(&mut self, s: &str)
        ensures
            final(self).model().wire == old(self).model().wire + expand_text(s@),
            rx_stream(final(self).model()) == rx_stream(old(self).model()),
            final(self).model().busy <= old(self).model().busy,
            final(self).model().polls >= old(self).model().polls,
    ;
}

/// The driver proper. Its only state is the register block: everything it
/// does is polling and moving bytes through the data register.
pub struct PL011EarlyUartInner {
    regs: Pl011Regs,
}

impl View for PL011EarlyUartInner {
    type V = UartModel;

    closed spec fn view(&self) -> UartModel {
        self.regs@
    }
}

impl PL011EarlyUartInner {
    /// A driver over a transceiver at rest.
    pub fn new() -> (r: Self)
        ensures
            r@ == (UartModel {
                fifo: Seq::<u8>::empty(),
                pending: Seq::<u8>::empty(),
                wire: Seq::<u8>::empty(),
                busy: 0nat,
                txff: 0nat,
                polls: 0nat,
            }),
    {
        PL011EarlyUartInner { regs: Pl011Regs::new() }
    }

    /// Transport setup. For this transceiver there is nothing to program:
    /// firmware has already configured it, so this always succeeds. A
    /// different transport variant may do real register work here and fail.
    pub fn init(&self) -> (r: Result<(), &'static str>)
        ensures
            r is Ok,
    {
        Ok(())
    }

    /// Write one unit to the data register, without newline expansion:
    /// spin-wait while the transmit FIFO is full, then write.
    fn write_char_raw(&mut self, c: char)
        ensures
            final(self)@.wire == old(self)@.wire.push(byte_of(c)),
            rx_stream(final(self)@) == rx_stream(old(self)@),
            final(self)@.txff == 0,
            final(self)@.busy <= old(self)@.busy,
            final(self)@.polls >= old(self)@.polls,
    {
        while self.regs.flag() & UART_FR_TXFF != 0
            invariant
                rx_stream(self.regs@) == rx_stream(old(self).regs@),
                self.regs@.wire == old(self).regs@.wire,
                self.regs@.busy <= old(self).regs@.busy,
                self.regs@.polls >= old(self).regs@.polls,
            decreases self.regs@.txff,
        {
            proof {
                lemma_step_preserves_rx_stream(self.regs@);
            }
            self.regs.step();
        }
        self.regs.write_data(c as u32);
    }

    /// Discard whatever sits in the receive FIFO: read it, without blocking,
    /// until the FIFO indicates empty.
    pub fn clear_rx(&mut self)
        ensures
            final(self)@ == drained(old(self)@),
    {
        loop
            invariant
                self@.pending == old(self)@.pending,
                self@.wire == old(self)@.wire,
                self@.busy == old(self)@.busy,
                self@.txff == old(self)@.txff,
                self@.polls == old(self)@.polls,
            ensures
                self@ == drained(old(self)@),
            decreases self@.fifo.len(),
        {
            let r = self.read_char(BlockingMode::NonBlocking);
            if r.is_none() {
                proof {
                    assert(self@.fifo =~= Seq::<u8>::empty());
                    assert(self@ =~= drained(old(self)@));
                }
                break ;
            }
        }
    }

    /// The bytes physically transmitted so far, oldest first.
    pub fn transmitted(&self) -> (r: &Vec<u8>)
        ensures
            r@ == self@.wire,
    {
        self.regs.transmitted()
    }

    /// How many bytes are pending in the receive FIFO.
    pub fn rx_len(&self) -> (r: usize)
        ensures
            r == self@.fifo.len(),
    {
        self.regs.rx_len()
    }

    /// How many poll iterations the driver has performed (saturating).
    pub fn poll_count(&self) -> (r: u64)
        ensures
            r == self@.polls,
    {
        self.regs.poll_count()
    }

    /// Environment: a byte arrives and sits in the receive FIFO.
    pub fn receive_byte(&mut self, b: u8)
        ensures
            final(self)@ == (UartModel { fifo: old(self)@.fifo.push(b), ..old(self)@ }),
    {
        self.regs.receive_byte(b);
    }

    /// Environment: a byte in flight on the receive path.
    pub fn queue_arrival(&mut self, b: u8)
        ensures
            final(self)@ == (UartModel { pending: old(self)@.pending.push(b), ..old(self)@ }),
    {
        self.regs.queue_arrival(b);
    }

    /// Environment: the transmitter stays busy for the next `n` polls.
    pub fn set_busy_polls(&mut self, n: u64)
        ensures
            final(self)@ == (UartModel { busy: n as nat, ..old(self)@ }),
    {
        self.regs.set_busy_polls(n);
    }

    /// Environment: the transmit FIFO stays full for the next `n` polls.
    pub fn set_txff_polls(&mut self, n: u64)
        ensures
            final(self)@ == (UartModel { txff: n as nat, ..old(self)@ }),
    {
        self.regs.set_txff_polls(n);
    }

    /// Block until the last buffered character has physically left the
    /// device: spin-wait while the busy flag is set. Returns only once the
    /// busy flag is clear, after exactly one poll per scripted busy cycle.
    pub fn flush(&mut self)
        ensures
            final(self)@.busy == 0,
            final(self)@.wire == old(self)@.wire,
            rx_stream(final(self)@) == rx_stream(old(self)@),
            final(self)@.polls == sat_add(old(self)@.polls, old(self)@.busy),
            final(self)@.txff <= old(self)@.txff,
    {
        while self.regs.flag() & UART_FR_BUSY != 0
            invariant
                rx_stream(self.regs@) == rx_stream(old(self).regs@),
                self.regs@.wire == old(self).regs@.wire,
                self.regs@.busy <= old(self).regs@.busy,
                self.regs@.txff <= old(self).regs@.txff,
                self.regs@.polls == sat_add(
                    old(self).regs@.polls,
                    (old(self).regs@.busy - self.regs@.busy) as nat,
                ),
            decreases self.regs@.busy,
        {
            proof {
                lemma_step_preserves_rx_stream(self.regs@);
            }
            self.regs.step();
        }
    }
}

impl Uart for PL011EarlyUartInner {
    open spec fn model(&self) -> UartModel {
        self@
    }

    fn write_char(&mut self, c: char) {
        if c == '\n' {
            self.write_char_raw('\r');
        }
        self.write_char_raw(c);
        proof {
            assert('\r' as u32 == 13);
            assert(13u32 & 0xff == 13) by (bit_vector);
            assert(byte_of('\r') == 13u8);
            assert(self@.wire =~= old(self)@.wire + expand(c));
        }
    }

    fn read_char(&mut self, mode: BlockingMode) -> (r: Option<char>) {
        let f = self.regs.flag();
        if f & UART_FR_RXFE != 0 {
            if mode == BlockingMode::NonBlocking {
                return None;
            }
            while self.regs.flag() & UART_FR_RXFE != 0
                invariant
                    rx_stream(self.regs@) == rx_stream(old(self).regs@),
                    rx_stream(old(self).regs@).len() > 0,
                    self.regs@.wire == old(self).regs@.wire,
                    self.regs@.busy <= old(self).regs@.busy,
                    self.regs@.txff <= old(self).regs@.txff,
                    self.regs@.polls >= old(self).regs@.polls,
                decreases self.regs@.pending.len(),
            {
                proof {
                    lemma_step_preserves_rx_stream(self.regs@);
                    if self.regs@.fifo.len() == 0 {
                        assert(rx_stream(self.regs@)[0] == self.regs@.pending[0]);
                    }
                }
                self.regs.step();
            }
        }
        proof {
            assert(rx_stream(self.regs@)[0] == self.regs@.fifo[0]);
            assert(rx_stream(self.regs@).drop_first() =~= self.regs@.fifo.drop_first()
                + self.regs@.pending);
        }
        let data = self.regs.read_data();
        proof {
            assert((data & 0xff) == data) by (bit_vector)
                requires
                    data < 256,
            ;
        }
        Some(((data & 0xff) as u8) as char)
    }

    fn write_str(&mut self, s: &str) {
        proof {
            vstd::string::axiom_spec_iter(s);
        }
        let mut it = s.chars();
        let ghost mut i: int = 0;
        loop
            invariant
                0 <= i <= s@.len(),
                it.obeys_prophetic_iter_laws(),
                it.remaining() == s@.skip(i),
                self.regs@.wire == old(self).regs@.wire + expand_text(s@.take(i)),
                rx_stream(self.regs@) == rx_stream(old(self).regs@),
                self.regs@.busy <= old(self).regs@.busy,
                self.regs@.polls >= old(self).regs@.polls,
            ensures
                self.regs@.wire == old(self).regs@.wire + expand_text(s@),
                rx_stream(self.regs@) == rx_stream(old(self).regs@),
                self.regs@.busy <= old(self).regs@.busy,
                self.regs@.polls >= old(self).regs@.polls,
            decreases s@.len() - i,
        {
            let next = it.next();
            match next {
                Some(c) => {
                    proof {
                        assert(c == s@.skip(i)[0]);
                        assert(s@.take(i + 1) =~= s@.take(i).push(s@[i]));
                        assert(s@.skip(i).drop_first() =~= s@.skip(i + 1));
                    }
                    self.write_char(c);
                    proof {
                        lemma_expand_text_snoc(s@.take(i), s@[i]);
                        i = i + 1;
                        assert(self.regs@.wire =~= old(self).regs@.wire + expand_text(
                            s@.take(i),
                        ));
                    }
                },
                None => {
                    proof {
                        assert(s@.skip(i).len() == 0);
                        assert(s@.take(i) =~= s@);
                    }
                    break ;
                },
            }
        }
    }
}

/// The identification string of this transport.
pub const PL011_COMPATIBLE: &'static str = "BCM PL011 UART";

/// Representation of the UART: the driver behind the one synchronization
/// choke point every register access funnels through, plus its lifecycle
/// flag.
pub struct PL011EarlyUart {
    inner: NullLock<PL011EarlyUartInner>,
    inited: bool,
}

impl View for PL011EarlyUart {
    type V = UartModel;

    closed spec fn view(&self) -> UartModel {
        self.inner.view_data()@
    }
}

impl PL011EarlyUart {
    /// A console transport over a transceiver at rest, not yet initialized.
    /// The result identifies as the PL011 transport, and its setup will
    /// succeed: this transceiver needs no register programming.
    pub fn new() -> (r: Self)
        ensures
            r@ == (UartModel {
                fifo: Seq::<u8>::empty(),
                pending: Seq::<u8>::empty(),
                wire: Seq::<u8>::empty(),
                busy: 0nat,
                txff: 0nat,
                polls: 0nat,
            }),
            !r.inited(),
            r.id() == PL011_COMPATIBLE@,
            r.init_ok(),
    {
        PL011EarlyUart { inner: NullLock::new(PL011EarlyUartInner::new()), inited: false }
    }

    /// The bytes physically transmitted so far, oldest first.
    pub fn transmitted(&self) -> (r: &Vec<u8>)
        ensures
            r@ == self@.wire,
    {
        self.inner.read().transmitted()
    }

    /// How many bytes are pending in the receive FIFO.
    pub fn rx_len(&self) -> (r: usize)
        ensures
            r == self@.fifo.len(),
    {
        self.inner.read().rx_len()
    }

    /// How many poll iterations the driver has performed (saturating).
    pub fn poll_count(&self) -> (r: u64)
        ensures
            r == self@.polls,
    {
        self.inner.read().poll_count()
    }

    /// Environment: a byte arrives and sits in the receive FIFO.
    pub fn receive_byte(&mut self, b: u8)
        ensures
            final(self)@ == (UartModel { fifo: old(self)@.fifo.push(b), ..old(self)@ }),
            final(self).inited() == old(self).inited(),
    {
        let inner = self.inner.lock();
        inner.receive_byte(b);
    }

    /// Environment: a byte in flight on the receive path; it enters the FIFO
    /// on a later poll.
    pub fn queue_arrival(&mut self, b: u8)
        ensures
            final(self)@ == (UartModel { pending: old(self)@.pending.push(b), ..old(self)@ }),
            final(self).inited() == old(self).inited(),
    {
        let inner = self.inner.lock();
        inner.queue_arrival(b);
    }

    /// Environment: the transmitter stays busy for the next `n` polls.
    pub fn set_busy_polls(&mut self, n: u64)
        ensures
            final(self)@ == (UartModel { busy: n as nat, ..old(self)@ }),
            final(self).inited() == old(self).inited(),
    {
        let inner = self.inner.lock();
        inner.set_busy_polls(n);
    }

    /// Environment: the transmit FIFO stays full for the next `n` polls.
    pub fn set_txff_polls(&mut self, n: u64)
        ensures
            final(self)@ == (UartModel { txff: n as nat, ..old(self)@ }),
            final(self).inited() == old(self).inited(),
    {
        let inner = self.inner.lock();
        inner.set_txff_polls(n);
    }
}

impl DeviceDriver for PL011EarlyUart {
    open spec fn id(&self) -> Seq<char> {
        PL011_COMPATIBLE@
    }

    open spec fn init_ok(&self) -> bool {
        true
    }

    closed spec fn inited(&self) -> bool {
        self.inited
    }

    fn compatible(&self) -> (r: &'static str) {
        PL011_COMPATIBLE
    }

    fn init(&mut self) -> (r: Result<(), &'static str>) {
        let inner = self.inner.lock();
        let outcome = inner.init();
        match outcome {
            Ok(()) => {
                self.inited = true;
                Ok(())
            },
            Err(reason) => Err(reason),
        }
    }
}

impl crate::console::ConsoleState for PL011EarlyUart {
    open spec fn model(&self) -> UartModel {
        self@
    }
}

impl crate::console::Write for PL011EarlyUart {
    fn write_char(&mut self, c: char) {
        let inner = self.inner.lock();
        inner.write_char(c);
    }

    fn write_fmt(&mut self, msg: &str) {
        let inner = self.inner.lock();
        inner.write_str(msg);
    }

    fn flush(&mut self) {
        let inner = self.inner.lock();
        inner.flush();
    }
}

impl crate::console::Read for PL011EarlyUart {
    fn read_char(&mut self) -> (r: char) {
        let inner = self.inner.lock();
        let c = inner.read_char(BlockingMode::Blocking);
        c.unwrap()
    }

    fn clear_rx(&mut self) {
        let inner = self.inner.lock();
        inner.clear_rx();
    }
}

impl crate::console::Statistics for PL011EarlyUart {
    fn chars_written(&self) -> (r: usize)
        ensures
            r == 0,
    {
        0
    }

    fn chars_read(&self) -> (r: usize)
        ensures
            r == 0,
    {
        0
    }
}

impl crate::console::All for PL011EarlyUart {

}

} // verus!
