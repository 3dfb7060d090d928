//! The serial link to the Minitel on the ESP32 board: the UART settings the
//! Minitel starts with, and the bookkeeping of reads, writes and flushes
//! made by polling the UART driver without blocking.
use vstd::prelude::*;

verus! {

/// Error code of an ESP-IDF call that timed out (`ESP_ERR_TIMEOUT`).
pub const ESP_ERR_TIMEOUT: i32 = 0x107;

/// Baud rate the Minitel starts with.
pub const MINITEL_START_BAUDRATE: u32 = 1200;

/// Number of stop bits.
#[derive(Clone, Copy, Debug, PartialEq, Eq, Structural)]
pub enum StopBits {
    Stop1,
    Stop1P5,
    Stop2,
}

/// Number of data bits.
#[derive(Clone, Copy, Debug, PartialEq, Eq, Structural)]
pub enum DataBits {
    DataBits5,
    DataBits6,
    DataBits7,
    DataBits8,
}

/// Parity checking.
#[derive(Clone, Copy, Debug, PartialEq, Eq, Structural)]
pub enum Parity {
    ParityNone,
    ParityEven,
    ParityOdd,
}

/// Serial port settings: baud rate, stop bits, data bits and parity; the
/// UART driver's other settings keep their defaults.
#[derive(Clone, Copy, Debug, PartialEq, Eq, Structural)]
pub struct UartConfig {
    pub baudrate: u32,
    pub stop_bits: StopBits,
    pub data_bits: DataBits,
    pub parity: Parity,
}

/// An error reported by an ESP-IDF call, by its error code.
#[derive(Clone, Copy, Debug, PartialEq, Eq, Structural)]
pub struct EspError {
    pub code: i32,
}

/// Progress of a read or a write of `total` bytes, `done` of which have
/// gone through so far.
#[derive(Clone, Copy, Debug, PartialEq, Eq, Structural)]
pub struct Transfer {
    pub done: usize,
    pub total: usize,
}

/// What a transfer loop does after one non-blocking driver call.
#[derive(Clone, Copy, Debug, PartialEq, Eq, Structural)]
pub enum TransferStep {
    /// Bytes went through; call the driver again at once if some remain.
    Progressed,
    /// Nothing went through yet; yield to the executor, then call again.
    Wait,
    /// The driver failed; the transfer fails with this error.
    Failed(EspError),
}

/// What a flush loop does after one non-blocking wait on the transmitter.
#[derive(Clone, Copy, Debug, PartialEq, Eq, Structural)]
pub enum FlushStep {
    /// Everything has been sent.
    Done,
    /// Not yet; yield to the executor, then wait again.
    Wait,
    /// The driver failed; the flush fails with this error.
    Failed(EspError),
}

/// Serial port configuration when the Minitel starts: 1200 baud, one stop
/// bit, seven data bits, even parity.
pub fn default_uart_config() -> (r: UartConfig)
    ensures
        r == (UartConfig {
            baudrate: MINITEL_START_BAUDRATE,
            stop_bits: StopBits::Stop1,
            data_bits: DataBits::DataBits7,
            parity: Parity::ParityEven,
        }),
{
    UartConfig {
        baudrate: MINITEL_START_BAUDRATE,
        stop_bits: StopBits::Stop1,
        data_bits: DataBits::DataBits7,
        parity: Parity::ParityEven,
    }
}

/// `done + n` bytes, but never more than the transfer's total.
pub open spec fn advanced(t: Transfer, n: int) -> usize {
    if t.done + n >= t.total {
        t.total
    } else {
        (t.done + n) as usize
    }
}

impl EspError {
    /// The error says the call timed out.
    pub open spec fn spec_is_timeout(self) -> bool {
        self.code == ESP_ERR_TIMEOUT
    }

    /// Whether the error says the call timed out.
    pub fn is_timeout(&self) -> (r: bool)
        ensures
            r == self.spec_is_timeout(),
    {
        self.code == ESP_ERR_TIMEOUT
    }
}

impl Transfer {
    /// No more bytes have gone through than were asked for.
    pub open spec fn wf(self) -> bool {
        self.done <= self.total
    }

    /// A transfer of `total` bytes, none of which has gone through.
    pub fn new(total: usize) -> (r: Transfer)
        ensures
            r.wf(),
            r.done == 0,
            r.total == total,
    {
        Transfer { done: 0, total }
    }

    /// Whether every byte has gone through.
    pub fn is_complete(&self) -> (r: bool)
        ensures
            r == (self.done >= self.total),
    {
        self.done >= self.total
    }

    /// Records the outcome of one non-blocking read of the bytes still
    /// missing: bytes received move the transfer on; a timeout, or nothing
    /// received, means waiting; any other error fails the read.
    pub fn record_read(&mut self, outcome: Result<usize, EspError>) -> (r: TransferStep)
        requires
            old(self).wf(),
        ensures
            final(self).wf(),
            final(self).total == old(self).total,
            match outcome {
                Ok(n) => {
                    &&& (n > 0 && old(self).done + n < old(self).total) ==> final(self).done == old(self).done + n
                    &&& (n > 0 && old(self).done + n >= old(self).total) ==> final(self).done == old(self).total
                },
                Err(_) => true,
            },
            match outcome {
                Ok(n) => if n > 0 {
                    r == TransferStep::Progressed && final(self).done == advanced(
                        *old(self),
                        n as int,
                    )
                } else {
                    r == TransferStep::Wait && *final(self) == *old(self)
                },
                Err(e) => if e.spec_is_timeout() {
                    r == TransferStep::Wait && *final(self) == *old(self)
                } else {
                    r == TransferStep::Failed(e) && *final(self) == *old(self)
                },
            },
    {
        match outcome {
            Ok(n) => {
                if n > 0 {
                    self.advance(n);
                    TransferStep::Progressed
                } else {
                    TransferStep::Wait
                }
            },
            Err(e) => {
                if e.is_timeout() {
                    TransferStep::Wait
                } else {
                    TransferStep::Failed(e)
                }
            },
        }
    }

    /// Records the outcome of one non-blocking write of the bytes still to
    /// send: bytes accepted move the transfer on; nothing accepted means
    /// waiting; any error, a timeout too, fails the write.
    pub fn record_write(&mut self, outcome: Result<usize, EspError>) -> (r: TransferStep)
        requires
            old(self).wf(),
        ensures
            final(self).wf(),
            final(self).total == old(self).total,
            match outcome {
                Ok(n) => {
                    &&& (n > 0 && old(self).done + n < old(self).total) ==> final(self).done == old(self).done + n
                    &&& (n > 0 && old(self).done + n >= old(self).total) ==> final(self).done == old(self).total
                },
                Err(_) => true,
            },
            match outcome {
                Ok(n) => if n > 0 {
                    r == TransferStep::Progressed && final(self).done == advanced(
                        *old(self),
                        n as int,
                    )
                } else {
                    r == TransferStep::Wait && *final(self) == *old(self)
                },
                Err(e) => r == TransferStep::Failed(e) && *final(self) == *old(self),
            },
    {
        match outcome {
            Ok(n) => {
                if n > 0 {
                    self.advance(n);
                    TransferStep::Progressed
                } else {
                    TransferStep::Wait
                }
            },
            Err(e) => TransferStep::Failed(e),
        }
    }

    /// Moves the transfer on by `n` bytes, at most to its total.
    fn advance(&mut self, n: usize)
        requires
            old(self).wf(),
        ensures
            final(self).wf(),
            final(self).total == old(self).total,
            final(self).done == advanced(*old(self), n as int),
    {
        if n >= self.total - self.done {
            self.done = self.total;
        } else {
            self.done = self.done + n;
        }
    }
}

/// What to do after one non-blocking wait for the transmitter to empty:
/// done when it has; wait again on a timeout; fail on any other error.
pub fn flush_step(outcome: Result<(), EspError>) -> (r: FlushStep)
    ensures
        match outcome {
            Ok(()) => r == FlushStep::Done,
            Err(e) => if e.spec_is_timeout() {
                r == FlushStep::Wait
            } else {
                r == FlushStep::Failed(e)
            },
        },
{
    match outcome {
        Ok(()) => FlushStep::Done,
        Err(e) => {
            if e.is_timeout() {
                FlushStep::Wait
            } else {
                FlushStep::Failed(e)
            }
        },
    }
}

/// A step that makes progress adds exactly the bytes reported, unless that
/// reaches the total, where it stops: short of the total the transfer is not
/// complete.
pub proof fn lemma_advance_counts_bytes(t: Transfer, n: int)
    requires
        t.wf(),
        n > 0,
    ensures
        t.done + n < t.total ==> advanced(t, n) == t.done + n && advanced(t, n) < t.total,
        t.done + n >= t.total ==> advanced(t, n) == t.total,
{
}

/// Every step that makes progress brings a transfer strictly closer to its
/// end, and none takes it past its total: a transfer loop that keeps
/// progressing ends, with exactly its total gone through.
pub proof fn lemma_transfer_progress(t: Transfer, n: int)
    requires
        t.wf(),
        n > 0,
        t.done < t.total,
    ensures
        t.done < advanced(t, n) <= t.total,
{
}

} // verus!
