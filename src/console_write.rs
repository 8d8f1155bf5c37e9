use vstd::prelude::*;

use crate::console_read::{counted, lemma_sum_nonneg, no_errors, sum_transferred, DRIVER_NUM};
use crate::error::Error;
use crate::syscalls::{CallbackMessage, Syscall};
use crate::task::{DriverTask, DriverTaskClient, DriverTaskWithState};
use vstd::string::StringSliceAdditionalSpecFns;

verus! {

/// Identifier of the shared write buffer.
pub const ALLOW_WRITE: usize = 1;

/// Identifier of the write upcall.
pub const SUBSCRIBE_WRITE: usize = 1;

/// Command that starts a write.
pub const COMMAND_WRITE: usize = 1;

/// Capacity of the shared write buffer.
pub const WRITE_BUF_LEN: usize = 64;

/// The number of bytes a finished write put out.
#[derive(Clone, Copy, Debug, PartialEq, Eq, Structural)]
pub struct BytesWritten(pub usize);

/// Terminal result of a write, as the application sees it.
#[derive(Clone, Copy, Debug)]
pub enum ConsoleWriteClientMessage {
    BytesWritten(Result<usize, Error>),
}

/// Bytes that the kernel has still to write.
#[derive(Clone, Copy, Debug, PartialEq, Eq, Structural)]
pub struct WritesPending(pub usize);

/// Bytes that the kernel has already reported written.
#[derive(Clone, Copy, Debug, PartialEq, Eq, Structural)]
pub struct WritesComplete(pub usize);

/// A write in flight; `None` in the driver stands for an idle console.
#[derive(Clone, Copy, Debug, PartialEq, Eq, Structural)]
pub enum ConsoleWriteState {
    Ongoing(WritesPending, WritesComplete),
}

/// The kernel calls that start a write of `len` bytes, in order.
pub open spec fn write_plan(len: usize) -> Seq<Syscall> {
    seq![
        Syscall::Allow { driver: DRIVER_NUM, num: ALLOW_WRITE, len },
        Syscall::Subscribe { driver: DRIVER_NUM, num: SUBSCRIBE_WRITE },
        Syscall::Command { driver: DRIVER_NUM, num: COMMAND_WRITE, arg0: len, arg1: 0 },
    ]
}

/// The counts of a write in flight add up to at most the buffer's capacity.
pub open spec fn write_state_wf(s: Option<ConsoleWriteState>) -> bool {
    match s {
        Some(ConsoleWriteState::Ongoing(p, c)) => p.0 + c.0 <= WRITE_BUF_LEN,
        None => true,
    }
}

/// What one raw console event does to a write: the next state and the client
/// message slot. A nonzero error word ends the write with that code; an event
/// that settles what is pending ends it with the total written. An event on an
/// idle console changes nothing.
pub open spec fn write_event(
    s: Option<ConsoleWriteState>,
    msg: Option<ConsoleWriteClientMessage>,
    ev: CallbackMessage,
) -> (Option<ConsoleWriteState>, Option<ConsoleWriteClientMessage>) {
    match s {
        None => (None, msg),
        Some(ConsoleWriteState::Ongoing(p, c)) => if ev.arg1 != 0 {
            (None, Some(ConsoleWriteClientMessage::BytesWritten(Err(Error::Code(ev.arg1)))))
        } else {
            let n = counted(ev, p.0);
            if p.0 - n == 0 {
                (None, Some(ConsoleWriteClientMessage::BytesWritten(Ok((c.0 + n) as usize))))
            } else {
                (
                    Some(
                        ConsoleWriteState::Ongoing(
                            WritesPending((p.0 - n) as usize),
                            WritesComplete((c.0 + n) as usize),
                        ),
                    ),
                    msg,
                )
            }
        },
    }
}

/// What the driver holds: the raw mailbox, the write in flight and the buffer
/// shared with the kernel.
pub struct ConsoleWriteView {
    pub mailbox: Option<CallbackMessage>,
    pub state: Option<ConsoleWriteState>,
    pub buf: Seq<u8>,
}

/// The task half of the console's write side.
pub struct ConsoleWrite {
    mailbox: Option<CallbackMessage>,
    state: Option<ConsoleWriteState>,
    buf: Vec<u8>,
}

impl View for ConsoleWrite {
    type V = ConsoleWriteView;

    closed spec fn view(&self) -> ConsoleWriteView {
        ConsoleWriteView { mailbox: self.mailbox, state: self.state, buf: self.buf@ }
    }
}

/// An empty shared write buffer.
pub open spec fn zeroed_write_buf() -> Seq<u8> {
    Seq::new(WRITE_BUF_LEN as nat, |i: int| 0u8)
}

/// The shared write buffer once `s` is staged in it: `s`, then zeros.
pub open spec fn staged_write_buf(s: Seq<u8>) -> Seq<u8> {
    s + zeroed_write_buf().skip(s.len() as int)
}

impl ConsoleWrite {
    pub open spec fn wf(&self) -> bool {
        &&& self@.buf.len() == WRITE_BUF_LEN
        &&& write_state_wf(self@.state)
    }

    pub fn new() -> (r: ConsoleWrite)
        ensures
            r.wf(),
            r@.mailbox is None,
            r@.state is None,
            r@.buf == zeroed_write_buf(),
    {
        let r = ConsoleWrite { mailbox: None, state: None, buf: vec![0u8; WRITE_BUF_LEN] };
        assert(r.buf@ =~= zeroed_write_buf());
        r
    }

    /// Interrupt side: stores a raw event, replacing one not yet drained.
    pub fn deliver(&mut self, ev: CallbackMessage)
        ensures
            final(self)@ == (ConsoleWriteView { mailbox: Some(ev), ..old(self)@ }),
            final(self).wf() == old(self).wf(),
    {
        self.mailbox = Some(ev);
    }

    /// Task half, run by the scheduler whenever the mailbox holds an event:
    /// drains the mailbox and turns the event into the next write state and,
    /// when the write ends, the client message.
    pub fn advance(&mut self, client: &mut ConsoleWriteClient)
        requires
            old(self).wf(),
        ensures
            final(self).wf(),
            final(self)@.mailbox is None,
            final(self)@.buf == old(self)@.buf,
            match old(self)@.mailbox {
                None => final(self)@.state == old(self)@.state && final(client)@ == old(client)@,
                Some(ev) => (final(self)@.state, final(client)@) == write_event(
                    old(self)@.state,
                    old(client)@,
                    ev,
                ),
            },
    {
        let taken = self.mailbox.take();
        if let Some(ev) = taken {
            if let Some(ConsoleWriteState::Ongoing(p, c)) = self.state {
                if ev.arg1 != 0 {
                    self.state = None;
                    client.message = Some(
                        ConsoleWriteClientMessage::BytesWritten(Err(Error::Code(ev.arg1))),
                    );
                } else {
                    let n: usize = if ev.arg0 < p.0 {
                        ev.arg0
                    } else {
                        p.0
                    };
                    let wp: usize = p.0 - n;
                    let wc: usize = c.0 + n;
                    if wp == 0 {
                        self.state = None;
                        client.message = Some(ConsoleWriteClientMessage::BytesWritten(Ok(wc)));
                    } else {
                        self.state = Some(
                            ConsoleWriteState::Ongoing(WritesPending(wp), WritesComplete(wc)),
                        );
                    }
                }
            }
        }
    }

    /// Checks that a write of `s` may start and, if so, puts `s` at the start
    /// of the otherwise cleared shared buffer and gives the kernel calls that
    /// start the write. Their outcome goes to `write_initiated`. A refused
    /// write changes nothing.
    pub fn initiate_write(&mut self, client: &ConsoleWriteClient, s: &[u8]) -> (r: Result<
        Vec<Syscall>,
        Error,
    >)
        requires
            old(self).wf(),
        ensures
            final(self).wf(),
            final(self)@.mailbox == old(self)@.mailbox,
            final(self)@.state == old(self)@.state,
            old(self)@.state is Some ==> r == Err::<Vec<Syscall>, Error>(Error::Busy),
            old(self)@.state is None && client@ is Some ==> r == Err::<Vec<Syscall>, Error>(
                Error::Busy,
            ),
            old(self)@.state is None && client@ is None && s@.len() > WRITE_BUF_LEN ==> r
                == Err::<Vec<Syscall>, Error>(Error::InvalidArgument),
            r is Err ==> final(self)@.buf == old(self)@.buf,
            old(self)@.state is None && client@ is None && s@.len() <= WRITE_BUF_LEN ==> (r
                matches Ok(calls) && calls@ == write_plan(s@.len() as usize) && final(self)@.buf
                == staged_write_buf(s@)),
    {
        if self.state.is_some() {
            return Err(Error::Busy);
        }
        if client.has_message() {
            return Err(Error::Busy);
        }
        if s.len() > WRITE_BUF_LEN {
            return Err(Error::InvalidArgument);
        }
        self.clear_console_write_buf();
        let mut i: usize = 0;
        while i < s.len()
            invariant
                s@.len() <= WRITE_BUF_LEN,
                self.buf@.len() == WRITE_BUF_LEN,
                self.mailbox == old(self).mailbox,
                self.state == old(self).state,
                i <= s@.len(),
                forall|k: int| 0 <= k < i ==> self.buf@[k] == s@[k],
                forall|k: int| i <= k < WRITE_BUF_LEN ==> self.buf@[k] == 0u8,
            decreases s@.len() - i,
        {
            self.buf.set(i, s[i]);
            i = i + 1;
        }
        assert(self.buf@ =~= staged_write_buf(s@));
        let len = s.len();
        let mut calls: Vec<Syscall> = Vec::new();
        calls.push(Syscall::Allow { driver: DRIVER_NUM, num: ALLOW_WRITE, len });
        calls.push(Syscall::Subscribe { driver: DRIVER_NUM, num: SUBSCRIBE_WRITE });
        calls.push(Syscall::Command { driver: DRIVER_NUM, num: COMMAND_WRITE, arg0: len, arg1: 0 });
        assert(calls@ =~= write_plan(len));
        Ok(calls)
    }

    /// Records the outcome of the calls that `initiate_write` gave: on success
    /// the write of `len` bytes is ongoing; on failure the shared buffer is
    /// cleared, the console stays idle and the kernel's error is handed back.
    pub fn write_initiated(&mut self, len: usize, outcome: Result<usize, Error>) -> (r: Result<
        (),
        Error,
    >)
        requires
            old(self).wf(),
            old(self)@.state is None,
            len <= WRITE_BUF_LEN,
        ensures
            final(self).wf(),
            final(self)@.mailbox == old(self)@.mailbox,
            match outcome {
                Ok(_) => r is Ok && final(self)@.buf == old(self)@.buf && final(self)@.state
                    == Some(ConsoleWriteState::Ongoing(WritesPending(len), WritesComplete(0))),
                Err(e) => r == Err::<(), Error>(e) && final(self)@.state is None
                    && final(self)@.buf == zeroed_write_buf(),
            },
    {
        match outcome {
            Ok(_) => {
                self.state = Some(ConsoleWriteState::Ongoing(WritesPending(len), WritesComplete(0)));
                Ok(())
            },
            Err(e) => {
                self.clear_console_write_buf();
                Err(e)
            },
        }
    }

    /// The shared write buffer.
    pub fn buffer(&self) -> (r: &Vec<u8>)
        ensures
            r@ == self@.buf,
    {
        &self.buf
    }

    fn clear_console_write_buf(&mut self)
        requires
            old(self).wf(),
        ensures
            final(self).wf(),
            final(self)@.mailbox == old(self)@.mailbox,
            final(self)@.state == old(self)@.state,
            final(self)@.buf == zeroed_write_buf(),
    {
        let mut i: usize = 0;
        while i < self.buf.len()
            invariant
                self.buf@.len() == WRITE_BUF_LEN,
                self.mailbox == old(self).mailbox,
                self.state == old(self).state,
                forall|k: int| 0 <= k < i ==> self.buf@[k] == 0u8,
            decreases WRITE_BUF_LEN - i,
        {
            self.buf.set(i, 0u8);
            i = i + 1;
        }
        assert(self.buf@ =~= zeroed_write_buf());
    }
}

impl DriverTask for ConsoleWrite {
    open spec fn spec_has_message(&self) -> bool {
        self@.mailbox is Some
    }

    fn has_message(&self) -> (r: bool) {
        self.mailbox.is_some()
    }
}

impl DriverTaskWithState for ConsoleWrite {
    open spec fn spec_is_active(&self) -> bool {
        self@.state is Some
    }

    fn is_active(&self) -> (r: bool) {
        self.state.is_some()
    }
}

/// The client half of the console's write side: the slot for the result of
/// the last write.
pub struct ConsoleWriteClient {
    message: Option<ConsoleWriteClientMessage>,
}

impl View for ConsoleWriteClient {
    type V = Option<ConsoleWriteClientMessage>;

    closed spec fn view(&self) -> Option<ConsoleWriteClientMessage> {
        self.message
    }
}

impl ConsoleWriteClient {
    pub fn new() -> (r: ConsoleWriteClient)
        ensures
            r@ is None,
    {
        ConsoleWriteClient { message: None }
    }

    /// Consumes the result of the last write. With no result held it fails
    /// with `NotFound` and changes nothing; otherwise the slot is emptied and
    /// the result handed out.
    pub fn reap_bytes_written_message(&mut self) -> (r: Result<BytesWritten, Error>)
        ensures
            final(self)@ is None,
            match old(self)@ {
                None => r == Err::<BytesWritten, Error>(Error::NotFound),
                Some(ConsoleWriteClientMessage::BytesWritten(Err(e))) => r == Err::<
                    BytesWritten,
                    Error,
                >(e),
                Some(ConsoleWriteClientMessage::BytesWritten(Ok(l))) => r == Ok::<
                    BytesWritten,
                    Error,
                >(BytesWritten(l)),
            },
    {
        let m = self.message.take();
        match m {
            None => Err(Error::NotFound),
            Some(ConsoleWriteClientMessage::BytesWritten(Err(e))) => Err(e),
            Some(ConsoleWriteClientMessage::BytesWritten(Ok(l))) => Ok(BytesWritten(l)),
        }
    }
}

impl DriverTaskClient for ConsoleWriteClient {
    open spec fn spec_has_message(&self) -> bool {
        self@ is Some
    }

    closed spec fn spec_reaped(&self) -> ConsoleWriteClient {
        ConsoleWriteClient { message: None }
    }

    fn has_message(&self) -> (r: bool) {
        self.message.is_some()
    }

    fn reap_message(&mut self) {
        self.message = None;
    }
}

/// A cursor that appends text to a byte buffer, so that formatted output can
/// be staged for a write. Text that does not fit is refused whole.
pub struct ConsoleWriteStr {
    buf: Vec<u8>,
    offset: usize,
}

/// What the cursor holds: the buffer and how much of it is written.
pub struct ConsoleWriteStrView {
    pub buf: Seq<u8>,
    pub offset: nat,
}

impl View for ConsoleWriteStr {
    type V = ConsoleWriteStrView;

    closed spec fn view(&self) -> ConsoleWriteStrView {
        ConsoleWriteStrView { buf: self.buf@, offset: self.offset as nat }
    }
}

impl ConsoleWriteStr {
    pub open spec fn wf(&self) -> bool {
        self@.offset <= self@.buf.len()
    }

    pub fn new(buf: Vec<u8>) -> (r: ConsoleWriteStr)
        ensures
            r.wf(),
            r@.buf == buf@,
            r@.offset == 0,
    {
        ConsoleWriteStr { buf, offset: 0 }
    }

    /// How many bytes have been written from the start of the buffer.
    pub fn get_offset(&self) -> (r: usize)
        ensures
            r == self@.offset,
    {
        self.offset
    }

    /// The whole buffer.
    pub fn buffer(&self) -> (r: &Vec<u8>)
        ensures
            r@ == self@.buf,
    {
        &self.buf
    }

    /// Appends `bytes` after what is already written. Where the rest of the
    /// buffer is too short, fails with `InvalidArgument` and changes nothing.
    pub fn write_bytes(&mut self, bytes: &[u8]) -> (r: Result<(), Error>)
        requires
            old(self).wf(),
        ensures
            final(self).wf(),
            old(self)@.buf.len() - old(self)@.offset < bytes@.len() ==> r == Err::<(), Error>(
                Error::InvalidArgument,
            ) && final(self)@ == old(self)@,
            old(self)@.buf.len() - old(self)@.offset >= bytes@.len() ==> r is Ok && final(self)@
                == (ConsoleWriteStrView {
                buf: old(self)@.buf.take(old(self)@.offset as int) + bytes@ + old(self)@.buf.skip(
                    (old(self)@.offset + bytes@.len()) as int,
                ),
                offset: old(self)@.offset + bytes@.len(),
            }),
    {
        if self.buf.len() - self.offset < bytes.len() {
            return Err(Error::InvalidArgument);
        }
        let start = self.offset;
        let cap = self.buf.len();
        let mut i: usize = 0;
        while i < bytes.len()
            invariant
                start == old(self).offset,
                self.offset == start,
                start + bytes@.len() <= self.buf@.len(),
                self.buf@.len() == old(self).buf@.len(),
                self.buf@.len() == cap,
                i <= bytes@.len(),
                forall|k: int| 0 <= k < start ==> self.buf@[k] == old(self).buf@[k],
                forall|k: int| 0 <= k < i ==> self.buf@[start + k] == bytes@[k],
                forall|k: int|
                    start + i <= k < self.buf@.len() ==> self.buf@[k] == old(self).buf@[k],
            decreases bytes@.len() - i,
        {
            self.buf.set(start + i, bytes[i]);
            i = i + 1;
        }
        self.offset = start + bytes.len();
        assert(self.buf@ =~= old(self)@.buf.take(start as int) + bytes@ + old(self)@.buf.skip(
            (start + bytes@.len()) as int,
        ));
        Ok(())
    }

    /// Appends the UTF-8 bytes of `s`, as `write_bytes` does.
    pub fn write_str(&mut self, s: &str) -> (r: Result<(), Error>)
        requires
            old(self).wf(),
        ensures
            final(self).wf(),
            old(self)@.buf.len() - old(self)@.offset < s.spec_bytes().len() ==> r == Err::<
                (),
                Error,
            >(Error::InvalidArgument) && final(self)@ == old(self)@,
            old(self)@.buf.len() - old(self)@.offset >= s.spec_bytes().len() ==> r is Ok
                && final(self)@ == (ConsoleWriteStrView {
                buf: old(self)@.buf.take(old(self)@.offset as int) + s.spec_bytes() + old(
                    self,
                )@.buf.skip((old(self)@.offset + s.spec_bytes().len()) as int),
                offset: old(self)@.offset + s.spec_bytes().len(),
            }),
    {
        self.write_bytes(s.as_bytes())
    }
}

/// The write state and client slot after a run of raw events, in delivery
/// order.
pub open spec fn write_events(
    s: Option<ConsoleWriteState>,
    msg: Option<ConsoleWriteClientMessage>,
    evs: Seq<CallbackMessage>,
) -> (Option<ConsoleWriteState>, Option<ConsoleWriteClientMessage>)
    decreases evs.len(),
{
    if evs.len() == 0 {
        (s, msg)
    } else {
        let next = write_event(s, msg, evs[0]);
        write_events(next.0, next.1, evs.skip(1))
    }
}

proof fn lemma_idle_write_ignores(msg: Option<ConsoleWriteClientMessage>, evs: Seq<CallbackMessage>)
    ensures
        write_events(None, msg, evs) == (None::<ConsoleWriteState>, msg),
    decreases evs.len(),
{
    if evs.len() > 0 {
        lemma_idle_write_ignores(msg, evs.skip(1));
    }
}

/// A write whose events, none of them in error, report in total exactly
/// what is pending ends with all of it written.
pub proof fn lemma_write_completes(
    p: WritesPending,
    c: WritesComplete,
    msg: Option<ConsoleWriteClientMessage>,
    evs: Seq<CallbackMessage>,
)
    requires
        p.0 + c.0 <= WRITE_BUF_LEN,
        evs.len() > 0,
        no_errors(evs),
        sum_transferred(evs) == p.0,
    ensures
        write_events(Some(ConsoleWriteState::Ongoing(p, c)), msg, evs) == (
            None::<ConsoleWriteState>,
            Some(ConsoleWriteClientMessage::BytesWritten(Ok((c.0 + p.0) as usize))),
        ),
    decreases evs.len(),
{
    let ev = evs[0];
    let rest = evs.skip(1);
    lemma_sum_nonneg(rest);
    assert(ev.arg1 == 0);
    assert(counted(ev, p.0) == ev.arg0);
    let next = write_event(Some(ConsoleWriteState::Ongoing(p, c)), msg, ev);
    if p.0 - ev.arg0 == 0 {
        lemma_idle_write_ignores(next.1, rest);
    } else {
        assert(rest.len() > 0);
        assert forall|i: int| 0 <= i < rest.len() implies #[trigger] rest[i].arg1 == 0 by {
            assert(rest[i] == evs[i + 1]);
        }
        lemma_write_completes(
            WritesPending((p.0 - ev.arg0) as usize),
            WritesComplete((c.0 + ev.arg0) as usize),
            msg,
            rest,
        );
    }
}

/// Writing `bytes` round-trips: the write that starts with `bytes` staged
/// ends, once its events report all of them written without error, with
/// `Ok(bytes.len())`, and the shared buffer reads back `bytes` at its start.
pub proof fn lemma_write_round_trip(
    bytes: Seq<u8>,
    msg: Option<ConsoleWriteClientMessage>,
    evs: Seq<CallbackMessage>,
)
    requires
        bytes.len() <= WRITE_BUF_LEN,
        evs.len() > 0,
        no_errors(evs),
        sum_transferred(evs) == bytes.len(),
    ensures
        staged_write_buf(bytes).len() == WRITE_BUF_LEN,
        staged_write_buf(bytes).take(bytes.len() as int) == bytes,
        write_events(
            Some(
                ConsoleWriteState::Ongoing(
                    WritesPending(bytes.len() as usize),
                    WritesComplete(0),
                ),
            ),
            msg,
            evs,
        ) == (
            None::<ConsoleWriteState>,
            Some(ConsoleWriteClientMessage::BytesWritten(Ok(bytes.len() as usize))),
        ),
{
    assert(staged_write_buf(bytes).take(bytes.len() as int) =~= bytes);
    lemma_write_completes(WritesPending(bytes.len() as usize), WritesComplete(0), msg, evs);
}

} // verus!
