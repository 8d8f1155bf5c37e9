use vstd::prelude::*;

use crate::error::Error;
use crate::syscalls::{CallbackMessage, Syscall};
use crate::task::{DriverTask, DriverTaskClient, DriverTaskWithState};

verus! {

/// The console's entry in the kernel's driver table.
pub const DRIVER_NUM: usize = 1;

/// Identifier of the shared read buffer.
pub const ALLOW_READ: usize = 2;

/// Identifier of the read upcall.
pub const SUBSCRIBE_READ: usize = 2;

/// Command that starts a read.
pub const COMMAND_READ: usize = 2;

/// Command that asks the kernel to stop an ongoing read.
pub const COMMAND_READ_ABORT: usize = 3;

/// Capacity of the shared read buffer.
pub const READ_BUF_LEN: usize = 64;

/// Terminal result of a read, as the application sees it: the number of bytes
/// read, or the error that ended the read.
#[derive(Clone, Copy, Debug)]
pub enum ConsoleReadClientMessage {
    BytesRead(Result<usize, Error>),
}

/// Bytes that the kernel still owes for the current read.
#[derive(Clone, Copy, Debug, PartialEq, Eq, Structural)]
pub struct ReadsPending(pub usize);

/// Bytes that the kernel has already reported for the current read.
#[derive(Clone, Copy, Debug, PartialEq, Eq, Structural)]
pub struct ReadsComplete(pub usize);

/// A read in flight. An aborted read waits in `Aborting` for the kernel's
/// last event; `None` in the driver stands for an idle console.
#[derive(Clone, Copy, Debug, PartialEq, Eq, Structural)]
pub enum ConsoleReadState {
    Ongoing(ReadsPending, ReadsComplete),
    Aborting(ReadsPending, ReadsComplete),
}

/// The kernel calls that start a read of `len` bytes, in order.
pub open spec fn read_plan(len: usize) -> Seq<Syscall> {
    seq![
        Syscall::Allow { driver: DRIVER_NUM, num: ALLOW_READ, len },
        Syscall::Subscribe { driver: DRIVER_NUM, num: SUBSCRIBE_READ },
        Syscall::Command { driver: DRIVER_NUM, num: COMMAND_READ, arg0: len, arg1: 0 },
    ]
}

/// The kernel call that aborts a read.
pub open spec fn abort_plan() -> Seq<Syscall> {
    seq![Syscall::Command { driver: DRIVER_NUM, num: COMMAND_READ_ABORT, arg0: 0, arg1: 0 }]
}

/// The counts of a read in flight add up to at most the buffer's capacity.
pub open spec fn read_state_wf(s: Option<ConsoleReadState>) -> bool {
    match s {
        Some(ConsoleReadState::Ongoing(p, c)) => p.0 + c.0 <= READ_BUF_LEN,
        Some(ConsoleReadState::Aborting(p, c)) => p.0 + c.0 <= READ_BUF_LEN,
        None => true,
    }
}

/// Whether a read is in flight: ongoing, or aborted and awaiting its last event.
pub open spec fn read_is_active(s: Option<ConsoleReadState>) -> bool {
    s is Some
}

/// The bytes that an event counts against `pending`: what it reports
/// transferred, but never more than is still owed.
pub open spec fn counted(ev: CallbackMessage, pending: usize) -> usize {
    if ev.arg0 < pending {
        ev.arg0
    } else {
        pending
    }
}

/// What one raw console event does to a read: the next state and the client
/// message slot. An event with a nonzero error word ends the read with that
/// code; an event on an aborting read ends it with what was read so far; an
/// event that settles what is pending ends an ongoing read. An event on an idle
/// console changes nothing.
pub open spec fn read_event(
    s: Option<ConsoleReadState>,
    msg: Option<ConsoleReadClientMessage>,
    ev: CallbackMessage,
) -> (Option<ConsoleReadState>, Option<ConsoleReadClientMessage>) {
    match s {
        None => (None, msg),
        Some(st) => if ev.arg1 != 0 {
            (None, Some(ConsoleReadClientMessage::BytesRead(Err(Error::Code(ev.arg1)))))
        } else {
            match st {
                ConsoleReadState::Ongoing(p, c) => {
                    let n = counted(ev, p.0);
                    if p.0 - n == 0 {
                        (None, Some(ConsoleReadClientMessage::BytesRead(Ok((c.0 + n) as usize))))
                    } else {
                        (
                            Some(
                                ConsoleReadState::Ongoing(
                                    ReadsPending((p.0 - n) as usize),
                                    ReadsComplete((c.0 + n) as usize),
                                ),
                            ),
                            msg,
                        )
                    }
                },
                ConsoleReadState::Aborting(p, c) => {
                    let n = counted(ev, p.0);
                    (None, Some(ConsoleReadClientMessage::BytesRead(Ok((c.0 + n) as usize))))
                },
            }
        },
    }
}

/// What the driver holds: the raw mailbox, the read in flight and the buffer
/// shared with the kernel.
pub struct ConsoleReadView {
    pub mailbox: Option<CallbackMessage>,
    pub state: Option<ConsoleReadState>,
    pub buf: Seq<u8>,
}

/// The task half of the console's read side.
pub struct ConsoleRead {
    mailbox: Option<CallbackMessage>,
    state: Option<ConsoleReadState>,
    buf: Vec<u8>,
}

impl View for ConsoleRead {
    type V = ConsoleReadView;

    closed spec fn view(&self) -> ConsoleReadView {
        ConsoleReadView { mailbox: self.mailbox, state: self.state, buf: self.buf@ }
    }
}

impl ConsoleRead {
    pub open spec fn wf(&self) -> bool {
        &&& self@.buf.len() == READ_BUF_LEN
        &&& read_state_wf(self@.state)
    }

    pub fn new() -> (r: ConsoleRead)
        ensures
            r.wf(),
            r@.mailbox is None,
            r@.state is None,
            r@.buf == Seq::new(READ_BUF_LEN as nat, |i: int| 0u8),
    {
        let r = ConsoleRead { mailbox: None, state: None, buf: vec![0u8; READ_BUF_LEN] };
        assert(r.buf@ =~= Seq::new(READ_BUF_LEN as nat, |i: int| 0u8));
        r
    }

    /// Interrupt side: stores a raw event, replacing one not yet drained.
    /// The scheduler drains the mailbox on every tick, so a replaced event can
    /// only come from a kernel that broke the one-operation-per-driver rule.
    pub fn deliver(&mut self, ev: CallbackMessage)
        ensures
            final(self)@ == (ConsoleReadView { mailbox: Some(ev), ..old(self)@ }),
            final(self).wf() == old(self).wf(),
    {
        self.mailbox = Some(ev);
    }

    /// Kernel side of the shared buffer: records the bytes the kernel wrote,
    /// from the start of the buffer, as far as the buffer reaches.
    pub fn fill_buffer(&mut self, data: &[u8])
        requires
            old(self).wf(),
        ensures
            final(self).wf(),
            final(self)@.mailbox == old(self)@.mailbox,
            final(self)@.state == old(self)@.state,
            final(self)@.buf == (if data@.len() < READ_BUF_LEN {
                data@ + old(self)@.buf.skip(data@.len() as int)
            } else {
                data@.take(READ_BUF_LEN as int)
            }),
    {
        let n: usize = if data.len() < READ_BUF_LEN {
            data.len()
        } else {
            READ_BUF_LEN
        };
        let mut i: usize = 0;
        while i < n
            invariant
                n <= data@.len(),
                n <= READ_BUF_LEN,
                i <= n,
                self.buf@.len() == READ_BUF_LEN,
                self.mailbox == old(self).mailbox,
                self.state == old(self).state,
                forall|k: int| 0 <= k < i ==> self.buf@[k] == data@[k],
                forall|k: int| i <= k < READ_BUF_LEN ==> self.buf@[k] == old(self).buf@[k],
            decreases n - i,
        {
            self.buf.set(i, data[i]);
            i = i + 1;
        }
        proof {
            if data@.len() < READ_BUF_LEN {
                assert(self.buf@ =~= data@ + old(self)@.buf.skip(data@.len() as int));
            } else {
                assert(self.buf@ =~= data@.take(READ_BUF_LEN as int));
            }
        }
    }

    /// Task half, run by the scheduler whenever the mailbox holds an event:
    /// drains the mailbox and turns the event into the next read state and,
    /// when the read ends, the client message.
    pub fn advance(&mut self, client: &mut ConsoleReadClient)
        requires
            old(self).wf(),
            old(client).wf(),
        ensures
            final(self).wf(),
            final(client).wf(),
            final(self)@.mailbox is None,
            final(self)@.buf == old(self)@.buf,
            match old(self)@.mailbox {
                None => final(self)@.state == old(self)@.state && final(client)@ == old(client)@,
                Some(ev) => (final(self)@.state, final(client)@) == read_event(
                    old(self)@.state,
                    old(client)@,
                    ev,
                ),
            },
    {
        let taken = self.mailbox.take();
        if let Some(ev) = taken {
            if let Some(st) = self.state {
                if ev.arg1 != 0 {
                    self.state = None;
                    client.message = Some(
                        ConsoleReadClientMessage::BytesRead(Err(Error::Code(ev.arg1))),
                    );
                } else {
                    match st {
                        ConsoleReadState::Ongoing(p, c) => {
                            let n: usize = if ev.arg0 < p.0 {
                                ev.arg0
                            } else {
                                p.0
                            };
                            let rp: usize = p.0 - n;
                            let rc: usize = c.0 + n;
                            if rp == 0 {
                                self.state = None;
                                client.message = Some(ConsoleReadClientMessage::BytesRead(Ok(rc)));
                            } else {
                                self.state = Some(
                                    ConsoleReadState::Ongoing(ReadsPending(rp), ReadsComplete(rc)),
                                );
                            }
                        },
                        ConsoleReadState::Aborting(p, c) => {
                            let n: usize = if ev.arg0 < p.0 {
                                ev.arg0
                            } else {
                                p.0
                            };
                            self.state = None;
                            client.message = Some(ConsoleReadClientMessage::BytesRead(Ok(c.0 + n)));
                        },
                    }
                }
            }
        }
    }

    /// Checks that a read of `len` bytes may start and, if so, gives the kernel
    /// calls that start it. Nothing changes: once the calls are issued, their
    /// outcome goes to `read_initiated`.
    pub fn initiate_read(&self, client: &ConsoleReadClient, len: usize) -> (r: Result<
        Vec<Syscall>,
        Error,
    >)
        ensures
            self@.state is Some ==> r == Err::<Vec<Syscall>, Error>(Error::Busy),
            self@.state is None && client@ is Some ==> r == Err::<Vec<Syscall>, Error>(
                Error::Busy,
            ),
            self@.state is None && client@ is None && len > READ_BUF_LEN ==> r == Err::<
                Vec<Syscall>,
                Error,
            >(Error::InvalidArgument),
            self@.state is None && client@ is None && len <= READ_BUF_LEN ==> (r matches Ok(
                calls,
            ) && calls@ == read_plan(len)),
    {
        if self.state.is_some() {
            return Err(Error::Busy);
        }
        if client.has_message() {
            return Err(Error::Busy);
        }
        if len > READ_BUF_LEN {
            return Err(Error::InvalidArgument);
        }
        let mut calls: Vec<Syscall> = Vec::new();
        calls.push(Syscall::Allow { driver: DRIVER_NUM, num: ALLOW_READ, len });
        calls.push(Syscall::Subscribe { driver: DRIVER_NUM, num: SUBSCRIBE_READ });
        calls.push(Syscall::Command { driver: DRIVER_NUM, num: COMMAND_READ, arg0: len, arg1: 0 });
        assert(calls@ =~= read_plan(len));
        Ok(calls)
    }

    /// Records the outcome of the calls that `initiate_read` gave: on success
    /// the read of `len` bytes is ongoing; on failure the console stays idle
    /// and the kernel's error is handed back.
    pub fn read_initiated(&mut self, len: usize, outcome: Result<usize, Error>) -> (r: Result<
        (),
        Error,
    >)
        requires
            old(self).wf(),
            old(self)@.state is None,
            len <= READ_BUF_LEN,
        ensures
            final(self).wf(),
            final(self)@.mailbox == old(self)@.mailbox,
            final(self)@.buf == old(self)@.buf,
            match outcome {
                Ok(_) => r is Ok && final(self)@.state == Some(
                    ConsoleReadState::Ongoing(ReadsPending(len), ReadsComplete(0)),
                ),
                Err(e) => r == Err::<(), Error>(e) && final(self)@.state is None,
            },
    {
        match outcome {
            Ok(_) => {
                self.state = Some(ConsoleReadState::Ongoing(ReadsPending(len), ReadsComplete(0)));
                Ok(())
            },
            Err(e) => Err(e),
        }
    }

    /// Checks that the read in flight may be aborted and, if so, gives the
    /// kernel call that aborts it. Its outcome goes to `abort_issued`.
    pub fn abort(&self) -> (r: Result<Vec<Syscall>, Error>)
        ensures
            self@.state is None ==> r == Err::<Vec<Syscall>, Error>(Error::InvalidArgument),
            self@.state matches Some(ConsoleReadState::Aborting(_, _)) ==> r == Err::<
                Vec<Syscall>,
                Error,
            >(Error::Busy),
            self@.state matches Some(ConsoleReadState::Ongoing(_, _)) ==> (r matches Ok(calls)
                && calls@ == abort_plan()),
    {
        match self.state {
            None => Err(Error::InvalidArgument),
            Some(ConsoleReadState::Aborting(_, _)) => Err(Error::Busy),
            Some(ConsoleReadState::Ongoing(_, _)) => {
                let mut calls: Vec<Syscall> = Vec::new();
                calls.push(
                    Syscall::Command {
                        driver: DRIVER_NUM,
                        num: COMMAND_READ_ABORT,
                        arg0: 0,
                        arg1: 0,
                    },
                );
                assert(calls@ =~= abort_plan());
                Ok(calls)
            },
        }
    }

    /// Records the outcome of the abort call: on success the ongoing read
    /// becomes aborting with its counts kept, and stays active until the
    /// kernel's last event for it; on failure nothing changes.
    pub fn abort_issued(&mut self, outcome: Result<usize, Error>) -> (r: Result<(), Error>)
        requires
            old(self).wf(),
            old(self)@.state matches Some(ConsoleReadState::Ongoing(_, _)),
        ensures
            final(self).wf(),
            final(self)@.mailbox == old(self)@.mailbox,
            final(self)@.buf == old(self)@.buf,
            match outcome {
                Ok(_) => r is Ok && final(self)@.state == abort_state(old(self)@.state),
                Err(e) => r == Err::<(), Error>(e) && final(self)@.state == old(self)@.state,
            },
    {
        match outcome {
            Ok(_) => {
                if let Some(ConsoleReadState::Ongoing(p, c)) = self.state {
                    self.state = Some(ConsoleReadState::Aborting(p, c));
                }
                Ok(())
            },
            Err(e) => Err(e),
        }
    }

    /// The shared read buffer.
    pub fn buffer(&self) -> (r: &Vec<u8>)
        ensures
            r@ == self@.buf,
    {
        &self.buf
    }

    fn clear_console_read_buf(&mut self)
        requires
            old(self).wf(),
        ensures
            final(self).wf(),
            final(self)@.mailbox == old(self)@.mailbox,
            final(self)@.state == old(self)@.state,
            final(self)@.buf == Seq::new(READ_BUF_LEN as nat, |i: int| 0u8),
    {
        let mut i: usize = 0;
        while i < self.buf.len()
            invariant
                self.buf@.len() == READ_BUF_LEN,
                self.mailbox == old(self).mailbox,
                self.state == old(self).state,
                forall|k: int| 0 <= k < i ==> self.buf@[k] == 0u8,
            decreases READ_BUF_LEN - i,
        {
            self.buf.set(i, 0u8);
            i = i + 1;
        }
        assert(self.buf@ =~= Seq::new(READ_BUF_LEN as nat, |i: int| 0u8));
    }
}

/// The state an ongoing read moves to when its abort is accepted.
pub open spec fn abort_state(s: Option<ConsoleReadState>) -> Option<ConsoleReadState> {
    match s {
        Some(ConsoleReadState::Ongoing(p, c)) => Some(ConsoleReadState::Aborting(p, c)),
        other => other,
    }
}

impl DriverTask for ConsoleRead {
    open spec fn spec_has_message(&self) -> bool {
        self@.mailbox is Some
    }

    fn has_message(&self) -> (r: bool) {
        self.mailbox.is_some()
    }
}

impl DriverTaskWithState for ConsoleRead {
    open spec fn spec_is_active(&self) -> bool {
        read_is_active(self@.state)
    }

    fn is_active(&self) -> (r: bool) {
        self.state.is_some()
    }
}

/// The client half of the console's read side: the slot for the result of
/// the last read.
pub struct ConsoleReadClient {
    message: Option<ConsoleReadClientMessage>,
}

impl View for ConsoleReadClient {
    type V = Option<ConsoleReadClientMessage>;

    closed spec fn view(&self) -> Option<ConsoleReadClientMessage> {
        self.message
    }
}

impl ConsoleReadClient {
    /// A reported byte count never exceeds the buffer's capacity.
    pub open spec fn wf(&self) -> bool {
        self@ matches Some(ConsoleReadClientMessage::BytesRead(Ok(l))) ==> l <= READ_BUF_LEN
    }

    pub fn new() -> (r: ConsoleReadClient)
        ensures
            r.wf(),
            r@ is None,
    {
        ConsoleReadClient { message: None }
    }

    /// Consumes the result of the last read. With no result held it fails
    /// with `NotFound` and changes nothing. Otherwise the result is consumed:
    /// a failed read gives its error; a read whose byte count differs from
    /// `buf.len()` gives `InvalidArgument`; else `buf` receives the bytes read
    /// and the shared buffer is cleared.
    pub fn reap_read_to_buffer(&mut self, reader: &mut ConsoleRead, buf: &mut [u8]) -> (r: Result<
        (),
        Error,
    >)
        requires
            old(self).wf(),
            old(reader).wf(),
        ensures
            final(self).wf(),
            final(reader).wf(),
            final(reader)@.mailbox == old(reader)@.mailbox,
            final(reader)@.state == old(reader)@.state,
            match old(self)@ {
                None => r == Err::<(), Error>(Error::NotFound) && final(self)@ is None
                    && final(reader)@ == old(reader)@ && final(buf)@ == old(buf)@,
                Some(ConsoleReadClientMessage::BytesRead(Err(e))) => r == Err::<(), Error>(e)
                    && final(self)@ is None && final(reader)@ == old(reader)@ && final(buf)@
                    == old(buf)@,
                Some(ConsoleReadClientMessage::BytesRead(Ok(l))) => if l != old(buf)@.len() {
                    r == Err::<(), Error>(Error::InvalidArgument) && final(self)@ is None
                        && final(reader)@ == old(reader)@ && final(buf)@ == old(buf)@
                } else {
                    r is Ok && final(self)@ is None && final(buf)@ == old(reader)@.buf.take(
                        l as int,
                    ) && final(reader)@.buf == Seq::new(READ_BUF_LEN as nat, |i: int| 0u8)
                },
            },
    {
        match self.message {
            None => Err(Error::NotFound),
            Some(ConsoleReadClientMessage::BytesRead(Err(e))) => {
                self.message = None;
                Err(e)
            },
            Some(ConsoleReadClientMessage::BytesRead(Ok(l))) => {
                self.message = None;
                if l != buf.len() {
                    Err(Error::InvalidArgument)
                } else {
                    let mut i: usize = 0;
                    while i < l
                        invariant
                            l == buf@.len(),
                            l <= READ_BUF_LEN,
                            reader.wf(),
                            *reader == *old(reader),
                            i <= l,
                            forall|k: int| 0 <= k < i ==> buf@[k] == reader@.buf[k],
                        decreases l - i,
                    {
                        buf[i] = reader.buf[i];
                        i = i + 1;
                    }
                    assert(buf@ =~= old(reader)@.buf.take(l as int));
                    reader.clear_console_read_buf();
                    Ok(())
                }
            },
        }
    }
}

impl DriverTaskClient for ConsoleReadClient {
    open spec fn spec_has_message(&self) -> bool {
        self@ is Some
    }

    closed spec fn spec_reaped(&self) -> ConsoleReadClient {
        ConsoleReadClient { message: None }
    }

    fn has_message(&self) -> (r: bool) {
        self.message.is_some()
    }

    fn reap_message(&mut self) {
        self.message = None;
    }
}

/// The read state and client slot after a run of raw events, in delivery
/// order.
pub open spec fn read_events(
    s: Option<ConsoleReadState>,
    msg: Option<ConsoleReadClientMessage>,
    evs: Seq<CallbackMessage>,
) -> (Option<ConsoleReadState>, Option<ConsoleReadClientMessage>)
    decreases evs.len(),
{
    if evs.len() == 0 {
        (s, msg)
    } else {
        let next = read_event(s, msg, evs[0]);
        read_events(next.0, next.1, evs.skip(1))
    }
}

/// The bytes that a run of events reports transferred, in total.
pub open spec fn sum_transferred(evs: Seq<CallbackMessage>) -> int
    decreases evs.len(),
{
    if evs.len() == 0 {
        0
    } else {
        evs[0].arg0 + sum_transferred(evs.skip(1))
    }
}

/// No event of the run carries an error word.
pub open spec fn no_errors(evs: Seq<CallbackMessage>) -> bool {
    forall|i: int| 0 <= i < evs.len() ==> #[trigger] evs[i].arg1 == 0
}

/// No run of events reports a negative total.
pub proof fn lemma_sum_nonneg(evs: Seq<CallbackMessage>)
    ensures
        sum_transferred(evs) >= 0,
    decreases evs.len(),
{
    if evs.len() > 0 {
        lemma_sum_nonneg(evs.skip(1));
    }
}

proof fn lemma_idle_read_ignores(msg: Option<ConsoleReadClientMessage>, evs: Seq<CallbackMessage>)
    ensures
        read_events(None, msg, evs) == (None::<ConsoleReadState>, msg),
    decreases evs.len(),
{
    if evs.len() > 0 {
        lemma_idle_read_ignores(msg, evs.skip(1));
    }
}

/// A read whose events, none of them in error, report in total exactly what
/// is pending ends with all of it read: a read of `len` bytes ends with
/// `Ok(len)`, however the kernel splits it into events.
pub proof fn lemma_read_completes(
    p: ReadsPending,
    c: ReadsComplete,
    msg: Option<ConsoleReadClientMessage>,
    evs: Seq<CallbackMessage>,
)
    requires
        p.0 + c.0 <= READ_BUF_LEN,
        evs.len() > 0,
        no_errors(evs),
        sum_transferred(evs) == p.0,
    ensures
        read_events(Some(ConsoleReadState::Ongoing(p, c)), msg, evs) == (
            None::<ConsoleReadState>,
            Some(ConsoleReadClientMessage::BytesRead(Ok((c.0 + p.0) as usize))),
        ),
    decreases evs.len(),
{
    let ev = evs[0];
    let rest = evs.skip(1);
    lemma_sum_nonneg(rest);
    assert(ev.arg1 == 0);
    assert(counted(ev, p.0) == ev.arg0);
    let next = read_event(Some(ConsoleReadState::Ongoing(p, c)), msg, ev);
    if p.0 - ev.arg0 == 0 {
        lemma_idle_read_ignores(next.1, rest);
    } else {
        assert(rest.len() > 0);
        assert forall|i: int| 0 <= i < rest.len() implies #[trigger] rest[i].arg1 == 0 by {
            assert(rest[i] == evs[i + 1]);
        }
        lemma_read_completes(
            ReadsPending((p.0 - ev.arg0) as usize),
            ReadsComplete((c.0 + ev.arg0) as usize),
            msg,
            rest,
        );
    }
}

/// A read of `len` bytes, started on an idle console, ends with `Ok(len)`
/// when its events carry no error and report `len` bytes in total.
pub proof fn lemma_read_of_len_completes(
    len: usize,
    msg: Option<ConsoleReadClientMessage>,
    evs: Seq<CallbackMessage>,
)
    requires
        len <= READ_BUF_LEN,
        evs.len() > 0,
        no_errors(evs),
        sum_transferred(evs) == len,
    ensures
        read_events(Some(ConsoleReadState::Ongoing(ReadsPending(len), ReadsComplete(0))), msg, evs)
            == (None::<ConsoleReadState>, Some(ConsoleReadClientMessage::BytesRead(Ok(len)))),
{
    lemma_read_completes(ReadsPending(len), ReadsComplete(0), msg, evs);
}

/// An aborted read stays active until the kernel's next event for it, and
/// that event, whatever count it reports, ends it: with `Ok` of the bytes read
/// so far when it carries no error word, and with the error otherwise.
pub proof fn lemma_abort_then_event(
    p: ReadsPending,
    c: ReadsComplete,
    msg: Option<ConsoleReadClientMessage>,
    ev: CallbackMessage,
)
    requires
        p.0 + c.0 <= READ_BUF_LEN,
    ensures
        abort_state(Some(ConsoleReadState::Ongoing(p, c))) == Some(ConsoleReadState::Aborting(p, c)),
        read_is_active(abort_state(Some(ConsoleReadState::Ongoing(p, c)))),
        !read_is_active(read_event(abort_state(Some(ConsoleReadState::Ongoing(p, c))), msg, ev).0),
        ev.arg1 == 0 ==> read_event(abort_state(Some(ConsoleReadState::Ongoing(p, c))), msg, ev).1
            == Some(ConsoleReadClientMessage::BytesRead(Ok((c.0 + counted(ev, p.0)) as usize))),
        ev.arg1 != 0 ==> read_event(abort_state(Some(ConsoleReadState::Ongoing(p, c))), msg, ev).1
            == Some(ConsoleReadClientMessage::BytesRead(Err(Error::Code(ev.arg1)))),
{
}

} // verus!
