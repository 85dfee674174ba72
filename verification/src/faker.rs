//! In-memory implementation of [`MachineIo`] with a pre-programmed set
//! of requests.
//!
//! Useful for unit tests: `submit` pops the next queued request or fails
//! with an explicit queue-exhausted error, and every write appends a
//! copy of its arguments to one of four append-only logs, so every side
//! effect is inspectable after the call returns. No transport, no I/O.

use crate::rollups::MachineIo;
use crate::rollups::RollupsRequest;
use std::collections::VecDeque;
use vstd::prelude::*;
use vstd::slice::slice_to_vec;

verus! {

/// Errors of the in-memory rollup device.
#[derive(Clone, Copy, Debug, PartialEq, Eq, Structural)]
pub enum FakeCartesiMachineError {
    /// Thrown after submitting past the last queued request: a
    /// first-class, expected termination signal for tests.
    EmptyRequests,
}

impl FakeCartesiMachineError {
    /// A human-readable description of the error.
    pub fn message(&self) -> (r: &'static str)
        ensures
            r@ == "Reached end of request queue."@,
    {
        "Reached end of request queue."
    }
}

/// The views of a sequence of byte vectors.
pub open spec fn bytes_view(s: Seq<Vec<u8>>) -> Seq<Seq<u8>> {
    s.map_values(|x: Vec<u8>| x@)
}

/// The views of a sequence of address/payload pairs.
pub open spec fn pairs_view(s: Seq<(Vec<u8>, Vec<u8>)>) -> Seq<(Seq<u8>, Seq<u8>)> {
    s.map_values(|x: (Vec<u8>, Vec<u8>)| (x.0@, x.1@))
}

proof fn lemma_bytes_view_push(s: Seq<Vec<u8>>, v: Vec<u8>)
    ensures
        bytes_view(s.push(v)) == bytes_view(s).push(v@),
{
    assert(bytes_view(s.push(v)) =~= bytes_view(s).push(v@));
}

proof fn lemma_pairs_view_push(s: Seq<(Vec<u8>, Vec<u8>)>, v: (Vec<u8>, Vec<u8>))
    ensures
        pairs_view(s.push(v)) == pairs_view(s).push((v.0@, v.1@)),
{
    assert(pairs_view(s.push(v)) =~= pairs_view(s).push((v.0@, v.1@)));
}

/// One write issued against the device, with the payload it carried.
pub enum WriteEvent {
    Notice(Seq<u8>),
    Voucher(Seq<u8>, Seq<u8>),
    Report(Seq<u8>),
    Exception(Seq<u8>),
}

/// The abstract state of the four logs.
pub struct LogsView {
    pub notices: Seq<Seq<u8>>,
    pub vouchers: Seq<(Seq<u8>, Seq<u8>)>,
    pub reports: Seq<Seq<u8>>,
    pub exceptions: Seq<Seq<u8>>,
}

/// The logs after one write: the event's payload appended to the log
/// of its kind, the other logs untouched.
pub open spec fn apply_write(logs: LogsView, event: WriteEvent) -> LogsView {
    match event {
        WriteEvent::Notice(payload) => LogsView { notices: logs.notices.push(payload), ..logs },
        WriteEvent::Voucher(address, payload) => LogsView {
            vouchers: logs.vouchers.push((address, payload)),
            ..logs
        },
        WriteEvent::Report(payload) => LogsView { reports: logs.reports.push(payload), ..logs },
        WriteEvent::Exception(payload) => LogsView {
            exceptions: logs.exceptions.push(payload),
            ..logs
        },
    }
}

/// The logs after a sequence of writes, issued in order.
pub open spec fn apply_writes(logs: LogsView, events: Seq<WriteEvent>) -> LogsView
    decreases events.len(),
{
    if events.len() == 0 {
        logs
    } else {
        apply_writes(apply_write(logs, events.first()), events.drop_first())
    }
}

/// The notice payloads among `events`, in issuance order.
pub open spec fn notices_of(events: Seq<WriteEvent>) -> Seq<Seq<u8>>
    decreases events.len(),
{
    if events.len() == 0 {
        Seq::empty()
    } else {
        (match events.first() {
            WriteEvent::Notice(payload) => seq![payload],
            _ => Seq::empty(),
        }) + notices_of(events.drop_first())
    }
}

/// The voucher address/payload pairs among `events`, in issuance order.
pub open spec fn vouchers_of(events: Seq<WriteEvent>) -> Seq<(Seq<u8>, Seq<u8>)>
    decreases events.len(),
{
    if events.len() == 0 {
        Seq::empty()
    } else {
        (match events.first() {
            WriteEvent::Voucher(address, payload) => seq![(address, payload)],
            _ => Seq::empty(),
        }) + vouchers_of(events.drop_first())
    }
}

/// The report payloads among `events`, in issuance order.
pub open spec fn reports_of(events: Seq<WriteEvent>) -> Seq<Seq<u8>>
    decreases events.len(),
{
    if events.len() == 0 {
        Seq::empty()
    } else {
        (match events.first() {
            WriteEvent::Report(payload) => seq![payload],
            _ => Seq::empty(),
        }) + reports_of(events.drop_first())
    }
}

/// The exception payloads among `events`, in issuance order.
pub open spec fn exceptions_of(events: Seq<WriteEvent>) -> Seq<Seq<u8>>
    decreases events.len(),
{
    if events.len() == 0 {
        Seq::empty()
    } else {
        (match events.first() {
            WriteEvent::Exception(payload) => seq![payload],
            _ => Seq::empty(),
        }) + exceptions_of(events.drop_first())
    }
}

/// The write log law: after any sequence of writes, each log holds
/// exactly the writes of its kind that were issued, appended in
/// issuance order — nothing dropped, nothing reordered, nothing else.
/// Each write method appends as [`apply_write`] says and a submit
/// leaves the logs untouched, so this describes the logs between any
/// two submits.
pub proof fn lemma_logs_hold_exactly_the_writes(logs: LogsView, events: Seq<WriteEvent>)
    ensures
        apply_writes(logs, events).notices == logs.notices + notices_of(events),
        apply_writes(logs, events).vouchers == logs.vouchers + vouchers_of(events),
        apply_writes(logs, events).reports == logs.reports + reports_of(events),
        apply_writes(logs, events).exceptions == logs.exceptions + exceptions_of(events),
    decreases events.len(),
{
    if events.len() == 0 {
        assert(apply_writes(logs, events).notices =~= logs.notices + notices_of(events));
        assert(apply_writes(logs, events).vouchers =~= logs.vouchers + vouchers_of(events));
        assert(apply_writes(logs, events).reports =~= logs.reports + reports_of(events));
        assert(apply_writes(logs, events).exceptions =~= logs.exceptions + exceptions_of(events));
    } else {
        let stepped = apply_write(logs, events.first());
        lemma_logs_hold_exactly_the_writes(stepped, events.drop_first());
        assert(apply_writes(logs, events).notices =~= logs.notices + notices_of(events));
        assert(apply_writes(logs, events).vouchers =~= logs.vouchers + vouchers_of(events));
        assert(apply_writes(logs, events).reports =~= logs.reports + reports_of(events));
        assert(apply_writes(logs, events).exceptions =~= logs.exceptions + exceptions_of(events));
    }
}

/// The four append-only logs that record every write issued against the
/// in-memory device, in issuance order.
#[derive(Clone, Debug, Default, PartialEq)]
pub struct Data {
    pub notices: Vec<Vec<u8>>,
    pub vouchers: Vec<(Vec<u8>, Vec<u8>)>,
    pub reports: Vec<Vec<u8>>,
    pub exceptions: Vec<Vec<u8>>,
}

impl Data {
    /// The recorded notice payloads, in issuance order.
    pub open spec fn notices_view(&self) -> Seq<Seq<u8>> {
        bytes_view(self.notices@)
    }

    /// The recorded voucher address/payload pairs, in issuance order.
    pub open spec fn vouchers_view(&self) -> Seq<(Seq<u8>, Seq<u8>)> {
        pairs_view(self.vouchers@)
    }

    /// The recorded report payloads, in issuance order.
    pub open spec fn reports_view(&self) -> Seq<Seq<u8>> {
        bytes_view(self.reports@)
    }

    /// The recorded exception payloads, in issuance order.
    pub open spec fn exceptions_view(&self) -> Seq<Seq<u8>> {
        bytes_view(self.exceptions@)
    }

    /// The four logs as one abstract state.
    pub open spec fn logs_view(&self) -> LogsView {
        LogsView {
            notices: self.notices_view(),
            vouchers: self.vouchers_view(),
            reports: self.reports_view(),
            exceptions: self.exceptions_view(),
        }
    }
}

/// In-memory rollup device popping pre-seeded requests per
/// [`MachineIo::submit`] and logging every write into [`Data`].
#[derive(Clone, Debug, Default)]
pub struct FakeCartesiMachine {
    /// Requests still to be handed out, front first.
    pub requests: VecDeque<RollupsRequest>,
    /// Everything written so far.
    pub data: Data,
}

impl FakeCartesiMachine {
    /// Creates a new in-memory rollup device popping `requests` per
    /// submit and recording writes into `data`.
    pub fn new(requests: VecDeque<RollupsRequest>, data: Data) -> (r: Self)
        ensures
            r.requests@ == requests@,
            r.data == data,
    {
        Self { requests, data }
    }
}

impl MachineIo for FakeCartesiMachine {
    type Error = FakeCartesiMachineError;

    /// Appends a copy of `payload` to the notice log; the returned
    /// index is the log's new length. Always succeeds; no other log and
    /// no queued request changes.
    fn write_notice(&mut self, payload: &[u8]) -> (r: Result<usize, FakeCartesiMachineError>)
        ensures
            final(self).data.notices_view() == old(self).data.notices_view().push(payload@),
            final(self).data.vouchers == old(self).data.vouchers,
            final(self).data.reports == old(self).data.reports,
            final(self).data.exceptions == old(self).data.exceptions,
            final(self).data.logs_view() == apply_write(
                old(self).data.logs_view(),
                WriteEvent::Notice(payload@),
            ),
            final(self).requests@ == old(self).requests@,
            r == Ok::<usize, FakeCartesiMachineError>(final(self).data.notices@.len() as usize),
    {
        let copy: Vec<u8> = slice_to_vec(payload);
        proof {
            lemma_bytes_view_push(self.data.notices@, copy);
        }
        self.data.notices.push(copy);
        Ok(self.data.notices.len())
    }

    /// Appends a copy of `address` and `payload` to the voucher log;
    /// the returned index is the log's new length. Always succeeds; no
    /// other log and no queued request changes.
    fn write_voucher(&mut self, address: &[u8; 20], payload: &[u8]) -> (r: Result<
        usize,
        FakeCartesiMachineError,
    >)
        ensures
            final(self).data.vouchers_view() == old(self).data.vouchers_view().push(
                (address@, payload@),
            ),
            final(self).data.notices == old(self).data.notices,
            final(self).data.reports == old(self).data.reports,
            final(self).data.exceptions == old(self).data.exceptions,
            final(self).data.logs_view() == apply_write(
                old(self).data.logs_view(),
                WriteEvent::Voucher(address@, payload@),
            ),
            final(self).requests@ == old(self).requests@,
            r == Ok::<usize, FakeCartesiMachineError>(final(self).data.vouchers@.len() as usize),
    {
        let entry = (slice_to_vec(address.as_slice()), slice_to_vec(payload));
        proof {
            lemma_pairs_view_push(self.data.vouchers@, entry);
        }
        self.data.vouchers.push(entry);
        Ok(self.data.vouchers.len())
    }

    /// Appends a copy of `payload` to the report log. Always succeeds;
    /// no other log and no queued request changes.
    fn write_report(&mut self, payload: &[u8]) -> (r: Result<(), FakeCartesiMachineError>)
        ensures
            final(self).data.reports_view() == old(self).data.reports_view().push(payload@),
            final(self).data.notices == old(self).data.notices,
            final(self).data.vouchers == old(self).data.vouchers,
            final(self).data.exceptions == old(self).data.exceptions,
            final(self).data.logs_view() == apply_write(
                old(self).data.logs_view(),
                WriteEvent::Report(payload@),
            ),
            final(self).requests@ == old(self).requests@,
            r is Ok,
    {
        let copy: Vec<u8> = slice_to_vec(payload);
        proof {
            lemma_bytes_view_push(self.data.reports@, copy);
        }
        self.data.reports.push(copy);
        Ok(())
    }

    /// Pops the next queued request, or fails with the queue-exhausted
    /// error — never a panic, never a default value — leaving the
    /// machine unchanged. The logs never change on a submit.
    fn submit(&mut self) -> (r: Result<RollupsRequest, FakeCartesiMachineError>)
        ensures
            final(self).data == old(self).data,
            old(self).requests@.len() == 0 ==> r == Err::<RollupsRequest, FakeCartesiMachineError>(
                FakeCartesiMachineError::EmptyRequests,
            ) && final(self).requests@ == old(self).requests@,
            old(self).requests@.len() > 0 ==> r == Ok::<RollupsRequest, FakeCartesiMachineError>(
                old(self).requests@[0],
            ) && final(self).requests@ == old(self).requests@.subrange(
                1,
                old(self).requests@.len() as int,
            ),
    {
        match self.requests.pop_front() {
            Some(request) => Ok(request),
            None => Err(FakeCartesiMachineError::EmptyRequests),
        }
    }

    /// Appends a copy of `payload` to the exception log. Always
    /// succeeds; no other log and no queued request changes.
    fn throw_exception(&mut self, payload: &[u8]) -> (r: Result<(), FakeCartesiMachineError>)
        ensures
            final(self).data.exceptions_view() == old(self).data.exceptions_view().push(payload@),
            final(self).data.notices == old(self).data.notices,
            final(self).data.vouchers == old(self).data.vouchers,
            final(self).data.reports == old(self).data.reports,
            final(self).data.logs_view() == apply_write(
                old(self).data.logs_view(),
                WriteEvent::Exception(payload@),
            ),
            final(self).requests@ == old(self).requests@,
            r is Ok,
    {
        let copy: Vec<u8> = slice_to_vec(payload);
        proof {
            lemma_bytes_view_push(self.data.exceptions@, copy);
        }
        self.data.exceptions.push(copy);
        Ok(())
    }
}

} // verus!
