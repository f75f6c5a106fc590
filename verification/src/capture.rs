//! Bounded capture of one output stream.

#[allow(unused_imports)]
use std::collections::TryReserveError;

use vstd::prelude::*;

use crate::error::CaptureFailure;
use crate::io::{ErrorKind, IoError};
use crate::output::{CaptureCompleteness, CaptureReport, CapturedStream, StreamName};
use crate::policy::{CapturePolicy, OverflowBehavior};

verus! {

/// The bytes retained of one stream, and the bound on them.
pub enum CaptureStorage {
    /// At most `limit` bytes are retained.
    Bounded {
        /// Bytes retained so far.
        bytes: Vec<u8>,
        /// Maximum retained byte count.
        limit: usize,
        /// Overflow action.
        overflow: OverflowBehavior,
    },
    /// Every byte is retained.
    Unbounded(Vec<u8>),
}

/// The capture of one stream that is read through a `Pipe`.
pub struct CaptureStream<Pipe> {
    /// Stream being captured.
    pub name: StreamName,
    /// The read end, while it is open.
    pub pipe: Option<Pipe>,
    /// Retained bytes.
    pub storage: CaptureStorage,
    /// Number of bytes drained but not retained.
    pub discarded: u64,
    /// The limit that a fail-closed stream has crossed.
    pub overflow: Option<usize>,
    /// The failure that ended the capture.
    pub failure: Option<CaptureFailure>,
    /// Whether the end of the stream was observed.
    pub eof: bool,
    /// Whether the stream was never connected to the supervisor.
    pub redirected: bool,
}

/// What a [`CaptureStream`] stands for.
#[verifier::ext_equal]
pub struct StreamState {
    /// Stream being captured.
    pub name: StreamName,
    /// Whether the read end is open.
    pub open: bool,
    /// The limit and what happens beyond it, for bounded capture.
    pub bound: Option<(usize, OverflowBehavior)>,
    /// Retained bytes.
    pub kept: Seq<u8>,
    /// Number of bytes drained but not retained.
    pub discarded: u64,
    /// The limit that a fail-closed stream has crossed.
    pub overflow: Option<usize>,
    /// The failure that ended the capture.
    pub failure: Option<CaptureFailure>,
    /// Whether the end of the stream was observed.
    pub eof: bool,
    /// Whether the stream was never connected to the supervisor.
    pub redirected: bool,
}

/// `count` more than `total`, at most `u64::MAX`.
pub open spec fn saturated(total: u64, count: nat) -> u64 {
    if total + count <= u64::MAX {
        (total + count) as u64
    } else {
        u64::MAX
    }
}

/// The bound that a capture policy sets.
pub open spec fn bound_of(policy: CapturePolicy) -> Option<(usize, OverflowBehavior)> {
    match policy {
        CapturePolicy::Bounded { limit, overflow } => Some((limit, overflow)),
        CapturePolicy::Unbounded(_) => None,
    }
}

impl StreamState {
    /// A stream of which nothing has been read.
    pub open spec fn fresh(name: StreamName, open: bool, policy: CapturePolicy) -> Self {
        StreamState {
            name,
            open,
            bound: bound_of(policy),
            kept: Seq::empty(),
            discarded: 0,
            overflow: None,
            failure: None,
            eof: false,
            redirected: !open,
        }
    }

    /// What every capture keeps to: the bound holds, only a fail-closed stream overflows,
    /// and the read end is open exactly until the stream is terminal.
    pub open spec fn well_formed(self) -> bool {
        &&& self.bound matches Some((limit, _)) ==> self.kept.len() <= limit
        &&& self.overflow matches Some(limit) ==> self.bound == Some(
            (limit, OverflowBehavior::FailClosed),
        ) && self.discarded > 0
        &&& self.bound matches Some((limit, OverflowBehavior::FailClosed)) ==> (self.discarded > 0
            ==> self.overflow == Some(limit) || self.failure is Some)
        &&& self.bound is None && self.discarded > 0 ==> self.failure is Some
        &&& self.open <==> !self.terminal()
        &&& !(self.eof && self.failure is Some)
        &&& self.redirected ==> self.kept.len() == 0 && self.discarded == 0
    }

    /// Whether nothing more can be read.
    pub open spec fn terminal(self) -> bool {
        self.redirected || self.eof || self.failure is Some
    }

    /// How many bytes of `chunk` are to be retained.
    pub open spec fn room_for(self, chunk: Seq<u8>) -> nat {
        match self.bound {
            None => chunk.len(),
            Some((limit, _)) => if self.kept.len() >= limit {
                0
            } else if chunk.len() <= limit - self.kept.len() {
                chunk.len()
            } else {
                (limit - self.kept.len()) as nat
            },
        }
    }

    /// Whether memory is needed for what a read gave: some of its bytes are to be retained.
    pub open spec fn needs_memory(self, read: Result<Vec<u8>, IoError>) -> bool {
        match read {
            Ok(chunk) => self.room_for(chunk@) > 0,
            Err(_) => false,
        }
    }

    /// The stream after its capture failed: the first failure counts.
    pub open spec fn failing(self, failure: CaptureFailure) -> Self {
        StreamState {
            open: false,
            failure: if self.failure is Some {
                self.failure
            } else {
                Some(failure)
            },
            ..self
        }
    }

    /// The stream after one more chunk. `reserved` says whether memory for the bytes to
    /// retain could be had.
    pub open spec fn retaining(self, chunk: Seq<u8>, reserved: bool) -> Self {
        let room = self.room_for(chunk);
        let excess = saturated(self.discarded, (chunk.len() - room) as nat);
        let crossed = match self.bound {
            Some((limit, OverflowBehavior::FailClosed)) => if room < chunk.len() && self.overflow
                is None {
                Some(limit)
            } else {
                self.overflow
            },
            _ => self.overflow,
        };
        let needs_memory = room > 0 || self.bound is None;
        if needs_memory && !reserved {
            (StreamState { discarded: saturated(excess, room), overflow: crossed, ..self }).failing(
                CaptureFailure::Allocation,
            )
        } else {
            StreamState {
                kept: self.kept + chunk.take(room as int),
                discarded: excess,
                overflow: crossed,
                ..self
            }
        }
    }

    /// The stream after the attempt to make its read end non-blocking.
    pub open spec fn configured(self, outcome: Result<(), IoError>) -> Self {
        match outcome {
            Err(error) => if self.open {
                self.failing(CaptureFailure::Read { kind: error.kind, message: error.message })
            } else {
                self
            },
            Ok(_) => self,
        }
    }

    /// The stream after one read.
    pub open spec fn reading(self, read: Result<Vec<u8>, IoError>, reserved: bool) -> Self {
        match read {
            Ok(chunk) => if chunk@.len() == 0 {
                StreamState { eof: true, open: false, ..self }
            } else {
                self.retaining(chunk@, reserved)
            },
            Err(error) => if error.kind == ErrorKind::Interrupted || error.kind
                == ErrorKind::WouldBlock {
                self
            } else {
                self.failing(CaptureFailure::Read { kind: error.kind, message: error.message })
            },
        }
    }

    /// What the stream amounts to in the end: only EOF makes it complete or truncated.
    pub open spec fn completeness(self) -> CaptureCompleteness {
        if self.redirected {
            CaptureCompleteness::Redirected
        } else if self.eof {
            CapturedStream::settled_completeness(self.discarded)
        } else {
            CaptureCompleteness::Incomplete { discarded: self.discarded }
        }
    }

    /// Whether `report` reports this stream.
    pub open spec fn reported_by(self, report: CaptureReport) -> bool {
        &&& report.stream == self.name
        &&& report.captured.bytes@ == if self.redirected {
            Seq::<u8>::empty()
        } else {
            self.kept
        }
        &&& report.captured.completeness == self.completeness()
        &&& report.failure == self.failure
    }
}

/// Every read of an open stream keeps to what every capture keeps to: above all, no more is
/// retained than the limit allows.
pub proof fn law_reads_keep_the_bound(
    stream: StreamState,
    read: Result<Vec<u8>, IoError>,
    reserved: bool,
)
    requires
        stream.well_formed(),
        stream.open,
    ensures
        stream.reading(read, reserved).well_formed(),
        stream.reading(read, reserved).bound == stream.bound,
        stream.reading(read, reserved).name == stream.name,
{
}

/// Only EOF makes a capture complete or truncated, and complete means that nothing was
/// discarded.
pub proof fn law_only_eof_completes(stream: StreamState)
    requires
        stream.well_formed(),
    ensures
        stream.completeness() is Complete || stream.completeness() is Truncated ==> stream.eof
            && !stream.redirected && stream.failure is None,
        stream.completeness() is Complete ==> stream.discarded == 0,
        stream.completeness() matches CaptureCompleteness::Truncated { discarded } ==> discarded
            == stream.discarded && discarded > 0,
        stream.failure is Some && !stream.redirected ==> stream.completeness()
            == (CaptureCompleteness::Incomplete { discarded: stream.discarded }),
{
}

/// The bytes that a read gave.
pub open spec fn bytes_of(read: Result<Vec<u8>, IoError>) -> Seq<u8> {
    match read {
        Ok(chunk) => chunk@,
        Err(_) => Seq::empty(),
    }
}

impl StreamState {
    /// Whether the stream accounts for every one of the bytes that were read from it: it
    /// retained a prefix of them, up to its limit unless memory ran out, counted the others
    /// as discarded, and crossed its limit exactly where it is to fail closed and there were
    /// more bytes than the limit.
    pub open spec fn accounts_for(self, bytes: Seq<u8>) -> bool {
        &&& self.kept.is_prefix_of(bytes)
        &&& self.discarded == saturated(0, (bytes.len() - self.kept.len()) as nat)
        &&& match self.bound {
            Some((limit, behavior)) => {
                &&& self.overflow == if behavior == OverflowBehavior::FailClosed && bytes.len()
                    > limit {
                    Some(limit)
                } else {
                    None
                }
                &&& self.failure != Some(CaptureFailure::Allocation) ==> self.kept.len()
                    == if bytes.len() <= limit {
                    bytes.len()
                } else {
                    limit as nat
                }
            },
            None => {
                &&& self.overflow is None
                &&& self.failure != Some(CaptureFailure::Allocation) ==> self.kept.len()
                    == bytes.len()
            },
        }
    }
}

/// A stream of which nothing has been read accounts for just that.
pub proof fn law_fresh_streams_account_for_nothing(
    name: StreamName,
    open: bool,
    policy: CapturePolicy,
    outcome: Result<(), IoError>,
)
    ensures
        StreamState::fresh(name, open, policy).configured(outcome).accounts_for(Seq::empty()),
{
}

/// However a stream is cut into chunks, every byte that is read from it is accounted for.
pub proof fn law_reads_are_accounted_for(
    stream: StreamState,
    bytes: Seq<u8>,
    read: Result<Vec<u8>, IoError>,
    reserved: bool,
)
    requires
        stream.well_formed(),
        stream.open,
        stream.accounts_for(bytes),
    ensures
        stream.reading(read, reserved).accounts_for(bytes + bytes_of(read)),
{
    let more = bytes_of(read);
    let all = bytes + more;
    assert(stream.kept =~= all.take(stream.kept.len() as int));
    if more.len() > 0 {
        let room = stream.room_for(more);
        if stream.kept.len() == bytes.len() {
            assert(stream.kept =~= bytes);
            assert(bytes + more.take(room as int) =~= all.take((bytes.len() + room) as int));
        } else {
            assert(room == 0);
            assert(stream.kept + more.take(0) =~= stream.kept);
        }
    } else {
        assert(all =~= bytes);
    }
}

/// A stream that accounts for its bytes and ends complete retained all of them; a bounded one
/// for which memory was had retained exactly those up to its limit.
pub proof fn law_accounted_streams_retain_the_prefix(stream: StreamState, bytes: Seq<u8>)
    requires
        stream.well_formed(),
        stream.accounts_for(bytes),
    ensures
        stream.completeness() is Complete ==> stream.kept == bytes,
        stream.failure is None ==> stream.kept == match stream.bound {
            Some((limit, _)) => if bytes.len() <= limit {
                bytes
            } else {
                bytes.take(limit as int)
            },
            None => bytes,
        },
{
    assert(bytes.take(bytes.len() as int) =~= bytes);
    assert(stream.kept =~= bytes.take(stream.kept.len() as int));
}

/// Whether a read leaves more to be read in the same turn.
pub open spec fn read_continues(read: Result<Vec<u8>, IoError>) -> bool {
    match read {
        Ok(chunk) => chunk@.len() > 0,
        Err(error) => error.kind == ErrorKind::Interrupted,
    }
}

/// A length as a `u64`.
pub fn usize_to_u64(value: usize) -> (wide: u64)
    ensures
        wide == value,
{
    value as u64
}

/// Whether `granted` is what the allocator answered when a vector that held the bytes `held`
/// asked, through `Vec::try_reserve`, for room for `additional` more.
pub open spec fn allocator_answered(held: Seq<u8>, additional: usize, granted: bool) -> bool {
    exists|bytes: &mut Vec<u8>, answer: Result<(), TryReserveError>|
        {
            &&& #[trigger] call_ensures(Vec::<u8>::try_reserve, (bytes, additional), answer)
            &&& (*bytes)@ == held
            &&& granted == (answer is Ok)
        }
}

impl StreamState {
    /// Whether `granted` says whether there was memory for the bytes of `chunk` that are to be
    /// retained: the allocator decides, and where none is to be retained no memory is needed.
    pub open spec fn memory_granted(self, chunk: Seq<u8>, granted: bool) -> bool {
        if self.room_for(chunk) > 0 {
            allocator_answered(self.kept, self.room_for(chunk) as usize, granted)
        } else {
            granted
        }
    }

    /// Whether `granted` says whether there was memory for what a read gave.
    pub open spec fn read_granted(self, read: Result<Vec<u8>, IoError>, granted: bool) -> bool {
        match read {
            Ok(chunk) => self.memory_granted(chunk@, granted),
            Err(_) => granted,
        }
    }
}

/// What one read makes of a stream.
///
/// An empty chunk is the end of the stream. Of any other, the bytes that fit below the limit
/// are retained, behind those already held and however many these are; the others are counted,
/// and make a fail-closed stream cross its limit. Without memory for the bytes that fit, the
/// capture fails and the whole chunk is counted. An interrupted read and one that would block
/// change nothing, and any other failure ends the capture.
pub proof fn law_reads_retain_up_to_the_limit(
    stream: StreamState,
    read: Result<Vec<u8>, IoError>,
    reserved: bool,
)
    requires
        stream.well_formed(),
        stream.open,
    ensures
        ({
            let after = stream.reading(read, reserved);
            let bytes = bytes_of(read);
            let all = stream.kept + bytes;
            let limit: nat = match stream.bound {
                Some((limit, _)) => limit as nat,
                None => 0,
            };
            let fits = stream.bound is None || all.len() <= limit;
            let lost: int = if fits {
                0
            } else {
                all.len() - limit
            };
            let unheld: int = if stream.bound is Some && stream.kept.len() >= limit {
                0
            } else {
                bytes.len() - lost
            };
            &&& after.name == stream.name && after.bound == stream.bound && !after.redirected
            &&& read matches Ok(chunk) ==> chunk@.len() == 0 ==> after == (StreamState {
                eof: true,
                open: false,
                ..stream
            })
            &&& read matches Ok(chunk) ==> chunk@.len() > 0 ==> {
                &&& !after.eof
                &&& reserved || unheld == 0 ==> after.open && after.failure is None
                &&& reserved || unheld == 0 ==> after.kept == if fits {
                    all
                } else {
                    all.take(limit as int)
                }
                &&& reserved || unheld == 0 ==> after.discarded == if stream.discarded + lost
                    <= u64::MAX {
                    stream.discarded + lost
                } else {
                    u64::MAX as int
                }
                &&& !reserved && unheld > 0 ==> !after.open && after.failure == Some(
                    CaptureFailure::Allocation,
                ) && after.kept == stream.kept && after.discarded == if stream.discarded
                    + bytes.len() <= u64::MAX {
                    stream.discarded + bytes.len()
                } else {
                    u64::MAX as int
                }
                &&& after.overflow == if !fits && stream.bound == Some(
                    (limit as usize, OverflowBehavior::FailClosed),
                ) {
                    Some(limit as usize)
                } else {
                    stream.overflow
                }
            }
            &&& read matches Err(error) ==> (error.kind == ErrorKind::Interrupted || error.kind
                == ErrorKind::WouldBlock) ==> after == stream
            &&& read matches Err(error) ==> !(error.kind == ErrorKind::Interrupted || error.kind
                == ErrorKind::WouldBlock) ==> after == (StreamState {
                open: false,
                failure: Some(CaptureFailure::Read { kind: error.kind, message: error.message }),
                ..stream
            })
        }),
{
    let bytes = bytes_of(read);
    let all = stream.kept + bytes;
    let room = stream.room_for(bytes);
    if bytes.len() > 0 {
        assert(stream.kept + bytes.take(room as int) =~= all.take(
            (stream.kept.len() + room) as int,
        ));
        assert(all.take(all.len() as int) =~= all);
    }
}

/// A capture fails for want of memory only where the allocator refused: a vector that held
/// exactly the bytes retained so far asked for room for the bytes that were to be retained, no
/// more than the chunk has and the limit allows, and was refused.
pub proof fn law_only_the_allocator_denies_memory(
    stream: StreamState,
    read: Result<Vec<u8>, IoError>,
    granted: bool,
)
    requires
        stream.well_formed(),
        stream.open,
        stream.read_granted(read, granted),
    ensures
        stream.reading(read, granted).failure == Some(CaptureFailure::Allocation) ==> exists|
            bytes: &mut Vec<u8>,
            additional: usize,
            answer: Result<(), TryReserveError>,
        | #[trigger]
            call_ensures(Vec::<u8>::try_reserve, (bytes, additional), answer) && answer is Err && (
            *bytes)@ == stream.kept && 0 < additional <= bytes_of(read).len() && (
            stream.bound matches Some((limit, _)) ==> stream.kept.len() + additional <= limit),
{
    if let Ok(chunk) = read {
        if !granted {
            let additional = stream.room_for(chunk@) as usize;
            assert(chunk@.len() == chunk.len());
            assert(allocator_answered(stream.kept, additional, granted));
            let (bytes, answer) = choose|bytes: &mut Vec<u8>, answer: Result<(), TryReserveError>|
                {
                    &&& #[trigger] call_ensures(Vec::<u8>::try_reserve, (bytes, additional), answer)
                    &&& (*bytes)@ == stream.kept
                    &&& granted == (answer is Ok)
                };
            assert(call_ensures(Vec::<u8>::try_reserve, (bytes, additional), answer));
        }
    }
}

/// What a report says of a stream: it names the stream, holds the bytes that were retained and
/// the failure, and is complete exactly where the end was seen and nothing was discarded.
pub proof fn law_reports_are_faithful(stream: StreamState, report: CaptureReport)
    requires
        stream.well_formed(),
        stream.reported_by(report),
    ensures
        report.stream == stream.name,
        report.captured.bytes@ == stream.kept,
        report.failure == stream.failure,
        report.captured.completeness is Redirected <==> stream.redirected,
        report.captured.completeness is Complete <==> !stream.redirected && stream.eof
            && stream.discarded == 0,
        report.captured.completeness == (CaptureCompleteness::Truncated {
            discarded: stream.discarded,
        }) <==> !stream.redirected && stream.eof && stream.discarded > 0,
        report.captured.completeness == (CaptureCompleteness::Incomplete {
            discarded: stream.discarded,
        }) <==> !stream.redirected && !stream.eof,
        !(report.captured.completeness is Unknown),
{
    assert(stream.redirected ==> stream.kept =~= Seq::<u8>::empty());
}

/// A stream starts out with the bound that its policy sets and with nothing read; it counts as
/// redirected exactly where the supervisor has no pipe to it, and is ended before its first
/// read only where its pipe could not be made non-blocking.
pub proof fn law_streams_start_under_their_policy(
    name: StreamName,
    open: bool,
    policy: CapturePolicy,
    outcome: Result<(), IoError>,
)
    ensures
        ({
            let stream = StreamState::fresh(name, open, policy).configured(outcome);
            &&& stream.well_formed()
            &&& stream.name == name && stream.redirected == !open && !stream.eof
            &&& stream.kept == Seq::<u8>::empty() && stream.discarded == 0 && stream.overflow
                is None
            &&& policy matches CapturePolicy::Bounded { limit, overflow } ==> stream.bound == Some(
                (limit, overflow),
            )
            &&& policy is Unbounded ==> stream.bound is None
            &&& outcome is Ok ==> stream.open == open && stream.failure is None
            &&& outcome matches Err(error) ==> open ==> !stream.open && stream.failure == Some(
                CaptureFailure::Read { kind: error.kind, message: error.message },
            )
            &&& !open ==> !stream.open && stream.failure is None
        }),
{
}

/// A pipe that cannot be made non-blocking ends its stream with that failure, and nothing else
/// is touched; a stream without an open pipe is left alone.
pub proof fn law_unready_pipes_end_their_stream(stream: StreamState, outcome: Result<(), IoError>)
    requires
        stream.well_formed(),
    ensures
        outcome is Ok || !stream.open ==> stream.configured(outcome) == stream,
        outcome matches Err(error) ==> (stream.open ==> stream.configured(outcome) == (
        StreamState {
            open: false,
            failure: Some(CaptureFailure::Read { kind: error.kind, message: error.message }),
            ..stream
        })),
{
}

impl CaptureStorage {
    /// The bound on the retained bytes.
    pub open spec fn bound(self) -> Option<(usize, OverflowBehavior)> {
        match self {
            CaptureStorage::Bounded { bytes, limit, overflow } => Some((limit, overflow)),
            CaptureStorage::Unbounded(_) => None,
        }
    }

    /// The retained bytes.
    pub open spec fn kept(self) -> Seq<u8> {
        match self {
            CaptureStorage::Bounded { bytes, limit, overflow } => bytes@,
            CaptureStorage::Unbounded(bytes) => bytes@,
        }
    }

    /// Makes room for `additional` bytes; `false` where there is no memory for them. No bytes
    /// need no memory, and on any others the allocator decides.
    fn reserve(&mut self, additional: usize) -> (reserved: bool)
        ensures
            final(self).bound() == old(self).bound(),
            final(self).kept() == old(self).kept(),
            additional == 0 ==> reserved,
            additional > 0 ==> allocator_answered(old(self).kept(), additional, reserved),
    {
        if additional == 0 {
            return true;
        }
        match self {
            CaptureStorage::Bounded { bytes, .. } => bytes.try_reserve(additional).is_ok(),
            CaptureStorage::Unbounded(bytes) => bytes.try_reserve(additional).is_ok(),
        }
    }

    /// Retains the first `count` bytes of `chunk`.
    fn extend(&mut self, chunk: &[u8], count: usize)
        requires
            count <= chunk@.len(),
        ensures
            final(self).bound() == old(self).bound(),
            final(self).kept() == old(self).kept() + chunk@.take(count as int),
    {
        let (prefix, _rest) = chunk.split_at(count);
        match self {
            CaptureStorage::Bounded { bytes, .. } => {
                let ghost before = bytes@;
                bytes.extend_from_slice(prefix);
                assert(bytes@ =~= before + chunk@.take(count as int));
            },
            CaptureStorage::Unbounded(bytes) => {
                let ghost before = bytes@;
                bytes.extend_from_slice(prefix);
                assert(bytes@ =~= before + chunk@.take(count as int));
            },
        }
    }
}

impl<Pipe> View for CaptureStream<Pipe> {
    type V = StreamState;

    open spec fn view(&self) -> StreamState {
        StreamState {
            name: self.name,
            open: self.pipe is Some,
            bound: self.storage.bound(),
            kept: self.storage.kept(),
            discarded: self.discarded,
            overflow: self.overflow,
            failure: self.failure,
            eof: self.eof,
            redirected: self.redirected,
        }
    }
}

impl<Pipe> CaptureStream<Pipe> {
    /// Starts the capture of a stream; without a pipe the stream counts as redirected.
    pub fn new(name: StreamName, pipe: Option<Pipe>, policy: &CapturePolicy) -> (stream: Self)
        ensures
            stream.pipe == pipe,
            stream@ == StreamState::fresh(name, pipe is Some, *policy),
    {
        let redirected = pipe.is_none();
        let storage = match policy {
            CapturePolicy::Bounded { limit, overflow } => CaptureStorage::Bounded {
                bytes: Vec::new(),
                limit: *limit,
                overflow: *overflow,
            },
            CapturePolicy::Unbounded(_) => CaptureStorage::Unbounded(Vec::new()),
        };
        CaptureStream {
            name,
            pipe,
            storage,
            discarded: 0,
            overflow: None,
            failure: None,
            eof: false,
            redirected,
        }
    }

    /// Takes note of whether the read end could be made non-blocking.
    pub fn make_nonblocking(&mut self, outcome: Result<(), IoError>)
        ensures
            final(self)@ == old(self)@.configured(outcome),
            final(self).pipe == old(self).pipe || final(self).pipe is None,
    {
        if self.pipe.is_some() {
            if let Err(error) = outcome {
                self.record_failure(error);
            }
        }
    }

    /// How many bytes of a chunk of `length` bytes are to be retained.
    fn room(&self, length: usize) -> (room: usize)
        ensures
            room <= length,
            forall|chunk: Seq<u8>| chunk.len() == length ==> #[trigger] self@.room_for(chunk)
                == room,
    {
        match &self.storage {
            CaptureStorage::Unbounded(_) => length,
            CaptureStorage::Bounded { bytes, limit, .. } => {
                let free: usize = limit.saturating_sub(bytes.len());
                if length <= free {
                    length
                } else {
                    free
                }
            },
        }
    }

    /// Makes room for the bytes of `chunk` that are to be retained; `false` where there is
    /// no memory for them. Where none is to be retained no memory is needed.
    pub fn reserve_for(&mut self, chunk: &[u8]) -> (reserved: bool)
        ensures
            final(self)@ == old(self)@,
            final(self).pipe == old(self).pipe,
            old(self)@.room_for(chunk@) == 0 ==> reserved,
            old(self)@.memory_granted(chunk@, reserved),
    {
        let room: usize = self.room(chunk.len());
        assert(self@.room_for(chunk@) == room);
        self.storage.reserve(room)
    }

    /// Takes in one chunk, given whether memory for it could be had.
    pub fn retain_reserved(&mut self, chunk: &[u8], reserved: bool)
        ensures
            final(self)@ == old(self)@.retaining(chunk@, reserved),
            final(self).pipe == old(self).pipe || final(self).pipe is None,
    {
        let room: usize = self.room(chunk.len());
        let excess: usize = chunk.len() - room;
        assert(self@.room_for(chunk@) == room);
        self.discarded = self.discarded.saturating_add(usize_to_u64(excess));
        let mut bounded = false;
        if let CaptureStorage::Bounded { limit, overflow, .. } = &self.storage {
            bounded = true;
            if excess > 0 && *overflow == OverflowBehavior::FailClosed && self.overflow.is_none() {
                self.overflow = Some(*limit);
            }
        }
        if room > 0 || !bounded {
            if reserved {
                self.storage.extend(chunk, room);
            } else {
                self.discarded = self.discarded.saturating_add(usize_to_u64(room));
                if self.failure.is_none() {
                    self.failure = Some(CaptureFailure::Allocation);
                }
                self.pipe = None;
            }
        } else {
            assert(self.storage.kept() =~= self.storage.kept() + chunk@.take(0));
        }
    }

    /// Takes in one chunk: retains what the bound has room for and counts the rest.
    ///
    /// Whether memory can be had is the machine's affair; either way the stream is accounted
    /// for.
    pub fn retain(&mut self, chunk: &[u8])
        ensures
            final(self)@ == old(self)@.retaining(chunk@, true) || final(self)@ == old(
                self,
            )@.retaining(chunk@, false),
            old(self)@.room_for(chunk@) == 0 ==> final(self)@ == old(self)@.retaining(chunk@, true),
            exists|reserved: bool|
                #[trigger] old(self)@.memory_granted(chunk@, reserved) && final(self)@ == old(
                    self,
                )@.retaining(chunk@, reserved),
            final(self).pipe == old(self).pipe || final(self).pipe is None,
    {
        let reserved = self.reserve_for(chunk);
        self.retain_reserved(chunk, reserved);
    }

    /// Ends the capture with a read failure; the first failure counts.
    pub fn record_failure(&mut self, error: IoError)
        ensures
            final(self)@ == old(self)@.failing(
                CaptureFailure::Read { kind: error.kind, message: error.message },
            ),
            final(self).pipe is None,
    {
        if self.failure.is_none() {
            self.failure = Some(CaptureFailure::Read { kind: error.kind, message: error.message });
        }
        self.pipe = None;
    }

    /// Takes in what one read gave, given whether memory for it could be had. Returns
    /// whether the turn may go on with another read.
    pub fn accept_reserved(&mut self, read: Result<Vec<u8>, IoError>, reserved: bool) -> (goes_on:
        bool)
        ensures
            final(self)@ == old(self)@.reading(read, reserved),
            final(self).pipe == old(self).pipe || final(self).pipe is None,
            goes_on == (read_continues(read) && final(self)@.open),
    {
        match read {
            Ok(chunk) => {
                if chunk.len() == 0 {
                    self.eof = true;
                    self.pipe = None;
                    false
                } else {
                    self.retain_reserved(chunk.as_slice(), reserved);
                    self.pipe.is_some()
                }
            },
            Err(error) => {
                if error.is_interrupted() {
                    self.pipe.is_some()
                } else if error.is_would_block() {
                    false
                } else {
                    self.record_failure(error);
                    false
                }
            },
        }
    }

    /// Makes room for what one read gave; `false` where there is no memory for it. A read of
    /// which nothing is to be retained needs none.
    pub fn reserve_read(&mut self, read: &Result<Vec<u8>, IoError>) -> (reserved: bool)
        ensures
            final(self)@ == old(self)@,
            final(self).pipe == old(self).pipe,
            !old(self)@.needs_memory(*read) ==> reserved,
            old(self)@.read_granted(*read, reserved),
    {
        match read {
            Ok(chunk) => self.reserve_for(chunk.as_slice()),
            Err(_) => true,
        }
    }

    /// Takes in what one read gave: EOF, a chunk or a failure. Returns whether the turn may
    /// go on with another read.
    pub fn accept(&mut self, read: Result<Vec<u8>, IoError>) -> (goes_on: bool)
        ensures
            final(self)@ == old(self)@.reading(read, true) || final(self)@ == old(self)@.reading(
                read,
                false,
            ),
            !old(self)@.needs_memory(read) ==> final(self)@ == old(self)@.reading(read, true),
            exists|reserved: bool|
                #[trigger] old(self)@.read_granted(read, reserved) && final(self)@ == old(
                    self,
                )@.reading(read, reserved),
            final(self).pipe == old(self).pipe || final(self).pipe is None,
            goes_on == (read_continues(read) && final(self)@.open),
    {
        let reserved = self.reserve_read(&read);
        self.accept_reserved(read, reserved)
    }

    /// Whether the capture failed.
    pub fn failed(&self) -> (failed: bool)
        ensures
            failed == (self@.failure is Some),
    {
        self.failure.is_some()
    }

    /// The limit that a fail-closed stream has crossed.
    pub fn overflow(&self) -> (overflow: Option<usize>)
        ensures
            overflow == self@.overflow,
    {
        self.overflow
    }

    /// Whether the read end is open.
    pub fn is_open(&self) -> (open: bool)
        ensures
            open == self@.open,
    {
        self.pipe.is_some()
    }

    /// Whether nothing more can be read.
    pub fn terminal(&self) -> (terminal: bool)
        ensures
            terminal == self@.terminal(),
    {
        self.redirected || self.eof || self.failure.is_some()
    }

    /// Gives up the stream for its report.
    pub fn into_report(self) -> (report: CaptureReport)
        ensures
            self@.reported_by(report),
    {
        let bytes = match self.storage {
            CaptureStorage::Bounded { bytes, .. } => bytes,
            CaptureStorage::Unbounded(bytes) => bytes,
        };
        let captured = if self.redirected {
            CapturedStream::redirected()
        } else if self.eof {
            CapturedStream::settled(bytes, self.discarded)
        } else {
            CapturedStream::incomplete(bytes, self.discarded)
        };
        CaptureReport { stream: self.name, captured, failure: self.failure }
    }
}

} // verus!
