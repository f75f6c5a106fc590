//! Typed invocation policies.

use vstd::prelude::*;

use crate::bytes::{copy_bytes, ByteMap};
#[allow(unused_imports)]
use crate::bytes::{has_key, lemma_has_key_push};
use crate::debug::quote;
#[allow(unused_imports)]
use crate::debug::quoted;
use crate::error::Error;
use crate::output::StreamName;
use crate::text::{debug_duration_text, decimal_text, duration_debug_text};
#[allow(unused_imports)]
use crate::text::decimal_digits;
use crate::time::{monotonic_now, representable_after, Duration, MAX_NANOS};
#[allow(unused_imports)]
use crate::time::{clock_answered, is_reading};

verus! {

/// Conservative capture bound applied independently to stdout and stderr: 10 MiB.
pub const DEFAULT_CAPTURE_LIMIT: usize = 10 * 1024 * 1024;

/// Marker for a command whose lifecycle policy has not yet been declared.
#[derive(Debug)]
pub struct Draft;

/// Marker for a command whose lifecycle policy is valid and runnable.
#[derive(Debug)]
pub struct Ready {
    execution: ExecutionPolicy,
}

impl Ready {
    /// A runnable command's policy is one that the declarations accept.
    #[verifier::type_invariant]
    spec fn declared(self) -> bool {
        self.execution.acceptable()
    }

    /// The declared execution policy.
    pub closed spec fn policy(self) -> ExecutionPolicy {
        self.execution
    }

    /// Attaches a declared execution policy.
    pub(crate) fn new(execution: ExecutionPolicy) -> (ready: Self)
        requires
            execution.acceptable(),
        ensures
            ready.policy() == execution,
    {
        Ready { execution }
    }

    /// Borrows the declared execution policy.
    pub(crate) fn execution(&self) -> (execution: &ExecutionPolicy)
        ensures
            *execution == self.policy(),
            execution.acceptable(),
    {
        proof {
            use_type_invariant(&*self);
        }
        &self.execution
    }

    /// Gives up the marker for its execution policy.
    pub(crate) fn into_execution(self) -> (execution: ExecutionPolicy)
        ensures
            execution == self.policy(),
            execution.acceptable(),
    {
        proof {
            use_type_invariant(&self);
        }
        self.execution
    }
}

/// Whether `c` has the Unicode property White_Space.
pub open spec fn is_white_space(c: char) -> bool {
    ||| 0x9 <= c as u32 <= 0xd
    ||| c as u32 == 0x20
    ||| c as u32 == 0x85
    ||| c as u32 == 0xa0
    ||| c as u32 == 0x1680
    ||| 0x2000 <= c as u32 <= 0x200a
    ||| 0x2028 <= c as u32 <= 0x2029
    ||| c as u32 == 0x202f
    ||| c as u32 == 0x205f
    ||| c as u32 == 0x3000
}

/// Whether a text is empty or holds nothing but white space.
pub open spec fn is_blank(text: Seq<char>) -> bool {
    forall|i: int| 0 <= i < text.len() ==> is_white_space(#[trigger] text[i])
}

/// Whether `c` has the Unicode property White_Space.
pub fn white_space(c: char) -> (white: bool)
    ensures
        white == is_white_space(c),
{
    let code: u32 = c as u32;
    (0x9 <= code && code <= 0xd) || code == 0x20 || code == 0x85 || code == 0xa0 || code == 0x1680
        || (0x2000 <= code && code <= 0x200a) || (0x2028 <= code && code <= 0x2029) || code == 0x202f
        || code == 0x205f || code == 0x3000
}

/// Whether a text is empty or holds nothing but white space.
pub fn blank(text: &str) -> (blank: bool)
    ensures
        blank == is_blank(text@),
{
    let length: usize = text.unicode_len();
    let mut i: usize = 0;
    while i < length
        invariant
            i <= length,
            length == text@.len(),
            is_blank(text@.take(i as int)),
        decreases length - i,
    {
        if !white_space(text.get_char(i)) {
            return false;
        }
        assert(text@.take(i + 1) =~= text@.take(i as int).push(text@[i as int]));
        i = i + 1;
    }
    assert(text@.take(i as int) =~= text@);
    true
}

/// A non-empty explanation attached to exceptional policy choices.
#[derive(Debug, PartialEq, Eq)]
pub struct NonEmptyReason(String);

impl Clone for NonEmptyReason {
    fn clone(&self) -> (copy: Self)
        ensures
            copy == *self,
    {
        proof {
            use_type_invariant(&*self);
        }
        NonEmptyReason(self.0.clone())
    }
}

impl View for NonEmptyReason {
    type V = Seq<char>;

    closed spec fn view(&self) -> Seq<char> {
        self.0@
    }
}

impl NonEmptyReason {
    /// A retained reason always says something.
    #[verifier::type_invariant]
    spec fn says_something(self) -> bool {
        !is_blank(self.0@)
    }

    /// Validates and retains a human-readable reason.
    pub fn new(reason: String) -> (result: Result<Self, Error>)
        ensures
            is_blank(reason@) ==> result == Err::<Self, Error>(
                Error::InvalidPolicy { violation: PolicyViolation::EmptyReason },
            ),
            !is_blank(reason@) ==> (result matches Ok(retained) && retained@ == reason@),
    {
        if blank(reason.as_str()) {
            return Err(Error::InvalidPolicy { violation: PolicyViolation::EmptyReason });
        }
        Ok(NonEmptyReason(reason))
    }

    /// Borrows the validated reason.
    pub fn as_str(&self) -> (text: &str)
        ensures
            text@ == self@,
            !is_blank(text@),
    {
        proof {
            use_type_invariant(&*self);
        }
        self.0.as_str()
    }
}

/// The wall-clock ownership policy for one invocation.
#[derive(Debug)]
pub enum ExecutionPolicy {
    /// Stop and clean up the owned process group when the duration elapses.
    Deadline(Duration),
    /// Intentionally permit the invocation to run without a time bound.
    Unbounded(NonEmptyReason),
}

impl ExecutionPolicy {
    /// Whether a declaration accepts this policy: the longest duration is no deadline.
    pub open spec fn acceptable(self) -> bool {
        match self {
            ExecutionPolicy::Deadline(duration) => duration.nanos() != MAX_NANOS,
            ExecutionPolicy::Unbounded(_) => true,
        }
    }

    /// The configured deadline duration, if bounded.
    pub open spec fn spec_duration(self) -> Option<Duration> {
        match self {
            ExecutionPolicy::Deadline(duration) => Some(duration),
            ExecutionPolicy::Unbounded(_) => None,
        }
    }

    /// What becomes of a policy whose deadline the clock can or cannot represent: the
    /// deadline as time since the start, no deadline, or the violation.
    pub open spec fn placed(self, representable: bool) -> Result<Option<Duration>, Error> {
        match self {
            ExecutionPolicy::Deadline(duration) => if representable {
                Ok(Some(duration))
            } else {
                Err(
                    Error::InvalidPolicy {
                        violation: PolicyViolation::DeadlineOverflow(duration),
                    },
                )
            },
            ExecutionPolicy::Unbounded(_) => Ok(None),
        }
    }

    /// Places the deadline on the clock, given whether the clock can represent it.
    pub fn place_deadline(&self, representable: bool) -> (placed: Result<Option<Duration>, Error>)
        ensures
            placed == self.placed(representable),
    {
        match self {
            ExecutionPolicy::Deadline(duration) => {
                if representable {
                    Ok(Some(*duration))
                } else {
                    Err(
                        Error::InvalidPolicy {
                            violation: PolicyViolation::DeadlineOverflow(*duration),
                        },
                    )
                }
            },
            ExecutionPolicy::Unbounded(_) => Ok(None),
        }
    }

    /// Places the deadline on the clock as time since `started`.
    ///
    /// Whether the clock can represent a deadline is the machine's affair: a bounded policy
    /// yields its own duration or its own violation, an unbounded one neither.
    pub fn deadline(&self, started: &std::time::Instant) -> (placed: Result<
        Option<Duration>,
        Error,
    >)
        ensures
            placed == self.placed(true) || placed == self.placed(false),
            self.spec_duration() matches Some(duration) ==> (duration.nanos() == 0 ==> placed
                == self.placed(true)),
            self matches ExecutionPolicy::Deadline(duration) ==> exists|reachable: bool| #[trigger]
                clock_answered(*started, *duration, reachable) && placed == self.placed(reachable),
    {
        let representable = match self {
            ExecutionPolicy::Deadline(duration) => representable_after(started, *duration),
            ExecutionPolicy::Unbounded(_) => true,
        };
        self.place_deadline(representable)
    }

    /// Returns the configured deadline duration, if bounded.
    #[must_use]
    pub fn duration(&self) -> (duration: Option<Duration>)
        ensures
            duration == self.spec_duration(),
    {
        match self {
            ExecutionPolicy::Deadline(duration) => Some(*duration),
            ExecutionPolicy::Unbounded(_) => None,
        }
    }
}

/// Which portion of the parent environment is visible before explicit operations.
#[derive(Debug, PartialEq, Eq)]
pub enum EnvironmentPolicy {
    /// Begin with an empty environment.
    Clean,
    /// Copy only the named keys that exist in the parent environment.
    Allowlist(ByteMap<()>),
    /// Inherit every parent variable for the stated exceptional reason.
    InheritAll(NonEmptyReason),
}

impl EnvironmentPolicy {
    /// Whether the policy lets the parent's variable `key` through.
    pub open spec fn allows(self, key: Seq<u8>) -> bool {
        match self {
            EnvironmentPolicy::Clean => false,
            EnvironmentPolicy::Allowlist(keys) => keys@.contains_key(key),
            EnvironmentPolicy::InheritAll(_) => true,
        }
    }

    /// Constructs the secure empty-environment policy.
    #[must_use]
    pub fn clean() -> (policy: Self)
        ensures
            policy == EnvironmentPolicy::Clean,
    {
        EnvironmentPolicy::Clean
    }

    /// Constructs an allowlist from environment keys.
    #[must_use]
    pub fn allowlist(keys: &Vec<Vec<u8>>) -> (policy: Self)
        ensures
            policy matches EnvironmentPolicy::Allowlist(listed) && forall|key: Seq<u8>|
                #[trigger] listed@.contains_key(key) <==> exists|i: int|
                    0 <= i < keys@.len() && #[trigger] keys@[i]@ == key,
    {
        let mut listed: ByteMap<()> = ByteMap::new();
        let mut i: usize = 0;
        while i < keys.len()
            invariant
                i <= keys@.len(),
                forall|key: Seq<u8>| #[trigger]
                    listed@.contains_key(key) <==> exists|j: int|
                        0 <= j < i && #[trigger] keys@[j]@ == key,
            decreases keys@.len() - i,
        {
            let ghost before = listed@;
            listed.insert(copy_bytes(keys[i].as_slice()), ());
            assert forall|key: Seq<u8>| #[trigger] listed@.contains_key(key) implies exists|j: int|
                0 <= j < i + 1 && #[trigger] keys@[j]@ == key by {
                if key == keys@[i as int]@ {
                    assert(keys@[i as int]@ == key);
                } else {
                    assert(before.contains_key(key));
                    let j = choose|j: int| 0 <= j < i && #[trigger] keys@[j]@ == key;
                    assert(keys@[j]@ == key);
                }
            }
            assert forall|key: Seq<u8>|
                (exists|j: int| 0 <= j < i + 1 && #[trigger] keys@[j]@ == key) implies #[trigger] listed@.contains_key(
                key,
            ) by {
                let j = choose|j: int| 0 <= j < i + 1 && #[trigger] keys@[j]@ == key;
                if j < i {
                    assert(keys@[j]@ == key);
                    assert(before.contains_key(key));
                }
            }
            i = i + 1;
        }
        EnvironmentPolicy::Allowlist(listed)
    }

    /// Constructs explicit full inheritance with a non-empty reason.
    pub fn inherit_all(reason: String) -> (result: Result<Self, Error>)
        ensures
            is_blank(reason@) ==> result == Err::<Self, Error>(
                Error::InvalidPolicy { violation: PolicyViolation::EmptyReason },
            ),
            !is_blank(reason@) ==> (result matches Ok(EnvironmentPolicy::InheritAll(retained))
                && retained@ == reason@),
    {
        match NonEmptyReason::new(reason) {
            Ok(retained) => Ok(EnvironmentPolicy::InheritAll(retained)),
            Err(error) => Err(error),
        }
    }

    /// Whether the policy lets the parent's variable `key` through.
    pub fn allows_key(&self, key: &[u8]) -> (allowed: bool)
        ensures
            allowed == self.allows(key@),
    {
        match self {
            EnvironmentPolicy::Clean => false,
            EnvironmentPolicy::Allowlist(keys) => keys.contains_key(key),
            EnvironmentPolicy::InheritAll(_) => true,
        }
    }
}

impl Clone for EnvironmentPolicy {
    fn clone(&self) -> (copy: Self)
        ensures
            match (*self, copy) {
                (EnvironmentPolicy::Clean, EnvironmentPolicy::Clean) => true,
                (
                    EnvironmentPolicy::Allowlist(keys),
                    EnvironmentPolicy::Allowlist(copied),
                ) => copied@ == keys@,
                (
                    EnvironmentPolicy::InheritAll(reason),
                    EnvironmentPolicy::InheritAll(copied),
                ) => copied == reason,
                _ => false,
            },
    {
        match self {
            EnvironmentPolicy::Clean => EnvironmentPolicy::Clean,
            EnvironmentPolicy::Allowlist(keys) => {
                let entries = keys.entries();
                let mut copied: ByteMap<()> = ByteMap::new();
                let mut i: usize = 0;
                while i < entries.len()
                    invariant
                        i <= entries@.len(),
                        forall|key: Seq<u8>| #[trigger]
                            copied@.contains_key(key) <==> has_key(entries@.take(i as int), key),
                    decreases entries@.len() - i,
                {
                    proof {
                        lemma_has_key_push(entries@, i as int);
                    }
                    copied.insert(copy_bytes(entries[i].0.as_slice()), ());
                    i = i + 1;
                }
                assert(entries@.take(i as int) =~= entries@);
                assert forall|key: Seq<u8>|
                    #![trigger copied@.dom().contains(key)]
                    #![trigger keys@.dom().contains(key)]
                    copied@.dom().contains(key) == keys@.dom().contains(key) by {
                    assert(copied@.contains_key(key) <==> has_key(entries@, key));
                }
                assert(copied@ =~= keys@);
                EnvironmentPolicy::Allowlist(copied)
            },
            EnvironmentPolicy::InheritAll(reason) => EnvironmentPolicy::InheritAll(reason.clone()),
        }
    }
}

impl Default for EnvironmentPolicy {
    fn default() -> (policy: Self)
        ensures
            policy == EnvironmentPolicy::Clean,
    {
        EnvironmentPolicy::Clean
    }
}

/// Action taken after a stream reaches its declared byte limit.
#[derive(Clone, Copy, Debug, PartialEq, Eq, Structural)]
pub enum OverflowBehavior {
    /// Terminate the invocation and return a typed limit error.
    FailClosed,
    /// Keep draining while retaining only the bounded prefix.
    TruncateAndDrain,
}

/// Capture policy for one output stream.
#[derive(Debug)]
pub enum CapturePolicy {
    /// Retain at most `limit` bytes and apply `overflow` to further bytes.
    Bounded {
        /// Maximum retained byte count.
        limit: usize,
        /// Overflow action.
        overflow: OverflowBehavior,
    },
    /// Retain all bytes for the stated exceptional reason.
    Unbounded(NonEmptyReason),
}

impl CapturePolicy {
    /// Whether this is the policy that a new command captures with.
    pub open spec fn spec_is_default(self) -> bool {
        self == CapturePolicy::Bounded {
            limit: DEFAULT_CAPTURE_LIMIT,
            overflow: OverflowBehavior::FailClosed,
        }
    }

    /// Constructs bounded, fail-closed capture.
    #[must_use]
    pub fn bounded(limit: usize) -> (policy: Self)
        ensures
            policy == (CapturePolicy::Bounded { limit, overflow: OverflowBehavior::FailClosed }),
    {
        CapturePolicy::Bounded { limit, overflow: OverflowBehavior::FailClosed }
    }

    /// Constructs bounded prefix capture that continues draining on overflow.
    #[must_use]
    pub fn truncate(limit: usize) -> (policy: Self)
        ensures
            policy == (CapturePolicy::Bounded {
                limit,
                overflow: OverflowBehavior::TruncateAndDrain,
            }),
    {
        CapturePolicy::Bounded { limit, overflow: OverflowBehavior::TruncateAndDrain }
    }

    /// Constructs exceptional unbounded capture with a non-empty reason.
    pub fn unbounded(reason: String) -> (result: Result<Self, Error>)
        ensures
            is_blank(reason@) ==> result == Err::<Self, Error>(
                Error::InvalidPolicy { violation: PolicyViolation::EmptyReason },
            ),
            !is_blank(reason@) ==> (result matches Ok(CapturePolicy::Unbounded(retained))
                && retained@ == reason@),
    {
        match NonEmptyReason::new(reason) {
            Ok(retained) => Ok(CapturePolicy::Unbounded(retained)),
            Err(error) => Err(error),
        }
    }

    /// Whether every byte is retained.
    pub fn is_unbounded(&self) -> (unbounded: bool)
        ensures
            unbounded == (self is Unbounded),
    {
        match self {
            CapturePolicy::Unbounded(_) => true,
            CapturePolicy::Bounded { .. } => false,
        }
    }

    /// Whether this is the policy that a new command captures with.
    pub fn is_default(&self) -> (default: bool)
        ensures
            default == self.spec_is_default(),
    {
        match self {
            CapturePolicy::Bounded { limit, overflow } => *limit == DEFAULT_CAPTURE_LIMIT
                && *overflow == OverflowBehavior::FailClosed,
            CapturePolicy::Unbounded(_) => false,
        }
    }
}

impl Default for CapturePolicy {
    fn default() -> (policy: Self)
        ensures
            policy.spec_is_default(),
    {
        CapturePolicy::bounded(DEFAULT_CAPTURE_LIMIT)
    }
}

/// A policy violation detected before process creation.
#[derive(Clone, Debug, PartialEq, Eq)]
#[non_exhaustive]
pub enum PolicyViolation {
    /// An exceptional policy was given only white space or an empty reason.
    EmptyReason,
    /// The duration cannot be represented as a monotonic deadline.
    DeadlineOverflow(Duration),
    /// PATH lookup was requested without making PATH visible to the child.
    BareProgramWithoutPath(Vec<u8>),
    /// The process identifier could not be represented safely by the backend.
    InvalidProcessId(u32),
    /// Managed streaming does not use a supervisor-owned capture buffer.
    UnboundedCaptureForManaged(StreamName),
    /// Managed streaming would discard the stream's non-default capture policy.
    CapturePolicyWithStreaming(StreamName),
}

impl PolicyViolation {
    /// The sentence that reports the violation.
    pub open spec fn sentence(self) -> Seq<char> {
        match self {
            PolicyViolation::EmptyReason => "exceptional policy reason must not be empty"@,
            PolicyViolation::DeadlineOverflow(duration) => "deadline "@ + duration_debug_text(
                duration.nanos(),
            ) + " exceeds the monotonic clock domain"@,
            PolicyViolation::BareProgramWithoutPath(program) => "bare program "@ + quoted(program@)
                + " requires PATH to be explicitly set or allowlisted"@,
            PolicyViolation::InvalidProcessId(id) => "process id "@ + decimal_digits(id as nat)
                + " is not representable"@,
            PolicyViolation::UnboundedCaptureForManaged(stream) => "unbounded "@
                + stream.spec_name() + " capture is unavailable for managed streaming"@,
            PolicyViolation::CapturePolicyWithStreaming(stream) => "non-default "@
                + stream.spec_name() + " capture policy is unavailable for managed streaming"@,
        }
    }

    /// Renders the sentence that reports the violation.
    #[must_use]
    pub fn message(&self) -> (sentence: String)
        ensures
            sentence@ == self.sentence(),
    {
        match self {
            PolicyViolation::EmptyReason => "exceptional policy reason must not be empty".to_owned(),
            PolicyViolation::DeadlineOverflow(duration) => "deadline ".to_owned().concat(
                debug_duration_text(*duration).as_str(),
            ).concat(" exceeds the monotonic clock domain"),
            PolicyViolation::BareProgramWithoutPath(program) => "bare program ".to_owned().concat(
                quote(program.as_slice()).as_str(),
            ).concat(" requires PATH to be explicitly set or allowlisted"),
            PolicyViolation::InvalidProcessId(id) => "process id ".to_owned().concat(
                decimal_text(*id as u64).as_str(),
            ).concat(" is not representable"),
            PolicyViolation::UnboundedCaptureForManaged(stream) => "unbounded ".to_owned().concat(
                stream.name(),
            ).concat(" capture is unavailable for managed streaming"),
            PolicyViolation::CapturePolicyWithStreaming(stream) => "non-default ".to_owned().concat(
                stream.name(),
            ).concat(" capture policy is unavailable for managed streaming"),
        }
    }
}

/// Every violation names what is wrong with the policy.
pub proof fn law_violations_name_the_fault(violation: PolicyViolation)
    ensures
        violation is EmptyReason ==> violation.sentence()
            == "exceptional policy reason must not be empty"@,
        violation matches PolicyViolation::DeadlineOverflow(duration) ==> violation.sentence()
            == "deadline "@ + duration_debug_text(duration.nanos()) + " exceeds the monotonic clock domain"@,
        violation matches PolicyViolation::BareProgramWithoutPath(program) ==> violation.sentence()
            == "bare program "@ + quoted(program@) + " requires PATH to be explicitly set or allowlisted"@,
        violation matches PolicyViolation::InvalidProcessId(id) ==> violation.sentence()
            == "process id "@ + decimal_digits(id as nat) + " is not representable"@,
        violation matches PolicyViolation::UnboundedCaptureForManaged(stream)
            ==> violation.sentence() == "unbounded "@ + stream.spec_name()
            + " capture is unavailable for managed streaming"@,
        violation matches PolicyViolation::CapturePolicyWithStreaming(stream)
            ==> violation.sentence() == "non-default "@ + stream.spec_name()
            + " capture policy is unavailable for managed streaming"@,
{
}

/// What counts as white space: tabulators and line ends, the blank, and the other characters of
/// the Unicode property White_Space; no letter, digit or punctuation mark does.
pub proof fn law_white_space_is_unicodes(c: char)
    ensures
        is_white_space(c) <==> seq![
            0x9u32,
            0xau32,
            0xbu32,
            0xcu32,
            0xdu32,
            0x20u32,
            0x85u32,
            0xa0u32,
            0x1680u32,
            0x2000u32,
            0x2001u32,
            0x2002u32,
            0x2003u32,
            0x2004u32,
            0x2005u32,
            0x2006u32,
            0x2007u32,
            0x2008u32,
            0x2009u32,
            0x200au32,
            0x2028u32,
            0x2029u32,
            0x202fu32,
            0x205fu32,
            0x3000u32,
        ].contains(c as u32),
{
    let codes = seq![
        0x9u32,
        0xau32,
        0xbu32,
        0xcu32,
        0xdu32,
        0x20u32,
        0x85u32,
        0xa0u32,
        0x1680u32,
        0x2000u32,
        0x2001u32,
        0x2002u32,
        0x2003u32,
        0x2004u32,
        0x2005u32,
        0x2006u32,
        0x2007u32,
        0x2008u32,
        0x2009u32,
        0x200au32,
        0x2028u32,
        0x2029u32,
        0x202fu32,
        0x205fu32,
        0x3000u32,
    ];
    let code = c as u32;
    if is_white_space(c) {
        let i: int = if code <= 0xd {
            code - 0x9
        } else if code == 0x20 {
            5
        } else if code == 0x85 {
            6
        } else if code == 0xa0 {
            7
        } else if code == 0x1680 {
            8
        } else if code <= 0x200a {
            9 + (code - 0x2000)
        } else if code <= 0x2029 {
            20 + (code - 0x2028)
        } else if code == 0x202f {
            22
        } else if code == 0x205f {
            23
        } else {
            24
        };
        assert(codes[i] == code);
    }
}

/// A reason says something exactly where it has a character that is no white space: the empty
/// one says nothing, and two texts together say something where one of them does.
pub proof fn law_reasons_need_a_character_that_shows(text: Seq<char>, more: Seq<char>, c: char)
    ensures
        is_blank(Seq::empty()),
        is_blank(text.push(c)) <==> is_blank(text) && is_white_space(c),
        is_blank(text + more) <==> is_blank(text) && is_blank(more),
{
    assert forall|i: int| is_blank(text.push(c)) && 0 <= i < text.len() implies is_white_space(
        #[trigger] text[i],
    ) by {
        assert(is_white_space(text.push(c)[i]));
    }
    if is_blank(text.push(c)) {
        assert(is_white_space(text.push(c)[text.len() as int]));
    }
    if is_blank(text + more) {
        assert forall|i: int| 0 <= i < text.len() implies is_white_space(#[trigger] text[i]) by {
            assert(is_white_space((text + more)[i]));
        }
        assert forall|i: int| 0 <= i < more.len() implies is_white_space(#[trigger] more[i]) by {
            assert(is_white_space((text + more)[text.len() + i]));
        }
    }
}

/// Without a declaration ten mebibytes of a stream are retained, and a stream that has more
/// fails closed; no other policy counts as the default one.
pub proof fn law_default_capture_is_bounded(policy: CapturePolicy)
    ensures
        policy.spec_is_default() <==> policy == (CapturePolicy::Bounded {
            limit: 10_485_760,
            overflow: OverflowBehavior::FailClosed,
        }),
        DEFAULT_CAPTURE_LIMIT == 10_485_760,
{
}

/// Which of the parent's variables a policy lets through: a clean one none, an allowlist those
/// with the keys that it holds, full inheritance all.
pub proof fn law_policies_allow_what_they_name(policy: EnvironmentPolicy, key: Seq<u8>)
    ensures
        policy is Clean ==> !policy.allows(key),
        policy matches EnvironmentPolicy::Allowlist(keys) ==> (policy.allows(key)
            <==> keys@.contains_key(key)),
        policy is InheritAll ==> policy.allows(key),
{
}

/// What a deadline declaration answers, given whether the clock can represent the deadline.
pub open spec fn deadline_verdict(duration: Duration, representable: bool) -> Result<(), Error> {
    if duration.nanos() == MAX_NANOS || !representable {
        Err(Error::InvalidPolicy { violation: PolicyViolation::DeadlineOverflow(duration) })
    } else {
        Ok(())
    }
}

/// A deadline is refused only where it is the longest duration or lies beyond the clock, and
/// the refusal names it.
pub proof fn law_deadlines_are_refused_only_beyond_the_clock(duration: Duration, reachable: bool)
    ensures
        deadline_verdict(duration, reachable) is Ok <==> duration.nanos() != MAX_NANOS && reachable,
        deadline_verdict(duration, reachable) matches Err(error) ==> error == (
        Error::InvalidPolicy { violation: PolicyViolation::DeadlineOverflow(duration) }),
{
}

/// Judges a deadline, given whether the clock can represent it.
pub fn judge_deadline(duration: Duration, representable: bool) -> (verdict: Result<(), Error>)
    ensures
        verdict == deadline_verdict(duration, representable),
{
    if duration.as_nanos() == MAX_NANOS || !representable {
        return Err(
            Error::InvalidPolicy { violation: PolicyViolation::DeadlineOverflow(duration) },
        );
    }
    Ok(())
}

/// Judges a deadline that counts from now.
///
/// The longest duration is always refused and the empty one always accepted; the clock's
/// range decides on the others.
pub fn validate_deadline(duration: Duration) -> (verdict: Result<(), Error>)
    ensures
        verdict == deadline_verdict(duration, true) || verdict == deadline_verdict(duration, false),
        duration.nanos() == MAX_NANOS ==> verdict == deadline_verdict(duration, false),
        duration.nanos() == 0 ==> verdict is Ok,
        exists|now: std::time::Instant, reachable: bool|
            is_reading(now) && #[trigger] clock_answered(now, duration, reachable) && verdict
                == deadline_verdict(duration, reachable),
{
    let now = monotonic_now();
    let representable = representable_after(&now, duration);
    assert(is_reading(now) && clock_answered(now, duration, representable));
    judge_deadline(duration, representable)
}

} // verus!
