//! What commands and policies look like in a log: no value that an environment mutation sets
//! is ever shown.

use vstd::prelude::*;
#[allow(unused_imports)]
use vstd::utf8::{decode_utf8, valid_utf8};

use crate::capture::usize_to_u64;
use crate::command::{Command, Stdio, StreamingCommand};
use crate::environment::EnvOp;
use crate::policy::{
    CapturePolicy, Draft, EnvironmentPolicy, ExecutionPolicy, NonEmptyReason, OverflowBehavior,
    Ready,
};
use crate::text::{debug_duration_text, debug_str_text, decimal_text, from_utf8};
#[allow(unused_imports)]
use crate::text::{decimal_digits, duration_debug_text, is_longest_valid_prefix, str_debug_text};

verus! {

/// A text with its special characters escaped, as it stands between the quotes.
pub open spec fn escaped_text(text: Seq<char>) -> Seq<char> {
    str_debug_text(text).subrange(1, str_debug_text(text).len() - 1)
}

/// The length of the longest prefix of `bytes`, of at most `most` bytes, that is valid UTF-8.
pub open spec fn valid_prefix(bytes: Seq<u8>, most: int) -> int
    decreases most,
{
    if most <= 0 {
        0
    } else if valid_utf8(bytes.take(most)) {
        most
    } else {
        valid_prefix(bytes, most - 1)
    }
}

/// A hexadecimal digit in upper case.
pub open spec fn hex_digit(n: u8) -> char {
    if n < 10 {
        ('0' as u32 + n) as char
    } else {
        ('A' as u32 + (n - 10)) as char
    }
}

/// A byte string as it stands between the quotes: what is text is escaped as text, and each
/// other byte is shown by its hexadecimal code.
pub open spec fn escaped(bytes: Seq<u8>) -> Seq<char>
    decreases bytes.len(),
{
    let valid = valid_prefix(bytes, bytes.len() as int);
    if 0 <= valid < bytes.len() {
        escaped_text(decode_utf8(bytes.take(valid))) + "\\x"@ + seq![
            hex_digit((bytes[valid] / 16) as u8),
            hex_digit((bytes[valid] % 16) as u8),
        ] + escaped(bytes.skip(valid + 1))
    } else {
        escaped_text(decode_utf8(bytes))
    }
}

/// A byte string between quotes.
pub open spec fn quoted(bytes: Seq<u8>) -> Seq<char> {
    seq!['"'] + escaped(bytes) + seq!['"']
}

/// The items one after the other, with commas between them.
pub open spec fn separated(items: Seq<Seq<char>>) -> Seq<char>
    decreases items.len(),
{
    if items.len() == 0 {
        Seq::empty()
    } else if items.len() == 1 {
        items[0]
    } else {
        separated(items.drop_last()) + ", "@ + items.last()
    }
}

proof fn lemma_valid_prefix(bytes: Seq<u8>, most: int, index: int)
    requires
        is_longest_valid_prefix(bytes, index),
        index <= most <= bytes.len(),
    ensures
        valid_prefix(bytes, most) == index,
    decreases most,
{
    if index < most {
        assert(!valid_utf8(bytes.take(most)));
        lemma_valid_prefix(bytes, most - 1, index);
    } else if most > 0 {
        assert(valid_utf8(bytes.take(most)));
    }
}

/// Lists are shown item by item, in order, with a comma and a blank between two.
pub proof fn law_lists_are_shown_item_by_item(items: Seq<Seq<char>>, item: Seq<char>)
    ensures
        separated(Seq::empty()) == Seq::<char>::empty(),
        separated(items.push(item)) == if items.len() == 0 {
            item
        } else {
            separated(items) + ", "@ + item
        },
{
    assert(items.push(item).drop_last() =~= items);
}

/// A byte string is shown between quotes: as its text where it is UTF-8; otherwise the text
/// before its first byte that is none, that byte as two hexadecimal digits, and what is behind
/// it in the same way.
pub proof fn law_bytes_are_shown_as_text_or_in_hexadecimal(bytes: Seq<u8>, index: int)
    requires
        0 <= index <= bytes.len(),
        valid_utf8(bytes.take(index)),
        forall|longer: int|
            index < longer <= bytes.len() ==> !valid_utf8(#[trigger] bytes.take(longer)),
    ensures
        quoted(bytes) == seq!['"'] + escaped(bytes) + seq!['"'],
        index == bytes.len() ==> ({
            let text = str_debug_text(decode_utf8(bytes));
            escaped(bytes) == text.subrange(1, text.len() - 1)
        }),
        index < bytes.len() ==> escaped(bytes) == ({
            let text = str_debug_text(decode_utf8(bytes.take(index)));
            text.subrange(1, text.len() - 1)
        }) + "\\x"@ + seq![
            "0123456789ABCDEF"@[bytes[index] as int / 16],
            "0123456789ABCDEF"@[bytes[index] as int % 16],
        ] + escaped(bytes.skip(index + 1)),
{
    reveal_strlit("0123456789ABCDEF");
    lemma_valid_prefix(bytes, bytes.len() as int, index);
}

proof fn lemma_separated(items: Seq<Seq<char>>, i: int)
    requires
        0 <= i < items.len(),
    ensures
        separated(items.take(i + 1)) == if i == 0 {
            items[i]
        } else {
            separated(items.take(i)) + ", "@ + items[i]
        },
{
    assert(items.take(i + 1).drop_last() =~= items.take(i));
}

/// Appends the item with the number `i`.
fn add_item(list: &mut String, i: usize, item: &str)
    ensures
        final(list)@ == if i == 0 {
            old(list)@ + item@
        } else {
            old(list)@ + ", "@ + item@
        },
{
    if i > 0 {
        list.append(", ");
    }
    list.append(item);
}

fn empty_text() -> (text: String)
    ensures
        text@ == Seq::<char>::empty(),
{
    proof {
        reveal_strlit("");
    }
    let text = "".to_owned();
    assert(text@ =~= Seq::<char>::empty());
    text
}

fn escape_text(text: &str) -> (escaped: String)
    ensures
        escaped@ == escaped_text(text@),
{
    let quoted = debug_str_text(text);
    let length: usize = quoted.as_str().unicode_len();
    quoted.as_str().substring_char(1, length - 1).to_owned()
}

fn hex_text(n: u8) -> (text: &'static str)
    requires
        n < 16,
    ensures
        text@ == seq![hex_digit(n)],
{
    proof {
        reveal_strlit("0");
        reveal_strlit("1");
        reveal_strlit("2");
        reveal_strlit("3");
        reveal_strlit("4");
        reveal_strlit("5");
        reveal_strlit("6");
        reveal_strlit("7");
        reveal_strlit("8");
        reveal_strlit("9");
        reveal_strlit("A");
        reveal_strlit("B");
        reveal_strlit("C");
        reveal_strlit("D");
        reveal_strlit("E");
        reveal_strlit("F");
    }
    let text = match n {
        0 => "0",
        1 => "1",
        2 => "2",
        3 => "3",
        4 => "4",
        5 => "5",
        6 => "6",
        7 => "7",
        8 => "8",
        9 => "9",
        10 => "A",
        11 => "B",
        12 => "C",
        13 => "D",
        14 => "E",
        _ => "F",
    };
    assert(text@ =~= seq![hex_digit(n)]);
    text
}

/// Shows a byte string as it stands between the quotes.
fn escape(bytes: &[u8]) -> (text: String)
    ensures
        text@ == escaped(bytes@),
{
    let mut text = empty_text();
    let mut rest: &[u8] = bytes;
    assert(text@ + escaped(rest@) =~= escaped(bytes@));
    loop
        invariant
            text@ + escaped(rest@) == escaped(bytes@),
        decreases rest@.len(),
    {
        match from_utf8(rest) {
            Ok(valid) => {
                proof {
                    assert(rest@.take(rest@.len() as int) =~= rest@);
                    lemma_valid_prefix(rest@, rest@.len() as int, rest@.len() as int);
                }
                text.append(escape_text(valid).as_str());
                return text;
            },
            Err((valid_up_to, _)) => {
                proof {
                    assert(rest@.take(rest@.len() as int) =~= rest@);
                    lemma_valid_prefix(rest@, rest@.len() as int, valid_up_to as int);
                }
                let ghost before = text@;
                let ghost shown = rest@;
                let (valid, tail) = rest.split_at(valid_up_to);
                assert(valid@ =~= shown.take(valid_up_to as int));
                if let Ok(valid) = from_utf8(valid) {
                    text.append(escape_text(valid).as_str());
                }
                let byte: u8 = tail[0];
                text.append("\\x");
                text.append(hex_text(byte / 16));
                text.append(hex_text(byte % 16));
                let (_, next) = tail.split_at(1);
                assert(next@ =~= shown.skip(valid_up_to + 1));
                rest = next;
                assert(text@ + escaped(rest@) =~= before + escaped(shown));
            },
        }
    }
}

/// Shows a byte string between quotes.
pub fn quote(bytes: &[u8]) -> (text: String)
    ensures
        text@ == quoted(bytes@),
{
    proof {
        reveal_strlit("\"");
    }
    let text = "\"".to_owned().concat(escape(bytes).as_str()).concat("\"");
    assert(text@ =~= quoted(bytes@));
    text
}

fn quote_all(names: &Vec<Vec<u8>>) -> (text: String)
    ensures
        text@ == separated(names@.map_values(|name: Vec<u8>| quoted(name@))),
{
    let ghost items = names@.map_values(|name: Vec<u8>| quoted(name@));
    let mut text = empty_text();
    let mut i: usize = 0;
    while i < names.len()
        invariant
            i <= names@.len(),
            items == names@.map_values(|name: Vec<u8>| quoted(name@)),
            text@ == separated(items.take(i as int)),
        decreases names@.len() - i,
    {
        let item = quote(names[i].as_slice());
        proof {
            lemma_separated(items, i as int);
        }
        add_item(&mut text, i, item.as_str());
        assert(text@ =~= separated(items.take(i + 1)));
        i = i + 1;
    }
    assert(items.take(i as int) =~= items);
    text
}

/// A reason, as logs show it.
pub open spec fn reason_shown(reason: Seq<char>) -> Seq<char> {
    "NonEmptyReason("@ + str_debug_text(reason) + ")"@
}

fn show_reason(reason: &NonEmptyReason) -> (text: String)
    ensures
        text@ == reason_shown(reason@),
{
    "NonEmptyReason(".to_owned().concat(debug_str_text(reason.as_str()).as_str()).concat(")")
}

impl ExecutionPolicy {
    /// The policy, as logs show it.
    pub open spec fn shown(self) -> Seq<char> {
        match self {
            ExecutionPolicy::Deadline(duration) => "Deadline("@ + duration_debug_text(
                duration.nanos(),
            ) + ")"@,
            ExecutionPolicy::Unbounded(reason) => "Unbounded("@ + reason_shown(reason@) + ")"@,
        }
    }

    /// Shows the policy.
    #[must_use]
    pub fn debug_text(&self) -> (text: String)
        ensures
            text@ == self.shown(),
    {
        match self {
            ExecutionPolicy::Deadline(duration) => "Deadline(".to_owned().concat(
                debug_duration_text(*duration).as_str(),
            ).concat(")"),
            ExecutionPolicy::Unbounded(reason) => "Unbounded(".to_owned().concat(
                show_reason(reason).as_str(),
            ).concat(")"),
        }
    }
}

impl CapturePolicy {
    /// The policy, as logs show it.
    pub open spec fn shown(self) -> Seq<char> {
        match self {
            CapturePolicy::Bounded { limit, overflow } => "Bounded { limit: "@ + decimal_digits(
                limit as nat,
            ) + match overflow {
                OverflowBehavior::FailClosed => ", overflow: FailClosed }"@,
                OverflowBehavior::TruncateAndDrain => ", overflow: TruncateAndDrain }"@,
            },
            CapturePolicy::Unbounded(reason) => "Unbounded("@ + reason_shown(reason@) + ")"@,
        }
    }

    /// Shows the policy.
    #[must_use]
    pub fn debug_text(&self) -> (text: String)
        ensures
            text@ == self.shown(),
    {
        match self {
            CapturePolicy::Bounded { limit, overflow } => {
                let text = "Bounded { limit: ".to_owned().concat(
                    decimal_text(usize_to_u64(*limit)).as_str(),
                );
                match overflow {
                    OverflowBehavior::FailClosed => text.concat(", overflow: FailClosed }"),
                    OverflowBehavior::TruncateAndDrain => text.concat(
                        ", overflow: TruncateAndDrain }",
                    ),
                }
            },
            CapturePolicy::Unbounded(reason) => "Unbounded(".to_owned().concat(
                show_reason(reason).as_str(),
            ).concat(")"),
        }
    }
}

impl EnvironmentPolicy {
    /// The policy, as logs show it; the keys of an allowlist stand in order.
    pub open spec fn shown(self) -> Seq<char> {
        match self {
            EnvironmentPolicy::Clean => "Clean"@,
            EnvironmentPolicy::Allowlist(keys) => "Allowlist({"@ + separated(
                keys.in_key_order().map_values(|entry: (Vec<u8>, ())| quoted(entry.0@)),
            ) + "})"@,
            EnvironmentPolicy::InheritAll(reason) => "InheritAll("@ + reason_shown(reason@) + ")"@,
        }
    }

    /// Shows the policy.
    #[must_use]
    pub fn debug_text(&self) -> (text: String)
        ensures
            text@ == self.shown(),
    {
        match self {
            EnvironmentPolicy::Clean => "Clean".to_owned(),
            EnvironmentPolicy::Allowlist(keys) => {
                let entries = keys.entries();
                let ghost items = entries@.map_values(|entry: (Vec<u8>, ())| quoted(entry.0@));
                let mut list = empty_text();
                let mut i: usize = 0;
                while i < entries.len()
                    invariant
                        i <= entries@.len(),
                        items == entries@.map_values(|entry: (Vec<u8>, ())| quoted(entry.0@)),
                        list@ == separated(items.take(i as int)),
                    decreases entries@.len() - i,
                {
                    let item = quote(entries[i].0.as_slice());
                    proof {
                        lemma_separated(items, i as int);
                    }
                    add_item(&mut list, i, item.as_str());
                    assert(list@ =~= separated(items.take(i + 1)));
                    i = i + 1;
                }
                assert(items.take(i as int) =~= items);
                "Allowlist({".to_owned().concat(list.as_str()).concat("})")
            },
            EnvironmentPolicy::InheritAll(reason) => "InheritAll(".to_owned().concat(
                show_reason(reason).as_str(),
            ).concat(")"),
        }
    }
}

impl EnvOp {
    /// The mutation, as logs show it: the key, but not the value that it is given.
    pub open spec fn shown(self) -> Seq<char> {
        match self {
            EnvOp::Assign(key, _) => "Set("@ + quoted(key@) + ", \"<redacted>\")"@,
            EnvOp::Remove(key) => "Remove("@ + quoted(key@) + ")"@,
        }
    }

    /// Shows the mutation without the value that it sets.
    #[must_use]
    pub fn debug_text(&self) -> (text: String)
        ensures
            text@ == self.shown(),
    {
        match self {
            EnvOp::Assign(key, _) => "Set(".to_owned().concat(
                quote(key.as_slice()).as_str(),
            ).concat(", \"<redacted>\")"),
            EnvOp::Remove(key) => "Remove(".to_owned().concat(
                quote(key.as_slice()).as_str(),
            ).concat(")"),
        }
    }
}

fn show_operations(ops: &Vec<EnvOp>) -> (text: String)
    ensures
        text@ == separated(ops@.map_values(|op: EnvOp| op.shown())),
{
    let ghost items = ops@.map_values(|op: EnvOp| op.shown());
    let mut text = empty_text();
    let mut i: usize = 0;
    while i < ops.len()
        invariant
            i <= ops@.len(),
            items == ops@.map_values(|op: EnvOp| op.shown()),
            text@ == separated(items.take(i as int)),
        decreases ops@.len() - i,
    {
        let item = ops[i].debug_text();
        proof {
            lemma_separated(items, i as int);
        }
        add_item(&mut text, i, item.as_str());
        assert(text@ =~= separated(items.take(i + 1)));
        i = i + 1;
    }
    assert(items.take(i as int) =~= items);
    text
}

/// A directory, as logs show it.
pub open spec fn directory_shown(directory: Option<Vec<u8>>) -> Seq<char> {
    match directory {
        Some(path) => "Some("@ + quoted(path@) + ")"@,
        None => "None"@,
    }
}

fn show_directory(directory: &Option<Vec<u8>>) -> (text: String)
    ensures
        text@ == directory_shown(*directory),
{
    match directory {
        Some(path) => "Some(".to_owned().concat(quote(path.as_slice()).as_str()).concat(")"),
        None => "None".to_owned(),
    }
}

/// A stream's configuration, as logs show it: whether there is one.
pub open spec fn stream_shown(stream: Option<Stdio>) -> Seq<char> {
    match stream {
        Some(_) => "Some(\"configured\")"@,
        None => "None"@,
    }
}

fn show_stream(stream: Option<Stdio>) -> (text: &'static str)
    ensures
        text@ == stream_shown(stream),
{
    match stream {
        Some(_) => "Some(\"configured\")",
        None => "None",
    }
}

impl<State> Command<State> {
    /// The command, as logs show it, with the given text for its lifecycle declaration.
    pub open spec fn shown_with(self, state: Seq<char>) -> Seq<char> {
        "Command { program: "@ + quoted(self.program@) + ", args: ["@ + separated(
            self.args@.map_values(|arg: Vec<u8>| quoted(arg@)),
        ) + "], environment: "@ + self.environment.shown() + ", env_ops: ["@ + separated(
            self.env_ops@.map_values(|op: EnvOp| op.shown()),
        ) + "], cwd: "@ + directory_shown(self.cwd) + ", stdin: "@ + stream_shown(self.stdin)
            + ", stdout: "@ + stream_shown(self.stdout) + ", stderr: "@ + stream_shown(self.stderr)
            + ", stdout_capture: "@ + self.stdout_capture.shown() + ", stderr_capture: "@
            + self.stderr_capture.shown() + ", state: "@ + state + " }"@
    }

    fn show_with(&self, state: &str) -> (text: String)
        ensures
            text@ == self.shown_with(state@),
    {
        "Command { program: ".to_owned().concat(quote(self.program.as_slice()).as_str()).concat(
            ", args: [",
        ).concat(quote_all(&self.args).as_str()).concat("], environment: ").concat(
            self.environment.debug_text().as_str(),
        ).concat(", env_ops: [").concat(show_operations(&self.env_ops).as_str()).concat(
            "], cwd: ",
        ).concat(show_directory(&self.cwd).as_str()).concat(", stdin: ").concat(
            show_stream(self.stdin),
        ).concat(", stdout: ").concat(show_stream(self.stdout)).concat(", stderr: ").concat(
            show_stream(self.stderr),
        ).concat(", stdout_capture: ").concat(self.stdout_capture.debug_text().as_str()).concat(
            ", stderr_capture: ",
        ).concat(self.stderr_capture.debug_text().as_str()).concat(", state: ").concat(
            state,
        ).concat(" }")
    }
}

impl Command<Draft> {
    /// The command, as logs show it.
    pub open spec fn shown(self) -> Seq<char> {
        self.shown_with("Draft"@)
    }

    /// Shows the command without the values that its environment mutations set.
    #[must_use]
    pub fn debug_text(&self) -> (text: String)
        ensures
            text@ == self.shown(),
    {
        self.show_with("Draft")
    }
}

impl Command<Ready> {
    /// The command, as logs show it.
    pub open spec fn shown(self) -> Seq<char> {
        self.shown_with("Ready { execution: "@ + self.state.policy().shown() + " }"@)
    }

    /// Shows the command without the values that its environment mutations set.
    #[must_use]
    pub fn debug_text(&self) -> (text: String)
        ensures
            text@ == self.shown(),
    {
        let state = "Ready { execution: ".to_owned().concat(
            self.execution_policy().debug_text().as_str(),
        ).concat(" }");
        self.show_with(state.as_str())
    }
}

impl StreamingCommand {
    /// The command, as logs show it.
    pub open spec fn shown(self) -> Seq<char> {
        "StreamingCommand("@ + self.spec_command().shown() + ")"@
    }

    /// Shows the command without the values that its environment mutations set.
    #[must_use]
    pub fn debug_text(&self) -> (text: String)
        ensures
            text@ == self.shown(),
    {
        "StreamingCommand(".to_owned().concat(self.command().debug_text().as_str()).concat(")")
    }
}

/// Whether two environment mutations differ in nothing but the value that they set.
pub open spec fn same_but_value(left: EnvOp, right: EnvOp) -> bool {
    match (left, right) {
        (EnvOp::Assign(a, _), EnvOp::Assign(b, _)) => a@ == b@,
        (EnvOp::Remove(a), EnvOp::Remove(b)) => a@ == b@,
        _ => false,
    }
}

/// Whether two commands differ in nothing but the values that their environment mutations
/// set.
pub open spec fn same_but_values<State>(left: Command<State>, right: Command<State>) -> bool {
    &&& left.env_ops@.len() == right.env_ops@.len()
    &&& forall|i: int|
        0 <= i < left.env_ops@.len() ==> #[trigger] same_but_value(
            left.env_ops@[i],
            right.env_ops@[i],
        )
    &&& left == (Command { env_ops: left.env_ops, ..right })
}

/// A command shows everything that it says but the values that its environment mutations set:
/// the program, every argument, the policy, the key of every mutation and whether it sets or
/// removes it, the directory, which streams were configured, and both capture policies.
pub proof fn law_commands_show_what_they_say<State>(command: Command<State>, state: Seq<char>)
    ensures
        command.shown_with(state) == "Command { program: "@ + quoted(command.program@)
            + ", args: ["@ + separated(command.args@.map_values(|arg: Vec<u8>| quoted(arg@)))
            + "], environment: "@ + command.environment.shown() + ", env_ops: ["@ + separated(
            command.env_ops@.map_values(
                |op: EnvOp|
                    match op {
                        EnvOp::Assign(key, _) => "Set("@ + quoted(key@) + ", \"<redacted>\")"@,
                        EnvOp::Remove(key) => "Remove("@ + quoted(key@) + ")"@,
                    },
            ),
        ) + "], cwd: "@ + (match command.cwd {
            Some(path) => "Some("@ + quoted(path@) + ")"@,
            None => "None"@,
        }) + ", stdin: "@ + (if command.stdin is Some {
            "Some(\"configured\")"@
        } else {
            "None"@
        }) + ", stdout: "@ + (if command.stdout is Some {
            "Some(\"configured\")"@
        } else {
            "None"@
        }) + ", stderr: "@ + (if command.stderr is Some {
            "Some(\"configured\")"@
        } else {
            "None"@
        }) + ", stdout_capture: "@ + command.stdout_capture.shown() + ", stderr_capture: "@
            + command.stderr_capture.shown() + ", state: "@ + state + " }"@,
{
    assert(command.env_ops@.map_values(|op: EnvOp| op.shown()) =~= command.env_ops@.map_values(
        |op: EnvOp|
            match op {
                EnvOp::Assign(key, _) => "Set("@ + quoted(key@) + ", \"<redacted>\")"@,
                EnvOp::Remove(key) => "Remove("@ + quoted(key@) + ")"@,
            },
    ));
}

/// A policy shows its kind with all that it declares.
pub proof fn law_policies_show_what_they_declare(
    execution: ExecutionPolicy,
    capture: CapturePolicy,
    environment: EnvironmentPolicy,
)
    ensures
        execution matches ExecutionPolicy::Deadline(duration) ==> execution.shown() == "Deadline("@
            + duration_debug_text(duration.nanos()) + ")"@,
        execution matches ExecutionPolicy::Unbounded(reason) ==> execution.shown() == "Unbounded("@
            + ("NonEmptyReason("@ + str_debug_text(reason@) + ")"@) + ")"@,
        capture matches CapturePolicy::Bounded { limit, overflow } ==> capture.shown()
            == "Bounded { limit: "@ + decimal_digits(limit as nat) + (if overflow
            == OverflowBehavior::FailClosed {
            ", overflow: FailClosed }"@
        } else {
            ", overflow: TruncateAndDrain }"@
        }),
        capture matches CapturePolicy::Unbounded(reason) ==> capture.shown() == "Unbounded("@ + (
        "NonEmptyReason("@ + str_debug_text(reason@) + ")"@) + ")"@,
        environment is Clean ==> environment.shown() == "Clean"@,
        environment matches EnvironmentPolicy::InheritAll(reason) ==> environment.shown()
            == "InheritAll("@ + ("NonEmptyReason("@ + str_debug_text(reason@) + ")"@) + ")"@,
        environment matches EnvironmentPolicy::Allowlist(keys) ==> environment.shown()
            == "Allowlist({"@ + separated(
            keys.in_key_order().map_values(|entry: (Vec<u8>, ())| quoted(entry.0@)),
        ) + "})"@,
{
}

/// No environment value shows in a log: commands that differ in nothing but those values look
/// the same.
pub proof fn law_environment_values_are_redacted<State>(
    left: Command<State>,
    right: Command<State>,
    state: Seq<char>,
)
    requires
        same_but_values(left, right),
    ensures
        left.shown_with(state) == right.shown_with(state),
{
    let left_items = left.env_ops@.map_values(|op: EnvOp| op.shown());
    let right_items = right.env_ops@.map_values(|op: EnvOp| op.shown());
    assert forall|i: int| 0 <= i < left_items.len() implies left_items[i] == right_items[i] by {
        assert(same_but_value(left.env_ops@[i], right.env_ops@[i]));
    }
    assert(left_items =~= right_items);
}

} // verus!
