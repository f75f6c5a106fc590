//! Typestate command builder, and what a backend spawns for a command.

use vstd::prelude::*;

use crate::bytes::{copy_bytes, same_bytes, ByteMap};
#[allow(unused_imports)]
use crate::bytes::{ascending, listed};
#[allow(unused_imports)]
use crate::description::{
    described_ops, string_pairs, strings, BuilderCall, Declaration, EnvironmentChoice,
};
use crate::environment::{child_environment, effective_operations, lookup, EnvOp, Variable};
#[allow(unused_imports)]
use crate::environment::{
    base, child, effective, law_policy_exposes_only_what_it_allows, optional_values, replayed,
    values,
};
use crate::error::{Capability, Error};
use crate::output::StreamName;
use crate::path::{count_components, rooted};
#[allow(unused_imports)]
use crate::path::{
    behind_a_separator, component_count, is_rooted,
    law_several_components_need_a_named_piece_behind_a_separator, names_something,
};
use crate::policy::{
    judge_deadline, validate_deadline, CapturePolicy, Draft, EnvironmentPolicy, ExecutionPolicy,
    NonEmptyReason, PolicyViolation, Ready,
};
#[allow(unused_imports)]
use crate::policy::{deadline_verdict, is_blank};
use crate::text::from_utf8_lossy;
#[allow(unused_imports)]
use crate::text::lossy_text;
use crate::time::Duration;
#[allow(unused_imports)]
use crate::time::{clock_answered, is_reading, MAX_NANOS};

verus! {

/// What one of the child's standard streams is connected to.
#[derive(Clone, Copy, Debug, PartialEq, Eq, Structural)]
pub enum Stdio {
    /// The parent's stream of the same name.
    Inherit,
    /// The null device.
    Null,
    /// A pipe to the supervisor or, in managed streaming, to the caller.
    Piped,
    /// A handle of the caller's, by the number under which the caller keeps it.
    Handle(u32),
}

/// Builder describing one owned subprocess invocation.
///
/// `Command` is intentionally not `Clone`. A newly constructed `Command<Draft>` cannot be
/// passed to a runner; declaring a bounded deadline or an intentional unbounded reason
/// produces `Command<Ready>`.
pub struct Command<State = Draft> {
    /// Program path.
    pub program: Vec<u8>,
    /// Positional arguments.
    pub args: Vec<Vec<u8>>,
    /// Base environment policy.
    pub environment: EnvironmentPolicy,
    /// Environment mutations in call order.
    pub env_ops: Vec<EnvOp>,
    /// Child working directory.
    pub cwd: Option<Vec<u8>>,
    /// Standard input, where it was configured.
    pub stdin: Option<Stdio>,
    /// Standard output, where it was configured.
    pub stdout: Option<Stdio>,
    /// Standard error, where it was configured.
    pub stderr: Option<Stdio>,
    /// Stdout capture policy.
    pub stdout_capture: CapturePolicy,
    /// Stderr capture policy.
    pub stderr_capture: CapturePolicy,
    /// Lifecycle declaration.
    pub state: State,
}

impl Command<Draft> {
    /// Starts a non-runnable command with a clean environment and bounded capture.
    #[must_use]
    pub fn new(program: Vec<u8>) -> (command: Self)
        ensures
            command.program == program,
            command.args@ == Seq::<Vec<u8>>::empty(),
            command.environment == EnvironmentPolicy::Clean,
            command.env_ops@ == Seq::<EnvOp>::empty(),
            command.cwd is None,
            command.stdin is None,
            command.stdout is None,
            command.stderr is None,
            command.stdout_capture.spec_is_default(),
            command.stderr_capture.spec_is_default(),
    {
        Command {
            program,
            args: Vec::new(),
            environment: EnvironmentPolicy::default(),
            env_ops: Vec::new(),
            cwd: None,
            stdin: None,
            stdout: None,
            stderr: None,
            stdout_capture: CapturePolicy::default(),
            stderr_capture: CapturePolicy::default(),
            state: Draft,
        }
    }

    /// Declares a bounded wall-clock lifetime and makes the command runnable.
    ///
    /// The longest duration is always refused and the empty one always accepted; the clock's
    /// range decides on the others.
    pub fn deadline(self, duration: Duration) -> (result: Result<Command<Ready>, Error>)
        ensures
            duration.nanos() == MAX_NANOS ==> result is Err,
            duration.nanos() == 0 ==> result is Ok,
            exists|now: std::time::Instant, reachable: bool|
                is_reading(now) && #[trigger] clock_answered(now, duration, reachable) && (result
                    is Ok <==> duration.nanos() != MAX_NANOS && reachable),
            match result {
                Ok(command) => command.declared_from(self, Declaration::Deadline(duration)),
                Err(error) => Err::<(), Error>(error) == deadline_verdict(duration, false),
            },
    {
        let accepted = validate_deadline(duration).is_ok();
        self.declare_deadline(duration, accepted)
    }

    /// Declares a bounded lifetime, given whether the clock can represent its end.
    pub fn declare_deadline(self, duration: Duration, representable: bool) -> (result: Result<
        Command<Ready>,
        Error,
    >)
        ensures
            match deadline_verdict(duration, representable) {
                Ok(_) => result matches Ok(command) && command.declared_from(
                    self,
                    Declaration::Deadline(duration),
                ),
                Err(error) => result == Err::<Command<Ready>, Error>(error),
            },
    {
        match judge_deadline(duration, representable) {
            Ok(_) => Ok(self.into_state(Ready::new(ExecutionPolicy::Deadline(duration)))),
            Err(error) => Err(error),
        }
    }

    /// Intentionally permits an unbounded lifetime for a non-empty reason.
    pub fn unbounded(self, reason: String) -> (result: Result<Command<Ready>, Error>)
        ensures
            is_blank(reason@) ==> result == Err::<Command<Ready>, Error>(
                Error::InvalidPolicy { violation: PolicyViolation::EmptyReason },
            ),
            !is_blank(reason@) ==> (result matches Ok(command) && command.declared_from(
                self,
                Declaration::Unbounded(reason@),
            )),
    {
        match NonEmptyReason::new(reason) {
            Ok(retained) => Ok(self.into_state(Ready::new(ExecutionPolicy::Unbounded(retained)))),
            Err(error) => Err(error),
        }
    }
}

impl<State> Command<State> {
    /// Whether two commands agree in all but their lifecycle declaration.
    pub open spec fn same_but_state<Other>(self, other: Command<Other>) -> bool {
        &&& self.program == other.program
        &&& self.args == other.args
        &&& self.environment == other.environment
        &&& self.env_ops == other.env_ops
        &&& self.cwd == other.cwd
        &&& self.stdin == other.stdin
        &&& self.stdout == other.stdout
        &&& self.stderr == other.stderr
        &&& self.stdout_capture == other.stdout_capture
        &&& self.stderr_capture == other.stderr_capture
    }

    fn into_state<Next>(self, state: Next) -> (command: Command<Next>)
        ensures
            command.same_but_state(self),
            command.state == state,
    {
        Command {
            program: self.program,
            args: self.args,
            environment: self.environment,
            env_ops: self.env_ops,
            cwd: self.cwd,
            stdin: self.stdin,
            stdout: self.stdout,
            stderr: self.stderr,
            stdout_capture: self.stdout_capture,
            stderr_capture: self.stderr_capture,
            state,
        }
    }

    /// Appends one positional argument.
    #[must_use]
    pub fn arg(self, arg: Vec<u8>) -> (command: Self)
        ensures
            command.args@ == self.args@.push(arg),
            command == (Command { args: command.args, ..self }),
            command.built_from(self, BuilderCall::Arg(arg@)),
    {
        let mut args = self.args;
        args.push(arg);
        assert(strings(args@) =~= strings(self.args@).push(arg@));
        Command { args, ..self }
    }

    /// Appends positional arguments.
    #[must_use]
    pub fn args(self, more: Vec<Vec<u8>>) -> (command: Self)
        ensures
            command.args@ == self.args@ + more@,
            command == (Command { args: command.args, ..self }),
            command.built_from(self, BuilderCall::Args(strings(more@))),
    {
        let mut args = self.args;
        let ghost appended = more@;
        let mut more = more;
        args.append(&mut more);
        assert(strings(args@) =~= strings(self.args@) + strings(appended));
        Command { args, ..self }
    }

    /// Replaces the base environment policy.
    #[must_use]
    pub fn environment(self, policy: EnvironmentPolicy) -> (command: Self)
        ensures
            command == (Command { environment: policy, ..self }),
            command.built_from(self, BuilderCall::Environment(policy.choice())),
    {
        Command { environment: policy, ..self }
    }

    /// Uses a clean base environment.
    #[must_use]
    pub fn clean_environment(self) -> (command: Self)
        ensures
            command == (Command { environment: EnvironmentPolicy::Clean, ..self }),
            command.built_from(self, BuilderCall::Environment(EnvironmentChoice::Clean)),
    {
        self.environment(EnvironmentPolicy::Clean)
    }

    /// Copies only the named keys from the parent environment.
    #[must_use]
    pub fn allow_environment(self, keys: &Vec<Vec<u8>>) -> (command: Self)
        ensures
            command == (Command { environment: command.environment, ..self }),
            command.environment is Allowlist,
            forall|key: Seq<u8>| #[trigger]
                command.environment.allows(key) <==> exists|i: int|
                    0 <= i < keys@.len() && #[trigger] keys@[i]@ == key,
            command.built_from(
                self,
                BuilderCall::Environment(EnvironmentChoice::Allowlist(strings(keys@).to_set())),
            ),
    {
        let policy = EnvironmentPolicy::allowlist(keys);
        assert(policy.choice() =~= EnvironmentChoice::Allowlist(strings(keys@).to_set())) by {
            let listed = policy->Allowlist_0@.dom();
            let given = strings(keys@);
            assert forall|key: Seq<u8>| listed.contains(key) == #[trigger] given.contains(key) by {
                if listed.contains(key) {
                    let i = choose|i: int| 0 <= i < keys@.len() && #[trigger] keys@[i]@ == key;
                    assert(given[i] == key);
                }
                if given.contains(key) {
                    let i = choose|i: int| 0 <= i < given.len() && given[i] == key;
                    assert(keys@[i]@ == key);
                    assert(policy->Allowlist_0@.contains_key(key));
                }
            }
            assert(listed =~= given.to_set());
        }
        self.environment(policy)
    }

    /// Inherits the full parent environment for an explicit non-empty reason.
    pub fn inherit_environment(self, reason: String) -> (result: Result<Self, Error>)
        ensures
            is_blank(reason@) ==> result == Err::<Self, Error>(
                Error::InvalidPolicy { violation: PolicyViolation::EmptyReason },
            ),
            !is_blank(reason@) ==> (result matches Ok(command) && command == (Command {
                environment: command.environment,
                ..self
            }) && (command.environment matches EnvironmentPolicy::InheritAll(retained) && retained@
                == reason@) && command.built_from(
                self,
                BuilderCall::Environment(EnvironmentChoice::InheritAll(reason@)),
            )),
    {
        match EnvironmentPolicy::inherit_all(reason) {
            Ok(policy) => Ok(self.environment(policy)),
            Err(error) => Err(error),
        }
    }

    /// Sets an environment key after applying the base policy.
    #[must_use]
    pub fn env(self, key: Vec<u8>, value: Vec<u8>) -> (command: Self)
        ensures
            command.env_ops@ == self.env_ops@.push(EnvOp::Assign(key, value)),
            command == (Command { env_ops: command.env_ops, ..self }),
            command.built_from(self, BuilderCall::Env(key@, value@)),
    {
        let mut env_ops = self.env_ops;
        env_ops.push(EnvOp::Assign(key, value));
        assert(described_ops(env_ops@) =~= described_ops(self.env_ops@).push(
            (key@, Some(value@)),
        ));
        Command { env_ops, ..self }
    }

    /// Removes an environment key after applying the base policy.
    #[must_use]
    pub fn env_remove(self, key: Vec<u8>) -> (command: Self)
        ensures
            command.env_ops@ == self.env_ops@.push(EnvOp::Remove(key)),
            command == (Command { env_ops: command.env_ops, ..self }),
            command.built_from(self, BuilderCall::EnvRemove(key@)),
    {
        let mut env_ops = self.env_ops;
        env_ops.push(EnvOp::Remove(key));
        assert(described_ops(env_ops@) =~= described_ops(self.env_ops@).push((key@, None)));
        Command { env_ops, ..self }
    }

    /// Sets several environment keys in order.
    #[must_use]
    pub fn envs(self, vars: Vec<Variable>) -> (command: Self)
        ensures
            command.env_ops@ == self.env_ops@ + vars@.map_values(
                |variable: Variable| EnvOp::Assign(variable.0, variable.1),
            ),
            command == (Command { env_ops: command.env_ops, ..self }),
            command.built_from(self, BuilderCall::Envs(string_pairs(vars@))),
    {
        let ghost assign = |variable: Variable| EnvOp::Assign(variable.0, variable.1);
        let ghost held = self.env_ops@;
        let mut env_ops = self.env_ops;
        let mut rest = vars;
        let ghost mut done = 0int;
        assert(vars@.skip(0) =~= vars@);
        assert(env_ops@ =~= held + vars@.take(0).map_values(assign));
        while rest.len() > 0
            invariant
                0 <= done <= vars@.len(),
                rest@ == vars@.skip(done),
                assign == (|variable: Variable| EnvOp::Assign(variable.0, variable.1)),
                env_ops@ == held + vars@.take(done).map_values(assign),
            decreases rest@.len(),
        {
            let (key, value) = rest.remove(0);
            env_ops.push(EnvOp::Assign(key, value));
            proof {
                assert(vars@.skip(done).remove(0) =~= vars@.skip(done + 1));
                assert(vars@.take(done + 1) =~= vars@.take(done).push(vars@[done]));
                assert(vars@.take(done + 1).map_values(assign) =~= vars@.take(done).map_values(
                    assign,
                ).push(EnvOp::Assign(key, value)));
                done = done + 1;
            }
            assert(env_ops@ =~= held + vars@.take(done).map_values(assign));
        }
        assert(vars@.take(done) =~= vars@);
        assert(described_ops(env_ops@) =~= described_ops(held) + string_pairs(vars@).map_values(
            |variable: (Seq<u8>, Seq<u8>)| (variable.0, Some(variable.1)),
        ));
        Command { env_ops, ..self }
    }

    /// Sets the child working directory.
    #[must_use]
    pub fn cwd(self, directory: Vec<u8>) -> (command: Self)
        ensures
            command == (Command { cwd: Some(directory), ..self }),
            command.built_from(self, BuilderCall::Cwd(directory@)),
    {
        Command { cwd: Some(directory), ..self }
    }

    /// Alias for [`Command::cwd`].
    #[must_use]
    pub fn current_dir(self, directory: Vec<u8>) -> (command: Self)
        ensures
            command == (Command { cwd: Some(directory), ..self }),
            command.built_from(self, BuilderCall::Cwd(directory@)),
    {
        self.cwd(directory)
    }

    /// Configures standard input.
    #[must_use]
    pub fn stdin(self, stdin: Stdio) -> (command: Self)
        ensures
            command == (Command { stdin: Some(stdin), ..self }),
            command.built_from(self, BuilderCall::Stdin(stdin)),
    {
        Command { stdin: Some(stdin), ..self }
    }

    /// Redirects or explicitly pipes standard output.
    #[must_use]
    pub fn stdout(self, stdout: Stdio) -> (command: Self)
        ensures
            command == (Command { stdout: Some(stdout), ..self }),
            command.built_from(self, BuilderCall::Stdout(stdout)),
    {
        Command { stdout: Some(stdout), ..self }
    }

    /// Redirects or explicitly pipes standard error.
    #[must_use]
    pub fn stderr(self, stderr: Stdio) -> (command: Self)
        ensures
            command == (Command { stderr: Some(stderr), ..self }),
            command.built_from(self, BuilderCall::Stderr(stderr)),
    {
        Command { stderr: Some(stderr), ..self }
    }

    /// Sets the stdout capture policy.
    #[must_use]
    pub fn capture_stdout(self, policy: CapturePolicy) -> (command: Self)
        ensures
            command == (Command { stdout_capture: policy, ..self }),
            command.built_from(self, BuilderCall::CaptureStdout(policy.choice())),
    {
        Command { stdout_capture: policy, ..self }
    }

    /// Sets the stderr capture policy.
    #[must_use]
    pub fn capture_stderr(self, policy: CapturePolicy) -> (command: Self)
        ensures
            command == (Command { stderr_capture: policy, ..self }),
            command.built_from(self, BuilderCall::CaptureStderr(policy.choice())),
    {
        Command { stderr_capture: policy, ..self }
    }

    /// Borrows the configured program path.
    #[must_use]
    pub fn program(&self) -> (program: &[u8])
        ensures
            program@ == self.program@,
    {
        self.program.as_slice()
    }

    /// Borrows the argument vector.
    #[must_use]
    pub fn arg_list(&self) -> (args: &[Vec<u8>])
        ensures
            args@ == self.args@,
    {
        self.args.as_slice()
    }

    /// Borrows the arguments one by one, in order.
    #[must_use]
    pub fn get_args(&self) -> (args: Vec<&[u8]>)
        ensures
            args@.len() == self.args@.len(),
            forall|i: int| 0 <= i < args@.len() ==> #[trigger] args@[i]@ == self.args@[i]@,
    {
        let mut args: Vec<&[u8]> = Vec::new();
        let mut i: usize = 0;
        while i < self.args.len()
            invariant
                i <= self.args@.len(),
                args@.len() == i,
                forall|j: int| 0 <= j < i ==> #[trigger] args@[j]@ == self.args@[j]@,
            decreases self.args@.len() - i,
        {
            args.push(self.args[i].as_slice());
            i = i + 1;
        }
        args
    }

    /// Lists the explicit environment mutations in effective key order: for each key that
    /// they touch, the value that the last of them set, or `None` where it removed the key.
    #[must_use]
    pub fn get_envs(&self) -> (envs: Vec<(Vec<u8>, Option<Vec<u8>>)>)
        ensures
            ascending(envs@),
            optional_values(listed(envs@)) == effective(self.env_ops@),
    {
        effective_operations(&self.env_ops).into_entries()
    }
}

impl Command<Ready> {
    /// Borrows the validated execution policy.
    #[must_use]
    pub fn execution_policy(&self) -> (execution: &ExecutionPolicy)
        ensures
            *execution == self.state.policy(),
            execution.acceptable(),
    {
        self.state.execution()
    }

    /// Explicitly transfers stdout and stderr byte and backpressure ownership to the caller.
    ///
    /// Managed streaming rejects non-default capture policies rather than silently
    /// discarding them.
    pub fn streaming(self) -> (result: Result<StreamingCommand, Error>)
        ensures
            if !self.stdout_capture.spec_is_default() {
                result == Err::<StreamingCommand, Error>(
                    Error::InvalidPolicy {
                        violation: PolicyViolation::CapturePolicyWithStreaming(StreamName::Stdout),
                    },
                )
            } else if !self.stderr_capture.spec_is_default() {
                result == Err::<StreamingCommand, Error>(
                    Error::InvalidPolicy {
                        violation: PolicyViolation::CapturePolicyWithStreaming(StreamName::Stderr),
                    },
                )
            } else {
                result matches Ok(streaming) && streaming.spec_command() == self
            },
    {
        if !self.stdout_capture.is_default() {
            return Err(
                Error::InvalidPolicy {
                    violation: PolicyViolation::CapturePolicyWithStreaming(StreamName::Stdout),
                },
            );
        }
        if !self.stderr_capture.is_default() {
            return Err(
                Error::InvalidPolicy {
                    violation: PolicyViolation::CapturePolicyWithStreaming(StreamName::Stderr),
                },
            );
        }
        Ok(StreamingCommand { command: self })
    }
}

/// Explicit managed-streaming typestate.
///
/// Entering this state disables supervisor capture: the caller must take and drain piped
/// handles, while the supervisor retains deadline, cancellation, process-group termination,
/// and reap ownership. The transition rejects any non-default capture policy.
#[must_use]
pub struct StreamingCommand {
    command: Command<Ready>,
}

impl StreamingCommand {
    /// A streaming command's capture policies are the default ones.
    #[verifier::type_invariant]
    spec fn captures_nothing(self) -> bool {
        self.command.stdout_capture.spec_is_default()
            && self.command.stderr_capture.spec_is_default()
    }

    /// The command that became a streaming one.
    pub closed spec fn spec_command(self) -> Command<Ready> {
        self.command
    }

    /// Borrows the command that became a streaming one.
    pub(crate) fn command(&self) -> (command: &Command<Ready>)
        ensures
            *command == self.spec_command(),
    {
        &self.command
    }

    /// Gives up the streaming state for its command.
    #[must_use]
    pub fn into_command(self) -> (command: Command<Ready>)
        ensures
            command == self.spec_command(),
            command.stdout_capture.spec_is_default(),
            command.stderr_capture.spec_is_default(),
    {
        proof {
            use_type_invariant(&self);
        }
        self.command
    }
}

/// Everything that a backend needs to spawn the child, as the leader of a process group of
/// its own. Only [`PreparedCommand::arm`] and [`PreparedCommand::arm_at`] hand one out.
#[non_exhaustive]
pub struct ProcessPlan {
    /// Program path.
    pub path: Vec<u8>,
    /// Positional arguments.
    pub args: Vec<Vec<u8>>,
    /// The child's whole environment.
    pub env: ByteMap<Vec<u8>>,
    /// Child working directory.
    pub cwd: Option<Vec<u8>>,
    /// Standard input.
    pub stdin: Stdio,
    /// Standard output.
    pub stdout: Stdio,
    /// Standard error.
    pub stderr: Stdio,
}

/// A validated command. What to spawn is kept back until the invocation is armed.
pub struct PreparedCommand {
    preparation: Preparation,
}

/// What a [`PreparedCommand`] stands for: what to spawn, and how to supervise it.
pub struct Preparation {
    /// What to spawn.
    pub process: ProcessPlan,
    /// Display form of the program.
    pub program: String,
    /// Validated execution policy.
    pub execution: ExecutionPolicy,
    /// Stdout capture policy.
    pub stdout_capture: CapturePolicy,
    /// Stderr capture policy.
    pub stderr_capture: CapturePolicy,
}

impl View for PreparedCommand {
    type V = Preparation;

    closed spec fn view(&self) -> Preparation {
        self.preparation
    }
}

impl PreparedCommand {
    /// Borrows the display form of the program.
    #[must_use]
    pub fn program(&self) -> (program: &str)
        ensures
            program@ == self@.program@,
    {
        self.preparation.program.as_str()
    }

    /// Borrows the validated execution policy.
    #[must_use]
    pub fn execution_policy(&self) -> (execution: &ExecutionPolicy)
        ensures
            *execution == self@.execution,
    {
        &self.preparation.execution
    }

    /// The number of positional arguments.
    #[must_use]
    pub fn arg_count(&self) -> (count: usize)
        ensures
            count == self@.process.args@.len(),
    {
        self.preparation.process.args.len()
    }

    /// Gives up the command for what it stands for.
    pub(crate) fn into_preparation(self) -> (preparation: Preparation)
        ensures
            preparation == self@,
    {
        self.preparation
    }
}

impl Preparation {
    /// Whether this is what `command` spawns under a parent with the given environment.
    pub open spec fn realizes(self, command: Command<Ready>, parent: Seq<Variable>) -> bool {
        &&& self.process.path == command.program
        &&& self.process.args == command.args
        &&& values(self.process.env@) == child(command.environment, command.env_ops@, parent)
        &&& self.process.cwd == command.cwd
        &&& self.process.stdin == command.stdin.unwrap_or(Stdio::Null)
        &&& self.process.stdout == command.stdout.unwrap_or(Stdio::Piped)
        &&& self.process.stderr == command.stderr.unwrap_or(Stdio::Piped)
        &&& self.program@ == lossy_text(command.program@)
        &&& self.execution == command.state.policy()
        &&& self.execution.acceptable()
        &&& self.stdout_capture == command.stdout_capture
        &&& self.stderr_capture == command.stderr_capture
    }
}

/// The key under which the search path for programs stands: `PATH`.
pub open spec fn path_key() -> Seq<u8> {
    seq![80u8, 65u8, 84u8, 72u8]
}

/// Whether a program is found without a search: its path starts at the root directory or
/// has several components.
pub open spec fn is_located(program: Seq<u8>) -> bool {
    is_rooted(program) || component_count(program) > 1
}

/// Whether the child could be spawned: its program is found without a search, or the
/// child's environment has a search path.
pub open spec fn is_findable<State>(command: Command<State>, parent: Seq<Variable>) -> bool {
    is_located(command.program@) || child(
        command.environment,
        command.env_ops@,
        parent,
    ).contains_key(path_key())
}

/// A command is spawned as it was built: the program, the arguments, the directory and the
/// streams are those that it says, with no input and piped output where it says nothing; the
/// environment is what its policy takes over and its operations leave; and it is supervised
/// under the policies that it declared.
pub proof fn law_commands_are_spawned_as_built(
    command: Command<Ready>,
    parent: Seq<Variable>,
    prepared: Preparation,
)
    requires
        prepared.realizes(command, parent),
    ensures
        prepared.process.path == command.program,
        prepared.process.args == command.args,
        prepared.process.cwd == command.cwd,
        command.stdin is None ==> prepared.process.stdin == Stdio::Null,
        command.stdin matches Some(stdin) ==> prepared.process.stdin == stdin,
        command.stdout is None ==> prepared.process.stdout == Stdio::Piped,
        command.stdout matches Some(stdout) ==> prepared.process.stdout == stdout,
        command.stderr is None ==> prepared.process.stderr == Stdio::Piped,
        command.stderr matches Some(stderr) ==> prepared.process.stderr == stderr,
        prepared.process.env@.dom() == child(
            command.environment,
            command.env_ops@,
            parent,
        ).dom(),
        forall|key: Seq<u8>| #[trigger]
            prepared.process.env@.contains_key(key) ==> prepared.process.env@[key]@ == child(
                command.environment,
                command.env_ops@,
                parent,
            )[key],
        prepared.program@ == lossy_text(command.program@),
        prepared.execution == command.state.policy(),
        prepared.stdout_capture == command.stdout_capture && prepared.stderr_capture
            == command.stderr_capture,
{
    let env = prepared.process.env@;
    assert(values(env).dom() =~= env.dom());
    assert forall|key: Seq<u8>| #[trigger] env.contains_key(key) implies env[key]@ == child(
        command.environment,
        command.env_ops@,
        parent,
    )[key] by {
        assert(values(env)[key] == env[key]@);
    }
}

/// A program is searched for only where it names no directory, and only with a search path: a
/// program that starts at the root directory, or has a named piece behind a separator, can
/// always be spawned, and any other exactly where the child's environment has the key `PATH`.
pub proof fn law_bare_programs_need_a_search_path<State>(
    command: Command<State>,
    parent: Seq<Variable>,
)
    ensures
        ({
            let program = command.program@;
            let searched = child(command.environment, command.env_ops@, parent).contains_key(
                seq!['P' as u8, 'A' as u8, 'T' as u8, 'H' as u8],
            );
            &&& program.len() > 0 && program[0] == 0x2f ==> is_findable(command, parent)
            &&& !(program.len() > 0 && program[0] == 0x2f) ==> (is_findable(command, parent)
                <==> searched || exists|i: int| #[trigger]
                names_something(program, i) && behind_a_separator(program, i))
        }),
{
    assert(path_key() =~= seq!['P' as u8, 'A' as u8, 'T' as u8, 'H' as u8]);
    if !(command.program@.len() > 0 && command.program@[0] == 0x2f) {
        law_several_components_need_a_named_piece_behind_a_separator(command.program@);
    }
}

/// Validates a command against the backend and the parent's environment and works out what
/// is spawned for it. `supported` says whether the backend can own a process group.
pub fn prepare(command: Command<Ready>, parent: &Vec<Variable>, supported: bool) -> (result: Result<
    PreparedCommand,
    Error,
>)
    ensures
        match result {
            Ok(prepared) => supported && is_findable(command, parent@) && prepared@.realizes(
                command,
                parent@,
            ),
            Err(Error::UnsupportedCapability { capability }) => !supported && capability
                == Capability::OwnedProcessGroup,
            Err(
                Error::InvalidPolicy { violation: PolicyViolation::BareProgramWithoutPath(program) },
            ) => supported && !is_findable(command, parent@) && program@ == command.program@,
            Err(_) => false,
        },
{
    match validate_backend(supported) {
        Ok(_) => {},
        Err(error) => {
            return Err(error);
        },
    }
    match validate_path_policy(&command, parent) {
        Ok(_) => {},
        Err(error) => {
            return Err(error);
        },
    }
    let env = child_environment(&command.environment, &command.env_ops, parent);
    let program = from_utf8_lossy(command.program.as_slice());
    let stdin = match command.stdin {
        Some(stdin) => stdin,
        None => Stdio::Null,
    };
    let stdout = match command.stdout {
        Some(stdout) => stdout,
        None => Stdio::Piped,
    };
    let stderr = match command.stderr {
        Some(stderr) => stderr,
        None => Stdio::Piped,
    };
    Ok(
        PreparedCommand {
            preparation: Preparation {
                process: ProcessPlan {
                    path: command.program,
                    args: command.args,
                    env,
                    cwd: command.cwd,
                    stdin,
                    stdout,
                    stderr,
                },
                program,
                execution: command.state.into_execution(),
                stdout_capture: command.stdout_capture,
                stderr_capture: command.stderr_capture,
            },
        },
    )
}

/// Refuses a program that would have to be searched for without a search path.
pub fn validate_path_policy<State>(command: &Command<State>, parent: &Vec<Variable>) -> (result:
    Result<(), Error>)
    ensures
        result is Ok <==> is_findable(*command, parent@),
        result matches Err(error) ==> (error matches Error::InvalidPolicy {
            violation: PolicyViolation::BareProgramWithoutPath(program),
        } && program@ == command.program@),
{
    let program = command.program.as_slice();
    if rooted(program) || count_components(program) > 1 {
        return Ok(());
    }
    let path_key_bytes: Vec<u8> = vec![80u8, 65u8, 84u8, 72u8];
    let key = path_key_bytes.as_slice();
    assert(key@ =~= path_key());
    let mut path_available = command.environment.allows_key(key) && lookup(parent, key).is_some();
    let ghost start = base(command.environment, parent@);
    proof {
        law_policy_exposes_only_what_it_allows(command.environment, parent@, path_key());
        assert(command.env_ops@.take(0) =~= Seq::<EnvOp>::empty());
    }
    let mut i: usize = 0;
    while i < command.env_ops.len()
        invariant
            i <= command.env_ops@.len(),
            key@ == path_key(),
            path_available == replayed(start, command.env_ops@.take(i as int)).contains_key(
                path_key(),
            ),
        decreases command.env_ops@.len() - i,
    {
        match &command.env_ops[i] {
            EnvOp::Assign(assigned, _) => {
                if same_bytes(assigned.as_slice(), key) {
                    path_available = true;
                }
            },
            EnvOp::Remove(removed) => {
                if same_bytes(removed.as_slice(), key) {
                    path_available = false;
                }
            },
        }
        assert(command.env_ops@.take(i + 1).drop_last() =~= command.env_ops@.take(i as int));
        i = i + 1;
    }
    assert(command.env_ops@.take(i as int) =~= command.env_ops@);
    if path_available {
        Ok(())
    } else {
        Err(
            Error::InvalidPolicy {
                violation: PolicyViolation::BareProgramWithoutPath(copy_bytes(program)),
            },
        )
    }
}

/// Refuses a backend that cannot own a process group.
pub fn validate_backend(supported: bool) -> (result: Result<(), Error>)
    ensures
        result == if supported {
            Ok::<(), Error>(())
        } else {
            Err::<(), Error>(
                Error::UnsupportedCapability { capability: Capability::OwnedProcessGroup },
            )
        },
{
    if supported {
        Ok(())
    } else {
        Err(Error::UnsupportedCapability { capability: Capability::OwnedProcessGroup })
    }
}

} // verus!
