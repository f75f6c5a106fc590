//! What a command says, apart from its lifecycle declaration, and what builder calls make of
//! it.

use vstd::prelude::*;

#[allow(unused_imports)]
use crate::command::{is_findable, Command, Stdio};
#[allow(unused_imports)]
use crate::environment::{applied, base, child, replayed, EnvOp, Variable};
#[allow(unused_imports)]
use crate::policy::{
    CapturePolicy, Draft, EnvironmentPolicy, ExecutionPolicy, OverflowBehavior, Ready,
};
#[allow(unused_imports)]
use crate::time::Duration;

verus! {

/// What an environment policy takes over from the parent, and why.
#[verifier::ext_equal]
pub enum EnvironmentChoice {
    /// Nothing.
    Clean,
    /// The variables with these keys.
    Allowlist(Set<Seq<u8>>),
    /// Every variable, for this reason.
    InheritAll(Seq<char>),
}

/// What a capture policy retains.
#[verifier::ext_equal]
pub enum CaptureChoice {
    /// So many bytes, with this answer to further ones.
    Bounded(usize, OverflowBehavior),
    /// Every byte, for this reason.
    Unbounded(Seq<char>),
}

/// How long an invocation may last.
#[verifier::ext_equal]
pub enum Declaration {
    /// As long as this.
    Deadline(Duration),
    /// Without a bound, for this reason.
    Unbounded(Seq<char>),
}

/// What a command says, apart from its lifecycle declaration.
#[verifier::ext_equal]
pub struct Description {
    /// Program path.
    pub program: Seq<u8>,
    /// Positional arguments.
    pub args: Seq<Seq<u8>>,
    /// Base environment.
    pub environment: EnvironmentChoice,
    /// Environment mutations in call order: the key, and the value that it is given.
    pub env_ops: Seq<(Seq<u8>, Option<Seq<u8>>)>,
    /// Child working directory.
    pub cwd: Option<Seq<u8>>,
    /// Standard input, where it was configured.
    pub stdin: Option<Stdio>,
    /// Standard output, where it was configured.
    pub stdout: Option<Stdio>,
    /// Standard error, where it was configured.
    pub stderr: Option<Stdio>,
    /// Stdout capture.
    pub stdout_capture: CaptureChoice,
    /// Stderr capture.
    pub stderr_capture: CaptureChoice,
}

/// One call of a builder method with what it was given.
pub enum BuilderCall {
    /// [`Command::arg`].
    Arg(Seq<u8>),
    /// [`Command::args`].
    Args(Seq<Seq<u8>>),
    /// [`Command::environment`] and its three shorthands.
    Environment(EnvironmentChoice),
    /// [`Command::env`].
    Env(Seq<u8>, Seq<u8>),
    /// [`Command::env_remove`].
    EnvRemove(Seq<u8>),
    /// [`Command::envs`].
    Envs(Seq<(Seq<u8>, Seq<u8>)>),
    /// [`Command::cwd`] and [`Command::current_dir`].
    Cwd(Seq<u8>),
    /// [`Command::stdin`].
    Stdin(Stdio),
    /// [`Command::stdout`].
    Stdout(Stdio),
    /// [`Command::stderr`].
    Stderr(Stdio),
    /// [`Command::capture_stdout`].
    CaptureStdout(CaptureChoice),
    /// [`Command::capture_stderr`].
    CaptureStderr(CaptureChoice),
}

impl EnvironmentPolicy {
    /// What the policy says.
    pub open spec fn choice(self) -> EnvironmentChoice {
        match self {
            EnvironmentPolicy::Clean => EnvironmentChoice::Clean,
            EnvironmentPolicy::Allowlist(keys) => EnvironmentChoice::Allowlist(keys@.dom()),
            EnvironmentPolicy::InheritAll(reason) => EnvironmentChoice::InheritAll(reason@),
        }
    }
}

impl CapturePolicy {
    /// What the policy says.
    pub open spec fn choice(self) -> CaptureChoice {
        match self {
            CapturePolicy::Bounded { limit, overflow } => CaptureChoice::Bounded(limit, overflow),
            CapturePolicy::Unbounded(reason) => CaptureChoice::Unbounded(reason@),
        }
    }
}

impl ExecutionPolicy {
    /// What the policy says.
    pub open spec fn declaration(self) -> Declaration {
        match self {
            ExecutionPolicy::Deadline(duration) => Declaration::Deadline(duration),
            ExecutionPolicy::Unbounded(reason) => Declaration::Unbounded(reason@),
        }
    }
}

/// The byte strings in a sequence of byte vectors.
pub open spec fn strings(list: Seq<Vec<u8>>) -> Seq<Seq<u8>> {
    list.map_values(|bytes: Vec<u8>| bytes@)
}

/// The byte strings in a sequence of variables.
pub open spec fn string_pairs(variables: Seq<Variable>) -> Seq<(Seq<u8>, Seq<u8>)> {
    variables.map_values(|variable: Variable| (variable.0@, variable.1@))
}

/// The key of each operation, and what the operation leaves under it.
pub open spec fn described_ops(ops: Seq<EnvOp>) -> Seq<(Seq<u8>, Option<Seq<u8>>)> {
    ops.map_values(|op: EnvOp| (op.key(), op.left()))
}

impl<State> Command<State> {
    /// What the command says, apart from its lifecycle declaration.
    pub open spec fn description(self) -> Description {
        Description {
            program: self.program@,
            args: strings(self.args@),
            environment: self.environment.choice(),
            env_ops: described_ops(self.env_ops@),
            cwd: match self.cwd {
                Some(directory) => Some(directory@),
                None => None,
            },
            stdin: self.stdin,
            stdout: self.stdout,
            stderr: self.stderr,
            stdout_capture: self.stdout_capture.choice(),
            stderr_capture: self.stderr_capture.choice(),
        }
    }

    /// Whether the builder call made this command of `before`: it changes what the command
    /// says, and leaves the lifecycle declaration alone.
    pub open spec fn built_from(self, before: Self, call: BuilderCall) -> bool {
        &&& self.description() == before.description().with(call)
        &&& self.state == before.state
    }
}

impl Command<Ready> {
    /// Whether the declaration made this command of `draft`: it says how long the invocation
    /// may last, and leaves what else the command says alone.
    pub open spec fn declared_from(self, draft: Command<Draft>, declaration: Declaration) -> bool {
        &&& self.same_but_state(draft)
        &&& self.state.policy().declaration() == declaration
    }
}

impl Description {
    /// What is said after a builder call.
    pub open spec fn with(self, call: BuilderCall) -> Description {
        match call {
            BuilderCall::Arg(arg) => Description { args: self.args.push(arg), ..self },
            BuilderCall::Args(more) => Description { args: self.args + more, ..self },
            BuilderCall::Environment(environment) => Description { environment, ..self },
            BuilderCall::Env(key, value) => Description {
                env_ops: self.env_ops.push((key, Some(value))),
                ..self
            },
            BuilderCall::EnvRemove(key) => Description {
                env_ops: self.env_ops.push((key, None)),
                ..self
            },
            BuilderCall::Envs(variables) => Description {
                env_ops: self.env_ops + variables.map_values(
                    |variable: (Seq<u8>, Seq<u8>)| (variable.0, Some(variable.1)),
                ),
                ..self
            },
            BuilderCall::Cwd(directory) => Description { cwd: Some(directory), ..self },
            BuilderCall::Stdin(stdin) => Description { stdin: Some(stdin), ..self },
            BuilderCall::Stdout(stdout) => Description { stdout: Some(stdout), ..self },
            BuilderCall::Stderr(stderr) => Description { stderr: Some(stderr), ..self },
            BuilderCall::CaptureStdout(stdout_capture) => Description { stdout_capture, ..self },
            BuilderCall::CaptureStderr(stderr_capture) => Description { stderr_capture, ..self },
        }
    }
}

/// A builder call and the lifecycle declaration commute: whichever comes first, the command
/// says the same and may last as long.
pub proof fn law_builder_calls_and_declarations_commute(
    draft: Command<Draft>,
    call: BuilderCall,
    declaration: Declaration,
    called: Command<Draft>,
    called_and_declared: Command<Ready>,
    declared: Command<Ready>,
    declared_and_called: Command<Ready>,
)
    requires
        called.built_from(draft, call),
        called_and_declared.declared_from(called, declaration),
        declared.declared_from(draft, declaration),
        declared_and_called.built_from(declared, call),
    ensures
        called_and_declared.description() == declared_and_called.description(),
        called_and_declared.description() == draft.description().with(call),
        called_and_declared.state.policy().declaration() == declaration,
        declared_and_called.state.policy().declaration() == declaration,
{
    assert(called_and_declared.description() == called.description());
    assert(declared.description() == draft.description());
}

/// A declaration is taken at its word: a deadline is the very duration that was declared, an
/// unbounded lifetime keeps the very reason, and nothing else of the command is touched.
pub proof fn law_declarations_are_kept(
    draft: Command<Draft>,
    declared: Command<Ready>,
    declaration: Declaration,
)
    requires
        declared.declared_from(draft, declaration),
    ensures
        declaration matches Declaration::Deadline(duration) ==> declared.state.policy()
            == ExecutionPolicy::Deadline(duration),
        declaration matches Declaration::Unbounded(reason) ==> (
        declared.state.policy() matches ExecutionPolicy::Unbounded(retained) && retained@
            == reason),
        declared.program == draft.program && declared.args == draft.args,
        declared.environment == draft.environment && declared.env_ops == draft.env_ops,
        declared.cwd == draft.cwd,
        declared.stdin == draft.stdin && declared.stdout == draft.stdout && declared.stderr
            == draft.stderr,
        declared.stdout_capture == draft.stdout_capture && declared.stderr_capture
            == draft.stderr_capture,
{
}

/// Commands that say the same give their children the same environment and are found or not
/// found alike, whatever the parent's environment is.
pub proof fn law_descriptions_decide_the_environment<One, Other>(
    one: Command<One>,
    other: Command<Other>,
    parent: Seq<Variable>,
)
    requires
        one.description() == other.description(),
    ensures
        child(one.environment, one.env_ops@, parent) == child(
            other.environment,
            other.env_ops@,
            parent,
        ),
        is_findable(one, parent) == is_findable(other, parent),
{
    assert(one.environment.choice() == other.environment.choice());
    assert(base(one.environment, parent) =~= base(other.environment, parent)) by {
        match (one.environment, other.environment) {
            (EnvironmentPolicy::Allowlist(keys), EnvironmentPolicy::Allowlist(others)) => {
                assert(keys@.dom() == others@.dom());
            },
            _ => {},
        }
    }
    lemma_replay_goes_by_description(
        base(one.environment, parent),
        one.env_ops@,
        other.env_ops@,
    );
}

proof fn lemma_replay_goes_by_description(
    env: Map<Seq<u8>, Seq<u8>>,
    ops: Seq<EnvOp>,
    others: Seq<EnvOp>,
)
    requires
        described_ops(ops) == described_ops(others),
    ensures
        replayed(env, ops) == replayed(env, others),
    decreases ops.len(),
{
    assert(described_ops(ops).len() == ops.len());
    assert(described_ops(others).len() == others.len());
    if ops.len() > 0 {
        assert(described_ops(ops.drop_last()) =~= described_ops(ops).drop_last());
        assert(described_ops(others.drop_last()) =~= described_ops(others).drop_last());
        lemma_replay_goes_by_description(env, ops.drop_last(), others.drop_last());
        assert(described_ops(ops).last() == (ops.last().key(), ops.last().left()));
        assert(described_ops(others).last() == (others.last().key(), others.last().left()));
        let before = replayed(env, ops.drop_last());
        assert(applied(before, ops.last()) == applied(before, others.last()));
    }
}

} // verus!
