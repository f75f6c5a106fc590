//! Policies, commands and what is spawned for them.

use epitelesis::bytes::{place, ByteMap, Place};
use epitelesis::command::{prepare, validate_path_policy};
use epitelesis::environment::Variable;
use epitelesis::path::count_components;
use epitelesis::policy::{blank, judge_deadline, validate_deadline, white_space};
use epitelesis::{
    CapturePolicy, Command, Duration, EnvironmentPolicy, Error, ExecutionPolicy, NonEmptyReason,
    OverflowBehavior, PolicyViolation, Ready, Stdio, StreamName, DEFAULT_CAPTURE_LIMIT,
};

fn bytes(text: &str) -> Vec<u8> {
    text.as_bytes().to_vec()
}

fn must<T, E: std::fmt::Debug>(result: Result<T, E>, context: &str) -> T {
    match result {
        Ok(value) => value,
        Err(error) => panic!("{context}: {error:?}"),
    }
}

fn ready(command: Command) -> Command<Ready> {
    must(
        command.deadline(Duration::from_secs(1)),
        "deadline is valid",
    )
}

fn is_empty_reason<T>(result: Result<T, Error>) -> bool {
    matches!(
        result,
        Err(Error::InvalidPolicy {
            violation: PolicyViolation::EmptyReason
        })
    )
}

#[test]
fn white_space_is_unicode_white_space() {
    for code in 0..=0x10ffff {
        if let Some(c) = char::from_u32(code) {
            assert_eq!(white_space(c), c.is_whitespace(), "{code:x}");
        }
    }
}

#[test]
fn reasons_have_to_say_something() {
    for text in ["", " ", "\t\r\n", "\u{2003}\u{3000}"] {
        assert!(blank(text));
        assert!(is_empty_reason(NonEmptyReason::new(text.to_owned())));
        assert!(is_empty_reason(CapturePolicy::unbounded(text.to_owned())));
        assert!(is_empty_reason(EnvironmentPolicy::inherit_all(
            text.to_owned()
        )));
        assert!(is_empty_reason(
            Command::new(bytes("/bin/true")).unbounded(text.to_owned())
        ));
        assert!(is_empty_reason(
            Command::new(bytes("/bin/true")).inherit_environment(text.to_owned())
        ));
    }
    let reason = must(
        NonEmptyReason::new(" because ".to_owned()),
        "the reason says something",
    );
    assert_eq!(reason.as_str(), " because ");
    assert_eq!(reason.clone(), reason);
}

#[test]
fn declarations_are_kept() {
    let bounded = ready(Command::new(bytes("/bin/true")));
    assert_eq!(
        bounded.execution_policy().duration(),
        Some(Duration::from_secs(1))
    );
    let unbounded = must(
        Command::new(bytes("/bin/true")).unbounded("a server".to_owned()),
        "the reason says something",
    );
    assert_eq!(unbounded.execution_policy().duration(), None);
    match unbounded.execution_policy() {
        ExecutionPolicy::Unbounded(reason) => assert_eq!(reason.as_str(), "a server"),
        ExecutionPolicy::Deadline(_) => panic!("the command is unbounded"),
    }
}

#[test]
fn deadlines_are_judged_by_the_clock() {
    assert!(validate_deadline(Duration::from_secs(1)).is_ok());
    assert!(validate_deadline(Duration::max()).is_err());
    assert!(validate_deadline(Duration::from_secs(0)).is_ok());
    assert!(Command::new(bytes("/bin/true"))
        .deadline(Duration::from_secs(0))
        .is_ok());
    assert!(judge_deadline(Duration::from_secs(1), true).is_ok());
    match judge_deadline(Duration::from_secs(1), false) {
        Err(error) => assert_eq!(
            error.message(""),
            "invalid invocation policy: deadline 1s exceeds the monotonic clock domain"
        ),
        Ok(()) => panic!("the clock cannot represent the deadline"),
    }
    assert!(judge_deadline(Duration::max(), true).is_err());
}

#[test]
fn capture_policies_have_the_declared_bounds() {
    assert_eq!(DEFAULT_CAPTURE_LIMIT, 10_485_760);
    assert!(CapturePolicy::default().is_default());
    assert!(CapturePolicy::bounded(DEFAULT_CAPTURE_LIMIT).is_default());
    assert!(!CapturePolicy::truncate(DEFAULT_CAPTURE_LIMIT).is_default());
    assert!(!CapturePolicy::bounded(3).is_default());
    assert!(matches!(
        CapturePolicy::truncate(3),
        CapturePolicy::Bounded {
            limit: 3,
            overflow: OverflowBehavior::TruncateAndDrain
        }
    ));
}

#[test]
fn violations_are_reported_in_words() {
    assert_eq!(
        PolicyViolation::EmptyReason.message(),
        "exceptional policy reason must not be empty"
    );
    assert_eq!(
        PolicyViolation::BareProgramWithoutPath(bytes("true")).message(),
        "bare program \"true\" requires PATH to be explicitly set or allowlisted"
    );
    assert_eq!(
        PolicyViolation::InvalidProcessId(4_294_967_295).message(),
        "process id 4294967295 is not representable"
    );
    assert_eq!(
        PolicyViolation::UnboundedCaptureForManaged(StreamName::Stdout).message(),
        "unbounded Stdout capture is unavailable for managed streaming"
    );
    assert_eq!(
        PolicyViolation::CapturePolicyWithStreaming(StreamName::Stderr).message(),
        "non-default Stderr capture policy is unavailable for managed streaming"
    );
    assert_eq!(
        Error::UnsupportedCapability {
            capability: epitelesis::Capability::OwnedProcessGroup
        }
        .message(""),
        "unsupported invocation capability: OwnedProcessGroup"
    );
    assert_eq!(
        Error::SupervisorStartFailed {
            program: "/bin/true".to_owned(),
            source: epitelesis::io::IoError::other("no threads left"),
        }
        .message(""),
        "failed to start the managed supervisor for /bin/true: no threads left"
    );
}

#[test]
fn components_match_the_standard_count() {
    let pieces = ["", "a", ".", "..", "ab", ".x", "/", "//"];
    for a in pieces {
        for b in pieces {
            for c in pieces {
                for d in pieces {
                    let path = [a, b, c, d].concat();
                    assert_eq!(
                        count_components(path.as_bytes()),
                        std::path::Path::new(&path).components().count(),
                        "{path}"
                    );
                    let path = [a, b, c, d].join("/");
                    assert_eq!(
                        count_components(path.as_bytes()),
                        std::path::Path::new(&path).components().count(),
                        "{path}"
                    );
                }
            }
        }
    }
}

#[test]
fn located_programs_need_no_path() {
    for program in ["/bin/true", "./true", "bin/true", "/"] {
        let command = Command::new(bytes(program));
        assert!(validate_path_policy(&command, &Vec::new()).is_ok());
    }
    for program in ["true", "", "true/", "."] {
        let command = Command::new(bytes(program));
        assert!(validate_path_policy(&command, &Vec::new()).is_err());
    }
}

#[test]
fn search_path_has_to_reach_the_child() {
    let parent: Vec<Variable> = vec![(bytes("PATH"), bytes("/bin"))];
    let bare = || Command::new(bytes("true"));
    assert!(validate_path_policy(&bare(), &parent).is_err());
    let allowed = || bare().allow_environment(&vec![bytes("PATH")]);
    assert!(validate_path_policy(&allowed(), &parent).is_ok());
    assert!(validate_path_policy(&allowed(), &Vec::new()).is_err());
    assert!(validate_path_policy(&allowed().env_remove(bytes("PATH")), &parent).is_err());
    assert!(validate_path_policy(
        &bare()
            .env_remove(bytes("PATH"))
            .env(bytes("PATH"), bytes("/bin")),
        &Vec::new()
    )
    .is_ok());
    let inherited = must(
        bare().inherit_environment("fixture".to_owned()),
        "the reason says something",
    );
    assert!(validate_path_policy(&inherited, &parent).is_ok());
    assert!(validate_path_policy(&inherited.clean_environment(), &parent).is_err());
}

#[test]
fn commands_are_prepared_whole() {
    let parent: Vec<Variable> = vec![
        (bytes("A"), bytes("first")),
        (bytes("B"), bytes("b")),
        (bytes("A"), bytes("second")),
    ];
    let command = ready(
        Command::new(bytes("/bin/echo"))
            .arg(bytes("one"))
            .args(vec![bytes("two"), bytes("three")])
            .allow_environment(&vec![bytes("A"), bytes("MISSING"), bytes("A")])
            .envs(vec![
                (bytes("C"), bytes("c")),
                (bytes("D"), bytes("d")),
            ])
            .env_remove(bytes("D"))
            .cwd(bytes("/nowhere"))
            .current_dir(bytes("/tmp"))
            .stdin(Stdio::Piped)
            .stderr(Stdio::Handle(7)),
    );
    assert_eq!(command.arg_list().len(), 3);
    assert_eq!(command.get_args()[2], b"three");
    let prepared = must(prepare(command, &parent, true), "the command is valid");
    assert_eq!(prepared.program(), "/bin/echo");
    assert_eq!(prepared.arg_count(), 3);
    assert_eq!(
        prepared.execution_policy().duration(),
        Some(Duration::from_secs(1))
    );
    let (_, plan) = must(prepared.arm(Ok(()), true), "the reaper stands");
    assert_eq!(plan.path, b"/bin/echo");
    assert_eq!(
        plan.args,
        vec![bytes("one"), bytes("two"), bytes("three")]
    );
    assert_eq!(
        plan.env.into_entries(),
        vec![(bytes("A"), bytes("first")), (bytes("C"), bytes("c"))]
    );
    assert_eq!(plan.cwd, Some(bytes("/tmp")));
    assert_eq!(plan.stdin, Stdio::Piped);
    assert_eq!(plan.stdout, Stdio::Piped);
    assert_eq!(plan.stderr, Stdio::Handle(7));

    let inherited = ready(must(
        Command::new(bytes("/bin/echo")).inherit_environment("fixture".to_owned()),
        "the reason says something",
    ));
    let prepared = must(prepare(inherited, &parent, true), "the command is valid");
    let (_, plan) = must(prepared.arm(Ok(()), true), "the reaper stands");
    assert_eq!(
        plan.env.into_entries(),
        vec![(bytes("A"), bytes("second")), (bytes("B"), bytes("b"))]
    );
    assert_eq!(plan.stdin, Stdio::Null);
}

#[test]
fn programs_are_displayed_with_replacement_characters() {
    let command = ready(Command::new(b"/bin/\xff".to_vec()));
    let prepared = must(prepare(command, &Vec::new(), true), "the command is valid");
    assert_eq!(prepared.program(), "/bin/\u{fffd}");
}

#[test]
fn commands_look_alike_but_for_no_environment_value() {
    let command = |value: &str| {
        Command::new(bytes("/bin/true"))
            .arg(bytes("it's \"quoted\"\n"))
            .arg(b"\xffcaf\xc3\xa9\xe2\x82".to_vec())
            .allow_environment(&vec![bytes("HOME"), bytes("EDITOR")])
            .env(bytes("TOKEN"), bytes(value))
            .env_remove(bytes("SHELL"))
            .cwd(bytes("/tmp"))
            .stdout(Stdio::Null)
    };
    assert_eq!(
        command("alpha").debug_text(),
        "Command { program: \"/bin/true\", \
         args: [\"it's \\\"quoted\\\"\\n\", \"\\xFFcafé\\xE2\\x82\"], \
         environment: Allowlist({\"EDITOR\", \"HOME\"}), \
         env_ops: [Set(\"TOKEN\", \"<redacted>\"), Remove(\"SHELL\")], \
         cwd: Some(\"/tmp\"), stdin: None, stdout: Some(\"configured\"), stderr: None, \
         stdout_capture: Bounded { limit: 10485760, overflow: FailClosed }, \
         stderr_capture: Bounded { limit: 10485760, overflow: FailClosed }, \
         state: Draft }"
    );
    assert_eq!(command("alpha").debug_text(), command("beta").debug_text());
}

#[test]
fn declarations_and_policies_are_shown() {
    let unbounded = must(
        must(
            Command::new(bytes("/bin/true")).inherit_environment("fixture".to_owned()),
            "the reason says something",
        )
        .capture_stdout(CapturePolicy::truncate(7))
        .capture_stderr(must(
            CapturePolicy::unbounded("a log".to_owned()),
            "the reason says something",
        ))
        .unbounded("a \"server\"".to_owned()),
        "the reason says something",
    );
    assert_eq!(
        unbounded.debug_text(),
        "Command { program: \"/bin/true\", args: [], \
         environment: InheritAll(NonEmptyReason(\"fixture\")), env_ops: [], cwd: None, \
         stdin: None, stdout: None, stderr: None, \
         stdout_capture: Bounded { limit: 7, overflow: TruncateAndDrain }, \
         stderr_capture: Unbounded(NonEmptyReason(\"a log\")), \
         state: Ready { execution: Unbounded(NonEmptyReason(\"a \\\"server\\\"\")) } }"
    );
    let streaming = must(
        ready(Command::new(bytes("/bin/true"))).streaming(),
        "default captures may stream",
    );
    let shown = streaming.debug_text();
    assert!(shown.starts_with("StreamingCommand(Command { program: \"/bin/true\", args: [], "));
    assert!(shown.ends_with("state: Ready { execution: Deadline(1s) } })"));
}

#[test]
fn names_are_quoted_as_paths_are() {
    for name in ["", "plain", "it's", "a\"b\\c", "tab\tnew\nline", "\u{301}x\u{301}", "\u{7f}", "ü"] {
        assert_eq!(
            epitelesis::debug::quote(name.as_bytes()),
            format!("{:?}", std::path::Path::new(name))
        );
    }
    for number in [0, 7, 10, 99, 1_000_000, u64::MAX] {
        assert_eq!(epitelesis::text::decimal_text(number), format!("{number}"));
    }
}

#[test]
fn environment_policies_can_be_copied() {
    let allowlist = EnvironmentPolicy::allowlist(&vec![bytes("B"), bytes("A"), bytes("B")]);
    let inherited = must(
        EnvironmentPolicy::inherit_all("fixture".to_owned()),
        "the reason says something",
    );
    for policy in [EnvironmentPolicy::clean(), allowlist, inherited] {
        assert_eq!(policy.clone(), policy);
    }
    let listed = EnvironmentPolicy::allowlist(&vec![bytes("A")]).clone();
    assert!(listed.allows_key(b"A"));
    assert!(!listed.allows_key(b"B"));
    assert_eq!(EnvironmentPolicy::default(), EnvironmentPolicy::Clean);
}

#[test]
fn byte_maps_are_kept_in_order() {
    let mut map: ByteMap<u32> = ByteMap::new();
    for (number, key) in ["b", "a", "", "ab", "b", "c"].iter().enumerate() {
        map.insert(bytes(key), number as u32);
    }
    map.remove(b"c");
    map.remove(b"absent");
    assert!(map.contains_key(b"ab"));
    assert!(!map.contains_key(b"c"));
    assert_eq!(
        map.into_entries(),
        vec![
            (bytes(""), 2),
            (bytes("a"), 1),
            (bytes("ab"), 3),
            (bytes("b"), 4)
        ]
    );
    assert_eq!(place(b"a", b"ab"), Place::Before);
    assert_eq!(place(b"b", b"ab"), Place::After);
    assert_eq!(place(b"\xff", b"\xff"), Place::Same);
}

#[test]
fn builder_calls_commute_with_the_declaration() {
    let draft = || Command::new(bytes("/bin/true")).arg(bytes("first"));
    let pairs: Vec<(Command<Ready>, Command<Ready>)> = vec![
        (
            ready(draft().arg(bytes("second"))),
            ready(draft()).arg(bytes("second")),
        ),
        (
            ready(draft().args(vec![bytes("a"), bytes("b")])),
            ready(draft()).args(vec![bytes("a"), bytes("b")]),
        ),
        (
            ready(draft().allow_environment(&vec![bytes("B"), bytes("A"), bytes("B")])),
            ready(draft()).allow_environment(&vec![bytes("B"), bytes("A"), bytes("B")]),
        ),
        (
            ready(draft().env(bytes("KEY"), bytes("value"))),
            ready(draft()).env(bytes("KEY"), bytes("value")),
        ),
        (
            ready(draft().env_remove(bytes("KEY"))),
            ready(draft()).env_remove(bytes("KEY")),
        ),
        (
            ready(draft().envs(vec![(bytes("A"), bytes("1")), (bytes("B"), bytes("2"))])),
            ready(draft()).envs(vec![(bytes("A"), bytes("1")), (bytes("B"), bytes("2"))]),
        ),
        (
            ready(draft().cwd(bytes("/tmp"))),
            ready(draft()).cwd(bytes("/tmp")),
        ),
        (
            ready(draft().stdin(Stdio::Piped)),
            ready(draft()).stdin(Stdio::Piped),
        ),
        (
            ready(draft().capture_stdout(CapturePolicy::bounded(3))),
            ready(draft()).capture_stdout(CapturePolicy::bounded(3)),
        ),
        (
            ready(draft().capture_stderr(CapturePolicy::truncate(4))),
            ready(draft()).capture_stderr(CapturePolicy::truncate(4)),
        ),
    ];
    let untouched = ready(draft()).debug_text();
    for (called_first, declared_first) in &pairs {
        assert_eq!(called_first.debug_text(), declared_first.debug_text());
        assert_ne!(called_first.debug_text(), untouched);
        assert_eq!(called_first.get_envs(), declared_first.get_envs());
        assert_eq!(
            called_first.execution_policy().duration(),
            declared_first.execution_policy().duration()
        );
    }
}
