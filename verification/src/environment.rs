//! The environment of a child process.

use vstd::prelude::*;

use crate::bytes::{copy_bytes, same_bytes, ByteMap};
#[allow(unused_imports)]
use crate::bytes::{has_key, lemma_has_key_push};
use crate::policy::EnvironmentPolicy;

verus! {

/// One environment variable: its key and its value.
pub type Variable = (Vec<u8>, Vec<u8>);

/// One environment mutation, replayed after the base environment policy.
pub enum EnvOp {
    /// Give the key a value.
    Assign(Vec<u8>, Vec<u8>),
    /// Take the key away.
    Remove(Vec<u8>),
}

impl EnvOp {
    /// The key that the operation touches.
    pub open spec fn key(self) -> Seq<u8> {
        match self {
            EnvOp::Assign(key, _) => key@,
            EnvOp::Remove(key) => key@,
        }
    }

    /// What the operation leaves under its key: a value, or nothing.
    pub open spec fn left(self) -> Option<Seq<u8>> {
        match self {
            EnvOp::Assign(_, value) => Some(value@),
            EnvOp::Remove(_) => None,
        }
    }
}

/// The environment after one operation.
pub open spec fn applied(env: Map<Seq<u8>, Seq<u8>>, op: EnvOp) -> Map<Seq<u8>, Seq<u8>> {
    match op {
        EnvOp::Assign(key, value) => env.insert(key@, value@),
        EnvOp::Remove(key) => env.remove(key@),
    }
}

/// The environment after the operations, in call order.
pub open spec fn replayed(env: Map<Seq<u8>, Seq<u8>>, ops: Seq<EnvOp>) -> Map<Seq<u8>, Seq<u8>>
    decreases ops.len(),
{
    if ops.len() == 0 {
        env
    } else {
        applied(replayed(env, ops.drop_last()), ops.last())
    }
}

/// What the operations leave under each key that they touch: a value, or nothing.
pub open spec fn effective(ops: Seq<EnvOp>) -> Map<Seq<u8>, Option<Seq<u8>>>
    decreases ops.len(),
{
    if ops.len() == 0 {
        Map::empty()
    } else {
        effective(ops.drop_last()).insert(ops.last().key(), ops.last().left())
    }
}

/// The value of the first variable with the key `key`.
pub open spec fn first_value(variables: Seq<Variable>, key: Seq<u8>) -> Seq<u8>
    decreases variables.len(),
{
    if variables.len() == 0 {
        Seq::empty()
    } else if variables[0].0@ == key {
        variables[0].1@
    } else {
        first_value(variables.drop_first(), key)
    }
}

/// All variables of the parent; of two with one key the later one counts.
pub open spec fn inherited(variables: Seq<Variable>) -> Map<Seq<u8>, Seq<u8>>
    decreases variables.len(),
{
    if variables.len() == 0 {
        Map::empty()
    } else {
        inherited(variables.drop_last()).insert(variables.last().0@, variables.last().1@)
    }
}

/// The environment that a policy takes over from the parent.
pub open spec fn base(policy: EnvironmentPolicy, parent: Seq<Variable>) -> Map<Seq<u8>, Seq<u8>> {
    match policy {
        EnvironmentPolicy::Clean => Map::empty(),
        EnvironmentPolicy::Allowlist(keys) => Map::new(
            |key: Seq<u8>| keys@.contains_key(key) && has_key(parent, key),
            |key: Seq<u8>| first_value(parent, key),
        ),
        EnvironmentPolicy::InheritAll(_) => inherited(parent),
    }
}

/// The environment of the child: what the policy takes over from the parent, then the
/// operations.
pub open spec fn child(
    policy: EnvironmentPolicy,
    ops: Seq<EnvOp>,
    parent: Seq<Variable>,
) -> Map<Seq<u8>, Seq<u8>> {
    replayed(base(policy, parent), ops)
}

/// The byte strings under the keys of a map of byte vectors.
pub open spec fn values(map: Map<Seq<u8>, Vec<u8>>) -> Map<Seq<u8>, Seq<u8>> {
    map.map_values(|value: Vec<u8>| value@)
}

/// The byte string in an optional byte vector.
pub open spec fn optional(value: Option<Vec<u8>>) -> Option<Seq<u8>> {
    match value {
        Some(bytes) => Some(bytes@),
        None => None,
    }
}

/// The byte strings under the keys of a map of optional byte vectors.
pub open spec fn optional_values(map: Map<Seq<u8>, Option<Vec<u8>>>) -> Map<
    Seq<u8>,
    Option<Seq<u8>>,
> {
    map.map_values(|value: Option<Vec<u8>>| optional(value))
}

/// A clean environment without operations is empty, whatever the parent's is.
pub proof fn law_clean_environment_is_empty(parent: Seq<Variable>)
    ensures
        child(EnvironmentPolicy::Clean, Seq::empty(), parent) == Map::<Seq<u8>, Seq<u8>>::empty(),
{
}

/// A policy exposes only variables that it allows and that the parent has: a clean one
/// none, an allowlist the named ones, full inheritance all of them.
pub proof fn law_policy_exposes_only_what_it_allows(
    policy: EnvironmentPolicy,
    parent: Seq<Variable>,
    key: Seq<u8>,
)
    ensures
        base(policy, parent).contains_key(key) <==> policy.allows(key) && has_key(parent, key),
{
    if policy is InheritAll {
        lemma_inherited_key(parent, key);
    }
}

proof fn lemma_inherited_key(parent: Seq<Variable>, key: Seq<u8>)
    ensures
        inherited(parent).contains_key(key) <==> has_key(parent, key),
    decreases parent.len(),
{
    if parent.len() > 0 {
        let front = parent.drop_last();
        lemma_inherited_key(front, key);
        if has_key(front, key) {
            let i = choose|i: int| 0 <= i < front.len() && #[trigger] front[i].0@ == key;
            assert(parent[i].0@ == key);
        }
        if has_key(parent, key) && !has_key(front, key) {
            let i = choose|i: int| 0 <= i < parent.len() && #[trigger] parent[i].0@ == key;
            if i < front.len() {
                assert(front[i].0@ == key);
            }
        }
        if parent.last().0@ == key {
            assert(parent[parent.len() - 1].0@ == key);
        }
    }
}

/// Whether no two variables have one key.
pub open spec fn distinct_keys(variables: Seq<Variable>) -> bool {
    forall|i: int, j: int|
        0 <= i < j < variables.len() ==> #[trigger] variables[i].0@ != #[trigger] variables[j].0@
}

/// What a policy takes over from the parent: a clean one nothing; an allowlist exactly those
/// variables whose keys it names; full inheritance every one. Each keeps the parent's value:
/// where the parent has several variables with one key, an allowlist takes the first of them
/// and full inheritance the last.
pub proof fn law_policies_take_over_the_parents_variables(
    policy: EnvironmentPolicy,
    parent: Seq<Variable>,
    i: int,
)
    requires
        0 <= i < parent.len(),
    ensures
        ({
            let (key, value) = (parent[i].0@, parent[i].1@);
            let taken = base(policy, parent);
            &&& policy is Clean ==> taken == Map::<Seq<u8>, Seq<u8>>::empty()
            &&& policy matches EnvironmentPolicy::Allowlist(keys) ==> {
                &&& taken.contains_key(key) <==> keys@.contains_key(key)
                &&& keys@.contains_key(key) && (forall|j: int|
                    0 <= j < i ==> (#[trigger] parent[j]).0@ != key) ==> taken[key] == value
            }
            &&& policy is InheritAll ==> {
                &&& taken.contains_key(key)
                &&& (forall|j: int| i < j < parent.len() ==> (#[trigger] parent[j]).0@ != key)
                    ==> taken[key] == value
            }
        }),
{
    let key = parent[i].0@;
    assert(has_key(parent, key));
    match policy {
        EnvironmentPolicy::Clean => {},
        EnvironmentPolicy::Allowlist(_) => {
            if forall|j: int| 0 <= j < i ==> (#[trigger] parent[j]).0@ != key {
                lemma_first_of_key(parent, i);
            }
        },
        EnvironmentPolicy::InheritAll(_) => {
            lemma_inherited_key(parent, key);
            if forall|j: int| i < j < parent.len() ==> (#[trigger] parent[j]).0@ != key {
                lemma_last_of_key(parent, i);
            }
        },
    }
}

/// A policy makes nothing up: what it takes over is a variable of the parent's.
pub proof fn law_policies_make_nothing_up(
    policy: EnvironmentPolicy,
    parent: Seq<Variable>,
    key: Seq<u8>,
)
    requires
        base(policy, parent).contains_key(key),
    ensures
        exists|i: int| 0 <= i < parent.len() && (#[trigger] parent[i]).0@ == key,
        !(policy is Clean),
        policy matches EnvironmentPolicy::Allowlist(keys) ==> keys@.contains_key(key),
{
    if policy is InheritAll {
        lemma_inherited_key(parent, key);
    }
    assert(has_key(parent, key));
    let i = choose|i: int| 0 <= i < parent.len() && #[trigger] parent[i].0@ == key;
    assert(parent[i].0@ == key);
}

proof fn lemma_first_of_key(parent: Seq<Variable>, i: int)
    requires
        0 <= i < parent.len(),
        forall|j: int| 0 <= j < i ==> (#[trigger] parent[j]).0@ != parent[i].0@,
    ensures
        first_value(parent, parent[i].0@) == parent[i].1@,
    decreases parent.len(),
{
    if i > 0 {
        let rest = parent.drop_first();
        assert(parent[0].0@ != parent[i].0@);
        assert forall|j: int| 0 <= j < i - 1 implies (#[trigger] rest[j]).0@ != rest[i - 1].0@ by {
            assert(parent[j + 1].0@ != parent[i].0@);
        }
        assert(rest[i - 1] == parent[i]);
        lemma_first_of_key(rest, i - 1);
    }
}

proof fn lemma_last_of_key(parent: Seq<Variable>, i: int)
    requires
        0 <= i < parent.len(),
        forall|j: int| i < j < parent.len() ==> (#[trigger] parent[j]).0@ != parent[i].0@,
    ensures
        inherited(parent)[parent[i].0@] == parent[i].1@,
    decreases parent.len(),
{
    let last = parent.len() - 1;
    if i < last {
        let front = parent.drop_last();
        assert(parent[last].0@ != parent[i].0@);
        assert forall|j: int| i < j < front.len() implies (#[trigger] front[j]).0@ != front[i].0@ by {
            assert(parent[j].0@ != parent[i].0@);
        }
        assert(front[i] == parent[i]);
        lemma_last_of_key(front, i);
    }
}

/// The child starts from what the policy takes over, and the operations are replayed in call
/// order: each gives its key its value, or takes its key away, and touches no other key. The
/// effective view keeps what the last operation on each key did.
pub proof fn law_operations_are_replayed_in_order(
    policy: EnvironmentPolicy,
    ops: Seq<EnvOp>,
    parent: Seq<Variable>,
    key: Vec<u8>,
    value: Vec<u8>,
)
    ensures
        child(policy, Seq::empty(), parent) == base(policy, parent),
        child(policy, ops.push(EnvOp::Assign(key, value)), parent) == child(
            policy,
            ops,
            parent,
        ).insert(key@, value@),
        child(policy, ops.push(EnvOp::Remove(key)), parent) == child(policy, ops, parent).remove(
            key@,
        ),
        effective(Seq::empty()) == Map::<Seq<u8>, Option<Seq<u8>>>::empty(),
        effective(ops.push(EnvOp::Assign(key, value))) == effective(ops).insert(
            key@,
            Some(value@),
        ),
        effective(ops.push(EnvOp::Remove(key))) == effective(ops).insert(key@, None),
{
    assert(ops.push(EnvOp::Assign(key, value)).drop_last() =~= ops);
    assert(ops.push(EnvOp::Remove(key)).drop_last() =~= ops);
}

/// An allowlisted variable has the value that full inheritance would give it.
pub proof fn law_allowlist_and_inheritance_agree(
    keys: ByteMap<()>,
    reason: crate::policy::NonEmptyReason,
    parent: Seq<Variable>,
    key: Seq<u8>,
)
    requires
        distinct_keys(parent),
        keys@.contains_key(key),
    ensures
        base(EnvironmentPolicy::Allowlist(keys), parent).contains_key(key) <==> base(
            EnvironmentPolicy::InheritAll(reason),
            parent,
        ).contains_key(key),
        has_key(parent, key) ==> base(EnvironmentPolicy::Allowlist(keys), parent)[key] == base(
            EnvironmentPolicy::InheritAll(reason),
            parent,
        )[key],
{
    lemma_inherited_key(parent, key);
    if has_key(parent, key) {
        let i = choose|i: int| 0 <= i < parent.len() && #[trigger] parent[i].0@ == key;
        lemma_first_value(parent, i);
        lemma_inherited_value(parent, i);
    }
}

proof fn lemma_first_value(parent: Seq<Variable>, i: int)
    requires
        distinct_keys(parent),
        0 <= i < parent.len(),
    ensures
        first_value(parent, parent[i].0@) == parent[i].1@,
    decreases parent.len(),
{
    if i > 0 {
        let rest = parent.drop_first();
        assert(parent[0].0@ != parent[i].0@);
        assert forall|a: int, b: int| 0 <= a < b < rest.len() implies #[trigger] rest[a].0@
            != #[trigger] rest[b].0@ by {
            assert(parent[a + 1].0@ != parent[b + 1].0@);
        }
        assert(rest[i - 1] == parent[i]);
        lemma_first_value(rest, i - 1);
    }
}

proof fn lemma_inherited_value(parent: Seq<Variable>, i: int)
    requires
        distinct_keys(parent),
        0 <= i < parent.len(),
    ensures
        inherited(parent)[parent[i].0@] == parent[i].1@,
    decreases parent.len(),
{
    let last = parent.len() - 1;
    if i < last {
        let front = parent.drop_last();
        assert(parent[i].0@ != parent[last].0@);
        assert forall|a: int, b: int| 0 <= a < b < front.len() implies #[trigger] front[a].0@
            != #[trigger] front[b].0@ by {
            assert(parent[a].0@ != parent[b].0@);
        }
        assert(front[i] == parent[i]);
        lemma_inherited_value(front, i);
    }
}

/// The last operation on a key wins, whatever came before it.
pub proof fn law_last_operation_wins(env: Map<Seq<u8>, Seq<u8>>, ops: Seq<EnvOp>, op: EnvOp)
    ensures
        match op.left() {
            Some(value) => replayed(env, ops.push(op)).contains_key(op.key()) && replayed(
                env,
                ops.push(op),
            )[op.key()] == value,
            None => !replayed(env, ops.push(op)).contains_key(op.key()),
        },
        effective(ops.push(op)).contains_key(op.key()),
        effective(ops.push(op))[op.key()] == op.left(),
{
    assert(ops.push(op).drop_last() =~= ops);
}

/// The child's environment is what the policy takes over from the parent, overlaid by the
/// effective view of the operations: a key in the view has the view's value or is absent, any
/// other key is as the policy left it.
pub proof fn law_effective_view_overlays_the_policy(
    policy: EnvironmentPolicy,
    ops: Seq<EnvOp>,
    parent: Seq<Variable>,
    key: Seq<u8>,
)
    ensures
        effective(ops).contains_key(key) ==> match effective(ops)[key] {
            Some(value) => child(policy, ops, parent).contains_key(key) && child(
                policy,
                ops,
                parent,
            )[key] == value,
            None => !child(policy, ops, parent).contains_key(key),
        },
        !effective(ops).contains_key(key) ==> (child(policy, ops, parent).contains_key(key)
            <==> base(policy, parent).contains_key(key)) && (base(policy, parent).contains_key(key)
            ==> child(policy, ops, parent)[key] == base(policy, parent)[key]),
    decreases ops.len(),
{
    if ops.len() > 0 {
        law_effective_view_overlays_the_policy(policy, ops.drop_last(), parent, key);
    }
}

/// Finds the value of the first variable with the key `key`.
pub fn lookup<'a>(variables: &'a Vec<Variable>, key: &[u8]) -> (found: Option<&'a Vec<u8>>)
    ensures
        found is Some <==> has_key(variables@, key@),
        found matches Some(value) ==> value@ == first_value(variables@, key@),
{
    let mut i: usize = 0;
    assert(variables@.skip(0) =~= variables@);
    while i < variables.len()
        invariant
            i <= variables@.len(),
            forall|j: int| 0 <= j < i ==> #[trigger] variables@[j].0@ != key@,
            first_value(variables@, key@) == first_value(variables@.skip(i as int), key@),
        decreases variables@.len() - i,
    {
        if same_bytes(variables[i].0.as_slice(), key) {
            assert(variables@[i as int].0@ == key@);
            return Some(&variables[i].1);
        }
        assert(variables@.skip(i as int).drop_first() =~= variables@.skip(i + 1));
        i = i + 1;
    }
    None
}

/// Builds the environment that a policy takes over from the parent.
pub fn base_environment(policy: &EnvironmentPolicy, parent: &Vec<Variable>) -> (env: ByteMap<
    Vec<u8>,
>)
    ensures
        values(env@) == base(*policy, parent@),
{
    let mut env: ByteMap<Vec<u8>> = ByteMap::new();
    assert(values(env@) =~= Map::<Seq<u8>, Seq<u8>>::empty());
    match policy {
        EnvironmentPolicy::Clean => {},
        EnvironmentPolicy::Allowlist(keys) => {
            let listed_keys = keys.entries();
            let ghost taken = Map::<Seq<u8>, Seq<u8>>::new(
                |key: Seq<u8>| has_key(listed_keys@.take(0), key) && has_key(parent@, key),
                |key: Seq<u8>| first_value(parent@, key),
            );
            assert(values(env@) =~= taken);
            let mut i: usize = 0;
            while i < listed_keys.len()
                invariant
                    i <= listed_keys@.len(),
                    values(env@) == Map::<Seq<u8>, Seq<u8>>::new(
                        |key: Seq<u8>|
                            has_key(listed_keys@.take(i as int), key) && has_key(parent@, key),
                        |key: Seq<u8>| first_value(parent@, key),
                    ),
                decreases listed_keys@.len() - i,
            {
                let ghost before = values(env@);
                let key = &listed_keys[i].0;
                proof {
                    lemma_has_key_push(listed_keys@, i as int);
                }
                if let Some(value) = lookup(parent, key.as_slice()) {
                    let ghost held = env@;
                    let copy = copy_bytes(value.as_slice());
                    env.insert(copy_bytes(key.as_slice()), copy);
                    assert(values(env@) =~= values(held).insert(key@, copy@));
                }
                assert(values(env@) =~= Map::<Seq<u8>, Seq<u8>>::new(
                    |key: Seq<u8>| has_key(listed_keys@.take(i + 1), key) && has_key(parent@, key),
                    |key: Seq<u8>| first_value(parent@, key),
                ));
                i = i + 1;
            }
            assert(listed_keys@.take(i as int) =~= listed_keys@);
            assert(values(env@) =~= base(*policy, parent@));
        },
        EnvironmentPolicy::InheritAll(_) => {
            let mut i: usize = 0;
            assert(parent@.take(0) =~= Seq::<Variable>::empty());
            while i < parent.len()
                invariant
                    i <= parent@.len(),
                    values(env@) == inherited(parent@.take(i as int)),
                decreases parent@.len() - i,
            {
                let ghost held = env@;
                let value = copy_bytes(parent[i].1.as_slice());
                env.insert(copy_bytes(parent[i].0.as_slice()), value);
                assert(values(env@) =~= values(held).insert(parent@[i as int].0@, value@));
                assert(parent@.take(i + 1).drop_last() =~= parent@.take(i as int));
                i = i + 1;
            }
            assert(parent@.take(i as int) =~= parent@);
        },
    }
    env
}

/// Builds the environment of the child.
pub fn child_environment(
    policy: &EnvironmentPolicy,
    ops: &Vec<EnvOp>,
    parent: &Vec<Variable>,
) -> (env: ByteMap<Vec<u8>>)
    ensures
        values(env@) == child(*policy, ops@, parent@),
{
    let mut env = base_environment(policy, parent);
    let mut i: usize = 0;
    assert(ops@.take(0) =~= Seq::<EnvOp>::empty());
    while i < ops.len()
        invariant
            i <= ops@.len(),
            values(env@) == replayed(base(*policy, parent@), ops@.take(i as int)),
        decreases ops@.len() - i,
    {
        let ghost held = env@;
        match &ops[i] {
            EnvOp::Assign(key, value) => {
                let copy = copy_bytes(value.as_slice());
                env.insert(copy_bytes(key.as_slice()), copy);
                assert(values(env@) =~= values(held).insert(key@, copy@));
            },
            EnvOp::Remove(key) => {
                env.remove(key.as_slice());
                assert(values(env@) =~= values(held).remove(key@));
            },
        }
        assert(ops@.take(i + 1).drop_last() =~= ops@.take(i as int));
        i = i + 1;
    }
    assert(ops@.take(i as int) =~= ops@);
    env
}

/// Builds the effective view of the operations: for each key that they touch, in key order,
/// what the last of them leaves.
pub fn effective_operations(ops: &Vec<EnvOp>) -> (view: ByteMap<Option<Vec<u8>>>)
    ensures
        optional_values(view@) == effective(ops@),
{
    let mut view: ByteMap<Option<Vec<u8>>> = ByteMap::new();
    let mut i: usize = 0;
    assert(ops@.take(0) =~= Seq::<EnvOp>::empty());
    assert(optional_values(view@) =~= Map::<Seq<u8>, Option<Seq<u8>>>::empty());
    while i < ops.len()
        invariant
            i <= ops@.len(),
            optional_values(view@) == effective(ops@.take(i as int)),
        decreases ops@.len() - i,
    {
        let ghost held = view@;
        match &ops[i] {
            EnvOp::Assign(key, value) => {
                let copy = Some(copy_bytes(value.as_slice()));
                view.insert(copy_bytes(key.as_slice()), copy);
                assert(optional_values(view@) =~= optional_values(held).insert(
                    key@,
                    Some(value@),
                ));
            },
            EnvOp::Remove(key) => {
                view.insert(copy_bytes(key.as_slice()), None);
                assert(optional_values(view@) =~= optional_values(held).insert(key@, None));
            },
        }
        assert(ops@.take(i + 1).drop_last() =~= ops@.take(i as int));
        i = i + 1;
    }
    assert(ops@.take(i as int) =~= ops@);
    view
}

} // verus!
