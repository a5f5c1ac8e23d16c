//! What a client may ask to be launched, and the installed policies that admit it.

use vstd::prelude::*;
use crate::bytes;
use crate::bytes::{contains_byte, copy_bytes, copy_strings, is_all_zero, same_bytes, starts_with};
use crate::supervisor::deadline::{SupervisorDeadline, SupervisorWireError};

verus! {

/// Longest policy identifier.
pub const MAX_POLICY_ID_BYTES: usize = 128;

/// Bound on argv, its first element included.
pub const MAX_ARGUMENTS: usize = 64;

/// Most environment entries.
pub const MAX_ENVIRONMENT: usize = 64;

/// Longest argument, key, value or path.
pub const MAX_COMPONENT_BYTES: usize = 4096;

/// `/`
pub const SLASH: u8 = 0x2f;

/// `.`
pub const DOT: u8 = 0x2e;

/// `DYLD_`
pub const DYLD_PREFIX: [u8; 5] = [0x44, 0x59, 0x4c, 0x44, 0x5f];

/// `LD_`
pub const LD_PREFIX: [u8; 3] = [0x4c, 0x44, 0x5f];

/// `__XPC_`
pub const XPC_SERVICE_PREFIX: [u8; 6] = [0x5f, 0x5f, 0x58, 0x50, 0x43, 0x5f];

/// `XPC_`
pub const XPC_PREFIX: [u8; 4] = [0x58, 0x50, 0x43, 0x5f];

/// `NATIVE_IPC_`
pub const OWN_PREFIX: [u8; 11] = [0x4e, 0x41, 0x54, 0x49, 0x56, 0x45, 0x5f, 0x49, 0x50, 0x43, 0x5f];

/// An ASCII letter or digit.
pub open spec fn alphanumeric(byte: u8) -> bool {
    0x30 <= byte <= 0x39 || 0x41 <= byte <= 0x5a || 0x61 <= byte <= 0x7a
}

/// A byte that a policy identifier may hold: a letter, a digit, `.`, `_` or `-`.
pub open spec fn policy_byte(byte: u8) -> bool {
    alphanumeric(byte) || byte == DOT || byte == 0x5f || byte == 0x2d
}

/// A byte that an environment key may hold: a capital, a digit or `_`.
pub open spec fn key_byte(byte: u8) -> bool {
    0x41 <= byte <= 0x5a || 0x30 <= byte <= 0x39 || byte == 0x5f
}

/// A canonical policy identifier: 1 to 128 policy bytes, and neither `.` nor `..`.
pub open spec fn valid_policy_id(id: Seq<u8>) -> bool {
    &&& 0 < id.len() <= MAX_POLICY_ID_BYTES
    &&& id != seq![DOT]
    &&& id != seq![DOT, DOT]
    &&& forall|i: int| 0 <= i < id.len() ==> policy_byte(#[trigger] id[i])
}

/// An argument or environment value: bounded, and free of NUL.
pub open spec fn valid_component(component: Seq<u8>) -> bool {
    component.len() <= MAX_COMPONENT_BYTES && !component.contains(0)
}

/// Whether a key starts with what only the loader, XPC or this library may set.
pub open spec fn privileged_key(key: Seq<u8>) -> bool {
    ||| DYLD_PREFIX@.is_prefix_of(key)
    ||| LD_PREFIX@.is_prefix_of(key)
    ||| XPC_SERVICE_PREFIX@.is_prefix_of(key)
    ||| XPC_PREFIX@.is_prefix_of(key)
    ||| OWN_PREFIX@.is_prefix_of(key)
}

/// An environment key that carries no privilege.
pub open spec fn valid_environment_key(key: Seq<u8>) -> bool {
    &&& 0 < key.len() <= MAX_COMPONENT_BYTES
    &&& forall|i: int| 0 <= i < key.len() ==> key_byte(#[trigger] key[i])
    &&& !privileged_key(key)
}

/// Whether a path component ends before `at`: at the end of the path or at a slash.
pub open spec fn component_ends(path: Seq<u8>, at: int) -> bool {
    at == path.len() || (0 <= at < path.len() && path[at] == SLASH)
}

/// Whether the path component that starts at `at` is empty, `.` or `..`.
pub open spec fn idle_component(path: Seq<u8>, at: int) -> bool {
    ||| component_ends(path, at)
    ||| 0 <= at < path.len() && path[at] == DOT && component_ends(path, at + 1)
    ||| 0 <= at < path.len() - 1 && path[at] == DOT && path[at + 1] == DOT && component_ends(
        path,
        at + 2,
    )
}

/// An absolute path in canonical form: every component is a name.
pub open spec fn valid_executable(path: Seq<u8>) -> bool {
    &&& 0 < path.len() <= MAX_COMPONENT_BYTES
    &&& path[0] == SLASH
    &&& !path.contains(0)
    &&& forall|i: int|
        0 <= i < path.len() && #[trigger] path[i] == SLASH ==> !idle_component(path, i + 1)
}

/// Refuses a policy identifier that is not canonical.
pub fn validate_policy_id(policy_id: &[u8]) -> (r: Result<(), SupervisorWireError>)
    ensures
        r == (if valid_policy_id(policy_id@) {
            Ok(())
        } else {
            Err(SupervisorWireError::InvalidPolicy)
        }),
{
    let length: usize = policy_id.len();
    if length == 0 || length > MAX_POLICY_ID_BYTES {
        return Err(SupervisorWireError::InvalidPolicy);
    }
    if length == 1 && policy_id[0] == DOT {
        assert(policy_id@ =~= seq![DOT]);
        return Err(SupervisorWireError::InvalidPolicy);
    }
    if length == 2 && policy_id[0] == DOT && policy_id[1] == DOT {
        assert(policy_id@ =~= seq![DOT, DOT]);
        return Err(SupervisorWireError::InvalidPolicy);
    }
    let mut i: usize = 0;
    while i < length
        invariant
            i <= length == policy_id@.len(),
            forall|k: int| 0 <= k < i ==> policy_byte(#[trigger] policy_id@[k]),
        decreases length - i,
    {
        let byte: u8 = policy_id[i];
        let letter = (0x41 <= byte && byte <= 0x5a) || (0x61 <= byte && byte <= 0x7a);
        let digit = 0x30 <= byte && byte <= 0x39;
        if !(letter || digit || byte == DOT || byte == 0x5f || byte == 0x2d) {
            assert(!policy_byte(policy_id@[i as int]));
            return Err(SupervisorWireError::InvalidPolicy);
        }
        i += 1;
    }
    Ok(())
}

/// Refuses an installed path that is not absolute and canonical.
pub fn validate_installed_executable(path: &[u8]) -> (r: Result<(), SupervisorWireError>)
    ensures
        r == (if valid_executable(path@) {
            Ok(())
        } else {
            Err(SupervisorWireError::InvalidPolicy)
        }),
{
    let length: usize = path.len();
    if length == 0 || length > MAX_COMPONENT_BYTES || path[0] != SLASH || contains_byte(path, 0) {
        return Err(SupervisorWireError::InvalidPolicy);
    }
    let mut i: usize = 0;
    while i < length
        invariant
            i <= length == path@.len(),
            length <= MAX_COMPONENT_BYTES,
            forall|k: int|
                0 <= k < i && #[trigger] path@[k] == SLASH ==> !idle_component(path@, k + 1),
        decreases length - i,
    {
        if path[i] == SLASH {
            let empty = i + 1 == length || path[i + 1] == SLASH;
            let dot = i + 1 < length && path[i + 1] == DOT && (i + 2 == length || path[i + 2]
                == SLASH);
            let dots = i + 2 < length && path[i + 1] == DOT && path[i + 2] == DOT && (i + 3
                == length || path[i + 3] == SLASH);
            assert((empty || dot || dots) == idle_component(path@, i + 1));
            if empty || dot || dots {
                return Err(SupervisorWireError::InvalidPolicy);
            }
        }
        i += 1;
    }
    Ok(())
}

/// Refuses an argument or value that is too long or holds a NUL.
pub fn validate_component(component: &[u8]) -> (r: Result<(), SupervisorWireError>)
    ensures
        r == (if valid_component(component@) {
            Ok(())
        } else {
            Err(SupervisorWireError::InvalidTargetInput)
        }),
{
    if component.len() > MAX_COMPONENT_BYTES || contains_byte(component, 0) {
        return Err(SupervisorWireError::InvalidTargetInput);
    }
    Ok(())
}

/// Refuses an environment key that is not canonical or carries privilege.
pub fn validate_environment_key(key: &[u8]) -> (r: Result<(), SupervisorWireError>)
    ensures
        r == (if valid_environment_key(key@) {
            Ok(())
        } else {
            Err(SupervisorWireError::InvalidTargetInput)
        }),
{
    let length: usize = key.len();
    if length == 0 || length > MAX_COMPONENT_BYTES {
        return Err(SupervisorWireError::InvalidTargetInput);
    }
    let mut i: usize = 0;
    while i < length
        invariant
            i <= length == key@.len(),
            forall|k: int| 0 <= k < i ==> key_byte(#[trigger] key@[k]),
        decreases length - i,
    {
        let byte: u8 = key[i];
        if !((0x41 <= byte && byte <= 0x5a) || (0x30 <= byte && byte <= 0x39) || byte == 0x5f) {
            assert(!key_byte(key@[i as int]));
            return Err(SupervisorWireError::InvalidTargetInput);
        }
        i += 1;
    }
    if starts_with(key, &DYLD_PREFIX) || starts_with(key, &LD_PREFIX) || starts_with(
        key,
        &XPC_SERVICE_PREFIX,
    ) || starts_with(key, &XPC_PREFIX) || starts_with(key, &OWN_PREFIX) {
        return Err(SupervisorWireError::InvalidTargetInput);
    }
    Ok(())
}

/// One environment entry.
#[verifier::ext_equal]
pub struct EntryModel {
    pub key: Seq<u8>,
    pub value: Seq<u8>,
}

/// A canonical entry: the key carries no privilege and the value is a component.
pub open spec fn valid_entry(entry: EntryModel) -> bool {
    valid_environment_key(entry.key) && valid_component(entry.value)
}

/// One environment entry delivered to the target only.
#[derive(Debug, PartialEq, Eq)]
pub struct TargetEnvironmentEntry {
    key: Vec<u8>,
    value: Vec<u8>,
}

impl View for TargetEnvironmentEntry {
    type V = EntryModel;

    closed spec fn view(&self) -> EntryModel {
        EntryModel { key: self.key@, value: self.value@ }
    }
}

/// What a list of entries holds.
pub open spec fn entries(list: Seq<TargetEnvironmentEntry>) -> Seq<EntryModel> {
    list.map_values(|entry: TargetEnvironmentEntry| entry@)
}

impl TargetEnvironmentEntry {
    #[verifier::type_invariant]
    spec fn valid(self) -> bool {
        valid_entry(self@)
    }

    /// Binds a key to a value; a privileged or noncanonical one is refused.
    pub fn new(key: Vec<u8>, value: Vec<u8>) -> (r: Result<
        TargetEnvironmentEntry,
        SupervisorWireError,
    >)
        ensures
            match r {
                Ok(entry) => {
                    &&& entry@ == (EntryModel { key: key@, value: value@ })
                    &&& valid_entry(entry@)
                },
                Err(error) => {
                    &&& error == SupervisorWireError::InvalidTargetInput
                    &&& !valid_entry((EntryModel { key: key@, value: value@ }))
                },
            },
    {
        match validate_environment_key(&key) {
            Err(error) => {
                return Err(error);
            },
            Ok(()) => {},
        }
        match validate_component(&value) {
            Err(error) => {
                return Err(error);
            },
            Ok(()) => {},
        }
        Ok(TargetEnvironmentEntry { key, value })
    }

    /// The key.
    pub fn key(&self) -> (r: &[u8])
        ensures
            r@ == self@.key,
    {
        &self.key
    }

    /// The value.
    pub fn value(&self) -> (r: &[u8])
        ensures
            r@ == self@.value,
    {
        &self.value
    }
}

impl Clone for TargetEnvironmentEntry {
    fn clone(&self) -> (r: TargetEnvironmentEntry)
        ensures
            r@ == self@,
    {
        proof {
            use_type_invariant(self);
        }
        TargetEnvironmentEntry { key: copy_bytes(&self.key), value: copy_bytes(&self.value) }
    }
}

/// Every list of entries is canonical, as each entry is.
fn prove_entries(list: &Vec<TargetEnvironmentEntry>)
    ensures
        valid_environment(entries(list@)),
{
    let mut i: usize = 0;
    while i < list.len()
        invariant
            i <= list@.len(),
            forall|k: int| 0 <= k < i ==> valid_entry(#[trigger] entries(list@)[k]),
        decreases list@.len() - i,
    {
        let entry = &list[i];
        proof {
            use_type_invariant(entry);
        }
        i += 1;
    }
}

/// A copy of a list of entries.
pub fn copy_entries(list: &Vec<TargetEnvironmentEntry>) -> (r: Vec<TargetEnvironmentEntry>)
    ensures
        entries(r@) == entries(list@),
        r@.len() == list@.len(),
{
    let mut out: Vec<TargetEnvironmentEntry> = Vec::new();
    let mut i: usize = 0;
    while i < list.len()
        invariant
            i <= list@.len(),
            out@.len() == i,
            forall|k: int| 0 <= k < i ==> out@[k]@ == list@[k]@,
        decreases list@.len() - i,
    {
        out.push(list[i].clone());
        i += 1;
    }
    assert(entries(out@) =~= entries(list@));
    out
}

/// A launch request: a deadline, the name of a policy, and what goes to the target.
#[verifier::ext_equal]
pub struct RequestModel {
    pub deadline: SupervisorDeadline,
    pub policy_id: Seq<u8>,
    pub arguments: Seq<Seq<u8>>,
    pub environment: Seq<EntryModel>,
}

/// Whether every argument is a component.
pub open spec fn valid_arguments(arguments: Seq<Seq<u8>>) -> bool {
    forall|i: int| 0 <= i < arguments.len() ==> valid_component(#[trigger] arguments[i])
}

/// Whether every entry is canonical.
pub open spec fn valid_environment(environment: Seq<EntryModel>) -> bool {
    forall|i: int| 0 <= i < environment.len() ==> valid_entry(#[trigger] environment[i])
}

/// The request, or why it is refused: first its policy name, then its size, then its arguments.
pub open spec fn checked_request(request: RequestModel) -> Result<
    RequestModel,
    SupervisorWireError,
> {
    if !valid_policy_id(request.policy_id) {
        Err(SupervisorWireError::InvalidPolicy)
    } else if request.arguments.len() >= MAX_ARGUMENTS || request.environment.len()
        > MAX_ENVIRONMENT {
        Err(SupervisorWireError::LimitExceeded)
    } else if !valid_arguments(request.arguments) {
        Err(SupervisorWireError::InvalidTargetInput)
    } else {
        Ok(request)
    }
}

/// What holds of every request.
pub open spec fn valid_request(request: RequestModel) -> bool {
    checked_request(request) is Ok && valid_environment(request.environment)
}

/// Canonical target request; it names no executable and carries no process authority.
#[derive(Debug, PartialEq, Eq)]
pub struct SpawnRequest {
    deadline: SupervisorDeadline,
    policy_id: Vec<u8>,
    arguments: Vec<Vec<u8>>,
    environment: Vec<TargetEnvironmentEntry>,
}

impl View for SpawnRequest {
    type V = RequestModel;

    closed spec fn view(&self) -> RequestModel {
        RequestModel {
            deadline: self.deadline,
            policy_id: self.policy_id@,
            arguments: bytes::strings(self.arguments@),
            environment: entries(self.environment@),
        }
    }
}

impl SpawnRequest {
    #[verifier::type_invariant]
    spec fn valid(self) -> bool {
        valid_request(self@)
    }

    /// Binds a request; one that is not canonical is refused.
    pub fn new(
        deadline: SupervisorDeadline,
        policy_id: Vec<u8>,
        arguments: Vec<Vec<u8>>,
        environment: Vec<TargetEnvironmentEntry>,
    ) -> (r: Result<SpawnRequest, SupervisorWireError>)
        ensures
            ({
                let model = RequestModel {
                    deadline,
                    policy_id: policy_id@,
                    arguments: bytes::strings(arguments@),
                    environment: entries(environment@),
                };
                match (r, checked_request(model)) {
                    (Ok(request), Ok(_)) => request@ == model && valid_request(model),
                    (Err(error), Err(expected)) => error == expected,
                    _ => false,
                }
            }),
    {
        match validate_policy_id(&policy_id) {
            Err(error) => {
                return Err(error);
            },
            Ok(()) => {},
        }
        if arguments.len() >= MAX_ARGUMENTS || environment.len() > MAX_ENVIRONMENT {
            return Err(SupervisorWireError::LimitExceeded);
        }
        let mut i: usize = 0;
        while i < arguments.len()
            invariant
                i <= arguments@.len() < MAX_ARGUMENTS,
                environment@.len() <= MAX_ENVIRONMENT,
                valid_policy_id(policy_id@),
                forall|k: int| 0 <= k < i ==> valid_component(#[trigger] arguments@[k]@),
            decreases arguments@.len() - i,
        {
            match validate_component(&arguments[i]) {
                Err(error) => {
                    assert(!valid_component(bytes::strings(arguments@)[i as int]));
                    return Err(error);
                },
                Ok(()) => {},
            }
            i += 1;
        }
        prove_entries(&environment);
        Ok(SpawnRequest { deadline, policy_id, arguments, environment })
    }

    /// When the authority of the request ends. Every request is canonical.
    pub fn deadline(&self) -> (r: SupervisorDeadline)
        ensures
            r == self@.deadline,
            valid_request(self@),
    {
        proof {
            use_type_invariant(self);
        }
        self.deadline
    }

    /// The policy that is asked for.
    pub fn policy_id(&self) -> (r: &[u8])
        ensures
            r@ == self@.policy_id,
    {
        &self.policy_id
    }

    /// What follows the policy's own argument zero.
    pub fn arguments(&self) -> (r: &Vec<Vec<u8>>)
        ensures
            bytes::strings(r@) == self@.arguments,
    {
        &self.arguments
    }

    /// The target environment.
    pub fn environment(&self) -> (r: &Vec<TargetEnvironmentEntry>)
        ensures
            entries(r@) == self@.environment,
    {
        &self.environment
    }

    /// Gives the parts away.
    pub fn into_parts(self) -> (r: (
        SupervisorDeadline,
        Vec<u8>,
        Vec<Vec<u8>>,
        Vec<TargetEnvironmentEntry>,
    ))
        ensures
            r.0 == self@.deadline,
            r.1@ == self@.policy_id,
            bytes::strings(r.2@) == self@.arguments,
            entries(r.3@) == self@.environment,
            valid_request(self@),
    {
        proof {
            use_type_invariant(&self);
        }
        (self.deadline, self.policy_id, self.arguments, self.environment)
    }
}

impl Clone for SpawnRequest {
    fn clone(&self) -> (r: SpawnRequest)
        ensures
            r@ == self@,
    {
        proof {
            use_type_invariant(self);
        }
        SpawnRequest {
            deadline: self.deadline,
            policy_id: copy_bytes(&self.policy_id),
            arguments: copy_strings(&self.arguments),
            environment: copy_entries(&self.environment),
        }
    }
}

/// Whether a path can name a helper of the installation: absolute, and longer than the slash.
pub open spec fn helper_path(path: Seq<u8>) -> bool {
    path.len() > 1 && path[0] == SLASH
}

/// Whether a path can name a helper of the installation.
pub fn is_deployer_helper_path(path: &[u8]) -> (r: bool)
    ensures
        r == helper_path(path@),
{
    path.len() > 1 && path[0] == SLASH
}

/// A copy of a helper path; requests never supply one.
pub fn deployer_helper_path(path: &[u8]) -> (r: Option<Vec<u8>>)
    ensures
        r is Some <==> helper_path(path@),
        r matches Some(copy) ==> copy@ == path@,
{
    if is_deployer_helper_path(path) {
        Some(copy_bytes(path))
    } else {
        None
    }
}

/// A policy identifier is any text of 1 to 128 letters, digits, points, underscores and hyphens but
/// `.` and `..`, and nothing else is one.
pub proof fn law_policy_ids(id: Seq<u8>)
    ensures
        valid_policy_id(id) <==> {
            &&& 1 <= id.len() <= 128
            &&& forall|i: int|
                0 <= i < id.len() ==> {
                    let byte = #[trigger] id[i];
                    ||| 0x30 <= byte <= 0x39
                    ||| 0x41 <= byte <= 0x5a
                    ||| 0x61 <= byte <= 0x7a
                    ||| byte == 0x2e || byte == 0x5f || byte == 0x2d
                }
            &&& !(id.len() == 1 && id[0] == 0x2e)
            &&& !(id.len() == 2 && id[0] == 0x2e && id[1] == 0x2e)
        },
{
    assert(id.len() == 1 && id[0] == 0x2e ==> id =~= seq![DOT]);
    assert(id.len() == 2 && id[0] == 0x2e && id[1] == 0x2e ==> id =~= seq![DOT, DOT]);
}

/// An environment key is any text of 1 to 4096 capital letters, digits and underscores that does
/// not begin like a variable of the loader, of XPC or of this library, and nothing else is one.
pub proof fn law_environment_keys(key: Seq<u8>)
    ensures
        valid_environment_key(key) <==> {
            &&& 1 <= key.len() <= 4096
            &&& forall|i: int|
                0 <= i < key.len() ==> {
                    let byte = #[trigger] key[i];
                    0x30 <= byte <= 0x39 || 0x41 <= byte <= 0x5a || byte == 0x5f
                }
            &&& !begins(key, seq![0x44u8, 0x59, 0x4c, 0x44, 0x5f])
            &&& !begins(key, seq![0x4cu8, 0x44, 0x5f])
            &&& !begins(key, seq![0x5fu8, 0x5f, 0x58, 0x50, 0x43, 0x5f])
            &&& !begins(key, seq![0x58u8, 0x50, 0x43, 0x5f])
            &&& !begins(
                key,
                seq![0x4eu8, 0x41, 0x54, 0x49, 0x56, 0x45, 0x5f, 0x49, 0x50, 0x43, 0x5f],
            )
        },
{
    assert(DYLD_PREFIX@ =~= seq![0x44u8, 0x59, 0x4c, 0x44, 0x5f]);
    assert(LD_PREFIX@ =~= seq![0x4cu8, 0x44, 0x5f]);
    assert(XPC_SERVICE_PREFIX@ =~= seq![0x5fu8, 0x5f, 0x58, 0x50, 0x43, 0x5f]);
    assert(XPC_PREFIX@ =~= seq![0x58u8, 0x50, 0x43, 0x5f]);
    assert(OWN_PREFIX@ =~= seq![
        0x4eu8,
        0x41,
        0x54,
        0x49,
        0x56,
        0x45,
        0x5f,
        0x49,
        0x50,
        0x43,
        0x5f,
    ]);
    lemma_begins(key, DYLD_PREFIX@);
    lemma_begins(key, LD_PREFIX@);
    lemma_begins(key, XPC_SERVICE_PREFIX@);
    lemma_begins(key, XPC_PREFIX@);
    lemma_begins(key, OWN_PREFIX@);
}

/// Whether a text begins with another.
pub open spec fn begins(text: Seq<u8>, prefix: Seq<u8>) -> bool {
    exists|rest: Seq<u8>| text == #[trigger] (prefix + rest)
}

proof fn lemma_begins(text: Seq<u8>, prefix: Seq<u8>)
    ensures
        begins(text, prefix) <==> prefix.is_prefix_of(text),
{
    if prefix.is_prefix_of(text) {
        let rest = text.subrange(prefix.len() as int, text.len() as int);
        assert(text =~= prefix + rest);
    }
    if begins(text, prefix) {
        let rest = choose|rest: Seq<u8>| text == #[trigger] (prefix + rest);
        assert(prefix =~= text.subrange(0, prefix.len() as int));
    }
}

/// Whether a text can stand between two slashes of a path.
pub open spec fn names_a_step(step: Seq<u8>) -> bool {
    &&& step.len() > 0
    &&& !step.contains(0)
    &&& !step.contains(0x2f)
    &&& !(step.len() == 1 && step[0] == 0x2e)
    &&& !(step.len() == 2 && step[0] == 0x2e && step[1] == 0x2e)
}

/// The paths of executables are built step by step: behind a slash, and behind an executable's path
/// and a slash, each step that is neither empty nor `.` nor `..` makes another, as long as it is no
/// longer than 4096 bytes, and no other step does.
pub proof fn law_executables_are_built_by_steps(path: Seq<u8>, step: Seq<u8>)
    requires
        !step.contains(0x2f),
    ensures
        valid_executable(path + seq![0x2fu8] + step) <==> {
            &&& path.len() == 0 || valid_executable(path)
            &&& names_a_step(step)
            &&& path.len() + 1 + step.len() <= 4096
        },
{
    let whole = path + seq![0x2fu8] + step;
    let n = path.len() as int;
    assert(whole[n] == SLASH);
    assert forall|i: int| n < i < whole.len() implies #[trigger] whole[i] != SLASH by {
        assert(step[i - n - 1] == whole[i]);
    }
    assert(forall|i: int| 0 <= i < n ==> #[trigger] whole[i] == path[i]);
    assert(forall|i: int| 0 <= i < step.len() ==> whole[n + 1 + i] == #[trigger] step[i]);
    assert(whole.contains(0) <==> path.contains(0) || step.contains(0)) by {
        if whole.contains(0) {
            let i = whole.index_of(0);
            if i < n {
                assert(path[i] == 0);
            } else {
                assert(step[i - n - 1] == 0);
            }
        }
        if path.contains(0) {
            let i = path.index_of(0);
            assert(whole[i] == 0);
        }
        if step.contains(0) {
            let i = step.index_of(0);
            assert(whole[n + 1 + i] == 0);
        }
    }
    // Behind the last slash stands the step, and nothing follows it.
    assert(idle_component(whole, n + 1) <==> step.len() == 0 || (step.len() == 1 && step[0] == 0x2e)
        || (step.len() == 2 && step[0] == 0x2e && step[1] == 0x2e)) by {
        if step.len() > 0 {
            assert(whole[n + 1] == step[0]);
        }
        if step.len() > 1 {
            assert(whole[n + 2] == step[1]);
        }
        if step.len() > 2 {
            assert(whole[n + 3] == step[2]);
        }
    }
    // Behind each earlier slash the path reads as before.
    assert forall|i: int| 0 <= i < n && path[i] == SLASH implies idle_component(whole, i + 1)
        == idle_component(path, i + 1) by {
        assert(component_ends(whole, i + 1) == component_ends(path, i + 1));
        if i + 2 <= n {
            assert(component_ends(whole, i + 2) == component_ends(path, i + 2));
        }
        if i + 3 <= n {
            assert(component_ends(whole, i + 3) == component_ends(path, i + 3));
        }
    }
    let good = {
        &&& path.len() == 0 || valid_executable(path)
        &&& names_a_step(step)
        &&& path.len() + 1 + step.len() <= 4096
    };
    if valid_executable(whole) {
        if n > 0 {
            assert(path[0] == SLASH);
            assert forall|i: int| 0 <= i < path.len() && #[trigger] path[i]
                == SLASH implies !idle_component(path, i + 1) by {
                assert(whole[i] == SLASH);
            }
        }
        assert(good);
    }
    if good {
        assert forall|i: int| 0 <= i < whole.len() && #[trigger] whole[i]
            == SLASH implies !idle_component(whole, i + 1) by {
            if i < n {
                assert(path[i] == SLASH);
            }
        }
        assert(whole[0] == SLASH);
        assert(valid_executable(whole));
    }
}

/// A request in order is kept as it is, and one is in order exactly where its policy identifier is
/// valid, it has fewer than 64 arguments and at most 64 variables, and no argument is longer than
/// 4096 bytes or holds a NUL.
pub proof fn law_requests_are_kept(request: RequestModel)
    ensures
        checked_request(request) matches Ok(kept) ==> kept == request,
        checked_request(request) is Ok <==> {
            &&& valid_policy_id(request.policy_id)
            &&& request.arguments.len() < 64
            &&& request.environment.len() <= 64
            &&& forall|i: int|
                0 <= i < request.arguments.len() ==> {
                    let argument = #[trigger] request.arguments[i];
                    argument.len() <= 4096 && !argument.contains(0)
                }
        },
        !valid_policy_id(request.policy_id) ==> checked_request(request) == Err::<RequestModel, _>(
            SupervisorWireError::InvalidPolicy,
        ),
        valid_policy_id(request.policy_id) && (request.arguments.len() >= 64
            || request.environment.len() > 64) ==> checked_request(request) == Err::<
            RequestModel,
            _,
        >(SupervisorWireError::LimitExceeded),
{
}

/// A variable may have any value of at most 4096 bytes without a NUL, the empty one too.
pub proof fn law_values(entry: EntryModel)
    ensures
        valid_entry(entry) <==> valid_environment_key(entry.key) && entry.value.len() <= 4096
            && !entry.value.contains(0),
{
}

/// The path of a helper is any that begins with a slash and goes on.
pub proof fn law_helper_paths(path: Seq<u8>)
    ensures
        helper_path(path) <==> path.len() >= 2 && path[0] == 0x2f,
{
}

} // verus!
