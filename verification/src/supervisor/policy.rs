//! Installed target policies, and the admission of authenticated requests by them.

use vstd::prelude::*;
use crate::bytes;
use crate::bytes::{copy_bytes, copy_strings, is_all_zero, same_bytes};
use crate::order;
use crate::order::{find, sort_distinct, standing, Standing};
use crate::supervisor::deadline::{
    SupervisorDeadline, SupervisorDeadlineBinding, SupervisorWireError,
};
use crate::supervisor::peer::{ConnectionIdentity, VerifiedPeer};
use crate::supervisor::target;
use crate::supervisor::target::{
    copy_entries, validate_component, validate_environment_key, validate_installed_executable,
    validate_policy_id, EntryModel, RequestModel, SpawnRequest, TargetEnvironmentEntry,
    MAX_ARGUMENTS, MAX_ENVIRONMENT,
};

verus! {

/// What an installed policy says: which client may start which installed image, with how many
/// further arguments and which environment keys.
#[verifier::ext_equal]
pub struct PolicyModel {
    pub policy_id: Seq<u8>,
    pub client: Seq<u8>,
    pub target: Seq<u8>,
    pub executable: Seq<u8>,
    pub argument0: Seq<u8>,
    pub maximum: nat,
    pub keys: Set<Seq<u8>>,
}

/// Whether every key may be set.
pub open spec fn valid_keys(keys: Seq<Seq<u8>>) -> bool {
    forall|i: int| 0 <= i < keys.len() ==> target::valid_environment_key(#[trigger] keys[i])
}

/// Whether the fixed parts of a policy are in order.
pub open spec fn policy_in_order(
    client: Seq<u8>,
    target: Seq<u8>,
    argument0: Seq<u8>,
    maximum: nat,
    key_count: nat,
) -> bool {
    &&& !bytes::all_zero(client)
    &&& !bytes::all_zero(target)
    &&& argument0.len() > 0
    &&& maximum < MAX_ARGUMENTS
    &&& key_count <= MAX_ENVIRONMENT
}

/// The policy, or why it is refused.
pub open spec fn checked_policy(
    policy_id: Seq<u8>,
    client: Seq<u8>,
    target: Seq<u8>,
    executable: Seq<u8>,
    argument0: Seq<u8>,
    maximum: nat,
    keys: Seq<Seq<u8>>,
) -> Result<PolicyModel, SupervisorWireError> {
    if !target::valid_policy_id(policy_id) || !target::valid_executable(executable) {
        Err(SupervisorWireError::InvalidPolicy)
    } else if !target::valid_component(argument0) {
        Err(SupervisorWireError::InvalidTargetInput)
    } else if !policy_in_order(client, target, argument0, maximum, keys.len()) {
        Err(SupervisorWireError::InvalidPolicy)
    } else if !valid_keys(keys) {
        Err(SupervisorWireError::InvalidTargetInput)
    } else if !keys.no_duplicates() {
        Err(SupervisorWireError::InvalidPolicy)
    } else {
        Ok(
            PolicyModel {
                policy_id,
                client,
                target,
                executable,
                argument0,
                maximum,
                keys: keys.to_set(),
            },
        )
    }
}

/// What holds of every policy.
pub open spec fn valid_policy(policy: PolicyModel) -> bool {
    &&& target::valid_policy_id(policy.policy_id)
    &&& target::valid_executable(policy.executable)
    &&& target::valid_component(policy.argument0)
    &&& 0 < policy.argument0.len()
    &&& !bytes::all_zero(policy.client)
    &&& !bytes::all_zero(policy.target)
    &&& policy.maximum < MAX_ARGUMENTS
}

/// Policy data as it stands in the installation; by itself it authorizes nothing.
#[derive(Debug, PartialEq, Eq)]
pub struct TargetPolicyDefinition {
    policy_id: Vec<u8>,
    authorized_client_code_identity: [u8; 32],
    target_identity: [u8; 32],
    installed_executable: Vec<u8>,
    argument0: Vec<u8>,
    maximum_additional_arguments: usize,
    allowed_environment_keys: Vec<Vec<u8>>,
}

impl View for TargetPolicyDefinition {
    type V = PolicyModel;

    closed spec fn view(&self) -> PolicyModel {
        PolicyModel {
            policy_id: self.policy_id@,
            client: self.authorized_client_code_identity@,
            target: self.target_identity@,
            executable: self.installed_executable@,
            argument0: self.argument0@,
            maximum: self.maximum_additional_arguments as nat,
            keys: bytes::strings(self.allowed_environment_keys@).to_set(),
        }
    }
}

impl TargetPolicyDefinition {
    #[verifier::type_invariant]
    spec fn valid(self) -> bool {
        &&& valid_policy(self@)
        &&& order::ascends(bytes::strings(self.allowed_environment_keys@))
    }

    /// Checks and binds one definition. The keys may come in any order.
    pub fn new(
        policy_id: Vec<u8>,
        authorized_client_code_identity: [u8; 32],
        target_identity: [u8; 32],
        installed_executable: Vec<u8>,
        argument0: Vec<u8>,
        maximum_additional_arguments: usize,
        allowed_environment_keys: Vec<Vec<u8>>,
    ) -> (r: Result<TargetPolicyDefinition, SupervisorWireError>)
        ensures
            match (
                r,
                checked_policy(
                    policy_id@,
                    authorized_client_code_identity@,
                    target_identity@,
                    installed_executable@,
                    argument0@,
                    maximum_additional_arguments as nat,
                    bytes::strings(allowed_environment_keys@),
                ),
            ) {
                (Ok(definition), Ok(model)) => definition@ == model,
                (Err(error), Err(expected)) => error == expected,
                _ => false,
            },
    {
        match validate_policy_id(&policy_id) {
            Err(error) => {
                return Err(error);
            },
            Ok(()) => {},
        }
        match validate_installed_executable(&installed_executable) {
            Err(error) => {
                return Err(error);
            },
            Ok(()) => {},
        }
        match validate_component(&argument0) {
            Err(error) => {
                return Err(error);
            },
            Ok(()) => {},
        }
        if is_all_zero(&authorized_client_code_identity) || is_all_zero(&target_identity)
            || argument0.len() == 0 || maximum_additional_arguments >= MAX_ARGUMENTS
            || allowed_environment_keys.len() > MAX_ENVIRONMENT {
            return Err(SupervisorWireError::InvalidPolicy);
        }
        let ghost given = bytes::strings(allowed_environment_keys@);
        match validate_keys(&allowed_environment_keys) {
            Err(error) => {
                return Err(error);
            },
            Ok(()) => {},
        }
        match sort_distinct(allowed_environment_keys) {
            None => Err(SupervisorWireError::InvalidPolicy),
            Some(sorted) => {
                proof {
                    lemma_same_set(bytes::strings(sorted@), given);
                }
                Ok(
                    TargetPolicyDefinition {
                        policy_id,
                        authorized_client_code_identity,
                        target_identity,
                        installed_executable,
                        argument0,
                        maximum_additional_arguments,
                        allowed_environment_keys: sorted,
                    },
                )
            },
        }
    }
}

/// Refuses a list with a key that is not canonical or carries privilege.
fn validate_keys(keys: &Vec<Vec<u8>>) -> (r: Result<(), SupervisorWireError>)
    ensures
        r == (if valid_keys(bytes::strings(keys@)) {
            Ok(())
        } else {
            Err(SupervisorWireError::InvalidTargetInput)
        }),
{
    let mut i: usize = 0;
    while i < keys.len()
        invariant
            i <= keys@.len(),
            forall|k: int| 0 <= k < i
                ==> target::valid_environment_key(#[trigger] bytes::strings(keys@)[k]),
        decreases keys@.len() - i,
    {
        match validate_environment_key(&keys[i]) {
            Err(error) => {
                assert(!target::valid_environment_key(bytes::strings(keys@)[i as int]));
                return Err(error);
            },
            Ok(()) => {},
        }
        i += 1;
    }
    Ok(())
}

/// Lists with the same contents hold the same set.
proof fn lemma_same_set(a: Seq<Seq<u8>>, b: Seq<Seq<u8>>)
    requires
        a.to_multiset() == b.to_multiset(),
    ensures
        a.to_set() == b.to_set(),
{
    a.to_multiset_ensures();
    b.to_multiset_ensures();
    assert forall|x: Seq<u8>| a.contains(x) == b.contains(x) by {
        assert(a.contains(x) <==> a.to_multiset().count(x) > 0);
        assert(b.contains(x) <==> b.to_multiset().count(x) > 0);
    }
    assert(a.to_set() =~= b.to_set());
}

/// A request whose sender is authenticated; it may not select or launch anything yet.
#[verifier::ext_equal]
pub struct AuthenticatedModel {
    pub peer: VerifiedPeer,
    pub wire_deadline: SupervisorDeadline,
    pub local_deadline: u64,
    pub request: RequestModel,
}

/// An authenticated request.
#[derive(Debug, PartialEq, Eq)]
pub struct AuthenticatedSpawnRequest {
    peer: VerifiedPeer,
    deadline: SupervisorDeadlineBinding,
    request: SpawnRequest,
}

impl View for AuthenticatedSpawnRequest {
    type V = AuthenticatedModel;

    closed spec fn view(&self) -> AuthenticatedModel {
        AuthenticatedModel {
            peer: self.peer,
            wire_deadline: self.deadline.spec_wire(),
            local_deadline: self.deadline.spec_local(),
            request: self.request@,
        }
    }
}

impl AuthenticatedSpawnRequest {
    /// Binds a request to the peer and the deadline that it came with.
    pub(crate) fn bind(
        peer: VerifiedPeer,
        deadline: SupervisorDeadlineBinding,
        request: SpawnRequest,
    ) -> (r: AuthenticatedSpawnRequest)
        ensures
            r@ == (AuthenticatedModel {
                peer,
                wire_deadline: deadline.spec_wire(),
                local_deadline: deadline.spec_local(),
                request: request@,
            }),
    {
        AuthenticatedSpawnRequest { peer, deadline, request }
    }

    /// The peer that sent the request.
    pub fn peer(&self) -> (r: VerifiedPeer)
        ensures
            r == self@.peer,
    {
        self.peer
    }

    /// The request.
    pub fn request(&self) -> (r: &SpawnRequest)
        ensures
            r@ == self@.request,
    {
        &self.request
    }

    /// Resolves the request through the installed catalog: an unknown policy is refused, a known
    /// one decides.
    pub fn validate(self, catalog: &InstalledPolicyCatalog) -> (r: Result<
        ValidatedSpawn,
        SupervisorWireError,
    >)
        ensures
            match (r, resolved(catalog@, self@)) {
                (Ok(spawn), Ok(model)) => spawn@ == model,
                (Err(error), Err(expected)) => error == expected,
                _ => false,
            },
    {
        match catalog.resolve(self.request.policy_id()) {
            None => Err(SupervisorWireError::InvalidPolicy),
            Some(policy) => policy.validate(self),
        }
    }
}

/// A request that an installed policy has admitted.
#[verifier::ext_equal]
pub struct SpawnModel {
    pub peer: VerifiedPeer,
    pub wire_deadline: SupervisorDeadline,
    pub local_deadline: u64,
    pub policy_id: Seq<u8>,
    pub target: Seq<u8>,
    pub executable: Seq<u8>,
    pub arguments: Seq<Seq<u8>>,
    pub environment: Seq<EntryModel>,
}

/// Whether every entry has an allowed key and no key comes twice.
pub open spec fn environment_allowed(environment: Seq<EntryModel>, keys: Set<Seq<u8>>) -> bool {
    &&& forall|i: int| 0 <= i < environment.len() ==> keys.contains((#[trigger] environment[i]).key)
    &&& forall|i: int, j: int|
        0 <= i < j < environment.len() ==> (#[trigger] environment[i]).key != (
        #[trigger] environment[j]).key
}

/// What a policy makes of a request: argv is the policy's own argument zero followed by the
/// requested arguments, and the image and its identity are the policy's alone.
pub open spec fn admitted(policy: PolicyModel, request: AuthenticatedModel) -> Result<
    SpawnModel,
    SupervisorWireError,
> {
    if request.request.policy_id != policy.policy_id {
        Err(SupervisorWireError::InvalidPolicy)
    } else if request.peer.code_identity@ != policy.client {
        Err(SupervisorWireError::PeerMismatch)
    } else if request.request.arguments.len() > policy.maximum || !environment_allowed(
        request.request.environment,
        policy.keys,
    ) {
        Err(SupervisorWireError::InvalidTargetInput)
    } else {
        Ok(
            SpawnModel {
                peer: request.peer,
                wire_deadline: request.wire_deadline,
                local_deadline: request.local_deadline,
                policy_id: policy.policy_id,
                target: policy.target,
                executable: policy.executable,
                arguments: seq![policy.argument0] + request.request.arguments,
                environment: request.request.environment,
            },
        )
    }
}

/// What a catalog makes of a request.
pub open spec fn resolved(
    catalog: Map<Seq<u8>, PolicyModel>,
    request: AuthenticatedModel,
) -> Result<SpawnModel, SupervisorWireError> {
    if catalog.contains_key(request.request.policy_id) {
        admitted(catalog[request.request.policy_id], request)
    } else {
        Err(SupervisorWireError::InvalidPolicy)
    }
}

/// One installed policy: an authenticated client and the installed target that it may start.
#[derive(Debug, PartialEq, Eq)]
pub struct InstalledTargetPolicy {
    definition: TargetPolicyDefinition,
}

impl View for InstalledTargetPolicy {
    type V = PolicyModel;

    closed spec fn view(&self) -> PolicyModel {
        self.definition@
    }
}

impl InstalledTargetPolicy {
    /// Installs a definition.
    pub fn from_definition(definition: TargetPolicyDefinition) -> (r: InstalledTargetPolicy)
        ensures
            r@ == definition@,
    {
        InstalledTargetPolicy { definition }
    }

    /// Whether the policy allows every key of an environment, each at most once.
    fn allows_environment(&self, environment: &Vec<TargetEnvironmentEntry>) -> (r: bool)
        ensures
            r == environment_allowed(target::entries(environment@), self@.keys),
    {
        let definition = &self.definition;
        proof {
            use_type_invariant(definition);
        }
        let keys = &definition.allowed_environment_keys;
        let ghost model = target::entries(environment@);
        let mut i: usize = 0;
        while i < environment.len()
            invariant
                i <= environment@.len(),
                model == target::entries(environment@),
                order::ascends(bytes::strings(keys@)),
                self@.keys == bytes::strings(keys@).to_set(),
                forall|k: int| 0 <= k < i ==> self@.keys.contains((#[trigger] model[k]).key),
                forall|k: int, l: int|
                    0 <= k < l < i ==> (#[trigger] model[k]).key != (#[trigger] model[l]).key,
            decreases environment@.len() - i,
        {
            assert(environment@[i as int]@ == model[i as int]);
            match find(keys, environment[i].key()) {
                Ok(at) => {
                    assert(bytes::strings(keys@)[at as int] == model[i as int].key);
                    assert(bytes::strings(keys@).contains(model[i as int].key));
                },
                Err(_) => {
                    assert(!self@.keys.contains(model[i as int].key));
                    return false;
                },
            }
            let mut j: usize = 0;
            while j < i
                invariant
                    j <= i < environment@.len(),
                    model == target::entries(environment@),
                    forall|k: int| 0 <= k < j ==> (#[trigger] model[k]).key != model[i as int].key,
                decreases i - j,
            {
                assert(environment@[i as int]@ == model[i as int]);
                assert(environment@[j as int]@ == model[j as int]);
                if same_bytes(environment[j].key(), environment[i].key()) {
                    return false;
                }
                j += 1;
            }
            i += 1;
        }
        true
    }

    /// Admits or refuses a request.
    pub fn validate(&self, authenticated: AuthenticatedSpawnRequest) -> (r: Result<
        ValidatedSpawn,
        SupervisorWireError,
    >)
        ensures
            match (r, admitted(self@, authenticated@)) {
                (Ok(spawn), Ok(model)) => spawn@ == model,
                (Err(error), Err(expected)) => error == expected,
                _ => false,
            },
    {
        let definition = &self.definition;
        proof {
            use_type_invariant(definition);
        }
        if !same_bytes(authenticated.request.policy_id(), &definition.policy_id) {
            return Err(SupervisorWireError::InvalidPolicy);
        }
        if !same_bytes(
            &authenticated.peer.code_identity,
            &definition.authorized_client_code_identity,
        ) {
            return Err(SupervisorWireError::PeerMismatch);
        }
        assert(authenticated@.request.arguments.len() == authenticated.request@.arguments.len());
        if authenticated.request.arguments().len() > definition.maximum_additional_arguments {
            return Err(SupervisorWireError::InvalidTargetInput);
        }
        if !self.allows_environment(authenticated.request.environment()) {
            return Err(SupervisorWireError::InvalidTargetInput);
        }
        let (_, _, requested, environment) = authenticated.request.into_parts();
        let ghost tail = bytes::strings(requested@);
        let mut arguments: Vec<Vec<u8>> = Vec::new();
        arguments.push(copy_bytes(&definition.argument0));
        let mut requested = requested;
        arguments.append(&mut requested);
        assert(bytes::strings(arguments@) =~= seq![definition.argument0@] + tail);
        proof {
            assert(target::valid_arguments(bytes::strings(arguments@))) by {
                assert forall|i: int| 0 <= i < bytes::strings(arguments@).len()
                    implies target::valid_component(
                    #[trigger] bytes::strings(arguments@)[i],
                ) by {
                    if i > 0 {
                        assert(bytes::strings(arguments@)[i] == tail[i - 1]);
                        assert(target::valid_component(tail[i - 1]));
                    }
                }
            }
        }
        Ok(
            ValidatedSpawn {
                peer: authenticated.peer,
                deadline: authenticated.deadline,
                policy_id: copy_bytes(&definition.policy_id),
                target_identity: definition.target_identity,
                installed_executable: copy_bytes(&definition.installed_executable),
                arguments,
                environment,
            },
        )
    }
}

/// Immutable catalog that maps each identifier to one installed target.
pub struct InstalledPolicyCatalog {
    policies: Vec<InstalledTargetPolicy>,
}

/// The identifiers of a list of policies.
spec fn ids(policies: Seq<InstalledTargetPolicy>) -> Seq<Seq<u8>> {
    policies.map_values(|policy: InstalledTargetPolicy| policy@.policy_id)
}

/// What a list of policies says.
spec fn models(policies: Seq<InstalledTargetPolicy>) -> Seq<PolicyModel> {
    policies.map_values(|policy: InstalledTargetPolicy| policy@)
}

/// The map from identifiers to policies that a list stands for.
spec fn catalog_map(policies: Seq<InstalledTargetPolicy>) -> Map<Seq<u8>, PolicyModel> {
    Map::new(
        |id: Seq<u8>| ids(policies).contains(id),
        |id: Seq<u8>| policies[ids(policies).index_of(id)]@,
    )
}

impl View for InstalledPolicyCatalog {
    type V = Map<Seq<u8>, PolicyModel>;

    closed spec fn view(&self) -> Map<Seq<u8>, PolicyModel> {
        catalog_map(self.policies@)
    }
}

/// What a list of definitions says.
pub open spec fn definition_models(definitions: Seq<TargetPolicyDefinition>) -> Seq<PolicyModel> {
    definitions.map_values(|definition: TargetPolicyDefinition| definition@)
}

/// The identifiers of a list of definitions.
pub open spec fn definition_ids(definitions: Seq<TargetPolicyDefinition>) -> Seq<Seq<u8>> {
    definitions.map_values(|definition: TargetPolicyDefinition| definition@.policy_id)
}

impl InstalledPolicyCatalog {
    #[verifier::type_invariant]
    spec fn sorted(self) -> bool {
        order::ascends(ids(self.policies@))
    }

    /// Builds the catalog from the definitions of one verified installation. There has to be one
    /// at least, and no identifier may come twice.
    pub fn from_verified_installation(definitions: Vec<TargetPolicyDefinition>) -> (r: Result<
        InstalledPolicyCatalog,
        SupervisorWireError,
    >)
        ensures
            match r {
                Ok(catalog) => {
                    &&& definitions@.len() > 0
                    &&& definition_ids(definitions@).no_duplicates()
                    &&& catalog@.dom() == definition_ids(definitions@).to_set()
                    &&& forall|i: int|
                        0 <= i < definitions@.len() ==> catalog@[(
                        #[trigger] definitions@[i])@.policy_id] == definitions@[i]@
                },
                Err(error) => {
                    &&& error == SupervisorWireError::InvalidPolicy
                    &&& definitions@.len() == 0 || !definition_ids(definitions@).no_duplicates()
                },
            },
    {
        if definitions.len() == 0 {
            return Err(SupervisorWireError::InvalidPolicy);
        }
        let ghost all = definition_models(definitions@);
        let ghost given = definitions@;
        let mut rest = definitions;
        let mut policies: Vec<InstalledTargetPolicy> = Vec::new();
        assert(given.subrange(0, given.len() as int) =~= given);
        assert(models(policies@) =~= all.subrange(all.len() as int, all.len() as int));
        while rest.len() > 0
            invariant
                given == definitions@,
                all == definition_models(given),
                rest@ == given.subrange(0, rest@.len() as int),
                rest@.len() <= all.len(),
                order::ascends(ids(policies@)),
                models(policies@).to_multiset() == all.subrange(
                    rest@.len() as int,
                    all.len() as int,
                ).to_multiset(),
                distinct_ids(all.subrange(rest@.len() as int, all.len() as int)),
            decreases rest@.len(),
        {
            let ghost n = rest@.len() as int;
            let ghost before = policies@;
            let ghost tail = all.subrange(n, all.len() as int);
            match rest.pop() {
                None => {},
                Some(definition) => {
                    let ghost item = definition@;
                    proof {
                        assert(item == all[n - 1]);
                        assert(rest@ =~= given.subrange(0, n - 1));
                        assert(all.subrange(n - 1, all.len() as int) =~= seq![item] + tail);
                    }
                    match position(&policies, &definition.policy_id) {
                        Ok(at) => {
                            proof {
                                lemma_member(models(before), tail, at as int);
                                let i = tail.index_of(models(before)[at as int]);
                                assert(definition_ids(given)[n + i]
                                    == definition_ids(given)[n - 1]);
                            }
                            return Err(SupervisorWireError::InvalidPolicy);
                        },
                        Err(at) => {
                            policies.insert(at, InstalledTargetPolicy::from_definition(definition));
                            proof {
                                lemma_insert_ascends(ids(before), at as int, item.policy_id);
                                assert(ids(policies@) =~= ids(before).insert(
                                    at as int,
                                    item.policy_id,
                                ));
                                assert(models(policies@)
                                    =~= models(before).insert(at as int, item));
                                lemma_insert_counts(models(before), tail, at as int, item);
                                lemma_stays_distinct(before, tail, item);
                            }
                        },
                    }
                },
            }
        }
        let catalog = InstalledPolicyCatalog { policies };
        proof {
            assert(all.subrange(0, all.len() as int) =~= all);
            lemma_catalog(catalog.policies@, all);
            assert forall|i: int, j: int|
                0 <= i < given.len() && 0 <= j < given.len() && i != j implies definition_ids(
                given,
            )[i] != definition_ids(given)[j] by {
                assert(all[i].policy_id != all[j].policy_id);
            }
            assert forall|id: Seq<u8>| catalog@.contains_key(id) == definition_ids(
                given,
            ).contains(id) by {
                if catalog@.contains_key(id) {
                    let i = choose|i: int| 0 <= i < all.len()
                        && (#[trigger] all[i]).policy_id == id;
                    assert(definition_ids(given)[i] == id);
                }
                if definition_ids(given).contains(id) {
                    let i = definition_ids(given).index_of(id);
                    assert(all[i].policy_id == id);
                }
            }
            assert(catalog@.dom() =~= definition_ids(given).to_set());
            assert forall|i: int| 0 <= i < given.len() implies catalog@[(
            #[trigger] given[i])@.policy_id] == given[i]@ by {
                assert(all[i] == given[i]@);
            }
        }
        Ok(catalog)
    }

    /// The policy of an identifier.
    pub fn resolve(&self, policy_id: &[u8]) -> (r: Option<&InstalledTargetPolicy>)
        ensures
            r is Some <==> self@.contains_key(policy_id@),
            r matches Some(policy) ==> policy@ == self@[policy_id@],
    {
        proof {
            use_type_invariant(self);
        }
        match position(&self.policies, policy_id) {
            Ok(at) => {
                proof {
                    assert(ids(self.policies@)[at as int] == policy_id@);
                    lemma_index_is_unique(ids(self.policies@), at as int);
                }
                Some(&self.policies[at])
            },
            Err(_) => None,
        }
    }
}

/// Whether no two policies of a list have the same identifier.
spec fn distinct_ids(list: Seq<PolicyModel>) -> bool {
    forall|i: int, j: int|
        0 <= i < list.len() && 0 <= j < list.len() && i != j ==> (#[trigger] list[i]).policy_id != (
        #[trigger] list[j]).policy_id
}

/// What one of two lists with the same contents holds, the other holds.
proof fn lemma_member(list: Seq<PolicyModel>, other: Seq<PolicyModel>, at: int)
    requires
        list.to_multiset() == other.to_multiset(),
        0 <= at < list.len(),
    ensures
        other.contains(list[at]),
{
    list.to_multiset_ensures();
    other.to_multiset_ensures();
    assert(list.contains(list[at]));
    assert(other.to_multiset().count(list[at]) > 0);
}

/// Two lists that hold the same hold the same after each got the same item.
proof fn lemma_insert_counts(
    list: Seq<PolicyModel>,
    other: Seq<PolicyModel>,
    at: int,
    item: PolicyModel,
)
    requires
        list.to_multiset() == other.to_multiset(),
        0 <= at <= list.len(),
    ensures
        list.insert(at, item).to_multiset() == (seq![item] + other).to_multiset(),
{
    vstd::seq_lib::to_multiset_insert(list, at, item);
    vstd::seq_lib::to_multiset_insert(other, 0, item);
    assert(seq![item] + other =~= other.insert(0, item));
}

/// A policy whose identifier is new leaves the identifiers distinct.
proof fn lemma_stays_distinct(
    policies: Seq<InstalledTargetPolicy>,
    tail: Seq<PolicyModel>,
    item: PolicyModel,
)
    requires
        models(policies).to_multiset() == tail.to_multiset(),
        distinct_ids(tail),
        !ids(policies).contains(item.policy_id),
    ensures
        distinct_ids(seq![item] + tail),
{
    let list = seq![item] + tail;
    assert forall|j: int| 0 <= j < tail.len() implies (#[trigger] tail[j]).policy_id
        != item.policy_id by {
        lemma_member(tail, models(policies), j);
        let k = models(policies).index_of(tail[j]);
        assert(ids(policies)[k] == tail[j].policy_id);
    }
    assert forall|i: int, j: int|
        0 <= i < list.len() && 0 <= j < list.len() && i != j implies (#[trigger] list[i]).policy_id
        != (#[trigger] list[j]).policy_id by {
        if i > 0 {
            assert(list[i] == tail[i - 1]);
        }
        if j > 0 {
            assert(list[j] == tail[j - 1]);
        }
    }
}

/// A catalog maps each identifier of the installation to its definition, and no other.
proof fn lemma_catalog(policies: Seq<InstalledTargetPolicy>, all: Seq<PolicyModel>)
    requires
        order::ascends(ids(policies)),
        models(policies).to_multiset() == all.to_multiset(),
    ensures
        forall|id: Seq<u8>|
            #![trigger catalog_map(policies).contains_key(id)]
            catalog_map(policies).contains_key(id) <==> exists|i: int|
                0 <= i < all.len() && (#[trigger] all[i]).policy_id == id,
        forall|i: int|
            0 <= i < all.len() ==> catalog_map(policies)[(#[trigger] all[i]).policy_id] == all[i],
{
    assert forall|i: int| 0 <= i < all.len() implies catalog_map(policies)[(
    #[trigger] all[i]).policy_id] == all[i] && catalog_map(policies).contains_key(
        all[i].policy_id,
    ) by {
        lemma_member(all, models(policies), i);
        let k = models(policies).index_of(all[i]);
        assert(ids(policies)[k] == all[i].policy_id);
        lemma_index_is_unique(ids(policies), k);
    }
    assert forall|id: Seq<u8>| catalog_map(policies).contains_key(id) implies exists|i: int|
        0 <= i < all.len() && (#[trigger] all[i]).policy_id == id by {
        let k = ids(policies).index_of(id);
        lemma_member(models(policies), all, k);
        let i = all.index_of(models(policies)[k]);
        assert(all[i].policy_id == id);
    }
}

/// In an ascending list a string stands at one index only.
proof fn lemma_index_is_unique(list: Seq<Seq<u8>>, at: int)
    requires
        order::ascends(list),
        0 <= at < list.len(),
    ensures
        list.contains(list[at]),
        list.index_of(list[at]) == at,
{
    let found = list.index_of(list[at]);
    assert(list.contains(list[at]));
    assert(0 <= found < list.len() && list[found] == list[at]);
    order::lemma_lex_order(list[at], list[at], list[at]);
}

/// Inserting a string where it belongs keeps a list ascending.
proof fn lemma_insert_ascends(list: Seq<Seq<u8>>, at: int, item: Seq<u8>)
    requires
        order::ascends(list),
        0 <= at <= list.len(),
        forall|k: int| 0 <= k < at ==> order::lex_less(#[trigger] list[k], item),
        forall|k: int| at <= k < list.len() ==> order::lex_less(item, #[trigger] list[k]),
    ensures
        order::ascends(list.insert(at, item)),
{
    let inserted = list.insert(at, item);
    assert forall|i: int, j: int| 0 <= i < j < inserted.len() implies order::lex_less(
        #[trigger] inserted[i],
        #[trigger] inserted[j],
    ) by {
        let k = if i < at {
            i
        } else {
            i - 1
        };
        let l = if j < at {
            j
        } else {
            j - 1
        };
        if i != at {
            assert(inserted[i] == list[k]);
        }
        if j != at {
            assert(inserted[j] == list[l]);
        }
    }
}

/// Where an identifier stands among ascending policies, or where it belongs.
fn position(policies: &Vec<InstalledTargetPolicy>, policy_id: &[u8]) -> (r: Result<usize, usize>)
    requires
        order::ascends(ids(policies@)),
    ensures
        match r {
            Ok(at) => at < policies@.len() && policies@[at as int]@.policy_id == policy_id@,
            Err(at) => {
                &&& at <= policies@.len()
                &&& !ids(policies@).contains(policy_id@)
                &&& forall|k: int| 0 <= k < at
                    ==> order::lex_less(#[trigger] ids(policies@)[k], policy_id@)
                &&& forall|k: int|
                    at <= k < policies@.len()
                        ==> order::lex_less(policy_id@, #[trigger] ids(policies@)[k])
            },
        },
{
    let ghost list = ids(policies@);
    let mut low: usize = 0;
    let mut high: usize = policies.len();
    while low < high
        invariant
            low <= high <= policies@.len(),
            list == ids(policies@),
            order::ascends(list),
            forall|k: int| 0 <= k < low ==> order::lex_less(#[trigger] list[k], policy_id@),
            forall|k: int| high <= k < policies@.len()
                ==> order::lex_less(policy_id@, #[trigger] list[k]),
        decreases high - low,
    {
        let middle: usize = low + (high - low) / 2;
        let ghost at = list[middle as int];
        match standing(&policies[middle].definition.policy_id, policy_id) {
            Standing::Same => {
                return Ok(middle);
            },
            Standing::Less => {
                assert forall|k: int| 0 <= k < middle + 1 implies order::lex_less(
                    #[trigger] list[k],
                    policy_id@,
                ) by {
                    if k < middle {
                        order::lemma_lex_order(list[k], at, policy_id@);
                    }
                }
                low = middle + 1;
            },
            Standing::Greater => {
                assert forall|k: int| middle <= k < policies@.len() implies order::lex_less(
                    policy_id@,
                    #[trigger] list[k],
                ) by {
                    if k > middle {
                        order::lemma_lex_order(policy_id@, at, list[k]);
                    }
                }
                high = middle;
            },
        }
    }
    assert(!list.contains(policy_id@)) by {
        if list.contains(policy_id@) {
            let k = list.index_of(policy_id@);
            order::lemma_lex_order(policy_id@, policy_id@, policy_id@);
        }
    }
    Err(low)
}

/// Launch data of an admitted request, copied for a launcher; it carries no authority by itself.
pub struct LauncherSpawnParts {
    pub peer: VerifiedPeer,
    pub deadline: SupervisorDeadlineBinding,
    pub policy_id: Vec<u8>,
    pub target_identity: [u8; 32],
    pub installed_executable: Vec<u8>,
    pub arguments: Vec<Vec<u8>>,
    pub environment: Vec<TargetEnvironmentEntry>,
}

impl View for LauncherSpawnParts {
    type V = SpawnModel;

    open spec fn view(&self) -> SpawnModel {
        SpawnModel {
            peer: self.peer,
            wire_deadline: self.deadline.spec_wire(),
            local_deadline: self.deadline.spec_local(),
            policy_id: self.policy_id@,
            target: self.target_identity@,
            executable: self.installed_executable@,
            arguments: bytes::strings(self.arguments@),
            environment: target::entries(self.environment@),
        }
    }
}

/// What holds of everything that a policy admits.
pub open spec fn valid_spawn(spawn: SpawnModel) -> bool {
    &&& target::valid_policy_id(spawn.policy_id)
    &&& target::valid_executable(spawn.executable)
    &&& !bytes::all_zero(spawn.target)
    &&& 0 < spawn.arguments.len() <= MAX_ARGUMENTS
    &&& spawn.arguments[0].len() > 0
    &&& target::valid_arguments(spawn.arguments)
    &&& spawn.environment.len() <= MAX_ENVIRONMENT
    &&& target::valid_environment(spawn.environment)
}

/// Request admitted by an installed policy; the only one that may have effects.
#[derive(Debug, PartialEq, Eq)]
pub struct ValidatedSpawn {
    peer: VerifiedPeer,
    deadline: SupervisorDeadlineBinding,
    policy_id: Vec<u8>,
    target_identity: [u8; 32],
    installed_executable: Vec<u8>,
    arguments: Vec<Vec<u8>>,
    environment: Vec<TargetEnvironmentEntry>,
}

impl View for ValidatedSpawn {
    type V = SpawnModel;

    closed spec fn view(&self) -> SpawnModel {
        SpawnModel {
            peer: self.peer,
            wire_deadline: self.deadline.spec_wire(),
            local_deadline: self.deadline.spec_local(),
            policy_id: self.policy_id@,
            target: self.target_identity@,
            executable: self.installed_executable@,
            arguments: bytes::strings(self.arguments@),
            environment: target::entries(self.environment@),
        }
    }
}

impl ValidatedSpawn {
    #[verifier::type_invariant]
    spec fn valid(self) -> bool {
        valid_spawn(self@)
    }

    /// The peer that asked.
    pub fn peer(&self) -> (r: VerifiedPeer)
        ensures
            r == self@.peer,
    {
        self.peer
    }

    /// The connection that it asked on.
    pub fn connection_identity(&self) -> (r: ConnectionIdentity)
        ensures
            r == self@.peer.connection_identity,
    {
        self.peer.connection_identity()
    }

    /// The local deadline.
    pub fn deadline(&self) -> (r: u64)
        ensures
            r == self@.local_deadline,
    {
        self.deadline.local()
    }

    /// The deadline as the client set it, for exact serialization across an exec.
    pub fn wire_deadline(&self) -> (r: SupervisorDeadline)
        ensures
            r == self@.wire_deadline,
    {
        self.deadline.wire()
    }

    /// The policy that admitted the request.
    pub fn policy_id(&self) -> (r: &[u8])
        ensures
            r@ == self@.policy_id,
    {
        &self.policy_id
    }

    /// The code identity that the target has to have.
    pub fn target_identity(&self) -> (r: [u8; 32])
        ensures
            r@ == self@.target,
    {
        self.target_identity
    }

    /// Argv of the target.
    pub fn arguments(&self) -> (r: &Vec<Vec<u8>>)
        ensures
            bytes::strings(r@) == self@.arguments,
    {
        &self.arguments
    }

    /// Environment of the target.
    pub fn environment(&self) -> (r: &Vec<TargetEnvironmentEntry>)
        ensures
            target::entries(r@) == self@.environment,
    {
        &self.environment
    }

    /// Copies the launch data. Everything that a policy admits is canonical.
    pub fn launcher_parts_for_permit(&self) -> (r: LauncherSpawnParts)
        ensures
            r@ == self@,
            valid_spawn(r@),
    {
        proof {
            use_type_invariant(self);
        }
        LauncherSpawnParts {
            peer: self.peer,
            deadline: self.deadline,
            policy_id: copy_bytes(&self.policy_id),
            target_identity: self.target_identity,
            installed_executable: copy_bytes(&self.installed_executable),
            arguments: copy_strings(&self.arguments),
            environment: copy_entries(&self.environment),
        }
    }
}

/// The image that is started, its identity and argument zero never come from a request, and what
/// is started is bound to the peer and deadline of the request.
pub proof fn law_requests_select_no_image(
    catalog: Map<Seq<u8>, PolicyModel>,
    first: AuthenticatedModel,
    second: AuthenticatedModel,
)
    requires
        first.request.policy_id == second.request.policy_id,
    ensures
        resolved(catalog, first) matches Ok(one) ==> {
            &&& one.peer == first.peer
            &&& one.wire_deadline == first.wire_deadline
            &&& one.local_deadline == first.local_deadline
            &&& first.peer.code_identity@ == catalog[first.request.policy_id].client
            &&& one.executable == catalog[first.request.policy_id].executable
            &&& resolved(catalog, second) matches Ok(two) ==> {
                &&& one.executable == two.executable
                &&& one.target == two.target
                &&& one.arguments[0] == two.arguments[0]
            }
        },
{
}

/// What a policy admits is what was asked for: the environment of the admitted spawn is the
/// requested one, entry by entry and in order, its arguments behind the installed argument zero are
/// the requested ones, and the deadline and the peer are those of the request. Everything else is
/// the policy's.
pub proof fn law_admitted_spawn_is_the_requested_one(
    catalog: Map<Seq<u8>, PolicyModel>,
    request: AuthenticatedModel,
)
    ensures
        resolved(catalog, request) matches Ok(spawn) ==> {
            let policy = catalog[request.request.policy_id];
            &&& catalog.contains_key(request.request.policy_id)
            &&& spawn.environment.len() == request.request.environment.len()
            &&& forall|i: int|
                0 <= i < request.request.environment.len() ==> #[trigger] spawn.environment[i]
                    == request.request.environment[i]
            &&& spawn.arguments.len() == 1 + request.request.arguments.len()
            &&& spawn.arguments[0] == policy.argument0
            &&& forall|i: int|
                0 <= i < request.request.arguments.len() ==> spawn.arguments[i + 1]
                    == #[trigger] request.request.arguments[i]
            &&& spawn.policy_id == policy.policy_id
            &&& spawn.policy_id == request.request.policy_id
            &&& spawn.target == policy.target
            &&& spawn.executable == policy.executable
            &&& spawn.peer == request.peer
            &&& spawn.wire_deadline == request.wire_deadline
            &&& spawn.local_deadline == request.local_deadline
        },
{
}

/// A request is admitted exactly where its policy is installed, its client is the authorized one,
/// it has no more arguments than the policy allows, and each variable that it sets is allowed and
/// set once. A request that misses any of these is refused for the first that it misses.
pub proof fn law_admission_is_exact(
    catalog: Map<Seq<u8>, PolicyModel>,
    request: AuthenticatedModel,
)
    requires
        forall|id: Seq<u8>| catalog.contains_key(id) ==> (#[trigger] catalog[id]).policy_id == id,
    ensures
        ({
            let id = request.request.policy_id;
            let policy = catalog[id];
            let environment = request.request.environment;
            let client = request.peer.code_identity@ == policy.client;
            let fits = request.request.arguments.len() <= policy.maximum && (forall|i: int|
                0 <= i < environment.len() ==> policy.keys.contains(
                    (#[trigger] environment[i]).key,
                )) && (forall|i: int, j: int|
                0 <= i < environment.len() && 0 <= j < environment.len() && (
                #[trigger] environment[i]).key == (#[trigger] environment[j]).key ==> i == j);
            &&& resolved(catalog, request) is Ok <==> catalog.contains_key(id) && client && fits
            &&& !catalog.contains_key(id) ==> resolved(catalog, request) == Err::<SpawnModel, _>(
                SupervisorWireError::InvalidPolicy,
            )
            &&& catalog.contains_key(id) && !client ==> resolved(catalog, request) == Err::<
                SpawnModel,
                _,
            >(SupervisorWireError::PeerMismatch)
            &&& catalog.contains_key(id) && client && !fits ==> resolved(catalog, request) == Err::<
                SpawnModel,
                _,
            >(SupervisorWireError::InvalidTargetInput)
        }),
{
    let environment = request.request.environment;
    let id = request.request.policy_id;
    if catalog.contains_key(id) {
        assert(catalog[id].policy_id == id);
    }
    if environment_allowed(environment, catalog[id].keys) {
        assert forall|i: int, j: int|
            0 <= i < environment.len() && 0 <= j < environment.len() && (
            #[trigger] environment[i]).key == (#[trigger] environment[j]).key implies i == j by {
            if i < j {
                assert(environment[i].key != environment[j].key);
            } else if j < i {
                assert(environment[j].key != environment[i].key);
            }
        }
    }
}

/// A definition that makes a policy is that policy: what it names, what it allows and whom it
/// authorizes are what was defined, and a definition without a fault makes one.
pub proof fn law_definitions_are_kept(
    policy_id: Seq<u8>,
    client: Seq<u8>,
    target: Seq<u8>,
    executable: Seq<u8>,
    argument0: Seq<u8>,
    maximum: nat,
    keys: Seq<Seq<u8>>,
)
    ensures
        ({
            let checked = checked_policy(
                policy_id,
                client,
                target,
                executable,
                argument0,
                maximum,
                keys,
            );
            &&& checked matches Ok(policy) ==> {
                &&& policy.policy_id == policy_id
                &&& policy.client == client
                &&& policy.target == target
                &&& policy.executable == executable
                &&& policy.argument0 == argument0
                &&& policy.maximum == maximum
                &&& forall|key: Seq<u8>|
                    #[trigger] policy.keys.contains(key) <==> keys.contains(key)
            }
            &&& checked is Ok <==> {
                &&& target::valid_policy_id(policy_id)
                &&& target::valid_executable(executable)
                &&& 0 < argument0.len() <= 4096
                &&& !argument0.contains(0)
                &&& exists|i: int| 0 <= i < client.len() && client[i] != 0
                &&& exists|i: int| 0 <= i < target.len() && target[i] != 0
                &&& maximum < 64
                &&& keys.len() <= 64
                &&& forall|i: int|
                    0 <= i < keys.len() ==> target::valid_environment_key(#[trigger] keys[i])
                &&& keys.no_duplicates()
            }
        }),
{
}

/// A definition is refused for what is wrong with it: an argument or a key that cannot be one as a
/// bad input, and anything else as a bad policy.
pub proof fn law_refused_definitions(
    policy_id: Seq<u8>,
    client: Seq<u8>,
    target: Seq<u8>,
    executable: Seq<u8>,
    argument0: Seq<u8>,
    maximum: nat,
    keys: Seq<Seq<u8>>,
)
    ensures
        ({
            let checked = checked_policy(
                policy_id,
                client,
                target,
                executable,
                argument0,
                maximum,
                keys,
            );
            let named = target::valid_policy_id(policy_id) && target::valid_executable(executable);
            let written = argument0.len() <= 4096 && !argument0.contains(0);
            let usable = forall|i: int|
                0 <= i < keys.len() ==> target::valid_environment_key(#[trigger] keys[i]);
            let known = argument0.len() > 0 && maximum < 64 && keys.len() <= 64 && (exists|i: int|
                0 <= i < client.len() && client[i] != 0) && (exists|i: int|
                0 <= i < target.len() && target[i] != 0);
            &&& !named ==> checked == Err::<PolicyModel, _>(SupervisorWireError::InvalidPolicy)
            &&& named && !written ==> checked == Err::<PolicyModel, _>(
                SupervisorWireError::InvalidTargetInput,
            )
            &&& named && written && !known ==> checked == Err::<PolicyModel, _>(
                SupervisorWireError::InvalidPolicy,
            )
            &&& named && written && known && !usable ==> checked == Err::<PolicyModel, _>(
                SupervisorWireError::InvalidTargetInput,
            )
            &&& named && written && known && usable && !keys.no_duplicates() ==> checked == Err::<
                PolicyModel,
                _,
            >(SupervisorWireError::InvalidPolicy)
        }),
{
}

/// A definition that was checked is a valid policy, and a spawn that is valid has what a launch
/// takes: a policy, an executable and its identity, and at least the name that it is called by.
pub proof fn law_valid_policies_and_spawns(policy: PolicyModel, spawn: SpawnModel)
    ensures
        valid_policy(policy) <==> {
            &&& target::valid_policy_id(policy.policy_id)
            &&& target::valid_executable(policy.executable)
            &&& 1 <= policy.argument0.len() <= 4096 && !policy.argument0.contains(0)
            &&& exists|i: int| 0 <= i < policy.client.len() && policy.client[i] != 0
            &&& exists|i: int| 0 <= i < policy.target.len() && policy.target[i] != 0
            &&& policy.maximum < 64
        },
        valid_spawn(spawn) ==> {
            &&& target::valid_policy_id(spawn.policy_id)
            &&& target::valid_executable(spawn.executable)
            &&& exists|i: int| 0 <= i < spawn.target.len() && spawn.target[i] != 0
            &&& 1 <= spawn.arguments.len() <= 64 && spawn.arguments[0].len() > 0
            &&& spawn.environment.len() <= 64
            &&& forall|i: int|
                0 <= i < spawn.arguments.len() ==> target::valid_component(
                    #[trigger] spawn.arguments[i],
                )
            &&& forall|i: int|
                0 <= i < spawn.environment.len() ==> target::valid_entry(
                    #[trigger] spawn.environment[i],
                )
        },
{
}

} // verus!
