//! The frames that carry a launch plan across an exec: to a dormant broker, and on to its
//! launcher.

use vstd::prelude::*;
use crate::bytes;
use crate::bytes::{
    array_at, copy_bytes, copy_strings, is_all_zero, put_bytes, put_u16, put_u32, put_u64,
    same_bytes, starts_with, u16_at, u32_at, u64_at,
};
use crate::digest;
use crate::digest::{sha256, DIGEST_LIMIT};
use crate::supervisor::deadline::{
    ClockSample, SupervisorDeadline, SupervisorDeadlineBinding, SupervisorWireError,
};
use crate::supervisor::frame;
use crate::supervisor::frame::{append_environment, append_list, take_environment, take_list};
use crate::supervisor::payload::PayloadCursor;
use crate::supervisor::target;
use crate::supervisor::target::{
    copy_entries, validate_component, validate_environment_key, validate_installed_executable,
    validate_policy_id, EntryModel, TargetEnvironmentEntry, MAX_ARGUMENTS, MAX_COMPONENT_BYTES,
    MAX_ENVIRONMENT, MAX_POLICY_ID_BYTES,
};

verus! {

/// `NIPCBP01`
pub const PLAN_MAGIC: [u8; 8] = [0x4e, 0x49, 0x50, 0x43, 0x42, 0x50, 0x30, 0x31];

/// `NIPCLP01`
pub const LAUNCHER_MAGIC: [u8; 8] = [0x4e, 0x49, 0x50, 0x43, 0x4c, 0x50, 0x30, 0x31];

/// `NIPCBPA1`
pub const ACK_MAGIC: [u8; 8] = [0x4e, 0x49, 0x50, 0x43, 0x42, 0x50, 0x41, 0x31];

/// `native-ipc-macos-broker-plan-ack-v1`
pub const ACK_DOMAIN: [u8; 35] = [
    0x6e, 0x61, 0x74, 0x69, 0x76, 0x65, 0x2d, 0x69, 0x70, 0x63, 0x2d, 0x6d, 0x61, 0x63, 0x6f,
    0x73, 0x2d, 0x62, 0x72, 0x6f, 0x6b, 0x65, 0x72, 0x2d, 0x70, 0x6c, 0x61, 0x6e, 0x2d, 0x61,
    0x63, 0x6b, 0x2d, 0x76, 0x31,
];

/// Version of both frames.
pub const PLAN_VERSION: u16 = 1;

/// Fixed part of a broker frame.
pub const HEADER_BYTES: usize = 256;

/// Fixed part of a launcher frame.
pub const LAUNCHER_HEADER_BYTES: usize = 40;

/// What a launcher reads before it accepts a length.
pub const LAUNCHER_PLAN_PREFIX_BYTES: usize = 24;

/// What a broker reads before it accepts a length.
pub const BROKER_PLAN_PREFIX_BYTES: usize = 24;

/// Longest frame of either kind.
pub const MAX_BROKER_PLAN_BYTES: usize = 81920;

/// Bytes of an acknowledgement.
pub const BROKER_ACK_BYTES: usize = 40;

/// What is started, without any identity or secret of the session.
#[verifier::ext_equal]
pub struct LauncherModel {
    pub deadline: SupervisorDeadline,
    pub effective_uid: u32,
    pub effective_gid: u32,
    pub executable: Seq<u8>,
    pub arguments: Seq<Seq<u8>>,
    pub environment: Seq<EntryModel>,
}

/// A broker's plan: what is started, for whom, under which policy, and the secrets that bind it.
#[verifier::ext_equal]
pub struct PlanModel {
    pub connection_generation: u64,
    pub sequence: u64,
    pub session: Seq<u8>,
    pub audit_identity: Seq<u8>,
    pub code_identity: Seq<u8>,
    pub target_identity: Seq<u8>,
    pub client_nonce: Seq<u8>,
    pub service_nonce: Seq<u8>,
    pub policy_id: Seq<u8>,
    pub launch: LauncherModel,
}

/// Whether no two entries have the same key.
pub open spec fn distinct_keys(environment: Seq<EntryModel>) -> bool {
    forall|i: int, j: int|
        0 <= i < j < environment.len() ==> (#[trigger] environment[i]).key != (
        #[trigger] environment[j]).key
}

/// Whether the numbers of a launch are in range.
pub open spec fn launch_in_order(launch: LauncherModel) -> bool {
    &&& launch.deadline.0 != 0
    &&& 0 < launch.effective_uid < u32::MAX
    &&& 0 < launch.effective_gid < u32::MAX
    &&& 0 < launch.arguments.len() <= MAX_ARGUMENTS
    &&& launch.environment.len() <= MAX_ENVIRONMENT
}

/// Whether what goes to the target is canonical.
pub open spec fn target_in_order(launch: LauncherModel) -> bool {
    &&& target::valid_arguments(launch.arguments)
    &&& target::valid_environment(launch.environment)
    &&& distinct_keys(launch.environment)
}

/// Why a launch is refused, if it is.
pub open spec fn checked_launch(launch: LauncherModel) -> Result<(), SupervisorWireError> {
    if !launch_in_order(launch) {
        Err(SupervisorWireError::Malformed)
    } else if !target::valid_executable(launch.executable) {
        Err(SupervisorWireError::InvalidPolicy)
    } else if !target_in_order(launch) {
        Err(SupervisorWireError::InvalidTargetInput)
    } else {
        Ok(())
    }
}

/// Whether the numbers and secrets of a plan are in range.
pub open spec fn plan_in_order(plan: PlanModel) -> bool {
    &&& launch_in_order(plan.launch)
    &&& plan.connection_generation != 0
    &&& plan.sequence == 1
    &&& !bytes::all_zero(plan.session)
    &&& !bytes::all_zero(plan.audit_identity)
    &&& !bytes::all_zero(plan.code_identity)
    &&& !bytes::all_zero(plan.target_identity)
    &&& !bytes::all_zero(plan.client_nonce)
    &&& !bytes::all_zero(plan.service_nonce)
    &&& plan.client_nonce != plan.service_nonce
}

/// Why a plan is refused, if it is.
pub open spec fn checked_plan(plan: PlanModel) -> Result<(), SupervisorWireError> {
    if !plan_in_order(plan) {
        Err(SupervisorWireError::Malformed)
    } else if !target::valid_policy_id(plan.policy_id)
        || !target::valid_executable(plan.launch.executable) {
        Err(SupervisorWireError::InvalidPolicy)
    } else if !target_in_order(plan.launch) {
        Err(SupervisorWireError::InvalidTargetInput)
    } else {
        Ok(())
    }
}

/// The variable part of a launcher frame.
pub open spec fn launch_body(launch: LauncherModel) -> Seq<u8> {
    launch.executable + frame::list_bytes(launch.arguments)
        + frame::environment_bytes(launch.environment)
}

/// The 24 bytes that both frames start with.
pub open spec fn frame_prefix(magic: Seq<u8>, length: int, deadline: SupervisorDeadline) -> Seq<
    u8,
> {
    magic + bytes::le16(PLAN_VERSION) + bytes::le16(0) + bytes::le32(length as u32)
        + bytes::le64(deadline.0)
}

/// A launcher frame.
pub open spec fn launch_bytes(launch: LauncherModel) -> Seq<u8> {
    let body = launch_body(launch);
    frame_prefix(LAUNCHER_MAGIC@, LAUNCHER_HEADER_BYTES + body.len(), launch.deadline)
        + bytes::le32(launch.effective_uid) + bytes::le32(launch.effective_gid)
        + bytes::le32(launch.executable.len() as u32)
        + bytes::le16(launch.arguments.len() as u16)
        + bytes::le16(launch.environment.len() as u16) + body
}

/// The numbers of a broker frame that follow its prefix.
pub open spec fn plan_numbers(plan: PlanModel) -> Seq<u8> {
    bytes::le64(plan.connection_generation) + bytes::le64(plan.sequence)
        + bytes::le32(plan.launch.effective_uid) + bytes::le32(plan.launch.effective_gid)
}

/// The secrets of a broker frame.
pub open spec fn plan_secrets(plan: PlanModel) -> Seq<u8> {
    plan.session + plan.audit_identity + plan.code_identity + plan.target_identity
        + plan.client_nonce + plan.service_nonce
}

/// The counts of a broker frame.
pub open spec fn plan_counts(plan: PlanModel) -> Seq<u8> {
    bytes::le32(plan.policy_id.len() as u32) + bytes::le32(plan.launch.executable.len() as u32)
        + bytes::le16(plan.launch.arguments.len() as u16)
        + bytes::le16(plan.launch.environment.len() as u16) + bytes::le32(0)
}

/// A broker frame.
pub open spec fn plan_bytes(plan: PlanModel) -> Seq<u8> {
    let body = plan.policy_id + launch_body(plan.launch);
    frame_prefix(PLAN_MAGIC@, HEADER_BYTES + body.len(), plan.launch.deadline) + plan_numbers(plan)
        + plan_secrets(plan) + plan_counts(plan) + body
}

/// Whether a prefix announces a frame of `length` bytes.
pub open spec fn announces(prefix: Seq<u8>, magic: Seq<u8>, minimum: int, length: int) -> bool {
    &&& minimum <= length <= MAX_BROKER_PLAN_BYTES
    &&& prefix.subrange(0, 8) == magic
    &&& bytes::le16_at(prefix, 8) == PLAN_VERSION
    &&& bytes::le16_at(prefix, 10) == 0
    &&& bytes::le32_at(prefix, 12) == length
}

/// Executable, arguments and environment of a launch.
pub type LaunchParts = (Seq<u8>, Seq<Seq<u8>>, Seq<EntryModel>);

/// Whether the counts of a launch are in range.
pub open spec fn counts_in_range(executable_len: u32, arguments: u16, environment: u16) -> bool {
    &&& executable_len <= MAX_COMPONENT_BYTES
    &&& 0 < arguments <= MAX_ARGUMENTS
    &&& environment <= MAX_ENVIRONMENT
}

/// The launch that the variable part of a frame holds, once the counts are known.
pub open spec fn parsed_body(
    body: Seq<u8>,
    executable_len: u32,
    arguments: u16,
    environment: u16,
) -> Result<LaunchParts, SupervisorWireError> {
    if body.len() < executable_len {
        Err(SupervisorWireError::Malformed)
    } else {
        match frame::parsed_list(
            body.subrange(executable_len as int, body.len() as int),
            arguments as nat,
        ) {
            Err(error) => Err(error),
            Ok((list, rest)) => match frame::parsed_environment(rest, environment as nat) {
                Err(error) => Err(error),
                Ok((pairs, rest)) => if rest.len() > 0 {
                    Err(SupervisorWireError::Malformed)
                } else {
                    Ok((body.subrange(0, executable_len as int), list, pairs))
                },
            },
        }
    }
}

/// The launch that a launcher frame holds, or why it is refused.
pub open spec fn parsed_launch(bytes: Seq<u8>) -> Result<LauncherModel, SupervisorWireError> {
    if !announces(bytes, LAUNCHER_MAGIC@, LAUNCHER_HEADER_BYTES as int, bytes.len() as int) {
        Err(SupervisorWireError::Malformed)
    } else if !counts_in_range(
        bytes::le32_at(bytes, 32),
        bytes::le16_at(bytes, 36),
        bytes::le16_at(bytes, 38),
    ) {
        Err(SupervisorWireError::LimitExceeded)
    } else {
        match parsed_body(
            bytes.subrange(LAUNCHER_HEADER_BYTES as int, bytes.len() as int),
            bytes::le32_at(bytes, 32),
            bytes::le16_at(bytes, 36),
            bytes::le16_at(bytes, 38),
        ) {
            Err(error) => Err(error),
            Ok((executable, arguments, environment)) => {
                let launch = LauncherModel {
                    deadline: SupervisorDeadline(bytes::le64_at(bytes, 16)),
                    effective_uid: bytes::le32_at(bytes, 24),
                    effective_gid: bytes::le32_at(bytes, 28),
                    executable,
                    arguments,
                    environment,
                };
                match checked_launch(launch) {
                    Err(error) => Err(error),
                    Ok(()) => Ok(launch),
                }
            },
        }
    }
}

/// The plan that a broker frame holds, or why it is refused.
pub open spec fn parsed_plan(bytes: Seq<u8>) -> Result<PlanModel, SupervisorWireError> {
    let policy_len = bytes::le32_at(bytes, 240);
    let body = bytes.subrange(HEADER_BYTES as int, bytes.len() as int);
    if !announces(bytes, PLAN_MAGIC@, HEADER_BYTES as int, bytes.len() as int) || bytes::le32_at(
        bytes,
        252,
    ) != 0 {
        Err(SupervisorWireError::Malformed)
    } else if policy_len > MAX_POLICY_ID_BYTES || !counts_in_range(
        bytes::le32_at(bytes, 244),
        bytes::le16_at(bytes, 248),
        bytes::le16_at(bytes, 250),
    ) {
        Err(SupervisorWireError::LimitExceeded)
    } else if body.len() < policy_len {
        Err(SupervisorWireError::Malformed)
    } else {
        match parsed_body(
            body.subrange(policy_len as int, body.len() as int),
            bytes::le32_at(bytes, 244),
            bytes::le16_at(bytes, 248),
            bytes::le16_at(bytes, 250),
        ) {
            Err(error) => Err(error),
            Ok((executable, arguments, environment)) => {
                let plan = PlanModel {
                    connection_generation: bytes::le64_at(bytes, 24),
                    sequence: bytes::le64_at(bytes, 32),
                    session: bytes.subrange(48, 80),
                    audit_identity: bytes.subrange(80, 112),
                    code_identity: bytes.subrange(112, 144),
                    target_identity: bytes.subrange(144, 176),
                    client_nonce: bytes.subrange(176, 208),
                    service_nonce: bytes.subrange(208, 240),
                    policy_id: body.subrange(0, policy_len as int),
                    launch: LauncherModel {
                        deadline: SupervisorDeadline(bytes::le64_at(bytes, 16)),
                        effective_uid: bytes::le32_at(bytes, 40),
                        effective_gid: bytes::le32_at(bytes, 44),
                        executable,
                        arguments,
                        environment,
                    },
                };
                match checked_plan(plan) {
                    Err(error) => Err(error),
                    Ok(()) => Ok(plan),
                }
            },
        }
    }
}

/// Whether a prefix announces a frame of `length` bytes.
fn check_prefix(prefix: &[u8], magic: &[u8; 8], minimum: usize, length: usize) -> (r: bool)
    requires
        prefix@.len() >= 16,
    ensures
        r == announces(prefix@, magic@, minimum as int, length as int),
{
    if length < minimum || length > MAX_BROKER_PLAN_BYTES || !starts_with(prefix, magic) {
        return false;
    }
    match (u16_at(prefix, 8), u16_at(prefix, 10), u32_at(prefix, 12)) {
        (Some(version), Some(reserved), Some(announced)) => version == PLAN_VERSION && reserved == 0
            && announced as usize == length,
        _ => false,
    }
}

/// Reads the variable part of a frame.
fn decode_body(body: &[u8], executable_len: u32, arguments: u16, environment: u16) -> (r: Result<
    (Vec<u8>, Vec<Vec<u8>>, Vec<TargetEnvironmentEntry>),
    SupervisorWireError,
>)
    ensures
        match (r, parsed_body(body@, executable_len, arguments, environment)) {
            (Ok(parts), Ok(expected)) => {
                &&& parts.0@ == expected.0
                &&& bytes::strings(parts.1@) == expected.1
                &&& target::entries(parts.2@) == expected.2
                &&& target::valid_environment(expected.2)
            },
            (Err(error), Err(expected)) => error == expected,
            _ => false,
        },
{
    let mut cursor = PayloadCursor::new(body);
    let executable = match cursor.take(executable_len as usize) {
        Ok(executable) => copy_bytes(executable),
        Err(error) => {
            return Err(error);
        },
    };
    let list = match take_list(&mut cursor, arguments) {
        Ok(list) => list,
        Err(error) => {
            return Err(error);
        },
    };
    let pairs = match take_environment(&mut cursor, environment) {
        Ok(pairs) => pairs,
        Err(error) => {
            return Err(error);
        },
    };
    if !cursor.is_empty() {
        return Err(SupervisorWireError::Malformed);
    }
    Ok((executable, list, pairs))
}

/// Checks what goes to the target.
fn validate_target(arguments: &Vec<Vec<u8>>, environment: &Vec<TargetEnvironmentEntry>) -> (r: bool)
    ensures
        r == (target::valid_arguments(bytes::strings(arguments@))
            && target::valid_environment(target::entries(environment@))
            && distinct_keys(target::entries(environment@))),
{
    let ghost list = bytes::strings(arguments@);
    let ghost pairs = target::entries(environment@);
    let mut i: usize = 0;
    while i < arguments.len()
        invariant
            i <= arguments@.len(),
            list == bytes::strings(arguments@),
            forall|k: int| 0 <= k < i ==> target::valid_component(#[trigger] list[k]),
        decreases arguments@.len() - i,
    {
        if validate_component(&arguments[i]).is_err() {
            assert(!target::valid_component(list[i as int]));
            return false;
        }
        i += 1;
    }
    let mut j: usize = 0;
    while j < environment.len()
        invariant
            j <= environment@.len(),
            pairs == target::entries(environment@),
            forall|k: int| 0 <= k < j ==> target::valid_entry(#[trigger] pairs[k]),
            forall|k: int, l: int|
                0 <= k < l < j ==> (#[trigger] pairs[k]).key != (#[trigger] pairs[l]).key,
        decreases environment@.len() - j,
    {
        assert(environment@[j as int]@ == pairs[j as int]);
        if validate_environment_key(environment[j].key()).is_err() || validate_component(
            environment[j].value(),
        ).is_err() {
            assert(!target::valid_entry(pairs[j as int]));
            return false;
        }
        let mut k: usize = 0;
        while k < j
            invariant
                k <= j < environment@.len(),
                pairs == target::entries(environment@),
                forall|l: int| 0 <= l < k ==> (#[trigger] pairs[l]).key != pairs[j as int].key,
            decreases j - k,
        {
            assert(environment@[j as int]@ == pairs[j as int]);
            assert(environment@[k as int]@ == pairs[k as int]);
            if same_bytes(environment[k].key(), environment[j].key()) {
                return false;
            }
            k += 1;
        }
        j += 1;
    }
    true
}

/// Minimal cross-exec launch data, apart from everything that a broker authenticates or reports.
pub struct LauncherExecPlan {
    pub deadline: SupervisorDeadline,
    pub effective_uid: u32,
    pub effective_gid: u32,
    pub installed_executable: Vec<u8>,
    pub arguments: Vec<Vec<u8>>,
    pub environment: Vec<TargetEnvironmentEntry>,
}

impl View for LauncherExecPlan {
    type V = LauncherModel;

    open spec fn view(&self) -> LauncherModel {
        LauncherModel {
            deadline: self.deadline,
            effective_uid: self.effective_uid,
            effective_gid: self.effective_gid,
            executable: self.installed_executable@,
            arguments: bytes::strings(self.arguments@),
            environment: target::entries(self.environment@),
        }
    }
}

impl LauncherExecPlan {
    /// The launch of a plan, without its identities and secrets.
    pub fn from_broker(plan: &BrokerLaunchPlan) -> (r: LauncherExecPlan)
        ensures
            r@ == plan@.launch,
    {
        LauncherExecPlan {
            deadline: plan.deadline,
            effective_uid: plan.effective_uid,
            effective_gid: plan.effective_gid,
            installed_executable: copy_bytes(&plan.installed_executable),
            arguments: copy_strings(&plan.arguments),
            environment: copy_entries(&plan.environment),
        }
    }

    /// Checks the launch.
    pub fn validate(&self) -> (r: Result<(), SupervisorWireError>)
        ensures
            r == checked_launch(self@),
    {
        if self.deadline.wire_value() == 0 || self.effective_uid == 0 || self.effective_uid
            == u32::MAX || self.effective_gid == 0 || self.effective_gid == u32::MAX
            || self.arguments.len() == 0 || self.arguments.len() > MAX_ARGUMENTS
            || self.environment.len() > MAX_ENVIRONMENT {
            return Err(SupervisorWireError::Malformed);
        }
        match validate_installed_executable(&self.installed_executable) {
            Err(error) => {
                return Err(error);
            },
            Ok(()) => {},
        }
        if !validate_target(&self.arguments, &self.environment) {
            return Err(SupervisorWireError::InvalidTargetInput);
        }
        Ok(())
    }

    /// Writes the frame. A launch that is not in order is refused, and one that is too long.
    pub fn encode(&self) -> (r: Result<Vec<u8>, SupervisorWireError>)
        ensures
            match r {
                Ok(bytes) => {
                    &&& checked_launch(self@) is Ok
                    &&& launch_bytes(self@).len() <= MAX_BROKER_PLAN_BYTES
                    &&& bytes@ == launch_bytes(self@)
                },
                Err(error) => if checked_launch(self@) is Ok {
                    &&& error == SupervisorWireError::LimitExceeded
                    &&& launch_bytes(self@).len() > MAX_BROKER_PLAN_BYTES
                } else {
                    Err::<(), SupervisorWireError>(error) == checked_launch(self@)
                },
            },
    {
        match self.validate() {
            Err(error) => {
                return Err(error);
            },
            Ok(()) => {},
        }
        let mut body: Vec<u8> = Vec::new();
        put_bytes(&mut body, &self.installed_executable);
        append_list(&mut body, &self.arguments);
        append_environment(&mut body, &self.environment);
        assert(body@ =~= launch_body(self@));
        proof {
            lemma_launch_header(self@);
        }
        if body.len() > MAX_BROKER_PLAN_BYTES - LAUNCHER_HEADER_BYTES {
            return Err(SupervisorWireError::LimitExceeded);
        }
        let mut bytes: Vec<u8> = Vec::new();
        put_bytes(&mut bytes, &LAUNCHER_MAGIC);
        put_u16(&mut bytes, PLAN_VERSION);
        put_u16(&mut bytes, 0);
        put_u32(&mut bytes, (LAUNCHER_HEADER_BYTES + body.len()) as u32);
        put_u64(&mut bytes, self.deadline.wire_value());
        put_u32(&mut bytes, self.effective_uid);
        put_u32(&mut bytes, self.effective_gid);
        put_u32(&mut bytes, self.installed_executable.len() as u32);
        put_u16(&mut bytes, self.arguments.len() as u16);
        put_u16(&mut bytes, self.environment.len() as u16);
        put_bytes(&mut bytes, &body);
        assert(bytes@ =~= launch_bytes(self@));
        Ok(bytes)
    }

    /// Reads a frame.
    pub fn decode_untrusted(bytes: &[u8]) -> (r: Result<LauncherExecPlan, SupervisorWireError>)
        ensures
            match (r, parsed_launch(bytes@)) {
                (Ok(plan), Ok(model)) => plan@ == model,
                (Err(error), Err(expected)) => error == expected,
                _ => false,
            },
    {
        let length: usize = bytes.len();
        if length < LAUNCHER_HEADER_BYTES || !check_prefix(
            bytes,
            &LAUNCHER_MAGIC,
            LAUNCHER_HEADER_BYTES,
            length,
        ) {
            return Err(SupervisorWireError::Malformed);
        }
        let (deadline, effective_uid, effective_gid) = match (
            u64_at(bytes, 16),
            u32_at(bytes, 24),
            u32_at(bytes, 28),
        ) {
            (Some(deadline), Some(uid), Some(gid)) => (
                SupervisorDeadline::from_wire(deadline),
                uid,
                gid,
            ),
            _ => {
                return Err(SupervisorWireError::Malformed);
            },
        };
        let (executable_len, argument_count, environment_count) = match (
            u32_at(bytes, 32),
            u16_at(bytes, 36),
            u16_at(bytes, 38),
        ) {
            (Some(a), Some(b), Some(c)) => (a, b, c),
            _ => {
                return Err(SupervisorWireError::Malformed);
            },
        };
        if executable_len as usize > MAX_COMPONENT_BYTES || argument_count == 0
            || argument_count as usize > MAX_ARGUMENTS || environment_count as usize
            > MAX_ENVIRONMENT {
            return Err(SupervisorWireError::LimitExceeded);
        }
        let body = vstd::slice::slice_subrange(bytes, LAUNCHER_HEADER_BYTES, length);
        match decode_body(body, executable_len, argument_count, environment_count) {
            Err(error) => Err(error),
            Ok((installed_executable, arguments, environment)) => {
                let plan = LauncherExecPlan {
                    deadline,
                    effective_uid,
                    effective_gid,
                    installed_executable,
                    arguments,
                    environment,
                };
                match plan.validate() {
                    Err(error) => Err(error),
                    Ok(()) => Ok(plan),
                }
            },
        }
    }
}

/// Canonical authority-free data staged to one exact dormant broker.
#[derive(Debug, PartialEq, Eq)]
pub struct BrokerLaunchPlan {
    pub deadline: SupervisorDeadline,
    pub connection_generation: u64,
    pub sequence: u64,
    pub effective_uid: u32,
    pub effective_gid: u32,
    pub session: [u8; 32],
    pub audit_identity: [u8; 32],
    pub code_identity: [u8; 32],
    pub target_identity: [u8; 32],
    pub client_nonce: [u8; 32],
    pub service_nonce: [u8; 32],
    pub policy_id: Vec<u8>,
    pub installed_executable: Vec<u8>,
    pub arguments: Vec<Vec<u8>>,
    pub environment: Vec<TargetEnvironmentEntry>,
}

impl View for BrokerLaunchPlan {
    type V = PlanModel;

    open spec fn view(&self) -> PlanModel {
        PlanModel {
            connection_generation: self.connection_generation,
            sequence: self.sequence,
            session: self.session@,
            audit_identity: self.audit_identity@,
            code_identity: self.code_identity@,
            target_identity: self.target_identity@,
            client_nonce: self.client_nonce@,
            service_nonce: self.service_nonce@,
            policy_id: self.policy_id@,
            launch: LauncherModel {
                deadline: self.deadline,
                effective_uid: self.effective_uid,
                effective_gid: self.effective_gid,
                executable: self.installed_executable@,
                arguments: bytes::strings(self.arguments@),
                environment: target::entries(self.environment@),
            },
        }
    }
}

impl BrokerLaunchPlan {
    /// Checks the plan.
    pub fn validate(&self) -> (r: Result<(), SupervisorWireError>)
        ensures
            r == checked_plan(self@),
    {
        if self.deadline.wire_value() == 0 || self.connection_generation == 0 || self.sequence != 1
            || self.effective_uid == 0 || self.effective_uid == u32::MAX || self.effective_gid == 0
            || self.effective_gid == u32::MAX || is_all_zero(&self.session) || is_all_zero(
            &self.audit_identity,
        ) || is_all_zero(&self.code_identity) || is_all_zero(&self.target_identity) || is_all_zero(
            &self.client_nonce,
        ) || is_all_zero(&self.service_nonce) || same_bytes(&self.client_nonce, &self.service_nonce)
            || self.arguments.len() == 0 || self.arguments.len() > MAX_ARGUMENTS
            || self.environment.len() > MAX_ENVIRONMENT {
            return Err(SupervisorWireError::Malformed);
        }
        match validate_policy_id(&self.policy_id) {
            Err(error) => {
                return Err(error);
            },
            Ok(()) => {},
        }
        match validate_installed_executable(&self.installed_executable) {
            Err(error) => {
                return Err(error);
            },
            Ok(()) => {},
        }
        if !validate_target(&self.arguments, &self.environment) {
            return Err(SupervisorWireError::InvalidTargetInput);
        }
        Ok(())
    }

    /// Writes the frame. A plan that is not in order is refused, and one that is too long.
    pub fn encode(&self) -> (r: Result<Vec<u8>, SupervisorWireError>)
        ensures
            match r {
                Ok(bytes) => {
                    &&& checked_plan(self@) is Ok
                    &&& plan_bytes(self@).len() <= MAX_BROKER_PLAN_BYTES
                    &&& bytes@ == plan_bytes(self@)
                },
                Err(error) => if checked_plan(self@) is Ok {
                    &&& error == SupervisorWireError::LimitExceeded
                    &&& plan_bytes(self@).len() > MAX_BROKER_PLAN_BYTES
                } else {
                    Err::<(), SupervisorWireError>(error) == checked_plan(self@)
                },
            },
    {
        match self.validate() {
            Err(error) => {
                return Err(error);
            },
            Ok(()) => {},
        }
        let mut body: Vec<u8> = Vec::new();
        put_bytes(&mut body, &self.policy_id);
        put_bytes(&mut body, &self.installed_executable);
        append_list(&mut body, &self.arguments);
        append_environment(&mut body, &self.environment);
        assert(body@ =~= self@.policy_id + launch_body(self@.launch));
        proof {
            lemma_plan_header(self@);
        }
        if body.len() > MAX_BROKER_PLAN_BYTES - HEADER_BYTES {
            return Err(SupervisorWireError::LimitExceeded);
        }
        let mut bytes: Vec<u8> = Vec::new();
        put_bytes(&mut bytes, &PLAN_MAGIC);
        put_u16(&mut bytes, PLAN_VERSION);
        put_u16(&mut bytes, 0);
        put_u32(&mut bytes, (HEADER_BYTES + body.len()) as u32);
        put_u64(&mut bytes, self.deadline.wire_value());
        assert(bytes@ =~= frame_prefix(PLAN_MAGIC@, HEADER_BYTES + body@.len(), self.deadline));
        let ghost prefix = bytes@;
        put_u64(&mut bytes, self.connection_generation);
        put_u64(&mut bytes, self.sequence);
        put_u32(&mut bytes, self.effective_uid);
        put_u32(&mut bytes, self.effective_gid);
        assert(bytes@ =~= prefix + plan_numbers(self@));
        put_bytes(&mut bytes, &self.session);
        put_bytes(&mut bytes, &self.audit_identity);
        put_bytes(&mut bytes, &self.code_identity);
        put_bytes(&mut bytes, &self.target_identity);
        put_bytes(&mut bytes, &self.client_nonce);
        put_bytes(&mut bytes, &self.service_nonce);
        assert(bytes@ =~= prefix + plan_numbers(self@) + plan_secrets(self@));
        put_u32(&mut bytes, self.policy_id.len() as u32);
        put_u32(&mut bytes, self.installed_executable.len() as u32);
        put_u16(&mut bytes, self.arguments.len() as u16);
        put_u16(&mut bytes, self.environment.len() as u16);
        put_u32(&mut bytes, 0);
        put_bytes(&mut bytes, &body);
        assert(bytes@ =~= plan_bytes(self@));
        Ok(bytes)
    }

    /// Reads a frame.
    pub fn decode_untrusted(bytes: &[u8]) -> (r: Result<BrokerLaunchPlan, SupervisorWireError>)
        ensures
            match (r, parsed_plan(bytes@)) {
                (Ok(plan), Ok(model)) => plan@ == model,
                (Err(error), Err(expected)) => error == expected,
                _ => false,
            },
    {
        let length: usize = bytes.len();
        if length < HEADER_BYTES || !check_prefix(bytes, &PLAN_MAGIC, HEADER_BYTES, length) {
            return Err(SupervisorWireError::Malformed);
        }
        let (policy_len, executable_len, argument_count, environment_count, reserved) = match (
            u32_at(bytes, 240),
            u32_at(bytes, 244),
            u16_at(bytes, 248),
            u16_at(bytes, 250),
            u32_at(bytes, 252),
        ) {
            (Some(a), Some(b), Some(c), Some(d), Some(e)) => (a, b, c, d, e),
            _ => {
                return Err(SupervisorWireError::Malformed);
            },
        };
        if reserved != 0 {
            return Err(SupervisorWireError::Malformed);
        }
        if policy_len as usize > MAX_POLICY_ID_BYTES || executable_len as usize
            > MAX_COMPONENT_BYTES || argument_count == 0 || argument_count as usize > MAX_ARGUMENTS
            || environment_count as usize > MAX_ENVIRONMENT {
            return Err(SupervisorWireError::LimitExceeded);
        }
        let mut cursor = PayloadCursor::new(
            vstd::slice::slice_subrange(bytes, HEADER_BYTES, length),
        );
        let policy_id = match cursor.take(policy_len as usize) {
            Ok(policy_id) => copy_bytes(policy_id),
            Err(error) => {
                return Err(error);
            },
        };
        let (installed_executable, arguments, environment) = match decode_body(
            cursor.remaining,
            executable_len,
            argument_count,
            environment_count,
        ) {
            Ok(parts) => parts,
            Err(error) => {
                return Err(error);
            },
        };
        let (deadline, connection_generation, sequence, effective_uid, effective_gid) = match (
            u64_at(bytes, 16),
            u64_at(bytes, 24),
            u64_at(bytes, 32),
            u32_at(bytes, 40),
            u32_at(bytes, 44),
        ) {
            (Some(a), Some(b), Some(c), Some(d), Some(e)) => (a, b, c, d, e),
            _ => {
                return Err(SupervisorWireError::Malformed);
            },
        };
        match (
            array_at(bytes, 48),
            array_at(bytes, 80),
            array_at(bytes, 112),
            array_at(bytes, 144),
            array_at(bytes, 176),
            array_at(bytes, 208),
        ) {
            (Some(a), Some(b), Some(c), Some(d), Some(e), Some(f)) => {
                let plan = BrokerLaunchPlan {
                    deadline: SupervisorDeadline::from_wire(deadline),
                    connection_generation,
                    sequence,
                    effective_uid,
                    effective_gid,
                    session: a,
                    audit_identity: b,
                    code_identity: c,
                    target_identity: d,
                    client_nonce: e,
                    service_nonce: f,
                    policy_id,
                    installed_executable,
                    arguments,
                    environment,
                };
                match plan.validate() {
                    Err(error) => Err(error),
                    Ok(()) => Ok(plan),
                }
            },
            _ => Err(SupervisorWireError::Malformed),
        }
    }
}

/// Length and fields of a launcher frame.
proof fn lemma_launch_header(launch: LauncherModel)
    ensures
        launch_bytes(launch).len() == LAUNCHER_HEADER_BYTES + launch_body(launch).len(),
{
    let body = launch_body(launch);
    bytes::lemma_le16(PLAN_VERSION);
    bytes::lemma_le16(0);
    bytes::lemma_le32((LAUNCHER_HEADER_BYTES + body.len()) as u32);
    bytes::lemma_le64(launch.deadline.0);
    bytes::lemma_le32(launch.effective_uid);
    bytes::lemma_le32(launch.effective_gid);
    bytes::lemma_le32(launch.executable.len() as u32);
    bytes::lemma_le16(launch.arguments.len() as u16);
    bytes::lemma_le16(launch.environment.len() as u16);
}

/// Length of a broker frame whose secrets have 32 bytes.
proof fn lemma_plan_header(plan: PlanModel)
    requires
        plan.session.len() == 32,
        plan.audit_identity.len() == 32,
        plan.code_identity.len() == 32,
        plan.target_identity.len() == 32,
        plan.client_nonce.len() == 32,
        plan.service_nonce.len() == 32,
    ensures
        plan_bytes(plan).len() == HEADER_BYTES + plan.policy_id.len() + launch_body(
            plan.launch,
        ).len(),
        plan_numbers(plan).len() == 24,
        plan_secrets(plan).len() == 192,
        plan_counts(plan).len() == 16,
{
    let body = plan.policy_id + launch_body(plan.launch);
    bytes::lemma_le16(PLAN_VERSION);
    bytes::lemma_le16(0);
    bytes::lemma_le32((HEADER_BYTES + body.len()) as u32);
    bytes::lemma_le64(plan.launch.deadline.0);
    bytes::lemma_le64(plan.connection_generation);
    bytes::lemma_le64(plan.sequence);
    bytes::lemma_le32(plan.launch.effective_uid);
    bytes::lemma_le32(plan.launch.effective_gid);
    bytes::lemma_le32(plan.policy_id.len() as u32);
    bytes::lemma_le32(plan.launch.executable.len() as u32);
    bytes::lemma_le16(plan.launch.arguments.len() as u16);
    bytes::lemma_le16(plan.launch.environment.len() as u16);
    bytes::lemma_le32(0);
}

/// The variable part of a frame reads back.
proof fn lemma_body_round_trip(launch: LauncherModel)
    requires
        checked_launch(launch) is Ok,
    ensures
        parsed_body(
            launch_body(launch),
            launch.executable.len() as u32,
            launch.arguments.len() as u16,
            launch.environment.len() as u16,
        ) == Ok::<LaunchParts, SupervisorWireError>(
            (launch.executable, launch.arguments, launch.environment),
        ),
{
    let body = launch_body(launch);
    let length = launch.executable.len() as int;
    let tail = frame::environment_bytes(launch.environment);
    assert(body.subrange(0, length) =~= launch.executable);
    assert(body.subrange(length, body.len() as int) =~= frame::list_bytes(launch.arguments) + tail);
    assert forall|i: int| 0 <= i < launch.arguments.len() implies (
    #[trigger] launch.arguments[i]).len() <= u32::MAX by {
        assert(target::valid_component(launch.arguments[i]));
    }
    frame::lemma_list_round_trip(launch.arguments, tail);
    assert(tail =~= tail + seq![]);
    frame::lemma_environment_round_trip(launch.environment, seq![]);
}

/// A variable part that is read is the one form of its launch.
proof fn lemma_body_canonical(
    body: Seq<u8>,
    executable_len: u32,
    arguments: u16,
    environment: u16,
    launch: LauncherModel,
)
    requires
        parsed_body(body, executable_len, arguments, environment) == Ok::<
            LaunchParts,
            SupervisorWireError,
        >((launch.executable, launch.arguments, launch.environment)),
    ensures
        body == launch_body(launch),
        launch.executable.len() == executable_len,
        launch.arguments.len() == arguments,
        launch.environment.len() == environment,
{
    let from = body.subrange(executable_len as int, body.len() as int);
    frame::lemma_list_canonical(from, arguments as nat);
    let (list, rest) = frame::parsed_list(from, arguments as nat)->Ok_0;
    frame::lemma_environment_canonical(rest, environment as nat);
    let (pairs, left) = frame::parsed_environment(rest, environment as nat)->Ok_0;
    assert(left =~= seq![]);
    assert(from =~= frame::list_bytes(list) + frame::environment_bytes(pairs));
    assert(body =~= body.subrange(0, executable_len as int) + from);
    assert(body =~= launch_body(launch));
}

/// The prefix of a frame reads back.
proof fn lemma_prefix(bytes: Seq<u8>, magic: Seq<u8>, deadline: SupervisorDeadline, rest: Seq<u8>)
    requires
        magic.len() == 8,
        bytes == frame_prefix(magic, bytes.len() as int, deadline) + rest,
        bytes.len() <= MAX_BROKER_PLAN_BYTES,
    ensures
        bytes.len() == 24 + rest.len(),
        forall|minimum: int|
            minimum <= bytes.len() ==> announces(bytes, magic, minimum, bytes.len() as int),
        bytes::le64_at(bytes, 16) == deadline.0,
        bytes.subrange(24, bytes.len() as int) == rest,
{
    bytes::lemma_le16(PLAN_VERSION);
    bytes::lemma_le16(0);
    bytes::lemma_le32(bytes.len() as u32);
    bytes::lemma_le64(deadline.0);
    assert(bytes.subrange(0, 8) =~= magic);
    assert(bytes.subrange(8, 10) =~= bytes::le16(PLAN_VERSION));
    assert(bytes.subrange(10, 12) =~= bytes::le16(0));
    assert(bytes.subrange(12, 16) =~= bytes::le32(bytes.len() as u32));
    assert(bytes.subrange(16, 24) =~= bytes::le64(deadline.0));
    bytes::lemma_field(bytes, 8);
    bytes::lemma_field(bytes, 10);
    bytes::lemma_field(bytes, 12);
    bytes::lemma_field(bytes, 16);
    assert(bytes.subrange(24, bytes.len() as int) =~= rest);
}

/// The prefix of a frame is the one form of what it announces.
proof fn lemma_prefix_canonical(bytes: Seq<u8>, magic: Seq<u8>, minimum: int)
    requires
        24 <= minimum,
        announces(bytes, magic, minimum, bytes.len() as int),
    ensures
        bytes.subrange(0, 24) == frame_prefix(
            magic,
            bytes.len() as int,
            SupervisorDeadline(bytes::le64_at(bytes, 16)),
        ),
{
    bytes::lemma_le16_at(bytes, 8);
    bytes::lemma_le16_at(bytes, 10);
    bytes::lemma_le32_at(bytes, 12);
    bytes::lemma_le64_at(bytes, 16);
    assert(bytes.subrange(0, 24) =~= bytes.subrange(0, 8) + bytes.subrange(8, 10) + bytes.subrange(
        10,
        12,
    ) + bytes.subrange(12, 16) + bytes.subrange(16, 24));
}

/// A launch reads back from its frame.
pub proof fn law_launch_round_trip(launch: LauncherModel)
    requires
        checked_launch(launch) is Ok,
        launch_bytes(launch).len() <= MAX_BROKER_PLAN_BYTES,
    ensures
        parsed_launch(launch_bytes(launch)) == Ok::<LauncherModel, SupervisorWireError>(launch),
{
    let bytes = launch_bytes(launch);
    let body = launch_body(launch);
    let rest = bytes::le32(launch.effective_uid) + bytes::le32(launch.effective_gid)
        + bytes::le32(launch.executable.len() as u32) + bytes::le16(launch.arguments.len() as u16)
        + bytes::le16(launch.environment.len() as u16) + body;
    lemma_launch_header(launch);
    assert(bytes =~= frame_prefix(LAUNCHER_MAGIC@, bytes.len() as int, launch.deadline) + rest);
    lemma_prefix(bytes, LAUNCHER_MAGIC@, launch.deadline, rest);
    bytes::lemma_le32(launch.effective_uid);
    bytes::lemma_le32(launch.effective_gid);
    bytes::lemma_le32(launch.executable.len() as u32);
    bytes::lemma_le16(launch.arguments.len() as u16);
    bytes::lemma_le16(launch.environment.len() as u16);
    assert(bytes.subrange(24, 28) =~= bytes::le32(launch.effective_uid));
    assert(bytes.subrange(28, 32) =~= bytes::le32(launch.effective_gid));
    assert(bytes.subrange(32, 36) =~= bytes::le32(launch.executable.len() as u32));
    assert(bytes.subrange(36, 38) =~= bytes::le16(launch.arguments.len() as u16));
    assert(bytes.subrange(38, 40) =~= bytes::le16(launch.environment.len() as u16));
    bytes::lemma_field(bytes, 24);
    bytes::lemma_field(bytes, 28);
    bytes::lemma_field(bytes, 32);
    bytes::lemma_field(bytes, 36);
    bytes::lemma_field(bytes, 38);
    assert(bytes.subrange(40, bytes.len() as int) =~= body);
    lemma_body_round_trip(launch);
}

/// A launcher frame that is accepted is the one form of its launch.
pub proof fn law_launch_is_canonical(bytes: Seq<u8>)
    requires
        parsed_launch(bytes) is Ok,
    ensures
        parsed_launch(bytes) matches Ok(launch) && checked_launch(launch) is Ok && bytes
            == launch_bytes(launch),
{
    let launch = parsed_launch(bytes)->Ok_0;
    let body = bytes.subrange(40, bytes.len() as int);
    lemma_body_canonical(
        body,
        bytes::le32_at(bytes, 32),
        bytes::le16_at(bytes, 36),
        bytes::le16_at(bytes, 38),
        launch,
    );
    lemma_prefix_canonical(bytes, LAUNCHER_MAGIC@, LAUNCHER_HEADER_BYTES as int);
    bytes::lemma_le32_at(bytes, 24);
    bytes::lemma_le32_at(bytes, 28);
    bytes::lemma_le32_at(bytes, 32);
    bytes::lemma_le16_at(bytes, 36);
    bytes::lemma_le16_at(bytes, 38);
    assert(bytes =~= bytes.subrange(0, 24) + bytes.subrange(24, 28) + bytes.subrange(28, 32)
        + bytes.subrange(32, 36) + bytes.subrange(36, 38) + bytes.subrange(38, 40) + body);
}

/// A plan reads back from its frame.
pub proof fn law_plan_round_trip(plan: PlanModel)
    requires
        checked_plan(plan) is Ok,
        plan.session.len() == 32,
        plan.audit_identity.len() == 32,
        plan.code_identity.len() == 32,
        plan.target_identity.len() == 32,
        plan.client_nonce.len() == 32,
        plan.service_nonce.len() == 32,
        plan_bytes(plan).len() <= MAX_BROKER_PLAN_BYTES,
    ensures
        parsed_plan(plan_bytes(plan)) == Ok::<PlanModel, SupervisorWireError>(plan),
{
    let bytes = plan_bytes(plan);
    let launched = launch_body(plan.launch);
    let body = plan.policy_id + launched;
    let numbers = plan_numbers(plan);
    let secrets = plan_secrets(plan);
    let counts = plan_counts(plan);
    let rest = numbers + secrets + counts + body;
    lemma_plan_header(plan);
    assert(bytes =~= frame_prefix(PLAN_MAGIC@, bytes.len() as int, plan.launch.deadline) + rest);
    lemma_prefix(bytes, PLAN_MAGIC@, plan.launch.deadline, rest);
    assert(bytes.subrange(24, 48) =~= numbers) by {
        assert(bytes.subrange(24, 48) =~= rest.subrange(0, 24));
    }
    assert(bytes.subrange(48, 240) =~= secrets) by {
        assert(bytes.subrange(48, 240) =~= rest.subrange(24, 216));
    }
    assert(bytes.subrange(240, 256) =~= counts) by {
        assert(bytes.subrange(240, 256) =~= rest.subrange(216, 232));
    }
    assert(bytes.subrange(256, bytes.len() as int) =~= body) by {
        assert(bytes.subrange(256, bytes.len() as int) =~= rest.subrange(232, rest.len() as int));
    }
    lemma_numbers_round_trip(plan, bytes);
    lemma_secrets_round_trip(plan, bytes);
    lemma_counts_round_trip(plan, bytes);
    let length = plan.policy_id.len() as int;
    assert(body.subrange(0, length) =~= plan.policy_id);
    assert(body.subrange(length, body.len() as int) =~= launched);
    assert(checked_launch(plan.launch) is Ok);
    lemma_body_round_trip(plan.launch);
}

/// The numbers of a plan read back.
proof fn lemma_numbers_round_trip(plan: PlanModel, bytes: Seq<u8>)
    requires
        bytes.len() >= 256,
        bytes.subrange(24, 48) == plan_numbers(plan),
    ensures
        bytes::le64_at(bytes, 24) == plan.connection_generation,
        bytes::le64_at(bytes, 32) == plan.sequence,
        bytes::le32_at(bytes, 40) == plan.launch.effective_uid,
        bytes::le32_at(bytes, 44) == plan.launch.effective_gid,
{
    let part = bytes.subrange(24, 48);
    bytes::lemma_le64(plan.connection_generation);
    bytes::lemma_le64(plan.sequence);
    bytes::lemma_le32(plan.launch.effective_uid);
    bytes::lemma_le32(plan.launch.effective_gid);
    assert(part.subrange(0, 8) =~= bytes::le64(plan.connection_generation));
    assert(part.subrange(8, 16) =~= bytes::le64(plan.sequence));
    assert(part.subrange(16, 20) =~= bytes::le32(plan.launch.effective_uid));
    assert(part.subrange(20, 24) =~= bytes::le32(plan.launch.effective_gid));
    bytes::lemma_field(part, 0);
    bytes::lemma_field(part, 8);
    bytes::lemma_field(part, 16);
    bytes::lemma_field(part, 20);
    bytes::lemma_le_at_subrange(bytes, 24, 48, 0);
    bytes::lemma_le_at_subrange(bytes, 24, 48, 8);
    bytes::lemma_le_at_subrange(bytes, 24, 48, 16);
    bytes::lemma_le_at_subrange(bytes, 24, 48, 20);
}

/// The secrets of a plan read back.
proof fn lemma_secrets_round_trip(plan: PlanModel, bytes: Seq<u8>)
    requires
        bytes.len() >= 256,
        plan.session.len() == 32,
        plan.audit_identity.len() == 32,
        plan.code_identity.len() == 32,
        plan.target_identity.len() == 32,
        plan.client_nonce.len() == 32,
        plan.service_nonce.len() == 32,
        bytes.subrange(48, 240) == plan_secrets(plan),
    ensures
        bytes.subrange(48, 80) == plan.session,
        bytes.subrange(80, 112) == plan.audit_identity,
        bytes.subrange(112, 144) == plan.code_identity,
        bytes.subrange(144, 176) == plan.target_identity,
        bytes.subrange(176, 208) == plan.client_nonce,
        bytes.subrange(208, 240) == plan.service_nonce,
{
    let part = bytes.subrange(48, 240);
    assert(bytes.subrange(48, 80) =~= part.subrange(0, 32));
    assert(bytes.subrange(80, 112) =~= part.subrange(32, 64));
    assert(bytes.subrange(112, 144) =~= part.subrange(64, 96));
    assert(bytes.subrange(144, 176) =~= part.subrange(96, 128));
    assert(bytes.subrange(176, 208) =~= part.subrange(128, 160));
    assert(bytes.subrange(208, 240) =~= part.subrange(160, 192));
    assert(part.subrange(0, 32) =~= plan.session);
    assert(part.subrange(32, 64) =~= plan.audit_identity);
    assert(part.subrange(64, 96) =~= plan.code_identity);
    assert(part.subrange(96, 128) =~= plan.target_identity);
    assert(part.subrange(128, 160) =~= plan.client_nonce);
    assert(part.subrange(160, 192) =~= plan.service_nonce);
}

/// The counts of a plan read back.
proof fn lemma_counts_round_trip(plan: PlanModel, bytes: Seq<u8>)
    requires
        bytes.len() >= 256,
        bytes.subrange(240, 256) == plan_counts(plan),
    ensures
        bytes::le32_at(bytes, 240) == plan.policy_id.len() as u32,
        bytes::le32_at(bytes, 244) == plan.launch.executable.len() as u32,
        bytes::le16_at(bytes, 248) == plan.launch.arguments.len() as u16,
        bytes::le16_at(bytes, 250) == plan.launch.environment.len() as u16,
        bytes::le32_at(bytes, 252) == 0,
{
    let part = bytes.subrange(240, 256);
    bytes::lemma_le32(plan.policy_id.len() as u32);
    bytes::lemma_le32(plan.launch.executable.len() as u32);
    bytes::lemma_le16(plan.launch.arguments.len() as u16);
    bytes::lemma_le16(plan.launch.environment.len() as u16);
    bytes::lemma_le32(0);
    assert(part.subrange(0, 4) =~= bytes::le32(plan.policy_id.len() as u32));
    assert(part.subrange(4, 8) =~= bytes::le32(plan.launch.executable.len() as u32));
    assert(part.subrange(8, 10) =~= bytes::le16(plan.launch.arguments.len() as u16));
    assert(part.subrange(10, 12) =~= bytes::le16(plan.launch.environment.len() as u16));
    assert(part.subrange(12, 16) =~= bytes::le32(0));
    bytes::lemma_field(part, 0);
    bytes::lemma_field(part, 4);
    bytes::lemma_field(part, 8);
    bytes::lemma_field(part, 10);
    bytes::lemma_field(part, 12);
    bytes::lemma_le_at_subrange(bytes, 240, 256, 0);
    bytes::lemma_le_at_subrange(bytes, 240, 256, 4);
    bytes::lemma_le_at_subrange(bytes, 240, 256, 8);
    bytes::lemma_le_at_subrange(bytes, 240, 256, 10);
    bytes::lemma_le_at_subrange(bytes, 240, 256, 12);
}

/// A broker frame that is accepted is the one form of its plan.
pub proof fn law_plan_is_canonical(bytes: Seq<u8>)
    requires
        parsed_plan(bytes) is Ok,
    ensures
        parsed_plan(bytes) matches Ok(plan) && checked_plan(plan) is Ok && bytes == plan_bytes(
            plan,
        ),
{
    let plan = parsed_plan(bytes)->Ok_0;
    let policy_len = bytes::le32_at(bytes, 240) as int;
    let body = bytes.subrange(256, bytes.len() as int);
    let launched = body.subrange(policy_len, body.len() as int);
    lemma_body_canonical(
        launched,
        bytes::le32_at(bytes, 244),
        bytes::le16_at(bytes, 248),
        bytes::le16_at(bytes, 250),
        plan.launch,
    );
    lemma_prefix_canonical(bytes, PLAN_MAGIC@, HEADER_BYTES as int);
    assert(body =~= plan.policy_id + launched);
    assert(plan_numbers(plan) =~= bytes.subrange(24, 48)) by {
        bytes::lemma_le64_at(bytes, 24);
        bytes::lemma_le64_at(bytes, 32);
        bytes::lemma_le32_at(bytes, 40);
        bytes::lemma_le32_at(bytes, 44);
        assert(bytes.subrange(24, 48) =~= bytes.subrange(24, 32) + bytes.subrange(32, 40)
            + bytes.subrange(40, 44) + bytes.subrange(44, 48));
    }
    assert(plan_secrets(plan) =~= bytes.subrange(48, 240));
    assert(plan_counts(plan) =~= bytes.subrange(240, 256)) by {
        bytes::lemma_le32_at(bytes, 240);
        bytes::lemma_le32_at(bytes, 244);
        bytes::lemma_le16_at(bytes, 248);
        bytes::lemma_le16_at(bytes, 250);
        bytes::lemma_le32_at(bytes, 252);
        assert(bytes.subrange(240, 256) =~= bytes.subrange(240, 244) + bytes.subrange(244, 248)
            + bytes.subrange(248, 250) + bytes.subrange(250, 252) + bytes.subrange(252, 256));
    }
    assert(bytes =~= bytes.subrange(0, 24) + bytes.subrange(24, 48) + bytes.subrange(48, 240)
        + bytes.subrange(240, 256) + body);
}

/// No truncation and no extension of a frame is accepted as a frame.
pub proof fn law_frame_length_is_bound(bytes: Seq<u8>, other: Seq<u8>)
    requires
        bytes.is_prefix_of(other) || other.is_prefix_of(bytes),
        bytes.len() != other.len(),
    ensures
        parsed_plan(bytes) is Ok ==> parsed_plan(other) == Err::<PlanModel, _>(
            SupervisorWireError::Malformed,
        ),
        parsed_launch(bytes) is Ok ==> parsed_launch(other) == Err::<LauncherModel, _>(
            SupervisorWireError::Malformed,
        ),
{
    let n = if bytes.len() < other.len() {
        bytes.len()
    } else {
        other.len()
    } as int;
    assert(bytes.subrange(0, n) =~= other.subrange(0, n));
    if n >= 16 {
        bytes::lemma_le_at_subrange(bytes, 0, n, 12);
        bytes::lemma_le_at_subrange(other, 0, n, 12);
    }
}

/// What the fixed prefix of a frame announces.
pub struct BrokerPlanPrefix {
    pub frame_len: usize,
    pub deadline: SupervisorDeadlineBinding,
}

/// What a prefix announces, or why it is refused: first its form, then its deadline.
pub open spec fn parsed_prefix(
    prefix: Seq<u8>,
    magic: Seq<u8>,
    minimum: int,
    outer_len: int,
    clock: ClockSample,
) -> Result<(SupervisorDeadline, u64), SupervisorWireError> {
    let wire = SupervisorDeadline(bytes::le64_at(prefix, 16));
    if !announces(prefix, magic, minimum, outer_len) {
        Err(SupervisorWireError::Malformed)
    } else {
        match wire.local_instant(clock) {
            Err(error) => Err(error),
            Ok(local) => Ok((wire, local)),
        }
    }
}

/// Reads a prefix.
fn parse_prefix(
    prefix: &[u8],
    magic: &[u8; 8],
    minimum: usize,
    outer_len: usize,
    clock: ClockSample,
) -> (r: Result<BrokerPlanPrefix, SupervisorWireError>)
    requires
        prefix@.len() >= 24,
    ensures
        match (r, parsed_prefix(prefix@, magic@, minimum as int, outer_len as int, clock)) {
            (Ok(parsed), Ok((wire, local))) => {
                &&& parsed.frame_len == outer_len
                &&& parsed.deadline.spec_wire() == wire
                &&& parsed.deadline.spec_local() == local
            },
            (Err(error), Err(expected)) => error == expected,
            _ => false,
        },
{
    if !check_prefix(prefix, magic, minimum, outer_len) {
        return Err(SupervisorWireError::Malformed);
    }
    match u64_at(prefix, 16) {
        None => Err(SupervisorWireError::Malformed),
        Some(value) => match SupervisorDeadlineBinding::from_wire(
            SupervisorDeadline::from_wire(value),
            clock,
        ) {
            Err(error) => Err(error),
            Ok(deadline) => Ok(BrokerPlanPrefix { frame_len: outer_len, deadline }),
        },
    }
}

/// Binds the length and the deadline of a launcher frame before anything else of it is read.
pub fn parse_launcher_plan_prefix(prefix: &[u8; 24], outer_len: usize, clock: ClockSample) -> (r:
    Result<BrokerPlanPrefix, SupervisorWireError>)
    ensures
        match (
            r,
            parsed_prefix(
                prefix@,
                LAUNCHER_MAGIC@,
                LAUNCHER_HEADER_BYTES as int,
                outer_len as int,
                clock,
            ),
        ) {
            (Ok(parsed), Ok((wire, local))) => {
                &&& parsed.frame_len == outer_len
                &&& parsed.deadline.spec_wire() == wire
                &&& parsed.deadline.spec_local() == local
            },
            (Err(error), Err(expected)) => error == expected,
            _ => false,
        },
{
    parse_prefix(prefix, &LAUNCHER_MAGIC, LAUNCHER_HEADER_BYTES, outer_len, clock)
}

/// Binds the length and the deadline of a broker frame before anything else of it is read.
pub fn parse_broker_plan_prefix(prefix: &[u8; 24], outer_len: usize, clock: ClockSample) -> (r:
    Result<BrokerPlanPrefix, SupervisorWireError>)
    ensures
        match (
            r,
            parsed_prefix(prefix@, PLAN_MAGIC@, HEADER_BYTES as int, outer_len as int, clock),
        ) {
            (Ok(parsed), Ok((wire, local))) => {
                &&& parsed.frame_len == outer_len
                &&& parsed.deadline.spec_wire() == wire
                &&& parsed.deadline.spec_local() == local
            },
            (Err(error), Err(expected)) => error == expected,
            _ => false,
        },
{
    parse_prefix(prefix, &PLAN_MAGIC, HEADER_BYTES, outer_len, clock)
}

/// The digest that an acknowledgement carries: that of the domain followed by the frame.
pub open spec fn plan_digest(frame: Seq<u8>) -> Seq<u8> {
    digest::sha256_of(ACK_DOMAIN@ + frame)
}

/// Digest of a complete frame.
pub fn broker_plan_digest(frame: &[u8]) -> (r: [u8; 32])
    requires
        ACK_DOMAIN@.len() + frame@.len() < DIGEST_LIMIT,
    ensures
        r@ == plan_digest(frame@),
{
    let mut message: Vec<u8> = Vec::new();
    put_bytes(&mut message, &ACK_DOMAIN);
    put_bytes(&mut message, frame);
    assert(message@ =~= ACK_DOMAIN@ + frame@);
    sha256(&message)
}

/// The acknowledgement that carries `digest`.
pub fn ack_of_digest(digest: [u8; 32]) -> (r: [u8; 40])
    ensures
        r@ == ACK_MAGIC@ + digest@,
{
    let mut ack: [u8; 40] = [0u8;40];
    let mut i: usize = 0;
    while i < 40
        invariant
            i <= 40,
            forall|k: int| 0 <= k < i ==> ack@[k] == (ACK_MAGIC@ + digest@)[k],
        decreases 40 - i,
    {
        ack[i] = if i < 8 {
            ACK_MAGIC[i]
        } else {
            digest[i - 8]
        };
        i += 1;
    }
    assert(ack@ =~= ACK_MAGIC@ + digest@);
    ack
}

/// The acknowledgement of a complete frame.
pub fn broker_plan_ack(frame: &[u8]) -> (r: [u8; 40])
    requires
        ACK_DOMAIN@.len() + frame@.len() < DIGEST_LIMIT,
    ensures
        r@ == ACK_MAGIC@ + plan_digest(frame@),
{
    ack_of_digest(broker_plan_digest(frame))
}

/// What a broker's trace report is bound to.
#[derive(Clone, Copy, Debug, PartialEq, Eq)]
pub struct BrokerTraceReportBinding {
    pub deadline: SupervisorDeadline,
    pub connection_generation: u64,
    pub sequence: u64,
    pub effective_uid: u32,
    pub effective_gid: u32,
    pub session: [u8; 32],
    pub client_nonce: [u8; 32],
    pub service_nonce: [u8; 32],
    pub target_identity: [u8; 32],
    pub plan_digest: [u8; 32],
}

impl BrokerTraceReportBinding {
    /// Whether the binding is that of `plan` and of a frame with this digest.
    pub open spec fn binds(self, plan: PlanModel, digest: Seq<u8>) -> bool {
        &&& self.deadline == plan.launch.deadline
        &&& self.connection_generation == plan.connection_generation
        &&& self.sequence == plan.sequence
        &&& self.effective_uid == plan.launch.effective_uid
        &&& self.effective_gid == plan.launch.effective_gid
        &&& self.session@ == plan.session
        &&& self.client_nonce@ == plan.client_nonce
        &&& self.service_nonce@ == plan.service_nonce
        &&& self.target_identity@ == plan.target_identity
        &&& self.plan_digest@ == digest
    }
}

impl BrokerLaunchPlan {
    /// What the trace report of this plan is bound to.
    pub fn trace_report_binding(&self, plan_digest: [u8; 32]) -> (r: BrokerTraceReportBinding)
        ensures
            r.binds(self@, plan_digest@),
    {
        BrokerTraceReportBinding {
            deadline: self.deadline,
            connection_generation: self.connection_generation,
            sequence: self.sequence,
            effective_uid: self.effective_uid,
            effective_gid: self.effective_gid,
            session: self.session,
            client_nonce: self.client_nonce,
            service_nonce: self.service_nonce,
            target_identity: self.target_identity,
            plan_digest,
        }
    }
}

/// What the trace report of a frame is bound to.
pub fn trace_report_binding_from_frame(frame: &[u8]) -> (r: Result<
    BrokerTraceReportBinding,
    SupervisorWireError,
>)
    ensures
        match (r, parsed_plan(frame@)) {
            (Ok(binding), Ok(plan)) => binding.binds(plan, plan_digest(frame@)),
            (Err(error), Err(expected)) => error == expected,
            _ => false,
        },
{
    match BrokerLaunchPlan::decode_untrusted(frame) {
        Err(error) => Err(error),
        Ok(plan) => Ok(plan.trace_report_binding(broker_plan_digest(frame))),
    }
}

/// What is known of a plan at each of its stages.
#[verifier::ext_equal]
pub struct BoundPlanModel {
    pub plan: PlanModel,
    pub wire_deadline: SupervisorDeadline,
    pub local_deadline: u64,
    pub digest: Seq<u8>,
}

/// Structurally valid but still non-authoritative plan received by a broker.
pub struct ReceivedBrokerLaunchPlan {
    plan: BrokerLaunchPlan,
    deadline: SupervisorDeadlineBinding,
    digest: [u8; 32],
}

impl View for ReceivedBrokerLaunchPlan {
    type V = BoundPlanModel;

    closed spec fn view(&self) -> BoundPlanModel {
        BoundPlanModel {
            plan: self.plan@,
            wire_deadline: self.deadline.spec_wire(),
            local_deadline: self.deadline.spec_local(),
            digest: self.digest@,
        }
    }
}

/// The plan that a broker receives under a deadline that its prefix has bound.
pub open spec fn received_plan(bytes: Seq<u8>, deadline: SupervisorDeadline) -> Result<
    PlanModel,
    SupervisorWireError,
> {
    match parsed_plan(bytes) {
        Err(error) => Err(error),
        Ok(plan) => if plan.launch.deadline != deadline {
            Err(SupervisorWireError::ReplayOrSubstitution)
        } else {
            Ok(plan)
        },
    }
}

impl ReceivedBrokerLaunchPlan {
    /// Reads a frame and binds its deadline at the time of receipt.
    pub fn decode(bytes: &[u8], clock: ClockSample) -> (r: Result<
        ReceivedBrokerLaunchPlan,
        SupervisorWireError,
    >)
        ensures
            match r {
                Ok(received) => {
                    &&& parsed_prefix(
                        bytes@,
                        PLAN_MAGIC@,
                        HEADER_BYTES as int,
                        bytes@.len() as int,
                        clock,
                    ) == Ok::<(SupervisorDeadline, u64), SupervisorWireError>(
                        (received@.wire_deadline, received@.local_deadline),
                    )
                    &&& parsed_plan(bytes@) == Ok::<PlanModel, SupervisorWireError>(received@.plan)
                    &&& received@.wire_deadline == received@.plan.launch.deadline
                    &&& received@.digest == plan_digest(bytes@)
                },
                Err(error) => match parsed_prefix(
                    bytes@,
                    PLAN_MAGIC@,
                    HEADER_BYTES as int,
                    bytes@.len() as int,
                    clock,
                ) {
                    Err(expected) => error == expected,
                    Ok(_) => parsed_plan(bytes@) == Err::<PlanModel, SupervisorWireError>(error),
                },
            },
    {
        if bytes.len() < BROKER_PLAN_PREFIX_BYTES {
            return Err(SupervisorWireError::Malformed);
        }
        match parse_prefix(bytes, &PLAN_MAGIC, HEADER_BYTES, bytes.len(), clock) {
            Err(error) => Err(error),
            Ok(prefix) => ReceivedBrokerLaunchPlan::decode_with_deadline(bytes, prefix.deadline),
        }
    }

    /// Reads a frame under the deadline that its prefix has bound.
    pub fn decode_with_deadline(bytes: &[u8], deadline: SupervisorDeadlineBinding) -> (r: Result<
        ReceivedBrokerLaunchPlan,
        SupervisorWireError,
    >)
        ensures
            match (r, received_plan(bytes@, deadline.spec_wire())) {
                (Ok(received), Ok(plan)) => received@ == (BoundPlanModel {
                    plan,
                    wire_deadline: deadline.spec_wire(),
                    local_deadline: deadline.spec_local(),
                    digest: plan_digest(bytes@),
                }),
                (Err(error), Err(expected)) => error == expected,
                _ => false,
            },
    {
        match BrokerLaunchPlan::decode_untrusted(bytes) {
            Err(error) => Err(error),
            Ok(plan) => {
                if plan.deadline.wire_value() != deadline.wire().wire_value() {
                    return Err(SupervisorWireError::ReplayOrSubstitution);
                }
                Ok(ReceivedBrokerLaunchPlan { plan, deadline, digest: broker_plan_digest(bytes) })
            },
        }
    }

    /// The bound deadline.
    pub fn deadline(&self) -> (r: SupervisorDeadlineBinding)
        ensures
            r.spec_wire() == self@.wire_deadline,
            r.spec_local() == self@.local_deadline,
    {
        self.deadline
    }

    /// The plan.
    pub fn plan(&self) -> (r: &BrokerLaunchPlan)
        ensures
            r@ == self@.plan,
    {
        &self.plan
    }

    /// Records that the complete acknowledgement was written to the exact parent.
    pub fn acknowledge_exact_parent(self) -> (r: AcknowledgedBrokerLaunchPlan)
        ensures
            r@ == self@,
    {
        AcknowledgedBrokerLaunchPlan {
            plan: self.plan,
            deadline: self.deadline,
            digest: self.digest,
        }
    }
}

/// Plan whose acknowledgement was written before the broker may start.
pub struct AcknowledgedBrokerLaunchPlan {
    plan: BrokerLaunchPlan,
    deadline: SupervisorDeadlineBinding,
    digest: [u8; 32],
}

impl View for AcknowledgedBrokerLaunchPlan {
    type V = BoundPlanModel;

    closed spec fn view(&self) -> BoundPlanModel {
        BoundPlanModel {
            plan: self.plan@,
            wire_deadline: self.deadline.spec_wire(),
            local_deadline: self.deadline.spec_local(),
            digest: self.digest@,
        }
    }
}

impl AcknowledgedBrokerLaunchPlan {
    /// The bound deadline.
    pub fn deadline(&self) -> (r: SupervisorDeadlineBinding)
        ensures
            r.spec_wire() == self@.wire_deadline,
            r.spec_local() == self@.local_deadline,
    {
        self.deadline
    }

    /// Records that the start pipe's one start was observed after the acknowledgement.
    pub fn activate(self) -> (r: ExactParentBrokerLaunchPlan)
        ensures
            r@ == self@,
    {
        ExactParentBrokerLaunchPlan {
            plan: self.plan,
            deadline: self.deadline,
            digest: self.digest,
        }
    }
}

/// Plan whose acknowledged staging was followed by exact activation.
pub struct ExactParentBrokerLaunchPlan {
    plan: BrokerLaunchPlan,
    deadline: SupervisorDeadlineBinding,
    digest: [u8; 32],
}

impl View for ExactParentBrokerLaunchPlan {
    type V = BoundPlanModel;

    closed spec fn view(&self) -> BoundPlanModel {
        BoundPlanModel {
            plan: self.plan@,
            wire_deadline: self.deadline.spec_wire(),
            local_deadline: self.deadline.spec_local(),
            digest: self.digest@,
        }
    }
}

impl ExactParentBrokerLaunchPlan {
    /// The bound deadline.
    pub fn deadline(&self) -> (r: SupervisorDeadlineBinding)
        ensures
            r.spec_wire() == self@.wire_deadline,
            r.spec_local() == self@.local_deadline,
    {
        self.deadline
    }

    /// The user that the target runs as.
    pub fn effective_uid(&self) -> (r: u32)
        ensures
            r == self@.plan.launch.effective_uid,
    {
        self.plan.effective_uid
    }

    /// The group that the target runs as.
    pub fn effective_gid(&self) -> (r: u32)
        ensures
            r == self@.plan.launch.effective_gid,
    {
        self.plan.effective_gid
    }

    /// The image of the target.
    pub fn installed_executable(&self) -> (r: &[u8])
        ensures
            r@ == self@.plan.launch.executable,
    {
        &self.plan.installed_executable
    }

    /// Gives the plan away.
    pub fn into_plan(self) -> (r: BrokerLaunchPlan)
        ensures
            r@ == self@.plan,
    {
        self.plan
    }

    /// What the trace report is bound to.
    pub fn trace_report_binding(&self) -> (r: BrokerTraceReportBinding)
        ensures
            r.binds(self@.plan, self@.digest),
    {
        self.plan.trace_report_binding(self.digest)
    }

    /// The frame for the launcher. It depends on the launch alone, never on an identity, a nonce,
    /// the session or the policy.
    pub fn launcher_frame(&self) -> (r: Result<Vec<u8>, SupervisorWireError>)
        ensures
            match r {
                Ok(bytes) => {
                    &&& checked_launch(self@.plan.launch) is Ok
                    &&& launch_bytes(self@.plan.launch).len() <= MAX_BROKER_PLAN_BYTES
                    &&& bytes@ == launch_bytes(self@.plan.launch)
                },
                Err(error) => if checked_launch(self@.plan.launch) is Ok {
                    &&& error == SupervisorWireError::LimitExceeded
                    &&& launch_bytes(self@.plan.launch).len() > MAX_BROKER_PLAN_BYTES
                } else {
                    Err::<(), SupervisorWireError>(error) == checked_launch(self@.plan.launch)
                },
            },
    {
        LauncherExecPlan::from_broker(&self.plan).encode()
    }
}

/// Authority-free target data that a launcher has read.
pub struct ReceivedLauncherExecPlan {
    plan: LauncherExecPlan,
    deadline: SupervisorDeadlineBinding,
}

/// Owned target inputs of one launcher frame.
pub struct LauncherExecParts {
    pub deadline: SupervisorDeadlineBinding,
    pub effective_uid: u32,
    pub effective_gid: u32,
    pub installed_executable: Vec<u8>,
    pub arguments: Vec<Vec<u8>>,
    pub environment: Vec<TargetEnvironmentEntry>,
}

impl LauncherExecParts {
    /// The launch that the parts make up.
    pub open spec fn launch(self) -> LauncherModel {
        LauncherModel {
            deadline: self.deadline.spec_wire(),
            effective_uid: self.effective_uid,
            effective_gid: self.effective_gid,
            executable: self.installed_executable@,
            arguments: bytes::strings(self.arguments@),
            environment: target::entries(self.environment@),
        }
    }
}

impl ReceivedLauncherExecPlan {
    /// The launch.
    pub closed spec fn launch(self) -> LauncherModel {
        self.plan@
    }

    /// The bound deadline.
    pub closed spec fn bound(self) -> SupervisorDeadlineBinding {
        self.deadline
    }

    #[verifier::type_invariant]
    spec fn deadline_agrees(self) -> bool {
        self.plan.deadline == self.deadline.spec_wire()
    }

    /// Reads a frame under the deadline that its prefix has bound.
    pub fn decode_with_deadline(bytes: &[u8], deadline: SupervisorDeadlineBinding) -> (r: Result<
        ReceivedLauncherExecPlan,
        SupervisorWireError,
    >)
        ensures
            match (r, parsed_launch(bytes@)) {
                (Ok(received), Ok(launch)) => {
                    &&& launch.deadline == deadline.spec_wire()
                    &&& received.launch() == launch
                    &&& received.bound() == deadline
                },
                (Err(error), Ok(launch)) => {
                    &&& launch.deadline != deadline.spec_wire()
                    &&& error == SupervisorWireError::ReplayOrSubstitution
                },
                (Err(error), Err(expected)) => error == expected,
                _ => false,
            },
    {
        match LauncherExecPlan::decode_untrusted(bytes) {
            Err(error) => Err(error),
            Ok(plan) => {
                if plan.deadline.wire_value() != deadline.wire().wire_value() {
                    return Err(SupervisorWireError::ReplayOrSubstitution);
                }
                Ok(ReceivedLauncherExecPlan { plan, deadline })
            },
        }
    }

    /// Gives the parts away.
    pub fn into_parts(self) -> (r: LauncherExecParts)
        ensures
            r.launch() == self.launch(),
            r.deadline == self.bound(),
    {
        proof {
            use_type_invariant(&self);
        }
        LauncherExecParts {
            deadline: self.deadline,
            effective_uid: self.plan.effective_uid,
            effective_gid: self.plan.effective_gid,
            installed_executable: self.plan.installed_executable,
            arguments: self.plan.arguments,
            environment: self.plan.environment,
        }
    }
}

/// What a broker accepts, its launcher accepts: the launch of a checked plan is in order, and its
/// frame is shorter than the plan's.
pub proof fn law_plan_yields_a_launcher_frame(plan: PlanModel)
    requires
        checked_plan(plan) is Ok,
        plan.session.len() == 32,
        plan.audit_identity.len() == 32,
        plan.code_identity.len() == 32,
        plan.target_identity.len() == 32,
        plan.client_nonce.len() == 32,
        plan.service_nonce.len() == 32,
        plan_bytes(plan).len() <= MAX_BROKER_PLAN_BYTES,
    ensures
        checked_launch(plan.launch) is Ok,
        launch_bytes(plan.launch).len() < plan_bytes(plan).len(),
        parsed_launch(launch_bytes(plan.launch)) == Ok::<LauncherModel, SupervisorWireError>(
            plan.launch,
        ),
{
    lemma_plan_header(plan);
    lemma_launch_header(plan.launch);
    law_launch_round_trip(plan.launch);
}

/// What a trace report is bound to is all of its plan that the service can check, and the digest of
/// the plan's frame: two bindings of one plan and digest say the same.
pub proof fn law_report_binding_names_the_plan(
    binding: BrokerTraceReportBinding,
    plan: PlanModel,
    digest: Seq<u8>,
)
    ensures
        binding.binds(plan, digest) <==> {
            &&& binding.deadline == plan.launch.deadline
            &&& binding.connection_generation == plan.connection_generation
            &&& binding.sequence == plan.sequence
            &&& binding.effective_uid == plan.launch.effective_uid
            &&& binding.effective_gid == plan.launch.effective_gid
            &&& binding.session@ == plan.session
            &&& binding.client_nonce@ == plan.client_nonce
            &&& binding.service_nonce@ == plan.service_nonce
            &&& binding.target_identity@ == plan.target_identity
            &&& binding.plan_digest@ == digest
        },
{
}

/// A launch is in order exactly where it has a deadline, an ordinary user and group, 1 to 64
/// arguments and at most 64 variables, an executable's path, and valid arguments and variables,
/// each variable once.
pub proof fn law_launches_in_order(launch: LauncherModel)
    ensures
        checked_launch(launch) is Ok <==> {
            &&& launch.deadline.0 > 0
            &&& launch.effective_uid != 0 && launch.effective_uid != 0xffff_ffff
            &&& launch.effective_gid != 0 && launch.effective_gid != 0xffff_ffff
            &&& 1 <= launch.arguments.len() <= 64
            &&& launch.environment.len() <= 64
            &&& target::valid_executable(launch.executable)
            &&& forall|i: int|
                0 <= i < launch.arguments.len() ==> target::valid_component(
                    #[trigger] launch.arguments[i],
                )
            &&& forall|i: int|
                0 <= i < launch.environment.len() ==> target::valid_entry(
                    #[trigger] launch.environment[i],
                )
            &&& forall|i: int, j: int|
                0 <= i < launch.environment.len() && 0 <= j < launch.environment.len() && (
                #[trigger] launch.environment[i]).key == (#[trigger] launch.environment[j]).key
                    ==> i == j
        },
{
    if distinct_keys(launch.environment) {
        assert forall|i: int, j: int|
            0 <= i < launch.environment.len() && 0 <= j < launch.environment.len() && (
            #[trigger] launch.environment[i]).key == (
            #[trigger] launch.environment[j]).key implies i == j by {
            if i < j {
                assert(launch.environment[i].key != launch.environment[j].key);
            } else if j < i {
                assert(launch.environment[j].key != launch.environment[i].key);
            }
        }
    }
}

/// A plan is in order exactly where its launch is, it belongs to the one spawn of a connection, its
/// policy identifier is valid, none of its six identities and nonces is zero, and its two nonces
/// differ.
pub proof fn law_plans_in_order(plan: PlanModel)
    ensures
        checked_plan(plan) is Ok <==> {
            &&& checked_launch(plan.launch) is Ok
            &&& plan.connection_generation > 0
            &&& plan.sequence == 1
            &&& target::valid_policy_id(plan.policy_id)
            &&& exists|i: int| 0 <= i < plan.session.len() && plan.session[i] != 0
            &&& exists|i: int| 0 <= i < plan.audit_identity.len() && plan.audit_identity[i] != 0
            &&& exists|i: int| 0 <= i < plan.code_identity.len() && plan.code_identity[i] != 0
            &&& exists|i: int| 0 <= i < plan.target_identity.len() && plan.target_identity[i] != 0
            &&& exists|i: int| 0 <= i < plan.client_nonce.len() && plan.client_nonce[i] != 0
            &&& exists|i: int| 0 <= i < plan.service_nonce.len() && plan.service_nonce[i] != 0
            &&& plan.client_nonce != plan.service_nonce
        },
{
}

/// A received plan is the one in its frame, provided that the deadline is the bound one; its prefix
/// is accepted where it announces the frame and its window is open, and then gives that deadline.
pub proof fn law_received_plan_is_the_framed_one(
    plan: PlanModel,
    deadline: SupervisorDeadline,
    clock: ClockSample,
)
    requires
        checked_plan(plan) is Ok,
        plan.session.len() == 32,
        plan.audit_identity.len() == 32,
        plan.code_identity.len() == 32,
        plan.target_identity.len() == 32,
        plan.client_nonce.len() == 32,
        plan.service_nonce.len() == 32,
        plan_bytes(plan).len() <= MAX_BROKER_PLAN_BYTES,
    ensures
        received_plan(plan_bytes(plan), deadline) == (if plan.launch.deadline == deadline {
            Ok::<PlanModel, SupervisorWireError>(plan)
        } else {
            Err(SupervisorWireError::ReplayOrSubstitution)
        }),
        plan_bytes(plan).len() >= 256,
        parsed_prefix(
            plan_bytes(plan).subrange(0, 24),
            PLAN_MAGIC@,
            256,
            plan_bytes(plan).len() as int,
            clock,
        ) == (match plan.launch.deadline.local_instant(clock) {
            Ok(local) => Ok::<_, SupervisorWireError>((plan.launch.deadline, local)),
            Err(error) => Err(error),
        }),
{
    let bytes = plan_bytes(plan);
    let prefix = bytes.subrange(0, 24);
    law_plan_round_trip(plan);
    lemma_plan_header(plan);
    let rest = plan_numbers(plan) + plan_secrets(plan) + plan_counts(plan) + (plan.policy_id
        + launch_body(plan.launch));
    assert(bytes =~= frame_prefix(PLAN_MAGIC@, bytes.len() as int, plan.launch.deadline) + rest);
    lemma_prefix(bytes, PLAN_MAGIC@, plan.launch.deadline, rest);
    assert(prefix.subrange(0, 8) =~= bytes.subrange(0, 8));
    bytes::lemma_le_at_subrange(bytes, 0, 24, 8);
    bytes::lemma_le_at_subrange(bytes, 0, 24, 10);
    bytes::lemma_le_at_subrange(bytes, 0, 24, 12);
    bytes::lemma_le_at_subrange(bytes, 0, 24, 16);
}

/// A plan or launch is refused for what is wrong with it: an executable or policy that cannot be
/// one as a bad policy, and what the target cannot be given as a bad input.
pub proof fn law_refused_plans(plan: PlanModel, launch: LauncherModel)
    ensures
        ({
            let checked = checked_launch(launch);
            let framed = launch.deadline.0 > 0 && 0 < launch.effective_uid < 0xffff_ffff && 0
                < launch.effective_gid < 0xffff_ffff && 1 <= launch.arguments.len() <= 64
                && launch.environment.len() <= 64;
            let installed = target::valid_executable(launch.executable);
            &&& !framed ==> checked == Err::<(), _>(SupervisorWireError::Malformed)
            &&& framed && !installed ==> checked == Err::<(), _>(SupervisorWireError::InvalidPolicy)
            &&& framed && installed && checked is Err ==> checked == Err::<(), _>(
                SupervisorWireError::InvalidTargetInput,
            )
        }),
        ({
            let checked = checked_plan(plan);
            let installed = target::valid_policy_id(plan.policy_id) && target::valid_executable(
                plan.launch.executable,
            );
            &&& plan_in_order(plan) && !installed ==> checked == Err::<(), _>(
                SupervisorWireError::InvalidPolicy,
            )
            &&& plan_in_order(plan) && installed && checked is Err ==> checked == Err::<(), _>(
                SupervisorWireError::InvalidTargetInput,
            )
            &&& !plan_in_order(plan) ==> checked == Err::<(), _>(SupervisorWireError::Malformed)
        }),
{
}

/// A frame is refused before its body is looked at where its prefix is not that of such a frame, or
/// it counts more than a frame may hold: a path of more than 4096 bytes, no argument or more than
/// sixty-four, or more than sixty-four variables.
pub proof fn law_bad_frames_are_refused(
    bytes: Seq<u8>,
    magic: Seq<u8>,
    minimum: int,
    outer_len: int,
    clock: ClockSample,
)
    ensures
        ({
            let begun = minimum <= outer_len <= MAX_BROKER_PLAN_BYTES && bytes.subrange(0, 8)
                == magic && bytes::le16_at(bytes, 8) == PLAN_VERSION && bytes::le16_at(bytes, 10)
                == 0 && bytes::le32_at(bytes, 12) == outer_len;
            let prefix = parsed_prefix(bytes, magic, minimum, outer_len, clock);
            let wire = SupervisorDeadline(bytes::le64_at(bytes, 16));
            &&& !begun ==> prefix == Err::<(SupervisorDeadline, u64), _>(
                SupervisorWireError::Malformed,
            )
            &&& begun ==> (prefix is Ok <==> wire.local_instant(clock) is Ok)
            &&& prefix matches Ok(bound) ==> bound.0 == wire && wire.local_instant(clock) == Ok::<
                u64,
                SupervisorWireError,
            >(bound.1)
        }),
        ({
            let begun = 40 <= bytes.len() <= MAX_BROKER_PLAN_BYTES && bytes.subrange(0, 8)
                == LAUNCHER_MAGIC@ && bytes::le16_at(bytes, 8) == PLAN_VERSION && bytes::le16_at(
                bytes,
                10,
            ) == 0 && bytes::le32_at(bytes, 12) == bytes.len();
            let counted = bytes::le32_at(bytes, 32) <= 4096 && 1 <= bytes::le16_at(bytes, 36) <= 64
                && bytes::le16_at(bytes, 38) <= 64;
            &&& !begun ==> parsed_launch(bytes) == Err::<LauncherModel, _>(
                SupervisorWireError::Malformed,
            )
            &&& begun && !counted ==> parsed_launch(bytes) == Err::<LauncherModel, _>(
                SupervisorWireError::LimitExceeded,
            )
        }),
        ({
            let begun = 256 <= bytes.len() <= MAX_BROKER_PLAN_BYTES && bytes.subrange(0, 8)
                == PLAN_MAGIC@ && bytes::le16_at(bytes, 8) == PLAN_VERSION && bytes::le16_at(
                bytes,
                10,
            ) == 0 && bytes::le32_at(bytes, 12) == bytes.len() && bytes::le32_at(bytes, 252) == 0;
            let counted = bytes::le32_at(bytes, 244) <= 4096 && 1 <= bytes::le16_at(bytes, 248)
                <= 64 && bytes::le16_at(bytes, 250) <= 64 && bytes::le32_at(bytes, 240)
                <= MAX_POLICY_ID_BYTES;
            &&& !begun ==> parsed_plan(bytes) == Err::<PlanModel, _>(
                SupervisorWireError::Malformed,
            )
            &&& begun && !counted ==> parsed_plan(bytes) == Err::<PlanModel, _>(
                SupervisorWireError::LimitExceeded,
            )
        }),
{
}

} // verus!
