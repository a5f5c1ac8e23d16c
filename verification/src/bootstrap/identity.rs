//! Kernel identities of exact processes, and what they prove of an exec.

use vstd::prelude::*;
use crate::bytes::{copy_bytes, same_bytes};
use crate::mach::{AuditToken, MACH_PORT_NULL};
use crate::bootstrap::error::{mach, BootstrapError};

verus! {

/// Words of an audit token.
pub const TASK_AUDIT_TOKEN_COUNT: u32 = 8;

/// Kernel identity sampled while an exact direct child is stopped.
pub struct TaskAuditIdentity {
    pub audit: AuditToken,
    pub executable: Vec<u8>,
}

/// What an identity says: the words of the token and the path of the image.
#[verifier::ext_equal]
pub struct IdentityModel {
    pub words: Seq<u32>,
    pub executable: Seq<u8>,
}

impl View for TaskAuditIdentity {
    type V = IdentityModel;

    open spec fn view(&self) -> IdentityModel {
        IdentityModel { words: self.audit.values@, executable: self.executable@ }
    }
}

/// Whether an identity is that of a process with this number and these credentials, running this
/// image.
pub open spec fn is_process(
    identity: IdentityModel,
    pid: int,
    real_uid: u32,
    effective_uid: u32,
    real_gid: u32,
    effective_gid: u32,
    executable: Seq<u8>,
) -> bool {
    &&& identity.words[1] == effective_uid
    &&& identity.words[2] == effective_gid
    &&& identity.words[3] == real_uid
    &&& identity.words[4] == real_gid
    &&& identity.words[5] == pid
    &&& identity.executable == executable
}

/// Whether `after` is the same process as `before` after an exec, with the user and group both
/// real and effective. The kernel changes the process version on every exec.
pub open spec fn is_exec_of(
    before: IdentityModel,
    after: IdentityModel,
    pid: int,
    uid: u32,
    gid: u32,
    executable: Seq<u8>,
) -> bool {
    &&& before.words[5] == pid
    &&& before.words[7] != after.words[7]
    &&& is_process(after, pid, uid, uid, gid, gid, executable)
}

impl TaskAuditIdentity {
    /// Whether this is exactly the expected process and image.
    pub fn proves_exact_process_image(
        &self,
        pid: i32,
        real_uid: u32,
        effective_uid: u32,
        real_gid: u32,
        effective_gid: u32,
        executable: &[u8],
    ) -> (r: bool)
        ensures
            r == is_process(
                self@,
                pid as int,
                real_uid,
                effective_uid,
                real_gid,
                effective_gid,
                executable@,
            ),
    {
        if pid < 0 {
            return false;
        }
        self.audit.values[5] == pid as u32 && self.audit.values[1] == effective_uid
            && self.audit.values[2] == effective_gid && self.audit.values[3] == real_uid
            && self.audit.values[4] == real_gid && same_bytes(&self.executable, executable)
    }

    /// Whether this is the process `before` after an exec of the expected image, with the expected
    /// user and group.
    pub fn proves_exec_transition_from(
        &self,
        before: &TaskAuditIdentity,
        pid: i32,
        expected_euid: u32,
        expected_egid: u32,
        expected_executable: &[u8],
    ) -> (r: bool)
        ensures
            r == is_exec_of(
                before@,
                self@,
                pid as int,
                expected_euid,
                expected_egid,
                expected_executable@,
            ),
    {
        if pid < 0 {
            return false;
        }
        before.audit.values[5] == pid as u32 && before.audit.values[7] != self.audit.values[7]
            && self.proves_exact_process_image(
            pid,
            expected_euid,
            expected_euid,
            expected_egid,
            expected_egid,
            expected_executable,
        )
    }
}

/// A process is no exec of itself.
pub proof fn law_exec_changes_the_version(
    identity: IdentityModel,
    pid: int,
    uid: u32,
    gid: u32,
    executable: Seq<u8>,
)
    ensures
        !is_exec_of(identity, identity, pid, uid, gid, executable),
{
}

/// What the lookup of a task answered.
pub struct TaskLookup {
    pub lookup_status: i32,
    pub name: u32,
    pub info_status: i32,
    pub count: u32,
    pub audit: AuditToken,
}

/// What the lookup of the task of process `pid` gives.
pub open spec fn task_captured(pid: u32, found: TaskLookup) -> Result<AuditToken, BootstrapError> {
    if found.lookup_status != 0 {
        Err(BootstrapError::Mach { operation: "task_name_for_pid", code: found.lookup_status })
    } else if found.name == MACH_PORT_NULL {
        Err(BootstrapError::InvalidMessage)
    } else if found.info_status != 0 {
        Err(
            BootstrapError::Mach {
                operation: "task_info(TASK_AUDIT_TOKEN)",
                code: found.info_status,
            },
        )
    } else if found.count != TASK_AUDIT_TOKEN_COUNT {
        Err(BootstrapError::InvalidMessage)
    } else if found.audit.values@[5] != pid {
        Err(BootstrapError::WrongPeer { expected: pid, actual: found.audit.values@[5] })
    } else {
        Ok(found.audit)
    }
}

/// Judges the lookup of the task of process `pid`: both operations have to succeed, and the token
/// has to be complete and that of the process.
pub fn captured_task(pid: u32, found: TaskLookup) -> (r: Result<AuditToken, BootstrapError>)
    ensures
        r == task_captured(pid, found),
{
    match mach("task_name_for_pid", found.lookup_status) {
        Err(error) => {
            return Err(error);
        },
        Ok(()) => {},
    }
    if found.name == MACH_PORT_NULL {
        return Err(BootstrapError::InvalidMessage);
    }
    match mach("task_info(TASK_AUDIT_TOKEN)", found.info_status) {
        Err(error) => {
            return Err(error);
        },
        Ok(()) => {},
    }
    if found.count != TASK_AUDIT_TOKEN_COUNT {
        return Err(BootstrapError::InvalidMessage);
    }
    let actual: u32 = found.audit.values[5];
    if actual != pid {
        return Err(BootstrapError::WrongPeer { expected: pid, actual });
    }
    Ok(found.audit)
}

/// Whether the first `length` bytes of a buffer are the path in it: it ends at the first NUL.
pub open spec fn ends_at(buffer: Seq<u8>, length: int) -> bool {
    &&& 0 <= length < buffer.len()
    &&& buffer[length] == 0
    &&& forall|i: int| 0 <= i < length ==> buffer[i] != 0
}

/// Binds a token to the path of the image, as the path lookup gave it: a count and a buffer with a
/// NUL-terminated path, which may not be empty.
pub fn captured_identity(audit: AuditToken, count: i32, buffer: &[u8]) -> (r: Result<
    TaskAuditIdentity,
    BootstrapError,
>)
    ensures
        match r {
            Ok(identity) => {
                &&& count > 0
                &&& identity.audit == audit
                &&& identity.executable@.len() > 0
                &&& ends_at(buffer@, identity.executable@.len() as int)
                &&& identity.executable@ == buffer@.subrange(
                    0,
                    identity.executable@.len() as int,
                )
            },
            Err(error) => {
                &&& error == BootstrapError::InvalidMessage
                &&& count <= 0 || forall|length: int| length > 0 ==> !ends_at(buffer@, length)
            },
        },
{
    if count <= 0 {
        return Err(BootstrapError::InvalidMessage);
    }
    let mut length: usize = 0;
    while length < buffer.len() && buffer[length] != 0
        invariant
            length <= buffer@.len(),
            forall|i: int| 0 <= i < length ==> buffer@[i] != 0,
        decreases buffer@.len() - length,
    {
        length += 1;
    }
    if length == buffer.len() || length == 0 {
        return Err(BootstrapError::InvalidMessage);
    }
    Ok(
        TaskAuditIdentity {
            audit,
            executable: copy_bytes(vstd::slice::slice_subrange(buffer, 0, length)),
        },
    )
}

/// An identity proves a process exactly where all that the token and the path say is as expected,
/// and an exec exactly where the same process has another version and is as expected afterwards.
pub proof fn law_identities_prove_exactly(
    before: IdentityModel,
    after: IdentityModel,
    pid: int,
    real_uid: u32,
    effective_uid: u32,
    real_gid: u32,
    effective_gid: u32,
    executable: Seq<u8>,
)
    requires
        after.words.len() == 8,
    ensures
        is_process(
            after,
            pid,
            real_uid,
            effective_uid,
            real_gid,
            effective_gid,
            executable,
        ) <==> after.executable == executable && after.words == seq![
            after.words[0],
            effective_uid,
            effective_gid,
            real_uid,
            real_gid,
            after.words[5],
            after.words[6],
            after.words[7],
        ] && after.words[5] == pid,
        is_exec_of(before, after, pid, effective_uid, effective_gid, executable) <==> {
            &&& before.words[5] == pid && after.words[5] == pid
            &&& before.words[7] != after.words[7]
            &&& after.words[1] == effective_uid && after.words[3] == effective_uid
            &&& after.words[2] == effective_gid && after.words[4] == effective_gid
            &&& after.executable == executable
        },
{
    let rebuilt = seq![
        after.words[0],
        effective_uid,
        effective_gid,
        real_uid,
        real_gid,
        after.words[5],
        after.words[6],
        after.words[7],
    ];
    if is_process(after, pid, real_uid, effective_uid, real_gid, effective_gid, executable) {
        assert(after.words =~= rebuilt);
    }
    if after.words == rebuilt {
        assert(after.words[1] == rebuilt[1] && after.words[2] == rebuilt[2] && after.words[3]
            == rebuilt[3] && after.words[4] == rebuilt[4]);
    }
}

/// A task is captured exactly where both lookups succeed and give a name and a whole token of this
/// process, and then by that token; a token of another process is named, and a failed lookup told.
pub proof fn law_tasks_are_captured(pid: u32, found: TaskLookup)
    ensures
        ({
            let captured = task_captured(pid, found);
            let looked_up = found.lookup_status == 0 && found.name != 0;
            &&& captured is Ok <==> looked_up && found.info_status == 0 && found.count == 8
                && found.audit.values@[5] == pid
            &&& captured matches Ok(token) ==> token == found.audit
            &&& looked_up && found.info_status == 0 && found.count == 8
                && found.audit.values@[5] != pid ==> captured == Err::<AuditToken, _>(
                BootstrapError::WrongPeer { expected: pid, actual: found.audit.values@[5] },
            )
            &&& found.lookup_status != 0 ==> (captured matches Err(
                BootstrapError::Mach { code, .. },
            ) && code == found.lookup_status)
            &&& looked_up && found.info_status != 0 ==> (captured matches Err(
                BootstrapError::Mach { code, .. },
            ) && code == found.info_status)
        }),
{
}

/// A path ends where its first zero byte stands, and there alone: whatever stands behind it, a path
/// without zeros is found whole.
pub proof fn law_paths_end_at_their_first_zero(path: Seq<u8>, rest: Seq<u8>, length: int)
    requires
        !path.contains(0),
    ensures
        ends_at(path + seq![0u8] + rest, length) <==> length == path.len(),
        (path + seq![0u8] + rest).subrange(0, path.len() as int) == path,
        !ends_at(path, length),
{
    let buffer = path + seq![0u8] + rest;
    let n = path.len() as int;
    assert(buffer[n] == 0);
    assert forall|i: int| 0 <= i < n implies buffer[i] != 0 && path[i] != 0 by {
        assert(path.contains(path[i]));
        assert(buffer[i] == path[i]);
    }
    assert(buffer.subrange(0, n) =~= path);
}

} // verus!
