//! The fixed image of the launcher, and what has to hold before it is spawned.

use vstd::prelude::*;
use crate::auth::worker_spawn::{CANONICAL_LANG, CANONICAL_LOCALE, CANONICAL_PATH};
use crate::bootstrap::identity;
use crate::bootstrap::identity::{IdentityModel, TaskAuditIdentity};
use crate::broker::gate::GateRead;
use crate::bytes;
use crate::bytes::copy_bytes;
use crate::supervisor::target;
use crate::supervisor::target::deployer_helper_path;
use crate::wait_status::{EAGAIN, EINTR};

verus! {

/// `--supervisor-launcher`
pub const INSTALLED_LAUNCHER_MODE: [u8; 21] = [
    0x2d, 0x2d, 0x73, 0x75, 0x70, 0x65, 0x72, 0x76, 0x69, 0x73, 0x6f, 0x72, 0x2d, 0x6c, 0x61,
    0x75, 0x6e, 0x63, 0x68, 0x65, 0x72,
];

/// `--death-fd=3`
pub const INSTALLED_LAUNCHER_DEATH_ARGUMENT: [u8; 12] = [
    0x2d, 0x2d, 0x64, 0x65, 0x61, 0x74, 0x68, 0x2d, 0x66, 0x64, 0x3d, 0x33,
];

/// `--plan-fd=4`
pub const INSTALLED_LAUNCHER_PLAN_ARGUMENT: [u8; 11] = [
    0x2d, 0x2d, 0x70, 0x6c, 0x61, 0x6e, 0x2d, 0x66, 0x64, 0x3d, 0x34,
];

/// Where a launcher finds the pipe that ends with its broker.
pub const LAUNCHER_DEATH_FD: i32 = 3;

/// Where a launcher finds the pipe with its plan.
pub const LAUNCHER_PLAN_FD: i32 = 4;

/// Failure before a launcher is there.
#[derive(Clone, Copy, Debug, PartialEq, Eq, Structural)]
pub enum LauncherSpawnFailure {
    /// The verified installation cannot be represented exactly.
    InvalidFixedImage,
    /// The service is gone.
    ServiceGone,
    /// The start pipe carried a byte.
    InvalidGate,
    /// The deadline has come.
    DeadlineExpired,
    /// A native call failed.
    Native(i32),
    /// The spawn failed.
    Spawn(i32),
}

/// The credentials and the image that a launcher has to have.
pub struct FixedLauncherIdentity {
    pub real_uid: u32,
    pub effective_uid: u32,
    pub real_gid: u32,
    pub effective_gid: u32,
    pub executable: Vec<u8>,
}

/// The credentials and the image that a launcher has to have.
#[verifier::ext_equal]
pub struct LauncherIdentityModel {
    pub real_uid: u32,
    pub effective_uid: u32,
    pub real_gid: u32,
    pub effective_gid: u32,
    pub executable: Seq<u8>,
}

impl LauncherIdentityModel {
    /// Whether an identity is that of a process with this number, these credentials and this
    /// image.
    pub open spec fn describes(self, found: IdentityModel, pid: int) -> bool {
        identity::is_process(
            found,
            pid,
            self.real_uid,
            self.effective_uid,
            self.real_gid,
            self.effective_gid,
            self.executable,
        )
    }
}

impl View for FixedLauncherIdentity {
    type V = LauncherIdentityModel;

    open spec fn view(&self) -> LauncherIdentityModel {
        LauncherIdentityModel {
            real_uid: self.real_uid,
            effective_uid: self.effective_uid,
            real_gid: self.real_gid,
            effective_gid: self.effective_gid,
            executable: self.executable@,
        }
    }
}

impl FixedLauncherIdentity {
    /// Whether an identity is that of this launcher as process `pid`.
    pub fn is_identity_of(&self, found: &TaskAuditIdentity, pid: i32) -> (r: bool)
        ensures
            r == self@.describes(found@, pid as int),
    {
        found.proves_exact_process_image(
            pid,
            self.real_uid,
            self.effective_uid,
            self.real_gid,
            self.effective_gid,
            &self.executable,
        )
    }
}

/// The credentials of a process.
#[derive(Clone, Copy, Debug, PartialEq, Eq, Structural)]
pub struct ProcessCredentials {
    pub real_uid: u32,
    pub effective_uid: u32,
    pub real_gid: u32,
    pub effective_gid: u32,
}

/// Installed image and process vectors of the launcher; no request selects any of them. The
/// launcher runs with the credentials of its own supervisor.
pub struct InstalledLauncherImage {
    path: Vec<u8>,
    credentials: ProcessCredentials,
}

/// The arguments of a launcher.
pub open spec fn launcher_argv(path: Seq<u8>) -> Seq<Seq<u8>> {
    seq![
        path,
        INSTALLED_LAUNCHER_MODE@,
        INSTALLED_LAUNCHER_DEATH_ARGUMENT@,
        INSTALLED_LAUNCHER_PLAN_ARGUMENT@,
    ]
}

/// The environment of a launcher.
pub open spec fn launcher_environment() -> Seq<Seq<u8>> {
    seq![CANONICAL_PATH@, CANONICAL_LANG@, CANONICAL_LOCALE@]
}

impl View for InstalledLauncherImage {
    type V = Seq<u8>;

    closed spec fn view(&self) -> Seq<u8> {
        self.path@
    }
}

impl InstalledLauncherImage {
    /// The credentials that the launcher has to have.
    pub closed spec fn spec_credentials(self) -> ProcessCredentials {
        self.credentials
    }

    /// Takes the path of a verified installation, which has to be absolute, and the credentials of
    /// this process.
    pub fn from_verified_installation(path: &[u8], credentials: ProcessCredentials) -> (r: Result<
        InstalledLauncherImage,
        LauncherSpawnFailure,
    >)
        ensures
            match r {
                Ok(image) => target::helper_path(path@) && image@ == path@
                    && image.spec_credentials()
                    == credentials,
                Err(error) => !target::helper_path(path@) && error
                    == LauncherSpawnFailure::InvalidFixedImage,
            },
    {
        match deployer_helper_path(path) {
            None => Err(LauncherSpawnFailure::InvalidFixedImage),
            Some(path) => Ok(InstalledLauncherImage { path, credentials }),
        }
    }

    /// The arguments of the launcher.
    pub fn argv(&self) -> (r: Vec<Vec<u8>>)
        ensures
            bytes::strings(r@) == launcher_argv(self@),
    {
        let mut out: Vec<Vec<u8>> = Vec::new();
        out.push(copy_bytes(&self.path));
        out.push(copy_bytes(&INSTALLED_LAUNCHER_MODE));
        out.push(copy_bytes(&INSTALLED_LAUNCHER_DEATH_ARGUMENT));
        out.push(copy_bytes(&INSTALLED_LAUNCHER_PLAN_ARGUMENT));
        assert(bytes::strings(out@) =~= launcher_argv(self@));
        out
    }

    /// The environment of the launcher.
    pub fn environment(&self) -> (r: Vec<Vec<u8>>)
        ensures
            bytes::strings(r@) == launcher_environment(),
    {
        let mut out: Vec<Vec<u8>> = Vec::new();
        out.push(copy_bytes(&CANONICAL_PATH));
        out.push(copy_bytes(&CANONICAL_LANG));
        out.push(copy_bytes(&CANONICAL_LOCALE));
        assert(bytes::strings(out@) =~= launcher_environment());
        out
    }

    /// What the launcher has to be.
    pub fn fixed_identity(&self) -> (r: FixedLauncherIdentity)
        ensures
            r@ == (LauncherIdentityModel {
                real_uid: self.spec_credentials().real_uid,
                effective_uid: self.spec_credentials().effective_uid,
                real_gid: self.spec_credentials().real_gid,
                effective_gid: self.spec_credentials().effective_gid,
                executable: self@,
            }),
    {
        FixedLauncherIdentity {
            real_uid: self.credentials.real_uid,
            effective_uid: self.credentials.effective_uid,
            real_gid: self.credentials.real_gid,
            effective_gid: self.credentials.effective_gid,
            executable: copy_bytes(&self.path),
        }
    }
}

/// Whether a launcher may be spawned; `None` is to look again.
pub open spec fn spawn_judged(
    read: GateRead,
    deadline: u64,
    now: u64,
) -> Option<Result<(), LauncherSpawnFailure>> {
    match read {
        GateRead::End => Some(Err(LauncherSpawnFailure::ServiceGone)),
        GateRead::Byte(_) => Some(Err(LauncherSpawnFailure::InvalidGate)),
        GateRead::Failed(error) => if error == EINTR {
            None
        } else if error != EAGAIN {
            Some(Err(LauncherSpawnFailure::Native(error)))
        } else if now >= deadline {
            Some(Err(LauncherSpawnFailure::DeadlineExpired))
        } else {
            Some(Ok(()))
        },
    }
}

/// What has to hold before a launcher is spawned: the service is there and silent, and the deadline
/// has not come. `None` is to look again.
pub fn may_spawn_launcher(read: GateRead, deadline: u64, now: u64) -> (r: Option<
    Result<(), LauncherSpawnFailure>,
>)
    ensures
        r == spawn_judged(read, deadline, now),
{
    match read {
        GateRead::End => Some(Err(LauncherSpawnFailure::ServiceGone)),
        GateRead::Byte(_) => Some(Err(LauncherSpawnFailure::InvalidGate)),
        GateRead::Failed(error) => {
            if error == EINTR {
                None
            } else if error != EAGAIN {
                Some(Err(LauncherSpawnFailure::Native(error)))
            } else if now >= deadline {
                Some(Err(LauncherSpawnFailure::DeadlineExpired))
            } else {
                Some(Ok(()))
            }
        },
    }
}

/// A launcher is recognised by exactly its own credentials and image, as the process that it is.
pub proof fn law_launcher_is_recognised(
    expected: LauncherIdentityModel,
    found: IdentityModel,
    pid: int,
)
    ensures
        expected.describes(found, pid) <==> {
            &&& found.words[5] == pid
            &&& found.words[1] == expected.effective_uid
            &&& found.words[2] == expected.effective_gid
            &&& found.words[3] == expected.real_uid
            &&& found.words[4] == expected.real_gid
            &&& found.executable == expected.executable
        },
{
}

/// A launcher is started by its own path, with one mode and two descriptors, and with an
/// environment that nothing else adds to.
pub proof fn law_launcher_vectors_are_fixed(path: Seq<u8>, other: Seq<u8>)
    ensures
        launcher_argv(path).len() == 4,
        launcher_argv(path)[0] == path,
        forall|i: int|
            1 <= i < 4 ==> #[trigger] launcher_argv(path)[i] == launcher_argv(other)[i],
        launcher_argv(path)[2].last() == 0x30 + LAUNCHER_DEATH_FD,
        launcher_argv(path)[3].last() == 0x30 + LAUNCHER_PLAN_FD,
        launcher_environment().len() == 3,
        launcher_environment() == crate::auth::worker_spawn::worker_environment(),
{
}

/// A launcher is spawned exactly where the start pipe is silent and the deadline is ahead; an
/// interrupted look is repeated, and anything else is told.
pub proof fn law_spawns_wait_for_silence(error: i32, byte: u8, deadline: u64, now: u64)
    ensures
        ({
            let silent = spawn_judged(GateRead::Failed(error), deadline, now);
            &&& silent == Some(Ok::<(), LauncherSpawnFailure>(())) <==> error == 35 && now
                < deadline
            &&& silent is None <==> error == 4
            &&& error == 35 && now >= deadline ==> silent == Some(
                Err::<(), _>(LauncherSpawnFailure::DeadlineExpired),
            )
            &&& error != 4 && error != 35 ==> silent == Some(
                Err::<(), _>(LauncherSpawnFailure::Native(error)),
            )
            &&& spawn_judged(GateRead::End, deadline, now) == Some(
                Err::<(), _>(LauncherSpawnFailure::ServiceGone),
            )
            &&& spawn_judged(GateRead::Byte(byte), deadline, now) == Some(
                Err::<(), _>(LauncherSpawnFailure::InvalidGate),
            )
        }),
{
}

} // verus!
