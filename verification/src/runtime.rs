//! How the isolation runtime is invoked on a workspace.
//!
//! The runtime is a container started by the `docker` program. The
//! workspace is bound to the container's `/sandbox` directory, which is also
//! its working directory, and the container runs the baseline image's entry
//! point there. The runner only builds the command line; it attaches no
//! meaning to the status with which the program exits.

use vstd::prelude::*;
use vstd::string::*;
use crate::workspace::Workspace;

verus! {

/// The program that starts the isolation runtime.
pub const PROGRAM: &'static str = "docker";

/// Where the workspace appears inside the container.
pub const MOUNT_POINT: &'static str = "/sandbox";

/// The entry point of the baseline image, relative to the mount point.
pub const ENTRY_POINT: &'static str = "./sandbox";

/// The volume binding of a workspace: its directory, relative to the
/// working directory, against the mount point.
pub open spec fn binding_of(id: Seq<char>) -> Seq<char> {
    "./"@ + id + ":"@ + "/sandbox"@
}

/// The arguments with which the runtime is started on workspace `id` with
/// the image `image`.
pub open spec fn launch_args(id: Seq<char>, image: Seq<char>) -> Seq<Seq<char>> {
    seq!["run"@, "--rm"@, "-v"@, binding_of(id), "-w"@, "/sandbox"@, image, "./sandbox"@]
}

/// Builds the volume binding of a workspace.
pub fn binding(workspace: &Workspace) -> (r: String)
    ensures
        r@ == binding_of(workspace@),
{
    let mut out: String = "./".to_owned();
    out.append(workspace.id());
    out.append(":");
    out.append(MOUNT_POINT);
    out
}

/// Builds the argument list that starts the runtime on a workspace: remove
/// the container afterwards, bind the workspace, work in the mount point,
/// use the given image, run the entry point.
pub fn arguments(workspace: &Workspace, image: &str) -> (r: Vec<String>)
    ensures
        r.deep_view() == launch_args(workspace@, image@),
{
    let mut out: Vec<String> = Vec::new();
    out.push("run".to_owned());
    out.push("--rm".to_owned());
    out.push("-v".to_owned());
    out.push(binding(workspace));
    out.push("-w".to_owned());
    out.push(MOUNT_POINT.to_owned());
    out.push(image.to_owned());
    out.push(ENTRY_POINT.to_owned());
    assert(out.deep_view() =~= launch_args(workspace@, image@));
    out
}

} // verus!
