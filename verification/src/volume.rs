//! Names of the storage volumes that back workspaces.

use vstd::prelude::*;
use vstd::string::StringExecFns;

verus! {

/// The volume name of a workspace: the filesystem root, the owner and the
/// workspace name, joined by slashes.
pub open spec fn volume_string(root: Seq<char>, user: Seq<char>, name: Seq<char>) -> Seq<char> {
    root + seq!['/'] + user + seq!['/'] + name
}

/// Builds the name of the volume that backs the workspace `name` of `user`
/// below the filesystem root `root`.
pub fn to_volume_string(root: &str, user: &str, name: &str) -> (volume: String)
    ensures
        volume@ == volume_string(root@, user@, name@),
{
    proof {
        reveal_strlit("/");
    }
    let mut volume = String::from_str(root);
    volume.append("/");
    volume.append(user);
    volume.append("/");
    volume.append(name);
    assert("/"@ =~= seq!['/']);
    volume
}

} // verus!
