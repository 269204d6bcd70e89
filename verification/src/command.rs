//! The external commands the tool runs, each through `sudo`.

use vstd::prelude::*;
use crate::step::{CommandView, ExternalCommand};
use crate::text::texts_of;

verus! {

/// `sudo useradd -r -s /usr/sbin/nologin <name>`: a system account without
/// a login shell.
pub open spec fn useradd_command_spec(name: Seq<char>) -> CommandView {
    CommandView {
        program: "sudo"@,
        args: seq!["useradd"@, "-r"@, "-s"@, "/usr/sbin/nologin"@, name],
    }
}

/// `sudo loginctl enable-linger <name>`.
pub open spec fn enable_linger_command_spec(name: Seq<char>) -> CommandView {
    CommandView { program: "sudo"@, args: seq!["loginctl"@, "enable-linger"@, name] }
}

/// `sudo -u <name> podman ps`: the running containers of `name`, listed
/// under that user's identity.
pub open spec fn podman_ps_command_spec(name: Seq<char>) -> CommandView {
    CommandView { program: "sudo"@, args: seq!["-u"@, name, "podman"@, "ps"@] }
}

/// The command that creates the account `name`.
pub fn useradd_command(name: &String) -> (command: ExternalCommand)
    ensures
        command@ == useradd_command_spec(name@),
{
    let mut args: Vec<String> = Vec::new();
    args.push(String::from_str("useradd"));
    args.push(String::from_str("-r"));
    args.push(String::from_str("-s"));
    args.push(String::from_str("/usr/sbin/nologin"));
    args.push(name.clone());
    assert(texts_of(args@) =~= useradd_command_spec(name@).args);
    ExternalCommand { program: String::from_str("sudo"), args }
}

/// The command that enables linger for `name`.
pub fn enable_linger_command(name: &String) -> (command: ExternalCommand)
    ensures
        command@ == enable_linger_command_spec(name@),
{
    let mut args: Vec<String> = Vec::new();
    args.push(String::from_str("loginctl"));
    args.push(String::from_str("enable-linger"));
    args.push(name.clone());
    assert(texts_of(args@) =~= enable_linger_command_spec(name@).args);
    ExternalCommand { program: String::from_str("sudo"), args }
}

/// The command that lists the running containers of `name`.
pub fn podman_ps_command(name: &String) -> (command: ExternalCommand)
    ensures
        command@ == podman_ps_command_spec(name@),
{
    let mut args: Vec<String> = Vec::new();
    args.push(String::from_str("-u"));
    args.push(name.clone());
    args.push(String::from_str("podman"));
    args.push(String::from_str("ps"));
    assert(texts_of(args@) =~= podman_ps_command_spec(name@).args);
    ExternalCommand { program: String::from_str("sudo"), args }
}

} // verus!
