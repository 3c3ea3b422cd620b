use vstd::prelude::*;

verus! {

/// Whether the remote channel checks the controller's host key.
/// Skipping the check trades safety for working out of the box with a
/// freshly imaged controller; the operator makes that choice.
#[derive(Clone, Copy, Debug, PartialEq, Eq, Structural)]
pub enum HostKeyPolicy {
    Verify,
    TrustAny,
}

/// Whether the artifact is built with optimisations.
#[derive(Clone, Copy, Debug, PartialEq, Eq, Structural)]
pub enum BuildMode {
    Debug,
    Release,
}

/// The target triple of the controller.
pub const TARGET_TRIPLE_ARG: &'static str = "--target=arm-unknown-linux-gnueabi";

pub open spec fn batch_options(policy: HostKeyPolicy) -> Seq<Seq<char>> {
    match policy {
        HostKeyPolicy::Verify => seq!["-oBatchMode=yes"@],
        HostKeyPolicy::TrustAny => seq!["-oBatchMode=yes"@, "-oStrictHostKeyChecking=no"@],
    }
}

pub open spec fn login_spec(addr: Seq<char>) -> Seq<char> {
    "admin@"@ + addr
}

pub open spec fn build_args_spec(mode: BuildMode) -> Seq<Seq<char>> {
    match mode {
        BuildMode::Debug => seq!["build"@, TARGET_TRIPLE_ARG@],
        BuildMode::Release => seq!["build"@, TARGET_TRIPLE_ARG@, "--release"@],
    }
}

pub open spec fn mode_dir_spec(mode: BuildMode) -> Seq<char> {
    match mode {
        BuildMode::Debug => "debug"@,
        BuildMode::Release => "release"@,
    }
}

/// The arguments of a copy of `paths` to `remote_path` on `login`.
pub open spec fn scp_args_spec(
    policy: HostKeyPolicy,
    paths: Seq<Seq<char>>,
    login: Seq<char>,
    remote_path: Seq<char>,
) -> Seq<Seq<char>> {
    batch_options(policy) + paths + seq![login + ":"@ + remote_path]
}

/// The arguments of a remote run of `command` on `login`.
pub open spec fn ssh_args_spec(policy: HostKeyPolicy, login: Seq<char>, command: Seq<char>) -> Seq<
    Seq<char>,
> {
    batch_options(policy) + seq![login, command]
}

/// The command that a probe runs on a candidate: it only exits.
pub open spec fn probe_command() -> Seq<char> {
    "\"exit\""@
}

/// The options that keep the remote channel from ever prompting.
pub fn batch_options_vec(policy: HostKeyPolicy) -> (r: Vec<String>)
    ensures
        r.deep_view() == batch_options(policy),
{
    let mut r: Vec<String> = Vec::new();
    r.push(String::from_str("-oBatchMode=yes"));
    match policy {
        HostKeyPolicy::Verify => {},
        HostKeyPolicy::TrustAny => {
            r.push(String::from_str("-oStrictHostKeyChecking=no"));
        },
    }
    assert(r.deep_view() =~= batch_options(policy));
    r
}

/// The login under which the controller at `addr` is reached.
pub fn login_of(addr: &str) -> (r: String)
    ensures
        r@ == login_spec(addr@),
{
    let mut s = String::from_str("admin@");
    s.append(addr);
    s
}

/// The arguments of the cross-compiling build.
pub fn build_args(mode: BuildMode) -> (r: Vec<String>)
    ensures
        r.deep_view() == build_args_spec(mode),
{
    let mut r: Vec<String> = Vec::new();
    r.push(String::from_str("build"));
    r.push(String::from_str(TARGET_TRIPLE_ARG));
    match mode {
        BuildMode::Debug => {},
        BuildMode::Release => {
            r.push(String::from_str("--release"));
        },
    }
    assert(r.deep_view() =~= build_args_spec(mode));
    r
}

/// The directory under `target` in which the build leaves the artifact.
pub fn mode_dir(mode: BuildMode) -> (r: &'static str)
    ensures
        r@ == mode_dir_spec(mode),
{
    match mode {
        BuildMode::Debug => "debug",
        BuildMode::Release => "release",
    }
}

/// The path of the artifact relative to the project root, one component each.
pub fn artifact_components(mode: BuildMode, name: &str) -> (r: Vec<String>)
    ensures
        r.deep_view() == seq!["target"@, mode_dir_spec(mode), name@],
{
    let r = vec![String::from_str("target"), String::from_str(mode_dir(mode)), name.to_owned()];
    assert(r.deep_view() =~= seq!["target"@, mode_dir_spec(mode), name@]);
    r
}

/// The arguments of a probe of `login`.
pub fn probe_args(policy: HostKeyPolicy, login: &str) -> (r: Vec<String>)
    ensures
        r.deep_view() == ssh_args_spec(policy, login@, probe_command()),
{
    ssh_args(policy, login, "\"exit\"")
}

/// The arguments of a remote run of `command` on `login`.
pub fn ssh_args(policy: HostKeyPolicy, login: &str, command: &str) -> (r: Vec<String>)
    ensures
        r.deep_view() == ssh_args_spec(policy, login@, command@),
{
    let mut r = batch_options_vec(policy);
    r.push(login.to_owned());
    r.push(command.to_owned());
    assert(r.deep_view() =~= ssh_args_spec(policy, login@, command@));
    r
}

/// The arguments of a copy of `local_paths` to `remote_path` on `login`.
pub fn scp_args(policy: HostKeyPolicy, local_paths: &Vec<String>, login: &str, remote_path: &str) -> (r:
    Vec<String>)
    ensures
        r.deep_view() == scp_args_spec(policy, local_paths.deep_view(), login@, remote_path@),
{
    let mut r = batch_options_vec(policy);
    let ghost start = r.deep_view();
    let mut i: usize = 0;
    while i < local_paths.len()
        invariant
            i <= local_paths.len(),
            start == batch_options(policy),
            r.deep_view() == start + local_paths.deep_view().take(i as int),
        decreases local_paths.len() - i,
    {
        let ghost before = r.deep_view();
        let p = local_paths[i].clone();
        r.push(p);
        assert(r.deep_view() =~= before.push(local_paths[i as int]@));
        assert(local_paths.deep_view().take(i as int + 1) =~= local_paths.deep_view().take(
            i as int,
        ).push(local_paths[i as int]@));
        assert(r.deep_view() =~= start + local_paths.deep_view().take(i as int + 1));
        i = i + 1;
    }
    let mut dest = String::from_str(login);
    dest.append(":");
    dest.append(remote_path);
    r.push(dest);
    assert(local_paths.deep_view().take(i as int) =~= local_paths.deep_view());
    assert(r.deep_view() =~= scp_args_spec(policy, local_paths.deep_view(), login@, remote_path@));
    r
}

} // verus!
