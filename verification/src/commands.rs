//! Building the concrete command lines the planner hands to the executor:
//! the transport invocation for the remote shell, and the `cd`-prefixed
//! remote command string.

use vstd::prelude::*;
use vstd::string::*;
use crate::model::{opt_str_view, SshConfig};
use crate::quote::{shell_escape_posix_single, shell_escape_spec};
use crate::text::{dec_spec, is_blank, trim_str, u64_to_string};

verus! {

/// One command for the executor to run: program, arguments, optional
/// working directory.
pub struct CmdSpec {
    pub exe: String,
    pub args: Vec<String>,
    pub cwd: Option<String>,
}

/// Mathematical image of a `CmdSpec`.
#[verifier::ext_equal]
pub ghost struct CmdView {
    pub exe: Seq<char>,
    pub args: Seq<Seq<char>>,
    pub cwd: Option<Seq<char>>,
}

impl View for CmdSpec {
    type V = CmdView;

    open spec fn view(&self) -> CmdView {
        CmdView {
            exe: self.exe@,
            args: self.args.deep_view(),
            cwd: opt_str_view(self.cwd),
        }
    }
}

/// The argument list of one remote-shell invocation: explicit port, batch
/// (non-interactive) authentication, a short connection timeout, a single
/// connection attempt, the identity file when one is configured, then the
/// target, a separator, and the remote command.
pub open spec fn ssh_args_spec(
    host: Seq<char>,
    user: Seq<char>,
    port: u16,
    key: Option<Seq<char>>,
    remote_cmd: Seq<char>,
) -> Seq<Seq<char>> {
    let base = seq![
        "-p"@,
        dec_spec(port as nat),
        "-o"@,
        "BatchMode=yes"@,
        "-o"@,
        "ConnectTimeout=5"@,
        "-o"@,
        "ConnectionAttempts=1"@,
    ];
    let with_key = match key {
        Some(k) => if !is_blank(k) {
            base + seq!["-i"@, k]
        } else {
            base
        },
        None => base,
    };
    with_key + seq![user + "@"@ + host, "--"@, remote_cmd]
}

/// The port a configuration uses: the configured one, or 22.
pub open spec fn port_spec(port: Option<u16>) -> u16 {
    match port {
        Some(p) => p,
        None => 22,
    }
}

/// Build the remote-shell argument list for one remote command.
pub fn build_ssh_args(
    host: &str,
    user: &str,
    port: u16,
    key: &Option<String>,
    remote_cmd: String,
) -> (r: Vec<String>)
    ensures
        r.deep_view() == ssh_args_spec(host@, user@, port, opt_str_view(*key), remote_cmd@),
{
    let mut args: Vec<String> = Vec::new();
    args.push(String::from_str("-p"));
    args.push(u64_to_string(port as u64));
    args.push(String::from_str("-o"));
    args.push(String::from_str("BatchMode=yes"));
    args.push(String::from_str("-o"));
    args.push(String::from_str("ConnectTimeout=5"));
    args.push(String::from_str("-o"));
    args.push(String::from_str("ConnectionAttempts=1"));
    match key {
        Some(k) => {
            let kt = trim_str(k.as_str());
            if kt.as_str().unicode_len() != 0 {
                args.push(String::from_str("-i"));
                args.push(k.clone());
            }
        },
        None => {},
    }
    let mut target = user.to_owned();
    target.append("@");
    target.append(host);
    args.push(target);
    args.push(String::from_str("--"));
    args.push(remote_cmd);
    proof {
        assert(args.deep_view() =~= ssh_args_spec(
            host@,
            user@,
            port,
            opt_str_view(*key),
            args.deep_view()[args.deep_view().len() - 1],
        ));
    }
    args
}

/// The remote command that runs `rest` inside the working tree: a quoted
/// `cd` prefix, because the transport has no working-directory concept of
/// its own.
pub open spec fn remote_cd_spec(path: Seq<char>, rest: Seq<char>) -> Seq<char> {
    "cd "@ + shell_escape_spec(path) + " && "@ + rest
}

/// Build the `cd <quoted-path> && <rest>` form of a remote command.
pub fn remote_cd(path: &str, rest: &str) -> (r: String)
    ensures
        r@ == remote_cd_spec(path@, rest@),
{
    let mut s = String::from_str("cd ");
    let q = shell_escape_posix_single(path);
    s.append(q.as_str());
    s.append(" && ");
    s.append(rest);
    proof {
        assert(s@ =~= remote_cd_spec(path@, rest@));
    }
    s
}

/// Build one full transport invocation for a remote command: the
/// executable, and the argument list with the forced non-interactive
/// options.
pub fn ssh_run(ssh_exe: &str, cfg: &SshConfig, remote_cmd: &str) -> (r: CmdSpec)
    ensures
        r@.exe == ssh_exe@,
        r@.args == ssh_args_spec(
            cfg.host@,
            cfg.user@,
            port_spec(cfg.port),
            opt_str_view(cfg.key_path),
            remote_cmd@,
        ),
        r@.cwd is None,
{
    let port = match cfg.port {
        Some(p) => p,
        None => 22,
    };
    let args = build_ssh_args(
        cfg.host.as_str(),
        cfg.user.as_str(),
        port,
        &cfg.key_path,
        remote_cmd.to_owned(),
    );
    CmdSpec { exe: ssh_exe.to_owned(), args, cwd: None }
}

} // verus!
