use vstd::prelude::*;
use vstd::string::StringExecFns;

use crate::action::{verb_name, Verb};
use crate::text::{decimal, opt_text, port_text, str_opt};

verus! {

/// The reverse port forward for `port`: the remote `127.0.0.1:<port>` reaches
/// the same port on the local loopback address.
pub open spec fn tunnel_spec(port: Option<u16>) -> Seq<char> {
    match port {
        Some(p) => " -R "@ + decimal(p as nat) + ":127.0.0.1:"@ + decimal(p as nat),
        None => Seq::empty(),
    }
}

/// The prefix put before every remote command of a run.
pub open spec fn ssh_tool_spec(
    target_host: Seq<char>,
    extra_ssh_options: Seq<char>,
    port: Option<u16>,
    use_remote_sudo: bool,
) -> Seq<char> {
    let base = "ssh "@ + extra_ssh_options + tunnel_spec(port) + " "@ + target_host;
    if use_remote_sudo {
        base + " sudo"@
    } else {
        base
    }
}

/// The package-manager option that names the local server as a substituter:
/// the only one where remote substitutes are not wanted, an extra one where
/// they are.
pub open spec fn substituter_flag(use_substitutes: bool, port: u16) -> Seq<char> {
    (if use_substitutes {
        "--option extra-substituters"@
    } else {
        "--option substituters"@
    }) + " http://127.0.0.1:"@ + decimal(port as nat)
}

/// The option that turns off signature checks on the remote host, where no
/// signing key is configured.
pub open spec fn signature_flag(signed: bool) -> Seq<char> {
    if signed {
        Seq::empty()
    } else {
        "--option require-sigs false"@
    }
}

/// The option that points the remote package manager at another store root.
pub open spec fn store_flag(store: Option<Seq<char>>) -> Seq<char> {
    match store {
        Some(s) => "--store "@ + s,
        None => Seq::empty(),
    }
}

/// Whether `t` stands in `s` from position `k` on.
pub open spec fn stands_at(s: Seq<char>, k: nat, t: Seq<char>) -> bool {
    k + t.len() <= s.len() && s.subrange(k as int, (k + t.len()) as int) == t
}

/// The package-manager invocation that begins a fetch command.
pub open spec fn fetch_head(profile: Option<Seq<char>>) -> Seq<char> {
    if profile is Some {
        " nix-env "@
    } else {
        " nix build "@
    }
}

/// The remote command that pulls `path` from the local server, and sets
/// `profile` to it where one is given.
pub open spec fn fetch_spec(
    ssh_tool: Seq<char>,
    port: u16,
    use_substitutes: bool,
    path: Seq<char>,
    signed: bool,
    store: Option<Seq<char>>,
    profile: Option<Seq<char>>,
) -> Seq<char> {
    let flags = substituter_flag(use_substitutes, port) + " "@ + signature_flag(signed) + " "@
        + store_flag(store);
    match profile {
        Some(p) => ssh_tool + fetch_head(profile) + flags + " -p "@ + p + " --set "@ + path,
        None => ssh_tool + fetch_head(profile) + flags + " --print-missing -v --no-link "@ + path,
    }
}

/// The remote command that sets `profile` to `path`.
pub open spec fn profile_set_spec(ssh_tool: Seq<char>, profile: Seq<char>, path: Seq<char>) -> Seq<char> {
    ssh_tool + " nix-env -p "@ + profile + " --set "@ + path
}

/// The remote command that activates the system found under `target`.
pub open spec fn activation_spec(ssh_tool: Seq<char>, target: Seq<char>, verb: Verb) -> Seq<char> {
    ssh_tool + " "@ + target + "/bin/switch-to-configuration "@ + verb_name(verb)
}

/// The remote command that reboots the host.
pub open spec fn reboot_spec(ssh_tool: Seq<char>) -> Seq<char> {
    ssh_tool + " reboot"@
}

/// The local command that signs the closure of `path` with the key in `key`.
pub open spec fn sign_spec(key: Seq<char>, path: Seq<char>) -> Seq<char> {
    "nix sign-paths -r -k "@ + key + " "@ + path
}

/// The local command that copies the closure of `path` to the host's store;
/// an unsigned closure is accepted there without signature checks.
pub open spec fn copy_spec(
    target_host: Seq<char>,
    use_substitutes: bool,
    signed: bool,
    path: Seq<char>,
) -> Seq<char> {
    "nix copy "@ + (if use_substitutes {
        "--substitute-on-destination "@
    } else {
        Seq::empty()
    }) + (if signed {
        Seq::empty()
    } else {
        "--no-check-sigs "@
    }) + "--to ssh://"@ + target_host + " "@ + path
}

/// Builds the prefix of every remote command: an SSH connection to the
/// host, with a reverse tunnel for `port` where one is given, and `sudo` on
/// the remote side where asked.
pub fn get_ssh_tool(
    target_host: &str,
    extra_ssh_options: Option<&str>,
    port: Option<u16>,
    use_remote_sudo: bool,
) -> (r: String)
    ensures
        r@ == ssh_tool_spec(target_host@, opt_text(extra_ssh_options), port, use_remote_sudo),
{
    let mut cmd = String::from_str("ssh ");
    match extra_ssh_options {
        Some(o) => cmd.append(o),
        None => {},
    }
    match port {
        Some(p) => {
            let digits = port_text(p);
            cmd.append(" -R ");
            cmd.append(digits.as_str());
            cmd.append(":127.0.0.1:");
            cmd.append(digits.as_str());
        },
        None => {},
    }
    cmd.append(" ");
    cmd.append(target_host);
    if use_remote_sudo {
        cmd.append(" sudo");
    }
    proof {
        assert(cmd@ =~= ssh_tool_spec(target_host@, opt_text(extra_ssh_options), port, use_remote_sudo));
    }
    cmd
}

/// Builds the remote command that pulls `path` through the tunnel from the
/// local server on `port`, setting `profile` to it where one is given.
pub fn fetch_command(
    ssh_tool: &str,
    port: u16,
    use_substitutes: bool,
    path: &str,
    signed: bool,
    store: Option<&str>,
    profile: Option<&str>,
) -> (r: String)
    ensures
        r@ == fetch_spec(ssh_tool@, port, use_substitutes, path@, signed, str_opt(store), str_opt(profile)),
        stands_at(
            r@,
            ssh_tool@.len() + fetch_head(str_opt(profile)).len(),
            substituter_flag(use_substitutes, port),
        ),
        stands_at(
            r@,
            ssh_tool@.len() + fetch_head(str_opt(profile)).len() + substituter_flag(use_substitutes, port).len()
                + 1,
            signature_flag(signed),
        ),
{
    let mut cmd = String::from_str(ssh_tool);
    if profile.is_some() {
        cmd.append(" nix-env ");
    } else {
        cmd.append(" nix build ");
    }
    if use_substitutes {
        cmd.append("--option extra-substituters");
    } else {
        cmd.append("--option substituters");
    }
    cmd.append(" http://127.0.0.1:");
    let digits = port_text(port);
    cmd.append(digits.as_str());
    cmd.append(" ");
    if !signed {
        cmd.append("--option require-sigs false");
    }
    cmd.append(" ");
    match store {
        Some(s) => {
            cmd.append("--store ");
            cmd.append(s);
        },
        None => {},
    }
    match profile {
        Some(p) => {
            cmd.append(" -p ");
            cmd.append(p);
            cmd.append(" --set ");
        },
        None => {
            cmd.append(" --print-missing -v --no-link ");
        },
    }
    cmd.append(path);
    proof {
        let flags = substituter_flag(use_substitutes, port) + " "@ + signature_flag(signed) + " "@
            + store_flag(str_opt(store));
        match profile {
            Some(p) => {
                assert(cmd@ =~= ssh_tool@ + fetch_head(str_opt(profile)) + flags + " -p "@ + p@ + " --set "@ + path@);
            },
            None => {
                assert(cmd@ =~= ssh_tool@ + fetch_head(str_opt(profile)) + flags + " --print-missing -v --no-link "@ + path@);
            },
        }
    }
    proof {
        lemma_fetch_layout(ssh_tool@, port, use_substitutes, path@, signed, str_opt(store), str_opt(profile));
    }
    cmd
}

proof fn lemma_fetch_layout(
    ssh_tool: Seq<char>,
    port: u16,
    use_substitutes: bool,
    path: Seq<char>,
    signed: bool,
    store: Option<Seq<char>>,
    profile: Option<Seq<char>>,
)
    ensures
        stands_at(
            fetch_spec(ssh_tool, port, use_substitutes, path, signed, store, profile),
            ssh_tool.len() + fetch_head(profile).len(),
            substituter_flag(use_substitutes, port),
        ),
        stands_at(
            fetch_spec(ssh_tool, port, use_substitutes, path, signed, store, profile),
            ssh_tool.len() + fetch_head(profile).len() + substituter_flag(use_substitutes, port).len()
                + 1,
            signature_flag(signed),
        ),
{
    reveal_strlit(" ");
    let r = fetch_spec(ssh_tool, port, use_substitutes, path, signed, store, profile);
    let head = ssh_tool + fetch_head(profile);
    let sub = substituter_flag(use_substitutes, port);
    let sig = signature_flag(signed);
    let tail = store_flag(store) + match profile {
        Some(p) => " -p "@ + p + " --set "@ + path,
        None => " --print-missing -v --no-link "@ + path,
    };
    assert(r =~= head + sub + " "@ + sig + " "@ + tail);
    let k = head.len() as int;
    assert(r.subrange(k, k + sub.len()) =~= sub);
    let k2 = k + sub.len() + 1;
    assert(r.subrange(k2, k2 + sig.len()) =~= sig);
}

/// Builds the remote command that sets `profile` to `path`.
pub fn profile_set_command(ssh_tool: &str, profile: &str, path: &str) -> (r: String)
    ensures
        r@ == profile_set_spec(ssh_tool@, profile@, path@),
{
    let mut cmd = String::from_str(ssh_tool);
    cmd.append(" nix-env -p ");
    cmd.append(profile);
    cmd.append(" --set ");
    cmd.append(path);
    cmd
}

/// Builds the remote command that runs the activation binary of the system
/// under `target` (a profile, or the store path itself) with `verb`.
pub fn activation_command(ssh_tool: &str, target: &str, verb: Verb) -> (r: String)
    ensures
        r@ == activation_spec(ssh_tool@, target@, verb),
{
    let mut cmd = String::from_str(ssh_tool);
    cmd.append(" ");
    cmd.append(target);
    cmd.append("/bin/switch-to-configuration ");
    cmd.append(verb.name());
    cmd
}

/// Builds the remote command that reboots the host.
pub fn reboot_command(ssh_tool: &str) -> (r: String)
    ensures
        r@ == reboot_spec(ssh_tool@),
{
    let mut cmd = String::from_str(ssh_tool);
    cmd.append(" reboot");
    cmd
}

/// Builds the local command that signs the closure of `path` with `key`.
pub fn sign_command(key: &str, path: &str) -> (r: String)
    ensures
        r@ == sign_spec(key@, path@),
{
    let mut cmd = String::from_str("nix sign-paths -r -k ");
    cmd.append(key);
    cmd.append(" ");
    cmd.append(path);
    cmd
}

/// Builds the local command that copies the closure of `path` to the host.
pub fn copy_command(target_host: &str, use_substitutes: bool, signed: bool, path: &str) -> (r: String)
    ensures
        r@ == copy_spec(target_host@, use_substitutes, signed, path@),
{
    let mut cmd = String::from_str("nix copy ");
    if use_substitutes {
        cmd.append("--substitute-on-destination ");
    }
    if !signed {
        cmd.append("--no-check-sigs ");
    }
    cmd.append("--to ssh://");
    cmd.append(target_host);
    cmd.append(" ");
    cmd.append(path);
    proof {
        assert(cmd@ =~= copy_spec(target_host@, use_substitutes, signed, path@));
    }
    cmd
}

} // verus!
