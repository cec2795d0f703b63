//! The SSH connection policy shared by every executor, and the command proxy target that
//! command runners forward to when the controller is not the local host.

use vstd::prelude::*;

verus! {

/// Default connect timeout for node SSH operations, in seconds.
pub const DEFAULT_CONNECT_TIMEOUT_SECS: u64 = 5;

/// The connection policy handed to the SSH dispatcher.
#[derive(Debug, Clone)]
pub struct DispatchConfig {
    /// The ssh client configuration file read (`/dev/null`: none).
    pub ssh_config_path: Option<String>,
    /// The dispatcher's own configuration file (`/dev/null`: none).
    pub config_path: Option<String>,
    /// Whether any host key is accepted (nodes get re-imaged).
    pub accept_any_host_key: bool,
    /// The known-hosts file (`/dev/null`: none is kept).
    pub known_hosts_file: Option<String>,
    /// Connect timeout in seconds.
    pub connect_timeout_secs: Option<u64>,
    /// Whether commands are run through `sudo`.
    pub sudo: bool,
}

/// The dispatch policy used throughout: no ssh or known-hosts files, any host key
/// accepted, a short connect timeout and no `sudo`.
pub fn default_dispatch_config() -> (c: DispatchConfig)
    ensures
        c.ssh_config_path matches Some(p) && p@ == "/dev/null"@,
        c.config_path matches Some(p) && p@ == "/dev/null"@,
        c.known_hosts_file matches Some(p) && p@ == "/dev/null"@,
        c.accept_any_host_key,
        c.connect_timeout_secs == Some(DEFAULT_CONNECT_TIMEOUT_SECS),
        !c.sudo,
{
    DispatchConfig {
        ssh_config_path: Some("/dev/null".to_owned()),
        config_path: Some("/dev/null".to_owned()),
        accept_any_host_key: true,
        known_hosts_file: Some("/dev/null".to_owned()),
        connect_timeout_secs: Some(DEFAULT_CONNECT_TIMEOUT_SECS),
        sudo: false,
    }
}

/// Where command runners proxy their commands to when the controller is not the local
/// host.
#[derive(Debug, PartialEq, Eq)]
pub struct CommandProxy {
    pub host: String,
    pub port: u16,
    pub user: String,
}

impl View for CommandProxy {
    type V = (Seq<char>, u16, Seq<char>);

    open spec fn view(&self) -> (Seq<char>, u16, Seq<char>) {
        (self.host@, self.port, self.user@)
    }
}

impl CommandProxy {
    /// A copy of this target.
    pub fn duplicate(&self) -> (r: CommandProxy)
        ensures
            r@ == self@,
    {
        CommandProxy { host: self.host.clone(), port: self.port, user: self.user.clone() }
    }
}

/// The view of an optional proxy target.
pub open spec fn proxy_view(p: Option<CommandProxy>) -> Option<(Seq<char>, u16, Seq<char>)> {
    match p {
        Some(t) => Some(t@),
        None => None,
    }
}

/// The process-wide command proxy setting: one controller target per running backend.
/// Whoever shares it between threads puts it behind a lock, so that a reconfiguration is
/// never observed half done.
#[derive(Debug)]
pub struct ProxySetting {
    target: Option<CommandProxy>,
}

impl ProxySetting {
    /// The current target, as a value.
    pub closed spec fn current(&self) -> Option<(Seq<char>, u16, Seq<char>)> {
        proxy_view(self.target)
    }

    /// The setting that holds `proxy` as its target.
    pub closed spec fn holding(proxy: Option<CommandProxy>) -> ProxySetting {
        ProxySetting { target: proxy }
    }

    /// A setting with no target.
    pub fn new() -> (s: ProxySetting)
        ensures
            s == ProxySetting::holding(None),
    {
        ProxySetting { target: None }
    }
}

/// Sets (or clears, with `None`) the command proxy target, whatever it was before.
pub fn set_command_proxy(setting: &mut ProxySetting, proxy: Option<CommandProxy>)
    ensures
        *final(setting) == ProxySetting::holding(proxy),
{
    setting.target = proxy;
}

/// Reads the current command proxy target, if any.
pub fn command_proxy(setting: &ProxySetting) -> (p: Option<CommandProxy>)
    ensures
        proxy_view(p) == setting.current(),
{
    match &setting.target {
        Some(t) => Some(t.duplicate()),
        None => None,
    }
}

/// Reading the target back gives what was last set, whatever was set before: the setting
/// that a call of `set_command_proxy` leaves holds exactly its argument.
pub proof fn law_proxy_read_after_set(proxy: Option<CommandProxy>)
    ensures
        ProxySetting::holding(proxy).current() == proxy_view(proxy),
{
}

/// A fresh setting has no target.
pub proof fn law_proxy_initially_unset()
    ensures
        ProxySetting::holding(None).current() == None::<(Seq<char>, u16, Seq<char>)>,
{
}

} // verus!
