//! The daemon's configuration, the argument vector it stands for, and the
//! launch plan chosen for a host operating system.

use vstd::prelude::*;
use crate::platform::{
    data_local_dir, extends_with, is_file_name, path_push, path_text, path_to_string_lossy,
    starts_plainly,
};
use crate::text::{lemma_texts_concat, opt_text, push_str, push_text, texts};
use crate::utils::{
    auth_block, flags_with_sk_path, password_block, password_flags, sk_path_text, AuthFlagsError,
    RpcAuthKind, RpcAuthKindView,
};

verus! {

/// Configuration for starting the daemon.
#[derive(Clone, Debug, PartialEq, Eq)]
pub struct DaemonConfig {
    pub username: String,
    pub password: String,
    pub exit_hostname: String,
    pub force_bridges: bool,
    pub vpn_mode: bool,
    pub prc_whitelist: bool,
    pub listen_all: bool,
    pub force_protocol: Option<String>,
}

/// The mathematical model of a [`DaemonConfig`].
pub struct DaemonConfigView {
    pub username: Seq<char>,
    pub password: Seq<char>,
    pub exit_hostname: Seq<char>,
    pub force_bridges: bool,
    pub vpn_mode: bool,
    pub prc_whitelist: bool,
    pub listen_all: bool,
    pub force_protocol: Option<Seq<char>>,
}

impl View for DaemonConfig {
    type V = DaemonConfigView;

    open spec fn view(&self) -> DaemonConfigView {
        DaemonConfigView {
            username: self.username@,
            password: self.password@,
            exit_hostname: self.exit_hostname@,
            force_bridges: self.force_bridges,
            vpn_mode: self.vpn_mode,
            prc_whitelist: self.prc_whitelist,
            listen_all: self.listen_all,
            force_protocol: opt_text(self.force_protocol),
        }
    }
}

impl DaemonConfigView {
    /// A protocol override, where there is one, names a protocol: it is
    /// not the empty text.
    pub open spec fn well_formed(self) -> bool {
        match self.force_protocol {
            Some(p) => p.len() > 0,
            None => true,
        }
    }
}

/// The operating system the daemon is launched on.
#[derive(Clone, Copy, Debug, PartialEq, Eq, Structural)]
pub enum HostOs {
    Linux,
    Windows,
    MacOs,
}

/// Why no launch plan could be made.
#[derive(Clone, Copy, Debug, PartialEq, Eq, Structural)]
pub enum LaunchError {
    /// VPN mode was requested on an operating system that has none.
    UnsupportedPlatform,
    /// VPN mode was requested without the elevation it needs.
    InsufficientPrivilege,
    /// The platform reports no local data directory to keep the log store in.
    NoDataDirectory,
}

impl LaunchError {
    /// What the error says to the user.
    pub open spec fn message_text(self) -> Seq<char> {
        match self {
            LaunchError::UnsupportedPlatform => "VPN mode not supported on macOS"@,
            LaunchError::InsufficientPrivilege => "VPN mode requires admin privileges on Windows"@,
            LaunchError::NoDataDirectory => "no local data directory"@,
        }
    }

    /// Describes the error to the user.
    pub fn message(&self) -> (text: String)
        ensures
            text@ == self.message_text(),
    {
        match self {
            LaunchError::UnsupportedPlatform => "VPN mode not supported on macOS".to_owned(),
            LaunchError::InsufficientPrivilege => {
                "VPN mode requires admin privileges on Windows".to_owned()
            },
            LaunchError::NoDataDirectory => "no local data directory".to_owned(),
        }
    }
}

/// The reason a host cannot run the requested mode, if there is one.
pub open spec fn launch_error(vpn_mode: bool, host: HostOs, elevated: bool) -> Option<LaunchError> {
    if vpn_mode && host == HostOs::MacOs {
        Some(LaunchError::UnsupportedPlatform)
    } else if vpn_mode && host == HostOs::Windows && !elevated {
        Some(LaunchError::InsufficientPrivilege)
    } else {
        None
    }
}

/// The exit selector, and the protocol override where one is set.
pub open spec fn endpoint_args(c: DaemonConfigView) -> Seq<Seq<char>> {
    seq!["--exit-server"@, c.exit_hostname] + match c.force_protocol {
        Some(p) => seq!["--force-protocol"@, p],
        None => seq![],
    }
}

/// The flags without a value, in their fixed order.
pub open spec fn switch_args(c: DaemonConfigView) -> Seq<Seq<char>> {
    (if c.prc_whitelist {
        seq!["--exclude-prc"@]
    } else {
        seq![]
    }) + (if c.force_bridges {
        seq!["--use-bridges"@]
    } else {
        seq![]
    })
}

/// The two listeners bound to the wildcard address, where asked for.
pub open spec fn listen_args(c: DaemonConfigView) -> Seq<Seq<char>> {
    if c.listen_all {
        seq!["--socks5-listen"@, "0.0.0.0:9909"@, "--http-listen"@, "0.0.0.0:9910"@]
    } else {
        seq![]
    }
}

/// Everything that precedes the authentication block.
pub open spec fn option_args(c: DaemonConfigView, debugpack: Seq<char>) -> Seq<Seq<char>> {
    endpoint_args(c) + seq!["--debugpack-path"@, debugpack] + switch_args(c) + listen_args(c)
}

/// The argument vector shared by every launch strategy.
pub open spec fn common_args(c: DaemonConfigView, debugpack: Seq<char>) -> Seq<Seq<char>> {
    option_args(c, debugpack) + password_block(c.username, c.password)
}

/// The argument vector that ends with the block of the authentication
/// `kind`, or the reason that block could not be made.
pub open spec fn args_with_auth(
    c: DaemonConfigView,
    debugpack: Seq<char>,
    kind: RpcAuthKindView,
    sk_path: Result<Seq<char>, AuthFlagsError>,
) -> Result<Seq<Seq<char>>, AuthFlagsError> {
    match auth_block(kind, sk_path) {
        Ok(block) => Ok(option_args(c, debugpack) + block),
        Err(e) => Err(e),
    }
}

/// The sub-command and mode flags that precede the common arguments.
pub open spec fn mode_args(vpn_mode: bool, host: HostOs) -> Seq<Seq<char>> {
    if !vpn_mode {
        seq!["connect"@]
    } else {
        match host {
            HostOs::Linux => seq!["connect"@, "--vpn-mode"@, "tun-route"@],
            HostOs::Windows => seq!["connect"@, "--vpn-mode"@, "windivert"@],
            HostOs::MacOs => seq![],
        }
    }
}

/// A resolved launch: what to run, through which elevation helper, with which arguments.
#[derive(Clone, Debug, PartialEq, Eq)]
pub struct LaunchPlan {
    /// The daemon's executable.
    pub executable: String,
    /// The helper that runs the executable with raised privileges, if one is needed.
    pub elevation: Option<String>,
    /// The arguments handed to the executable.
    pub args: Vec<String>,
    /// Whether the process is created without a console window.
    pub hide_console: bool,
}

/// The mathematical model of a [`LaunchPlan`].
pub struct LaunchPlanView {
    pub executable: Seq<char>,
    pub elevation: Option<Seq<char>>,
    pub args: Seq<Seq<char>>,
    pub hide_console: bool,
}

impl View for LaunchPlan {
    type V = LaunchPlanView;

    open spec fn view(&self) -> LaunchPlanView {
        LaunchPlanView {
            executable: self.executable@,
            elevation: opt_text(self.elevation),
            args: texts(self.args@),
            hide_console: self.hide_console,
        }
    }
}

impl LaunchPlanView {
    /// The program to spawn followed by its arguments.
    pub open spec fn command_line(self) -> Seq<Seq<char>> {
        match self.elevation {
            Some(e) => seq![e, self.executable] + self.args,
            None => seq![self.executable] + self.args,
        }
    }
}

/// The launch decided for a configuration on a host, or the reason there is none.
pub open spec fn launch_plan(
    c: DaemonConfigView,
    host: HostOs,
    elevated: bool,
    debugpack: Seq<char>,
) -> Result<LaunchPlanView, LaunchError> {
    match launch_error(c.vpn_mode, host, elevated) {
        Some(e) => Err(e),
        None => Ok(
            LaunchPlanView {
                executable: "geph4-client"@,
                elevation: if c.vpn_mode && host == HostOs::Linux {
                    Some("pkexec"@)
                } else {
                    None
                },
                args: mode_args(c.vpn_mode, host) + common_args(c, debugpack),
                hide_console: host == HostOs::Windows,
            },
        ),
    }
}

/// Whether `plan` is the launch decided for `c` on `host` with a log store
/// whose path ends with the store's file name, `geph4-logs.db`.
pub open spec fn plans_with_log_store(
    c: DaemonConfigView,
    host: HostOs,
    elevated: bool,
    plan: LaunchPlanView,
) -> bool {
    exists|debugpack: Seq<char>|
        {
            &&& #[trigger] launch_plan(c, host, elevated, debugpack) == Ok::<
                LaunchPlanView,
                LaunchError,
            >(plan)
            &&& "geph4-logs.db"@.is_suffix_of(debugpack)
        }
}

/// The file in which the daemon keeps its logs, given the user's local
/// data directory: `geph4-logs.db` pushed onto that directory. There is
/// such a file exactly where there is a directory, and its path is the
/// directory's with the file name after it.
pub fn debugpack_in(dir: Option<std::path::PathBuf>) -> (path: Option<std::path::PathBuf>)
    ensures
        path is Some <==> dir is Some,
        path is Some ==> "geph4-logs.db"@.is_suffix_of(path_text(path->Some_0)),
        dir is Some && starts_plainly(path_text(dir->Some_0)) ==> extends_with(
            path_text(dir->Some_0),
            "geph4-logs.db"@,
            path_text(path->Some_0),
        ),
{
    proof {
        lemma_log_store_name_is_file_name();
    }
    match dir {
        Some(mut base) => {
            path_push(&mut base, "geph4-logs.db");
            Some(base)
        },
        None => None,
    }
}

/// Returns the file in which the daemon keeps its logs: `geph4-logs.db` in
/// the local data directory that the platform reports for the user. There
/// is none where the platform reports no such directory.
pub fn debugpack_path() -> (path: Option<std::path::PathBuf>)
    ensures
        path is Some ==> "geph4-logs.db"@.is_suffix_of(path_text(path->Some_0)),
{
    debugpack_in(data_local_dir())
}

/// The log store's name is an ordinary path component.
pub proof fn lemma_log_store_name_is_file_name()
    ensures
        is_file_name("geph4-logs.db"@),
{
    reveal_strlit("geph4-logs.db");
    assert(seq!['.'].len() == 1 && seq!['.', '.'].len() == 2);
}

/// Tells why `host` cannot run the requested mode, if it cannot.
pub fn check_host(vpn_mode: bool, host: HostOs, elevated: bool) -> (refusal: Option<LaunchError>)
    ensures
        refusal == launch_error(vpn_mode, host, elevated),
{
    if !vpn_mode {
        return None;
    }
    match host {
        HostOs::MacOs => Some(LaunchError::UnsupportedPlatform),
        HostOs::Windows => if elevated {
            None
        } else {
            Some(LaunchError::InsufficientPrivilege)
        },
        HostOs::Linux => None,
    }
}

impl DaemonConfig {
    /// Tells whether the configuration is well formed.
    pub fn is_well_formed(&self) -> (ok: bool)
        ensures
            ok == self@.well_formed(),
    {
        match &self.force_protocol {
            Some(p) => !p.as_str().is_empty(),
            None => true,
        }
    }

    /// Turns the configuration's options into the arguments that
    /// precede the authentication block, with `debugpack` as the path of
    /// the daemon's log store.
    pub fn option_args(&self, debugpack: &str) -> (args: Vec<String>)
        ensures
            texts(args@) == option_args(self@, debugpack@),
    {
        let mut v: Vec<String> = Vec::new();
        assert(texts(v@) =~= Seq::<Seq<char>>::empty());
        push_str(&mut v, "--exit-server");
        push_text(&mut v, self.exit_hostname.clone());
        match &self.force_protocol {
            Some(force) => {
                push_str(&mut v, "--force-protocol");
                push_text(&mut v, force.clone());
            },
            None => {},
        }
        assert(texts(v@) =~= endpoint_args(self@));
        push_str(&mut v, "--debugpack-path");
        push_str(&mut v, debugpack);
        let ghost head = texts(v@);
        assert(head =~= endpoint_args(self@) + seq!["--debugpack-path"@, debugpack@]);
        if self.prc_whitelist {
            push_str(&mut v, "--exclude-prc");
        }
        if self.force_bridges {
            push_str(&mut v, "--use-bridges");
        }
        assert(texts(v@) =~= head + switch_args(self@));
        let ghost switched = texts(v@);
        if self.listen_all {
            push_str(&mut v, "--socks5-listen");
            push_str(&mut v, "0.0.0.0:9909");
            push_str(&mut v, "--http-listen");
            push_str(&mut v, "0.0.0.0:9910");
        }
        assert(texts(v@) =~= switched + listen_args(self@));
        v
    }

    /// Turns the configuration into the daemon's arguments, with
    /// `debugpack` as the path of its log store and the configuration's
    /// own credentials in the password block at the end.
    pub fn common_args(&self, debugpack: &str) -> (args: Vec<String>)
        ensures
            texts(args@) == common_args(self@, debugpack@),
    {
        let mut v = self.option_args(debugpack);
        let mut auth = password_flags(self.username.clone(), self.password.clone());
        proof {
            lemma_texts_concat(v@, auth@);
        }
        v.append(&mut auth);
        v
    }

    /// Turns the configuration's options into the daemon's arguments
    /// and ends them with the block of `auth_kind` in place of the
    /// configuration's own credentials. `sk_path` is where the signing key
    /// was found, or why it was not; only signing-key authentication
    /// looks at it.
    pub fn args_with_auth(
        &self,
        debugpack: &str,
        auth_kind: RpcAuthKind,
        sk_path: Result<String, AuthFlagsError>,
    ) -> (args: Result<Vec<String>, AuthFlagsError>)
        ensures
            match (args, args_with_auth(self@, debugpack@, auth_kind@, sk_path_text(sk_path))) {
                (Ok(a), Ok(expected)) => texts(a@) == expected,
                (Err(e), Err(expected)) => e == expected,
                _ => false,
            },
    {
        match flags_with_sk_path(auth_kind, sk_path) {
            Ok(mut auth) => {
                let mut v = self.option_args(debugpack);
                proof {
                    lemma_texts_concat(v@, auth@);
                }
                v.append(&mut auth);
                Ok(v)
            },
            Err(e) => Err(e),
        }
    }

    /// Chooses the launch strategy for `host`. `elevated` says whether the
    /// current process already holds administrator privileges; `debugpack`
    /// is the path of the daemon's log store.
    pub fn launch_plan(&self, host: HostOs, elevated: bool, debugpack: &str) -> (plan: Result<
        LaunchPlan,
        LaunchError,
    >)
        ensures
            match (plan, launch_plan(self@, host, elevated, debugpack@)) {
                (Ok(p), Ok(q)) => p@ == q,
                (Err(e), Err(f)) => e == f,
                _ => false,
            },
    {
        match check_host(self.vpn_mode, host, elevated) {
            Some(e) => {
                return Err(e);
            },
            None => {},
        }
        let mut args: Vec<String> = Vec::new();
        assert(texts(args@) =~= Seq::<Seq<char>>::empty());
        push_str(&mut args, "connect");
        let mut elevation: Option<String> = None;
        if self.vpn_mode {
            match host {
                HostOs::MacOs => {},
                HostOs::Windows => {
                    push_str(&mut args, "--vpn-mode");
                    push_str(&mut args, "windivert");
                },
                HostOs::Linux => {
                    elevation = Some("pkexec".to_owned());
                    push_str(&mut args, "--vpn-mode");
                    push_str(&mut args, "tun-route");
                },
            }
        }
        assert(texts(args@) =~= mode_args(self.vpn_mode, host));
        let mut common = self.common_args(debugpack);
        proof {
            lemma_texts_concat(args@, common@);
        }
        args.append(&mut common);
        let hide_console = match host {
            HostOs::Windows => true,
            _ => false,
        };
        Ok(LaunchPlan { executable: "geph4-client".to_owned(), elevation, args, hide_console })
    }

    /// Prepares the start of the daemon on `host`: refuses a mode the host
    /// cannot run, then resolves the log store's path on this machine and
    /// plans the launch with it. `elevated` says whether the current
    /// process already holds administrator privileges.
    pub fn start(self, host: HostOs, elevated: bool) -> (plan: Result<LaunchPlan, LaunchError>)
        ensures
            match launch_error(self@.vpn_mode, host, elevated) {
                Some(refusal) => plan == Err::<LaunchPlan, LaunchError>(refusal),
                None => match plan {
                    Ok(p) => plans_with_log_store(self@, host, elevated, p@),
                    Err(e) => e == LaunchError::NoDataDirectory,
                },
            },
    {
        match check_host(self.vpn_mode, host, elevated) {
            Some(e) => {
                return Err(e);
            },
            None => {},
        }
        match debugpack_path() {
            None => Err(LaunchError::NoDataDirectory),
            Some(path) => {
                let debugpack = path_to_string_lossy(&path);
                self.launch_plan(host, elevated, debugpack.as_str())
            },
        }
    }
}

impl LaunchPlan {
    /// The program to spawn, followed by the arguments to spawn it with.
    pub fn command_line(&self) -> (line: Vec<String>)
        ensures
            texts(line@) == self@.command_line(),
    {
        let mut line: Vec<String> = Vec::new();
        assert(texts(line@) =~= Seq::<Seq<char>>::empty());
        match &self.elevation {
            Some(e) => {
                push_text(&mut line, e.clone());
            },
            None => {},
        }
        push_text(&mut line, self.executable.clone());
        let ghost head = line@;
        let mut i: usize = 0;
        while i < self.args.len()
            invariant
                i <= self.args@.len(),
                texts(line@) == texts(head) + texts(self.args@).subrange(0, i as int),
            decreases self.args@.len() - i,
        {
            push_text(&mut line, self.args[i].clone());
            assert(texts(line@) =~= texts(head) + texts(self.args@).subrange(0, i + 1));
            i += 1;
        }
        assert(texts(self.args@).subrange(0, i as int) =~= texts(self.args@));
        assert(texts(line@) =~= self@.command_line());
        line
    }
}

} // verus!
