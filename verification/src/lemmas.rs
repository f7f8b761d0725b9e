//! What holds of every argument vector and of every launch plan.

use vstd::prelude::*;
use crate::daemon::{
    args_with_auth, common_args, endpoint_args, launch_error, launch_plan, listen_args, option_args, switch_args,
    plans_with_log_store, DaemonConfig, DaemonConfigView, HostOs, LaunchError, LaunchPlanView,
};
use crate::utils::{keypair_block, password_block, AuthFlagsError, RpcAuthKindView};

verus! {

/// None of the texts that the caller supplies is the word `word`.
pub open spec fn caller_texts_avoid(
    c: DaemonConfigView,
    debugpack: Seq<char>,
    word: Seq<char>,
) -> bool {
    &&& c.exit_hostname != word
    &&& c.username != word
    &&& c.password != word
    &&& c.force_protocol != Some(word)
    &&& debugpack != word
}

/// The argument vector depends on nothing but the configuration's value
/// and the log store's path: equal inputs give the same vector.
pub proof fn lemma_common_args_deterministic(
    a: DaemonConfig,
    b: DaemonConfig,
    debugpack_a: Seq<char>,
    debugpack_b: Seq<char>,
)
    requires
        a@ == b@,
        debugpack_a == debugpack_b,
    ensures
        common_args(a@, debugpack_a) == common_args(b@, debugpack_b),
{
}

/// The argument vector ends with the password block, and the block's
/// sub-command stands directly after the options.
pub proof fn lemma_common_args_end_with_password_block(c: DaemonConfigView, debugpack: Seq<char>)
    ensures
        ({
            let args = common_args(c, debugpack);
            let k = option_args(c, debugpack).len() as int;
            &&& args.len() == k + 5
            &&& args.subrange(k, k + 5) == password_block(c.username, c.password)
            &&& args[k] == "auth-password"@
            &&& args[k + 2] == c.username
            &&& args[k + 4] == c.password
        }),
{
    let args = common_args(c, debugpack);
    let k = option_args(c, debugpack).len() as int;
    assert(args.subrange(k, k + 5) =~= password_block(c.username, c.password));
}

/// The signing-key sub-command is no part of the argument vector, unless
/// the caller supplied that very word as one of the texts.
pub proof fn lemma_common_args_hold_no_keypair_block(c: DaemonConfigView, debugpack: Seq<char>)
    requires
        caller_texts_avoid(c, debugpack, "auth-keypair"@),
    ensures
        !common_args(c, debugpack).contains("auth-keypair"@),
{
    reveal_words();
    let args = common_args(c, debugpack);
    assert forall|i: int| 0 <= i < args.len() implies args[i] != "auth-keypair"@ by {}
}

/// The argument vector holds exactly one authentication block, that of
/// the kind asked for: the block stands at the end, it opens with the
/// sub-command of its kind, and neither sub-command stands among the
/// options before it, unless the caller supplied that very word as the
/// exit, the protocol or the log store's path.
pub proof fn lemma_args_hold_one_auth_block(
    c: DaemonConfigView,
    debugpack: Seq<char>,
    kind: RpcAuthKindView,
    sk_path: Seq<char>,
)
    requires
        c.exit_hostname != "auth-password"@ && c.exit_hostname != "auth-keypair"@,
        c.force_protocol != Some("auth-password"@) && c.force_protocol != Some("auth-keypair"@),
        debugpack != "auth-password"@ && debugpack != "auth-keypair"@,
    ensures
        !option_args(c, debugpack).contains("auth-password"@),
        !option_args(c, debugpack).contains("auth-keypair"@),
        "auth-password"@ != "auth-keypair"@,
        match kind {
            RpcAuthKindView::Password { username, password } => args_with_auth(
                c,
                debugpack,
                kind,
                Ok(sk_path),
            ) == Ok::<Seq<Seq<char>>, AuthFlagsError>(
                option_args(c, debugpack) + password_block(username, password),
            ) && password_block(username, password)[0] == "auth-password"@,
            RpcAuthKindView::Signature => args_with_auth(c, debugpack, kind, Ok(sk_path)) == Ok::<
                Seq<Seq<char>>,
                AuthFlagsError,
            >(option_args(c, debugpack) + keypair_block(sk_path)) && keypair_block(sk_path)[0]
                == "auth-keypair"@,
        },
{
    reveal_words();
    let opts = option_args(c, debugpack);
    assert forall|i: int| 0 <= i < opts.len() implies opts[i] != "auth-password"@ && opts[i]
        != "auth-keypair"@ by {}
}

/// With a protocol override set, the override flag stands at the third
/// place and the protocol right behind it.
pub proof fn lemma_forced_protocol_follows_flag(c: DaemonConfigView, debugpack: Seq<char>)
    requires
        c.force_protocol is Some,
    ensures
        common_args(c, debugpack)[2] == "--force-protocol"@,
        common_args(c, debugpack)[3] == c.force_protocol->Some_0,
{
}

/// Without a protocol override the override flag is absent, unless the
/// caller supplied that very word as one of the texts.
pub proof fn lemma_no_forced_protocol_no_flag(c: DaemonConfigView, debugpack: Seq<char>)
    requires
        c.force_protocol is None,
        caller_texts_avoid(c, debugpack, "--force-protocol"@),
    ensures
        !common_args(c, debugpack).contains("--force-protocol"@),
{
    reveal_words();
    let args = common_args(c, debugpack);
    assert forall|i: int| 0 <= i < args.len() implies args[i] != "--force-protocol"@ by {}
}

/// With listening on all interfaces asked for, both listeners stand in the
/// argument vector, each flag followed by its wildcard address, right
/// after the switches.
pub proof fn lemma_listen_all_binds_both_listeners(c: DaemonConfigView, debugpack: Seq<char>)
    requires
        c.listen_all,
    ensures
        ({
            let args = common_args(c, debugpack);
            let k = (endpoint_args(c).len() + 2 + switch_args(c).len()) as int;
            &&& k + 4 <= args.len()
            &&& args[k] == "--socks5-listen"@
            &&& args[k + 1] == "0.0.0.0:9909"@
            &&& args[k + 2] == "--http-listen"@
            &&& args[k + 3] == "0.0.0.0:9910"@
        }),
{
}

/// Without listening on all interfaces neither listener flag is in the
/// argument vector, unless the caller supplied that very word as one of
/// the texts.
pub proof fn lemma_no_listen_all_no_listeners(c: DaemonConfigView, debugpack: Seq<char>)
    requires
        !c.listen_all,
        caller_texts_avoid(c, debugpack, "--socks5-listen"@),
        caller_texts_avoid(c, debugpack, "--http-listen"@),
    ensures
        !common_args(c, debugpack).contains("--socks5-listen"@),
        !common_args(c, debugpack).contains("--http-listen"@),
        listen_args(c).len() == 0,
{
    reveal_words();
    let args = common_args(c, debugpack);
    assert forall|i: int| 0 <= i < args.len() implies args[i] != "--socks5-listen"@ && args[i]
        != "--http-listen"@ by {}
}

/// VPN mode on macOS is refused as unsupported, whatever else holds, so
/// there is never a plan to spawn from.
pub proof fn lemma_vpn_on_macos_is_unsupported(
    c: DaemonConfigView,
    elevated: bool,
    debugpack: Seq<char>,
)
    requires
        c.vpn_mode,
    ensures
        launch_error(c.vpn_mode, HostOs::MacOs, elevated) == Some(LaunchError::UnsupportedPlatform),
        launch_plan(c, HostOs::MacOs, elevated, debugpack) == Err::<LaunchPlanView, LaunchError>(
            LaunchError::UnsupportedPlatform,
        ),
{
}

/// VPN mode on Windows without elevation is refused for want of
/// privilege, so there is never a plan to spawn from.
pub proof fn lemma_vpn_on_windows_needs_elevation(c: DaemonConfigView, debugpack: Seq<char>)
    requires
        c.vpn_mode,
    ensures
        launch_error(c.vpn_mode, HostOs::Windows, false) == Some(
            LaunchError::InsufficientPrivilege,
        ),
        launch_plan(c, HostOs::Windows, false, debugpack) == Err::<LaunchPlanView, LaunchError>(
            LaunchError::InsufficientPrivilege,
        ),
{
}

/// None of the configuration's own texts is the word `word`.
pub open spec fn config_texts_avoid(c: DaemonConfigView, word: Seq<char>) -> bool {
    &&& c.exit_hostname != word
    &&& c.username != word
    &&& c.password != word
    &&& c.force_protocol != Some(word)
}

/// A path that ends with the log store's file name is none of the words
/// that the daemon reads as the override flag, a listener flag or a
/// listener's address.
pub proof fn lemma_log_store_is_no_flag_word(debugpack: Seq<char>)
    requires
        "geph4-logs.db"@.is_suffix_of(debugpack),
    ensures
        debugpack != "--force-protocol"@,
        debugpack != "--socks5-listen"@,
        debugpack != "--http-listen"@,
        debugpack != "0.0.0.0:9909"@,
        debugpack != "0.0.0.0:9910"@,
{
    reveal_strlit("geph4-logs.db");
    reveal_strlit("--force-protocol");
    reveal_strlit("--socks5-listen");
    reveal_strlit("--http-listen");
    reveal_strlit("0.0.0.0:9909");
    reveal_strlit("0.0.0.0:9910");
    let name = "geph4-logs.db"@;
    let tail = debugpack.subrange(debugpack.len() - name.len(), debugpack.len() as int);
    assert(tail[12] == name[12]);
    assert(debugpack[debugpack.len() - 1] == 'b');
    assert("--force-protocol"@[15] == 'l');
    assert("--socks5-listen"@[14] == 'n');
    assert("--http-listen"@[12] == 'n');
    assert("0.0.0.0:9909"@[11] == '9');
    assert("0.0.0.0:9910"@[11] == '0');
}

/// Without a protocol override, no word of the command line that a plan
/// spawns is the override flag, whatever the host and the mode: given that
/// the log store's path ends with its file name, as the path that `start`
/// resolves does, and that the configuration's own texts are not that very
/// word.
pub proof fn lemma_plan_without_override_has_no_flag(
    c: DaemonConfigView,
    host: HostOs,
    elevated: bool,
    debugpack: Seq<char>,
)
    requires
        c.force_protocol is None,
        config_texts_avoid(c, "--force-protocol"@),
        "geph4-logs.db"@.is_suffix_of(debugpack),
        launch_plan(c, host, elevated, debugpack) is Ok,
    ensures
        !launch_plan(c, host, elevated, debugpack)->Ok_0.command_line().contains(
            "--force-protocol"@,
        ),
        !launch_plan(c, host, elevated, debugpack)->Ok_0.args.contains("--force-protocol"@),
{
    reveal_words();
    reveal_plan_words();
    lemma_log_store_is_no_flag_word(debugpack);
    let plan = launch_plan(c, host, elevated, debugpack)->Ok_0;
    let args = plan.args;
    assert forall|i: int| 0 <= i < args.len() implies args[i] != "--force-protocol"@ by {}
    let line = plan.command_line();
    assert forall|i: int| 0 <= i < line.len() implies line[i] != "--force-protocol"@ by {
        if plan.elevation is Some {
            if i >= 2 {
                assert(line[i] == args[i - 2]);
            }
        } else {
            if i >= 1 {
                assert(line[i] == args[i - 1]);
            }
        }
    }
}

/// Without listening on all interfaces, no word of the command line that
/// a plan spawns is a listener flag or a listener's wildcard address,
/// whatever the host and the mode: given that the log store's path ends
/// with its file name, as the path that `start` resolves does, and that
/// the configuration's own texts are none of those very words.
pub proof fn lemma_plan_without_listen_all_has_no_listener(
    c: DaemonConfigView,
    host: HostOs,
    elevated: bool,
    debugpack: Seq<char>,
)
    requires
        !c.listen_all,
        config_texts_avoid(c, "--socks5-listen"@),
        config_texts_avoid(c, "--http-listen"@),
        config_texts_avoid(c, "0.0.0.0:9909"@),
        config_texts_avoid(c, "0.0.0.0:9910"@),
        "geph4-logs.db"@.is_suffix_of(debugpack),
        launch_plan(c, host, elevated, debugpack) is Ok,
    ensures
        ({
            let line = launch_plan(c, host, elevated, debugpack)->Ok_0.command_line();
            &&& !line.contains("--socks5-listen"@)
            &&& !line.contains("--http-listen"@)
            &&& !line.contains("0.0.0.0:9909"@)
            &&& !line.contains("0.0.0.0:9910"@)
        }),
{
    reveal_words();
    reveal_plan_words();
    lemma_log_store_is_no_flag_word(debugpack);
    let plan = launch_plan(c, host, elevated, debugpack)->Ok_0;
    let args = plan.args;
    assert forall|i: int| 0 <= i < args.len() implies {
        &&& args[i] != "--socks5-listen"@
        &&& args[i] != "--http-listen"@
        &&& args[i] != "0.0.0.0:9909"@
        &&& args[i] != "0.0.0.0:9910"@
    } by {}
    let line = plan.command_line();
    assert forall|i: int| 0 <= i < line.len() implies {
        &&& line[i] != "--socks5-listen"@
        &&& line[i] != "--http-listen"@
        &&& line[i] != "0.0.0.0:9909"@
        &&& line[i] != "0.0.0.0:9910"@
    } by {
        if plan.elevation is Some {
            if i >= 2 {
                assert(line[i] == args[i - 2]);
            }
        } else {
            if i >= 1 {
                assert(line[i] == args[i - 1]);
            }
        }
    }
}

/// A plan that `start` hands out for a configuration without a protocol
/// override spawns no command line with the override flag in it, unless
/// the configuration's own texts hold that very word.
pub proof fn lemma_started_plan_without_override_has_no_flag(
    c: DaemonConfigView,
    host: HostOs,
    elevated: bool,
    plan: LaunchPlanView,
)
    requires
        c.force_protocol is None,
        config_texts_avoid(c, "--force-protocol"@),
        plans_with_log_store(c, host, elevated, plan),
    ensures
        !plan.command_line().contains("--force-protocol"@),
{
    let debugpack = choose|debugpack: Seq<char>|
        {
            &&& #[trigger] launch_plan(c, host, elevated, debugpack) == Ok::<
                LaunchPlanView,
                LaunchError,
            >(plan)
            &&& "geph4-logs.db"@.is_suffix_of(debugpack)
        };
    lemma_plan_without_override_has_no_flag(c, host, elevated, debugpack);
}

/// A plan that `start` hands out for a configuration that does not listen
/// on all interfaces spawns no command line with a listener flag or a
/// listener's wildcard address in it, unless the configuration's own texts
/// hold one of those very words.
pub proof fn lemma_started_plan_without_listen_all_has_no_listener(
    c: DaemonConfigView,
    host: HostOs,
    elevated: bool,
    plan: LaunchPlanView,
)
    requires
        !c.listen_all,
        config_texts_avoid(c, "--socks5-listen"@),
        config_texts_avoid(c, "--http-listen"@),
        config_texts_avoid(c, "0.0.0.0:9909"@),
        config_texts_avoid(c, "0.0.0.0:9910"@),
        plans_with_log_store(c, host, elevated, plan),
    ensures
        !plan.command_line().contains("--socks5-listen"@),
        !plan.command_line().contains("--http-listen"@),
        !plan.command_line().contains("0.0.0.0:9909"@),
        !plan.command_line().contains("0.0.0.0:9910"@),
{
    let debugpack = choose|debugpack: Seq<char>|
        {
            &&& #[trigger] launch_plan(c, host, elevated, debugpack) == Ok::<
                LaunchPlanView,
                LaunchError,
            >(plan)
            &&& "geph4-logs.db"@.is_suffix_of(debugpack)
        };
    lemma_plan_without_listen_all_has_no_listener(c, host, elevated, debugpack);
}

/// Spells out the words that a plan puts before the common arguments.
proof fn reveal_plan_words()
    ensures
        "pkexec"@.len() == 6,
        "geph4-client"@.len() == 12,
        "geph4-client"@[0] == 'g',
        "connect"@.len() == 7,
        "--vpn-mode"@.len() == 10,
        "tun-route"@.len() == 9,
        "windivert"@.len() == 9,
{
    reveal_strlit("pkexec");
    reveal_strlit("geph4-client");
    reveal_strlit("connect");
    reveal_strlit("--vpn-mode");
    reveal_strlit("tun-route");
    reveal_strlit("windivert");
}

/// Spells out the fixed words of the argument vector.
proof fn reveal_words()
    ensures
        "--exit-server"@.len() == 13,
        "--force-protocol"@.len() == 16,
        "--force-protocol"@[2] == 'f',
        "--debugpack-path"@.len() == 16,
        "--debugpack-path"@[2] == 'd',
        "--exclude-prc"@.len() == 13,
        "--use-bridges"@.len() == 13,
        "--socks5-listen"@.len() == 15,
        "0.0.0.0:9909"@.len() == 12,
        "--http-listen"@.len() == 13,
        "--http-listen"@[2] == 'h',
        "0.0.0.0:9910"@.len() == 12,
        "auth-password"@.len() == 13,
        "auth-password"@[2] == 't',
        "auth-keypair"@.len() == 12,
        "auth-keypair"@[0] == 'a',
        "0.0.0.0:9909"@[0] == '0',
        "0.0.0.0:9910"@[0] == '0',
        "--username"@.len() == 10,
        "--password"@.len() == 10,
        "--exit-server"@[2] == 'e',
        "--exclude-prc"@[2] == 'e',
        "--use-bridges"@[2] == 'u',
{
    reveal_strlit("--exit-server");
    reveal_strlit("--force-protocol");
    reveal_strlit("--debugpack-path");
    reveal_strlit("--exclude-prc");
    reveal_strlit("--use-bridges");
    reveal_strlit("--socks5-listen");
    reveal_strlit("0.0.0.0:9909");
    reveal_strlit("--http-listen");
    reveal_strlit("0.0.0.0:9910");
    reveal_strlit("auth-password");
    reveal_strlit("auth-keypair");
    reveal_strlit("--username");
    reveal_strlit("--password");
}

} // verus!
