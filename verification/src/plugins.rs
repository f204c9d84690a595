//! Plugin configuration: which capability modules each entry point attaches.

use vstd::prelude::*;

verus! {

/// Minimum severity a logging plugin records, from most to least restrictive.
#[derive(Clone, Copy, Debug, PartialEq, Eq, Structural)]
pub enum LogLevel {
    Off,
    Error,
    Warn,
    Info,
    Debug,
    Trace,
}

/// How autostart registers the binary for launch at login.
#[derive(Clone, Copy, Debug, PartialEq, Eq, Structural)]
pub enum Launcher {
    /// A login-agent style launch mechanism.
    LaunchAgent,
    /// A script-driven launch mechanism.
    AppleScript,
}

/// One plugin to attach to the application builder before it runs.
#[derive(Debug)]
pub enum PluginConfig {
    /// Debug logging at the given minimum severity.
    Log { level: LogLevel },
    /// Launch-at-login registration, with optional extra arguments
    /// passed to the launched binary.
    Autostart { launcher: Launcher, args: Option<Vec<String>> },
}

impl PluginConfig {
    /// Whether this is a logging plugin at informational severity.
    pub open spec fn is_info_log(self) -> bool {
        self == (PluginConfig::Log { level: LogLevel::Info })
    }

    /// Whether this is an autostart plugin.
    pub open spec fn is_autostart(self) -> bool {
        self is Autostart
    }

    /// Whether this is an autostart plugin using the login-agent launch
    /// mechanism with no extra arguments.
    pub open spec fn is_plain_login_agent_autostart(self) -> bool {
        &&& self is Autostart
        &&& self->launcher == Launcher::LaunchAgent
        &&& self->args is None
    }
}

/// Whether some plugin of the set is a logging plugin.
pub open spec fn has_log_plugin(ps: Seq<PluginConfig>) -> bool {
    exists|i: int| 0 <= i < ps.len() && (#[trigger] ps[i]) is Log
}

/// How many plugins of the set are autostart plugins.
pub open spec fn count_autostart(ps: Seq<PluginConfig>) -> nat
    decreases ps.len(),
{
    if ps.len() == 0 {
        0
    } else {
        count_autostart(ps.drop_last()) + if ps.last().is_autostart() {
            1nat
        } else {
            0nat
        }
    }
}

/// The plugins the library entry point attaches: in a debug build one
/// logging plugin at informational severity, in a release build none.
pub open spec fn spec_library_plugins(debug: bool) -> Seq<PluginConfig> {
    if debug {
        seq![PluginConfig::Log { level: LogLevel::Info }]
    } else {
        Seq::empty()
    }
}

/// The plugins the executable entry point attaches: exactly one autostart
/// plugin, login-agent style, with no extra arguments.
pub open spec fn spec_executable_plugins() -> Seq<PluginConfig> {
    seq![PluginConfig::Autostart { launcher: Launcher::LaunchAgent, args: None }]
}

/// Builds the library entry point's plugin set for the given build kind.
pub fn library_plugins(debug: bool) -> (ps: Vec<PluginConfig>)
    ensures
        ps@ == spec_library_plugins(debug),
{
    let mut ps: Vec<PluginConfig> = Vec::new();
    if debug {
        ps.push(PluginConfig::Log { level: LogLevel::Info });
    }
    proof {
        assert(ps@ =~= spec_library_plugins(debug));
    }
    ps
}

/// Builds the executable entry point's plugin set.
pub fn executable_plugins() -> (ps: Vec<PluginConfig>)
    ensures
        ps@ == spec_executable_plugins(),
{
    let mut ps: Vec<PluginConfig> = Vec::new();
    ps.push(PluginConfig::Autostart { launcher: Launcher::LaunchAgent, args: None });
    proof {
        assert(ps@ =~= spec_executable_plugins());
    }
    ps
}

/// The logging plugin is attached if and only if the build is a debug build,
/// and whatever the library entry point attaches is a logging plugin at
/// informational severity.
pub proof fn lemma_log_plugin_iff_debug(debug: bool)
    ensures
        has_log_plugin(spec_library_plugins(debug)) <==> debug,
        forall|i: int|
            0 <= i < spec_library_plugins(debug).len() ==> (
            #[trigger] spec_library_plugins(debug)[i]).is_info_log(),
{
    if debug {
        assert(spec_library_plugins(debug)[0] is Log);
    }
}

/// The executable entry point registers autostart exactly once, with the
/// login-agent launch mechanism and no extra arguments.
pub proof fn lemma_autostart_exactly_once()
    ensures
        count_autostart(spec_executable_plugins()) == 1,
        forall|i: int|
            0 <= i < spec_executable_plugins().len() ==> (
            #[trigger] spec_executable_plugins()[i]).is_plain_login_agent_autostart(),
{
    let ps = spec_executable_plugins();
    assert(ps.drop_last() =~= Seq::empty());
    assert(count_autostart(Seq::<PluginConfig>::empty()) == 0);
    assert(ps.last().is_autostart());
    assert(count_autostart(ps) == 1);
}

} // verus!
