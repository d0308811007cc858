//! The plugins that the application builder registers, and the plan that
//! picks them for a build profile.
use vstd::prelude::*;

verus! {

/// The least severity that the logging plugin lets through.
#[derive(Clone, Copy, Debug, PartialEq, Eq, Structural)]
pub enum LogLevel {
    Off,
    Error,
    Warn,
    Info,
    Debug,
    Trace,
}

/// A capability module attached to the application at start-up.
#[derive(Clone, Copy, Debug, PartialEq, Eq, Structural)]
pub enum Plugin {
    /// Lets the application's UI layer spawn and control processes.
    Shell,
    /// Writes log records at `level` or above to the default outputs.
    Log { level: LogLevel },
}

/// The logging plugin that a debug build adds.
pub open spec fn debug_log_plugin_spec() -> Plugin {
    Plugin::Log { level: LogLevel::Info }
}

/// The plugins, in order of registration, that a build registers: the shell
/// plugin always, and the logging plugin at `Info` only in a debug build.
pub open spec fn planned_plugins(debug_assertions: bool) -> Seq<Plugin> {
    if debug_assertions {
        seq![Plugin::Shell, debug_log_plugin_spec()]
    } else {
        seq![Plugin::Shell]
    }
}

/// An accumulator of plugin registrations, kept in the order they were made.
/// It is built before the application is launched and consumed by the launch.
pub struct BuilderConfig {
    plugins: Vec<Plugin>,
}

impl View for BuilderConfig {
    type V = Seq<Plugin>;

    closed spec fn view(&self) -> Seq<Plugin> {
        self.plugins@
    }
}

impl BuilderConfig {
    /// A configuration with no plugin registered.
    pub fn new() -> (r: Self)
        ensures
            r@ == Seq::<Plugin>::empty(),
    {
        BuilderConfig { plugins: Vec::new() }
    }

    /// Registers `p` after the plugins registered so far.
    pub fn plugin(self, p: Plugin) -> (r: Self)
        ensures
            r@ == self@.push(p),
    {
        let mut plugins = self.plugins;
        plugins.push(p);
        BuilderConfig { plugins }
    }

    /// The registered plugins, in order of registration.
    pub fn plugins(&self) -> (r: &Vec<Plugin>)
        ensures
            r@ == self@,
    {
        &self.plugins
    }

    /// How many plugins are registered.
    pub fn len(&self) -> (r: usize)
        ensures
            r == self@.len(),
    {
        self.plugins.len()
    }
}

/// The logging plugin that a debug build adds: `Info` and above.
pub fn debug_log_plugin() -> (r: Plugin)
    ensures
        r == debug_log_plugin_spec(),
{
    Plugin::Log { level: LogLevel::Info }
}

/// The builder configuration for a build with or without debug assertions.
/// The flag is meant to be the build's own, fixed when it was compiled, so
/// that a release binary cannot turn debug logging on.
pub fn plugin_plan(debug_assertions: bool) -> (r: BuilderConfig)
    ensures
        r@ == planned_plugins(debug_assertions),
{
    let builder = BuilderConfig::new().plugin(Plugin::Shell);
    if debug_assertions {
        let r = builder.plugin(debug_log_plugin());
        assert(r@ =~= planned_plugins(debug_assertions));
        r
    } else {
        assert(builder@ =~= planned_plugins(debug_assertions));
        builder
    }
}

} // verus!
