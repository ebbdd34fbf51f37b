//! Engine configuration: logging and the window.
use vstd::prelude::*;
use vstd::string::StringExecFns;

verus! {

/// Bevy Config Plugin.
#[derive(Debug)]
pub struct BevyConfigPlugin {
    /// Headless.
    pub headless: bool,
    /// Log Filter.
    pub log_filter: String,
    /// Title.
    pub title: String,
}

impl Clone for BevyConfigPlugin {
    fn clone(&self) -> (res: Self)
        ensures
            res.headless == self.headless,
            res.log_filter@ == self.log_filter@,
            res.title@ == self.title@,
    {
        BevyConfigPlugin { headless: self.headless, log_filter: self.log_filter.clone(), title: self.title.clone() }
    }
}

/// The log filter directives: the engine's own crates at debug level, the
/// graphics backend at warn, everything else at info; a headless process
/// adds its own crate (named by `log_filter`) at debug, a windowed one the
/// game's crates.
pub open spec fn log_directives(headless: bool, log_filter: Seq<char>) -> Seq<char> {
    "info,chaos_symphony_ecs=debug,chaos_symphony_network_bevy=debug,"@ + (if headless {
        log_filter + "=debug"@
    } else {
        "chaos_symphony=debug"@
    }) + ",wgpu_core=warn,wgpu_hal=warn"@
}

impl BevyConfigPlugin {
    /// The filter that the log plugin is set up with.
    pub fn log_directives(&self) -> (res: String)
        ensures
            res@ == log_directives(self.headless, self.log_filter@),
    {
        let mut res = String::from_str("info,chaos_symphony_ecs=debug,chaos_symphony_network_bevy=debug,");
        if self.headless {
            res.append(self.log_filter.as_str());
            res.append("=debug");
        } else {
            res.append("chaos_symphony=debug");
        }
        res.append(",wgpu_core=warn,wgpu_hal=warn");
        res
    }
}

} // verus!
