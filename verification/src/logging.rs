//! Process-wide log configuration, modelled as an explicit value: the
//! minimum level and whether a handler is present. The boundary layer owns
//! the one long-lived instance and the raw handler; the decisions about
//! clamping and filtering are made here.

use vstd::prelude::*;

verus! {

/// The log configuration: a minimum level, clamped to 0 (off) through 5
/// (trace), and whether a handler is registered.
#[derive(Clone, Copy, PartialEq, Eq, Structural, Debug)]
pub struct LogConfig {
    pub level: i32,
    pub handler_set: bool,
}

impl LogConfig {
    /// The configuration a process starts with: level 1, no handler.
    pub fn new() -> (c: LogConfig)
        ensures
            c.level == 1,
            !c.handler_set,
    {
        LogConfig { level: 1, handler_set: false }
    }
}

/// The requested level, clamped into the accepted 0 through 5 range.
pub open spec fn clamped_level(level: int) -> int {
    if level < 0 {
        0
    } else if level > 5 {
        5
    } else {
        level
    }
}

/// Sets the minimum level, clamping whatever was asked into range.
pub fn set_log_level(cfg: &mut LogConfig, level: i32)
    ensures
        final(cfg).level == clamped_level(level as int),
        final(cfg).handler_set == old(cfg).handler_set,
{
    cfg.level = if level < 0 {
        0
    } else if level > 5 {
        5
    } else {
        level
    };
}

/// Records whether a handler is registered.
pub fn set_log_handler(cfg: &mut LogConfig, handler_present: bool)
    ensures
        final(cfg).handler_set == handler_present,
        final(cfg).level == old(cfg).level,
{
    cfg.handler_set = handler_present;
}

/// A record passes the filter exactly when its level is positive, within the
/// configured minimum, and a handler is there to take it.
pub open spec fn emit_allowed(cfg: LogConfig, level: int) -> bool {
    level > 0 && level <= cfg.level && cfg.handler_set
}

/// Whether a record at this level is handed to the handler.
pub fn should_emit(cfg: &LogConfig, level: i32) -> (r: bool)
    ensures
        r == emit_allowed(*cfg, level as int),
{
    level > 0 && level <= cfg.level && cfg.handler_set
}

} // verus!
