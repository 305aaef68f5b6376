//! Settings the bot reads at start-up.
use vstd::prelude::*;
use crate::text::{equals_folded, equals_ignoring_ascii_case};

verus! {

/// How much the bot logs.
#[derive(Debug, Clone, Copy, PartialEq, Eq, Structural)]
pub enum LogLevel {
    Off,
    Error,
    Warn,
    Info,
    Debug,
    Trace,
}

/// The level a setting names, its ASCII letters read in either case:
/// `trace`, `debug`, `info`, `warn`, `error`, and `none` or `off` (no
/// logging); any other text names none.
pub open spec fn level_named(s: Seq<char>) -> Option<LogLevel> {
    if equals_folded(s, "trace"@) {
        Some(LogLevel::Trace)
    } else if equals_folded(s, "debug"@) {
        Some(LogLevel::Debug)
    } else if equals_folded(s, "info"@) {
        Some(LogLevel::Info)
    } else if equals_folded(s, "warn"@) {
        Some(LogLevel::Warn)
    } else if equals_folded(s, "error"@) {
        Some(LogLevel::Error)
    } else if equals_folded(s, "none"@) || equals_folded(s, "off"@) {
        Some(LogLevel::Off)
    } else {
        None
    }
}

/// The log level a setting gives: when the setting is absent, everything in
/// a debug build and `Info` otherwise; when present, the level it names
/// (`None` when it names none).
pub open spec fn log_level_setting(value: Option<Seq<char>>, debug_build: bool) -> Option<LogLevel> {
    match value {
        None => Some(
            if debug_build {
                LogLevel::Trace
            } else {
                LogLevel::Info
            },
        ),
        Some(s) => level_named(s),
    }
}

/// The log level set by the value of the log level setting (`None` when it
/// is not set), in a debug build or not; `None` when the value names no level.
pub fn get_log_level(value: Option<&str>, debug_build: bool) -> (r: Option<LogLevel>)
    ensures
        r == log_level_setting(
            match value {
                Some(s) => Some(s@),
                None => None,
            },
            debug_build,
        ),
{
    match value {
        None => Some(
            if debug_build {
                LogLevel::Trace
            } else {
                LogLevel::Info
            },
        ),
        Some(level) => {
            if equals_ignoring_ascii_case(level, "trace") {
                Some(LogLevel::Trace)
            } else if equals_ignoring_ascii_case(level, "debug") {
                Some(LogLevel::Debug)
            } else if equals_ignoring_ascii_case(level, "info") {
                Some(LogLevel::Info)
            } else if equals_ignoring_ascii_case(level, "warn") {
                Some(LogLevel::Warn)
            } else if equals_ignoring_ascii_case(level, "error") {
                Some(LogLevel::Error)
            } else if equals_ignoring_ascii_case(level, "none") || equals_ignoring_ascii_case(level, "off") {
                Some(LogLevel::Off)
            } else {
                None
            }
        },
    }
}


/// The name a level is set by, in lower case.
pub open spec fn level_name(level: LogLevel) -> Seq<char> {
    match level {
        LogLevel::Trace => "trace"@,
        LogLevel::Debug => "debug"@,
        LogLevel::Info => "info"@,
        LogLevel::Warn => "warn"@,
        LogLevel::Error => "error"@,
        LogLevel::Off => "none"@,
    }
}

/// Every level can be set by its name (`none` for no logging): the name of a
/// level reads back as that very level.
pub proof fn law_level_names_round_trip(level: LogLevel)
    ensures
        level_named(level_name(level)) == Some(level),
{
    reveal_strlit("trace");
    reveal_strlit("debug");
    reveal_strlit("info");
    reveal_strlit("warn");
    reveal_strlit("error");
    reveal_strlit("none");
    reveal_strlit("off");
    let name = level_name(level);
    assert(equals_folded(name, name));
    if level != LogLevel::Trace {
        assert(!equals_folded(name, "trace"@)) by {
            if name.len() == 5 {
                assert(name[0] != 't' || name[1] != 'r');
            }
        }
    }
    if level != LogLevel::Trace && level != LogLevel::Debug {
        assert(!equals_folded(name, "debug"@)) by {
            if name.len() == 5 {
                assert(name[0] != 'd');
            }
        }
    }
    if level == LogLevel::Warn || level == LogLevel::Error || level == LogLevel::Off {
        assert(!equals_folded(name, "info"@)) by {
            if name.len() == 4 {
                assert(name[0] != 'i');
            }
        }
    }
    if level == LogLevel::Error || level == LogLevel::Off {
        assert(!equals_folded(name, "warn"@)) by {
            if name.len() == 4 {
                assert(name[0] != 'w');
            }
        }
    }
    if level == LogLevel::Off {
        assert(!equals_folded(name, "error"@));
    }
}

/// Lower-casing is a function: a text folds to at most one word.
proof fn lemma_fold_unique(s: Seq<char>, w1: Seq<char>, w2: Seq<char>)
    requires
        equals_folded(s, w1),
        equals_folded(s, w2),
    ensures
        w1 == w2,
{
    assert(w1 =~= w2) by {
        assert forall|i: int| 0 <= i < w1.len() implies w1[i] == w2[i] by {
            assert(crate::text::folds_to(s[i], w1[i]));
            assert(crate::text::folds_to(s[i], w2[i]));
        }
    }
}

/// The level names may be written in any mix of upper- and lower-case
/// letters: a text that differs from a level's name only in the case of
/// some of its letters sets that level.
pub proof fn law_level_names_any_case(level: LogLevel, s: Seq<char>)
    requires
        s.len() == level_name(level).len(),
        forall|i: int|
            0 <= i < s.len() ==> s[i] == #[trigger] level_name(level)[i] || (s[i] as int) + 32 == (
            level_name(level)[i] as int),
    ensures
        level_named(s) == Some(level),
{
    reveal_strlit("trace");
    reveal_strlit("debug");
    reveal_strlit("info");
    reveal_strlit("warn");
    reveal_strlit("error");
    reveal_strlit("none");
    reveal_strlit("off");
    let name = level_name(level);
    assert forall|i: int| 0 <= i < s.len() implies crate::text::folds_to(#[trigger] s[i], name[i]) by {
        assert('a' <= name[i] && name[i] <= 'z');
        if s[i] != name[i] {
            assert((s[i] as int) + 32 == (name[i] as int));
            assert('A' <= s[i] && s[i] <= 'Z');
            assert(((s[i] as int) + 32) as char == name[i]);
        }
    }
    assert(equals_folded(s, name));
    if equals_folded(s, "trace"@) {
        lemma_fold_unique(s, name, "trace"@);
        assert(name[0] == 't' && name[1] == 'r');
    }
    if equals_folded(s, "debug"@) {
        lemma_fold_unique(s, name, "debug"@);
        assert(name[0] == 'd' && name[1] == 'e');
    }
    if equals_folded(s, "info"@) {
        lemma_fold_unique(s, name, "info"@);
        assert(name[0] == 'i' && name[1] == 'n');
    }
    if equals_folded(s, "warn"@) {
        lemma_fold_unique(s, name, "warn"@);
        assert(name[0] == 'w' && name[1] == 'a');
    }
    if equals_folded(s, "error"@) {
        lemma_fold_unique(s, name, "error"@);
        assert(name[0] == 'e' && name[1] == 'r');
    }
}

} // verus!
