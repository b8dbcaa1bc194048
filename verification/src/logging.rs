//! How the log output is styled, from the environment variables that
//! control it.

use vstd::prelude::*;

verus! {

/// A switch given by an environment variable is on when the variable is set
/// to anything but `0` (compared without regard to ASCII case).
pub open spec fn switch_on(value: Option<Seq<u8>>) -> bool {
    match value {
        Some(v) => v != seq![0x30u8],
        None => false,
    }
}

/// Whether an environment switch, given by the bytes of its value if it is
/// set, is on.
pub fn env_switch_on(value: Option<&[u8]>) -> (on: bool)
    ensures
        on == switch_on(
            match value {
                Some(v) => Some(v@),
                None => None,
            },
        ),
{
    match value {
        Some(v) => {
            if v.len() == 1 && v[0] == 0x30u8 {
                proof {
                    assert(v@ =~= seq![0x30u8]);
                }
                false
            } else {
                proof {
                    assert(v@.len() != 1 || v@[0] != 0x30u8);
                    assert(v@ != seq![0x30u8]);
                }
                true
            }
        },
        None => false,
    }
}

/// The style of the log output.
#[derive(Debug, Clone, Copy, PartialEq, Eq, Structural, Hash)]
pub enum LogStyle {
    /// Human-readable lines with colours.
    Coloured,
    /// Human-readable lines without colours.
    Plain,
    /// JSON lines, which the logger does not offer.
    Json,
}

/// The log style for the colour switch (`NO_COLOR`) and the JSON switch:
/// JSON whenever it is asked for, otherwise coloured unless colours are
/// switched off.
pub fn log_style(no_color: bool, json_log: bool) -> (s: LogStyle)
    ensures
        json_log ==> s == LogStyle::Json,
        !json_log && no_color ==> s == LogStyle::Plain,
        !json_log && !no_color ==> s == LogStyle::Coloured,
{
    match (no_color, json_log) {
        (false, false) => LogStyle::Coloured,
        (true, false) => LogStyle::Plain,
        (_, true) => LogStyle::Json,
    }
}

/// An unset switch is off, a switch set to `0` is off, and a switch set to
/// any other value (the empty one too) is on.
pub proof fn lemma_switch_values(v: Seq<u8>)
    ensures
        !switch_on(None),
        !switch_on(Some(seq![48u8])),
        v.len() != 1 ==> switch_on(Some(v)),
        v.len() == 1 && v[0] != 48 ==> switch_on(Some(v)),
{
    if v.len() == 1 && v[0] != 48 {
        assert(v[0] != seq![48u8][0]);
    }
}

} // verus!
