//! How long a container has been up, as the short text shown in listings.

use vstd::prelude::*;
use vstd::string::*;
use crate::clock::{rfc3339_accepts, seconds_since};
use crate::output::OutputError;
use crate::text::{decimal, push_signed_decimal, signed_decimal};

verus! {

/// The text for an uptime of `secs` seconds: whole days, hours and minutes
/// as `1D 1H 3m`, without the days where there are none, and without the
/// hours too where there is less than one. Seconds are dropped. A negative
/// uptime, that of a start time that lies ahead, shows its minutes alone,
/// with their sign.
pub open spec fn uptime_text(secs: int) -> Seq<char> {
    if secs >= 86400 {
        decimal((secs / 86400) as nat) + "D "@ + decimal((secs / 3600 % 24) as nat) + "H "@
            + decimal((secs / 60 % 60) as nat) + "m"@
    } else if secs >= 3600 {
        decimal((secs / 3600) as nat) + "H "@ + decimal((secs / 60 % 60) as nat) + "m"@
    } else if secs >= 0 {
        decimal((secs / 60) as nat) + "m"@
    } else {
        signed_decimal(-((-secs) / 60 % 60)) + "m"@
    }
}

/// Renders an uptime of `secs` seconds.
pub fn uptime_from_seconds(secs: i64) -> (r: String)
    ensures
        r@ == uptime_text(secs as int),
{
    let days: i64 = secs / 86400;
    let hours: i64 = (secs / 3600) % 24;
    let minutes: i64 = (secs / 60) % 60;
    let mut out = String::new();
    if days > 0 {
        push_signed_decimal(&mut out, days);
        out.append("D ");
        push_signed_decimal(&mut out, hours);
        out.append("H ");
        push_signed_decimal(&mut out, minutes);
        out.append("m");
        assert(out@ =~= uptime_text(secs as int));
    } else if hours > 0 {
        push_signed_decimal(&mut out, hours);
        out.append("H ");
        push_signed_decimal(&mut out, minutes);
        out.append("m");
        assert(out@ =~= uptime_text(secs as int));
    } else {
        push_signed_decimal(&mut out, minutes);
        out.append("m");
        assert(out@ =~= uptime_text(secs as int));
    }
    out
}

/// Calculate uptime for a container that was started at `start_time`, a
/// date and time in the form of RFC 3339.
///
/// The clock is read here, so the text is that of some number of seconds
/// which the contract does not name; `uptime_from_seconds` says what it is
/// for each number.
pub fn calc_uptime(start_time: &str) -> (r: Result<String, OutputError>)
    ensures
        r is Ok <==> rfc3339_accepts(start_time@),
        r matches Ok(uptime) ==> exists|secs: i64| uptime@ == #[trigger] uptime_text(secs as int),
        r matches Err(e) ==> e == OutputError::InvalidStartTime,
{
    match seconds_since(start_time) {
        Ok(secs) => {
            let uptime = uptime_from_seconds(secs);
            assert(uptime@ == uptime_text(secs as int));
            Ok(uptime)
        },
        Err(_) => Err(OutputError::InvalidStartTime),
    }
}

} // verus!
