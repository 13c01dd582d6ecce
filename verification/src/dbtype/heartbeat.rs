//! Heartbeat periods for retrieving database changes indefinitely.

use vstd::prelude::*;
use vstd::string::*;
use crate::numeric::{decimal, decimal_string};

verus! {

/// A span of time, held as its whole seconds and the nanoseconds past them.
///
/// A period is made from a `std::time::Duration`; it keeps the two numbers
/// that the duration reports, so that what is printed of it can be stated.
#[derive(Clone, Copy, Debug, Eq, PartialEq, Structural)]
pub struct Period {
    secs: u64,
    nanos: u32,
}

impl View for Period {
    type V = (u64, u32);

    /// The whole seconds and the nanoseconds past them.
    closed spec fn view(&self) -> (u64, u32) {
        (self.secs, self.nanos)
    }
}

impl Period {
    /// The period of `secs` seconds and `nanos` nanoseconds.
    pub fn new(secs: u64, nanos: u32) -> (r: Self)
        requires
            nanos < 1_000_000_000,
        ensures
            r@ == (secs, nanos),
    {
        Period { secs, nanos }
    }

    /// The period of a duration: its whole seconds and the nanoseconds past
    /// them, as the duration reports them.
    pub fn from_duration(d: &std::time::Duration) -> (r: Self)
        ensures
            r@ == (duration_secs_of(*d), duration_nanos_of(*d)),
            r@.1 < 1_000_000_000,
    {
        Period { secs: duration_secs(d), nanos: duration_subsec_nanos(d) }
    }

    /// The whole seconds.
    pub fn as_secs(&self) -> (r: u64)
        ensures
            r == self@.0,
    {
        self.secs
    }

    /// The nanoseconds past the whole seconds.
    pub fn subsec_nanos(&self) -> (r: u32)
        ensures
            r == self@.1,
    {
        self.nanos
    }
}

impl From<std::time::Duration> for Period {
    fn from(d: std::time::Duration) -> (r: Self)
        ensures
            r@ == (duration_secs_of(d), duration_nanos_of(d)),
            r@.1 < 1_000_000_000,
    {
        Period::from_duration(&d)
    }
}

impl vstd::std_specs::convert::FromSpecImpl<std::time::Duration> for Period {
    open spec fn obeys_from_spec() -> bool {
        false
    }

    open spec fn from_spec(v: std::time::Duration) -> Self {
        arbitrary()
    }
}

/// A heartbeat specifies a duration and is used to continue retrieving
/// database changes indefinitely.
#[derive(Debug, Eq, PartialEq)]
pub enum Heartbeat {
    /// Use the server's default heartbeat period.
    Default,
    /// Use the given duration as the heartbeat period.
    Duration(Period),
}

/// The whole seconds of a duration, as `Duration::as_secs` reports them.
pub uninterp spec fn duration_secs_of(d: std::time::Duration) -> u64;

/// The nanoseconds past the whole seconds of a duration, as
/// `Duration::subsec_nanos` reports them.
pub uninterp spec fn duration_nanos_of(d: std::time::Duration) -> u32;

/// The whole seconds of a duration (`Duration::as_secs`), named by
/// `duration_secs_of`: a function of the duration alone.
#[verifier::external_body]
fn duration_secs(d: &std::time::Duration) -> (r: u64)
    ensures
        r == duration_secs_of(*d),
{
    d.as_secs()
}

/// The nanoseconds past the whole seconds of a duration
/// (`Duration::subsec_nanos`), named by `duration_nanos_of`; its
/// documentation puts them below one billion.
#[verifier::external_body]
fn duration_subsec_nanos(d: &std::time::Duration) -> (r: u32)
    ensures
        r == duration_nanos_of(*d),
        r < 1_000_000_000,
{
    d.subsec_nanos()
}

/// The whole milliseconds of a duration of `secs` seconds and `nanos`
/// nanoseconds.
pub open spec fn millis(secs: u64, nanos: u32) -> nat {
    (1000 * secs + nanos / 1_000_000) as nat
}

/// The heartbeat text of a duration of `secs` seconds and `nanos`
/// nanoseconds: its whole milliseconds in decimal.
pub fn millis_text(secs: u64, nanos: u32) -> (r: String)
    ensures
        r@ == decimal(millis(secs, nanos)),
{
    let ms: u128 = 1000 * (secs as u128) + (nanos / 1_000_000) as u128;
    decimal_string(ms)
}

impl Default for Heartbeat {
    fn default() -> (r: Self)
        ensures
            r matches Heartbeat::Default,
    {
        Heartbeat::Default
    }
}

impl Heartbeat {
    /// The heartbeat as its `Display` form prints it: `true` for the server's
    /// default, else the period in whole milliseconds.
    pub fn to_string(&self) -> (r: String)
        ensures
            self matches Heartbeat::Default ==> r@ == "true"@,
            self matches Heartbeat::Duration(p) ==> r@ == decimal(millis(p@.0, p@.1)),
    {
        match self {
            Heartbeat::Default => "true".to_string(),
            Heartbeat::Duration(p) => millis_text(p.secs, p.nanos),
        }
    }
}

impl From<std::time::Duration> for Heartbeat {
    fn from(duration: std::time::Duration) -> (r: Self)
        ensures
            r matches Heartbeat::Duration(p) && p@ == (
                duration_secs_of(duration),
                duration_nanos_of(duration),
            ),
    {
        Heartbeat::Duration(Period::from_duration(&duration))
    }
}

impl vstd::std_specs::convert::FromSpecImpl<std::time::Duration> for Heartbeat {
    open spec fn obeys_from_spec() -> bool {
        false
    }

    open spec fn from_spec(v: std::time::Duration) -> Self {
        arbitrary()
    }
}

} // verus!
