//! Types used across endpoints.

use vstd::prelude::*;
use crate::api::params::ParamValue;
use crate::bindings::dates::{
    date_exists, date_format, date_text, timestamp_format, timestamp_text,
};
use crate::bindings::weburl::{url_as_str, url_text};

verus! {

/// The HTTP method of a request.
#[derive(Debug, Clone, Copy, PartialEq, Eq, Structural)]
pub enum Method {
    Get,
    Post,
    Put,
    Delete,
    Head,
    Options,
    Patch,
}

impl Method {
    /// The method's name as it stands on the request line.
    pub open spec fn spec_name(self) -> Seq<char> {
        match self {
            Method::Get => "GET"@,
            Method::Post => "POST"@,
            Method::Put => "PUT"@,
            Method::Delete => "DELETE"@,
            Method::Head => "HEAD"@,
            Method::Options => "OPTIONS"@,
            Method::Patch => "PATCH"@,
        }
    }

    /// The method's name as it stands on the request line.
    pub fn name(&self) -> (s: &'static str)
        ensures
            s@ == self.spec_name(),
    {
        match self {
            Method::Get => "GET",
            Method::Post => "POST",
            Method::Put => "PUT",
            Method::Delete => "DELETE",
            Method::Head => "HEAD",
            Method::Options => "OPTIONS",
            Method::Patch => "PATCH",
        }
    }
}

/// A flag that the service reads as `yes` or `no`.
#[derive(Debug, Clone, Copy, PartialEq, Eq, Structural)]
pub enum YesNo {
    /// Yes
    Yes,
    /// No
    No,
}

impl Default for YesNo {
    fn default() -> (r: YesNo)
        ensures
            r == YesNo::No,
    {
        YesNo::No
    }
}

impl YesNo {
    /// `Yes` for `true`, `No` for `false`.
    pub fn from_bool(flag: bool) -> (r: YesNo)
        ensures
            r == if flag {
                YesNo::Yes
            } else {
                YesNo::No
            },
    {
        if flag {
            YesNo::Yes
        } else {
            YesNo::No
        }
    }
}

impl ParamValue for YesNo {
    open spec fn value_text(&self) -> Seq<char> {
        match self {
            YesNo::Yes => "yes"@,
            YesNo::No => "no"@,
        }
    }

    fn as_value(&self) -> (s: String) {
        match self {
            YesNo::Yes => String::from_str("yes"),
            YesNo::No => String::from_str("no"),
        }
    }
}

/// A calendar date.
///
/// Only the dates that exist, in the years that `chrono` holds, can be
/// built.
#[derive(Debug, Clone, Copy, PartialEq, Eq)]
pub struct Date {
    year: i32,
    month: u32,
    day: u32,
}

impl Date {
    #[verifier::type_invariant]
    spec fn exists_in_calendar(self) -> bool {
        date_exists(self.year as int, self.month as int, self.day as int)
    }

    /// The year, month and day of the date.
    pub closed spec fn spec_ymd(self) -> (i32, u32, u32) {
        (self.year, self.month, self.day)
    }

    /// The date with the given year, month and day, where there is one.
    pub fn from_ymd_opt(year: i32, month: u32, day: u32) -> (r: Option<Date>)
        ensures
            r is Some <==> date_exists(year as int, month as int, day as int),
            r matches Some(d) ==> d.spec_ymd() == (year, month, day) && date_text(year, month, day)
                == Some(d.value_text()),
    {
        match date_format(year, month, day) {
            Some(_) => Some(Date { year, month, day }),
            None => None,
        }
    }

    /// The text of a date is that of its year, month and day.
    pub proof fn lemma_value_text(self)
        ensures
            self.value_text() == date_text(
                self.spec_ymd().0,
                self.spec_ymd().1,
                self.spec_ymd().2,
            ).unwrap(),
    {
    }

    /// The year of the date.
    pub fn year(&self) -> (y: i32)
        ensures
            y == self.spec_ymd().0,
    {
        self.year
    }

    /// The month of the date, from 1.
    pub fn month(&self) -> (m: u32)
        ensures
            m == self.spec_ymd().1,
    {
        self.month
    }

    /// The day of the month, from 1.
    pub fn day(&self) -> (d: u32)
        ensures
            d == self.spec_ymd().2,
    {
        self.day
    }
}

impl ParamValue for Date {
    /// The date as `YYYY-MM-DD`: see [`date_text`].
    closed spec fn value_text(&self) -> Seq<char> {
        date_text(self.year, self.month, self.day).unwrap()
    }

    fn as_value(&self) -> (s: String) {
        proof {
            use_type_invariant(self);
        }
        match date_format(self.year, self.month, self.day) {
            Some(s) => s,
            // Not reached: the date exists.
            None => String::new(),
        }
    }
}

/// An instant in UTC, as seconds and nanoseconds since the Unix epoch.
///
/// Only the instants that `chrono` can represent can be built.
#[derive(Debug, Clone, Copy, PartialEq, Eq)]
pub struct Timestamp {
    secs: i64,
    nanos: u32,
}

impl Timestamp {
    #[verifier::type_invariant]
    spec fn representable(self) -> bool {
        timestamp_text(self.secs, self.nanos) is Some
    }

    /// The seconds and nanoseconds of the instant.
    pub closed spec fn spec_parts(self) -> (i64, u32) {
        (self.secs, self.nanos)
    }

    /// The instant `secs` seconds and `nanos` nanoseconds after the epoch,
    /// where it can be represented.
    pub fn from_timestamp(secs: i64, nanos: u32) -> (r: Option<Timestamp>)
        ensures
            r is Some <==> timestamp_text(secs, nanos) is Some,
            r matches Some(t) ==> t.spec_parts() == (secs, nanos) && timestamp_text(secs, nanos)
                == Some(t.value_text()),
    {
        match timestamp_format(secs, nanos) {
            Some(_) => Some(Timestamp { secs, nanos }),
            None => None,
        }
    }

    /// Whole seconds since the epoch.
    pub fn timestamp(&self) -> (s: i64)
        ensures
            s == self.spec_parts().0,
    {
        self.secs
    }

    /// Nanoseconds past the whole second.
    pub fn timestamp_subsec_nanos(&self) -> (n: u32)
        ensures
            n == self.spec_parts().1,
    {
        self.nanos
    }
}

impl ParamValue for Timestamp {
    /// The instant in RFC 3339 form, to the second, ending in `Z`, written
    /// by `chrono`.
    closed spec fn value_text(&self) -> Seq<char> {
        timestamp_text(self.secs, self.nanos).unwrap()
    }

    fn as_value(&self) -> (s: String) {
        proof {
            use_type_invariant(self);
        }
        match timestamp_format(self.secs, self.nanos) {
            Some(s) => s,
            // Not reached: the instant can be represented.
            None => String::new(),
        }
    }
}

impl<'a> ParamValue for &'a url::Url {
    /// The serialization of the URL.
    open spec fn value_text(&self) -> Seq<char> {
        url_text(**self)
    }

    fn as_value(&self) -> (s: String) {
        String::from_str(url_as_str(*self))
    }
}

} // verus!
