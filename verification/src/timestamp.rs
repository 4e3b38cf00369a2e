//! Times of creation: a day and a time of day, without a time zone, as the
//! store's `TIMESTAMP` columns hold them.

use vstd::prelude::*;

verus! {

/// The Julian day number of the first day that a timestamp can hold,
/// 1 January of the year -9999.
pub const MIN_JULIAN_DAY: i32 = -1_930_999;

/// The Julian day number of the last day that a timestamp can hold,
/// 31 December of the year 9999.
pub const MAX_JULIAN_DAY: i32 = 5_373_484;

/// The mathematical value of a [`Timestamp`].
pub struct TimestampView {
    pub julian_day: i32,
    pub hour: u8,
    pub minute: u8,
    pub second: u8,
    pub nanosecond: u32,
}

impl TimestampView {
    /// Whether the day is one that a timestamp can hold and the time is a
    /// time of day.
    pub open spec fn in_range(self) -> bool {
        &&& MIN_JULIAN_DAY <= self.julian_day <= MAX_JULIAN_DAY
        &&& self.hour < 24
        &&& self.minute < 60
        &&& self.second < 60
        &&& self.nanosecond < 1_000_000_000
    }

    /// The text of the timestamp.
    pub open spec fn text(self) -> Seq<char> {
        timestamp_text(self.julian_day, self.hour, self.minute, self.second, self.nanosecond)
    }
}

/// The text that the database driver's date-time type gives for the day
/// `julian_day` and the time of day `hour:minute:second` and `nanosecond`.
pub uninterp spec fn timestamp_text(
    julian_day: i32,
    hour: u8,
    minute: u8,
    second: u8,
    nanosecond: u32,
) -> Seq<char>;

/// `to_string` of `sqlx::types::time::PrimitiveDateTime`, on the value that
/// `PrimitiveDateTime::new` makes of the date from `Date::from_julian_day`
/// and the time from `Time::from_hms_nano`. Trusted: the text depends on the
/// five numbers alone. The two constructors refuse numbers out of range,
/// which the precondition leaves out.
#[verifier::external_body]
fn format_timestamp(julian_day: i32, hour: u8, minute: u8, second: u8, nanosecond: u32) -> (text:
    String)
    requires
        (TimestampView { julian_day, hour, minute, second, nanosecond }).in_range(),
    ensures
        text@ == timestamp_text(julian_day, hour, minute, second, nanosecond),
{
    let date = sqlx::types::time::Date::from_julian_day(julian_day).unwrap();
    let time = sqlx::types::time::Time::from_hms_nano(hour, minute, second, nanosecond).unwrap();
    sqlx::types::time::PrimitiveDateTime::new(date, time).to_string()
}

/// A day and a time of day. The day is held as its Julian day number.
#[derive(Clone, Copy, PartialEq, Eq, Debug)]
pub struct Timestamp {
    julian_day: i32,
    hour: u8,
    minute: u8,
    second: u8,
    nanosecond: u32,
}

impl View for Timestamp {
    type V = TimestampView;

    closed spec fn view(&self) -> TimestampView {
        TimestampView {
            julian_day: self.julian_day,
            hour: self.hour,
            minute: self.minute,
            second: self.second,
            nanosecond: self.nanosecond,
        }
    }
}

impl Timestamp {
    #[verifier::type_invariant]
    spec fn in_range(self) -> bool {
        self@.in_range()
    }

    /// The timestamp of the given day and time of day, unless a number is
    /// out of range.
    pub fn new(julian_day: i32, hour: u8, minute: u8, second: u8, nanosecond: u32) -> (made: Option<
        Timestamp,
    >)
        ensures
            match made {
                Some(timestamp) => timestamp@ == (TimestampView {
                    julian_day,
                    hour,
                    minute,
                    second,
                    nanosecond,
                }) && timestamp@.in_range(),
                None => !(TimestampView { julian_day, hour, minute, second, nanosecond }).in_range(),
            },
    {
        if MIN_JULIAN_DAY <= julian_day && julian_day <= MAX_JULIAN_DAY && hour < 24 && minute < 60
            && second < 60 && nanosecond < 1_000_000_000 {
            Some(Timestamp { julian_day, hour, minute, second, nanosecond })
        } else {
            None
        }
    }

    /// The value of midnight of 1 January 1970.
    pub open spec fn epoch_view() -> TimestampView {
        TimestampView { julian_day: 2_440_588, hour: 0, minute: 0, second: 0, nanosecond: 0 }
    }

    /// Midnight of 1 January 1970.
    pub fn epoch() -> (timestamp: Timestamp)
        ensures
            timestamp@ == Timestamp::epoch_view(),
    {
        Timestamp { julian_day: 2_440_588, hour: 0, minute: 0, second: 0, nanosecond: 0 }
    }

    /// The Julian day number of the day.
    pub fn julian_day(&self) -> (julian_day: i32)
        ensures
            julian_day == self@.julian_day,
            self@.in_range(),
    {
        proof {
            use_type_invariant(self);
        }
        self.julian_day
    }

    /// The hour of the day.
    pub fn hour(&self) -> (hour: u8)
        ensures
            hour == self@.hour,
            self@.in_range(),
    {
        proof {
            use_type_invariant(self);
        }
        self.hour
    }

    /// The minute of the hour.
    pub fn minute(&self) -> (minute: u8)
        ensures
            minute == self@.minute,
            self@.in_range(),
    {
        proof {
            use_type_invariant(self);
        }
        self.minute
    }

    /// The second of the minute.
    pub fn second(&self) -> (second: u8)
        ensures
            second == self@.second,
            self@.in_range(),
    {
        proof {
            use_type_invariant(self);
        }
        self.second
    }

    /// The nanosecond of the second.
    pub fn nanosecond(&self) -> (nanosecond: u32)
        ensures
            nanosecond == self@.nanosecond,
            self@.in_range(),
    {
        proof {
            use_type_invariant(self);
        }
        self.nanosecond
    }

    /// The text of the timestamp, as the database driver writes it.
    pub fn to_text(&self) -> (text: String)
        ensures
            text@ == self@.text(),
    {
        proof {
            use_type_invariant(self);
        }
        format_timestamp(self.julian_day, self.hour, self.minute, self.second, self.nanosecond)
    }
}

} // verus!
