use vstd::prelude::*;

verus! {

// The current-date capability. The clock itself is outside: nothing
// can be promised about which moment the calls below observe. What a
// given moment's fields are is named once per accessor, so whatever
// the clock supplies, the record assembled from it is pinned exactly;
// the decision logic around the calls is verified for every outcome.

/// Calendar fields of one moment, at second precision.
#[derive(Clone, Copy, Debug, PartialEq, Eq, Structural)]
pub struct DateFields {
    pub year: i32,
    pub month: u8,
    pub day: u8,
    pub hour: u8,
    pub minute: u8,
    pub second: u8,
}

impl DateFields {
    /// The documented ranges of calendar fields.
    pub open spec fn wf(self) -> bool {
        &&& 1 <= self.month <= 12
        &&& 1 <= self.day <= 31
        &&& self.hour < 24
        &&& self.minute < 60
        &&& self.second < 60
    }
}

#[verifier::external_type_specification]
#[verifier::external_body]
pub struct ExOffsetDateTime(time::OffsetDateTime);

#[verifier::external_type_specification]
#[verifier::external_body]
pub struct ExUtcOffset(time::UtcOffset);

/// The calendar year a moment falls in, at its stored offset. Each of
/// these six readings is a function of the moment alone.
pub uninterp spec fn year_of_moment(dt: time::OffsetDateTime) -> i32;

/// The month code (1..=12) of a moment, at its stored offset.
pub uninterp spec fn month_of_moment(dt: time::OffsetDateTime) -> u8;

/// The day of the month (1..=31) of a moment, at its stored offset.
pub uninterp spec fn day_of_moment(dt: time::OffsetDateTime) -> u8;

/// The clock hour (0..24) of a moment, at its stored offset.
pub uninterp spec fn hour_of_moment(dt: time::OffsetDateTime) -> u8;

/// The minute (0..60) of a moment, at its stored offset.
pub uninterp spec fn minute_of_moment(dt: time::OffsetDateTime) -> u8;

/// The second (0..60) of a moment, at its stored offset.
pub uninterp spec fn second_of_moment(dt: time::OffsetDateTime) -> u8;

/// All calendar fields of a moment, as the accessors read them.
pub open spec fn moment_fields(dt: time::OffsetDateTime) -> DateFields {
    DateFields {
        year: year_of_moment(dt),
        month: month_of_moment(dt),
        day: day_of_moment(dt),
        hour: hour_of_moment(dt),
        minute: minute_of_moment(dt),
        second: second_of_moment(dt),
    }
}

/// Relies on time::UtcOffset::from_hms: a whole-hour offset is valid
/// exactly for hours in -25..=25.
#[verifier::external_body]
fn utc_offset_from_hours(hours: i8) -> (r: Option<time::UtcOffset>)
    ensures
        r is Some <==> -25 <= hours <= 25,
{
    time::UtcOffset::from_hms(hours, 0, 0).ok()
}

/// Relies on time::OffsetDateTime::now_utc: the current moment in UTC.
#[verifier::external_body]
fn now_utc() -> (r: time::OffsetDateTime) {
    time::OffsetDateTime::now_utc()
}

/// Relies on time::OffsetDateTime::now_local: the current moment at
/// the local offset, when that offset can be determined.
#[verifier::external_body]
fn now_local() -> (r: Option<time::OffsetDateTime>) {
    time::OffsetDateTime::now_local().ok()
}

/// Relies on time::OffsetDateTime::checked_to_offset: the same moment
/// viewed at the given offset, or `None` when the shifted moment would
/// leave the supported year range (the unchecked variant panics there).
#[verifier::external_body]
fn to_offset(dt: &time::OffsetDateTime, offset: time::UtcOffset) -> (r: Option<
    time::OffsetDateTime,
>) {
    (*dt).checked_to_offset(offset)
}

/// Relies on time::OffsetDateTime::year: the moment's calendar year.
#[verifier::external_body]
fn year_of(dt: &time::OffsetDateTime) -> (r: i32)
    ensures
        r == year_of_moment(*dt),
{
    (*dt).year()
}

/// Relies on time::OffsetDateTime::month: month codes run 1..=12.
#[verifier::external_body]
fn month_of(dt: &time::OffsetDateTime) -> (r: u8)
    ensures
        r == month_of_moment(*dt),
        1 <= r <= 12,
{
    (*dt).month() as u8
}

/// Relies on time::OffsetDateTime::day: always in 1..=31.
#[verifier::external_body]
fn day_of(dt: &time::OffsetDateTime) -> (r: u8)
    ensures
        r == day_of_moment(*dt),
        1 <= r <= 31,
{
    (*dt).day()
}

/// Relies on time::OffsetDateTime::hour: always in 0..24.
#[verifier::external_body]
fn hour_of(dt: &time::OffsetDateTime) -> (r: u8)
    ensures
        r == hour_of_moment(*dt),
        r < 24,
{
    (*dt).hour()
}

/// Relies on time::OffsetDateTime::minute: always in 0..60.
#[verifier::external_body]
fn minute_of(dt: &time::OffsetDateTime) -> (r: u8)
    ensures
        r == minute_of_moment(*dt),
        r < 60,
{
    (*dt).minute()
}

/// Relies on time::OffsetDateTime::second: always in 0..60.
#[verifier::external_body]
fn second_of(dt: &time::OffsetDateTime) -> (r: u8)
    ensures
        r == second_of_moment(*dt),
        r < 60,
{
    (*dt).second()
}

/// Reads all calendar fields of one moment: exactly the moment's
/// fields, each within its documented range.
fn fields_of(dt: &time::OffsetDateTime) -> (r: DateFields)
    ensures
        r == moment_fields(*dt),
        r.wf(),
{
    DateFields {
        year: year_of(dt),
        month: month_of(dt),
        day: day_of(dt),
        hour: hour_of(dt),
        minute: minute_of(dt),
        second: second_of(dt),
    }
}

/// The current calendar fields. With an hour offset supplied, the UTC
/// moment is viewed at that fixed offset; the offset is reduced to a
/// signed byte first, and an invalid reduced offset yields `None`, as
/// does a shifted moment outside the supported years. Without an
/// offset, the local offset is used, and `None` is returned when it
/// cannot be determined. Whatever moment the clock supplies, the
/// result is exactly that moment's calendar fields.
pub fn today_fields(offset_hours: Option<i64>) -> (r: Option<DateFields>)
    ensures
        offset_hours matches Some(h) ==> (r is Some ==> -25 <= (h as i8) <= 25),
        offset_hours matches Some(h) ==> (!(-25 <= (h as i8) <= 25) ==> r is None),
        r matches Some(f) ==> f.wf(),
        r matches Some(f) ==> exists|dt: time::OffsetDateTime| f == #[trigger] moment_fields(dt),
{
    match offset_hours {
        Some(h) => {
            let hb = #[verifier::truncate] (h as i8);
            match utc_offset_from_hours(hb) {
                Some(off) => {
                    let now = now_utc();
                    match to_offset(&now, off) {
                        Some(shifted) => {
                            let f = fields_of(&shifted);
                            proof {
                                assert(f == moment_fields(shifted));
                            }
                            Some(f)
                        },
                        None => None,
                    }
                },
                None => None,
            }
        },
        None => {
            match now_local() {
                Some(now) => {
                    let f = fields_of(&now);
                    proof {
                        assert(f == moment_fields(now));
                    }
                    Some(f)
                },
                None => None,
            }
        },
    }
}

} // verus!
