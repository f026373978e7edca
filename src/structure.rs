//! The schema: names of components, properties, parameters and value types.
use vstd::prelude::*;

verus! {

/// A calendar component, written between `BEGIN:` and `END:` lines.
pub trait Component {
    spec fn spec_name() -> Seq<char>;

    fn name() -> (r: &'static str)
        ensures
            r@ == Self::spec_name(),
    ;
}

/// A property, with the registered name of its default value type.
pub trait Property {
    spec fn spec_name() -> Seq<char>;

    spec fn spec_default_type() -> Seq<char>;

    fn name() -> (r: &'static str)
        ensures
            r@ == Self::spec_name(),
    ;

    fn default_value_type() -> (r: &'static str)
        ensures
            r@ == Self::spec_default_type(),
    ;
}

/// A property parameter, whose values are quoted or not.
pub trait Param {
    spec fn spec_name() -> Seq<char>;

    spec fn spec_quoted() -> bool;

    fn name() -> (r: &'static str)
        ensures
            r@ == Self::spec_name(),
    ;

    fn quoted() -> (r: bool)
        ensures
            r == Self::spec_quoted(),
    ;
}

/// A value type, with its registered name.
pub trait ValueType {
    spec fn spec_name() -> Seq<char>;

    fn name() -> (r: &'static str)
        ensures
            r@ == Self::spec_name(),
    ;
}

/// The iCalendar object, `VCALENDAR`.
pub struct ICalObject;

impl Component for ICalObject {
    open spec fn spec_name() -> Seq<char> {
        "VCALENDAR"@
    }

    fn name() -> (r: &'static str) {
        "VCALENDAR"
    }
}

/// An event, `VEVENT`.
pub struct EventC;

impl Component for EventC {
    open spec fn spec_name() -> Seq<char> {
        "VEVENT"@
    }

    fn name() -> (r: &'static str) {
        "VEVENT"
    }
}

/// A to-do, `VTODO`.
pub struct TodoC;

impl Component for TodoC {
    open spec fn spec_name() -> Seq<char> {
        "VTODO"@
    }

    fn name() -> (r: &'static str) {
        "VTODO"
    }
}

/// A journal entry, `VJOURNAL`.
pub struct JournalC;

impl Component for JournalC {
    open spec fn spec_name() -> Seq<char> {
        "VJOURNAL"@
    }

    fn name() -> (r: &'static str) {
        "VJOURNAL"
    }
}

/// Free or busy time, `VFREEBUSY`.
pub struct FreeBusyC;

impl Component for FreeBusyC {
    open spec fn spec_name() -> Seq<char> {
        "VFREEBUSY"@
    }

    fn name() -> (r: &'static str) {
        "VFREEBUSY"
    }
}

/// A time zone, `VTIMEZONE`.
pub struct TimeZoneC;

impl Component for TimeZoneC {
    open spec fn spec_name() -> Seq<char> {
        "VTIMEZONE"@
    }

    fn name() -> (r: &'static str) {
        "VTIMEZONE"
    }
}

/// Standard time within a time zone, `STANDARD`.
pub struct StandardC;

impl Component for StandardC {
    open spec fn spec_name() -> Seq<char> {
        "STANDARD"@
    }

    fn name() -> (r: &'static str) {
        "STANDARD"
    }
}

/// Daylight saving time within a time zone, `DAYLIGHT`.
pub struct DaylightC;

impl Component for DaylightC {
    open spec fn spec_name() -> Seq<char> {
        "DAYLIGHT"@
    }

    fn name() -> (r: &'static str) {
        "DAYLIGHT"
    }
}

/// An alarm, `VALARM`.
pub struct AlarmC;

impl Component for AlarmC {
    open spec fn spec_name() -> Seq<char> {
        "VALARM"@
    }

    fn name() -> (r: &'static str) {
        "VALARM"
    }
}

/// The BINARY value type.
pub struct Binary;

impl ValueType for Binary {
    open spec fn spec_name() -> Seq<char> {
        "BINARY"@
    }

    fn name() -> (r: &'static str) {
        "BINARY"
    }
}

/// The BOOLEAN value type.
pub struct Boolean;

impl ValueType for Boolean {
    open spec fn spec_name() -> Seq<char> {
        "BOOLEAN"@
    }

    fn name() -> (r: &'static str) {
        "BOOLEAN"
    }
}

/// The CAL-ADDRESS value type.
pub struct CalAddress;

impl ValueType for CalAddress {
    open spec fn spec_name() -> Seq<char> {
        "CAL-ADDRESS"@
    }

    fn name() -> (r: &'static str) {
        "CAL-ADDRESS"
    }
}

/// The DATE value type.
pub struct DateType;

impl ValueType for DateType {
    open spec fn spec_name() -> Seq<char> {
        "DATE"@
    }

    fn name() -> (r: &'static str) {
        "DATE"
    }
}

/// The DATE-TIME value type.
pub struct DateTimeType;

impl ValueType for DateTimeType {
    open spec fn spec_name() -> Seq<char> {
        "DATE-TIME"@
    }

    fn name() -> (r: &'static str) {
        "DATE-TIME"
    }
}

/// A DATE-TIME in its UTC form (as DTSTAMP requires).
pub struct DateTimeUtc;

impl ValueType for DateTimeUtc {
    open spec fn spec_name() -> Seq<char> {
        "DATE-TIME"@
    }

    fn name() -> (r: &'static str) {
        "DATE-TIME"
    }
}

/// The DURATION value type.
pub struct Duration;

impl ValueType for Duration {
    open spec fn spec_name() -> Seq<char> {
        "DURATION"@
    }

    fn name() -> (r: &'static str) {
        "DURATION"
    }
}

/// The FLOAT value type.
pub struct Float;

impl ValueType for Float {
    open spec fn spec_name() -> Seq<char> {
        "FLOAT"@
    }

    fn name() -> (r: &'static str) {
        "FLOAT"
    }
}

/// The INTEGER value type.
pub struct Integer;

impl ValueType for Integer {
    open spec fn spec_name() -> Seq<char> {
        "INTEGER"@
    }

    fn name() -> (r: &'static str) {
        "INTEGER"
    }
}

/// The PERIOD value type.
pub struct PeriodOfTime;

impl ValueType for PeriodOfTime {
    open spec fn spec_name() -> Seq<char> {
        "PERIOD"@
    }

    fn name() -> (r: &'static str) {
        "PERIOD"
    }
}

/// The RECUR value type.
pub struct RecurrenceRule;

impl ValueType for RecurrenceRule {
    open spec fn spec_name() -> Seq<char> {
        "RECUR"@
    }

    fn name() -> (r: &'static str) {
        "RECUR"
    }
}

/// The TEXT value type.
pub struct Text;

impl ValueType for Text {
    open spec fn spec_name() -> Seq<char> {
        "TEXT"@
    }

    fn name() -> (r: &'static str) {
        "TEXT"
    }
}

/// The TIME value type.
pub struct Time;

impl ValueType for Time {
    open spec fn spec_name() -> Seq<char> {
        "TIME"@
    }

    fn name() -> (r: &'static str) {
        "TIME"
    }
}

/// The URI value type.
pub struct Uri;

impl ValueType for Uri {
    open spec fn spec_name() -> Seq<char> {
        "URI"@
    }

    fn name() -> (r: &'static str) {
        "URI"
    }
}

/// The UTC-OFFSET value type.
pub struct UtcOffset;

impl ValueType for UtcOffset {
    open spec fn spec_name() -> Seq<char> {
        "UTC-OFFSET"@
    }

    fn name() -> (r: &'static str) {
        "UTC-OFFSET"
    }
}

/// The iCalendar version an object needs, `VERSION`.
pub struct Version;

impl Property for Version {
    open spec fn spec_name() -> Seq<char> {
        "VERSION"@
    }

    open spec fn spec_default_type() -> Seq<char> {
        "TEXT"@
    }

    fn name() -> (r: &'static str) {
        "VERSION"
    }

    fn default_value_type() -> (r: &'static str) {
        "TEXT"
    }
}

/// The product that made an object, `PRODID`.
pub struct ProdId;

impl Property for ProdId {
    open spec fn spec_name() -> Seq<char> {
        "PRODID"@
    }

    open spec fn spec_default_type() -> Seq<char> {
        "TEXT"@
    }

    fn name() -> (r: &'static str) {
        "PRODID"
    }

    fn default_value_type() -> (r: &'static str) {
        "TEXT"
    }
}

/// When the object was created, in UTC, `DTSTAMP`.
pub struct DateTimeStamp;

impl Property for DateTimeStamp {
    open spec fn spec_name() -> Seq<char> {
        "DTSTAMP"@
    }

    open spec fn spec_default_type() -> Seq<char> {
        "DATE-TIME"@
    }

    fn name() -> (r: &'static str) {
        "DTSTAMP"
    }

    fn default_value_type() -> (r: &'static str) {
        "DATE-TIME"
    }
}

/// When a component starts, `DTSTART`: a DATE-TIME, or a DATE.
pub struct DateTimeStart;

impl Property for DateTimeStart {
    open spec fn spec_name() -> Seq<char> {
        "DTSTART"@
    }

    open spec fn spec_default_type() -> Seq<char> {
        "DATE-TIME"@
    }

    fn name() -> (r: &'static str) {
        "DTSTART"
    }

    fn default_value_type() -> (r: &'static str) {
        "DATE-TIME"
    }
}

/// Whether an event takes up time, `TRANSP`.
pub struct TimeTransparency;

impl Property for TimeTransparency {
    open spec fn spec_name() -> Seq<char> {
        "TRANSP"@
    }

    open spec fn spec_default_type() -> Seq<char> {
        "TEXT"@
    }

    fn name() -> (r: &'static str) {
        "TRANSP"
    }

    fn default_value_type() -> (r: &'static str) {
        "TEXT"
    }
}

/// Dates of recurrence, `RDATE`: DATE-TIMEs, DATEs or PERIODs.
pub struct RecurrenceDateTimes;

impl Property for RecurrenceDateTimes {
    open spec fn spec_name() -> Seq<char> {
        "RDATE"@
    }

    open spec fn spec_default_type() -> Seq<char> {
        "DATE-TIME"@
    }

    fn name() -> (r: &'static str) {
        "RDATE"
    }

    fn default_value_type() -> (r: &'static str) {
        "DATE-TIME"
    }
}

/// Latitude and longitude, `GEO`: two FLOATs.
pub struct Geo;

impl Property for Geo {
    open spec fn spec_name() -> Seq<char> {
        "GEO"@
    }

    open spec fn spec_default_type() -> Seq<char> {
        "FLOAT"@
    }

    fn name() -> (r: &'static str) {
        "GEO"
    }

    fn default_value_type() -> (r: &'static str) {
        "FLOAT"
    }
}

/// A short summary, `SUMMARY`.
pub struct Summary;

impl Property for Summary {
    open spec fn spec_name() -> Seq<char> {
        "SUMMARY"@
    }

    open spec fn spec_default_type() -> Seq<char> {
        "TEXT"@
    }

    fn name() -> (r: &'static str) {
        "SUMMARY"
    }

    fn default_value_type() -> (r: &'static str) {
        "TEXT"
    }
}

/// A globally unique identifier, `UID`.
pub struct Uid;

impl Property for Uid {
    open spec fn spec_name() -> Seq<char> {
        "UID"@
    }

    open spec fn spec_default_type() -> Seq<char> {
        "TEXT"@
    }

    fn name() -> (r: &'static str) {
        "UID"
    }

    fn default_value_type() -> (r: &'static str) {
        "TEXT"
    }
}

/// The VALUE parameter, which names the value type of a property's value
/// where that is not the property's default.
pub struct Value;

impl Param for Value {
    open spec fn spec_name() -> Seq<char> {
        "VALUE"@
    }

    open spec fn spec_quoted() -> bool {
        false
    }

    fn name() -> (r: &'static str) {
        "VALUE"
    }

    fn quoted() -> (r: bool) {
        false
    }
}

} // verus!
