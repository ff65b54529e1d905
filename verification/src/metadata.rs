//! The settings that a caller sends with a request, as text under text keys,
//! and what they must hold to be accepted.

use vstd::hash_map::StringHashMap;
use vstd::prelude::*;
use vstd::string::StringExecFns;

use crate::bridge::parse_time;
use crate::bridge::time_from_text;
use crate::calendar::TimeOfDay;
use crate::text::parse_u32;
use crate::text::parse_u8;
use crate::text::unsigned_from_text;

verus! {

/// The settings that the library reads.
#[derive(Clone, Copy, Debug, PartialEq, Eq, Structural)]
pub enum MetadataField {
    /// Which working day of the month the caller waits for.
    NthWorkingDay,
    /// The time of day from which the caller is active.
    FromTime,
    /// The time of day until which the caller is active.
    ToTime,
    /// The size that the caller scales to.
    TargetSize,
}

impl MetadataField {
    /// The key that the setting stands under.
    pub open spec fn key(self) -> Seq<char> {
        match self {
            MetadataField::NthWorkingDay => "nthWorkingDay"@,
            MetadataField::FromTime => "fromTime"@,
            MetadataField::ToTime => "toTime"@,
            MetadataField::TargetSize => "targetSize"@,
        }
    }

    /// What the setting has to hold, in words.
    pub open spec fn expectation(self) -> Seq<char> {
        match self {
            MetadataField::NthWorkingDay => "a value between 1 and 31"@,
            MetadataField::FromTime => "an time formatted as `%H:%M:%S`"@,
            MetadataField::ToTime => "an time formatted as `%H:%M:%S`"@,
            MetadataField::TargetSize => "an integer value"@,
        }
    }

    /// The key that the setting stands under.
    pub fn name(&self) -> (name: &'static str)
        ensures
            name@ == self.key(),
    {
        match self {
            MetadataField::NthWorkingDay => "nthWorkingDay",
            MetadataField::FromTime => "fromTime",
            MetadataField::ToTime => "toTime",
            MetadataField::TargetSize => "targetSize",
        }
    }

    /// What the setting has to hold, in words.
    pub fn expected(&self) -> (words: &'static str)
        ensures
            words@ == self.expectation(),
    {
        match self {
            MetadataField::NthWorkingDay => "a value between 1 and 31",
            MetadataField::FromTime => "an time formatted as `%H:%M:%S`",
            MetadataField::ToTime => "an time formatted as `%H:%M:%S`",
            MetadataField::TargetSize => "an integer value",
        }
    }
}

/// What kind of text a malformed setting should have been.
#[derive(Clone, Copy, Debug, PartialEq, Eq, Structural)]
pub enum FormatReason {
    /// The text is not a whole number that the setting can hold.
    NotAnInteger,
    /// The text is not a time of day written as hours, minutes and seconds.
    NotATimeOfDay,
}

/// Why the settings of a request are not accepted.
#[derive(Clone, Copy, Debug, PartialEq, Eq, Structural)]
pub enum MetadataError {
    /// The setting is not there.
    MissingMetadata(MetadataField),
    /// The setting is there, but its text cannot be read.
    InvalidMetadataFormat(MetadataField, FormatReason),
    /// The setting can be read, but its value is larger than allowed.
    MetadataOutOfRange(MetadataField),
}

impl MetadataError {
    /// The setting that the error is about.
    pub open spec fn field(self) -> MetadataField {
        match self {
            MetadataError::MissingMetadata(field) => field,
            MetadataError::InvalidMetadataFormat(field, _) => field,
            MetadataError::MetadataOutOfRange(field) => field,
        }
    }

    /// The error in words: it names the setting, and says either that it is
    /// missing or what it should have been.
    pub open spec fn message(self) -> Seq<char> {
        match self {
            MetadataError::MissingMetadata(field) => "Missing required metadata `"@ + field.key()
                + "`."@,
            _ => "Metadata `"@ + self.field().key() + "` should be "@ + self.field().expectation()
                + "."@,
        }
    }

    /// The error in words.
    pub fn to_string(&self) -> (text: String)
        ensures
            text@ == self.message(),
    {
        match self {
            MetadataError::MissingMetadata(field) => {
                let mut text = String::from_str("Missing required metadata `");
                text.append(field.name());
                text.append("`.");
                text
            },
            MetadataError::InvalidMetadataFormat(field, _) | MetadataError::MetadataOutOfRange(
                field,
            ) => {
                let mut text = String::from_str("Metadata `");
                text.append(field.name());
                text.append("` should be ");
                text.append(field.expected());
                text.append(".");
                text
            },
        }
    }
}

/// The settings of one request: texts under text keys.
pub struct ScalerMetadata {
    entries: StringHashMap<String>,
}

impl View for ScalerMetadata {
    type V = Map<Seq<char>, Seq<char>>;

    closed spec fn view(&self) -> Map<Seq<char>, Seq<char>> {
        self.entries@.map_values(|value: String| value@)
    }
}

impl ScalerMetadata {
    /// No settings at all.
    pub fn new() -> (metadata: ScalerMetadata)
        ensures
            metadata@ == Map::<Seq<char>, Seq<char>>::empty(),
    {
        let metadata = ScalerMetadata { entries: StringHashMap::new() };
        assert(metadata@ =~= Map::<Seq<char>, Seq<char>>::empty());
        metadata
    }

    /// Puts `value` under `key`, in place of what was there.
    pub fn insert(&mut self, key: String, value: String)
        ensures
            final(self)@ == old(self)@.insert(key@, value@),
    {
        self.entries.insert(key, value);
        assert(self@ =~= old(self)@.insert(key@, value@));
    }

    /// The text under `key`, if there is one.
    pub fn get(&self, key: &str) -> (value: Option<&String>)
        ensures
            value.is_some() == self@.contains_key(key@),
            value matches Some(text) ==> text@ == self@[key@],
    {
        self.entries.get(key)
    }
}


/// The part of the day in which a caller is active, both ends included.
/// Nothing asks that it start before it ends: a window that ends before it
/// starts holds no time at all.
#[derive(Clone, Copy, Debug, PartialEq, Eq, Structural)]
pub struct TimeWindow {
    pub from: TimeOfDay,
    pub to: TimeOfDay,
}

impl TimeWindow {
    /// Whether `time` lies in the window, taken literally: not before its
    /// start and not after its end.
    pub open spec fn holds(self, time: TimeOfDay) -> bool {
        self.from.is_at_or_before(time) && time.is_at_or_before(self.to)
    }

    /// Whether `time` lies in the window.
    pub fn contains(&self, time: &TimeOfDay) -> (inside: bool)
        ensures
            inside == self.holds(*time),
    {
        self.from.le(time) && time.le(&self.to)
    }
}

/// The settings of one request, once they have been read and accepted.
#[derive(Clone, Copy, Debug, PartialEq, Eq, Structural)]
pub struct ScalerQuery {
    /// Which working day of the month the caller waits for; at most 31.
    pub nth_working_day: u8,
    /// The part of the day in which the caller is active, if it named one.
    pub window: Option<TimeWindow>,
    /// The size that the caller scales to.
    pub target_size: u32,
}

/// Whether a number read for the working day of the month is accepted: there
/// must be one, and it must be at most 31.
pub open spec fn accepted_nth_working_day(parsed: Option<nat>) -> Result<u8, MetadataError> {
    let field = MetadataField::NthWorkingDay;
    match parsed {
        None => Err(MetadataError::InvalidMetadataFormat(field, FormatReason::NotAnInteger)),
        Some(number) => if number > 31 {
            Err(MetadataError::MetadataOutOfRange(field))
        } else {
            Ok(number as u8)
        },
    }
}

/// Whether a time of day read for `field` is accepted: there must be one.
pub open spec fn accepted_time(field: MetadataField, parsed: Option<(u32, u32)>) -> Result<
    TimeOfDay,
    MetadataError,
> {
    match parsed {
        None => Err(MetadataError::InvalidMetadataFormat(field, FormatReason::NotATimeOfDay)),
        Some((secs, frac)) => Ok(TimeOfDay { secs, frac }),
    }
}

/// Whether a number read for the size to scale to is accepted: there must be one.
pub open spec fn accepted_target_size(parsed: Option<nat>) -> Result<u32, MetadataError> {
    match parsed {
        None => Err(
            MetadataError::InvalidMetadataFormat(
                MetadataField::TargetSize,
                FormatReason::NotAnInteger,
            ),
        ),
        Some(number) => Ok(number as u32),
    }
}

/// What the settings hold for the working day that the caller waits for: the
/// setting must be there, be a whole number below 256, and then be at most 31.
pub open spec fn nth_working_day_of(metadata: Map<Seq<char>, Seq<char>>) -> Result<
    u8,
    MetadataError,
> {
    let field = MetadataField::NthWorkingDay;
    if !metadata.contains_key(field.key()) {
        Err(MetadataError::MissingMetadata(field))
    } else {
        accepted_nth_working_day(unsigned_from_text(metadata[field.key()], 255))
    }
}

/// What the settings hold for the given time of day: the setting must be
/// there and be a time written as hours, minutes and seconds.
pub open spec fn time_of(metadata: Map<Seq<char>, Seq<char>>, field: MetadataField) -> Result<
    TimeOfDay,
    MetadataError,
> {
    if !metadata.contains_key(field.key()) {
        Err(MetadataError::MissingMetadata(field))
    } else {
        accepted_time(field, time_from_text(metadata[field.key()]))
    }
}

/// What the settings hold for the part of the day in which the caller is
/// active: none where neither end is named; else both ends must be there and
/// be times of day, the start being looked at first.
pub open spec fn window_of(metadata: Map<Seq<char>, Seq<char>>) -> Result<
    Option<TimeWindow>,
    MetadataError,
> {
    if !metadata.contains_key(MetadataField::FromTime.key()) && !metadata.contains_key(
        MetadataField::ToTime.key(),
    ) {
        Ok(None)
    } else {
        match time_of(metadata, MetadataField::FromTime) {
            Err(error) => Err(error),
            Ok(from) => match time_of(metadata, MetadataField::ToTime) {
                Err(error) => Err(error),
                Ok(to) => Ok(Some(TimeWindow { from, to })),
            },
        }
    }
}

/// What the settings hold for the size to scale to: the setting must be there
/// and be a whole number below 4294967296.
pub open spec fn target_size_of(metadata: Map<Seq<char>, Seq<char>>) -> Result<
    u32,
    MetadataError,
> {
    let field = MetadataField::TargetSize;
    if !metadata.contains_key(field.key()) {
        Err(MetadataError::MissingMetadata(field))
    } else {
        accepted_target_size(unsigned_from_text(metadata[field.key()], 4294967295))
    }
}

/// What the settings hold as a whole. They are looked at in a fixed order:
/// the working day, the part of the day, the size to scale to; the first one
/// that is not accepted decides the error.
pub open spec fn query_of(metadata: Map<Seq<char>, Seq<char>>) -> Result<
    ScalerQuery,
    MetadataError,
> {
    match nth_working_day_of(metadata) {
        Err(error) => Err(error),
        Ok(nth_working_day) => match window_of(metadata) {
            Err(error) => Err(error),
            Ok(window) => match target_size_of(metadata) {
                Err(error) => Err(error),
                Ok(target_size) => Ok(ScalerQuery { nth_working_day, window, target_size }),
            },
        },
    }
}

/// Decides on what was read for the working day of the month: a number of
/// at most 31 is accepted.
pub fn accept_nth_working_day(parsed: Option<u8>) -> (accepted: Result<u8, MetadataError>)
    ensures
        accepted == accepted_nth_working_day(
            match parsed {
                Some(number) => Some(number as nat),
                None => None,
            },
        ),
{
    let field = MetadataField::NthWorkingDay;
    match parsed {
        Some(number) => {
            if number <= 31 {
                Ok(number)
            } else {
                Err(MetadataError::MetadataOutOfRange(field))
            }
        },
        None => Err(MetadataError::InvalidMetadataFormat(field, FormatReason::NotAnInteger)),
    }
}

/// Decides on what was read for a time of day: whatever was read is accepted.
pub fn accept_time(parameter: MetadataField, parsed: Option<(u32, u32)>) -> (accepted: Result<
    TimeOfDay,
    MetadataError,
>)
    ensures
        accepted == accepted_time(parameter, parsed),
{
    match parsed {
        Some((secs, frac)) => Ok(TimeOfDay { secs, frac }),
        None => Err(MetadataError::InvalidMetadataFormat(parameter, FormatReason::NotATimeOfDay)),
    }
}

/// Decides on what was read for the size to scale to: whatever was read is
/// accepted.
pub fn accept_target_size(parsed: Option<u32>) -> (accepted: Result<u32, MetadataError>)
    ensures
        accepted == accepted_target_size(
            match parsed {
                Some(number) => Some(number as nat),
                None => None,
            },
        ),
{
    match parsed {
        Some(number) => Ok(number),
        None => Err(
            MetadataError::InvalidMetadataFormat(
                MetadataField::TargetSize,
                FormatReason::NotAnInteger,
            ),
        ),
    }
}

/// Reads the working day of the month that the caller waits for.
pub fn read_nth_working_day_arg(metadata: &ScalerMetadata) -> (read: Result<u8, MetadataError>)
    ensures
        read == nth_working_day_of(metadata@),
{
    let field = MetadataField::NthWorkingDay;
    let value = metadata.get(field.name());
    match value {
        None => Err(MetadataError::MissingMetadata(field)),
        Some(value) => accept_nth_working_day(parse_u8(value.as_str())),
    }
}

/// Reads the time of day that stands under the key of `parameter`.
pub fn read_time(metadata: &ScalerMetadata, parameter: MetadataField) -> (read: Result<
    TimeOfDay,
    MetadataError,
>)
    ensures
        read == time_of(metadata@, parameter),
{
    let value = metadata.get(parameter.name());
    match value {
        None => Err(MetadataError::MissingMetadata(parameter)),
        Some(value) => accept_time(parameter, parse_time(value.as_str())),
    }
}

/// Reads the part of the day in which the caller is active, if it names one.
pub fn read_time_window(metadata: &ScalerMetadata) -> (read: Result<
    Option<TimeWindow>,
    MetadataError,
>)
    ensures
        read == window_of(metadata@),
{
    let from_given = metadata.get(MetadataField::FromTime.name()).is_some();
    let to_given = metadata.get(MetadataField::ToTime.name()).is_some();
    if !from_given && !to_given {
        Ok(None)
    } else {
        match read_time(metadata, MetadataField::FromTime) {
            Err(error) => Err(error),
            Ok(from) => match read_time(metadata, MetadataField::ToTime) {
                Err(error) => Err(error),
                Ok(to) => Ok(Some(TimeWindow { from, to })),
            },
        }
    }
}

/// Reads the size that the caller scales to.
pub fn read_target_size(metadata: &ScalerMetadata) -> (read: Result<u32, MetadataError>)
    ensures
        read == target_size_of(metadata@),
{
    let field = MetadataField::TargetSize;
    let value = metadata.get(field.name());
    match value {
        None => Err(MetadataError::MissingMetadata(field)),
        Some(value) => accept_target_size(parse_u32(value.as_str())),
    }
}

/// Reads all the settings of a request, in their fixed order, and stops at
/// the first one that is not accepted.
pub fn validate(metadata: &ScalerMetadata) -> (read: Result<ScalerQuery, MetadataError>)
    ensures
        read == query_of(metadata@),
{
    let nth_working_day = match read_nth_working_day_arg(metadata) {
        Ok(nth_working_day) => nth_working_day,
        Err(error) => {
            return Err(error);
        },
    };
    let window = match read_time_window(metadata) {
        Ok(window) => window,
        Err(error) => {
            return Err(error);
        },
    };
    let target_size = match read_target_size(metadata) {
        Ok(target_size) => target_size,
        Err(error) => {
            return Err(error);
        },
    };
    Ok(ScalerQuery { nth_working_day, window, target_size })
}

} // verus!
