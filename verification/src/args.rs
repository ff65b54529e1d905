//! The settings that the service is started with.

use vstd::prelude::*;
use vstd::string::StringExecFns;

use crate::calendar::is_valid_offset;
use crate::calendar::FixedOffset;
use crate::text::decimal_digits;
use crate::text::decimal_text;

verus! {

/// The settings that the service is started with.
#[derive(Debug)]
pub struct Args {
    /// Path to the list of holidays.
    pub holidays_file: String,
    /// The port that the service listens on.
    pub port: u16,
    /// The time offset in seconds east of Greenwich; less than a day either way.
    pub time_offset: i32,
    /// The pause in seconds between two answers to a subscriber.
    pub push_interval: u64,
}

impl Default for Args {
    /// The settings that hold where none are given.
    fn default() -> (args: Args)
        ensures
            args.holidays_file@ == "holidays.csv"@,
            args.port == 8080,
            args.time_offset == 0,
            args.push_interval == 60,
    {
        Args {
            holidays_file: String::from_str("holidays.csv"),
            port: 8080,
            time_offset: 0,
            push_interval: 60,
        }
    }
}

impl Args {
    /// The offset that the service keeps its clock at, if the time offset is
    /// less than a day.
    pub fn offset(&self) -> (offset: Option<FixedOffset>)
        ensures
            offset.is_some() <==> is_valid_offset(self.time_offset as int),
            offset matches Some(o) ==> o@ == self.time_offset,
    {
        FixedOffset::east_opt(self.time_offset)
    }

    /// The address that the service listens on: the port on this machine.
    pub fn listen_address(&self) -> (address: String)
        ensures
            address@ == "[::1]:"@ + decimal_digits(self.port as nat),
    {
        let mut address = String::from_str("[::1]:");
        address.append(decimal_text(self.port as u64).as_str());
        address
    }
}

} // verus!
