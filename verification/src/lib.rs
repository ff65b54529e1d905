//! A scaler that is active on the Nth working day of each month: the index of
//! working days that it reads, the settings that a request carries, and the
//! answers that it gives.

pub mod args;
pub mod bridge;
pub mod calendar;
pub mod handler;
pub mod holidays_loader;
pub mod metadata;
pub mod text;
pub mod working_days;

pub use args::Args;
pub use calendar::Date;
pub use calendar::DateTime;
pub use calendar::FixedOffset;
pub use calendar::TimeOfDay;
pub use handler::GrpcHandler;
pub use holidays_loader::load;
pub use holidays_loader::HolidaysLoaderError;
pub use working_days::WorkingDays;
pub use working_days::WorkingDaysError;
