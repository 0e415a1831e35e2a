//! What a run is asked: whose gas, and between which two dates.

use crate::calendar::{date_of_text, date_text_valid, format_date, CalendarDate};
use crate::error::PipelineError;
use vstd::prelude::*;

verus! {

/// The arguments of a run.
#[derive(Debug)]
pub struct Account {
    /// The address to calculate gas for, or its name.
    pub address_or_name: String,
    /// Start date of the calculation, as `DD/MM/YYYY`.
    pub start_date: String,
    /// End date of the calculation, as `DD/MM/YYYY`.
    pub end_date: String,
}

/// The two days between which the gas is added up. Nothing asks that the
/// first be the earlier.
#[derive(Clone, Copy, Debug, PartialEq, Eq, Structural)]
pub struct DateRange {
    /// The day on which the range begins.
    pub start: CalendarDate,
    /// The day on which the range ends.
    pub end: CalendarDate,
}

impl Account {
    /// Reads the two dates. Both must be dates written as `DD/MM/YYYY`.
    pub fn validate_date(&self) -> (dates: Result<DateRange, PipelineError>)
        ensures
            date_text_valid(self.start_date@) && date_text_valid(self.end_date@) ==> dates is Ok
                && dates->Ok_0.start@ == date_of_text(self.start_date@) && dates->Ok_0.end@
                == date_of_text(self.end_date@),
            !(date_text_valid(self.start_date@) && date_text_valid(self.end_date@)) ==> dates
                == Err::<DateRange, PipelineError>(PipelineError::InvalidDateFormat),
    {
        match format_date(self.start_date.as_str()) {
            Ok(start) => match format_date(self.end_date.as_str()) {
                Ok(end) => Ok(DateRange { start, end }),
                Err(error) => Err(error),
            },
            Err(error) => Err(error),
        }
    }
}

} // verus!
