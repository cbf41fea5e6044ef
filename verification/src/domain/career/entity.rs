//! One entry of a career.

use vstd::prelude::*;

verus! {

/// A day of the calendar.
#[derive(Debug, Clone, Copy, PartialEq, Eq, Structural)]
pub struct Date {
    pub year: i32,
    pub month: u8,
    pub day: u8,
}

/// An entry of a career as plain values.
pub struct CareerRecord {
    pub user_id: int,
    pub company: Seq<char>,
    pub job: Seq<char>,
    pub in_at: Date,
    pub out_at: Option<Date>,
}

/// An entry of a career: a job that a user took at a company on one day and,
/// perhaps, left on another.
#[derive(Debug)]
pub struct CareerEntity {
    pub user_id: i64,
    pub company: String,
    pub job: String,
    pub in_at: Date,
    pub out_at: Option<Date>,
}

impl View for CareerEntity {
    type V = CareerRecord;

    open spec fn view(&self) -> CareerRecord {
        CareerRecord {
            user_id: self.user_id as int,
            company: self.company@,
            job: self.job@,
            in_at: self.in_at,
            out_at: self.out_at,
        }
    }
}

impl Clone for CareerEntity {
    fn clone(&self) -> (res: Self)
        ensures
            res@ == self@,
    {
        CareerEntity {
            user_id: self.user_id,
            company: self.company.clone(),
            job: self.job.clone(),
            in_at: self.in_at,
            out_at: self.out_at,
        }
    }
}

impl CareerEntity {
    /// The entry with these values.
    pub fn new(user_id: i64, company: String, job: String, in_at: Date, out_at: Option<Date>) -> (career:
        Self)
        ensures
            career@ == (CareerRecord {
                user_id: user_id as int,
                company: company@,
                job: job@,
                in_at,
                out_at,
            }),
    {
        Self { user_id, company, job, in_at, out_at }
    }
}

} // verus!
