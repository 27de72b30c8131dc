//! What the client keeps of one measurement call.

use vstd::prelude::*;

verus! {

/// Number of fixed-point steps per wire unit: statistics read from a response
/// are carried as integer millionths of the unit the service reports.
pub const FIXED_SCALE: u64 = 1_000_000;

/// One of the five statistics of a response.
#[derive(Clone, Copy, Debug, PartialEq, Eq, Structural)]
pub enum Field {
    Avg,
    Min,
    Max,
    P95,
    Throughput,
}

/// The statistics of one successful response, in millionths of the wire unit.
#[derive(Clone, Copy, Debug, PartialEq, Eq, Structural)]
pub struct ResponseStats {
    pub avg: u64,
    pub min: u64,
    pub max: u64,
    pub p95: u64,
    pub throughput: u64,
}

impl ResponseStats {
    /// What every response of a sound service satisfies: the average and the
    /// 95th percentile lie between the minimum and the maximum.
    pub open spec fn consistent(self) -> bool {
        &&& self.min <= self.avg <= self.max
        &&& self.min <= self.p95 <= self.max
    }

    /// The statistic that `field` names.
    pub open spec fn get(self, field: Field) -> u64 {
        match field {
            Field::Avg => self.avg,
            Field::Min => self.min,
            Field::Max => self.max,
            Field::P95 => self.p95,
            Field::Throughput => self.throughput,
        }
    }

    /// The statistic that `field` names.
    pub fn field(&self, field: Field) -> (value: u64)
        ensures
            value == self.get(field),
    {
        match field {
            Field::Avg => self.avg,
            Field::Min => self.min,
            Field::Max => self.max,
            Field::P95 => self.p95,
            Field::Throughput => self.throughput,
        }
    }
}

/// How one call ended.
#[derive(Clone, Copy, Debug, PartialEq, Eq, Structural)]
pub enum CallOutcome {
    /// The call returned a well-formed response body.
    Completed(ResponseStats),
    /// The connection failed, the call timed out, or the body was malformed.
    TransportFailure,
}

/// How a call ended, given what could be read of its response: completed
/// with the statistics read, and a transport failure where nothing could be
/// read.
pub open spec fn outcome_for(parsed: Option<ResponseStats>) -> CallOutcome {
    match parsed {
        Some(stats) => CallOutcome::Completed(stats),
        None => CallOutcome::TransportFailure,
    }
}

/// How a call ended, given what could be read of its response. A call whose
/// connection failed, whose task did not return, or whose body was
/// malformed has nothing to read.
pub fn outcome_of(parsed: Option<ResponseStats>) -> (outcome: CallOutcome)
    ensures
        outcome == outcome_for(parsed),
{
    match parsed {
        Some(stats) => CallOutcome::Completed(stats),
        None => CallOutcome::TransportFailure,
    }
}

/// One statistic across all responses, in their order.
pub open spec fn column(results: Seq<ResponseStats>, field: Field) -> Seq<u64> {
    Seq::new(results.len(), |i: int| results[i].get(field))
}

/// One statistic across all responses, in their order.
pub fn column_of(results: &Vec<ResponseStats>, field: Field) -> (values: Vec<u64>)
    ensures
        values@ == column(results@, field),
{
    let mut values: Vec<u64> = Vec::new();
    let mut i: usize = 0;
    while i < results.len()
        invariant
            i <= results.len(),
            values@.len() == i,
            forall|j: int| 0 <= j < i ==> values@[j] == results@[j].get(field),
        decreases results.len() - i,
    {
        values.push(results[i].field(field));
        i = i + 1;
    }
    values
}

} // verus!
