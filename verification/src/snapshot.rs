//! Complete readings, and the accumulator that builds one from reports.

use vstd::prelude::*;
use crate::clock::{current_time, Timestamp};
use crate::report::{decode_report, decoded, is_known_tag, Reading};

verus! {

/// The four values of a complete reading.
pub ghost struct Measurement {
    pub time: Timestamp,
    pub co2: u16,
    pub temperature: i32,
    pub humidity: u16,
}

/// One complete set of sensor readings with the time it was completed at.
#[derive(Clone, Copy, Debug, PartialEq, Eq)]
pub struct DeviceData {
    time: Timestamp,
    co2: u16,
    temperature: i32,
    humidity: u16,
}

impl View for DeviceData {
    type V = Measurement;

    closed spec fn view(&self) -> Measurement {
        Measurement {
            time: self.time,
            co2: self.co2,
            temperature: self.temperature,
            humidity: self.humidity,
        }
    }
}

impl DeviceData {
    /// A reading of `co2` ppm, `temperature` hundredths of a degree Celsius
    /// and `humidity` hundredths of a percent, completed at `time`.
    pub fn new(time: Timestamp, co2: u16, temperature: i32, humidity: u16) -> (data: Self)
        ensures
            data@ == (Measurement { time, co2, temperature, humidity }),
    {
        DeviceData { time, co2, temperature, humidity }
    }

    /// When the reading was completed.
    pub fn time(&self) -> (time: Timestamp)
        ensures
            time == self@.time,
    {
        self.time
    }

    /// CO2 concentration in parts per million.
    pub fn co2(&self) -> (co2: u16)
        ensures
            co2 == self@.co2,
    {
        self.co2
    }

    /// Temperature in hundredths of a degree Celsius.
    pub fn temperature(&self) -> (temperature: i32)
        ensures
            temperature == self@.temperature,
    {
        self.temperature
    }

    /// Relative humidity in hundredths of a percent.
    pub fn humidity(&self) -> (humidity: u16)
        ensures
            humidity == self@.humidity,
    {
        self.humidity
    }
}

/// What an assembly cycle has seen so far: for each measurement the value of
/// the latest report that carried it, if any.
pub ghost struct Partial {
    pub co2: Option<u16>,
    pub temperature: Option<i32>,
    pub humidity: Option<u16>,
}

impl Partial {
    /// Nothing seen yet.
    pub open spec fn empty() -> Partial {
        Partial { co2: None, temperature: None, humidity: None }
    }

    /// The state after `reading`: its field is overwritten, the others stay.
    pub open spec fn with(self, reading: Reading) -> Partial {
        match reading {
            Reading::Co2(v) => Partial { co2: Some(v), ..self },
            Reading::Temperature(v) => Partial { temperature: Some(v), ..self },
            Reading::Humidity(v) => Partial { humidity: Some(v), ..self },
            Reading::Ignored => self,
        }
    }

    /// Whether all three measurements have a value.
    pub open spec fn is_complete(self) -> bool {
        self.co2.is_some() && self.temperature.is_some() && self.humidity.is_some()
    }

    /// The complete reading stamped `time`, if nothing is missing.
    pub open spec fn snapshot(self, time: Timestamp) -> Option<Measurement> {
        if self.is_complete() {
            Some(
                Measurement {
                    time,
                    co2: self.co2.unwrap(),
                    temperature: self.temperature.unwrap(),
                    humidity: self.humidity.unwrap(),
                },
            )
        } else {
            None
        }
    }

    /// The state after what one read returned: a report is decoded and
    /// recorded, a timeout or a fault records nothing.
    pub open spec fn absorb(self, outcome: ReadOutcome) -> Partial {
        match outcome {
            ReadOutcome::Report(report) => self.with(decoded(report@)),
            _ => self,
        }
    }

    /// The state after a whole sequence of reports, starting from nothing.
    pub open spec fn replay(reports: Seq<Seq<u8>>) -> Partial
        decreases reports.len(),
    {
        if reports.len() == 0 {
            Partial::empty()
        } else {
            Partial::replay(reports.drop_last()).with(decoded(reports.last()))
        }
    }
}

/// What one read of the transport returned.
#[derive(Debug)]
pub enum ReadOutcome {
    /// One report arrived.
    Report([u8; 8]),
    /// The read timed out with no data.
    Timeout,
    /// The transport failed; the text describes the fault.
    Fault(String),
}

impl ReadOutcome {
    /// Sorts what a read with a timeout returned: a fault with its
    /// description, or the number of bytes that arrived in `buffer`. No
    /// bytes means that the read timed out; otherwise `buffer` holds one
    /// report.
    pub fn from_read(count: Result<usize, String>, buffer: [u8; 8]) -> (outcome: ReadOutcome)
        ensures
            match count {
                Ok(n) => if n == 0 {
                    outcome is Timeout
                } else {
                    outcome == ReadOutcome::Report(buffer)
                },
                Err(description) => {
                    &&& outcome matches ReadOutcome::Fault(text)
                    &&& text@ == description@
                },
            },
    {
        match count {
            Ok(n) => if n == 0 {
                ReadOutcome::Timeout
            } else {
                ReadOutcome::Report(buffer)
            },
            Err(description) => ReadOutcome::Fault(description),
        }
    }
}

/// What the assembler asks for after one read.
#[derive(Debug)]
pub enum AssemblyStep {
    /// Something is still missing: read again.
    ReadAgain,
    /// All three measurements are in: this is the reading.
    Complete(DeviceData),
    /// The transport failed: the cycle is abandoned, the text says why.
    Failed(String),
}

/// The accumulator of one assembly cycle.
#[derive(Debug)]
pub struct Assembly {
    co2: Option<u16>,
    temperature: Option<i32>,
    humidity: Option<u16>,
}

impl View for Assembly {
    type V = Partial;

    closed spec fn view(&self) -> Partial {
        Partial { co2: self.co2, temperature: self.temperature, humidity: self.humidity }
    }
}

impl Assembly {
    /// An accumulator that has seen nothing.
    pub fn new() -> (assembly: Self)
        ensures
            assembly@ == Partial::empty(),
    {
        Assembly { co2: None, temperature: None, humidity: None }
    }

    /// Records one reading, overwriting an earlier value of the same kind.
    pub fn record(&mut self, reading: Reading)
        ensures
            final(self)@ == old(self)@.with(reading),
    {
        match reading {
            Reading::Co2(v) => {
                self.co2 = Some(v);
            },
            Reading::Temperature(v) => {
                self.temperature = Some(v);
            },
            Reading::Humidity(v) => {
                self.humidity = Some(v);
            },
            Reading::Ignored => {},
        }
    }

    /// Decodes one report and records what it says.
    pub fn feed(&mut self, report: &[u8; 8])
        ensures
            final(self)@ == old(self)@.with(decoded(report@)),
            !is_known_tag(report@[0]) ==> final(self)@ == old(self)@,
    {
        let reading = decode_report(report);
        self.record(reading);
    }

    /// Whether all three measurements have been seen.
    pub fn is_complete(&self) -> (complete: bool)
        ensures
            complete == self@.is_complete(),
    {
        self.co2.is_some() && self.temperature.is_some() && self.humidity.is_some()
    }

    /// The complete reading stamped `time`, or `None` while something is
    /// missing.
    pub fn snapshot_at(&self, time: Timestamp) -> (data: Option<DeviceData>)
        ensures
            data.is_some() == self@.is_complete(),
            match data {
                Some(d) => self@.snapshot(time) == Some(d@),
                None => self@.snapshot(time).is_none(),
            },
    {
        match (self.co2, self.temperature, self.humidity) {
            (Some(co2), Some(temperature), Some(humidity)) => Some(
                DeviceData::new(time, co2, temperature, humidity),
            ),
            _ => None,
        }
    }

    /// One step of an assembly cycle: takes what the last read returned and
    /// says what to do next.
    ///
    /// A report is decoded and recorded, a timeout records nothing. If all
    /// three measurements are then in, the result is the complete reading,
    /// stamped with the clock's time at this moment, and the accumulator
    /// starts over; otherwise another read is asked for. A fault abandons
    /// the cycle: the result carries its description and the accumulator
    /// starts over.
    pub fn advance(&mut self, outcome: ReadOutcome) -> (step: AssemblyStep)
        ensures
            match outcome {
                ReadOutcome::Fault(description) => {
                    &&& step matches AssemblyStep::Failed(text)
                    &&& text@ == description@
                    &&& final(self)@ == Partial::empty()
                },
                _ => {
                    let seen = old(self)@.absorb(outcome);
                    if seen.is_complete() {
                        &&& step matches AssemblyStep::Complete(data)
                        &&& seen.snapshot(data@.time) == Some(data@)
                        &&& data@.time.nanos < 2_000_000_000
                        &&& final(self)@ == Partial::empty()
                    } else {
                        &&& step is ReadAgain
                        &&& final(self)@ == seen
                    }
                },
            },
    {
        match outcome {
            ReadOutcome::Report(report) => {
                self.feed(&report);
            },
            ReadOutcome::Timeout => {},
            ReadOutcome::Fault(description) => {
                *self = Assembly::new();
                return AssemblyStep::Failed(description);
            },
        }
        if self.is_complete() {
            let now = current_time();
            let made = self.snapshot_at(now);
            *self = Assembly::new();
            match made {
                Some(data) => AssemblyStep::Complete(data),
                None => AssemblyStep::ReadAgain,
            }
        } else {
            AssemblyStep::ReadAgain
        }
    }
}

} // verus!
