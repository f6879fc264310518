use vstd::prelude::*;

verus! {

/// The status codes of the scanner ABI.
#[derive(Clone, Copy, Debug, PartialEq, Eq, Structural)]
pub enum Status {
    Good,
    Unsupported,
    Cancelled,
    DeviceBusy,
    Inval,
    Eof,
    Jammed,
    NoDocs,
    CoverOpen,
    IoError,
    NoMem,
    AccessDenied,
}

/// The numeric value the ABI uses for each status.
pub open spec fn status_code(s: Status) -> int {
    match s {
        Status::Good => 0,
        Status::Unsupported => 1,
        Status::Cancelled => 2,
        Status::DeviceBusy => 3,
        Status::Inval => 4,
        Status::Eof => 5,
        Status::Jammed => 6,
        Status::NoDocs => 7,
        Status::CoverOpen => 8,
        Status::IoError => 9,
        Status::NoMem => 10,
        Status::AccessDenied => 11,
    }
}

impl Status {
    /// The status with the given numeric code, if there is one.
    pub fn from_code(code: i32) -> (r: Option<Status>)
        ensures
            match r {
                Some(s) => status_code(s) == code,
                None => code < 0 || code > 11,
            },
    {
        match code {
            0 => Some(Status::Good),
            1 => Some(Status::Unsupported),
            2 => Some(Status::Cancelled),
            3 => Some(Status::DeviceBusy),
            4 => Some(Status::Inval),
            5 => Some(Status::Eof),
            6 => Some(Status::Jammed),
            7 => Some(Status::NoDocs),
            8 => Some(Status::CoverOpen),
            9 => Some(Status::IoError),
            10 => Some(Status::NoMem),
            11 => Some(Status::AccessDenied),
            _ => None,
        }
    }

    /// The numeric code of this status.
    pub fn code(self) -> (r: i32)
        ensures
            r == status_code(self),
    {
        match self {
            Status::Good => 0,
            Status::Unsupported => 1,
            Status::Cancelled => 2,
            Status::DeviceBusy => 3,
            Status::Inval => 4,
            Status::Eof => 5,
            Status::Jammed => 6,
            Status::NoDocs => 7,
            Status::CoverOpen => 8,
            Status::IoError => 9,
            Status::NoMem => 10,
            Status::AccessDenied => 11,
        }
    }
}

/// A failed ABI call, carrying the status it reported.
#[derive(Clone, Copy, Debug, PartialEq, Eq, Structural)]
pub struct Error(pub Status);

impl Error {
    /// The status that caused this error.
    pub fn status(&self) -> (r: Status)
        ensures
            r == self.0,
    {
        self.0
    }
}

/// Turns the status of an ABI call into a result: success exactly on `Good`.
pub fn check(status: Status) -> (r: Result<(), Error>)
    ensures
        r.is_ok() <==> status == Status::Good,
        r.is_err() ==> r == Err::<(), Error>(Error(status)),
{
    if status == Status::Good {
        Ok(())
    } else {
        Err(Error(status))
    }
}

} // verus!
