//! Status codes and simulation modes of the native call surface.
//!
//! Every native entry point returns one of six status codes; the code is
//! preserved and surfaced so callers can tell the standard's own status
//! taxonomy apart. A loaded binary serves exactly one of two simulation
//! modes, decided once at load time.

use vstd::prelude::*;

verus! {

/// Status code returned by every fallible native call.
#[derive(Clone, Copy, Debug, PartialEq, Eq, Structural, Hash)]
pub enum Fmi2Status {
    Fmi2Ok,
    Fmi2Warning,
    Fmi2Discard,
    Fmi2Error,
    Fmi2Fatal,
    Fmi2Pending,
}

/// Simulation mode a native binary is loaded for.
#[derive(Clone, Copy, Debug, PartialEq, Eq, Structural, Hash)]
pub enum Fmi2Type {
    Fmi2ModelExchange,
    Fmi2CoSimulation,
}

/// The numeric value the native call surface uses for a status code.
pub open spec fn spec_status_code(s: Fmi2Status) -> int {
    match s {
        Fmi2Status::Fmi2Ok => 0,
        Fmi2Status::Fmi2Warning => 1,
        Fmi2Status::Fmi2Discard => 2,
        Fmi2Status::Fmi2Error => 3,
        Fmi2Status::Fmi2Fatal => 4,
        Fmi2Status::Fmi2Pending => 5,
    }
}

impl Fmi2Status {
    /// Numeric status value as the native side returns it.
    pub fn code(self) -> (r: i32)
        ensures
            r == spec_status_code(self),
    {
        match self {
            Fmi2Status::Fmi2Ok => 0,
            Fmi2Status::Fmi2Warning => 1,
            Fmi2Status::Fmi2Discard => 2,
            Fmi2Status::Fmi2Error => 3,
            Fmi2Status::Fmi2Fatal => 4,
            Fmi2Status::Fmi2Pending => 5,
        }
    }

    /// Decode a raw native status value; values outside the standard's
    /// taxonomy are rejected rather than mapped to a default.
    pub fn from_code(code: i32) -> (r: Option<Fmi2Status>)
        ensures
            match r {
                Some(s) => spec_status_code(s) == code,
                None => !(0 <= code <= 5),
            },
    {
        match code {
            0 => Some(Fmi2Status::Fmi2Ok),
            1 => Some(Fmi2Status::Fmi2Warning),
            2 => Some(Fmi2Status::Fmi2Discard),
            3 => Some(Fmi2Status::Fmi2Error),
            4 => Some(Fmi2Status::Fmi2Fatal),
            5 => Some(Fmi2Status::Fmi2Pending),
            _ => None,
        }
    }
}

/// The standard's name for a status code.
pub open spec fn spec_status_name(s: Fmi2Status) -> Seq<char> {
    match s {
        Fmi2Status::Fmi2Ok => "fmi2OK"@,
        Fmi2Status::Fmi2Warning => "fmi2Warning"@,
        Fmi2Status::Fmi2Discard => "fmi2Discard"@,
        Fmi2Status::Fmi2Error => "fmi2Error"@,
        Fmi2Status::Fmi2Fatal => "fmi2Fatal"@,
        Fmi2Status::Fmi2Pending => "fmi2Pending"@,
    }
}

impl Fmi2Status {
    /// The standard's name for this status code, for error accounts.
    pub fn name(self) -> (r: String)
        ensures
            r@ == spec_status_name(self),
    {
        match self {
            Fmi2Status::Fmi2Ok => String::from_str("fmi2OK"),
            Fmi2Status::Fmi2Warning => String::from_str("fmi2Warning"),
            Fmi2Status::Fmi2Discard => String::from_str("fmi2Discard"),
            Fmi2Status::Fmi2Error => String::from_str("fmi2Error"),
            Fmi2Status::Fmi2Fatal => String::from_str("fmi2Fatal"),
            Fmi2Status::Fmi2Pending => String::from_str("fmi2Pending"),
        }
    }
}

/// The numeric value the native instantiate call takes for a simulation mode.
pub open spec fn spec_type_code(t: Fmi2Type) -> int {
    match t {
        Fmi2Type::Fmi2ModelExchange => 0,
        Fmi2Type::Fmi2CoSimulation => 1,
    }
}

impl Fmi2Type {
    /// Numeric mode value as the native instantiate entry point takes it.
    pub fn code(self) -> (r: i32)
        ensures
            r == spec_type_code(self),
    {
        match self {
            Fmi2Type::Fmi2ModelExchange => 0,
            Fmi2Type::Fmi2CoSimulation => 1,
        }
    }
}

} // verus!
