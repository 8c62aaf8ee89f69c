//! The runtime's error taxonomy.
//!
//! Every failure is reported as a distinct kind and nothing is silently
//! defaulted: unpacking, loading and native-call failures each carry
//! exactly what the caller needs to tell them apart, and a native status
//! code is preserved rather than translated into a generic error.

use vstd::prelude::*;

use crate::model_description::ModelDescriptionError;
use crate::status::{spec_status_name, Fmi2Status};

verus! {

/// A failure of a native call made on a live instance.
#[derive(Debug, Clone, PartialEq, Eq, Structural)]
pub enum FmuError {
    /// A native entry point returned a status other than the success
    /// status; the returned status is preserved.
    BadFunctionCall(Fmi2Status),
    /// The native instantiate entry point returned a null handle, so no
    /// instance exists to release.
    FmuInstantiateFailed,
}

impl FmuError {
    /// A short account of the failure, naming the preserved status.
    pub fn message(&self) -> (r: String)
        ensures
            (self matches FmuError::BadFunctionCall(s) ==> r@ == "FMU bad function call: "@
                + spec_status_name(*s)),
            self is FmuInstantiateFailed ==> r@ == "fmi2Instantiate() call failed"@,
    {
        match self {
            FmuError::BadFunctionCall(s) => {
                let mut m = String::from_str("FMU bad function call: ");
                m.append(s.name().as_str());
                m
            },
            FmuError::FmuInstantiateFailed => String::from_str("fmi2Instantiate() call failed"),
        }
    }
}

/// Map a native status code to the result of the call that returned it:
/// only the success status is success, any other status is preserved in
/// the error.
pub fn ok_or_err(status: Fmi2Status) -> (r: Result<(), FmuError>)
    ensures
        match r {
            Ok(u) => status == Fmi2Status::Fmi2Ok,
            Err(e) => status != Fmi2Status::Fmi2Ok && e == FmuError::BadFunctionCall(status),
        },
{
    match status {
        Fmi2Status::Fmi2Ok => Ok(()),
        _ => Err(FmuError::BadFunctionCall(status)),
    }
}

/// A failure while unpacking a bundle. The text of an operating-system or
/// archive error is carried along.
#[derive(Debug, Clone)]
pub enum FmuUnpackError {
    /// No scratch directory could be created for the ephemeral form.
    NoTempdir(String),
    /// The bundle path does not name a readable file.
    InvalidFile(String),
    /// The target directory cannot be written.
    InvalidOutputDir(String),
    /// The file is not a readable archive.
    InvalidArchive(String),
    /// The archive's manifest was rejected.
    InvalidModelDescription(ModelDescriptionError),
}

impl FmuUnpackError {
    /// A short account of the failure.
    pub fn message(&self) -> (r: String)
        ensures
            self is NoTempdir ==> r@ == "Failed to create tempdir"@,
            self is InvalidFile ==> r@ == "Invalid FMU path"@,
            self is InvalidOutputDir ==> r@ == "Invalid FMU unzip output directory"@,
            self is InvalidArchive ==> r@ == "Invalid FMU archive"@,
            self is InvalidModelDescription ==> r@ == "Invalid FMU model description XML"@,
    {
        match self {
            FmuUnpackError::NoTempdir(_) => String::from_str("Failed to create tempdir"),
            FmuUnpackError::InvalidFile(_) => String::from_str("Invalid FMU path"),
            FmuUnpackError::InvalidOutputDir(_) => String::from_str(
                "Invalid FMU unzip output directory",
            ),
            FmuUnpackError::InvalidArchive(_) => String::from_str("Invalid FMU archive"),
            FmuUnpackError::InvalidModelDescription(_) => String::from_str(
                "Invalid FMU model description XML",
            ),
        }
    }
}

/// What kind of failure the archive library reported: an underlying
/// input/output failure, or any other failure (a malformed archive).
#[derive(Debug, Clone, Copy, PartialEq, Eq, Structural)]
pub enum ArchiveFailure {
    Io,
    Malformed,
}

/// Classify a failure raised while opening a bundle archive: an
/// input/output failure means the bundle path is invalid, anything else
/// means the file is not an archive.
pub fn classify_open_failure(kind: ArchiveFailure, detail: String) -> (r: FmuUnpackError)
    ensures
        kind == ArchiveFailure::Io ==> (r matches FmuUnpackError::InvalidFile(m) && m@
            == detail@),
        kind == ArchiveFailure::Malformed ==> (r matches FmuUnpackError::InvalidArchive(m) && m@
            == detail@),
{
    match kind {
        ArchiveFailure::Io => FmuUnpackError::InvalidFile(detail),
        ArchiveFailure::Malformed => FmuUnpackError::InvalidArchive(detail),
    }
}

/// Classify a failure raised while extracting a bundle archive: an
/// input/output failure means the target directory is not writable,
/// anything else means the archive is malformed.
pub fn classify_extract_failure(kind: ArchiveFailure, detail: String) -> (r: FmuUnpackError)
    ensures
        kind == ArchiveFailure::Io ==> (r matches FmuUnpackError::InvalidOutputDir(m) && m@
            == detail@),
        kind == ArchiveFailure::Malformed ==> (r matches FmuUnpackError::InvalidArchive(m) && m@
            == detail@),
{
    match kind {
        ArchiveFailure::Io => FmuUnpackError::InvalidOutputDir(detail),
        ArchiveFailure::Malformed => FmuUnpackError::InvalidArchive(detail),
    }
}

/// A failure while loading the native library for a simulation mode.
#[derive(Debug, Clone)]
pub enum FmuLoadError {
    /// The manifest declares no co-simulation capability block.
    NoCoSimulationModel,
    /// The manifest declares no model-exchange capability block.
    NoModelExchangeModel,
    /// The dynamic library could not be loaded or a required native entry
    /// point is missing; the loader's account is carried along.
    DLOpen(String),
}

impl FmuLoadError {
    /// A short account of the failure.
    pub fn message(&self) -> (r: String)
        ensures
            self is NoCoSimulationModel ==> r@ == "FMU does not contain CoSimulation model"@,
            self is NoModelExchangeModel ==> r@ == "FMU does not contain ModelExchange model"@,
            self is DLOpen ==> r@ == "Error loading FMU dynamic library"@,
    {
        match self {
            FmuLoadError::NoCoSimulationModel => String::from_str(
                "FMU does not contain CoSimulation model",
            ),
            FmuLoadError::NoModelExchangeModel => String::from_str(
                "FMU does not contain ModelExchange model",
            ),
            FmuLoadError::DLOpen(_) => String::from_str("Error loading FMU dynamic library"),
        }
    }
}

} // verus!
