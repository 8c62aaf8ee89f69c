//! An unpacked bundle and the resolution of its native binary.
//!
//! A bundle is unpacked into a directory that holds the manifest, a
//! `resources/` directory, and one native library per platform under
//! `binaries/<os><bits>/`. The shell that extracts the archive owns the
//! directory's lifetime and hands its path in; everything computed from
//! the path and the manifest — which binary to load for a platform and a
//! simulation mode, and the resource location handed to the native
//! instantiate call — is decided here.

use vstd::prelude::*;

use crate::errors::FmuLoadError;
use crate::model_description::{FmiModelDescription, ScalarVariable};
use crate::status::Fmi2Type;
use crate::text::str_eq;

verus! {

/// An unpacked bundle: the directory its archive was extracted into and
/// its decoded manifest. The extracted directory must outlive this value
/// and everything loaded from it.
#[derive(Debug, Clone)]
pub struct Fmu {
    /// The directory holding the extracted bundle files.
    pub unpacked_dir: String,
    /// The decoded manifest.
    pub model_description: FmiModelDescription,
}

/// The directory name the standard assigns to an operating system, as
/// the host names it: anything unrecognized maps to `unknown`, so that a
/// missing binary is reported by the loader rather than mis-resolved.
pub open spec fn spec_os_dir(os: Seq<char>) -> Seq<char> {
    if os == "macos"@ {
        "darwin"@
    } else if os == "linux"@ {
        "linux"@
    } else if os == "windows"@ {
        "win"@
    } else {
        "unknown"@
    }
}

/// The native-library file extension the standard assigns to an
/// operating system; anything unrecognized uses the `so` extension.
pub open spec fn spec_lib_extension(os: Seq<char>) -> Seq<char> {
    if os == "macos"@ {
        "dylib"@
    } else if os == "linux"@ {
        "so"@
    } else if os == "windows"@ {
        "dll"@
    } else {
        "so"@
    }
}

/// The word-size directory suffix the standard assigns to a processor
/// architecture, as the host names it.
pub open spec fn spec_arch_bits(arch: Seq<char>) -> Seq<char> {
    if arch == "x86"@ {
        "32"@
    } else if arch == "x86_64"@ {
        "64"@
    } else if arch == "aarch64"@ {
        "64"@
    } else {
        "unknown"@
    }
}

/// Resolve the platform directory name for a host operating system.
pub fn os_dir(os: &str) -> (r: &'static str)
    ensures
        r@ == spec_os_dir(os@),
{
    if str_eq(os, "macos") {
        "darwin"
    } else if str_eq(os, "linux") {
        "linux"
    } else if str_eq(os, "windows") {
        "win"
    } else {
        "unknown"
    }
}

/// Resolve the native-library extension for a host operating system.
pub fn lib_extension(os: &str) -> (r: &'static str)
    ensures
        r@ == spec_lib_extension(os@),
{
    if str_eq(os, "macos") {
        "dylib"
    } else if str_eq(os, "linux") {
        "so"
    } else if str_eq(os, "windows") {
        "dll"
    } else {
        "so"
    }
}

/// Resolve the word-size suffix for a host architecture.
pub fn arch_bits(arch: &str) -> (r: &'static str)
    ensures
        r@ == spec_arch_bits(arch@),
{
    if str_eq(arch, "x86") {
        "32"
    } else if str_eq(arch, "x86_64") {
        "64"
    } else if str_eq(arch, "aarch64") {
        "64"
    } else {
        "unknown"
    }
}

impl Fmu {
    /// The registry of declared variables, in manifest order.
    pub fn variables(&self) -> (r: &Vec<ScalarVariable>)
        ensures
            r == &self.model_description.model_variables.scalar_variable,
    {
        &self.model_description.model_variables.scalar_variable
    }

    /// The model identifier the manifest declares for a simulation mode.
    /// Fails exactly when the mode's capability block is absent, with the
    /// error naming the missing mode.
    pub fn model_identifier(&self, simulation_type: Fmi2Type) -> (r: Result<&String, FmuLoadError>)
        ensures
            match simulation_type {
                Fmi2Type::Fmi2CoSimulation => match self.model_description.co_simulation {
                    Some(c) => r matches Ok(s) && s@ == c.model_identifier@,
                    None => r matches Err(e) && e is NoCoSimulationModel,
                },
                Fmi2Type::Fmi2ModelExchange => match self.model_description.model_exchange {
                    Some(c) => r matches Ok(s) && s@ == c.model_identifier@,
                    None => r matches Err(e) && e is NoModelExchangeModel,
                },
            },
    {
        match simulation_type {
            Fmi2Type::Fmi2CoSimulation => match &self.model_description.co_simulation {
                Some(c) => Ok(&c.model_identifier),
                None => Err(FmuLoadError::NoCoSimulationModel),
            },
            Fmi2Type::Fmi2ModelExchange => match &self.model_description.model_exchange {
                Some(c) => Ok(&c.model_identifier),
                None => Err(FmuLoadError::NoModelExchangeModel),
            },
        }
    }

    /// The path of the native library to load for a simulation mode on
    /// the given host platform:
    /// `<unpacked>/binaries/<os><bits>/<modelIdentifier>.<ext>`.
    /// Fails exactly when the mode's capability block is absent.
    pub fn library_path(&self, simulation_type: Fmi2Type, os: &str, arch: &str) -> (r: Result<
        String,
        FmuLoadError,
    >)
        ensures
            match r {
                Ok(p) => {
                    &&& (match simulation_type {
                        Fmi2Type::Fmi2CoSimulation => self.model_description.co_simulation
                            matches Some(c) && p@ == self.unpacked_dir@ + "/binaries/"@
                            + spec_os_dir(os@) + spec_arch_bits(arch@) + "/"@ + c.model_identifier@
                            + "."@ + spec_lib_extension(os@),
                        Fmi2Type::Fmi2ModelExchange => self.model_description.model_exchange
                            matches Some(c) && p@ == self.unpacked_dir@ + "/binaries/"@
                            + spec_os_dir(os@) + spec_arch_bits(arch@) + "/"@ + c.model_identifier@
                            + "."@ + spec_lib_extension(os@),
                    })
                },
                Err(e) => match simulation_type {
                    Fmi2Type::Fmi2CoSimulation => self.model_description.co_simulation is None
                        && e is NoCoSimulationModel,
                    Fmi2Type::Fmi2ModelExchange => self.model_description.model_exchange is None
                        && e is NoModelExchangeModel,
                },
            },
    {
        let identifier = match self.model_identifier(simulation_type) {
            Ok(s) => s,
            Err(e) => {
                return Err(e);
            },
        };
        let mut path = self.unpacked_dir.clone();
        path.append("/binaries/");
        path.append(os_dir(os));
        path.append(arch_bits(arch));
        path.append("/");
        path.append(identifier.as_str());
        path.append(".");
        path.append(lib_extension(os));
        Ok(path)
    }

    /// The resource location handed verbatim to the native instantiate
    /// call: a `file://` URI naming the unpacked `resources` directory.
    pub fn resource_location(&self) -> (r: String)
        ensures
            r@ == "file://"@ + self.unpacked_dir@ + "/resources"@,
    {
        let mut uri = String::from_str("file://");
        uri.append(self.unpacked_dir.as_str());
        uri.append("/resources");
        uri
    }
}

} // verus!
