//! Runtime support for driving co-simulation models packaged as FMU bundles.
//!
//! A bundle is a zip archive holding a `modelDescription.xml` manifest, a
//! `resources/` directory, and one native shared library per platform under
//! `binaries/`. This crate holds the verified core of the runtime: decoding
//! the XML manifest into a typed variable registry, resolving the native
//! binary path for a platform, generating unique instance names, tracking the
//! mandated instance lifecycle, mapping native status codes, and preparing
//! the parallel arrays that the native get/set calls consume. The unverified
//! shell that performs archive extraction, dynamic loading and the native
//! calls themselves lives outside this crate and hands plain values in.

pub mod errors;
pub mod fmu;
pub mod lifecycle;
pub mod marshal;
pub mod model_description;
pub mod status;
pub mod text;
pub mod xml;
