use fmu_runner::errors::FmuLoadError;
use fmu_runner::fmu::Fmu;
use fmu_runner::model_description::FmiModelDescription;
use fmu_runner::status::Fmi2Type;

fn fmu_from(xml: &str, dir: &str) -> Fmu {
    Fmu {
        unpacked_dir: dir.to_string(),
        model_description: FmiModelDescription::new(xml).unwrap(),
    }
}

const BOTH_MODES: &str = "<fmiModelDescription guid=\"g-1\">\
    <CoSimulation modelIdentifier=\"ball_cs\"/>\
    <ModelExchange modelIdentifier=\"ball_me\"/>\
    </fmiModelDescription>";

#[test]
fn resolves_library_path_per_platform() {
    let fmu = fmu_from(BOTH_MODES, "/tmp/unpacked");
    assert_eq!(
        fmu.library_path(Fmi2Type::Fmi2CoSimulation, "linux", "x86_64").unwrap(),
        "/tmp/unpacked/binaries/linux64/ball_cs.so"
    );
    assert_eq!(
        fmu.library_path(Fmi2Type::Fmi2CoSimulation, "macos", "aarch64").unwrap(),
        "/tmp/unpacked/binaries/darwin64/ball_cs.dylib"
    );
    assert_eq!(
        fmu.library_path(Fmi2Type::Fmi2CoSimulation, "windows", "x86").unwrap(),
        "/tmp/unpacked/binaries/win32/ball_cs.dll"
    );
    assert_eq!(
        fmu.library_path(Fmi2Type::Fmi2ModelExchange, "linux", "x86_64").unwrap(),
        "/tmp/unpacked/binaries/linux64/ball_me.so"
    );
    // An unrecognized platform resolves to the `unknown` directory, so a
    // missing binary is reported by the loader, never mis-resolved.
    assert_eq!(
        fmu.library_path(Fmi2Type::Fmi2CoSimulation, "plan9", "riscv").unwrap(),
        "/tmp/unpacked/binaries/unknownunknown/ball_cs.so"
    );
}

#[test]
fn missing_capability_block_is_mode_not_supported() {
    // A manifest declaring only model exchange cannot serve co-simulation.
    let me_only = "<fmiModelDescription>\
        <ModelExchange modelIdentifier=\"ball_me\"/>\
        </fmiModelDescription>";
    let fmu = fmu_from(me_only, "/tmp/u");
    assert!(matches!(
        fmu.model_identifier(Fmi2Type::Fmi2CoSimulation),
        Err(FmuLoadError::NoCoSimulationModel)
    ));
    assert!(matches!(
        fmu.library_path(Fmi2Type::Fmi2CoSimulation, "linux", "x86_64"),
        Err(FmuLoadError::NoCoSimulationModel)
    ));
    assert!(fmu.model_identifier(Fmi2Type::Fmi2ModelExchange).is_ok());

    let cs_only = "<fmiModelDescription>\
        <CoSimulation modelIdentifier=\"ball_cs\"/>\
        </fmiModelDescription>";
    let fmu = fmu_from(cs_only, "/tmp/u");
    assert!(matches!(
        fmu.model_identifier(Fmi2Type::Fmi2ModelExchange),
        Err(FmuLoadError::NoModelExchangeModel)
    ));
    assert_eq!(
        fmu.model_identifier(Fmi2Type::Fmi2CoSimulation).unwrap(),
        "ball_cs"
    );
}

#[test]
fn resource_location_is_a_file_uri() {
    let fmu = fmu_from(BOTH_MODES, "/tmp/unpacked");
    assert_eq!(fmu.resource_location(), "file:///tmp/unpacked/resources");
}

#[test]
fn variables_exposes_the_registry() {
    let xml = "<fmiModelDescription><ModelVariables>\
        <ScalarVariable name=\"y_m\" valueReference=\"3\"><Real/></ScalarVariable>\
        </ModelVariables></fmiModelDescription>";
    let fmu = fmu_from(xml, "/tmp/u");
    assert_eq!(fmu.variables().len(), 1);
    assert_eq!(fmu.variables()[0].name, "y_m");
    assert_eq!(fmu.variables()[0].value_reference, 3);
}
