use fmu_runner::errors::{
    classify_extract_failure, classify_open_failure, ok_or_err, ArchiveFailure, FmuError,
    FmuUnpackError,
};
use fmu_runner::marshal::{
    optional_with_flag, pair_values, set_arrays, snapshot_buffer, value_references,
};
use fmu_runner::model_description::{FmiModelDescription, ScalarVariable};
use fmu_runner::status::{Fmi2Status, Fmi2Type};

fn registry() -> Vec<ScalarVariable> {
    let xml = "<fmiModelDescription><ModelVariables>\
        <ScalarVariable name=\"h_m\" valueReference=\"0\"><Real/></ScalarVariable>\
        <ScalarVariable name=\"v_m_s\" valueReference=\"1\"><Real/></ScalarVariable>\
        <ScalarVariable name=\"h_start\" valueReference=\"4\"><Real/></ScalarVariable>\
        </ModelVariables></fmiModelDescription>";
    FmiModelDescription::new(xml)
        .unwrap()
        .model_variables
        .scalar_variable
}

#[test]
fn value_references_are_parallel_to_the_request() {
    let signals = registry();
    assert_eq!(value_references(&signals), vec![0, 1, 4]);
    assert_eq!(value_references(&Vec::new()), Vec::<u32>::new());
}

#[test]
fn returned_values_pair_with_requested_names() {
    let signals = registry();
    let values: Vec<f64> = vec![10.0, -4.9, 10.0];
    let paired = pair_values(&signals, &values);
    assert_eq!(paired.len(), 3);
    assert_eq!(paired[0], ("h_m".to_string(), 10.0));
    assert_eq!(paired[1], ("v_m_s".to_string(), -4.9));
    assert_eq!(paired[2], ("h_start".to_string(), 10.0));
}

#[test]
fn set_request_splits_into_parallel_arrays() {
    let signals = registry();
    let entries: Vec<(ScalarVariable, f64)> = vec![
        (signals[2].clone(), 10.0),
        (signals[0].clone(), 1.5),
    ];
    let (vrs, values) = set_arrays(&entries);
    assert_eq!(vrs, vec![4, 0]);
    assert_eq!(values, vec![10.0, 1.5]);
}

#[test]
fn optional_arguments_carry_an_explicit_flag() {
    assert_eq!(optional_with_flag(Some(0.25f64), 0.0), (true, 0.25));
    // An absent value hands the flag false and the don't-care placeholder.
    assert_eq!(optional_with_flag(None::<f64>, 0.0), (false, 0.0));
}

#[test]
fn snapshot_buffer_is_zeroed_and_sized() {
    let buf = snapshot_buffer(17);
    assert_eq!(buf.len(), 17);
    assert!(buf.iter().all(|b| *b == 0));
    assert_eq!(snapshot_buffer(0).len(), 0);
}

#[test]
fn status_codes_round_trip() {
    let all = [
        Fmi2Status::Fmi2Ok,
        Fmi2Status::Fmi2Warning,
        Fmi2Status::Fmi2Discard,
        Fmi2Status::Fmi2Error,
        Fmi2Status::Fmi2Fatal,
        Fmi2Status::Fmi2Pending,
    ];
    for (i, s) in all.iter().enumerate() {
        assert_eq!(s.code(), i as i32);
        assert_eq!(Fmi2Status::from_code(i as i32), Some(*s));
    }
    assert_eq!(Fmi2Status::from_code(6), None);
    assert_eq!(Fmi2Status::from_code(-1), None);
    assert_eq!(Fmi2Type::Fmi2ModelExchange.code(), 0);
    assert_eq!(Fmi2Type::Fmi2CoSimulation.code(), 1);
}

#[test]
fn only_the_success_status_is_success() {
    assert!(ok_or_err(Fmi2Status::Fmi2Ok).is_ok());
    for s in [
        Fmi2Status::Fmi2Warning,
        Fmi2Status::Fmi2Discard,
        Fmi2Status::Fmi2Error,
        Fmi2Status::Fmi2Fatal,
        Fmi2Status::Fmi2Pending,
    ] {
        // The native status is preserved, not translated away.
        assert_eq!(ok_or_err(s), Err(FmuError::BadFunctionCall(s)));
    }
}

#[test]
fn archive_failures_classify_by_stage() {
    // While opening, an input/output failure blames the bundle path.
    let e = classify_open_failure(ArchiveFailure::Io, "no such file".to_string());
    assert!(matches!(e, FmuUnpackError::InvalidFile(m) if m == "no such file"));
    let e = classify_open_failure(ArchiveFailure::Malformed, "bad magic".to_string());
    assert!(matches!(e, FmuUnpackError::InvalidArchive(m) if m == "bad magic"));

    // While extracting, an input/output failure blames the target
    // directory.
    let e = classify_extract_failure(ArchiveFailure::Io, "read-only".to_string());
    assert!(matches!(e, FmuUnpackError::InvalidOutputDir(m) if m == "read-only"));
    let e = classify_extract_failure(ArchiveFailure::Malformed, "truncated".to_string());
    assert!(matches!(e, FmuUnpackError::InvalidArchive(m) if m == "truncated"));
}

#[test]
fn error_messages_name_the_failure() {
    assert_eq!(
        FmuError::FmuInstantiateFailed.message(),
        "fmi2Instantiate() call failed"
    );
    assert_eq!(
        FmuError::BadFunctionCall(Fmi2Status::Fmi2Error).message(),
        "FMU bad function call: fmi2Error"
    );
    assert_eq!(
        FmuError::BadFunctionCall(Fmi2Status::Fmi2Discard).message(),
        "FMU bad function call: fmi2Discard"
    );
    assert_eq!(
        FmuUnpackError::InvalidFile("x".to_string()).message(),
        "Invalid FMU path"
    );
    assert_eq!(
        fmu_runner::errors::FmuLoadError::NoCoSimulationModel.message(),
        "FMU does not contain CoSimulation model"
    );
}
