use fmu_runner::model_description::{
    Causality, FmiModelDescription, Initial, ModelDescriptionError, SignalType, Variability,
};

fn bouncing_ball_xml() -> String {
    let mut s = String::new();
    s.push_str("<?xml version=\"1.0\" encoding=\"UTF-8\"?>\n");
    s.push_str("<fmiModelDescription fmiVersion=\"2.0\" modelName=\"bouncing_ball\" ");
    s.push_str("guid=\"{8c4e810f-3df3-4a00-8276-176fa3c9f000}\" description=\"A bouncing ball\" ");
    s.push_str("author=\"test\" version=\"1.0\" numberOfEventIndicators=\"1\">\n");
    s.push_str("  <!-- capability block -->\n");
    s.push_str("  <CoSimulation modelIdentifier=\"bouncing_ball\" canGetAndSetFMUstate=\"true\" ");
    s.push_str("canSerializeFMUstate=\"true\" needsExecutionTool=\"false\"/>\n");
    s.push_str("  <DefaultExperiment startTime=\"0.0\" stopTime=\"3.0\" tolerance=\"0.0001\"/>\n");
    s.push_str("  <LogCategories>\n");
    s.push_str("    <Category name=\"logAll\" description=\"everything\"/>\n");
    s.push_str("  </LogCategories>\n");
    s.push_str("  <ModelVariables>\n");
    s.push_str("    <ScalarVariable name=\"h_m\" valueReference=\"0\" causality=\"output\" variability=\"continuous\" initial=\"exact\">\n");
    s.push_str("      <Real start=\"1.0\"/>\n");
    s.push_str("    </ScalarVariable>\n");
    s.push_str("    <ScalarVariable name=\"h_start\" valueReference=\"4\" causality=\"parameter\" variability=\"fixed\">\n");
    s.push_str("      <Real start=\"10.0\"/>\n");
    s.push_str("    </ScalarVariable>\n");
    s.push_str("    <ScalarVariable name=\"ticks\" valueReference=\"7\">\n");
    s.push_str("      <Integer start=\"-3\"/>\n");
    s.push_str("    </ScalarVariable>\n");
    s.push_str("    <ScalarVariable name=\"armed\" valueReference=\"8\" causality=\"input\" variability=\"discrete\">\n");
    s.push_str("      <Boolean start=\"true\"/>\n");
    s.push_str("    </ScalarVariable>\n");
    s.push_str("    <ScalarVariable name=\"label\" valueReference=\"9\">\n");
    s.push_str("      <String/>\n");
    s.push_str("    </ScalarVariable>\n");
    s.push_str("  </ModelVariables>\n");
    s.push_str("</fmiModelDescription>\n");
    s
}

#[test]
fn parses_identity_attributes() {
    let md = FmiModelDescription::new(&bouncing_ball_xml()).unwrap();
    assert_eq!(md.fmi_version, "2.0");
    assert_eq!(md.model_name, "bouncing_ball");
    assert_eq!(md.guid, "{8c4e810f-3df3-4a00-8276-176fa3c9f000}");
    assert_eq!(md.description, "A bouncing ball");
    assert_eq!(md.author, "test");
    assert_eq!(md.version, "1.0");
    assert_eq!(md.number_of_event_indicators, "1");
    // Absent identity attributes default to the empty string.
    assert_eq!(md.copyright, "");
    assert_eq!(md.license, "");
    assert_eq!(md.generation_tool, "");
}

#[test]
fn parses_capability_block() {
    let md = FmiModelDescription::new(&bouncing_ball_xml()).unwrap();
    let cs = md.co_simulation.as_ref().unwrap();
    assert_eq!(cs.model_identifier, "bouncing_ball");
    assert!(cs.can_get_and_set_fmustate);
    assert!(cs.can_serialize_fmustate);
    assert!(!cs.needs_execution_tool);
    // An absent flag defaults to false.
    assert!(!cs.can_interpolate_inputs);
    assert!(md.model_exchange.is_none());
    assert!(md.unit_definitions.is_none());
}

#[test]
fn parses_default_experiment_as_text() {
    let md = FmiModelDescription::new(&bouncing_ball_xml()).unwrap();
    let de = md.default_experiment.as_ref().unwrap();
    assert_eq!(de.start_time.as_deref(), Some("0.0"));
    assert_eq!(de.stop_time.as_deref(), Some("3.0"));
    assert_eq!(de.tolerance.as_deref(), Some("0.0001"));
    assert!(de.step_size.is_none());
}

#[test]
fn parses_log_categories() {
    let md = FmiModelDescription::new(&bouncing_ball_xml()).unwrap();
    let lc = md.log_categories.as_ref().unwrap();
    assert_eq!(lc.category.len(), 1);
    assert_eq!(lc.category[0].name, "logAll");
    assert_eq!(lc.category[0].description, "everything");
}

#[test]
fn parses_variable_registry() {
    let md = FmiModelDescription::new(&bouncing_ball_xml()).unwrap();
    let vars = &md.model_variables.scalar_variable;
    assert_eq!(vars.len(), 5);

    let h = md.model_variables.get("h_m").unwrap();
    assert_eq!(h.value_reference, 0);
    assert_eq!(h.causality, Causality::Output);
    assert_eq!(h.variability, Variability::Continuous);
    assert_eq!(h.initial, Some(Initial::Exact));
    match &h.signal_type {
        SignalType::Real(r) => assert_eq!(r.start.as_deref(), Some("1.0")),
        other => panic!("wrong kind: {:?}", other),
    }

    let hs = md.model_variables.get("h_start").unwrap();
    assert_eq!(hs.value_reference, 4);
    assert_eq!(hs.causality, Causality::Parameter);
    assert_eq!(hs.variability, Variability::Fixed);
    assert!(hs.initial.is_none());

    let ticks = md.model_variables.get("ticks").unwrap();
    // Absent causality and variability take the manifest defaults.
    assert_eq!(ticks.causality, Causality::Local);
    assert_eq!(ticks.variability, Variability::Continuous);
    assert_eq!(ticks.description, "");
    match &ticks.signal_type {
        SignalType::Integer(i) => assert_eq!(i.start, Some(-3)),
        other => panic!("wrong kind: {:?}", other),
    }

    let armed = md.model_variables.get("armed").unwrap();
    match &armed.signal_type {
        SignalType::Boolean(b) => assert_eq!(b.start, Some(true)),
        other => panic!("wrong kind: {:?}", other),
    }

    let label = md.model_variables.get("label").unwrap();
    assert!(matches!(label.signal_type, SignalType::StringType));

    assert!(md.model_variables.get("no_such_variable").is_none());
}

#[test]
fn duplicate_names_resolve_to_last_declared() {
    let xml = "<fmiModelDescription><ModelVariables>\
        <ScalarVariable name=\"x\" valueReference=\"1\"><Real/></ScalarVariable>\
        <ScalarVariable name=\"x\" valueReference=\"2\"><Real/></ScalarVariable>\
        </ModelVariables></fmiModelDescription>";
    let md = FmiModelDescription::new(xml).unwrap();
    assert_eq!(md.model_variables.scalar_variable.len(), 2);
    assert_eq!(md.model_variables.get("x").unwrap().value_reference, 2);
}

#[test]
fn attribute_entities_are_decoded() {
    let xml = "<fmiModelDescription description=\"a &amp; b &lt;c&gt; &quot;d&quot; &apos;e&apos;\">\
        </fmiModelDescription>";
    let md = FmiModelDescription::new(xml).unwrap();
    assert_eq!(md.description, "a & b <c> \"d\" 'e'");
}

#[test]
fn malformed_xml_is_rejected_with_position() {
    let r = FmiModelDescription::new("<fmiModelDescription><Unclosed></fmiModelDescription>");
    assert!(matches!(r, Err(ModelDescriptionError::Xml(_))));

    let r = FmiModelDescription::new("no markup at all");
    assert!(matches!(r, Err(ModelDescriptionError::Xml(_))));

    let r = FmiModelDescription::new("");
    assert!(matches!(r, Err(ModelDescriptionError::Xml(_))));
}

#[test]
fn unknown_vocabulary_is_rejected() {
    let xml = "<fmiModelDescription><ModelVariables>\
        <ScalarVariable name=\"x\" valueReference=\"1\" causality=\"Input\"><Real/></ScalarVariable>\
        </ModelVariables></fmiModelDescription>";
    // Vocabulary is case-exact: `Input` is not `input`.
    assert!(matches!(
        FmiModelDescription::new(xml),
        Err(ModelDescriptionError::BadValue)
    ));
}

#[test]
fn value_reference_must_fit_the_native_handle() {
    let xml = "<fmiModelDescription><ModelVariables>\
        <ScalarVariable name=\"x\" valueReference=\"4294967296\"><Real/></ScalarVariable>\
        </ModelVariables></fmiModelDescription>";
    assert!(matches!(
        FmiModelDescription::new(xml),
        Err(ModelDescriptionError::BadValue)
    ));
    let xml = "<fmiModelDescription><ModelVariables>\
        <ScalarVariable name=\"x\" valueReference=\"4294967295\"><Real/></ScalarVariable>\
        </ModelVariables></fmiModelDescription>";
    let md = FmiModelDescription::new(xml).unwrap();
    assert_eq!(md.model_variables.get("x").unwrap().value_reference, u32::MAX);
}

#[test]
fn variable_without_kind_child_is_rejected() {
    let xml = "<fmiModelDescription><ModelVariables>\
        <ScalarVariable name=\"x\" valueReference=\"1\"></ScalarVariable>\
        </ModelVariables></fmiModelDescription>";
    assert!(matches!(
        FmiModelDescription::new(xml),
        Err(ModelDescriptionError::BadValue)
    ));
}

#[test]
fn parses_units_table() {
    let xml = "<fmiModelDescription><UnitDefinitions>\
        <Unit name=\"rad/s\">\
          <BaseUnit s=\"-1\" rad=\"1\" factor=\"1.0\"/>\
          <DisplayUnit name=\"deg/s\" factor=\"57.29\"/>\
        </Unit>\
        </UnitDefinitions></fmiModelDescription>";
    let md = FmiModelDescription::new(xml).unwrap();
    let units = &md.unit_definitions.as_ref().unwrap().unit;
    assert_eq!(units.len(), 1);
    assert_eq!(units[0].name, "rad/s");
    let bu = units[0].base_unit.as_ref().unwrap();
    assert_eq!(bu.s, Some(-1));
    assert_eq!(bu.rad, Some(1));
    assert_eq!(bu.factor.as_deref(), Some("1.0"));
    assert!(bu.kg.is_none());
    assert_eq!(units[0].display_unit.len(), 1);
    assert_eq!(units[0].display_unit[0].name, "deg/s");
    assert_eq!(units[0].display_unit[0].factor.as_deref(), Some("57.29"));
}
