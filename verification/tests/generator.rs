use studygen::emit::{
    gen_class, gen_constructor, gen_defaults, gen_graph_defs, gen_input_defs, gen_main,
    gen_methods_decl, gen_private_class, input_default, output_default, should_write_stub,
};
use studygen::study::{AutoColorType, DrawStyle, Input, InputType, Output, Study};

fn simple_output(label: &str, name: &str, style: DrawStyle) -> Output {
    Output {
        label: label.to_string(),
        name: name.to_string(),
        color: "RGB(255,255,255)".to_string(),
        second_color: None,
        width: 1,
        style,
        auto_color: None,
    }
}

fn simple_input(label: &str, name: &str, intype: InputType) -> Input {
    Input {
        label: label.to_string(),
        name: name.to_string(),
        description: String::new(),
        intype,
    }
}

fn test_study() -> Study {
    Study {
        name: "TestStudy".to_string(),
        description: "Test study".to_string(),
        region: 0,
        autoloop: true,
        enable_extra_data: false,
        pointer_events: false,
        inputs: vec![simple_input("len", "Length", InputType::Int(1))],
        outputs: vec![simple_output("ma1", "Moving Average", DrawStyle::Line)],
        private_class: None,
    }
}

#[test]
fn end_to_end_header_contents() {
    let study = test_study();
    let header = gen_class(&study);
    assert!(header.contains("IN_LEN_IDX"));
    assert!(header.contains("SCInputRef in_len;"));
    assert!(header.contains("input_default_int(in_len, \"Length\", 1);"));
    assert!(header.contains("SG_MA1_IDX"));
    assert!(header.contains("SCSubgraphRef sg_ma1;"));
    let bind = header.find("in_len(sc.Input[IN_LEN_IDX])").unwrap();
    let base = header.find("SCSFBase(sc)").unwrap();
    assert!(bind < base);
}

#[test]
fn end_to_end_header_frame() {
    let study = test_study();
    let header = gen_class(&study);
    assert!(header.starts_with("\n#ifndef ACS_TESTSTUDY_H\n#define ACS_TESTSTUDY_H\n"));
    assert!(header.contains("#include \"SCSFBase.h\""));
    assert!(header.contains("class TestStudy : public SCSFBase {"));
    assert!(header.ends_with("};\n#endif // ACS_TESTSTUDY_H\n"));
}

#[test]
fn header_is_deterministic() {
    let study = test_study();
    assert_eq!(gen_class(&study), gen_class(&study));
    assert_eq!(gen_main(&study), gen_main(&study));
}

#[test]
fn escaped_quote_in_description() {
    let mut study = test_study();
    study.description = "says \"hello\" twice".to_string();
    let header = gen_class(&study);
    assert!(header.contains("sc.StudyDescription = \"says \\\"hello\\\" twice\";"));
}

#[test]
fn escaped_quote_in_input_name() {
    let input = simple_input("q", "a \"quoted\" name", InputType::Bool(true));
    let block = input_default(&input, "    ");
    assert!(block.contains("input_default_bool(in_q, \"a \\\"quoted\\\" name\", true);"));
}

#[test]
fn escape_only_touches_quotes() {
    let input = simple_input("p", "back\\slash and 'quotes'", InputType::Bool(false));
    let block = input_default(&input, "");
    assert!(block.contains("input_default_bool(in_p, \"back\\slash and 'quotes'\", false);"));
}

#[test]
fn enum_block_order_matches_constructor_order() {
    let mut study = test_study();
    study.inputs = vec![
        simple_input("alpha", "A", InputType::Int(1)),
        simple_input("beta", "B", InputType::Int(2)),
        simple_input("gamma", "C", InputType::Int(3)),
    ];
    let defs = gen_input_defs(&study.inputs, 1);
    let a = defs.find("IN_ALPHA_IDX").unwrap();
    let b = defs.find("IN_BETA_IDX").unwrap();
    let c = defs.find("IN_GAMMA_IDX").unwrap();
    assert!(a < b && b < c);
    assert_eq!(defs.matches("_IDX,").count(), 3);
    let ctor = gen_constructor(&study, 1);
    let ca = ctor.find("in_alpha(sc.Input[IN_ALPHA_IDX])").unwrap();
    let cb = ctor.find("in_beta(sc.Input[IN_BETA_IDX])").unwrap();
    let cc = ctor.find("in_gamma(sc.Input[IN_GAMMA_IDX])").unwrap();
    assert!(ca < cb && cb < cc);
}

#[test]
fn input_defs_exact_text() {
    let inputs = vec![simple_input("len", "Length", InputType::Int(1))];
    let defs = gen_input_defs(&inputs, 1);
    assert_eq!(
        defs,
        "\n    enum Inputs {\n        IN_LEN_IDX,\n\n    };\n    SCInputRef in_len;\n"
    );
}

#[test]
fn graph_defs_exact_text() {
    let outputs = vec![simple_output("ma1", "Moving Average", DrawStyle::Line)];
    let defs = gen_graph_defs(&outputs, 1);
    assert_eq!(
        defs,
        "\n    enum Graphs {\n        SG_MA1_IDX,\n    };\n    SCSubgraphRef sg_ma1;\n"
    );
}

#[test]
fn empty_lists_emit_nothing() {
    let defs = gen_input_defs(&Vec::new(), 1);
    assert_eq!(defs, "");
    let defs = gen_graph_defs(&Vec::new(), 1);
    assert_eq!(defs, "");
}

#[test]
fn width_one_emits_no_line_width() {
    let graph = simple_output("ma1", "MA", DrawStyle::Line);
    let block = output_default(&graph, "    ");
    assert!(!block.contains("LineWidth"));
}

#[test]
fn width_other_than_one_emits_line_width() {
    let mut graph = simple_output("ma1", "MA", DrawStyle::Line);
    graph.width = 3;
    let block = output_default(&graph, "    ");
    assert!(block.contains("    sg_ma1.LineWidth = 3;\n"));
}

#[test]
fn no_second_color_emits_no_secondary_statements() {
    let graph = simple_output("ma1", "MA", DrawStyle::Line);
    let block = output_default(&graph, "    ");
    assert!(!block.contains("SecondaryColor"));
}

#[test]
fn second_color_emits_both_secondary_statements() {
    let mut graph = simple_output("ma1", "MA", DrawStyle::Line);
    graph.second_color = Some("RGB(0,0,255)".to_string());
    let block = output_default(&graph, "  ");
    assert!(block.contains("  sg_ma1.SecondaryColorUsed = TRUE;\n"));
    assert!(block.contains("  sg_ma1.SecondaryColor = RGB(0,0,255);\n"));
}

#[test]
fn auto_color_emits_statement_only_when_present() {
    let mut graph = simple_output("ma1", "MA", DrawStyle::Line);
    assert!(!output_default(&graph, "").contains("AutoColoring"));
    graph.auto_color = Some(AutoColorType::Slope);
    assert!(output_default(&graph, "").contains("sg_ma1.AutoColoring = AUTOCOLOR_SLOPE;\n"));
}

#[test]
fn stub_written_only_when_absent() {
    let study = test_study();
    let mut stub_file: Option<String> = None;
    if should_write_stub(stub_file.is_some()) {
        stub_file = Some(gen_main(&study));
    }
    assert!(stub_file.is_some());
    let edited = format!("{}\n// hand-written logic\n", stub_file.clone().unwrap());
    stub_file = Some(edited.clone());
    if should_write_stub(stub_file.is_some()) {
        stub_file = Some(gen_main(&study));
    }
    assert_eq!(stub_file.unwrap(), edited);
}

#[test]
fn stub_exact_text() {
    let mut study = test_study();
    study.name = "My Study".to_string();
    let stub = gen_main(&study);
    let expected = "\n#include \"MyStudy.h\"\n\nvoid MyStudy::last_call() {\n\n}\n\nvoid MyStudy::study() {\n    for (int index = sc.UpdateStartIndex; index < sc.ArraySize; index++) {\n        // todo\n    }\n}\n\nSCSFExport scsf_MyStudyMain(SCStudyInterfaceRef sc) {\n    MyStudy study(sc);\n    study.run();\n}\n    ";
    assert_eq!(stub, expected);
}

#[test]
fn pointer_events_line_only_when_enabled() {
    let mut study = test_study();
    assert!(!gen_defaults(&study, 1).contains("ReceivePointerEvents"));
    study.pointer_events = true;
    assert!(gen_defaults(&study, 1).contains(
        "        sc.ReceivePointerEvents = ACS_RECEIVE_POINTER_EVENTS_WHEN_ACS_BUTTON_ENABLED;\n"
    ));
}

#[test]
fn defaults_header_settings() {
    let mut study = test_study();
    study.region = 2;
    study.autoloop = false;
    study.enable_extra_data = true;
    let defaults = gen_defaults(&study, 1);
    let name = defaults.find("        sc.GraphName = \"TestStudy\";\n").unwrap();
    let desc = defaults
        .find("        sc.StudyDescription = \"Test study\";\n")
        .unwrap();
    let region = defaults.find("        sc.GraphRegion = 2;\n").unwrap();
    let autoloop = defaults.find("        sc.AutoLoop = 0;\n").unwrap();
    let extra = defaults
        .find("        sc.MaintainAdditionalChartDataArrays = 1;\n")
        .unwrap();
    assert!(name < desc && desc < region && region < autoloop && autoloop < extra);
}

#[test]
fn negative_region_renders_with_sign() {
    let mut study = test_study();
    study.region = -3;
    assert!(gen_defaults(&study, 1).contains("sc.GraphRegion = -3;\n"));
}

#[test]
fn private_class_forward_declaration() {
    let mut study = test_study();
    assert_eq!(gen_private_class(&study, 1), "");
    study.private_class = Some("Helper".to_string());
    assert_eq!(gen_private_class(&study, 1), "private:\n    class Helper;\n");
}

#[test]
fn methods_declaration_text() {
    let study = test_study();
    assert_eq!(
        gen_methods_decl(&study, 1),
        "    bool debugEnabled() override { return true; }\n    void last_call() override;\n    void study() override;\n"
    );
}
