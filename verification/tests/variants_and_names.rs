use studygen::emit::input_default;
use studygen::study::{
    default_color, default_drawstyle, default_false, default_true, default_width, AutoColorType,
    DrawStyle, Input, InputType, Output, Study,
};
use studygen::text::{escape_str, i32_dec, i8_dec, indent, strip_spaces, to_upper, u32_dec};

fn input_with(label: &str, name: &str, description: &str, intype: InputType) -> Input {
    Input {
        label: label.to_string(),
        name: name.to_string(),
        description: description.to_string(),
        intype,
    }
}

#[test]
fn int_input_block() {
    let input = input_with("len", "Length", "window length", InputType::Int(14));
    assert_eq!(
        input_default(&input, "  "),
        "\n  input_default_int(in_len, \"Length\", 14);\n  in_len.SetDescription(\"window length\");\n"
    );
}

#[test]
fn negative_int_input_block() {
    let input = input_with("off", "Offset", "", InputType::Int(-2));
    assert!(input_default(&input, "").contains("input_default_int(in_off, \"Offset\", -2);"));
}

#[test]
fn float_input_block() {
    let input = input_with("f", "Factor", "", InputType::Float("1.5".to_string()));
    assert_eq!(
        input_default(&input, ""),
        "\ninput_default_float(in_f, \"Factor\", 1.5f);\nin_f.SetDescription(\"\");\n"
    );
}

#[test]
fn bool_input_block() {
    let input = input_with("flag", "Flag", "", InputType::Bool(false));
    assert!(input_default(&input, "").contains("input_default_bool(in_flag, \"Flag\", false);"));
}

#[test]
fn color_input_block() {
    let input = input_with("c", "Color", "", InputType::Color("RGB(1,2,3)".to_string()));
    assert!(input_default(&input, "").contains("input_default_color(in_c, \"Color\", RGB(1,2,3));"));
}

#[test]
fn moving_average_input_block() {
    let input = input_with(
        "ma",
        "MA Type",
        "kind of average",
        InputType::MovingAvg("MOVAVGTYPE_SIMPLE".to_string()),
    );
    assert_eq!(
        input_default(&input, "  "),
        "\n  in_ma.Name = \"MA Type\";\n  in_ma.SetMovAvgType(MOVAVGTYPE_SIMPLE);\n  in_ma.SetDescription(\"kind of average\");\n"
    );
}

#[test]
fn selection_input_block() {
    let input = input_with(
        "mode",
        "Mode",
        "",
        InputType::Selection("fast;slow".to_string()),
    );
    assert!(input_default(&input, "")
        .contains("input_default_select(in_mode, \"Mode\", \"fast;slow\");"));
}

#[test]
fn data_input_block_uppercases_token() {
    let input = input_with("src", "Source", "", InputType::Data("last".to_string()));
    assert!(input_default(&input, "").contains("input_default_data(in_src, \"Source\", SC_LAST);"));
}

#[test]
fn escaped_description_in_block() {
    let input = input_with("x", "X", "the \"raw\" value", InputType::Int(0));
    assert!(input_default(&input, "").contains("in_x.SetDescription(\"the \\\"raw\\\" value\");"));
}

#[test]
fn class_name_strips_all_whitespace() {
    let study = Study {
        name: "My\tGreat Study".to_string(),
        description: String::new(),
        region: 0,
        autoloop: true,
        enable_extra_data: false,
        pointer_events: false,
        inputs: Vec::new(),
        outputs: Vec::new(),
        private_class: None,
    };
    assert_eq!(study.class_name(), "MyGreatStudy");
    assert_eq!(study.def_name(), "MY\tGREAT_STUDY");
}

#[test]
fn input_naming() {
    let input = input_with("fastLen", "Fast", "", InputType::Int(1));
    assert_eq!(input.var_name(), "in_fastLen");
    assert_eq!(input.enum_name(), "IN_FASTLEN_IDX");
}

#[test]
fn output_naming() {
    let output = Output {
        label: "ma1".to_string(),
        name: String::new(),
        color: default_color(),
        second_color: None,
        width: default_width(),
        style: default_drawstyle(),
        auto_color: None,
    };
    assert_eq!(output.var_name(), "sg_ma1");
    assert_eq!(output.enum_name(), "SG_MA1_IDX");
}

#[test]
fn defaults_for_flags() {
    assert!(!default_false());
    assert!(default_true());
    assert_eq!(default_color(), "RGB(255,255,255)");
    assert_eq!(default_width(), 1);
    assert!(matches!(default_drawstyle(), DrawStyle::Ignore));
}

#[test]
fn style_tokens() {
    assert_eq!(DrawStyle::Ignore.token(), "DRAWSTYLE_IGNORE");
    assert_eq!(DrawStyle::Line.token(), "DRAWSTYLE_LINE");
    assert_eq!(DrawStyle::Bar.token(), "DRAWSTYLE_BAR");
    assert_eq!(DrawStyle::Text.token(), "DRAWSTYLE_TEXT");
    assert_eq!(DrawStyle::Background.token(), "DRAWSTYLE_BACKGROUND");
    assert_eq!(
        DrawStyle::TransparentBackground.token(),
        "DRAWSTYLE_BACKGROUND_TRANSPARENT"
    );
    assert_eq!(
        DrawStyle::CandleFill.token(),
        "DRAWSTYLE_COLOR_BAR_CANDLE_FILL"
    );
}

#[test]
fn auto_color_tokens() {
    assert_eq!(AutoColorType::NoAuto.token(), "AUTOCOLOR_NONE");
    assert_eq!(AutoColorType::Gradient.token(), "AUTOCOLOR_GRADIENT");
    assert_eq!(AutoColorType::BaseGraph.token(), "AUTOCOLOR_BASEGRAPH");
    assert_eq!(AutoColorType::Slope.token(), "AUTOCOLOR_SLOPE");
}

#[test]
fn escape_adds_one_backslash_per_quote() {
    assert_eq!(escape_str("say \"hi\""), "say \\\"hi\\\"");
    assert_eq!(escape_str(""), "");
    assert_eq!(escape_str("\""), "\\\"");
    assert_eq!(escape_str("no quotes"), "no quotes");
    assert_eq!(escape_str("back\\slash"), "back\\slash");
}

#[test]
fn indentation_width() {
    assert_eq!(indent(0), "");
    assert_eq!(indent(1), "    ");
    assert_eq!(indent(2), "        ");
    assert_eq!(indent(-1), "");
}

#[test]
fn decimal_rendering() {
    assert_eq!(u32_dec(0), "0");
    assert_eq!(u32_dec(7), "7");
    assert_eq!(u32_dec(10), "10");
    assert_eq!(u32_dec(4294967295), "4294967295");
    assert_eq!(i32_dec(-1), "-1");
    assert_eq!(i32_dec(-2147483648), "-2147483648");
    assert_eq!(i32_dec(2147483647), "2147483647");
    assert_eq!(i8_dec(-128), "-128");
    assert_eq!(i8_dec(127), "127");
}

#[test]
fn upper_and_strip_helpers() {
    assert_eq!(to_upper("abc_Def-9"), "ABC_DEF-9");
    assert_eq!(to_upper("ümlaut"), "üMLAUT");
    assert_eq!(strip_spaces(" a b\tc\n"), "abc");
}
