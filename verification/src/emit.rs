//! The emitters: deterministic text rendering from the study model to the
//! generated header document and the once-only implementation stub. Each
//! executable emitter is pinned to a spec-level rendering of the same
//! document, so regenerating from an unchanged model reproduces the text
//! byte for byte.
use vstd::prelude::*;

use crate::study::{
    spec_autocolor_token, spec_class_name, spec_def_name, spec_drawstyle_token, spec_input_enum,
    spec_input_var, spec_output_enum, spec_output_var, Input, InputType, Output, Study,
};
use crate::text::{dec_int, escape_str, i32_dec, i8_dec, indent, spec_escape, spec_indent, to_upper, spec_upper};

verus! {

/// One line of the input enumeration block: the entry's constant, in
/// sequence order, one nesting level deeper than the block.
pub open spec fn spec_input_enum_lines(inputs: Seq<Input>, depth: int) -> Seq<char>
    decreases inputs.len(),
{
    if inputs.len() == 0 {
        Seq::empty()
    } else {
        spec_input_enum_lines(inputs.drop_last(), depth) + spec_indent(depth + 1)
            + spec_input_enum(inputs.last().label@) + ",\n"@
    }
}

/// One field declaration per input, in sequence order.
pub open spec fn spec_input_field_lines(inputs: Seq<Input>, depth: int) -> Seq<char>
    decreases inputs.len(),
{
    if inputs.len() == 0 {
        Seq::empty()
    } else {
        spec_input_field_lines(inputs.drop_last(), depth) + spec_indent(depth) + "SCInputRef "@
            + spec_input_var(inputs.last().label@) + ";\n"@
    }
}

/// The whole input declaration section: an enum block listing every input's
/// constant in sequence order, then one field declaration per input. An
/// empty input list emits nothing at all.
pub open spec fn spec_gen_input_defs(inputs: Seq<Input>, depth: int) -> Seq<char> {
    if inputs.len() == 0 {
        Seq::empty()
    } else {
        "\n"@ + spec_indent(depth) + "enum Inputs {\n"@ + spec_input_enum_lines(inputs, depth)
            + "\n"@ + spec_indent(depth) + "};\n"@ + spec_input_field_lines(inputs, depth)
    }
}

/// One line of the output enumeration block, in sequence order.
pub open spec fn spec_output_enum_lines(outputs: Seq<Output>, depth: int) -> Seq<char>
    decreases outputs.len(),
{
    if outputs.len() == 0 {
        Seq::empty()
    } else {
        spec_output_enum_lines(outputs.drop_last(), depth) + spec_indent(depth + 1)
            + spec_output_enum(outputs.last().label@) + ",\n"@
    }
}

/// One field declaration per output channel, in sequence order.
pub open spec fn spec_output_field_lines(outputs: Seq<Output>, depth: int) -> Seq<char>
    decreases outputs.len(),
{
    if outputs.len() == 0 {
        Seq::empty()
    } else {
        spec_output_field_lines(outputs.drop_last(), depth) + spec_indent(depth)
            + "SCSubgraphRef "@ + spec_output_var(outputs.last().label@) + ";\n"@
    }
}

/// The whole output declaration section: an enum block listing every
/// channel's constant in sequence order, then one field declaration per
/// channel. An empty output list emits nothing at all.
pub open spec fn spec_gen_graph_defs(outputs: Seq<Output>, depth: int) -> Seq<char> {
    if outputs.len() == 0 {
        Seq::empty()
    } else {
        "\n"@ + spec_indent(depth) + "enum Graphs {\n"@ + spec_output_enum_lines(outputs, depth)
            + spec_indent(depth) + "};\n"@ + spec_output_field_lines(outputs, depth)
    }
}

/// Emits the enum block and field declarations for the inputs, in the order
/// given; an empty list yields the empty string.
pub fn gen_input_defs(inputs: &Vec<Input>, depth: i8) -> (r: String)
    requires
        depth < 127,
    ensures
        r@ == spec_gen_input_defs(inputs@, depth as int),
{
    let mut s = String::new();
    if inputs.len() == 0 {
        return s;
    }
    let prefix = indent(depth);
    s.append("\n");
    s.append(prefix.as_str());
    s.append("enum Inputs {\n");
    let entry_prefix = indent(depth + 1);
    let n = inputs.len();
    let ghost head = s@;
    let mut i: usize = 0;
    while i < n
        invariant
            n == inputs@.len(),
            i <= n,
            entry_prefix@ == spec_indent(depth as int + 1),
            s@ == head + spec_input_enum_lines(inputs@.take(i as int), depth as int),
        decreases n - i,
    {
        s.append(entry_prefix.as_str());
        let e = inputs[i].enum_name();
        s.append(e.as_str());
        s.append(",\n");
        proof {
            assert(inputs@.take(i + 1).drop_last() =~= inputs@.take(i as int));
            assert(s@ =~= head + spec_input_enum_lines(inputs@.take(i + 1), depth as int));
        }
        i = i + 1;
    }
    s.append("\n");
    s.append(prefix.as_str());
    s.append("};\n");
    let ghost mid = s@;
    let mut i: usize = 0;
    while i < n
        invariant
            n == inputs@.len(),
            i <= n,
            prefix@ == spec_indent(depth as int),
            s@ == mid + spec_input_field_lines(inputs@.take(i as int), depth as int),
        decreases n - i,
    {
        s.append(prefix.as_str());
        s.append("SCInputRef ");
        let v = inputs[i].var_name();
        s.append(v.as_str());
        s.append(";\n");
        proof {
            assert(inputs@.take(i + 1).drop_last() =~= inputs@.take(i as int));
            assert(s@ =~= mid + spec_input_field_lines(inputs@.take(i + 1), depth as int));
        }
        i = i + 1;
    }
    proof {
        assert(inputs@.take(n as int) =~= inputs@);
        assert(s@ =~= spec_gen_input_defs(inputs@, depth as int));
    }
    s
}

/// Emits the enum block and field declarations for the output channels, in
/// the order given; an empty list yields the empty string.
pub fn gen_graph_defs(graphs: &Vec<Output>, depth: i8) -> (r: String)
    requires
        depth < 127,
    ensures
        r@ == spec_gen_graph_defs(graphs@, depth as int),
{
    let mut s = String::new();
    if graphs.len() == 0 {
        return s;
    }
    let prefix = indent(depth);
    s.append("\n");
    s.append(prefix.as_str());
    s.append("enum Graphs {\n");
    let entry_prefix = indent(depth + 1);
    let n = graphs.len();
    let ghost head = s@;
    let mut i: usize = 0;
    while i < n
        invariant
            n == graphs@.len(),
            i <= n,
            entry_prefix@ == spec_indent(depth as int + 1),
            s@ == head + spec_output_enum_lines(graphs@.take(i as int), depth as int),
        decreases n - i,
    {
        s.append(entry_prefix.as_str());
        let e = graphs[i].enum_name();
        s.append(e.as_str());
        s.append(",\n");
        proof {
            assert(graphs@.take(i + 1).drop_last() =~= graphs@.take(i as int));
            assert(s@ =~= head + spec_output_enum_lines(graphs@.take(i + 1), depth as int));
        }
        i = i + 1;
    }
    s.append(prefix.as_str());
    s.append("};\n");
    let ghost mid = s@;
    let mut i: usize = 0;
    while i < n
        invariant
            n == graphs@.len(),
            i <= n,
            prefix@ == spec_indent(depth as int),
            s@ == mid + spec_output_field_lines(graphs@.take(i as int), depth as int),
        decreases n - i,
    {
        s.append(prefix.as_str());
        s.append("SCSubgraphRef ");
        let v = graphs[i].var_name();
        s.append(v.as_str());
        s.append(";\n");
        proof {
            assert(graphs@.take(i + 1).drop_last() =~= graphs@.take(i as int));
            assert(s@ =~= mid + spec_output_field_lines(graphs@.take(i + 1), depth as int));
        }
        i = i + 1;
    }
    proof {
        assert(graphs@.take(n as int) =~= graphs@);
        assert(s@ =~= spec_gen_graph_defs(graphs@, depth as int));
    }
    s
}

/// The boolean keyword literal.
pub open spec fn spec_bool_lit(b: bool) -> Seq<char> {
    if b {
        "true"@
    } else {
        "false"@
    }
}

/// The numeric form a boolean flag is emitted as.
pub open spec fn spec_bool_int(b: bool) -> Seq<char> {
    if b {
        "1"@
    } else {
        "0"@
    }
}

/// The type-dispatched default-initialization statement(s) of one input: the
/// call pattern and the rendering of the default value are fully determined
/// by the input's variant. Free-text display names are escaped; color
/// expressions, symbolic tokens and the pre-rendered float text are embedded
/// verbatim.
pub open spec fn spec_input_call(inp: Input, prefix: Seq<char>) -> Seq<char> {
    let var = spec_input_var(inp.label@);
    let name = spec_escape(inp.name@);
    match inp.intype {
        InputType::Int(n) => prefix + "input_default_int("@ + var + ", \""@ + name + "\", "@
            + dec_int(n as int) + ");\n"@,
        InputType::Float(t) => prefix + "input_default_float("@ + var + ", \""@ + name + "\", "@
            + t@ + "f);\n"@,
        InputType::Bool(b) => prefix + "input_default_bool("@ + var + ", \""@ + name + "\", "@
            + spec_bool_lit(b) + ");\n"@,
        InputType::Color(c) => prefix + "input_default_color("@ + var + ", \""@ + name + "\", "@
            + c@ + ");\n"@,
        InputType::MovingAvg(ma) => prefix + var + ".Name = \""@ + name + "\";\n"@ + prefix + var
            + ".SetMovAvgType("@ + ma@ + ");\n"@,
        InputType::Selection(values) => prefix + "input_default_select("@ + var + ", \""@ + name
            + "\", \""@ + values@ + "\");\n"@,
        InputType::Data(d) => prefix + "input_default_data("@ + var + ", \""@ + name + "\", SC_"@
            + spec_upper(d@) + ");\n"@,
    }
}

/// The whole default block of one input: the type-dispatched call(s), then
/// unconditionally the description-setting call with the description escaped.
pub open spec fn spec_input_default(inp: Input, prefix: Seq<char>) -> Seq<char> {
    "\n"@ + spec_input_call(inp, prefix) + prefix + spec_input_var(inp.label@)
        + ".SetDescription(\""@ + spec_escape(inp.description@) + "\");\n"@
}

/// Emits the default block of one input under the given statement prefix.
#[verifier::rlimit(60)]
pub fn input_default(input: &Input, prefix: &str) -> (r: String)
    ensures
        r@ == spec_input_default(*input, prefix@),
{
    let mut s = String::new();
    s.append("\n");
    let var = input.var_name();
    let name = escape_str(input.name.as_str());
    match &input.intype {
        InputType::Int(n) => {
            s.append(prefix);
            s.append("input_default_int(");
            s.append(var.as_str());
            s.append(", \"");
            s.append(name.as_str());
            s.append("\", ");
            let d = i32_dec(*n);
            s.append(d.as_str());
            s.append(");\n");
            assert(s@ =~= "\n"@ + spec_input_call(*input, prefix@));
        },
        InputType::Float(t) => {
            s.append(prefix);
            s.append("input_default_float(");
            s.append(var.as_str());
            s.append(", \"");
            s.append(name.as_str());
            s.append("\", ");
            s.append(t.as_str());
            s.append("f);\n");
            assert(s@ =~= "\n"@ + spec_input_call(*input, prefix@));
        },
        InputType::Bool(b) => {
            s.append(prefix);
            s.append("input_default_bool(");
            s.append(var.as_str());
            s.append(", \"");
            s.append(name.as_str());
            s.append("\", ");
            if *b {
                s.append("true");
            } else {
                s.append("false");
            }
            s.append(");\n");
            assert(s@ =~= "\n"@ + spec_input_call(*input, prefix@));
        },
        InputType::Color(c) => {
            s.append(prefix);
            s.append("input_default_color(");
            s.append(var.as_str());
            s.append(", \"");
            s.append(name.as_str());
            s.append("\", ");
            s.append(c.as_str());
            s.append(");\n");
            assert(s@ =~= "\n"@ + spec_input_call(*input, prefix@));
        },
        InputType::MovingAvg(ma) => {
            s.append(prefix);
            s.append(var.as_str());
            s.append(".Name = \"");
            s.append(name.as_str());
            s.append("\";\n");
            s.append(prefix);
            s.append(var.as_str());
            s.append(".SetMovAvgType(");
            s.append(ma.as_str());
            s.append(");\n");
            assert(s@ =~= "\n"@ + spec_input_call(*input, prefix@));
        },
        InputType::Selection(values) => {
            s.append(prefix);
            s.append("input_default_select(");
            s.append(var.as_str());
            s.append(", \"");
            s.append(name.as_str());
            s.append("\", \"");
            s.append(values.as_str());
            s.append("\");\n");
            assert(s@ =~= "\n"@ + spec_input_call(*input, prefix@));
        },
        InputType::Data(d) => {
            s.append(prefix);
            s.append("input_default_data(");
            s.append(var.as_str());
            s.append(", \"");
            s.append(name.as_str());
            s.append("\", SC_");
            let u = to_upper(d.as_str());
            s.append(u.as_str());
            s.append(");\n");
            assert(s@ =~= "\n"@ + spec_input_call(*input, prefix@));
        },
    }
    assert(s@ =~= "\n"@ + spec_input_call(*input, prefix@));
    s.append(prefix);
    s.append(var.as_str());
    s.append(".SetDescription(\"");
    let desc = escape_str(input.description.as_str());
    s.append(desc.as_str());
    s.append("\");\n");
    assert(s@ =~= spec_input_default(*input, prefix@));
    s
}

/// The unconditional opening of one subgraph-default block: the
/// name/style/color call, with the display name escaped.
pub open spec fn spec_output_head(g: Output, prefix: Seq<char>) -> Seq<char> {
    "\n"@ + prefix + "subgraph_default("@ + spec_output_var(g.label@) + ", \""@ + spec_escape(
        g.name@,
    ) + "\", "@ + spec_drawstyle_token(g.style) + ", "@ + g.color@ + ");\n"@
}

/// The line-width statement of one output channel, present exactly when the
/// width is not one.
pub open spec fn spec_width_part(g: Output, prefix: Seq<char>) -> Seq<char> {
    if g.width != 1 {
        prefix + spec_output_var(g.label@) + ".LineWidth = "@ + dec_int(g.width as int) + ";\n"@
    } else {
        Seq::<char>::empty()
    }
}

/// The secondary-color statements of one output channel, present exactly
/// when a second color is given.
pub open spec fn spec_second_color_part(g: Output, prefix: Seq<char>) -> Seq<char> {
    match g.second_color {
        Some(c) => prefix + spec_output_var(g.label@) + ".SecondaryColorUsed = TRUE;\n"@ + prefix
            + spec_output_var(g.label@) + ".SecondaryColor = "@ + c@ + ";\n"@,
        None => Seq::<char>::empty(),
    }
}

/// The auto-coloring statement of one output channel, present exactly when
/// an auto-color mode is given.
pub open spec fn spec_auto_color_part(g: Output, prefix: Seq<char>) -> Seq<char> {
    match g.auto_color {
        Some(a) => prefix + spec_output_var(g.label@) + ".AutoColoring = "@ + spec_autocolor_token(
            a,
        ) + ";\n"@,
        None => Seq::<char>::empty(),
    }
}

/// The subgraph-default block of one output channel: always the
/// name/style/color call (the display name escaped), then a line-width
/// statement only when the width is not one, secondary-color statements only
/// when a second color is present, and an auto-coloring statement only when
/// an auto-color mode is present.
pub open spec fn spec_output_default(g: Output, prefix: Seq<char>) -> Seq<char> {
    spec_output_head(g, prefix) + spec_width_part(g, prefix) + spec_second_color_part(g, prefix)
        + spec_auto_color_part(g, prefix)
}

/// Emits the subgraph-default block of one output channel under the given
/// statement prefix.
#[verifier::rlimit(60)]
pub fn output_default(graph: &Output, prefix: &str) -> (r: String)
    ensures
        r@ == spec_output_default(*graph, prefix@),
{
    let mut s = String::new();
    let var = graph.var_name();
    s.append("\n");
    s.append(prefix);
    s.append("subgraph_default(");
    s.append(var.as_str());
    s.append(", \"");
    let name = escape_str(graph.name.as_str());
    s.append(name.as_str());
    s.append("\", ");
    let style = graph.style.token();
    s.append(style.as_str());
    s.append(", ");
    s.append(graph.color.as_str());
    s.append(");\n");
    assert(s@ =~= spec_output_head(*graph, prefix@));
    let ghost head = s@;
    if graph.width != 1 {
        s.append(prefix);
        s.append(var.as_str());
        s.append(".LineWidth = ");
        let w = i8_dec(graph.width);
        s.append(w.as_str());
        s.append(";\n");
    }
    assert(s@ =~= head + spec_width_part(*graph, prefix@));
    let ghost with_width = s@;
    match &graph.second_color {
        Some(c) => {
            s.append(prefix);
            s.append(var.as_str());
            s.append(".SecondaryColorUsed = TRUE;\n");
            s.append(prefix);
            s.append(var.as_str());
            s.append(".SecondaryColor = ");
            s.append(c.as_str());
            s.append(";\n");
        },
        None => {},
    }
    assert(s@ =~= with_width + spec_second_color_part(*graph, prefix@));
    let ghost with_second = s@;
    match &graph.auto_color {
        Some(a) => {
            s.append(prefix);
            s.append(var.as_str());
            s.append(".AutoColoring = ");
            let t = a.token();
            s.append(t.as_str());
            s.append(";\n");
        },
        None => {},
    }
    assert(s@ =~= with_second + spec_auto_color_part(*graph, prefix@));
    assert(s@ =~= spec_output_default(*graph, prefix@));
    s
}

/// The default blocks of all inputs, in sequence order.
pub open spec fn spec_input_defaults(inputs: Seq<Input>, prefix: Seq<char>) -> Seq<char>
    decreases inputs.len(),
{
    if inputs.len() == 0 {
        Seq::empty()
    } else {
        spec_input_defaults(inputs.drop_last(), prefix) + spec_input_default(
            inputs.last(),
            prefix,
        )
    }
}

/// The subgraph-default blocks of all output channels, in sequence order.
pub open spec fn spec_output_defaults(outputs: Seq<Output>, prefix: Seq<char>) -> Seq<char>
    decreases outputs.len(),
{
    if outputs.len() == 0 {
        Seq::empty()
    } else {
        spec_output_defaults(outputs.drop_last(), prefix) + spec_output_default(
            outputs.last(),
            prefix,
        )
    }
}

/// The two identifying settings that open the defaults method: the graph
/// name and the study description, both escaped.
pub open spec fn spec_defaults_idents(s: Study, prefix: Seq<char>) -> Seq<char> {
    prefix + "sc.GraphName = \""@ + spec_escape(s.name@) + "\";\n"@ + prefix
        + "sc.StudyDescription = \""@ + spec_escape(s.description@) + "\";\n"@
}

/// The region and flag settings of the defaults method: chart region,
/// autoloop, extra-data maintenance, and, only when pointer events are
/// requested, the pointer-event statement.
pub open spec fn spec_defaults_flags(s: Study, prefix: Seq<char>) -> Seq<char> {
    prefix + "sc.GraphRegion = "@ + dec_int(s.region as int) + ";\n"@ + prefix
        + "sc.AutoLoop = "@ + spec_bool_int(s.autoloop) + ";\n"@ + prefix
        + "sc.MaintainAdditionalChartDataArrays = "@ + spec_bool_int(s.enable_extra_data)
        + ";\n"@ + (if s.pointer_events {
        prefix + "sc.ReceivePointerEvents = ACS_RECEIVE_POINTER_EVENTS_WHEN_ACS_BUTTON_ENABLED;\n"@
    } else {
        Seq::<char>::empty()
    })
}

/// The study-wide settings that open the defaults method: graph name (the
/// display string escaped), escaped description, the region and autoloop and
/// extra-data settings, and, only when pointer events are requested, the
/// pointer-event statement.
pub open spec fn spec_defaults_header(s: Study, prefix: Seq<char>) -> Seq<char> {
    spec_defaults_idents(s, prefix) + spec_defaults_flags(s, prefix)
}

/// The whole defaults method: the study-wide settings, one default block per
/// input, and one subgraph-default block per output channel, each list in
/// sequence order.
pub open spec fn spec_gen_defaults(s: Study, depth: int) -> Seq<char> {
    let prefix = spec_indent(depth + 1);
    "\n\n"@ + spec_indent(depth) + "void defaults() override {\n"@ + spec_defaults_header(
        s,
        prefix,
    ) + spec_input_defaults(s.inputs@, prefix) + spec_output_defaults(s.outputs@, prefix)
        + spec_indent(depth) + "}\n"@
}

/// The numeric text a boolean flag is emitted as.
fn bool_int_str(b: bool) -> (r: String)
    ensures
        r@ == spec_bool_int(b),
{
    if b {
        "1".to_owned()
    } else {
        "0".to_owned()
    }
}

/// The pointer-event statement, present only when the flag is set.
fn pointer_events_line(flag: bool, prefix: &str) -> (r: String)
    ensures
        r@ == (if flag {
            prefix@ + "sc.ReceivePointerEvents = ACS_RECEIVE_POINTER_EVENTS_WHEN_ACS_BUTTON_ENABLED;\n"@
        } else {
            Seq::<char>::empty()
        }),
{
    let mut s = String::new();
    if flag {
        s.append(prefix);
        s.append("sc.ReceivePointerEvents = ACS_RECEIVE_POINTER_EVENTS_WHEN_ACS_BUTTON_ENABLED;\n");
    }
    assert(s@ =~= (if flag {
        prefix@ + "sc.ReceivePointerEvents = ACS_RECEIVE_POINTER_EVENTS_WHEN_ACS_BUTTON_ENABLED;\n"@
    } else {
        Seq::<char>::empty()
    }));
    s
}

/// One generated statement line: prefix, the statement opening, an embedded
/// value, and the statement close.
fn stmt_line(prefix: &str, head: &str, value: &str, tail: &str) -> (r: String)
    ensures
        r@ == prefix@ + head@ + value@ + tail@,
{
    let mut s = String::new();
    s.append(prefix);
    s.append(head);
    s.append(value);
    s.append(tail);
    assert(s@ =~= prefix@ + head@ + value@ + tail@);
    s
}

/// Emits the opening of the defaults method: the study-wide settings.
#[verifier::rlimit(100)]
fn gen_defaults_head(config: &Study, depth: i8) -> (r: String)
    requires
        depth < 127,
    ensures
        r@ == "\n\n"@ + spec_indent(depth as int) + "void defaults() override {\n"@
            + spec_defaults_header(*config, spec_indent(depth as int + 1)),
{
    let mut s = String::new();
    let outer = indent(depth);
    let prefix = indent(depth + 1);
    s.append("\n\n");
    s.append(outer.as_str());
    s.append("void defaults() override {\n");
    let ghost opening = s@;
    let name = escape_str(config.name.as_str());
    let line = stmt_line(prefix.as_str(), "sc.GraphName = \"", name.as_str(), "\";\n");
    s.append(line.as_str());
    let desc = escape_str(config.description.as_str());
    let line = stmt_line(prefix.as_str(), "sc.StudyDescription = \"", desc.as_str(), "\";\n");
    s.append(line.as_str());
    assert(s@ =~= opening + spec_defaults_idents(*config, prefix@));
    let ghost idents = s@;
    let region = i8_dec(config.region);
    let line = stmt_line(prefix.as_str(), "sc.GraphRegion = ", region.as_str(), ";\n");
    s.append(line.as_str());
    let autoloop = bool_int_str(config.autoloop);
    let line = stmt_line(prefix.as_str(), "sc.AutoLoop = ", autoloop.as_str(), ";\n");
    s.append(line.as_str());
    let extra = bool_int_str(config.enable_extra_data);
    let line = stmt_line(
        prefix.as_str(),
        "sc.MaintainAdditionalChartDataArrays = ",
        extra.as_str(),
        ";\n",
    );
    s.append(line.as_str());
    let pointer = pointer_events_line(config.pointer_events, prefix.as_str());
    s.append(pointer.as_str());
    assert(s@ =~= idents + spec_defaults_flags(*config, prefix@));
    assert(s@ =~= opening + spec_defaults_header(*config, prefix@));
    s
}

/// Emits the defaults method of the generated class.
pub fn gen_defaults(config: &Study, depth: i8) -> (r: String)
    requires
        depth < 127,
    ensures
        r@ == spec_gen_defaults(*config, depth as int),
{
    let outer = indent(depth);
    let prefix = indent(depth + 1);
    let mut s = gen_defaults_head(config, depth);
    let ghost head = s@;
    let n = config.inputs.len();
    let mut i: usize = 0;
    while i < n
        invariant
            n == config.inputs@.len(),
            i <= n,
            prefix@ == spec_indent(depth as int + 1),
            s@ == head + spec_input_defaults(config.inputs@.take(i as int), prefix@),
        decreases n - i,
    {
        let block = input_default(&config.inputs[i], prefix.as_str());
        s.append(block.as_str());
        proof {
            assert(config.inputs@.take(i + 1).drop_last() =~= config.inputs@.take(i as int));
            assert(s@ =~= head + spec_input_defaults(config.inputs@.take(i + 1), prefix@));
        }
        i = i + 1;
    }
    proof {
        assert(config.inputs@.take(n as int) =~= config.inputs@);
    }
    let ghost mid = s@;
    let m = config.outputs.len();
    let mut i: usize = 0;
    while i < m
        invariant
            m == config.outputs@.len(),
            i <= m,
            prefix@ == spec_indent(depth as int + 1),
            s@ == mid + spec_output_defaults(config.outputs@.take(i as int), prefix@),
        decreases m - i,
    {
        let block = output_default(&config.outputs[i], prefix.as_str());
        s.append(block.as_str());
        proof {
            assert(config.outputs@.take(i + 1).drop_last() =~= config.outputs@.take(i as int));
            assert(s@ =~= mid + spec_output_defaults(config.outputs@.take(i + 1), prefix@));
        }
        i = i + 1;
    }
    proof {
        assert(config.outputs@.take(m as int) =~= config.outputs@);
    }
    s.append(outer.as_str());
    s.append("}\n");
    assert(s@ =~= spec_gen_defaults(*config, depth as int));
    s
}

/// One constructor initializer per input, binding its field to its
/// enum-indexed runtime slot, in sequence order.
pub open spec fn spec_ctor_input_lines(inputs: Seq<Input>, prefix: Seq<char>) -> Seq<char>
    decreases inputs.len(),
{
    if inputs.len() == 0 {
        Seq::empty()
    } else {
        spec_ctor_input_lines(inputs.drop_last(), prefix) + prefix + spec_input_var(
            inputs.last().label@,
        ) + "(sc.Input["@ + spec_input_enum(inputs.last().label@) + "]),\n"@
    }
}

/// One constructor initializer per output channel, binding its field to its
/// enum-indexed runtime slot, in sequence order.
pub open spec fn spec_ctor_output_lines(outputs: Seq<Output>, prefix: Seq<char>) -> Seq<char>
    decreases outputs.len(),
{
    if outputs.len() == 0 {
        Seq::empty()
    } else {
        spec_ctor_output_lines(outputs.drop_last(), prefix) + prefix + spec_output_var(
            outputs.last().label@,
        ) + "(sc.Subgraph["@ + spec_output_enum(outputs.last().label@) + "]),\n"@
    }
}

/// The constructor: every input field bound to its enum-indexed slot, then
/// every output field likewise, in the same order as the declaration lists,
/// followed by the base-class initializer.
pub open spec fn spec_gen_constructor(s: Study, depth: int) -> Seq<char> {
    let inner = spec_indent(depth + 1);
    spec_indent(depth - 1) + "public:\n"@ + spec_indent(depth) + "explicit "@ + spec_class_name(
        s.name@,
    ) + "(SCStudyInterfaceRef sc) :\n"@ + spec_ctor_input_lines(s.inputs@, inner)
        + spec_ctor_output_lines(s.outputs@, inner) + inner + "SCSFBase(sc) {};\n"@
}

/// Emits the constructor of the generated class.
#[verifier::rlimit(60)]
pub fn gen_constructor(config: &Study, depth: i8) -> (r: String)
    requires
        -127 <= depth < 127,
    ensures
        r@ == spec_gen_constructor(*config, depth as int),
{
    let mut s = String::new();
    let outer = indent(depth - 1);
    s.append(outer.as_str());
    s.append("public:\n");
    let own = indent(depth);
    s.append(own.as_str());
    s.append("explicit ");
    let cls = config.class_name();
    s.append(cls.as_str());
    s.append("(SCStudyInterfaceRef sc) :\n");
    let prefix = indent(depth + 1);
    assert(s@ =~= spec_indent(depth as int - 1) + "public:\n"@ + spec_indent(depth as int)
        + "explicit "@ + spec_class_name(config.name@) + "(SCStudyInterfaceRef sc) :\n"@);
    let ghost head = s@;
    let n = config.inputs.len();
    let mut i: usize = 0;
    while i < n
        invariant
            n == config.inputs@.len(),
            i <= n,
            prefix@ == spec_indent(depth as int + 1),
            s@ == head + spec_ctor_input_lines(config.inputs@.take(i as int), prefix@),
        decreases n - i,
    {
        s.append(prefix.as_str());
        let v = config.inputs[i].var_name();
        s.append(v.as_str());
        s.append("(sc.Input[");
        let e = config.inputs[i].enum_name();
        s.append(e.as_str());
        s.append("]),\n");
        proof {
            assert(config.inputs@.take(i + 1).drop_last() =~= config.inputs@.take(i as int));
            assert(s@ =~= head + spec_ctor_input_lines(config.inputs@.take(i + 1), prefix@));
        }
        i = i + 1;
    }
    proof {
        assert(config.inputs@.take(n as int) =~= config.inputs@);
    }
    let ghost mid = s@;
    let m = config.outputs.len();
    let mut i: usize = 0;
    while i < m
        invariant
            m == config.outputs@.len(),
            i <= m,
            prefix@ == spec_indent(depth as int + 1),
            s@ == mid + spec_ctor_output_lines(config.outputs@.take(i as int), prefix@),
        decreases m - i,
    {
        s.append(prefix.as_str());
        let v = config.outputs[i].var_name();
        s.append(v.as_str());
        s.append("(sc.Subgraph[");
        let e = config.outputs[i].enum_name();
        s.append(e.as_str());
        s.append("]),\n");
        proof {
            assert(config.outputs@.take(i + 1).drop_last() =~= config.outputs@.take(i as int));
            assert(s@ =~= mid + spec_ctor_output_lines(config.outputs@.take(i + 1), prefix@));
        }
        i = i + 1;
    }
    proof {
        assert(config.outputs@.take(m as int) =~= config.outputs@);
    }
    s.append(prefix.as_str());
    s.append("SCSFBase(sc) {};\n");
    assert(s@ =~= spec_gen_constructor(*config, depth as int));
    s
}

/// The fixed method declarations: the debug-enabled accessor returning true,
/// and declarations of the two per-update lifecycle hooks.
pub open spec fn spec_gen_methods_decl(depth: int) -> Seq<char> {
    spec_indent(depth) + "bool debugEnabled() override { return true; }\n"@ + spec_indent(depth)
        + "void last_call() override;\n"@ + spec_indent(depth) + "void study() override;\n"@
}

/// Emits the fixed method declarations of the generated class.
pub fn gen_methods_decl(_config: &Study, depth: i8) -> (r: String)
    ensures
        r@ == spec_gen_methods_decl(depth as int),
{
    let mut s = String::new();
    let prefix = indent(depth);
    s.append(prefix.as_str());
    s.append("bool debugEnabled() override { return true; }\n");
    s.append(prefix.as_str());
    s.append("void last_call() override;\n");
    s.append(prefix.as_str());
    s.append("void study() override;\n");
    assert(s@ =~= spec_gen_methods_decl(depth as int));
    s
}

/// The forward declaration of the nested private type, emitted only when the
/// study names one.
pub open spec fn spec_gen_private_class(s: Study, depth: int) -> Seq<char> {
    match s.private_class {
        Some(name) => "private:\n"@ + spec_indent(depth) + "class "@ + name@ + ";\n"@,
        None => Seq::<char>::empty(),
    }
}

/// Emits the private nested-type forward declaration, if the study names one.
pub fn gen_private_class(config: &Study, depth: i8) -> (r: String)
    ensures
        r@ == spec_gen_private_class(*config, depth as int),
{
    let mut s = String::new();
    match &config.private_class {
        Some(name) => {
            s.append("private:\n");
            let prefix = indent(depth);
            s.append(prefix.as_str());
            s.append("class ");
            s.append(name.as_str());
            s.append(";\n");
        },
        None => {},
    }
    assert(s@ =~= spec_gen_private_class(*config, depth as int));
    s
}

/// The opening of the header document: the include-guard, the base-class
/// include directive, and the class opening line.
pub open spec fn spec_class_head(s: Study) -> Seq<char> {
    "\n#ifndef ACS_"@ + spec_def_name(s.name@) + "_H\n#define ACS_"@ + spec_def_name(s.name@)
        + "_H\n        \n#include \"SCSFBase.h\"\n\nclass "@ + spec_class_name(s.name@)
        + " : public SCSFBase {"@
}

/// The close of the header document: the class closing brace and the
/// include-guard close.
pub open spec fn spec_class_tail(s: Study) -> Seq<char> {
    "};\n#endif // ACS_"@ + spec_def_name(s.name@) + "_H\n"@
}

/// The whole header document: guard and class opening, input declarations,
/// output declarations, the defaults method, the constructor, the fixed
/// method declarations, the optional private nested-type declaration, and
/// the closing braces, in that order. The document is a function of the
/// study alone.
pub open spec fn spec_gen_class(s: Study) -> Seq<char> {
    spec_class_head(s) + spec_gen_input_defs(s.inputs@, 1) + spec_gen_graph_defs(s.outputs@, 1)
        + spec_gen_defaults(s, 1) + spec_gen_constructor(s, 1) + spec_gen_methods_decl(1)
        + spec_gen_private_class(s, 1) + spec_class_tail(s)
}

/// Emits the full header document for a study.
#[verifier::rlimit(60)]
pub fn gen_class(config: &Study) -> (r: String)
    ensures
        r@ == spec_gen_class(*config),
{
    let def = config.def_name();
    let cls = config.class_name();
    let mut s = String::new();
    s.append("\n#ifndef ACS_");
    s.append(def.as_str());
    s.append("_H\n#define ACS_");
    s.append(def.as_str());
    s.append("_H\n        \n#include \"SCSFBase.h\"\n\nclass ");
    s.append(cls.as_str());
    s.append(" : public SCSFBase {");
    assert(s@ =~= spec_class_head(*config));
    let part = gen_input_defs(&config.inputs, 1);
    s.append(part.as_str());
    let part = gen_graph_defs(&config.outputs, 1);
    s.append(part.as_str());
    let part = gen_defaults(config, 1);
    s.append(part.as_str());
    let part = gen_constructor(config, 1);
    s.append(part.as_str());
    let part = gen_methods_decl(config, 1);
    s.append(part.as_str());
    let part = gen_private_class(config, 1);
    s.append(part.as_str());
    s.append("};\n#endif // ACS_");
    s.append(def.as_str());
    s.append("_H\n");
    assert(s@ =~= spec_gen_class(*config));
    s
}

/// The whole implementation stub: the include of the generated header, an
/// empty last-call hook, the update-loop skeleton, and the fixed-signature
/// entry point constructing and running the study. The document is a
/// function of the study alone.
pub open spec fn spec_gen_main(s: Study) -> Seq<char> {
    let cls = spec_class_name(s.name@);
    "\n#include \""@ + cls + ".h\"\n\nvoid "@ + cls + "::last_call() {\n\n}\n\nvoid "@
        + cls
        + "::study() {\n    for (int index = sc.UpdateStartIndex; index < sc.ArraySize; index++) {\n        // todo\n    }\n}\n\nSCSFExport scsf_"@
        + cls + "Main(SCStudyInterfaceRef sc) {\n    "@ + cls + " study(sc);\n    study.run();\n}\n    "@
}

/// Emits the full implementation stub for a study.
#[verifier::rlimit(60)]
pub fn gen_main(config: &Study) -> (r: String)
    ensures
        r@ == spec_gen_main(*config),
{
    let cls = config.class_name();
    let mut s = String::new();
    s.append("\n#include \"");
    s.append(cls.as_str());
    s.append(".h\"\n\nvoid ");
    s.append(cls.as_str());
    s.append("::last_call() {\n\n}\n\nvoid ");
    s.append(cls.as_str());
    s.append(
        "::study() {\n    for (int index = sc.UpdateStartIndex; index < sc.ArraySize; index++) {\n        // todo\n    }\n}\n\nSCSFExport scsf_",
    );
    s.append(cls.as_str());
    s.append("Main(SCStudyInterfaceRef sc) {\n    ");
    s.append(cls.as_str());
    s.append(" study(sc);\n    study.run();\n}\n    ");
    assert(s@ =~= spec_gen_main(*config));
    s
}

/// The idempotence guard of the stub: the implementation document is written
/// only when no file already exists at the target, so hand-written logic is
/// never overwritten on regeneration.
pub fn should_write_stub(stub_exists: bool) -> (r: bool)
    ensures
        r == !stub_exists,
{
    !stub_exists
}

} // verus!
