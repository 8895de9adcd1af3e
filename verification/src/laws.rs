//! The library's guarantees that relate several emitters, stated once and
//! proved: deterministic regeneration, the shape of escaped text, the
//! order-as-index contract between the enum blocks and the constructor, and
//! the conditional parts of an output channel's default block.
use vstd::prelude::*;

use crate::emit::{
    spec_auto_color_part, spec_ctor_input_lines, spec_gen_class, spec_gen_graph_defs,
    spec_gen_input_defs, spec_gen_main, spec_input_enum_lines, spec_output_default,
    spec_output_head, spec_second_color_part, spec_width_part,
};
use crate::study::{spec_input_enum, spec_input_var, Input, Output};
use crate::text::{dec_nat, esc_char, quote_count, spec_escape, spec_indent};

verus! {

/// Determinism: the generated documents are functions of the study alone, so
/// generating twice from an identical model produces byte-identical header
/// output (and byte-identical stub output).
pub proof fn lemma_generation_deterministic(
    s: crate::study::Study,
    header_a: Seq<char>,
    header_b: Seq<char>,
    stub_a: Seq<char>,
    stub_b: Seq<char>,
)
    requires
        header_a == spec_gen_class(s),
        header_b == spec_gen_class(s),
        stub_a == spec_gen_main(s),
        stub_b == spec_gen_main(s),
    ensures
        header_a == header_b,
        stub_a == stub_b,
{
}

/// Escaping: every double quote in escaped text stands right after a
/// backslash, so the text can close no quoted literal early.
pub proof fn lemma_escape_quote_preceded(s: Seq<char>)
    ensures
        forall|j: int|
            0 <= j < spec_escape(s).len() && #[trigger] spec_escape(s)[j] == '"' ==> j >= 1
                && spec_escape(s)[j - 1] == '\\',
    decreases s.len(),
{
    if s.len() == 0 {
    } else {
        lemma_escape_quote_preceded(s.drop_last());
        let rec = spec_escape(s.drop_last());
        let out = spec_escape(s);
        assert forall|j: int|
            0 <= j < out.len() && #[trigger] out[j] == '"' implies j >= 1 && out[j - 1]
                == '\\' by {
            if j < rec.len() {
                assert(out[j] == rec[j]);
                assert(out[j - 1] == rec[j - 1]);
            } else {
                if s.last() == '"' {
                    assert(esc_char(s.last()) == seq!['\\', '"']);
                    assert(out[rec.len() as int] == '\\');
                    assert(j == rec.len() + 1);
                } else {
                    assert(out[j] == esc_char(s.last())[j - rec.len()]);
                }
            }
        }
    }
}

/// Escaping: exactly one character is added per double quote, and nothing
/// else changes the length.
pub proof fn lemma_escape_len(s: Seq<char>)
    ensures
        spec_escape(s).len() == s.len() + quote_count(s),
    decreases s.len(),
{
    if s.len() == 0 {
    } else {
        lemma_escape_len(s.drop_last());
    }
}

/// Escaping: text without a double quote is left untouched.
pub proof fn lemma_escape_without_quotes(s: Seq<char>)
    requires
        forall|i: int| 0 <= i < s.len() ==> s[i] != '"',
    ensures
        spec_escape(s) == s,
    decreases s.len(),
{
    if s.len() == 0 {
        assert(spec_escape(s) =~= s);
    } else {
        lemma_escape_without_quotes(s.drop_last());
        assert(s.last() == s[s.len() - 1]);
        assert(spec_escape(s) =~= s);
    }
}

/// The concatenation of a list of text pieces, in order.
pub open spec fn spec_join(parts: Seq<Seq<char>>) -> Seq<char>
    decreases parts.len(),
{
    if parts.len() == 0 {
        Seq::empty()
    } else {
        spec_join(parts.drop_last()) + parts.last()
    }
}

/// The enum-block line of the input at each position, in sequence order.
pub open spec fn spec_enum_entries(inputs: Seq<Input>, depth: int) -> Seq<Seq<char>> {
    Seq::new(
        inputs.len(),
        |i: int| spec_indent(depth + 1) + spec_input_enum(inputs[i].label@) + ",\n"@,
    )
}

/// The constructor-initializer line of the input at each position, in
/// sequence order.
pub open spec fn spec_ctor_entries(inputs: Seq<Input>, prefix: Seq<char>) -> Seq<Seq<char>> {
    Seq::new(
        inputs.len(),
        |i: int|
            prefix + spec_input_var(inputs[i].label@) + "(sc.Input["@ + spec_input_enum(
                inputs[i].label@,
            ) + "]),\n"@,
    )
}

proof fn lemma_enum_lines_are_join(inputs: Seq<Input>, depth: int)
    ensures
        spec_input_enum_lines(inputs, depth) == spec_join(spec_enum_entries(inputs, depth)),
    decreases inputs.len(),
{
    if inputs.len() == 0 {
        assert(spec_enum_entries(inputs, depth).len() == 0);
    } else {
        lemma_enum_lines_are_join(inputs.drop_last(), depth);
        assert(spec_enum_entries(inputs.drop_last(), depth) =~~= spec_enum_entries(
            inputs,
            depth,
        ).drop_last());
    }
}

proof fn lemma_ctor_lines_are_join(inputs: Seq<Input>, prefix: Seq<char>)
    ensures
        spec_ctor_input_lines(inputs, prefix) == spec_join(spec_ctor_entries(inputs, prefix)),
    decreases inputs.len(),
{
    if inputs.len() == 0 {
        assert(spec_ctor_entries(inputs, prefix).len() == 0);
    } else {
        lemma_ctor_lines_are_join(inputs.drop_last(), prefix);
        assert(spec_ctor_entries(inputs.drop_last(), prefix) =~~= spec_ctor_entries(
            inputs,
            prefix,
        ).drop_last());
    }
}

/// Enum ordering: for a study with N inputs, the emitted enum block is the
/// join of exactly N lines, one constant per input in sequence order, and
/// the constructor initializer list is the join of exactly N lines binding
/// each field through the same constant at the same position.
pub proof fn lemma_enum_ctor_alignment(inputs: Seq<Input>, depth: int, prefix: Seq<char>)
    ensures
        spec_enum_entries(inputs, depth).len() == inputs.len(),
        spec_ctor_entries(inputs, prefix).len() == inputs.len(),
        spec_input_enum_lines(inputs, depth) == spec_join(spec_enum_entries(inputs, depth)),
        spec_ctor_input_lines(inputs, prefix) == spec_join(spec_ctor_entries(inputs, prefix)),
        forall|i: int|
            0 <= i < inputs.len() ==> spec_enum_entries(inputs, depth)[i] == spec_indent(depth + 1)
                + spec_input_enum(inputs[i].label@) + ",\n"@,
        forall|i: int|
            0 <= i < inputs.len() ==> spec_ctor_entries(inputs, prefix)[i] == prefix
                + spec_input_var(inputs[i].label@) + "(sc.Input["@ + spec_input_enum(
                inputs[i].label@,
            ) + "]),\n"@,
{
    lemma_enum_lines_are_join(inputs, depth);
    lemma_ctor_lines_are_join(inputs, prefix);
}

/// Conditional emission: an output channel's default block always consists of
/// its head followed by the three optional parts; the line-width part is
/// empty exactly when the width is one, the secondary-color part empty
/// exactly when no second color is given, and the auto-coloring part empty
/// exactly when no auto-color mode is given.
pub proof fn lemma_conditional_emission(g: Output, prefix: Seq<char>)
    ensures
        spec_output_default(g, prefix) == spec_output_head(g, prefix) + spec_width_part(g, prefix)
            + spec_second_color_part(g, prefix) + spec_auto_color_part(g, prefix),
        g.width == 1 ==> spec_width_part(g, prefix) == Seq::<char>::empty(),
        g.width != 1 ==> spec_width_part(g, prefix).len() > 0,
        g.second_color is None ==> spec_second_color_part(g, prefix) == Seq::<char>::empty(),
        g.second_color is Some ==> spec_second_color_part(g, prefix).len() > 0,
        g.auto_color is None ==> spec_auto_color_part(g, prefix) == Seq::<char>::empty(),
        g.auto_color is Some ==> spec_auto_color_part(g, prefix).len() > 0,
{
    if g.width != 1 {
        let m = if g.width < 0 {
            (-(g.width as int)) as nat
        } else {
            g.width as nat
        };
        assert(dec_nat(m).len() >= 1);
    }
    if g.second_color is Some {
        reveal_strlit(".SecondaryColorUsed = TRUE;\n");
        assert(".SecondaryColorUsed = TRUE;\n"@.len() > 0);
    }
    if g.auto_color is Some {
        reveal_strlit(".AutoColoring = ");
        assert(".AutoColoring = "@.len() > 0);
    }
}

/// Conditional emission: an empty input list emits no enum block and no
/// field declarations, and an empty output list likewise emits nothing.
pub proof fn lemma_empty_lists_emit_nothing(depth: int)
    ensures
        spec_gen_input_defs(Seq::<Input>::empty(), depth) == Seq::<char>::empty(),
        spec_gen_graph_defs(Seq::<Output>::empty(), depth) == Seq::<char>::empty(),
{
}

} // verus!
