//! The data model of one study: its identity, its typed inputs and its typed
//! output channels, together with the identifier forms that the generated
//! code derives from their names.
use vstd::prelude::*;

use crate::text::{
    spec_strip_spaces, spec_underscored, spec_upper, strip_spaces, to_upper, underscore_spaces,
};

verus! {

/// One configurable parameter of a study. The `label` is the machine key the
/// field and enum names are derived from; `name` is the display label and
/// `description` the help text, both free text.
pub struct Input {
    pub label: String,
    pub name: String,
    pub description: String,
    pub intype: InputType,
}

/// The closed set of input kinds, each carrying its default value. A
/// floating-point default is carried as its already-rendered decimal text,
/// since the emitter only ever embeds it verbatim (a float suffix is added on
/// emission).
pub enum InputType {
    Int(i32),
    Float(String),
    Bool(bool),
    Color(String),
    MovingAvg(String),
    Selection(String),
    Data(String),
}

/// One rendered output channel ("subgraph"). An empty `name` means the
/// channel is allocated but not drawn; `width` is only emitted when it is not
/// one, and the optional fields only when present.
pub struct Output {
    pub label: String,
    pub name: String,
    pub color: String,
    pub second_color: Option<String>,
    pub width: i8,
    pub style: DrawStyle,
    pub auto_color: Option<AutoColorType>,
}

/// The closed set of automatic-coloring modes an output channel may request.
pub enum AutoColorType {
    NoAuto,
    Gradient,
    BaseGraph,
    Slope,
}

/// The closed set of draw styles an output channel may use.
pub enum DrawStyle {
    Ignore,
    Line,
    Bar,
    Text,
    Background,
    TransparentBackground,
    CandleFill,
}

/// The root entity: one study, owning its ordered inputs and outputs.
pub struct Study {
    pub name: String,
    pub description: String,
    pub region: i8,
    pub autoloop: bool,
    pub enable_extra_data: bool,
    pub pointer_events: bool,
    pub inputs: Vec<Input>,
    pub outputs: Vec<Output>,
    pub private_class: Option<String>,
}

/// Default for a boolean study flag that starts switched off.
pub fn default_false() -> (r: bool)
    ensures
        r == false,
{
    false
}

/// Default for a boolean study flag that starts switched on.
pub fn default_true() -> (r: bool)
    ensures
        r == true,
{
    true
}

/// Default color expression of an output channel: a defined white value.
pub fn default_color() -> (r: String)
    ensures
        r@ == "RGB(255,255,255)"@,
{
    "RGB(255,255,255)".to_owned()
}

/// Default line width of an output channel.
pub fn default_width() -> (r: i8)
    ensures
        r == 1,
{
    1
}

/// Default draw style of an output channel.
pub fn default_drawstyle() -> (r: DrawStyle)
    ensures
        r == DrawStyle::Ignore,
{
    DrawStyle::Ignore
}

/// The class name derived from a study name: all white space removed.
pub open spec fn spec_class_name(name: Seq<char>) -> Seq<char> {
    spec_strip_spaces(name)
}

/// The include-guard token derived from a study name: spaces become
/// underscores, then everything is upper-cased.
pub open spec fn spec_def_name(name: Seq<char>) -> Seq<char> {
    spec_upper(spec_underscored(name))
}

/// The field name of an input: its label behind a fixed prefix.
pub open spec fn spec_input_var(label: Seq<char>) -> Seq<char> {
    "in_"@ + label
}

/// The enum constant of an input: its upper-cased label in a fixed frame.
pub open spec fn spec_input_enum(label: Seq<char>) -> Seq<char> {
    "IN_"@ + spec_upper(label) + "_IDX"@
}

/// The field name of an output channel: its label behind a fixed prefix.
pub open spec fn spec_output_var(label: Seq<char>) -> Seq<char> {
    "sg_"@ + label
}

/// The enum constant of an output channel: its upper-cased label in a fixed
/// frame.
pub open spec fn spec_output_enum(label: Seq<char>) -> Seq<char> {
    "SG_"@ + spec_upper(label) + "_IDX"@
}

impl Study {
    /// The name of the generated class: the study name with all white space
    /// removed.
    pub fn class_name(&self) -> (r: String)
        ensures
            r@ == spec_class_name(self.name@),
    {
        strip_spaces(self.name.as_str())
    }

    /// The include-guard token: the study name with spaces replaced by
    /// underscores, upper-cased.
    pub fn def_name(&self) -> (r: String)
        ensures
            r@ == spec_def_name(self.name@),
    {
        let underscored = underscore_spaces(self.name.as_str());
        to_upper(underscored.as_str())
    }
}

impl Input {
    /// The field name backing this input in the generated class.
    pub fn var_name(&self) -> (r: String)
        ensures
            r@ == spec_input_var(self.label@),
    {
        let mut s = String::new();
        s.append("in_");
        s.append(self.label.as_str());
        assert(s@ =~= spec_input_var(self.label@));
        s
    }

    /// The enum constant naming this input's runtime slot.
    pub fn enum_name(&self) -> (r: String)
        ensures
            r@ == spec_input_enum(self.label@),
    {
        let mut s = String::new();
        s.append("IN_");
        let upper = to_upper(self.label.as_str());
        s.append(upper.as_str());
        s.append("_IDX");
        assert(s@ =~= spec_input_enum(self.label@));
        s
    }
}

impl Output {
    /// The field name backing this output channel in the generated class.
    pub fn var_name(&self) -> (r: String)
        ensures
            r@ == spec_output_var(self.label@),
    {
        let mut s = String::new();
        s.append("sg_");
        s.append(self.label.as_str());
        assert(s@ =~= spec_output_var(self.label@));
        s
    }

    /// The enum constant naming this output channel's runtime slot.
    pub fn enum_name(&self) -> (r: String)
        ensures
            r@ == spec_output_enum(self.label@),
    {
        let mut s = String::new();
        s.append("SG_");
        let upper = to_upper(self.label.as_str());
        s.append(upper.as_str());
        s.append("_IDX");
        assert(s@ =~= spec_output_enum(self.label@));
        s
    }
}

/// The platform token an automatic-coloring mode is emitted as.
pub open spec fn spec_autocolor_token(a: AutoColorType) -> Seq<char> {
    match a {
        AutoColorType::NoAuto => "AUTOCOLOR_NONE"@,
        AutoColorType::Gradient => "AUTOCOLOR_GRADIENT"@,
        AutoColorType::BaseGraph => "AUTOCOLOR_BASEGRAPH"@,
        AutoColorType::Slope => "AUTOCOLOR_SLOPE"@,
    }
}

impl AutoColorType {
    /// The platform token this mode is emitted as.
    pub fn token(&self) -> (r: String)
        ensures
            r@ == spec_autocolor_token(*self),
    {
        match self {
            AutoColorType::NoAuto => "AUTOCOLOR_NONE".to_owned(),
            AutoColorType::Gradient => "AUTOCOLOR_GRADIENT".to_owned(),
            AutoColorType::BaseGraph => "AUTOCOLOR_BASEGRAPH".to_owned(),
            AutoColorType::Slope => "AUTOCOLOR_SLOPE".to_owned(),
        }
    }
}

/// The platform token a draw style is emitted as.
pub open spec fn spec_drawstyle_token(s: DrawStyle) -> Seq<char> {
    match s {
        DrawStyle::Ignore => "DRAWSTYLE_IGNORE"@,
        DrawStyle::Line => "DRAWSTYLE_LINE"@,
        DrawStyle::Bar => "DRAWSTYLE_BAR"@,
        DrawStyle::Text => "DRAWSTYLE_TEXT"@,
        DrawStyle::Background => "DRAWSTYLE_BACKGROUND"@,
        DrawStyle::TransparentBackground => "DRAWSTYLE_BACKGROUND_TRANSPARENT"@,
        DrawStyle::CandleFill => "DRAWSTYLE_COLOR_BAR_CANDLE_FILL"@,
    }
}

impl DrawStyle {
    /// The platform token this style is emitted as.
    pub fn token(&self) -> (r: String)
        ensures
            r@ == spec_drawstyle_token(*self),
    {
        match self {
            DrawStyle::Ignore => "DRAWSTYLE_IGNORE".to_owned(),
            DrawStyle::Line => "DRAWSTYLE_LINE".to_owned(),
            DrawStyle::Bar => "DRAWSTYLE_BAR".to_owned(),
            DrawStyle::Text => "DRAWSTYLE_TEXT".to_owned(),
            DrawStyle::Background => "DRAWSTYLE_BACKGROUND".to_owned(),
            DrawStyle::TransparentBackground => "DRAWSTYLE_BACKGROUND_TRANSPARENT".to_owned(),
            DrawStyle::CandleFill => "DRAWSTYLE_COLOR_BAR_CANDLE_FILL".to_owned(),
        }
    }
}

} // verus!
