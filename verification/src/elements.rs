//! The Linux platform's elements (`box`, `text`, `button`): what each
//! attribute sets on the widget, and which callback a button invokes when
//! clicked.  The GTK widgets
//! themselves are the platform layer's.
use vstd::prelude::*;
use std::collections::HashMap;
use crate::strings::{
    parse_i32, parse_i32_spec, split, split_seq, str_eq, strings_view, trim, trim_seq,
};

verus! {

broadcast use vstd::std_specs::hash::group_hash_axioms;

// ---------------------------------------------------------------------------
// Attribute values
// ---------------------------------------------------------------------------

/// How a widget is placed in its allocation (GTK's `Align`).
#[derive(PartialEq, Eq, Structural, Clone, Copy)]
pub enum Align {
    Start,
    End,
    Center,
    Fill,
    Baseline,
}

/// The alignment that an attribute value names; unknown values fill.
pub open spec fn alignment_spec(v: Seq<char>) -> Align {
    if v == "start"@ || v == "flex-start"@ {
        Align::Start
    } else if v == "end"@ || v == "flex-end"@ {
        Align::End
    } else if v == "center"@ {
        Align::Center
    } else if v == "fill"@ || v == "stretch"@ {
        Align::Fill
    } else if v == "baseline"@ {
        Align::Baseline
    } else {
        Align::Fill
    }
}

/// The alignment that an attribute value names.
pub fn parse_alignment(value: &str) -> (a: Align)
    ensures
        a == alignment_spec(value@),
{
    if str_eq(value, "start") || str_eq(value, "flex-start") {
        Align::Start
    } else if str_eq(value, "end") || str_eq(value, "flex-end") {
        Align::End
    } else if str_eq(value, "center") {
        Align::Center
    } else if str_eq(value, "fill") || str_eq(value, "stretch") {
        Align::Fill
    } else if str_eq(value, "baseline") {
        Align::Baseline
    } else {
        Align::Fill
    }
}

/// Whether an attribute value turns a flag on: exactly `true`.
pub open spec fn flag_spec(v: Seq<char>) -> bool {
    v == "true"@
}

/// Which margins a margin attribute sets.
#[derive(PartialEq, Eq, Structural, Clone, Copy)]
pub enum MarginSide {
    All,
    Start,
    End,
    Top,
    Bottom,
}

/// The direction in which a box lays out its children.
#[derive(PartialEq, Eq, Structural, Clone, Copy)]
pub enum Orientation {
    Horizontal,
    Vertical,
}

/// What an attribute sets on a widget.  `Ignored` is a known attribute
/// whose value does not parse; `Unknown` an attribute the element does not have.
pub enum Setting {
    Orientation(Orientation),
    Spacing(i32),
    Homogeneous(bool),
    HExpand(bool),
    VExpand(bool),
    Margin(MarginSide, i32),
    HAlign(Align),
    VAlign(Align),
    /// The text of a label or the label of a button
    Text(String),
    Selectable(bool),
    Wrap(bool),
    Lines(i32),
    Ellipsize(Ellipsis),
    Justify(Justification),
    /// Horizontal alignment of a label's text, as written (a float that the
    /// platform layer parses)
    XAlign(String),
    /// Vertical alignment of a label's text, as written
    YAlign(String),
    UseMarkup(bool),
    Sensitive(bool),
    HasFrame(bool),
    IconName(String),
    CssClasses(Vec<String>),
    Ignored,
    Unknown,
}

/// Where a label shortens text that does not fit (Pango's `EllipsizeMode`).
#[derive(PartialEq, Eq, Structural, Clone, Copy)]
pub enum Ellipsis {
    Off,
    Start,
    Middle,
    End,
}

/// How a label's lines are aligned to each other (GTK's `Justification`).
#[derive(PartialEq, Eq, Structural, Clone, Copy)]
pub enum Justification {
    Left,
    Right,
    Center,
    Fill,
}

/// The abstract form of a `Setting`.
pub enum SettingModel {
    Orientation(Orientation),
    Spacing(i32),
    Homogeneous(bool),
    HExpand(bool),
    VExpand(bool),
    Margin(MarginSide, i32),
    HAlign(Align),
    VAlign(Align),
    Text(Seq<char>),
    Selectable(bool),
    Wrap(bool),
    Lines(i32),
    Ellipsize(Ellipsis),
    Justify(Justification),
    XAlign(Seq<char>),
    YAlign(Seq<char>),
    UseMarkup(bool),
    Sensitive(bool),
    HasFrame(bool),
    IconName(Seq<char>),
    CssClasses(Seq<Seq<char>>),
    Ignored,
    Unknown,
}

impl View for Setting {
    type V = SettingModel;

    open spec fn view(&self) -> SettingModel {
        match self {
            Setting::Orientation(o) => SettingModel::Orientation(*o),
            Setting::Spacing(n) => SettingModel::Spacing(*n),
            Setting::Homogeneous(b) => SettingModel::Homogeneous(*b),
            Setting::HExpand(b) => SettingModel::HExpand(*b),
            Setting::VExpand(b) => SettingModel::VExpand(*b),
            Setting::Margin(side, n) => SettingModel::Margin(*side, *n),
            Setting::HAlign(a) => SettingModel::HAlign(*a),
            Setting::VAlign(a) => SettingModel::VAlign(*a),
            Setting::Text(t) => SettingModel::Text(t@),
            Setting::Selectable(b) => SettingModel::Selectable(*b),
            Setting::Wrap(b) => SettingModel::Wrap(*b),
            Setting::Lines(n) => SettingModel::Lines(*n),
            Setting::Ellipsize(e) => SettingModel::Ellipsize(*e),
            Setting::Justify(j) => SettingModel::Justify(*j),
            Setting::XAlign(t) => SettingModel::XAlign(t@),
            Setting::YAlign(t) => SettingModel::YAlign(t@),
            Setting::UseMarkup(b) => SettingModel::UseMarkup(*b),
            Setting::Sensitive(b) => SettingModel::Sensitive(*b),
            Setting::HasFrame(b) => SettingModel::HasFrame(*b),
            Setting::IconName(t) => SettingModel::IconName(t@),
            Setting::CssClasses(c) => SettingModel::CssClasses(strings_view(c@)),
            Setting::Ignored => SettingModel::Ignored,
            Setting::Unknown => SettingModel::Unknown,
        }
    }
}

/// A margin of `value`, or nothing when the value is not an `i32`.
pub open spec fn margin_spec(side: MarginSide, value: Seq<char>) -> SettingModel {
    match parse_i32_spec(value) {
        Some(n) => SettingModel::Margin(side, n),
        None => SettingModel::Ignored,
    }
}

fn margin(side: MarginSide, value: &str) -> (s: Setting)
    ensures
        s@ == margin_spec(side, value@),
{
    match parse_i32(value) {
        Some(n) => Setting::Margin(side, n),
        None => Setting::Ignored,
    }
}

/// The attributes that boxes, labels and buttons share, or `Unknown`.
pub open spec fn common_setting_spec(name: Seq<char>, value: Seq<char>) -> SettingModel {
    if name == "margin"@ {
        margin_spec(MarginSide::All, value)
    } else if name == "halign"@ {
        SettingModel::HAlign(alignment_spec(value))
    } else if name == "valign"@ {
        SettingModel::VAlign(alignment_spec(value))
    } else if name == "hexpand"@ {
        SettingModel::HExpand(flag_spec(value))
    } else if name == "vexpand"@ {
        SettingModel::VExpand(flag_spec(value))
    } else {
        SettingModel::Unknown
    }
}

fn common_setting(name: &str, value: &str) -> (s: Setting)
    ensures
        s@ == common_setting_spec(name@, value@),
{
    if str_eq(name, "margin") {
        margin(MarginSide::All, value)
    } else if str_eq(name, "halign") {
        Setting::HAlign(parse_alignment(value))
    } else if str_eq(name, "valign") {
        Setting::VAlign(parse_alignment(value))
    } else if str_eq(name, "hexpand") {
        Setting::HExpand(str_eq(value, "true"))
    } else if str_eq(name, "vexpand") {
        Setting::VExpand(str_eq(value, "true"))
    } else {
        Setting::Unknown
    }
}

// ---------------------------------------------------------------------------
// Box
// ---------------------------------------------------------------------------

/// What attribute `name` with `value` sets on a box.
pub open spec fn box_setting_spec(name: Seq<char>, value: Seq<char>) -> SettingModel {
    if name == "orientation"@ {
        SettingModel::Orientation(
            if value == "horizontal"@ || value == "row"@ {
                Orientation::Horizontal
            } else {
                Orientation::Vertical
            },
        )
    } else if name == "spacing"@ {
        match parse_i32_spec(value) {
            Some(n) => SettingModel::Spacing(n),
            None => SettingModel::Ignored,
        }
    } else if name == "homogeneous"@ {
        SettingModel::Homogeneous(flag_spec(value))
    } else if name == "hexpand"@ {
        SettingModel::HExpand(flag_spec(value))
    } else if name == "vexpand"@ {
        SettingModel::VExpand(flag_spec(value))
    } else if name == "margin"@ {
        margin_spec(MarginSide::All, value)
    } else if name == "marginStart"@ || name == "margin-start"@ {
        margin_spec(MarginSide::Start, value)
    } else if name == "marginEnd"@ || name == "margin-end"@ {
        margin_spec(MarginSide::End, value)
    } else if name == "marginTop"@ || name == "margin-top"@ {
        margin_spec(MarginSide::Top, value)
    } else if name == "marginBottom"@ || name == "margin-bottom"@ {
        margin_spec(MarginSide::Bottom, value)
    } else if name == "halign"@ {
        SettingModel::HAlign(alignment_spec(value))
    } else if name == "valign"@ {
        SettingModel::VAlign(alignment_spec(value))
    } else {
        SettingModel::Unknown
    }
}

/// What attribute `name` with `value` sets on a box.
pub fn box_setting(name: &str, value: &str) -> (s: Setting)
    ensures
        s@ == box_setting_spec(name@, value@),
{
    if str_eq(name, "orientation") {
        if str_eq(value, "horizontal") || str_eq(value, "row") {
            Setting::Orientation(Orientation::Horizontal)
        } else {
            Setting::Orientation(Orientation::Vertical)
        }
    } else if str_eq(name, "spacing") {
        match parse_i32(value) {
            Some(n) => Setting::Spacing(n),
            None => Setting::Ignored,
        }
    } else if str_eq(name, "homogeneous") {
        Setting::Homogeneous(str_eq(value, "true"))
    } else if str_eq(name, "hexpand") {
        Setting::HExpand(str_eq(value, "true"))
    } else if str_eq(name, "vexpand") {
        Setting::VExpand(str_eq(value, "true"))
    } else if str_eq(name, "margin") {
        margin(MarginSide::All, value)
    } else if str_eq(name, "marginStart") || str_eq(name, "margin-start") {
        margin(MarginSide::Start, value)
    } else if str_eq(name, "marginEnd") || str_eq(name, "margin-end") {
        margin(MarginSide::End, value)
    } else if str_eq(name, "marginTop") || str_eq(name, "margin-top") {
        margin(MarginSide::Top, value)
    } else if str_eq(name, "marginBottom") || str_eq(name, "margin-bottom") {
        margin(MarginSide::Bottom, value)
    } else if str_eq(name, "halign") {
        Setting::HAlign(parse_alignment(value))
    } else if str_eq(name, "valign") {
        Setting::VAlign(parse_alignment(value))
    } else {
        Setting::Unknown
    }
}

// ---------------------------------------------------------------------------
// Text
// ---------------------------------------------------------------------------

/// The ellipsis mode that a value names; unknown values turn it off.
pub open spec fn ellipsis_spec(v: Seq<char>) -> Ellipsis {
    if v == "start"@ {
        Ellipsis::Start
    } else if v == "middle"@ {
        Ellipsis::Middle
    } else if v == "end"@ {
        Ellipsis::End
    } else {
        Ellipsis::Off
    }
}

/// The justification that a value names; unknown values justify left.
pub open spec fn justification_spec(v: Seq<char>) -> Justification {
    if v == "left"@ || v == "start"@ {
        Justification::Left
    } else if v == "right"@ || v == "end"@ {
        Justification::Right
    } else if v == "center"@ {
        Justification::Center
    } else if v == "fill"@ {
        Justification::Fill
    } else {
        Justification::Left
    }
}

/// What attribute `name` with `value` sets on a label.
pub open spec fn text_setting_spec(name: Seq<char>, value: Seq<char>) -> SettingModel {
    if name == "children"@ || name == "text"@ || name == "label"@ {
        SettingModel::Text(value)
    } else if name == "selectable"@ {
        SettingModel::Selectable(flag_spec(value))
    } else if name == "wrap"@ {
        SettingModel::Wrap(flag_spec(value))
    } else if name == "lines"@ || name == "max-lines"@ {
        match parse_i32_spec(value) {
            Some(n) => SettingModel::Lines(n),
            None => SettingModel::Ignored,
        }
    } else if name == "ellipsize"@ {
        SettingModel::Ellipsize(ellipsis_spec(value))
    } else if name == "justify"@ || name == "text-align"@ {
        SettingModel::Justify(justification_spec(value))
    } else if name == "xalign"@ {
        SettingModel::XAlign(value)
    } else if name == "yalign"@ {
        SettingModel::YAlign(value)
    } else if name == "use-markup"@ || name == "markup"@ {
        SettingModel::UseMarkup(flag_spec(value))
    } else {
        common_setting_spec(name, value)
    }
}

/// What attribute `name` with `value` sets on a label.
pub fn text_setting(name: &str, value: &str) -> (s: Setting)
    ensures
        s@ == text_setting_spec(name@, value@),
{
    if str_eq(name, "children") || str_eq(name, "text") || str_eq(name, "label") {
        Setting::Text(String::from_str(value))
    } else if str_eq(name, "selectable") {
        Setting::Selectable(str_eq(value, "true"))
    } else if str_eq(name, "wrap") {
        Setting::Wrap(str_eq(value, "true"))
    } else if str_eq(name, "lines") || str_eq(name, "max-lines") {
        match parse_i32(value) {
            Some(n) => Setting::Lines(n),
            None => Setting::Ignored,
        }
    } else if str_eq(name, "ellipsize") {
        let e = if str_eq(value, "start") {
            Ellipsis::Start
        } else if str_eq(value, "middle") {
            Ellipsis::Middle
        } else if str_eq(value, "end") {
            Ellipsis::End
        } else {
            Ellipsis::Off
        };
        Setting::Ellipsize(e)
    } else if str_eq(name, "justify") || str_eq(name, "text-align") {
        let j = if str_eq(value, "left") || str_eq(value, "start") {
            Justification::Left
        } else if str_eq(value, "right") || str_eq(value, "end") {
            Justification::Right
        } else if str_eq(value, "center") {
            Justification::Center
        } else if str_eq(value, "fill") {
            Justification::Fill
        } else {
            Justification::Left
        };
        Setting::Justify(j)
    } else if str_eq(name, "xalign") {
        Setting::XAlign(String::from_str(value))
    } else if str_eq(name, "yalign") {
        Setting::YAlign(String::from_str(value))
    } else if str_eq(name, "use-markup") || str_eq(name, "markup") {
        Setting::UseMarkup(str_eq(value, "true"))
    } else {
        common_setting(name, value)
    }
}

// ---------------------------------------------------------------------------
// Button
// ---------------------------------------------------------------------------

/// The CSS classes of a comma-separated list, each trimmed.
pub open spec fn css_classes_spec(value: Seq<char>) -> Seq<Seq<char>> {
    split_seq(value, ',').map_values(|c: Seq<char>| trim_seq(c))
}

/// What attribute `name` with `value` sets on a button.
pub open spec fn button_setting_spec(name: Seq<char>, value: Seq<char>) -> SettingModel {
    if name == "label"@ || name == "children"@ || name == "text"@ {
        SettingModel::Text(value)
    } else if name == "enabled"@ || name == "sensitive"@ {
        SettingModel::Sensitive(flag_spec(value))
    } else if name == "disabled"@ {
        SettingModel::Sensitive(!flag_spec(value))
    } else if name == "has-frame"@ || name == "hasFrame"@ {
        SettingModel::HasFrame(flag_spec(value))
    } else if name == "icon-name"@ || name == "iconName"@ {
        SettingModel::IconName(value)
    } else if name == "css-classes"@ || name == "cssClasses"@ {
        SettingModel::CssClasses(css_classes_spec(value))
    } else {
        common_setting_spec(name, value)
    }
}

/// The CSS classes of a comma-separated list.
fn css_classes(value: &str) -> (classes: Vec<String>)
    ensures
        strings_view(classes@) == css_classes_spec(value@),
{
    let pieces = split(value, ',');
    let ghost want = css_classes_spec(value@);
    let mut classes: Vec<String> = Vec::new();
    let mut i: usize = 0;
    while i < pieces.len()
        invariant
            i <= pieces@.len(),
            strings_view(pieces@) == split_seq(value@, ','),
            want == css_classes_spec(value@),
            want.len() == pieces@.len(),
            strings_view(classes@) == want.take(i as int),
        decreases pieces@.len() - i,
    {
        let c = trim(pieces[i].as_str());
        assert(c@ == want[i as int]);
        let ghost before = classes@;
        classes.push(c);
        assert(strings_view(classes@) =~= want.take(i + 1)) by {
            assert(classes@ == before.push(c));
            assert(strings_view(before).len() == i);
            assert forall|j: int| 0 <= j < i implies strings_view(classes@)[j] == want[j] by {
                assert(classes@[j] == before[j]);
                assert(strings_view(before)[j] == want.take(i as int)[j]);
            }
        }
        i = i + 1;
    }
    assert(want.take(i as int) =~= want);
    classes
}

/// What attribute `name` with `value` sets on a button.
pub fn button_setting(name: &str, value: &str) -> (s: Setting)
    ensures
        s@ == button_setting_spec(name@, value@),
{
    if str_eq(name, "label") || str_eq(name, "children") || str_eq(name, "text") {
        Setting::Text(String::from_str(value))
    } else if str_eq(name, "enabled") || str_eq(name, "sensitive") {
        Setting::Sensitive(str_eq(value, "true"))
    } else if str_eq(name, "disabled") {
        Setting::Sensitive(!str_eq(value, "true"))
    } else if str_eq(name, "has-frame") || str_eq(name, "hasFrame") {
        Setting::HasFrame(str_eq(value, "true"))
    } else if str_eq(name, "icon-name") || str_eq(name, "iconName") {
        Setting::IconName(String::from_str(value))
    } else if str_eq(name, "css-classes") || str_eq(name, "cssClasses") {
        Setting::CssClasses(css_classes(value))
    } else {
        common_setting(name, value)
    }
}

/// The callback names under which a button stores its click handler.
pub open spec fn is_click_callback(name: Seq<char>) -> bool {
    name == "onClick"@ || name == "onclick"@ || name == "onPress"@ || name == "onpress"@
}

/// The callback that a click on button `widget` invokes: the one stored for
/// it, unless there is none or it is null.
pub open spec fn click_target(callbacks: Map<usize, usize>, widget: usize) -> Option<usize> {
    if callbacks.contains_key(widget) && callbacks[widget] != 0 {
        Some(callbacks[widget])
    } else {
        None
    }
}

/// The click callbacks of the buttons, by widget address: the callback
/// pointer that the core handed over (a callback id).
pub struct ButtonCallbacks {
    callbacks: HashMap<usize, usize>,
}

impl ButtonCallbacks {
    /// The callback stored for each button.
    pub closed spec fn view(&self) -> Map<usize, usize> {
        self.callbacks@
    }

    /// No callbacks.
    pub fn new() -> (r: Self)
        ensures
            r@ == Map::<usize, usize>::empty(),
    {
        ButtonCallbacks { callbacks: HashMap::new() }
    }

    /// `set_callback(widget, name, callback)` on a button: a click callback
    /// is stored for the widget (replacing the one before); other names are
    /// ignored.  Returns whether it was stored.
    pub fn set_callback(&mut self, widget: usize, name: &str, callback: usize) -> (stored: bool)
        ensures
            stored == is_click_callback(name@),
            final(self)@ == if stored {
                old(self)@.insert(widget, callback)
            } else {
                old(self)@
            },
    {
        if str_eq(name, "onClick") || str_eq(name, "onclick") || str_eq(name, "onPress") || str_eq(
            name,
            "onpress",
        ) {
            self.callbacks.insert(widget, callback);
            true
        } else {
            false
        }
    }

    /// The callback stored for `widget`, if any.
    pub fn get(&self, widget: usize) -> (r: Option<usize>)
        ensures
            r == (if self@.contains_key(widget) {
                Some(self@[widget])
            } else {
                None
            }),
    {
        match self.callbacks.get(&widget) {
            Some(c) => Some(*c),
            None => None,
        }
    }

    /// The callback that a click on `widget` invokes: the stored one, unless
    /// it is null.
    pub fn clicked(&self, widget: usize) -> (r: Option<usize>)
        ensures
            r == click_target(self@, widget),
    {
        match self.get(widget) {
            Some(c) => if c != 0 {
                Some(c)
            } else {
                None
            },
            None => None,
        }
    }

    /// Forgets the callback of a destroyed button.
    pub fn remove(&mut self, widget: usize)
        ensures
            final(self)@ == old(self)@.remove(widget),
    {
        let _ = self.callbacks.remove(&widget);
    }
}

} // verus!
