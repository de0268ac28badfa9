//! Labels: where one stands and how its text is dressed.

use vstd::prelude::*;
use crate::error::InvalidArgument;
use crate::options::{resolve, resolved, AlignType, Coordinate, LabelOption, LabelOptionKind};
use crate::script::{decimal, group_grow, lemma_grow_start, number, text, Atom, Script};
use crate::symbol::{char_to_symbol, symbol_index};

verus! {

broadcast use group_grow;

/// What a piece of text labels.
#[derive(Clone, Copy, Debug)]
pub enum LabelType {
    XLabel,
    YLabel,
    ZLabel,
    CBLabel,
    TitleLabel,
    /// A free-standing label at a position.
    Label(Coordinate, Coordinate),
    /// The labels of an axis's ticks.
    AxesTicks,
}

impl LabelType {
    /// Whether this is a free-standing label: the only kind that has a
    /// position, a marker and an alignment.
    pub open spec fn positioned(self) -> bool {
        self is Label
    }

    /// Whether this is a free-standing label.
    pub fn is_label(&self) -> (b: bool)
        ensures
            b == self.positioned(),
    {
        match self {
            LabelType::Label(_, _) => true,
            _ => false,
        }
    }
}

/// A coordinate as the engine reads it: the system it is measured in, then
/// the number.
pub open spec fn coordinate_clause(c: Coordinate) -> Seq<Atom> {
    match c {
        Coordinate::Graph(x) => text(" graph "@) + number(x),
        Coordinate::Axis(x) => text(" first "@) + number(x),
    }
}

/// The position of a free-standing label; nothing for the other kinds.
pub open spec fn anchor_clause(label_type: LabelType) -> Seq<Atom> {
    match label_type {
        LabelType::Label(x, y) => text(" at "@) + coordinate_clause(x) + text(","@)
            + coordinate_clause(y) + text(" front"@),
        _ => Seq::empty(),
    }
}

/// The offset of the text, in characters, when an option gives one.
pub open spec fn offset_clause(options: Seq<LabelOption>) -> Seq<Atom> {
    match resolved(options, LabelOptionKind::TextOffset) {
        Some(LabelOption::TextOffset(x, y)) => text(" offset character "@) + number(x) + text(","@)
            + number(y),
        _ => Seq::empty(),
    }
}

/// The colour of the text, when an option gives one.
pub open spec fn text_color_clause(options: Seq<LabelOption>) -> Seq<Atom> {
    match resolved(options, LabelOptionKind::TextColor) {
        Some(LabelOption::TextColor(s)) => text(" tc rgb \""@) + text(s@) + text("\""@),
        _ => Seq::empty(),
    }
}

/// Font and size of the text, when an option gives them.
pub open spec fn font_clause(options: Seq<LabelOption>) -> Seq<Atom> {
    match resolved(options, LabelOptionKind::Font) {
        Some(LabelOption::Font(f, s)) => text(" font \""@) + text(f@) + text(","@) + number(s)
            + text("\""@),
        _ => Seq::empty(),
    }
}

/// The rotation of the text, in degrees, when an option gives one.
pub open spec fn rotate_clause(options: Seq<LabelOption>) -> Seq<Atom> {
    match resolved(options, LabelOptionKind::Rotate) {
        Some(LabelOption::Rotate(a)) => text(" rotate by "@) + number(a),
        _ => Seq::empty(),
    }
}

/// The marker symbol that the options ask for.
pub open spec fn marker_symbol(options: Seq<LabelOption>) -> Option<char> {
    match resolved(options, LabelOptionKind::MarkerSymbol) {
        Some(LabelOption::MarkerSymbol(c)) => Some(c),
        _ => None,
    }
}

/// The colour of the marker, when an option gives one.
pub open spec fn marker_color_clause(options: Seq<LabelOption>) -> Seq<Atom> {
    match resolved(options, LabelOptionKind::MarkerColor) {
        Some(LabelOption::MarkerColor(s)) => text(" lc rgb \""@) + text(s@) + text("\""@),
        _ => Seq::empty(),
    }
}

/// The size of the marker, when an option gives one.
pub open spec fn marker_size_clause(options: Seq<LabelOption>) -> Seq<Atom> {
    match resolved(options, LabelOptionKind::MarkerSize) {
        Some(LabelOption::MarkerSize(z)) => text(" ps "@) + number(z),
        _ => Seq::empty(),
    }
}

/// The marker of a label. Without a symbol there is no marker, and its
/// colour and size are not looked at.
pub open spec fn marker_clause(options: Seq<LabelOption>) -> Seq<Atom> {
    match marker_symbol(options) {
        Some(c) => text(" point pt "@) + decimal(symbol_index(c).unwrap()) + marker_color_clause(
            options,
        ) + marker_size_clause(options),
        None => Seq::empty(),
    }
}

/// The alignment of a label: left, right, or centred for every other
/// alignment asked for.
pub open spec fn align_clause(options: Seq<LabelOption>) -> Seq<Atom> {
    match resolved(options, LabelOptionKind::TextAlign) {
        Some(LabelOption::TextAlign(AlignType::AlignLeft)) => text(" left"@),
        Some(LabelOption::TextAlign(AlignType::AlignRight)) => text(" right"@),
        Some(LabelOption::TextAlign(_)) => text(" center"@),
        _ => Seq::empty(),
    }
}

/// Marker and alignment, which only a free-standing label has.
pub open spec fn placement_clause(label_type: LabelType, options: Seq<LabelOption>) -> Seq<Atom> {
    if label_type.positioned() {
        marker_clause(options) + align_clause(options)
    } else {
        Seq::empty()
    }
}

/// What follows the text of a label: position, offset, colour, font and
/// rotation, then, for a free-standing label only, marker and alignment.
pub open spec fn label_options_clause(label_type: LabelType, options: Seq<LabelOption>) -> Seq<
    Atom,
> {
    anchor_clause(label_type) + offset_clause(options) + text_color_clause(options) + font_clause(
        options,
    ) + rotate_clause(options) + placement_clause(label_type, options)
}

/// The character that stops the options of a label from being written: the
/// marker symbol asked for, where the label is free-standing and the
/// character names no symbol.
pub open spec fn rejected_marker(label_type: LabelType, options: Seq<LabelOption>) -> Option<
    char,
> {
    if label_type.positioned() {
        match marker_symbol(options) {
            Some(c) => if symbol_index(c) is None {
                Some(c)
            } else {
                None
            },
            None => None,
        }
    } else {
        None
    }
}

fn write_coordinate(writer: &mut Script, c: Coordinate)
    ensures
        final(writer)@ == old(writer)@ + coordinate_clause(c),
{
    proof {
        lemma_grow_start(writer@);
    }
    match c {
        Coordinate::Graph(x) => {
            writer.write_str(" graph ");
            writer.write_number(x);
        },
        Coordinate::Axis(x) => {
            writer.write_str(" first ");
            writer.write_number(x);
        },
    }
}

fn write_anchor(writer: &mut Script, label_type: LabelType)
    ensures
        final(writer)@ == old(writer)@ + anchor_clause(label_type),
{
    proof {
        lemma_grow_start(writer@);
    }
    match label_type {
        LabelType::Label(x, y) => {
            writer.write_str(" at ");
            write_coordinate(writer, x);
            writer.write_str(",");
            write_coordinate(writer, y);
            writer.write_str(" front");
        },
        _ => {},
    }
}

fn write_offset(writer: &mut Script, options: &[LabelOption])
    ensures
        final(writer)@ == old(writer)@ + offset_clause(options@),
{
    proof {
        lemma_grow_start(writer@);
    }
    match resolve(options, LabelOptionKind::TextOffset) {
        Some(LabelOption::TextOffset(x, y)) => {
            writer.write_str(" offset character ");
            writer.write_number(*x);
            writer.write_str(",");
            writer.write_number(*y);
        },
        _ => {},
    }
}

fn write_text_color(writer: &mut Script, options: &[LabelOption])
    ensures
        final(writer)@ == old(writer)@ + text_color_clause(options@),
{
    proof {
        lemma_grow_start(writer@);
    }
    match resolve(options, LabelOptionKind::TextColor) {
        Some(LabelOption::TextColor(s)) => {
            writer.write_str(" tc rgb \"");
            writer.write_str(s);
            writer.write_str("\"");
        },
        _ => {},
    }
}

fn write_font(writer: &mut Script, options: &[LabelOption])
    ensures
        final(writer)@ == old(writer)@ + font_clause(options@),
{
    proof {
        lemma_grow_start(writer@);
    }
    match resolve(options, LabelOptionKind::Font) {
        Some(LabelOption::Font(f, s)) => {
            writer.write_str(" font \"");
            writer.write_str(f);
            writer.write_str(",");
            writer.write_number(*s);
            writer.write_str("\"");
        },
        _ => {},
    }
}

fn write_rotate(writer: &mut Script, options: &[LabelOption])
    ensures
        final(writer)@ == old(writer)@ + rotate_clause(options@),
{
    proof {
        lemma_grow_start(writer@);
    }
    match resolve(options, LabelOptionKind::Rotate) {
        Some(LabelOption::Rotate(a)) => {
            writer.write_str(" rotate by ");
            writer.write_number(*a);
        },
        _ => {},
    }
}

fn write_marker_color(writer: &mut Script, options: &[LabelOption])
    ensures
        final(writer)@ == old(writer)@ + marker_color_clause(options@),
{
    proof {
        lemma_grow_start(writer@);
    }
    match resolve(options, LabelOptionKind::MarkerColor) {
        Some(LabelOption::MarkerColor(s)) => {
            writer.write_str(" lc rgb \"");
            writer.write_str(s);
            writer.write_str("\"");
        },
        _ => {},
    }
}

fn write_marker_size(writer: &mut Script, options: &[LabelOption])
    ensures
        final(writer)@ == old(writer)@ + marker_size_clause(options@),
{
    proof {
        lemma_grow_start(writer@);
    }
    match resolve(options, LabelOptionKind::MarkerSize) {
        Some(LabelOption::MarkerSize(z)) => {
            writer.write_str(" ps ");
            writer.write_number(*z);
        },
        _ => {},
    }
}

fn write_marker(writer: &mut Script, options: &[LabelOption], symbol: Option<i32>)
    requires
        match marker_symbol(options@) {
            Some(c) => symbol matches Some(i) && symbol_index(c) == Some(i as int),
            None => symbol is None,
        },
    ensures
        final(writer)@ == old(writer)@ + marker_clause(options@),
{
    proof {
        lemma_grow_start(writer@);
    }
    match symbol {
        Some(i) => {
            writer.write_str(" point pt ");
            writer.write_int(i as i64);
            write_marker_color(writer, options);
            write_marker_size(writer, options);
        },
        None => {},
    }
}

fn write_align(writer: &mut Script, options: &[LabelOption])
    ensures
        final(writer)@ == old(writer)@ + align_clause(options@),
{
    proof {
        lemma_grow_start(writer@);
    }
    match resolve(options, LabelOptionKind::TextAlign) {
        Some(LabelOption::TextAlign(a)) => {
            match a {
                AlignType::AlignLeft => {
                    writer.write_str(" left");
                },
                AlignType::AlignRight => {
                    writer.write_str(" right");
                },
                _ => {
                    writer.write_str(" center");
                },
            }
        },
        _ => {},
    }
}

fn write_placement(
    writer: &mut Script,
    label_type: LabelType,
    options: &[LabelOption],
    symbol: Option<i32>,
)
    requires
        label_type.positioned() ==> match marker_symbol(options@) {
            Some(c) => symbol matches Some(i) && symbol_index(c) == Some(i as int),
            None => symbol is None,
        },
    ensures
        final(writer)@ == old(writer)@ + placement_clause(label_type, options@),
{
    proof {
        lemma_grow_start(writer@);
    }
    if label_type.is_label() {
        write_marker(writer, options, symbol);
        write_align(writer, options);
    }
}

/// Writes what follows the text of a label.
///
/// Where the label is free-standing and the options ask for a marker symbol
/// that does not exist, nothing is written.
pub fn write_out_label_options(
    label_type: LabelType,
    options: &[LabelOption],
    writer: &mut Script,
) -> (result: Result<(), InvalidArgument>)
    ensures
        match result {
            Ok(()) => rejected_marker(label_type, options@) is None && final(writer)@ == old(
                writer,
            )@ + label_options_clause(label_type, options@),
            Err(e) => rejected_marker(label_type, options@) matches Some(c) && e
                == InvalidArgument::InvalidSymbol(c) && final(writer)@ == old(writer)@,
        },
{
    proof {
        lemma_grow_start(writer@);
    }
    let mut symbol: Option<i32> = None;
    if label_type.is_label() {
        match resolve(options, LabelOptionKind::MarkerSymbol) {
            Some(LabelOption::MarkerSymbol(c)) => {
                match char_to_symbol(*c) {
                    Ok(i) => {
                        symbol = Some(i);
                    },
                    Err(e) => {
                        return Err(e);
                    },
                }
            },
            _ => {},
        }
    }
    write_anchor(writer, label_type);
    write_offset(writer, options);
    write_text_color(writer, options);
    write_font(writer, options);
    write_rotate(writer, options);
    write_placement(writer, label_type, options, symbol);
    Ok(())
}

} // verus!
