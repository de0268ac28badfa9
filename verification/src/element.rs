//! Plotted series: the directive that tells the engine how to read and draw
//! one, and the binary payload that follows the directives.

use vstd::prelude::*;
use crate::axes::AxesCommonData;
use crate::error::InvalidArgument;
use crate::options::{resolve, resolved, FillRegionType, PlotOption, PlotOptionKind};
use crate::scalar::Scalar;
use crate::script::{decimal, group_grow, grown, lemma_grow_start, number, quantity, text, Atom, Quantity, Script};
use crate::symbol::{char_to_symbol, symbol_index};

verus! {

broadcast use group_grow;

/// The shapes a series can be drawn in.
#[derive(Clone, Copy, Debug, PartialEq, Eq, Structural)]
pub enum PlotType {
    Lines,
    Points,
    LinesPoints,
    XErrorLines,
    YErrorLines,
    FillBetween,
    Boxes,
    Pm3D,
    Image,
}

impl PlotType {
    /// Whether the shape draws a line, and so takes a width and a dash
    /// pattern.
    pub open spec fn draws_line(self) -> bool {
        self == PlotType::Lines || self == PlotType::LinesPoints || self == PlotType::XErrorLines
            || self == PlotType::Boxes || self == PlotType::YErrorLines
    }

    /// Whether the shape draws point markers, and so takes a symbol and a
    /// size.
    pub open spec fn draws_points(self) -> bool {
        self == PlotType::Points || self == PlotType::LinesPoints || self == PlotType::XErrorLines
            || self == PlotType::YErrorLines
    }

    /// Whether the shape fills an area.
    pub open spec fn fills(self) -> bool {
        self == PlotType::Boxes || self == PlotType::FillBetween
    }

    /// The engine's name of the shape.
    pub open spec fn mode_name(self) -> Seq<char> {
        match self {
            PlotType::Lines => "lines"@,
            PlotType::Points => "points"@,
            PlotType::LinesPoints => "linespoints"@,
            PlotType::XErrorLines => "xerrorlines"@,
            PlotType::YErrorLines => "yerrorlines"@,
            PlotType::FillBetween => "filledcurves"@,
            PlotType::Boxes => "boxes"@,
            PlotType::Pm3D => "pm3d"@,
            PlotType::Image => "image"@,
        }
    }

    /// Whether the shape draws a line.
    pub fn is_line(&self) -> (b: bool)
        ensures
            b == self.draws_line(),
    {
        match self {
            PlotType::Lines
            | PlotType::LinesPoints
            | PlotType::XErrorLines
            | PlotType::Boxes
            | PlotType::YErrorLines => true,
            _ => false,
        }
    }

    /// Whether the shape draws point markers.
    pub fn is_points(&self) -> (b: bool)
        ensures
            b == self.draws_points(),
    {
        match self {
            PlotType::Points
            | PlotType::LinesPoints
            | PlotType::XErrorLines
            | PlotType::YErrorLines => true,
            _ => false,
        }
    }

    /// Whether the shape fills an area.
    pub fn is_fill(&self) -> (b: bool)
        ensures
            b == self.fills(),
    {
        match self {
            PlotType::Boxes | PlotType::FillBetween => true,
            _ => false,
        }
    }

    /// The engine's name of the shape.
    pub fn name(&self) -> (s: &'static str)
        ensures
            s@ == self.mode_name(),
    {
        match self {
            PlotType::Lines => "lines",
            PlotType::Points => "points",
            PlotType::LinesPoints => "linespoints",
            PlotType::XErrorLines => "xerrorlines",
            PlotType::YErrorLines => "yerrorlines",
            PlotType::FillBetween => "filledcurves",
            PlotType::Boxes => "boxes",
            PlotType::Pm3D => "pm3d",
            PlotType::Image => "image",
        }
    }
}

/// One plotted series or matrix.
#[derive(Debug)]
pub struct PlotElement {
    /// The directive for this series.
    pub args: Script,
    /// Its binary payload.
    pub data: Vec<u8>,
}

impl PlotElement {
    /// A series with an empty directive and an empty payload.
    pub fn new() -> (element: PlotElement)
        ensures
            element.args@ == Seq::<Atom>::empty(),
            element.data@ == Seq::<u8>::empty(),
    {
        PlotElement { args: Script::new(), data: Vec::new() }
    }
}

/// How the payload of a series is laid out.
#[derive(Clone, Copy, Debug)]
pub enum DataSourceType {
    /// Rows of columns, as many rows as were given.
    Record,
    /// A matrix whose cells are one unit apart.
    Array,
    /// A matrix that fills the box from `(x1, y1)` to `(x2, y2)`, given in
    /// that order.
    SizedArray(Scalar, Scalar, Scalar, Scalar),
}

/// The smaller of two bounds, as the engine is told it: the first, unless
/// the second is less. Bounds that compare equal, such as the two zeros,
/// and bounds of which one is a NaN, stay in the order given.
pub open spec fn lesser(a: Scalar, b: Scalar) -> Scalar {
    if b.lt(a) {
        b
    } else {
        a
    }
}

/// The larger of two bounds: the second, unless it is less than the first.
pub open spec fn greater(a: Scalar, b: Scalar) -> Scalar {
    if b.lt(a) {
        a
    } else {
        b
    }
}

/// The column selection of a record: `1:2:...:columns`.
pub open spec fn using_list(columns: nat) -> Seq<Atom>
    decreases columns,
{
    if columns == 0 {
        Seq::empty()
    } else if columns == 1 {
        decimal(1)
    } else {
        using_list((columns - 1) as nat) + text(":"@) + decimal(columns as int)
    }
}

/// The distance between neighbouring cells when `cells` of them span
/// `lo..hi`; a lone cell, or none, is given the distance 1.
pub open spec fn spacing(lo: Scalar, hi: Scalar, cells: usize) -> Seq<Atom> {
    if cells > 1 {
        quantity(Quantity::Spacing(lo, hi, cells))
    } else {
        text("1"@)
    }
}

/// The opening of a matrix's directive.
pub open spec fn array_clause(num_rows: usize, num_cols: usize) -> Seq<Atom> {
    text(" \"-\" binary endian=little array=("@) + decimal(num_cols as int) + text(","@)
        + decimal(num_rows as int) + text(") format=\"%float64\" "@)
}

/// The corner from which the engine counts the cells of a matrix, with a
/// third coordinate of 0 in three dimensions.
pub open spec fn origin_clause(x: Scalar, y: Scalar, is_3d: bool) -> Seq<Atom> {
    text("origin=("@) + number(x) + text(","@) + number(y) + (if is_3d {
        text(",0"@)
    } else {
        Seq::empty()
    }) + text(") "@)
}

/// The origin and cell distances of a matrix that fills a box: the origin
/// is the lesser bound on each axis, whichever way round the box is given.
pub open spec fn box_clause(
    num_rows: usize,
    num_cols: usize,
    x1: Scalar,
    y1: Scalar,
    x2: Scalar,
    y2: Scalar,
    is_3d: bool,
) -> Seq<Atom> {
    origin_clause(lesser(x1, x2), lesser(y1, y2), is_3d) + text("dx="@) + spacing(
        lesser(x1, x2),
        greater(x1, x2),
        num_cols,
    ) + text(" "@) + text("dy="@) + spacing(lesser(y1, y2), greater(y1, y2), num_rows) + text(" "@)
}

/// Whether two bounds are told apart by their order, or are one and the
/// same: the bounds for which it does not matter which is given first.
pub open spec fn ordered_or_same(a: Scalar, b: Scalar) -> bool {
    a.lt(b) || b.lt(a) || a == b
}

/// A box given the other way round, on either axis or on both, has the same
/// origin and the same cell distances.
pub proof fn lemma_box_either_way_round(
    num_rows: usize,
    num_cols: usize,
    x1: Scalar,
    y1: Scalar,
    x2: Scalar,
    y2: Scalar,
    is_3d: bool,
)
    requires
        ordered_or_same(x1, x2),
        ordered_or_same(y1, y2),
    ensures
        box_clause(num_rows, num_cols, x2, y1, x1, y2, is_3d) == box_clause(
            num_rows,
            num_cols,
            x1,
            y1,
            x2,
            y2,
            is_3d,
        ),
        box_clause(num_rows, num_cols, x1, y2, x2, y1, is_3d) == box_clause(
            num_rows,
            num_cols,
            x1,
            y1,
            x2,
            y2,
            is_3d,
        ),
        box_clause(num_rows, num_cols, x2, y2, x1, y1, is_3d) == box_clause(
            num_rows,
            num_cols,
            x1,
            y1,
            x2,
            y2,
            is_3d,
        ),
{
    assert(lesser(x2, x1) == lesser(x1, x2));
    assert(greater(x2, x1) == greater(x1, x2));
    assert(lesser(y2, y1) == lesser(y1, y2));
    assert(greater(y2, y1) == greater(y1, y2));
}

/// A matrix of one column has the cell distance 1 along x, and one of a
/// single row the distance 1 along y, whatever the bounds of its box: no
/// distance is ever taken between a cell and itself.
pub proof fn lemma_single_cell_spacing(
    num_rows: usize,
    num_cols: usize,
    x1: Scalar,
    y1: Scalar,
    x2: Scalar,
    y2: Scalar,
    is_3d: bool,
)
    ensures
        num_cols <= 1 ==> box_clause(num_rows, num_cols, x1, y1, x2, y2, is_3d) == origin_clause(
            lesser(x1, x2),
            lesser(y1, y2),
            is_3d,
        ) + text("dx="@) + text("1"@) + text(" "@) + text("dy="@) + spacing(
            lesser(y1, y2),
            greater(y1, y2),
            num_rows,
        ) + text(" "@),
        num_rows <= 1 ==> box_clause(num_rows, num_cols, x1, y1, x2, y2, is_3d) == origin_clause(
            lesser(x1, x2),
            lesser(y1, y2),
            is_3d,
        ) + text("dx="@) + spacing(lesser(x1, x2), greater(x1, x2), num_cols) + text(" "@) + text(
            "dy="@,
        ) + text("1"@) + text(" "@),
{
}

/// The part of a directive that says how the payload is laid out.
pub open spec fn source_clause(
    num_rows: usize,
    num_cols: usize,
    source_type: DataSourceType,
    is_3d: bool,
) -> Seq<Atom> {
    match source_type {
        DataSourceType::Record => text(" \"-\" binary endian=little record="@) + decimal(
            num_rows as int,
        ) + text(" format=\"%float64\" using "@) + using_list(num_cols as nat),
        DataSourceType::Array => array_clause(num_rows, num_cols),
        DataSourceType::SizedArray(x1, y1, x2, y2) => array_clause(num_rows, num_cols)
            + box_clause(num_rows, num_cols, x1, y1, x2, y2, is_3d),
    }
}

/// Which side is filled between two curves: closed unless an option says
/// above or below. Other shapes say nothing here.
pub open spec fn region_clause(plot_type: PlotType, options: Seq<PlotOption>) -> Seq<Atom> {
    if plot_type == PlotType::FillBetween {
        match resolved(options, PlotOptionKind::FillRegion) {
            Some(PlotOption::FillRegion(FillRegionType::Above)) => text(" above"@),
            Some(PlotOption::FillRegion(FillRegionType::Below)) => text(" below"@),
            _ => text(" closed"@),
        }
    } else {
        Seq::empty()
    }
}

/// The opacity of a fill, when an option gives one.
pub open spec fn alpha_clause(options: Seq<PlotOption>) -> Seq<Atom> {
    match resolved(options, PlotOptionKind::FillAlpha) {
        Some(PlotOption::FillAlpha(a)) => number(a),
        _ => Seq::empty(),
    }
}

/// The colour of a border, when an option gives one.
pub open spec fn border_color_clause(options: Seq<PlotOption>) -> Seq<Atom> {
    match resolved(options, PlotOptionKind::BorderColor) {
        Some(PlotOption::BorderColor(s)) => text(" rgb \""@) + text(s@) + text("\""@),
        _ => Seq::empty(),
    }
}

/// The border of a fill: one for shapes that draw a line, in the border
/// colour when an option gives one, and none for the others.
pub open spec fn border_clause(plot_type: PlotType, options: Seq<PlotOption>) -> Seq<Atom> {
    if plot_type.draws_line() {
        text(" border"@) + border_color_clause(options)
    } else {
        text(" noborder"@)
    }
}

/// The fill part of a directive; empty for shapes that fill nothing.
pub open spec fn fill_clause(plot_type: PlotType, options: Seq<PlotOption>) -> Seq<Atom> {
    if plot_type.fills() {
        region_clause(plot_type, options) + text(" fill transparent solid "@) + alpha_clause(
            options,
        ) + border_clause(plot_type, options)
    } else {
        Seq::empty()
    }
}

/// Width and dash pattern of a line, each 1 unless an option gives it.
pub open spec fn line_clause(options: Seq<PlotOption>) -> Seq<Atom> {
    text(" lw "@) + (match resolved(options, PlotOptionKind::LineWidth) {
        Some(PlotOption::LineWidth(w)) => number(w),
        _ => text("1"@),
    }) + text(" lt "@) + (match resolved(options, PlotOptionKind::LineStyle) {
        Some(PlotOption::LineStyle(d)) => decimal(d.index()),
        _ => text("1"@),
    })
}

/// The point symbol that the options ask for.
pub open spec fn point_symbol(options: Seq<PlotOption>) -> Option<char> {
    match resolved(options, PlotOptionKind::PointSymbol) {
        Some(PlotOption::PointSymbol(c)) => Some(c),
        _ => None,
    }
}

/// The symbol of the point markers, when an option gives one.
pub open spec fn point_symbol_clause(options: Seq<PlotOption>) -> Seq<Atom> {
    match point_symbol(options) {
        Some(c) => text(" pt "@) + decimal(symbol_index(c).unwrap()),
        None => Seq::empty(),
    }
}

/// The size of the point markers, when an option gives one.
pub open spec fn point_size_clause(options: Seq<PlotOption>) -> Seq<Atom> {
    match resolved(options, PlotOptionKind::PointSize) {
        Some(PlotOption::PointSize(z)) => text(" ps "@) + number(z),
        _ => Seq::empty(),
    }
}

/// Symbol and size of the point markers, each left out unless an option
/// gives it.
pub open spec fn point_clause(options: Seq<PlotOption>) -> Seq<Atom> {
    point_symbol_clause(options) + point_size_clause(options)
}

/// The colour that is used: that of the earliest colour option, else the
/// default, else none.
pub open spec fn chosen_color(options: Seq<PlotOption>, default: Option<Seq<char>>) -> Option<
    Seq<char>,
> {
    match resolved(options, PlotOptionKind::Color) {
        Some(PlotOption::Color(s)) => Some(s@),
        _ => default,
    }
}

/// The colour part of a directive.
pub open spec fn color_clause(options: Seq<PlotOption>, default: Option<Seq<char>>) -> Seq<Atom> {
    match chosen_color(options, default) {
        Some(s) => text(" lc rgb \""@) + text(s) + text("\""@),
        None => Seq::empty(),
    }
}

/// The caption, which is always there and empty unless an option gives one.
pub open spec fn caption_clause(options: Seq<PlotOption>) -> Seq<Atom> {
    text(" t \""@) + (match resolved(options, PlotOptionKind::Caption) {
        Some(PlotOption::Caption(s)) => text(s@),
        _ => Seq::empty(),
    }) + text("\""@)
}

/// The styling of a series: fill, line, points, colour and caption, each
/// only for the shapes it applies to.
pub open spec fn style_clause(plot_type: PlotType, options: Seq<PlotOption>) -> Seq<Atom> {
    fill_clause(plot_type, options) + (if plot_type.draws_line() {
        line_clause(options)
    } else {
        Seq::empty()
    }) + (if plot_type.draws_points() {
        point_clause(options)
    } else {
        Seq::empty()
    }) + color_clause(options, None) + caption_clause(options)
}

/// The whole directive of one series.
pub open spec fn element_directive(
    num_rows: usize,
    num_cols: usize,
    plot_type: PlotType,
    source_type: DataSourceType,
    is_3d: bool,
    options: Seq<PlotOption>,
) -> Seq<Atom> {
    source_clause(num_rows, num_cols, source_type, is_3d) + text(" with "@) + text(
        plot_type.mode_name(),
    ) + style_clause(plot_type, options)
}

/// The character that stops a directive from being written: the point
/// symbol asked for, where the shape draws points and the character names no
/// symbol.
pub open spec fn rejected_symbol(plot_type: PlotType, options: Seq<PlotOption>) -> Option<char> {
    if plot_type.draws_points() {
        match point_symbol(options) {
            Some(c) => if symbol_index(c) is None {
                Some(c)
            } else {
                None
            },
            None => None,
        }
    } else {
        None
    }
}

fn write_using_list(args: &mut Script, num_cols: usize)
    ensures
        final(args)@ == old(args)@ + using_list(num_cols as nat),
{
    let mut col: usize = 0;
    proof {
        lemma_grow_start(args@);
    }
    while col < num_cols
        invariant
            col <= num_cols,
            args@ == grown(old(args)@, using_list(col as nat)),
        decreases num_cols - col,
    {
        if col > 0 {
            args.write_str(":");
        }
        col = col + 1;
        args.write_uint(col as u64);
    }
}

fn write_spacing(args: &mut Script, lo: Scalar, hi: Scalar, cells: usize)
    ensures
        final(args)@ == old(args)@ + spacing(lo, hi, cells),
{
    if cells > 1 {
        args.write_spacing(lo, hi, cells);
    } else {
        args.write_str("1");
    }
}

fn write_array_clause(args: &mut Script, num_rows: usize, num_cols: usize)
    ensures
        final(args)@ == old(args)@ + array_clause(num_rows, num_cols),
{
    proof {
        lemma_grow_start(args@);
    }
    args.write_str(" \"-\" binary endian=little array=(");
    args.write_uint(num_cols as u64);
    args.write_str(",");
    args.write_uint(num_rows as u64);
    args.write_str(") format=\"%float64\" ");
}

fn write_origin_clause(args: &mut Script, x: Scalar, y: Scalar, is_3d: bool)
    ensures
        final(args)@ == old(args)@ + origin_clause(x, y, is_3d),
{
    proof {
        lemma_grow_start(args@);
    }
    args.write_str("origin=(");
    args.write_number(x);
    args.write_str(",");
    args.write_number(y);
    if is_3d {
        args.write_str(",0");
    }
    args.write_str(") ");
}

fn write_box_clause(
    args: &mut Script,
    num_rows: usize,
    num_cols: usize,
    x1: Scalar,
    y1: Scalar,
    x2: Scalar,
    y2: Scalar,
    is_3d: bool,
)
    ensures
        final(args)@ == old(args)@ + box_clause(num_rows, num_cols, x1, y1, x2, y2, is_3d),
{
    proof {
        lemma_grow_start(args@);
    }
    let (x_lo, x_hi) = if x2.less_than(&x1) {
        (x2, x1)
    } else {
        (x1, x2)
    };
    let (y_lo, y_hi) = if y2.less_than(&y1) {
        (y2, y1)
    } else {
        (y1, y2)
    };
    write_origin_clause(args, x_lo, y_lo, is_3d);
    args.write_str("dx=");
    write_spacing(args, x_lo, x_hi, num_cols);
    args.write_str(" ");
    args.write_str("dy=");
    write_spacing(args, y_lo, y_hi, num_rows);
    args.write_str(" ");
}

fn write_source_clause(
    args: &mut Script,
    num_rows: usize,
    num_cols: usize,
    source_type: DataSourceType,
    is_3d: bool,
)
    ensures
        final(args)@ == old(args)@ + source_clause(num_rows, num_cols, source_type, is_3d),
{
    proof {
        lemma_grow_start(args@);
    }
    match source_type {
        DataSourceType::Record => {
            args.write_str(" \"-\" binary endian=little record=");
            args.write_uint(num_rows as u64);
            args.write_str(" format=\"%float64\" using ");
            write_using_list(args, num_cols);
        },
        DataSourceType::Array => {
            write_array_clause(args, num_rows, num_cols);
        },
        DataSourceType::SizedArray(x1, y1, x2, y2) => {
            write_array_clause(args, num_rows, num_cols);
            write_box_clause(args, num_rows, num_cols, x1, y1, x2, y2, is_3d);
        },
    }
}

fn write_region_clause(args: &mut Script, plot_type: PlotType, options: &[PlotOption])
    ensures
        final(args)@ == old(args)@ + region_clause(plot_type, options@),
{
    proof {
        lemma_grow_start(args@);
    }
    match plot_type {
        PlotType::FillBetween => {
            match resolve(options, PlotOptionKind::FillRegion) {
                Some(PlotOption::FillRegion(FillRegionType::Above)) => {
                    args.write_str(" above");
                },
                Some(PlotOption::FillRegion(FillRegionType::Below)) => {
                    args.write_str(" below");
                },
                _ => {
                    args.write_str(" closed");
                },
            }
        },
        _ => {},
    }
}

fn write_alpha_clause(args: &mut Script, options: &[PlotOption])
    ensures
        final(args)@ == old(args)@ + alpha_clause(options@),
{
    proof {
        lemma_grow_start(args@);
    }
    match resolve(options, PlotOptionKind::FillAlpha) {
        Some(PlotOption::FillAlpha(a)) => {
            args.write_number(*a);
        },
        _ => {},
    }
}

fn write_border_color_clause(args: &mut Script, options: &[PlotOption])
    ensures
        final(args)@ == old(args)@ + border_color_clause(options@),
{
    proof {
        lemma_grow_start(args@);
    }
    match resolve(options, PlotOptionKind::BorderColor) {
        Some(PlotOption::BorderColor(s)) => {
            args.write_str(" rgb \"");
            args.write_str(s);
            args.write_str("\"");
        },
        _ => {},
    }
}

fn write_border_clause(args: &mut Script, plot_type: PlotType, options: &[PlotOption])
    ensures
        final(args)@ == old(args)@ + border_clause(plot_type, options@),
{
    proof {
        lemma_grow_start(args@);
    }
    if plot_type.is_line() {
        args.write_str(" border");
        write_border_color_clause(args, options);
    } else {
        args.write_str(" noborder");
    }
}

fn write_fill_clause(args: &mut Script, plot_type: PlotType, options: &[PlotOption])
    ensures
        final(args)@ == old(args)@ + fill_clause(plot_type, options@),
{
    proof {
        lemma_grow_start(args@);
    }
    if plot_type.is_fill() {
        write_region_clause(args, plot_type, options);
        args.write_str(" fill transparent solid ");
        write_alpha_clause(args, options);
        write_border_clause(args, plot_type, options);
    }
}

fn write_point_symbol_clause(
    args: &mut Script,
    symbol: Option<i32>,
    Ghost(options): Ghost<Seq<PlotOption>>,
)
    requires
        match point_symbol(options) {
            Some(c) => symbol matches Some(i) && symbol_index(c) == Some(i as int),
            None => symbol is None,
        },
    ensures
        final(args)@ == old(args)@ + point_symbol_clause(options),
{
    proof {
        lemma_grow_start(args@);
    }
    match symbol {
        Some(i) => {
            args.write_str(" pt ");
            args.write_int(i as i64);
        },
        None => {},
    }
}

fn write_point_size_clause(args: &mut Script, options: &[PlotOption])
    ensures
        final(args)@ == old(args)@ + point_size_clause(options@),
{
    proof {
        lemma_grow_start(args@);
    }
    match resolve(options, PlotOptionKind::PointSize) {
        Some(PlotOption::PointSize(z)) => {
            args.write_str(" ps ");
            args.write_number(*z);
        },
        _ => {},
    }
}

fn write_point_clause(args: &mut Script, options: &[PlotOption], symbol: Option<i32>)
    requires
        match point_symbol(options@) {
            Some(c) => symbol matches Some(i) && symbol_index(c) == Some(i as int),
            None => symbol is None,
        },
    ensures
        final(args)@ == old(args)@ + point_clause(options@),
{
    proof {
        lemma_grow_start(args@);
    }
    write_point_symbol_clause(args, symbol, Ghost(options@));
    write_point_size_clause(args, options);
}

fn write_caption_clause(args: &mut Script, options: &[PlotOption])
    ensures
        final(args)@ == old(args)@ + caption_clause(options@),
{
    proof {
        lemma_grow_start(args@);
    }
    args.write_str(" t \"");
    match resolve(options, PlotOptionKind::Caption) {
        Some(PlotOption::Caption(s)) => {
            args.write_str(s);
        },
        _ => {},
    }
    args.write_str("\"");
}

fn write_style_clause(
    args: &mut Script,
    plot_type: PlotType,
    options: &[PlotOption],
    symbol: Option<i32>,
)
    requires
        plot_type.draws_points() ==> match point_symbol(options@) {
            Some(c) => symbol matches Some(i) && symbol_index(c) == Some(i as int),
            None => symbol is None,
        },
    ensures
        final(args)@ == old(args)@ + style_clause(plot_type, options@),
{
    proof {
        lemma_grow_start(args@);
    }
    write_fill_clause(args, plot_type, options);
    if plot_type.is_line() {
        AxesCommonData::write_line_options(args, options);
    }
    if plot_type.is_points() {
        write_point_clause(args, options, symbol);
    }
    AxesCommonData::write_color_options(args, options, None);
    write_caption_clause(args, options);
}

/// The view of an optional piece of text.
pub open spec fn optional_text(s: Option<&str>) -> Option<Seq<char>> {
    match s {
        Some(s) => Some(s@),
        None => None,
    }
}

impl AxesCommonData {
    /// Writes the width and the dash pattern of a line.
    pub fn write_line_options(c: &mut Script, options: &[PlotOption])
        ensures
            final(c)@ == old(c)@ + line_clause(options@),
    {
        proof {
            lemma_grow_start(c@);
        }
        c.write_str(" lw ");
        match resolve(options, PlotOptionKind::LineWidth) {
            Some(PlotOption::LineWidth(w)) => {
                c.write_number(*w);
            },
            _ => {
                c.write_str("1");
            },
        }
        c.write_str(" lt ");
        match resolve(options, PlotOptionKind::LineStyle) {
            Some(PlotOption::LineStyle(d)) => {
                c.write_int(d.to_int() as i64);
            },
            _ => {
                c.write_str("1");
            },
        }
    }

    /// Writes the colour: that of the options, else the default, else
    /// nothing.
    pub fn write_color_options(c: &mut Script, options: &[PlotOption], default: Option<&str>)
        ensures
            final(c)@ == old(c)@ + color_clause(options@, optional_text(default)),
    {
        proof {
            lemma_grow_start(c@);
        }
        let col = match resolve(options, PlotOptionKind::Color) {
            Some(PlotOption::Color(s)) => Some(*s),
            _ => default,
        };
        match col {
            Some(s) => {
                c.write_str(" lc rgb \"");
                c.write_str(s);
                c.write_str("\"");
            },
            None => {},
        }
    }

    /// Writes the directive of one series: how its payload is laid out, the
    /// shape it is drawn in, and its styling.
    ///
    /// Where the shape draws points and the options ask for a symbol that
    /// does not exist, nothing is written.
    pub fn write_common_commands(
        args: &mut Script,
        num_rows: usize,
        num_cols: usize,
        plot_type: PlotType,
        source_type: DataSourceType,
        is_3d: bool,
        options: &[PlotOption],
    ) -> (result: Result<(), InvalidArgument>)
        ensures
            match result {
                Ok(()) => rejected_symbol(plot_type, options@) is None && final(args)@ == old(
                    args,
                )@ + element_directive(
                    num_rows,
                    num_cols,
                    plot_type,
                    source_type,
                    is_3d,
                    options@,
                ),
                Err(e) => rejected_symbol(plot_type, options@) matches Some(c) && e
                    == InvalidArgument::InvalidSymbol(c) && final(args)@ == old(args)@,
            },
    {
        proof {
            lemma_grow_start(args@);
        }
        let mut symbol: Option<i32> = None;
        if plot_type.is_points() {
            match resolve(options, PlotOptionKind::PointSymbol) {
                Some(PlotOption::PointSymbol(c)) => {
                    match char_to_symbol(*c) {
                        Ok(i) => {
                            symbol = Some(i);
                        },
                        Err(e) => {
                            return Err(e);
                        },
                    }
                },
                _ => {},
            }
        }
        write_source_clause(args, num_rows, num_cols, source_type, is_3d);
        args.write_str(" with ");
        args.write_str(plot_type.name());
        write_style_clause(args, plot_type, options, symbol);
        Ok(())
    }
}

} // verus!
