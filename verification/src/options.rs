//! Styling options and how one is picked from a list.
//!
//! Every list of options is ordered, may hold several entries of one kind,
//! and is read by one rule: the earliest entry of the kind asked for counts,
//! and nothing after it does.

use vstd::prelude::*;
use crate::scalar::Scalar;

verus! {

/// A value that is given, or left to the plotting engine.
#[derive(Debug)]
pub enum AutoOption<T> {
    Fix(T),
    Auto,
}

/// How a label is placed against its anchor.
#[derive(Clone, Copy, Debug, PartialEq, Eq, Structural)]
pub enum AlignType {
    AlignLeft,
    AlignRight,
    AlignCenter,
    AlignTop,
    AlignBottom,
}

/// Which side of a pair of curves is filled.
#[derive(Clone, Copy, Debug, PartialEq, Eq, Structural)]
pub enum FillRegionType {
    Above,
    Below,
    Between,
}

/// The dash pattern of a line.
#[derive(Clone, Copy, Debug, PartialEq, Eq, Structural)]
pub enum DashType {
    Solid,
    SmallDot,
    Dot,
    Dash,
    DotDash,
    DotDotDash,
}

impl DashType {
    /// The engine's line-type index of the pattern.
    pub open spec fn index(self) -> int {
        match self {
            DashType::Solid => 1,
            DashType::SmallDot => 0,
            DashType::Dash => 2,
            DashType::Dot => 3,
            DashType::DotDash => 4,
            DashType::DotDotDash => 5,
        }
    }

    /// The engine's line-type index of the pattern.
    pub fn to_int(&self) -> (i: i32)
        ensures
            i == self.index(),
    {
        match self {
            DashType::Solid => 1,
            DashType::SmallDot => 0,
            DashType::Dash => 2,
            DashType::Dot => 3,
            DashType::DotDash => 4,
            DashType::DotDotDash => 5,
        }
    }
}

/// One coordinate of a free-standing label.
#[derive(Clone, Copy, Debug)]
pub enum Coordinate {
    /// Relative to the graph: 0 is its left or bottom edge, 1 its right or
    /// top edge.
    Graph(Scalar),
    /// In the units of the axis.
    Axis(Scalar),
}

/// An option of a plotted series.
#[derive(Clone, Copy, Debug)]
pub enum PlotOption<'a> {
    PointSymbol(char),
    PointSize(Scalar),
    Caption(&'a str),
    LineWidth(Scalar),
    Color(&'a str),
    BorderColor(&'a str),
    LineStyle(DashType),
    FillAlpha(Scalar),
    FillRegion(FillRegionType),
}

/// The kinds of [`PlotOption`].
#[derive(Clone, Copy, Debug, PartialEq, Eq, Structural)]
pub enum PlotOptionKind {
    PointSymbol,
    PointSize,
    Caption,
    LineWidth,
    Color,
    BorderColor,
    LineStyle,
    FillAlpha,
    FillRegion,
}

/// An option of a label, a title or the labels of an axis's ticks.
#[derive(Clone, Copy, Debug)]
pub enum LabelOption<'a> {
    TextOffset(Scalar, Scalar),
    Font(&'a str, Scalar),
    TextColor(&'a str),
    Rotate(Scalar),
    TextAlign(AlignType),
    MarkerSymbol(char),
    MarkerColor(&'a str),
    MarkerSize(Scalar),
}

/// The kinds of [`LabelOption`].
#[derive(Clone, Copy, Debug, PartialEq, Eq, Structural)]
pub enum LabelOptionKind {
    TextOffset,
    Font,
    TextColor,
    Rotate,
    TextAlign,
    MarkerSymbol,
    MarkerColor,
    MarkerSize,
}

/// An option of an axis's ticks.
#[derive(Clone, Copy, Debug)]
pub enum TickOption {
    OnAxis(bool),
    Mirror(bool),
    Inward(bool),
    MinorScale(Scalar),
    MajorScale(Scalar),
}

/// The kinds of [`TickOption`].
#[derive(Clone, Copy, Debug, PartialEq, Eq, Structural)]
pub enum TickOptionKind {
    OnAxis,
    Mirror,
    Inward,
    MinorScale,
    MajorScale,
}

/// A tick placed by hand.
#[derive(Debug)]
pub enum Tick {
    /// A major tick at a position, with a label of its own or the default one.
    Major(Scalar, AutoOption<String>),
    /// A minor tick at a position.
    Minor(Scalar),
}

/// A palette for surfaces and images.
#[derive(Clone, Copy, Debug)]
pub enum PaletteType {
    /// Gray levels with a gamma.
    Gray(Scalar),
    /// Three of the engine's numbered colour formulae, for red, green and blue.
    Formula(i32, i32, i32),
    /// A cube helix: start, cycles, saturation, gamma.
    CubeHelix(Scalar, Scalar, Scalar, Scalar),
}

/// An option that belongs to one of a closed set of kinds.
pub trait Tagged: Sized {
    type Kind;

    /// The kind of the option.
    spec fn kind(&self) -> Self::Kind;

    /// Whether the option is of the given kind.
    fn has_kind(&self, kind: &Self::Kind) -> (b: bool)
        ensures
            b == (self.kind() == *kind),
    ;
}

impl<'a> Tagged for PlotOption<'a> {
    type Kind = PlotOptionKind;

    open spec fn kind(&self) -> PlotOptionKind {
        match *self {
            PlotOption::PointSymbol(_) => PlotOptionKind::PointSymbol,
            PlotOption::PointSize(_) => PlotOptionKind::PointSize,
            PlotOption::Caption(_) => PlotOptionKind::Caption,
            PlotOption::LineWidth(_) => PlotOptionKind::LineWidth,
            PlotOption::Color(_) => PlotOptionKind::Color,
            PlotOption::BorderColor(_) => PlotOptionKind::BorderColor,
            PlotOption::LineStyle(_) => PlotOptionKind::LineStyle,
            PlotOption::FillAlpha(_) => PlotOptionKind::FillAlpha,
            PlotOption::FillRegion(_) => PlotOptionKind::FillRegion,
        }
    }

    fn has_kind(&self, kind: &PlotOptionKind) -> (b: bool) {
        let own = match *self {
            PlotOption::PointSymbol(_) => PlotOptionKind::PointSymbol,
            PlotOption::PointSize(_) => PlotOptionKind::PointSize,
            PlotOption::Caption(_) => PlotOptionKind::Caption,
            PlotOption::LineWidth(_) => PlotOptionKind::LineWidth,
            PlotOption::Color(_) => PlotOptionKind::Color,
            PlotOption::BorderColor(_) => PlotOptionKind::BorderColor,
            PlotOption::LineStyle(_) => PlotOptionKind::LineStyle,
            PlotOption::FillAlpha(_) => PlotOptionKind::FillAlpha,
            PlotOption::FillRegion(_) => PlotOptionKind::FillRegion,
        };
        own == *kind
    }
}

impl<'a> Tagged for LabelOption<'a> {
    type Kind = LabelOptionKind;

    open spec fn kind(&self) -> LabelOptionKind {
        match *self {
            LabelOption::TextOffset(_, _) => LabelOptionKind::TextOffset,
            LabelOption::Font(_, _) => LabelOptionKind::Font,
            LabelOption::TextColor(_) => LabelOptionKind::TextColor,
            LabelOption::Rotate(_) => LabelOptionKind::Rotate,
            LabelOption::TextAlign(_) => LabelOptionKind::TextAlign,
            LabelOption::MarkerSymbol(_) => LabelOptionKind::MarkerSymbol,
            LabelOption::MarkerColor(_) => LabelOptionKind::MarkerColor,
            LabelOption::MarkerSize(_) => LabelOptionKind::MarkerSize,
        }
    }

    fn has_kind(&self, kind: &LabelOptionKind) -> (b: bool) {
        let own = match *self {
            LabelOption::TextOffset(_, _) => LabelOptionKind::TextOffset,
            LabelOption::Font(_, _) => LabelOptionKind::Font,
            LabelOption::TextColor(_) => LabelOptionKind::TextColor,
            LabelOption::Rotate(_) => LabelOptionKind::Rotate,
            LabelOption::TextAlign(_) => LabelOptionKind::TextAlign,
            LabelOption::MarkerSymbol(_) => LabelOptionKind::MarkerSymbol,
            LabelOption::MarkerColor(_) => LabelOptionKind::MarkerColor,
            LabelOption::MarkerSize(_) => LabelOptionKind::MarkerSize,
        };
        own == *kind
    }
}

impl Tagged for TickOption {
    type Kind = TickOptionKind;

    open spec fn kind(&self) -> TickOptionKind {
        match *self {
            TickOption::OnAxis(_) => TickOptionKind::OnAxis,
            TickOption::Mirror(_) => TickOptionKind::Mirror,
            TickOption::Inward(_) => TickOptionKind::Inward,
            TickOption::MinorScale(_) => TickOptionKind::MinorScale,
            TickOption::MajorScale(_) => TickOptionKind::MajorScale,
        }
    }

    fn has_kind(&self, kind: &TickOptionKind) -> (b: bool) {
        let own = match *self {
            TickOption::OnAxis(_) => TickOptionKind::OnAxis,
            TickOption::Mirror(_) => TickOptionKind::Mirror,
            TickOption::Inward(_) => TickOptionKind::Inward,
            TickOption::MinorScale(_) => TickOptionKind::MinorScale,
            TickOption::MajorScale(_) => TickOptionKind::MajorScale,
        };
        own == *kind
    }
}

/// The option that counts for `kind`: the earliest entry of that kind, or
/// none when the list has no such entry.
pub open spec fn resolved<O: Tagged>(options: Seq<O>, kind: O::Kind) -> Option<O>
    decreases options.len(),
{
    if options.len() == 0 {
        None
    } else if options[0].kind() == kind {
        Some(options[0])
    } else {
        resolved(options.subrange(1, options.len() as int), kind)
    }
}

/// Where the earliest entry of `kind` stands, when there is one.
pub open spec fn is_earliest<O: Tagged>(options: Seq<O>, kind: O::Kind, i: int) -> bool {
    &&& 0 <= i < options.len()
    &&& options[i].kind() == kind
    &&& forall|j: int| 0 <= j < i ==> (#[trigger] options[j]).kind() != kind
}

/// Resolving gives the entry at the earliest position of the kind, whatever
/// follows it.
pub proof fn lemma_resolved_is_earliest<O: Tagged>(options: Seq<O>, kind: O::Kind, i: int)
    requires
        is_earliest(options, kind, i),
    ensures
        resolved(options, kind) == Some(options[i]),
    decreases options.len(),
{
    if i > 0 {
        let rest = options.subrange(1, options.len() as int);
        assert(options[0].kind() != kind);
        assert forall|j: int| 0 <= j < i - 1 implies (#[trigger] rest[j]).kind() != kind by {
            assert(rest[j] == options[j + 1]);
        }
        lemma_resolved_is_earliest(rest, kind, i - 1);
    }
}

/// Resolving gives nothing exactly when no entry is of the kind.
pub proof fn lemma_resolved_none<O: Tagged>(options: Seq<O>, kind: O::Kind)
    ensures
        resolved(options, kind) is None <==> forall|j: int|
            0 <= j < options.len() ==> (#[trigger] options[j]).kind() != kind,
    decreases options.len(),
{
    if options.len() > 0 {
        let rest = options.subrange(1, options.len() as int);
        lemma_resolved_none(rest, kind);
        if options[0].kind() != kind {
            if resolved(rest, kind) is None {
                assert forall|j: int| 0 <= j < options.len() implies (
                #[trigger] options[j]).kind() != kind by {
                    if j > 0 {
                        assert(rest[j - 1] == options[j]);
                    }
                }
            } else {
                let j = choose|j: int| 0 <= j < rest.len() && (#[trigger] rest[j]).kind() == kind;
                assert(options[j + 1] == rest[j]);
            }
        }
    }
}

/// Entries that follow do not change what a list resolves to: a later
/// duplicate of a kind is dropped without notice.
pub proof fn lemma_resolved_ignores_later<O: Tagged>(
    options: Seq<O>,
    later: Seq<O>,
    kind: O::Kind,
)
    requires
        resolved(options, kind) is Some,
    ensures
        resolved(options + later, kind) == resolved(options, kind),
    decreases options.len(),
{
    let all = options + later;
    assert(options.len() > 0);
    assert(all[0] == options[0]);
    if options[0].kind() != kind {
        let rest = options.subrange(1, options.len() as int);
        lemma_resolved_ignores_later(rest, later, kind);
        assert(all.subrange(1, all.len() as int) =~= rest + later);
    }
}

/// Finds the option that counts for `kind`.
pub fn resolve<'a, O: Tagged>(options: &'a [O], kind: O::Kind) -> (found: Option<&'a O>)
    ensures
        match found {
            Some(option) => resolved(options@, kind) == Some(*option),
            None => resolved(options@, kind) is None,
        },
{
    let mut i: usize = 0;
    assert(options@.subrange(0, options@.len() as int) =~= options@);
    while i < options.len()
        invariant
            i <= options.len(),
            resolved(options@, kind) == resolved(
                options@.subrange(i as int, options@.len() as int),
                kind,
            ),
        decreases options.len() - i,
    {
        let ghost tail = options@.subrange(i as int, options@.len() as int);
        assert(tail[0] == options@[i as int]);
        if options[i].has_kind(&kind) {
            return Some(&options[i]);
        }
        assert(tail.subrange(1, tail.len() as int) =~= options@.subrange(
            i + 1,
            options@.len() as int,
        ));
        i = i + 1;
    }
    assert(options@.subrange(i as int, options@.len() as int).len() == 0);
    None
}

} // verus!
