//! The state of one axis and the directives it compiles to.

use vstd::prelude::*;
use crate::error::InvalidArgument;
use crate::label::{label_options_clause, write_out_label_options, LabelType};
use crate::options::{resolve, resolved, AutoOption, LabelOption, Tick, TickOption, TickOptionKind};
use crate::scalar::{Scalar, HALF_BITS};
use crate::script::{
    decimal, group_grow, grown, joined, joined_prefix, lemma_grow_start, lemma_joined_ends,
    lemma_joined_step, number, text, Atom, Script,
};

verus! {

broadcast use group_grow;

/// The axes that carry ticks.
#[derive(Clone, Copy, Debug, PartialEq, Eq, Structural)]
pub enum TickAxis {
    XTickAxis,
    YTickAxis,
    ZTickAxis,
    CBTickAxis,
}

impl TickAxis {
    /// The engine's name of the axis.
    pub open spec fn axis_name(self) -> Seq<char> {
        match self {
            TickAxis::XTickAxis => "x"@,
            TickAxis::YTickAxis => "y"@,
            TickAxis::ZTickAxis => "z"@,
            TickAxis::CBTickAxis => "cb"@,
        }
    }

    /// The engine's name of the axis's ticks.
    pub open spec fn tick_name(self) -> Seq<char> {
        match self {
            TickAxis::XTickAxis => "xtics"@,
            TickAxis::YTickAxis => "ytics"@,
            TickAxis::ZTickAxis => "ztics"@,
            TickAxis::CBTickAxis => "cbtics"@,
        }
    }

    /// The engine's name of the axis's range.
    pub open spec fn range_name(self) -> Seq<char> {
        match self {
            TickAxis::XTickAxis => "xrange"@,
            TickAxis::YTickAxis => "yrange"@,
            TickAxis::ZTickAxis => "zrange"@,
            TickAxis::CBTickAxis => "cbrange"@,
        }
    }

    /// The engine's name of the axis.
    pub fn to_axis_str(&self) -> (s: &'static str)
        ensures
            s@ == self.axis_name(),
    {
        match self {
            TickAxis::XTickAxis => "x",
            TickAxis::YTickAxis => "y",
            TickAxis::ZTickAxis => "z",
            TickAxis::CBTickAxis => "cb",
        }
    }

    /// The engine's name of the axis's ticks.
    pub fn to_tick_str(&self) -> (s: &'static str)
        ensures
            s@ == self.tick_name(),
    {
        match self {
            TickAxis::XTickAxis => "xtics",
            TickAxis::YTickAxis => "ytics",
            TickAxis::ZTickAxis => "ztics",
            TickAxis::CBTickAxis => "cbtics",
        }
    }

    /// The engine's name of the axis's range.
    pub fn to_range_str(&self) -> (s: &'static str)
        ensures
            s@ == self.range_name(),
    {
        match self {
            TickAxis::XTickAxis => "xrange",
            TickAxis::YTickAxis => "yrange",
            TickAxis::ZTickAxis => "zrange",
            TickAxis::CBTickAxis => "cbrange",
        }
    }
}

/// One axis: its ticks as they will be written, its scale and its range.
#[derive(Debug)]
pub struct AxisData {
    /// The tick directive, written anew by every call that sets ticks.
    pub ticks_buf: Script,
    /// The base of the logarithmic scale, if the axis has one.
    pub log_base: Option<Scalar>,
    /// The number of minor ticks between two major ones.
    pub mticks: i32,
    /// Which axis this is.
    pub axis: TickAxis,
    pub min: AutoOption<Scalar>,
    pub max: AutoOption<Scalar>,
}

impl AxisData {
    /// Whether this is the given axis with nothing set: no tick directive, a
    /// linear scale, no minor ticks and an automatic range.
    pub open spec fn is_fresh(&self, axis: TickAxis) -> bool {
        &&& self.ticks_buf@ == Seq::<Atom>::empty()
        &&& self.log_base is None
        &&& self.mticks == 0
        &&& self.axis == axis
        &&& self.min is Auto
        &&& self.max is Auto
    }

    /// Whether `self` is `before` with a new tick directive and minor-tick
    /// count, and nothing else changed.
    pub open spec fn with_ticks(
        &self,
        before: &AxisData,
        directive: Seq<Atom>,
        count: int,
    ) -> bool {
        &&& self.ticks_buf@ == directive
        &&& self.mticks == count
        &&& self.axis == before.axis
        &&& self.log_base == before.log_base
        &&& self.min == before.min
        &&& self.max == before.max
    }

    /// Whether `self` is `before` with a new range, and nothing else
    /// changed.
    pub open spec fn with_range(
        &self,
        before: &AxisData,
        min: AutoOption<Scalar>,
        max: AutoOption<Scalar>,
    ) -> bool {
        &&& self.min == min
        &&& self.max == max
        &&& self.ticks_buf == before.ticks_buf
        &&& self.mticks == before.mticks
        &&& self.axis == before.axis
        &&& self.log_base == before.log_base
    }

    /// Whether `self` is `before` with a new scale, and nothing else
    /// changed.
    pub open spec fn with_log(&self, before: &AxisData, base: Option<Scalar>) -> bool {
        &&& self.log_base == base
        &&& self.ticks_buf == before.ticks_buf
        &&& self.mticks == before.mticks
        &&& self.axis == before.axis
        &&& self.min == before.min
        &&& self.max == before.max
    }

    /// An axis with nothing set.
    pub fn new(axis: TickAxis) -> (data: AxisData)
        ensures
            data.is_fresh(axis),
    {
        AxisData {
            ticks_buf: Script::new(),
            log_base: None,
            mticks: 0,
            axis,
            min: AutoOption::Auto,
            max: AutoOption::Auto,
        }
    }
}

/// One bound of a range: the number, or `*` where the engine is to choose.
pub open spec fn bound_clause(bound: AutoOption<Scalar>) -> Seq<Atom> {
    match bound {
        AutoOption::Fix(v) => number(v),
        AutoOption::Auto => text("*"@),
    }
}

/// Where the ticks stand: on the axis or on the border, when an option says.
pub open spec fn on_axis_clause(tick_options: Seq<TickOption>) -> Seq<Atom> {
    match resolved(tick_options, TickOptionKind::OnAxis) {
        Some(TickOption::OnAxis(b)) => if b {
            text(" axis"@)
        } else {
            text(" border"@)
        },
        _ => Seq::empty(),
    }
}

/// Whether the ticks are repeated on the opposite side, when an option says.
pub open spec fn mirror_clause(tick_options: Seq<TickOption>) -> Seq<Atom> {
    match resolved(tick_options, TickOptionKind::Mirror) {
        Some(TickOption::Mirror(b)) => if b {
            text(" mirror"@)
        } else {
            text(" nomirror"@)
        },
        _ => Seq::empty(),
    }
}

/// Whether the ticks point inward or outward, when an option says.
pub open spec fn inward_clause(tick_options: Seq<TickOption>) -> Seq<Atom> {
    match resolved(tick_options, TickOptionKind::Inward) {
        Some(TickOption::Inward(b)) => if b {
            text(" in"@)
        } else {
            text(" out"@)
        },
        _ => Seq::empty(),
    }
}

/// The length scale of the minor ticks: one half unless an option gives it.
pub open spec fn minor_scale(tick_options: Seq<TickOption>) -> Scalar {
    match resolved(tick_options, TickOptionKind::MinorScale) {
        Some(TickOption::MinorScale(s)) => s,
        _ => Scalar { bits: HALF_BITS },
    }
}

/// The length scale of the major ticks: one half unless an option gives it.
pub open spec fn major_scale(tick_options: Seq<TickOption>) -> Scalar {
    match resolved(tick_options, TickOptionKind::MajorScale) {
        Some(TickOption::MajorScale(s)) => s,
        _ => Scalar { bits: HALF_BITS },
    }
}

/// How ticks and their labels are dressed: the decoration of the label
/// text, the placement options, and the two length scales.
pub open spec fn tick_options_clause(
    tick_options: Seq<TickOption>,
    label_options: Seq<LabelOption>,
) -> Seq<Atom> {
    label_options_clause(LabelType::AxesTicks, label_options) + on_axis_clause(tick_options)
        + mirror_clause(tick_options) + inward_clause(tick_options) + text(" scale "@) + number(
        minor_scale(tick_options),
    ) + text(","@) + number(major_scale(tick_options))
}

/// A minor-tick count as it is stored: the count, wrapped into the range of
/// the field.
pub open spec fn stored_count(count: u32) -> int {
    if count <= 0x7fff_ffff {
        count as int
    } else {
        count - 0x1_0000_0000
    }
}

/// The spacing of automatic ticks: left to the engine, or a fixed increment.
pub open spec fn increment_clause(increment: AutoOption<Scalar>) -> Seq<Atom> {
    match increment {
        AutoOption::Auto => text(" autofreq"@),
        AutoOption::Fix(v) => text(" "@) + text(" "@) + number(v),
    }
}

/// Whether a tick placement is turned down: it fixes an increment that is
/// zero or less.
pub open spec fn rejected_placement(placement: Option<(AutoOption<Scalar>, u32)>) -> bool {
    placement matches Some((AutoOption::Fix(v), _)) && v.is_non_positive()
}

/// The tick directive that a placement compiles to.
pub open spec fn ticks_directive(
    axis: TickAxis,
    placement: Option<(AutoOption<Scalar>, u32)>,
    tick_options: Seq<TickOption>,
    label_options: Seq<LabelOption>,
) -> Seq<Atom> {
    match placement {
        Some((increment, _)) => text("set "@) + text(axis.tick_name()) + increment_clause(
            increment,
        ) + tick_options_clause(tick_options, label_options) + text("\n"@),
        None => text("unset "@) + text(axis.tick_name()) + text("\n"@),
    }
}

/// The minor-tick count that a placement leaves behind.
pub open spec fn placed_count(placement: Option<(AutoOption<Scalar>, u32)>) -> int {
    match placement {
        Some((_, count)) => stored_count(count),
        None => 0,
    }
}

/// One entry of a list of hand-placed ticks: the label in quotes if it has
/// one, the position, and the level, 0 for a major tick and 1 for a minor.
pub open spec fn tick_entry(tick: Tick) -> Seq<Atom> {
    match tick {
        Tick::Major(pos, AutoOption::Fix(label)) => text("\""@) + text(label@) + text("\" "@)
            + number(pos) + text(" "@) + decimal(0),
        Tick::Major(pos, AutoOption::Auto) => number(pos) + text(" "@) + decimal(0),
        Tick::Minor(pos) => number(pos) + text(" "@) + decimal(1),
    }
}

/// The entries of a list of hand-placed ticks.
pub open spec fn tick_entries(ticks: Seq<Tick>) -> Seq<Seq<Atom>> {
    Seq::new(ticks.len(), |i: int| tick_entry(ticks[i]))
}

/// The tick directive that a list of hand-placed ticks compiles to.
pub open spec fn custom_ticks_directive(
    axis: TickAxis,
    ticks: Seq<Tick>,
    tick_options: Seq<TickOption>,
    label_options: Seq<LabelOption>,
) -> Seq<Atom> {
    text("set "@) + text(axis.tick_name()) + text(" ("@) + joined(tick_entries(ticks), text(","@))
        + text(")"@) + tick_options_clause(tick_options, label_options) + text("\n"@)
}

fn stored_minor_count(count: u32) -> (stored: i32)
    ensures
        stored == stored_count(count),
{
    if count <= 0x7fff_ffff {
        count as i32
    } else {
        (count - 0x8000_0000) as i32 + i32::MIN
    }
}

fn write_bound(w: &mut Script, bound: &AutoOption<Scalar>)
    ensures
        final(w)@ == old(w)@ + bound_clause(*bound),
{
    proof {
        lemma_grow_start(w@);
    }
    match bound {
        AutoOption::Fix(v) => {
            w.write_number(*v);
        },
        AutoOption::Auto => {
            w.write_str("*");
        },
    }
}

fn write_increment(c: &mut Script, increment: AutoOption<Scalar>)
    ensures
        final(c)@ == old(c)@ + increment_clause(increment),
{
    proof {
        lemma_grow_start(c@);
    }
    match increment {
        AutoOption::Auto => {
            c.write_str(" autofreq");
        },
        AutoOption::Fix(v) => {
            c.write_str(" ");
            c.write_str(" ");
            c.write_number(v);
        },
    }
}

fn write_tick_placement_options(c: &mut Script, tick_options: &[TickOption])
    ensures
        final(c)@ == old(c)@ + on_axis_clause(tick_options@) + mirror_clause(tick_options@)
            + inward_clause(tick_options@),
{
    proof {
        lemma_grow_start(c@);
    }
    match resolve(tick_options, TickOptionKind::OnAxis) {
        Some(TickOption::OnAxis(b)) => {
            if *b {
                c.write_str(" axis");
            } else {
                c.write_str(" border");
            }
        },
        _ => {},
    }
    match resolve(tick_options, TickOptionKind::Mirror) {
        Some(TickOption::Mirror(b)) => {
            if *b {
                c.write_str(" mirror");
            } else {
                c.write_str(" nomirror");
            }
        },
        _ => {},
    }
    match resolve(tick_options, TickOptionKind::Inward) {
        Some(TickOption::Inward(b)) => {
            if *b {
                c.write_str(" in");
            } else {
                c.write_str(" out");
            }
        },
        _ => {},
    }
}

fn write_tick_entry(c: &mut Script, tick: &Tick)
    ensures
        final(c)@ == old(c)@ + tick_entry(*tick),
{
    proof {
        lemma_grow_start(c@);
    }
    match tick {
        Tick::Major(pos, AutoOption::Fix(label)) => {
            c.write_str("\"");
            c.write_str(label.as_str());
            c.write_str("\" ");
            c.write_number(*pos);
            c.write_str(" ");
            c.write_uint(0);
        },
        Tick::Major(pos, AutoOption::Auto) => {
            c.write_number(*pos);
            c.write_str(" ");
            c.write_uint(0);
        },
        Tick::Minor(pos) => {
            c.write_number(*pos);
            c.write_str(" ");
            c.write_uint(1);
        },
    }
}

fn write_tick_entries(c: &mut Script, ticks: &[Tick])
    ensures
        final(c)@ == old(c)@ + joined(tick_entries(ticks@), text(","@)),
{
    let ghost parts = tick_entries(ticks@);
    let mut i: usize = 0;
    proof {
        lemma_grow_start(c@);
        lemma_joined_ends(parts, text(","@));
    }
    while i < ticks.len()
        invariant
            i <= ticks.len(),
            parts.len() == ticks@.len(),
            forall|k: int| 0 <= k < parts.len() ==> parts[k] == tick_entry(ticks@[k]),
            c@ == grown(old(c)@, joined_prefix(parts, text(","@), i as int)),
        decreases ticks.len() - i,
    {
        if i > 0 {
            c.write_str(",");
        }
        write_tick_entry(c, &ticks[i]);
        proof {
            lemma_joined_step(parts, text(","@), i as int);
        }
        i = i + 1;
    }
    proof {
        lemma_joined_ends(parts, text(","@));
    }
}

impl AxisData {
    /// The directive that sets or unsets the logarithmic scale.
    pub open spec fn scale_clause(&self) -> Seq<Atom> {
        match self.log_base {
            Some(base) => text("set logscale "@) + text(self.axis.axis_name()) + text(" "@)
                + number(base),
            None => text("unset logscale "@) + text(self.axis.axis_name()),
        }
    }

    /// The directive for the minor ticks: none unless their count is above
    /// zero; then the engine's default on a logarithmic axis, and else as
    /// many intervals between major ticks as there are minor ticks and one.
    pub open spec fn minor_ticks_clause(&self) -> Seq<Atom> {
        if self.mticks > 0 {
            text("set m"@) + text(self.axis.tick_name()) + text(" "@) + (if self.log_base is Some {
                text("default"@)
            } else {
                decimal(self.mticks + 1)
            }) + text("\n"@)
        } else {
            text("unset m"@) + text(self.axis.tick_name()) + text("\n"@)
        }
    }

    /// The directive that sets the range.
    pub open spec fn range_clause(&self) -> Seq<Atom> {
        text("set "@) + text(self.axis.range_name()) + text(" ["@) + bound_clause(self.min) + text(
            ":"@,
        ) + bound_clause(self.max) + text("]\n"@)
    }

    /// The directives that the axis compiles to: scale, minor ticks, range,
    /// then the tick directive as it stands.
    pub open spec fn commands(&self) -> Seq<Atom> {
        self.scale_clause() + text("\n"@) + self.minor_ticks_clause() + text("\n"@)
            + self.range_clause() + self.ticks_buf@
    }

    fn write_scale(&self, w: &mut Script) -> (log: bool)
        ensures
            final(w)@ == old(w)@ + self.scale_clause(),
            log == (self.log_base is Some),
    {
        proof {
            lemma_grow_start(w@);
        }
        match self.log_base {
            Some(base) => {
                w.write_str("set logscale ");
                w.write_str(self.axis.to_axis_str());
                w.write_str(" ");
                w.write_number(base);
                true
            },
            None => {
                w.write_str("unset logscale ");
                w.write_str(self.axis.to_axis_str());
                false
            },
        }
    }

    fn write_minor_ticks(&self, w: &mut Script, log: bool)
        requires
            log == (self.log_base is Some),
        ensures
            final(w)@ == old(w)@ + self.minor_ticks_clause(),
    {
        proof {
            lemma_grow_start(w@);
        }
        if self.mticks > 0 {
            w.write_str("set m");
            w.write_str(self.axis.to_tick_str());
            w.write_str(" ");
            if log {
                w.write_str("default");
            } else {
                w.write_int(self.mticks as i64 + 1);
            }
            w.write_str("\n");
        } else {
            w.write_str("unset m");
            w.write_str(self.axis.to_tick_str());
            w.write_str("\n");
        }
    }

    fn write_range(&self, w: &mut Script)
        ensures
            final(w)@ == old(w)@ + self.range_clause(),
    {
        proof {
            lemma_grow_start(w@);
        }
        w.write_str("set ");
        w.write_str(self.axis.to_range_str());
        w.write_str(" [");
        write_bound(w, &self.min);
        w.write_str(":");
        write_bound(w, &self.max);
        w.write_str("]\n");
    }

    /// Writes the directives of the axis.
    pub fn write_out_commands(&self, w: &mut Script)
        ensures
            final(w)@ == old(w)@ + self.commands(),
    {
        proof {
            lemma_grow_start(w@);
        }
        let log = self.write_scale(w);
        w.write_str("\n");
        self.write_minor_ticks(w, log);
        w.write_str("\n");
        self.write_range(w);
        w.write_all(&self.ticks_buf);
    }

    fn set_ticks_options(
        c: &mut Script,
        tick_options: &[TickOption],
        label_options: &[LabelOption],
    )
        ensures
            final(c)@ == old(c)@ + tick_options_clause(tick_options@, label_options@),
    {
        proof {
            lemma_grow_start(c@);
        }
        let written = write_out_label_options(LabelType::AxesTicks, label_options, c);
        assert(written is Ok);
        write_tick_placement_options(c, tick_options);
        let minor = match resolve(tick_options, TickOptionKind::MinorScale) {
            Some(TickOption::MinorScale(s)) => *s,
            _ => Scalar::half(),
        };
        let major = match resolve(tick_options, TickOptionKind::MajorScale) {
            Some(TickOption::MajorScale(s)) => *s,
            _ => Scalar::half(),
        };
        c.write_str(" scale ");
        c.write_number(minor);
        c.write_str(",");
        c.write_number(major);
    }

    /// Places the ticks by hand. The tick directive is written anew, and the
    /// engine's own minor ticks are switched off.
    pub fn set_ticks_custom(
        &mut self,
        ticks: &[Tick],
        tick_options: &[TickOption],
        label_options: &[LabelOption],
    )
        ensures
            final(self).with_ticks(
                old(self),
                custom_ticks_directive(old(self).axis, ticks@, tick_options@, label_options@),
                0,
            ),
    {
        let mut c = Script::new();
        proof {
            lemma_grow_start(c@);
        }
        c.write_str("set ");
        c.write_str(self.axis.to_tick_str());
        c.write_str(" (");
        write_tick_entries(&mut c, ticks);
        c.write_str(")");
        AxisData::set_ticks_options(&mut c, tick_options, label_options);
        c.write_str("\n");
        self.mticks = 0;
        self.ticks_buf = c;
    }

    /// Sets or hides the automatic ticks. The tick directive is written
    /// anew. A fixed increment must be greater than zero; where it is zero
    /// or less the call is turned down and the axis stays as it was.
    pub fn set_ticks(
        &mut self,
        tick_placement: Option<(AutoOption<Scalar>, u32)>,
        tick_options: &[TickOption],
        label_options: &[LabelOption],
    ) -> (result: Result<(), InvalidArgument>)
        ensures
            match result {
                Ok(()) => !rejected_placement(tick_placement) && final(self).with_ticks(
                    old(self),
                    ticks_directive(old(self).axis, tick_placement, tick_options@, label_options@),
                    placed_count(tick_placement),
                ),
                Err(e) => rejected_placement(tick_placement) && e
                    == InvalidArgument::InvalidTickIncrement && *final(self) == *old(self),
            },
    {
        if let Some((AutoOption::Fix(v), _)) = tick_placement {
            if v.check_non_positive() {
                return Err(InvalidArgument::InvalidTickIncrement);
            }
        }
        let mut c = Script::new();
        proof {
            lemma_grow_start(c@);
        }
        match tick_placement {
            Some((incr, mticks)) => {
                c.write_str("set ");
                c.write_str(self.axis.to_tick_str());
                write_increment(&mut c, incr);
                AxisData::set_ticks_options(&mut c, tick_options, label_options);
                c.write_str("\n");
                self.mticks = stored_minor_count(mticks);
            },
            None => {
                c.write_str("unset ");
                c.write_str(self.axis.to_tick_str());
                c.write_str("\n");
                self.mticks = 0;
            },
        }
        self.ticks_buf = c;
        Ok(())
    }

    /// Sets the range; each bound is a number or left to the engine.
    pub fn set_range(&mut self, min: AutoOption<Scalar>, max: AutoOption<Scalar>)
        ensures
            final(self).with_range(old(self), min, max),
    {
        self.min = min;
        self.max = max;
    }

    /// Makes the scale logarithmic with the given base, or linear with
    /// `None`.
    pub fn set_log(&mut self, base: Option<Scalar>)
        ensures
            final(self).with_log(old(self), base),
    {
        self.log_base = base;
    }
}

} // verus!
