//! A set of axes: what has been plotted on it, the state of its three axes
//! and the directives collected for it.

use vstd::prelude::*;
use crate::axis::{AxisData, TickAxis};
use crate::element::{element_directive, rejected_symbol, DataSourceType, PlotElement, PlotType};
use crate::error::InvalidArgument;
use crate::label::{label_options_clause, rejected_marker, write_out_label_options, LabelType};
use crate::options::{LabelOption, PlotOption};
use crate::payload::{
    cells, encode_cells, encode_rows2, encode_rows3, row_count2, row_count3, rows2, rows3, shortest,
};
use crate::scalar::{encode, Scalar};
use crate::script::{
    assembled, group_grow, grown, joined, joined_prefix, lemma_bytes_pass_through,
    lemma_grow_start, lemma_joined_ends, lemma_joined_step, lemma_raw_concat, raw, text, Atom,
    Script,
};

verus! {

broadcast use group_grow;

/// Everything that one set of axes holds.
#[derive(Debug)]
pub struct AxesCommonData {
    /// Directives in the order in which they were asked for.
    pub commands: Script,
    /// The plotted series, in drawing order.
    pub elems: Vec<PlotElement>,
    pub grid_rows: u32,
    pub grid_cols: u32,
    /// The cell of the grid that the axes fill; `None` after the axes were
    /// placed by screen coordinates, and before they were placed at all.
    pub grid_pos: Option<u32>,
    pub x_axis: AxisData,
    pub y_axis: AxisData,
    pub cb_axis: AxisData,
}

impl AxesCommonData {
    /// Axes with nothing plotted and nothing set.
    pub fn new() -> (axes: AxesCommonData)
        ensures
            axes.commands@ == Seq::<Atom>::empty(),
            axes.elems@.len() == 0,
            axes.grid_rows == 0,
            axes.grid_cols == 0,
            axes.grid_pos is None,
            axes.x_axis.is_fresh(TickAxis::XTickAxis),
            axes.y_axis.is_fresh(TickAxis::YTickAxis),
            axes.cb_axis.is_fresh(TickAxis::CBTickAxis),
    {
        AxesCommonData {
            commands: Script::new(),
            elems: Vec::new(),
            grid_rows: 0,
            grid_cols: 0,
            grid_pos: None,
            x_axis: AxisData::new(TickAxis::XTickAxis),
            y_axis: AxisData::new(TickAxis::YTickAxis),
            cb_axis: AxisData::new(TickAxis::CBTickAxis),
        }
    }
}

/// How a matrix is laid out: in a box where dimensions are given, else with
/// unit spacing.
pub open spec fn matrix_source(
    dimensions: Option<(Scalar, Scalar, Scalar, Scalar)>,
) -> DataSourceType {
    match dimensions {
        Some((x1, y1, x2, y2)) => DataSourceType::SizedArray(x1, y1, x2, y2),
        None => DataSourceType::Array,
    }
}

/// The directives of the plotted series, one for each, in drawing order.
pub open spec fn fragments(elems: Seq<PlotElement>) -> Seq<Seq<Atom>> {
    Seq::new(elems.len(), |i: int| elems[i].args@)
}

/// The payloads of the plotted series, one for each, in drawing order.
pub open spec fn blocks(elems: Seq<PlotElement>) -> Seq<Seq<u8>> {
    Seq::new(elems.len(), |i: int| elems[i].data@)
}

/// The blocks of a list, one after the other.
pub open spec fn chained(blocks: Seq<Seq<u8>>) -> Seq<u8>
    decreases blocks.len(),
{
    if blocks.len() == 0 {
        Seq::empty()
    } else {
        chained(blocks.drop_last()) + blocks.last()
    }
}

/// The payloads of the plotted series, one after the other in drawing
/// order.
pub open spec fn payload(elems: Seq<PlotElement>) -> Seq<u8> {
    chained(blocks(elems))
}

/// What plotting writes: the command, the directives joined by commas, a
/// line end, then the payloads, in the order of the directives.
pub open spec fn elements_script(cmd: Seq<char>, elems: Seq<PlotElement>) -> Seq<Atom> {
    text(cmd) + joined(fragments(elems), text(","@)) + text("\n"@) + raw(payload(elems))
}

/// There is one directive and one payload for every plotted series, series
/// `i` has the `i`-th of each, and plotting one more series adds its
/// directive after the directives and its payload after the payloads.
pub proof fn lemma_elements_pair_up(elems: Seq<PlotElement>, next: PlotElement)
    ensures
        fragments(elems).len() == elems.len(),
        blocks(elems).len() == elems.len(),
        forall|i: int|
            0 <= i < elems.len() ==> fragments(elems)[i] == elems[i].args@ && blocks(elems)[i]
                == elems[i].data@,
        fragments(elems.push(next)) == fragments(elems).push(next.args@),
        blocks(elems.push(next)) == blocks(elems).push(next.data@),
        payload(elems.push(next)) == payload(elems) + next.data@,
{
    assert(fragments(elems.push(next)) =~= fragments(elems).push(next.args@));
    assert(blocks(elems.push(next)) =~= blocks(elems).push(next.data@));
    assert(blocks(elems).push(next.data@).drop_last() =~= blocks(elems));
}

/// When a script is sent, the payloads go out last, byte for byte and with
/// nothing between them, whatever the texts of the numbers are.
pub proof fn lemma_payloads_go_out_last(
    cmd: Seq<char>,
    elems: Seq<PlotElement>,
    texts: Seq<Seq<u8>>,
)
    ensures
        assembled(elements_script(cmd, elems), texts) == assembled(
            text(cmd) + joined(fragments(elems), text(","@)) + text("\n"@),
            texts,
        ) + payload(elems),
{
    lemma_bytes_pass_through(
        text(cmd) + joined(fragments(elems), text(","@)) + text("\n"@),
        payload(elems),
        texts,
    );
}

/// With nothing plotted, what plotting writes is the command and a line
/// end.
pub proof fn lemma_no_elements(cmd: Seq<char>)
    ensures
        elements_script(cmd, Seq::<PlotElement>::empty()) == text(cmd) + text("\n"@),
{
    let none = Seq::<PlotElement>::empty();
    assert(fragments(none).len() == 0);
    assert(blocks(none).len() == 0);
    assert(raw(Seq::<u8>::empty()) =~= Seq::<Atom>::empty());
}

/// The engine's name of what a label labels; tick labels have none of
/// their own.
pub open spec fn label_name(label_type: LabelType) -> Seq<char> {
    match label_type {
        LabelType::XLabel => "xlabel"@,
        LabelType::YLabel => "ylabel"@,
        LabelType::ZLabel => "zlabel"@,
        LabelType::CBLabel => "cblabe"@,
        LabelType::TitleLabel => "title"@,
        LabelType::Label(_, _) => "label"@,
        LabelType::AxesTicks => ""@,
    }
}

/// The directive that sets a label.
pub open spec fn label_directive(
    label_type: LabelType,
    label: Seq<char>,
    options: Seq<LabelOption>,
) -> Seq<Atom> {
    text("set "@) + text(label_name(label_type)) + text(" \""@) + text(label) + text("\""@)
        + label_options_clause(label_type, options) + text("\n"@)
}

/// Why a label is turned down, if it is: tick labels are no label kind of
/// their own, and a free-standing label may ask for a marker symbol that
/// does not exist.
pub open spec fn rejected_label(label_type: LabelType, options: Seq<LabelOption>) -> Option<
    InvalidArgument,
> {
    if label_type is AxesTicks {
        Some(InvalidArgument::InvalidLabelKind)
    } else {
        match rejected_marker(label_type, options) {
            Some(c) => Some(InvalidArgument::InvalidSymbol(c)),
            None => None,
        }
    }
}

impl AxesCommonData {
    /// Whether `self` is `before` in everything but the plotted series.
    pub open spec fn same_but_elems(&self, before: &AxesCommonData) -> bool {
        &&& self.commands == before.commands
        &&& self.grid_rows == before.grid_rows
        &&& self.grid_cols == before.grid_cols
        &&& self.grid_pos == before.grid_pos
        &&& self.x_axis == before.x_axis
        &&& self.y_axis == before.y_axis
        &&& self.cb_axis == before.cb_axis
    }

    /// Whether `self` is `before` with one more series, drawn last, that has
    /// the given directive and payload.
    pub open spec fn plotted(
        &self,
        before: &AxesCommonData,
        args: Seq<Atom>,
        data: Seq<u8>,
    ) -> bool {
        &&& self.same_but_elems(before)
        &&& self.elems@.len() == before.elems@.len() + 1
        &&& self.elems@.drop_last() == before.elems@
        &&& self.elems@.last().args@ == args
        &&& self.elems@.last().data@ == data
    }

    /// Whether `self` is `before` in everything but the x axis.
    pub open spec fn same_but_x_axis(&self, before: &AxesCommonData) -> bool {
        &&& self.commands == before.commands
        &&& self.elems == before.elems
        &&& self.grid_rows == before.grid_rows
        &&& self.grid_cols == before.grid_cols
        &&& self.grid_pos == before.grid_pos
        &&& self.y_axis == before.y_axis
        &&& self.cb_axis == before.cb_axis
    }

    /// Whether `self` is `before` in everything but the y axis.
    pub open spec fn same_but_y_axis(&self, before: &AxesCommonData) -> bool {
        &&& self.commands == before.commands
        &&& self.elems == before.elems
        &&& self.grid_rows == before.grid_rows
        &&& self.grid_cols == before.grid_cols
        &&& self.grid_pos == before.grid_pos
        &&& self.x_axis == before.x_axis
        &&& self.cb_axis == before.cb_axis
    }

    /// Whether `self` is `before` in everything but the colour-bar axis.
    pub open spec fn same_but_cb_axis(&self, before: &AxesCommonData) -> bool {
        &&& self.commands == before.commands
        &&& self.elems == before.elems
        &&& self.grid_rows == before.grid_rows
        &&& self.grid_cols == before.grid_cols
        &&& self.grid_pos == before.grid_pos
        &&& self.x_axis == before.x_axis
        &&& self.y_axis == before.y_axis
    }

    /// Whether `self` is `before` moved to a cell of a grid, and nothing
    /// else changed.
    pub open spec fn placed_on_grid(
        &self,
        before: &AxesCommonData,
        nrow: u32,
        ncol: u32,
        pos: u32,
    ) -> bool {
        &&& self.grid_rows == nrow
        &&& self.grid_cols == ncol
        &&& self.grid_pos == Some(pos)
        &&& self.commands == before.commands
        &&& self.elems == before.elems
        &&& self.x_axis == before.x_axis
        &&& self.y_axis == before.y_axis
        &&& self.cb_axis == before.cb_axis
    }

    /// Whether `self` is `before` taken off the grid, with `added` after
    /// the directives collected so far, and nothing else changed.
    pub open spec fn placed_on_screen(&self, before: &AxesCommonData, added: Seq<Atom>) -> bool {
        &&& self.grid_pos is None
        &&& self.commands@ == before.commands@ + added
        &&& self.grid_rows == before.grid_rows
        &&& self.grid_cols == before.grid_cols
        &&& self.elems == before.elems
        &&& self.x_axis == before.x_axis
        &&& self.y_axis == before.y_axis
        &&& self.cb_axis == before.cb_axis
    }

    /// Whether `self` is `before` in everything but the collected
    /// directives, which are those of `before` followed by `added`.
    pub open spec fn commanded(&self, before: &AxesCommonData, added: Seq<Atom>) -> bool {
        &&& self.commands@ == before.commands@ + added
        &&& self.elems == before.elems
        &&& self.grid_rows == before.grid_rows
        &&& self.grid_cols == before.grid_cols
        &&& self.grid_pos == before.grid_pos
        &&& self.x_axis == before.x_axis
        &&& self.y_axis == before.y_axis
        &&& self.cb_axis == before.cb_axis
    }

    /// Plots a series of two columns. Where `x1` and `x2` differ in length,
    /// the longer one is cut to the shorter.
    pub fn plot2(
        &mut self,
        plot_type: PlotType,
        x1: &[Scalar],
        x2: &[Scalar],
        options: &[PlotOption],
    ) -> (result: Result<(), InvalidArgument>)
        ensures
            match result {
                Ok(()) => rejected_symbol(plot_type, options@) is None && final(self).plotted(
                    old(self),
                    element_directive(
                        shortest(x1@.len(), x2@.len()) as usize,
                        2,
                        plot_type,
                        DataSourceType::Record,
                        false,
                        options@,
                    ),
                    encode(rows2(x1@, x2@)),
                ),
                Err(e) => rejected_symbol(plot_type, options@) matches Some(c) && e
                    == InvalidArgument::InvalidSymbol(c) && *final(self) == *old(self),
            },
    {
        let num_rows = row_count2(x1, x2);
        let mut args = Script::new();
        match AxesCommonData::write_common_commands(
            &mut args,
            num_rows,
            2,
            plot_type,
            DataSourceType::Record,
            false,
            options,
        ) {
            Ok(()) => {},
            Err(e) => {
                return Err(e);
            },
        }
        let data = encode_rows2(x1, x2);
        self.elems.push(PlotElement { args, data });
        assert(self.elems@.drop_last() =~= old(self).elems@);
        Ok(())
    }

    /// Plots a series of three columns, cut to the shortest of them.
    pub fn plot3(
        &mut self,
        plot_type: PlotType,
        x1: &[Scalar],
        x2: &[Scalar],
        x3: &[Scalar],
        options: &[PlotOption],
    ) -> (result: Result<(), InvalidArgument>)
        ensures
            match result {
                Ok(()) => rejected_symbol(plot_type, options@) is None && final(self).plotted(
                    old(self),
                    element_directive(
                        shortest(shortest(x1@.len(), x2@.len()), x3@.len()) as usize,
                        3,
                        plot_type,
                        DataSourceType::Record,
                        false,
                        options@,
                    ),
                    encode(rows3(x1@, x2@, x3@)),
                ),
                Err(e) => rejected_symbol(plot_type, options@) matches Some(c) && e
                    == InvalidArgument::InvalidSymbol(c) && *final(self) == *old(self),
            },
    {
        let num_rows = row_count3(x1, x2, x3);
        let mut args = Script::new();
        match AxesCommonData::write_common_commands(
            &mut args,
            num_rows,
            3,
            plot_type,
            DataSourceType::Record,
            false,
            options,
        ) {
            Ok(()) => {},
            Err(e) => {
                return Err(e);
            },
        }
        let data = encode_rows3(x1, x2, x3);
        self.elems.push(PlotElement { args, data });
        assert(self.elems@.drop_last() =~= old(self).elems@);
        Ok(())
    }

    /// Plots a matrix of `num_rows` by `num_cols` cells, given row by row.
    /// Cells that `mat` does not reach are NaN, and samples beyond the last
    /// cell are not read, so that the payload holds exactly the cells that
    /// the directive announces. With `dimensions`, the matrix fills the box
    /// from `(x1, y1)` to `(x2, y2)`; without, its cells are one unit apart.
    pub fn plot_matrix(
        &mut self,
        plot_type: PlotType,
        is_3d: bool,
        mat: &[Scalar],
        num_rows: usize,
        num_cols: usize,
        dimensions: Option<(Scalar, Scalar, Scalar, Scalar)>,
        options: &[PlotOption],
    ) -> (result: Result<(), InvalidArgument>)
        ensures
            match result {
                Ok(()) => rejected_symbol(plot_type, options@) is None && final(self).plotted(
                    old(self),
                    element_directive(
                        num_rows,
                        num_cols,
                        plot_type,
                        matrix_source(dimensions),
                        is_3d,
                        options@,
                    ),
                    encode(cells(mat@, num_rows, num_cols)),
                ),
                Err(e) => rejected_symbol(plot_type, options@) matches Some(c) && e
                    == InvalidArgument::InvalidSymbol(c) && *final(self) == *old(self),
            },
    {
        let source_type = match dimensions {
            Some((x1, y1, x2, y2)) => DataSourceType::SizedArray(x1, y1, x2, y2),
            None => DataSourceType::Array,
        };
        let mut args = Script::new();
        match AxesCommonData::write_common_commands(
            &mut args,
            num_rows,
            num_cols,
            plot_type,
            source_type,
            is_3d,
            options,
        ) {
            Ok(()) => {},
            Err(e) => {
                return Err(e);
            },
        }
        let data = encode_cells(mat, num_rows, num_cols);
        self.elems.push(PlotElement { args, data });
        assert(self.elems@.drop_last() =~= old(self).elems@);
        Ok(())
    }

    /// The directives of the axes: those collected, then those of the x, y
    /// and colour-bar axes.
    pub open spec fn commands_script(&self) -> Seq<Atom> {
        self.commands@ + self.x_axis.commands() + self.y_axis.commands() + self.cb_axis.commands()
    }

    /// Writes the directives of the axes.
    pub fn write_out_commands(&self, writer: &mut Script)
        ensures
            final(writer)@ == old(writer)@ + self.commands_script(),
    {
        proof {
            lemma_grow_start(writer@);
        }
        writer.write_all(&self.commands);
        self.x_axis.write_out_commands(writer);
        self.y_axis.write_out_commands(writer);
        self.cb_axis.write_out_commands(writer);
    }

    /// Writes the plot command with the directives of all series, then
    /// their payloads in the same order.
    pub fn write_out_elements(&self, cmd: &str, writer: &mut Script)
        ensures
            final(writer)@ == old(writer)@ + elements_script(cmd@, self.elems@),
    {
        proof {
            lemma_grow_start(writer@);
        }
        writer.write_str(cmd);
        write_fragments(writer, &self.elems);
        writer.write_str("\n");
        write_payloads(writer, &self.elems);
    }

    /// Sets a label: the title, the label of an axis, or a free-standing
    /// one.
    pub fn set_label_common(
        &mut self,
        label_type: LabelType,
        label: &str,
        options: &[LabelOption],
    ) -> (result: Result<(), InvalidArgument>)
        ensures
            match result {
                Ok(()) => rejected_label(label_type, options@) is None && final(self).commanded(
                    old(self),
                    label_directive(label_type, label@, options@),
                ),
                Err(e) => rejected_label(label_type, options@) == Some(e) && *final(self) == *old(
                    self,
                ),
            },
    {
        let label_str = match label_keyword(label_type) {
            Some(s) => s,
            None => {
                return Err(InvalidArgument::InvalidLabelKind);
            },
        };
        let mut c = Script::new();
        proof {
            lemma_grow_start(c@);
        }
        c.write_str("set ");
        c.write_str(label_str);
        c.write_str(" \"");
        c.write_str(label);
        c.write_str("\"");
        match write_out_label_options(label_type, options, &mut c) {
            Ok(()) => {},
            Err(e) => {
                return Err(e);
            },
        }
        c.write_str("\n");
        assert(c@ == label_directive(label_type, label@, options@));
        self.commands.write_all(&c);
        Ok(())
    }
}

fn write_fragments(writer: &mut Script, elems: &Vec<PlotElement>)
    ensures
        final(writer)@ == old(writer)@ + joined(fragments(elems@), text(","@)),
{
    let ghost parts = fragments(elems@);
    let mut i: usize = 0;
    proof {
        lemma_grow_start(writer@);
        lemma_joined_ends(parts, text(","@));
    }
    while i < elems.len()
        invariant
            i <= elems.len(),
            parts.len() == elems@.len(),
            forall|k: int| 0 <= k < parts.len() ==> parts[k] == elems@[k].args@,
            writer@ == grown(old(writer)@, joined_prefix(parts, text(","@), i as int)),
        decreases elems.len() - i,
    {
        if i > 0 {
            writer.write_str(",");
        }
        writer.write_all(&elems[i].args);
        proof {
            lemma_joined_step(parts, text(","@), i as int);
        }
        i = i + 1;
    }
    proof {
        lemma_joined_ends(parts, text(","@));
    }
}

fn write_payloads(writer: &mut Script, elems: &Vec<PlotElement>)
    ensures
        final(writer)@ == old(writer)@ + raw(payload(elems@)),
{
    let ghost all = blocks(elems@);
    let mut j: usize = 0;
    proof {
        lemma_grow_start(writer@);
        assert(all.subrange(0, 0).len() == 0);
        assert(raw(Seq::<u8>::empty()) =~= Seq::<Atom>::empty());
    }
    while j < elems.len()
        invariant
            j <= elems.len(),
            all == blocks(elems@),
            writer@ == grown(old(writer)@, raw(chained(all.subrange(0, j as int)))),
        decreases elems.len() - j,
    {
        writer.write_bytes(elems[j].data.as_slice());
        proof {
            let done = all.subrange(0, j as int);
            let next = all.subrange(0, j + 1);
            assert(next.drop_last() =~= done);
            assert(next.last() == elems@[j as int].data@);
            lemma_raw_concat(chained(done), elems@[j as int].data@);
        }
        j = j + 1;
    }
    assert(all.subrange(0, j as int) =~= all);
}

/// The engine's name of what a label labels; tick labels have none.
fn label_keyword(label_type: LabelType) -> (name: Option<&'static str>)
    ensures
        match name {
            Some(s) => !(label_type is AxesTicks) && s@ == label_name(label_type),
            None => label_type is AxesTicks,
        },
{
    match label_type {
        LabelType::XLabel => Some("xlabel"),
        LabelType::YLabel => Some("ylabel"),
        LabelType::ZLabel => Some("zlabel"),
        LabelType::CBLabel => Some("cblabe"),
        LabelType::TitleLabel => Some("title"),
        LabelType::Label(_, _) => Some("label"),
        LabelType::AxesTicks => None,
    }
}

} // verus!
