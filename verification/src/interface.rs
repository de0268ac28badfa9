//! What a caller does with a set of axes: place it, label it, and set its
//! ticks, ranges, scales and palette.

use vstd::prelude::*;
use crate::axes::{label_directive, rejected_label, AxesCommonData};
use crate::axis::{custom_ticks_directive, placed_count, rejected_placement, ticks_directive};
use crate::error::InvalidArgument;
use crate::label::LabelType;
use crate::options::{AutoOption, Coordinate, LabelOption, PaletteType, Tick, TickOption};
use crate::palette::{
    accepted_points, custom_palette_directive, first_disorder, palette_directive, rejected_palette,
    write_custom_palette, write_palette, ControlPoint,
};
use crate::scalar::Scalar;
use crate::script::{group_grow, lemma_grow_start, number, text, Atom};

verus! {

broadcast use group_grow;

/// Whether a cell lies in a grid that has rows and columns.
pub open spec fn valid_grid(nrow: u32, ncol: u32, pos: u32) -> bool {
    0 < nrow && 0 < ncol && pos < nrow * ncol
}

/// The directive that places axes by the screen coordinates of their
/// bottom left corner.
pub open spec fn origin_directive(x: Scalar, y: Scalar) -> Seq<Atom> {
    text("set origin "@) + number(x) + text(","@) + number(y) + text("\n"@)
}

/// The directive that sets the size of axes, as fractions of the screen.
pub open spec fn size_directive(w: Scalar, h: Scalar) -> Seq<Atom> {
    text("set size "@) + number(w) + text(","@) + number(h) + text("\n"@)
}

/// The directive that fixes the aspect ratio of axes, or frees it.
pub open spec fn ratio_directive(ratio: AutoOption<Scalar>) -> Seq<Atom> {
    match ratio {
        AutoOption::Fix(r) => text("set size ratio "@) + number(r) + text("\n"@),
        AutoOption::Auto => text("set size noratio\n"@),
    }
}

/// Access to the data of a set of axes, for what is built around one.
pub trait AxesCommonPrivate: Sized {
    /// The data of the axes.
    spec fn common_data(&self) -> AxesCommonData;

    /// The data of the axes, to read.
    fn get_common_data(&self) -> (data: &AxesCommonData)
        ensures
            *data == self.common_data(),
    ;

    /// The data of the axes, to change.
    fn get_common_data_mut(&mut self) -> (data: &mut AxesCommonData)
        ensures
            *data == old(self).common_data(),
            final(self).common_data() == *final(data),
    ;
}

/// The setters of a set of axes. Each returns the axes, so that calls can
/// follow one another; a setter that turns its arguments down returns the
/// reason and leaves the data of the axes as it was.
pub trait AxesCommon: AxesCommonPrivate {
    /// Places the axes in cell `pos` of a grid of `nrow` by `ncol` cells,
    /// counted from the top left, row by row, from 0.
    fn set_pos_grid(&mut self, nrow: u32, ncol: u32, pos: u32) -> (result: Result<
        &mut Self,
        InvalidArgument,
    >)
        ensures
            match result {
                Ok(axes) => {
                    &&& valid_grid(nrow, ncol, pos)
                    &&& axes.common_data().placed_on_grid(
                        &old(self).common_data(),
                        nrow,
                        ncol,
                        pos,
                    )
                    &&& *final(self) == *final(axes)
                },
                Err(e) => {
                    &&& !valid_grid(nrow, ncol, pos)
                    &&& e == InvalidArgument::InvalidGridPosition
                    &&& final(self).common_data() == old(self).common_data()
                },
            },
    {
        assert(nrow * ncol <= 0xffff_ffff * 0xffff_ffff) by (nonlinear_arith)
            requires
                nrow <= 0xffff_ffff,
                ncol <= 0xffff_ffff,
        ;
        if !(nrow > 0 && ncol > 0 && (pos as u64) < (nrow as u64) * (ncol as u64)) {
            return Err(InvalidArgument::InvalidGridPosition);
        }
        {
            let c = self.get_common_data_mut();
            c.grid_rows = nrow;
            c.grid_cols = ncol;
            c.grid_pos = Some(pos);
        }
        Ok(self)
    }

    /// Places the bottom left corner of the axes at screen coordinates,
    /// each from 0 to 1, and takes the axes off the grid.
    fn set_pos(&mut self, x: Scalar, y: Scalar) -> (axes: &mut Self)
        ensures
            axes.common_data().placed_on_screen(&old(self).common_data(), origin_directive(x, y)),
            *final(self) == *final(axes),
    {
        {
            let c = self.get_common_data_mut();
            c.grid_pos = None;
            proof {
                lemma_grow_start(c.commands@);
            }
            c.commands.write_str("set origin ");
            c.commands.write_number(x);
            c.commands.write_str(",");
            c.commands.write_number(y);
            c.commands.write_str("\n");
        }
        self
    }

    /// Sets the size of the axes, as fractions of the screen.
    fn set_size(&mut self, w: Scalar, h: Scalar) -> (axes: &mut Self)
        ensures
            axes.common_data().commanded(&old(self).common_data(), size_directive(w, h)),
            *final(self) == *final(axes),
    {
        {
            let c = self.get_common_data_mut();
            proof {
                lemma_grow_start(c.commands@);
            }
            c.commands.write_str("set size ");
            c.commands.write_number(w);
            c.commands.write_str(",");
            c.commands.write_number(h);
            c.commands.write_str("\n");
        }
        self
    }

    /// Fixes the aspect ratio of the axes, or frees it with `Auto`.
    fn set_aspect_ratio(&mut self, ratio: AutoOption<Scalar>) -> (axes: &mut Self)
        ensures
            axes.common_data().commanded(&old(self).common_data(), ratio_directive(ratio)),
            *final(self) == *final(axes),
    {
        {
            let c = self.get_common_data_mut();
            proof {
                lemma_grow_start(c.commands@);
            }
            match ratio {
                AutoOption::Fix(r) => {
                    c.commands.write_str("set size ratio ");
                    c.commands.write_number(r);
                    c.commands.write_str("\n");
                },
                AutoOption::Auto => {
                    c.commands.write_str("set size noratio\n");
                },
            }
        }
        self
    }

    /// Sets the label of the x axis. An empty text hides the label.
    fn set_x_label(&mut self, text: &str, options: &[LabelOption]) -> (result: Result<
        &mut Self,
        InvalidArgument,
    >)
        ensures
            match result {
                Ok(axes) => {
                    &&& rejected_label(LabelType::XLabel, options@) is None
                    &&& axes.common_data().commanded(
                        &old(self).common_data(),
                        label_directive(LabelType::XLabel, text@, options@),
                    )
                    &&& *final(self) == *final(axes)
                },
                Err(e) => {
                    &&& rejected_label(LabelType::XLabel, options@) == Some(e)
                    &&& final(self).common_data() == old(self).common_data()
                },
            },
    {
        {
            let c = self.get_common_data_mut();
            match c.set_label_common(LabelType::XLabel, text, options) {
                Ok(()) => {},
                Err(e) => {
                    return Err(e);
                },
            }
        }
        Ok(self)
    }

    /// Sets the label of the y axis.
    fn set_y_label(&mut self, text: &str, options: &[LabelOption]) -> (result: Result<
        &mut Self,
        InvalidArgument,
    >)
        ensures
            match result {
                Ok(axes) => {
                    &&& rejected_label(LabelType::YLabel, options@) is None
                    &&& axes.common_data().commanded(
                        &old(self).common_data(),
                        label_directive(LabelType::YLabel, text@, options@),
                    )
                    &&& *final(self) == *final(axes)
                },
                Err(e) => {
                    &&& rejected_label(LabelType::YLabel, options@) == Some(e)
                    &&& final(self).common_data() == old(self).common_data()
                },
            },
    {
        {
            let c = self.get_common_data_mut();
            match c.set_label_common(LabelType::YLabel, text, options) {
                Ok(()) => {},
                Err(e) => {
                    return Err(e);
                },
            }
        }
        Ok(self)
    }

    /// Sets the label of the colour bar.
    fn set_cb_label(&mut self, text: &str, options: &[LabelOption]) -> (result: Result<
        &mut Self,
        InvalidArgument,
    >)
        ensures
            match result {
                Ok(axes) => {
                    &&& rejected_label(LabelType::CBLabel, options@) is None
                    &&& axes.common_data().commanded(
                        &old(self).common_data(),
                        label_directive(LabelType::CBLabel, text@, options@),
                    )
                    &&& *final(self) == *final(axes)
                },
                Err(e) => {
                    &&& rejected_label(LabelType::CBLabel, options@) == Some(e)
                    &&& final(self).common_data() == old(self).common_data()
                },
            },
    {
        {
            let c = self.get_common_data_mut();
            match c.set_label_common(LabelType::CBLabel, text, options) {
                Ok(()) => {},
                Err(e) => {
                    return Err(e);
                },
            }
        }
        Ok(self)
    }

    /// Sets the title of the axes. An empty text hides the title.
    fn set_title(&mut self, text: &str, options: &[LabelOption]) -> (result: Result<
        &mut Self,
        InvalidArgument,
    >)
        ensures
            match result {
                Ok(axes) => {
                    &&& rejected_label(LabelType::TitleLabel, options@) is None
                    &&& axes.common_data().commanded(
                        &old(self).common_data(),
                        label_directive(LabelType::TitleLabel, text@, options@),
                    )
                    &&& *final(self) == *final(axes)
                },
                Err(e) => {
                    &&& rejected_label(LabelType::TitleLabel, options@) == Some(e)
                    &&& final(self).common_data() == old(self).common_data()
                },
            },
    {
        {
            let c = self.get_common_data_mut();
            match c.set_label_common(LabelType::TitleLabel, text, options) {
                Ok(()) => {},
                Err(e) => {
                    return Err(e);
                },
            }
        }
        Ok(self)
    }

    /// Adds a label at a position, with a marker if the options ask for
    /// one.
    fn label(
        &mut self,
        text: &str,
        x: Coordinate,
        y: Coordinate,
        options: &[LabelOption],
    ) -> (result: Result<&mut Self, InvalidArgument>)
        ensures
            match result {
                Ok(axes) => {
                    &&& rejected_label(LabelType::Label(x, y), options@) is None
                    &&& axes.common_data().commanded(
                        &old(self).common_data(),
                        label_directive(LabelType::Label(x, y), text@, options@),
                    )
                    &&& *final(self) == *final(axes)
                },
                Err(e) => {
                    &&& rejected_label(LabelType::Label(x, y), options@) == Some(e)
                    &&& final(self).common_data() == old(self).common_data()
                },
            },
    {
        {
            let c = self.get_common_data_mut();
            match c.set_label_common(LabelType::Label(x, y), text, options) {
                Ok(()) => {},
                Err(e) => {
                    return Err(e);
                },
            }
        }
        Ok(self)
    }

    /// Sets the ticks of the x axis: `None` hides them; otherwise the first
    /// value is the distance between major ticks, or `Auto`, and the second
    /// the number of minor ticks between two major ones.
    fn set_x_ticks(
        &mut self,
        tick_placement: Option<(AutoOption<Scalar>, u32)>,
        tick_options: &[TickOption],
        label_options: &[LabelOption],
    ) -> (result: Result<&mut Self, InvalidArgument>)
        ensures
            match result {
                Ok(axes) => {
                    &&& !rejected_placement(tick_placement)
                    &&& axes.common_data().same_but_x_axis(&old(self).common_data())
                    &&& axes.common_data().x_axis.with_ticks(
                        &old(self).common_data().x_axis,
                        ticks_directive(
                            old(self).common_data().x_axis.axis,
                            tick_placement,
                            tick_options@,
                            label_options@,
                        ),
                        placed_count(tick_placement),
                    )
                    &&& *final(self) == *final(axes)
                },
                Err(e) => {
                    &&& rejected_placement(tick_placement)
                    &&& e == InvalidArgument::InvalidTickIncrement
                    &&& final(self).common_data() == old(self).common_data()
                },
            },
    {
        {
            let c = self.get_common_data_mut();
            match c.x_axis.set_ticks(tick_placement, tick_options, label_options) {
                Ok(()) => {},
                Err(e) => {
                    return Err(e);
                },
            }
        }
        Ok(self)
    }

    /// Like `set_x_ticks`, for the y axis.
    fn set_y_ticks(
        &mut self,
        tick_placement: Option<(AutoOption<Scalar>, u32)>,
        tick_options: &[TickOption],
        label_options: &[LabelOption],
    ) -> (result: Result<&mut Self, InvalidArgument>)
        ensures
            match result {
                Ok(axes) => {
                    &&& !rejected_placement(tick_placement)
                    &&& axes.common_data().same_but_y_axis(&old(self).common_data())
                    &&& axes.common_data().y_axis.with_ticks(
                        &old(self).common_data().y_axis,
                        ticks_directive(
                            old(self).common_data().y_axis.axis,
                            tick_placement,
                            tick_options@,
                            label_options@,
                        ),
                        placed_count(tick_placement),
                    )
                    &&& *final(self) == *final(axes)
                },
                Err(e) => {
                    &&& rejected_placement(tick_placement)
                    &&& e == InvalidArgument::InvalidTickIncrement
                    &&& final(self).common_data() == old(self).common_data()
                },
            },
    {
        {
            let c = self.get_common_data_mut();
            match c.y_axis.set_ticks(tick_placement, tick_options, label_options) {
                Ok(()) => {},
                Err(e) => {
                    return Err(e);
                },
            }
        }
        Ok(self)
    }

    /// Like `set_x_ticks`, for the colour bar.
    fn set_cb_ticks(
        &mut self,
        tick_placement: Option<(AutoOption<Scalar>, u32)>,
        tick_options: &[TickOption],
        label_options: &[LabelOption],
    ) -> (result: Result<&mut Self, InvalidArgument>)
        ensures
            match result {
                Ok(axes) => {
                    &&& !rejected_placement(tick_placement)
                    &&& axes.common_data().same_but_cb_axis(&old(self).common_data())
                    &&& axes.common_data().cb_axis.with_ticks(
                        &old(self).common_data().cb_axis,
                        ticks_directive(
                            old(self).common_data().cb_axis.axis,
                            tick_placement,
                            tick_options@,
                            label_options@,
                        ),
                        placed_count(tick_placement),
                    )
                    &&& *final(self) == *final(axes)
                },
                Err(e) => {
                    &&& rejected_placement(tick_placement)
                    &&& e == InvalidArgument::InvalidTickIncrement
                    &&& final(self).common_data() == old(self).common_data()
                },
            },
    {
        {
            let c = self.get_common_data_mut();
            match c.cb_axis.set_ticks(tick_placement, tick_options, label_options) {
                Ok(()) => {},
                Err(e) => {
                    return Err(e);
                },
            }
        }
        Ok(self)
    }

    /// Places the ticks of the x axis by hand, each with its position and,
    /// for a major tick, its label.
    fn set_x_ticks_custom(
        &mut self,
        ticks: &[Tick],
        tick_options: &[TickOption],
        label_options: &[LabelOption],
    ) -> (axes: &mut Self)
        ensures
            axes.common_data().same_but_x_axis(&old(self).common_data()),
            axes.common_data().x_axis.with_ticks(
                &old(self).common_data().x_axis,
                custom_ticks_directive(
                    old(self).common_data().x_axis.axis,
                    ticks@,
                    tick_options@,
                    label_options@,
                ),
                0,
            ),
            *final(self) == *final(axes),
    {
        {
            let c = self.get_common_data_mut();
            c.x_axis.set_ticks_custom(ticks, tick_options, label_options);
        }
        self
    }

    /// Like `set_x_ticks_custom`, for the y axis.
    fn set_y_ticks_custom(
        &mut self,
        ticks: &[Tick],
        tick_options: &[TickOption],
        label_options: &[LabelOption],
    ) -> (axes: &mut Self)
        ensures
            axes.common_data().same_but_y_axis(&old(self).common_data()),
            axes.common_data().y_axis.with_ticks(
                &old(self).common_data().y_axis,
                custom_ticks_directive(
                    old(self).common_data().y_axis.axis,
                    ticks@,
                    tick_options@,
                    label_options@,
                ),
                0,
            ),
            *final(self) == *final(axes),
    {
        {
            let c = self.get_common_data_mut();
            c.y_axis.set_ticks_custom(ticks, tick_options, label_options);
        }
        self
    }

    /// Like `set_x_ticks_custom`, for the colour bar.
    fn set_cb_ticks_custom(
        &mut self,
        ticks: &[Tick],
        tick_options: &[TickOption],
        label_options: &[LabelOption],
    ) -> (axes: &mut Self)
        ensures
            axes.common_data().same_but_cb_axis(&old(self).common_data()),
            axes.common_data().cb_axis.with_ticks(
                &old(self).common_data().cb_axis,
                custom_ticks_directive(
                    old(self).common_data().cb_axis.axis,
                    ticks@,
                    tick_options@,
                    label_options@,
                ),
                0,
            ),
            *final(self) == *final(axes),
    {
        {
            let c = self.get_common_data_mut();
            c.cb_axis.set_ticks_custom(ticks, tick_options, label_options);
        }
        self
    }

    /// Sets the range of the x axis.
    fn set_x_range(&mut self, min: AutoOption<Scalar>, max: AutoOption<Scalar>) -> (axes:
        &mut Self)
        ensures
            axes.common_data().same_but_x_axis(&old(self).common_data()),
            axes.common_data().x_axis.with_range(&old(self).common_data().x_axis, min, max),
            *final(self) == *final(axes),
    {
        {
            let c = self.get_common_data_mut();
            c.x_axis.set_range(min, max);
        }
        self
    }

    /// Sets the range of the y axis.
    fn set_y_range(&mut self, min: AutoOption<Scalar>, max: AutoOption<Scalar>) -> (axes:
        &mut Self)
        ensures
            axes.common_data().same_but_y_axis(&old(self).common_data()),
            axes.common_data().y_axis.with_range(&old(self).common_data().y_axis, min, max),
            *final(self) == *final(axes),
    {
        {
            let c = self.get_common_data_mut();
            c.y_axis.set_range(min, max);
        }
        self
    }

    /// Sets the range of the colour bar.
    fn set_cb_range(&mut self, min: AutoOption<Scalar>, max: AutoOption<Scalar>) -> (axes:
        &mut Self)
        ensures
            axes.common_data().same_but_cb_axis(&old(self).common_data()),
            axes.common_data().cb_axis.with_range(&old(self).common_data().cb_axis, min, max),
            *final(self) == *final(axes),
    {
        {
            let c = self.get_common_data_mut();
            c.cb_axis.set_range(min, max);
        }
        self
    }

    /// Makes the x axis logarithmic with the given base, or linear with
    /// `None`.
    fn set_x_log(&mut self, base: Option<Scalar>) -> (axes: &mut Self)
        ensures
            axes.common_data().same_but_x_axis(&old(self).common_data()),
            axes.common_data().x_axis.with_log(&old(self).common_data().x_axis, base),
            *final(self) == *final(axes),
    {
        {
            let c = self.get_common_data_mut();
            c.x_axis.set_log(base);
        }
        self
    }

    /// Like `set_x_log`, for the y axis.
    fn set_y_log(&mut self, base: Option<Scalar>) -> (axes: &mut Self)
        ensures
            axes.common_data().same_but_y_axis(&old(self).common_data()),
            axes.common_data().y_axis.with_log(&old(self).common_data().y_axis, base),
            *final(self) == *final(axes),
    {
        {
            let c = self.get_common_data_mut();
            c.y_axis.set_log(base);
        }
        self
    }

    /// Like `set_x_log`, for the colour bar.
    fn set_cb_log(&mut self, base: Option<Scalar>) -> (axes: &mut Self)
        ensures
            axes.common_data().same_but_cb_axis(&old(self).common_data()),
            axes.common_data().cb_axis.with_log(&old(self).common_data().cb_axis, base),
            *final(self) == *final(axes),
    {
        {
            let c = self.get_common_data_mut();
            c.cb_axis.set_log(base);
        }
        self
    }

    /// Sets the palette of surfaces and images.
    fn set_palette(&mut self, palette: PaletteType) -> (result: Result<&mut Self, InvalidArgument>)
        ensures
            match result {
                Ok(axes) => {
                    &&& !rejected_palette(palette)
                    &&& axes.common_data().commanded(
                        &old(self).common_data(),
                        palette_directive(palette),
                    )
                    &&& *final(self) == *final(axes)
                },
                Err(e) => {
                    &&& rejected_palette(palette)
                    &&& e == InvalidArgument::InvalidPaletteParameter
                    &&& final(self).common_data() == old(self).common_data()
                },
            },
    {
        {
            let c = self.get_common_data_mut();
            match write_palette(&mut c.commands, palette) {
                Ok(()) => {},
                Err(e) => {
                    return Err(e);
                },
            }
        }
        Ok(self)
    }

    /// Sets a palette of the caller's own, given by control points: a gray
    /// level each, with the red, green and blue that it maps to. There must
    /// be at least one, and the gray levels must not decrease.
    fn set_custom_palette(&mut self, points: &[ControlPoint]) -> (result: Result<
        &mut Self,
        InvalidArgument,
    >)
        ensures
            match result {
                Ok(axes) => {
                    &&& accepted_points(points@)
                    &&& axes.common_data().commanded(
                        &old(self).common_data(),
                        custom_palette_directive(points@),
                    )
                    &&& *final(self) == *final(axes)
                },
                Err(InvalidArgument::EmptyGenerator) => {
                    &&& points@.len() == 0
                    &&& final(self).common_data() == old(self).common_data()
                },
                Err(InvalidArgument::NonMonotonicSequence(i)) => {
                    &&& first_disorder(points@, i as int)
                    &&& final(self).common_data() == old(self).common_data()
                },
                Err(_) => false,
            },
    {
        {
            let c = self.get_common_data_mut();
            match write_custom_palette(&mut c.commands, points) {
                Ok(()) => {},
                Err(e) => {
                    return Err(e);
                },
            }
        }
        Ok(self)
    }
}

impl AxesCommonPrivate for AxesCommonData {
    open spec fn common_data(&self) -> AxesCommonData {
        *self
    }

    fn get_common_data(&self) -> (data: &AxesCommonData) {
        self
    }

    fn get_common_data_mut(&mut self) -> (data: &mut AxesCommonData) {
        self
    }
}

impl AxesCommon for AxesCommonData {

}

} // verus!
