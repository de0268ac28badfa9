use plotscript::{
    resolve, AutoOption, AxisData, InvalidArgument, LabelOption, Quantity, Scalar, Script, Tick,
    TickAxis, TickOption, TickOptionKind,
};

fn num(x: f64) -> Scalar {
    Scalar::from_bits(x.to_bits())
}

fn decimal_text(quantity: &Quantity) -> Vec<u8> {
    let value = match quantity {
        Quantity::Value(value) => f64::from_bits(value.bits),
        Quantity::Spacing(lo, hi, cells) => {
            (f64::from_bits(hi.bits) - f64::from_bits(lo.bits)) / (*cells as f64 - 1.0)
        }
    };
    format!("{:.12e}", value).into_bytes()
}

fn render(script: &Script) -> Vec<u8> {
    let texts: Vec<Vec<u8>> = script.numbers().iter().map(decimal_text).collect();
    script.assemble(&texts).unwrap()
}

fn shown(script: &Script) -> String {
    String::from_utf8(render(script)).unwrap()
}

fn commands(axis: &AxisData) -> String {
    let mut w = Script::new();
    axis.write_out_commands(&mut w);
    shown(&w)
}

fn fixed(x: f64) -> AutoOption<Scalar> {
    AutoOption::Fix(num(x))
}

#[test]
fn axes_have_their_names() {
    let table = [
        (TickAxis::XTickAxis, "x", "xtics", "xrange"),
        (TickAxis::YTickAxis, "y", "ytics", "yrange"),
        (TickAxis::ZTickAxis, "z", "ztics", "zrange"),
        (TickAxis::CBTickAxis, "cb", "cbtics", "cbrange"),
    ];
    for (axis, name, ticks, range) in table.iter() {
        assert_eq!(axis.to_axis_str(), *name);
        assert_eq!(axis.to_tick_str(), *ticks);
        assert_eq!(axis.to_range_str(), *range);
    }
}

#[test]
fn new_axis_has_nothing_set() {
    let axis = AxisData::new(TickAxis::YTickAxis);
    assert!(axis.ticks_buf.pieces.is_empty());
    assert!(axis.log_base.is_none());
    assert_eq!(axis.mticks, 0);
    assert_eq!(axis.axis, TickAxis::YTickAxis);
    assert!(matches!(axis.min, AutoOption::Auto));
    assert!(matches!(axis.max, AutoOption::Auto));
}

#[test]
fn new_axis_compiles_to_defaults() {
    assert_eq!(
        commands(&AxisData::new(TickAxis::XTickAxis)),
        "unset logscale x\nunset mxtics\n\nset xrange [*:*]\n"
    );
    assert_eq!(
        commands(&AxisData::new(TickAxis::CBTickAxis)),
        "unset logscale cb\nunset mcbtics\n\nset cbrange [*:*]\n"
    );
    assert_eq!(
        commands(&AxisData::new(TickAxis::ZTickAxis)),
        "unset logscale z\nunset mztics\n\nset zrange [*:*]\n"
    );
}

#[test]
fn range_bounds_are_fixed_or_automatic() {
    let mut axis = AxisData::new(TickAxis::YTickAxis);
    axis.set_range(fixed(-1.0), AutoOption::Auto);
    assert_eq!(
        commands(&axis),
        "unset logscale y\nunset mytics\n\nset yrange [-1.000000000000e0:*]\n"
    );
    axis.set_range(AutoOption::Auto, fixed(10.0));
    assert_eq!(
        commands(&axis),
        "unset logscale y\nunset mytics\n\nset yrange [*:1.000000000000e1]\n"
    );
    axis.set_range(fixed(5.0), fixed(-5.0));
    assert_eq!(
        commands(&axis),
        "unset logscale y\nunset mytics\n\nset yrange [5.000000000000e0:-5.000000000000e0]\n"
    );
}

#[test]
fn log_scale_is_set_and_unset() {
    let mut axis = AxisData::new(TickAxis::XTickAxis);
    axis.set_log(Some(num(10.0)));
    assert_eq!(
        commands(&axis),
        "set logscale x 1.000000000000e1\nunset mxtics\n\nset xrange [*:*]\n"
    );
    axis.set_log(Some(num(-2.0)));
    assert_eq!(
        commands(&axis),
        "set logscale x -2.000000000000e0\nunset mxtics\n\nset xrange [*:*]\n"
    );
    axis.set_log(None);
    assert_eq!(
        commands(&axis),
        "unset logscale x\nunset mxtics\n\nset xrange [*:*]\n"
    );
}

#[test]
fn fixed_increment_of_two_with_three_minor_ticks() {
    let mut axis = AxisData::new(TickAxis::XTickAxis);
    assert_eq!(axis.set_ticks(Some((fixed(2.0), 3)), &[], &[]), Ok(()));
    assert_eq!(axis.mticks, 3);
    assert_eq!(
        shown(&axis.ticks_buf),
        "set xtics  2.000000000000e0 scale 5.000000000000e-1,5.000000000000e-1\n"
    );
    assert_eq!(
        commands(&axis),
        "unset logscale x\nset mxtics 4\n\nset xrange [*:*]\n\
set xtics  2.000000000000e0 scale 5.000000000000e-1,5.000000000000e-1\n"
    );
}

#[test]
fn zero_increment_is_turned_down() {
    let mut axis = AxisData::new(TickAxis::XTickAxis);
    assert_eq!(
        axis.set_ticks(Some((fixed(0.0), 3)), &[], &[]),
        Err(InvalidArgument::InvalidTickIncrement)
    );
    assert_eq!(
        axis.set_ticks(Some((fixed(-0.0), 3)), &[], &[]),
        Err(InvalidArgument::InvalidTickIncrement)
    );
}

#[test]
fn negative_increment_is_turned_down() {
    let mut axis = AxisData::new(TickAxis::XTickAxis);
    assert_eq!(
        axis.set_ticks(Some((fixed(-1.0), 3)), &[], &[]),
        Err(InvalidArgument::InvalidTickIncrement)
    );
    assert_eq!(
        axis.set_ticks(Some((fixed(f64::NEG_INFINITY), 0)), &[], &[]),
        Err(InvalidArgument::InvalidTickIncrement)
    );
}

#[test]
fn turned_down_ticks_leave_the_axis_as_it_was() {
    let mut axis = AxisData::new(TickAxis::YTickAxis);
    axis.set_ticks(Some((fixed(2.0), 3)), &[], &[]).unwrap();
    axis.set_range(fixed(0.0), fixed(1.0));
    let before = commands(&axis);
    assert!(axis.set_ticks(Some((fixed(0.0), 7)), &[TickOption::Mirror(true)], &[]).is_err());
    assert_eq!(commands(&axis), before);
    assert_eq!(axis.mticks, 3);
}

#[test]
fn increment_that_is_not_a_number_is_not_at_most_zero() {
    let mut axis = AxisData::new(TickAxis::XTickAxis);
    assert_eq!(axis.set_ticks(Some((fixed(f64::NAN), 0)), &[], &[]), Ok(()));
    assert_eq!(
        axis.set_ticks(Some((fixed(f64::INFINITY), 0)), &[], &[]),
        Ok(())
    );
    assert_eq!(axis.set_ticks(Some((fixed(5e-324), 0)), &[], &[]), Ok(()));
}

#[test]
fn automatic_increment() {
    let mut axis = AxisData::new(TickAxis::YTickAxis);
    assert_eq!(axis.set_ticks(Some((AutoOption::Auto, 0)), &[], &[]), Ok(()));
    assert_eq!(axis.mticks, 0);
    assert_eq!(
        shown(&axis.ticks_buf),
        "set ytics autofreq scale 5.000000000000e-1,5.000000000000e-1\n"
    );
    assert_eq!(
        commands(&axis),
        "unset logscale y\nunset mytics\n\nset yrange [*:*]\n\
set ytics autofreq scale 5.000000000000e-1,5.000000000000e-1\n"
    );
}

#[test]
fn hidden_ticks() {
    let mut axis = AxisData::new(TickAxis::CBTickAxis);
    axis.set_ticks(Some((AutoOption::Auto, 5)), &[], &[]).unwrap();
    assert_eq!(axis.mticks, 5);
    assert_eq!(
        axis.set_ticks(None, &[TickOption::Mirror(true)], &[LabelOption::TextColor("red")]),
        Ok(())
    );
    assert_eq!(axis.mticks, 0);
    assert_eq!(shown(&axis.ticks_buf), "unset cbtics\n");
}

#[test]
fn minor_ticks_on_a_log_axis_are_left_to_the_engine() {
    let mut axis = AxisData::new(TickAxis::XTickAxis);
    axis.set_log(Some(num(10.0)));
    axis.set_ticks(Some((AutoOption::Auto, 3)), &[], &[]).unwrap();
    assert_eq!(
        commands(&axis),
        "set logscale x 1.000000000000e1\nset mxtics default\n\nset xrange [*:*]\n\
set xtics autofreq scale 5.000000000000e-1,5.000000000000e-1\n"
    );
}

#[test]
fn one_minor_tick_is_two_intervals() {
    let mut axis = AxisData::new(TickAxis::YTickAxis);
    axis.set_ticks(Some((AutoOption::Auto, 1)), &[], &[]).unwrap();
    assert!(commands(&axis).starts_with("unset logscale y\nset mytics 2\n\n"));
}

#[test]
fn minor_tick_count_wraps_into_its_field() {
    let mut axis = AxisData::new(TickAxis::XTickAxis);
    axis.set_ticks(Some((AutoOption::Auto, 0x7fff_ffff)), &[], &[]).unwrap();
    assert_eq!(axis.mticks, i32::MAX);
    assert!(commands(&axis).starts_with("unset logscale x\nset mxtics 2147483648\n\n"));
    axis.set_ticks(Some((AutoOption::Auto, 0x8000_0000)), &[], &[]).unwrap();
    assert_eq!(axis.mticks, i32::MIN);
    assert!(commands(&axis).starts_with("unset logscale x\nunset mxtics\n\n"));
    axis.set_ticks(Some((AutoOption::Auto, u32::MAX)), &[], &[]).unwrap();
    assert_eq!(axis.mticks, -1);
}

#[test]
fn negative_minor_tick_count_unsets_minor_ticks() {
    let mut axis = AxisData::new(TickAxis::XTickAxis);
    axis.mticks = -3;
    assert_eq!(
        commands(&axis),
        "unset logscale x\nunset mxtics\n\nset xrange [*:*]\n"
    );
}

#[test]
fn tick_options_come_in_a_fixed_order() {
    let mut axis = AxisData::new(TickAxis::XTickAxis);
    let tick_options = [
        TickOption::MajorScale(num(2.0)),
        TickOption::MinorScale(num(0.25)),
        TickOption::Inward(false),
        TickOption::Mirror(false),
        TickOption::OnAxis(true),
    ];
    axis.set_ticks(Some((AutoOption::Auto, 0)), &tick_options, &[]).unwrap();
    assert_eq!(
        shown(&axis.ticks_buf),
        "set xtics autofreq axis nomirror out scale 2.500000000000e-1,2.000000000000e0\n"
    );
    let others = [
        TickOption::OnAxis(false),
        TickOption::Mirror(true),
        TickOption::Inward(true),
    ];
    axis.set_ticks(Some((AutoOption::Auto, 0)), &others, &[]).unwrap();
    assert_eq!(
        shown(&axis.ticks_buf),
        "set xtics autofreq border mirror in scale 5.000000000000e-1,5.000000000000e-1\n"
    );
}

#[test]
fn each_scale_defaults_on_its_own() {
    let mut axis = AxisData::new(TickAxis::XTickAxis);
    axis.set_ticks(Some((AutoOption::Auto, 0)), &[TickOption::MinorScale(num(1.0))], &[])
        .unwrap();
    assert_eq!(
        shown(&axis.ticks_buf),
        "set xtics autofreq scale 1.000000000000e0,5.000000000000e-1\n"
    );
    axis.set_ticks(Some((AutoOption::Auto, 0)), &[TickOption::MajorScale(num(1.0))], &[])
        .unwrap();
    assert_eq!(
        shown(&axis.ticks_buf),
        "set xtics autofreq scale 5.000000000000e-1,1.000000000000e0\n"
    );
}

#[test]
fn earliest_tick_option_of_a_kind_counts() {
    let tick_options = [
        TickOption::Mirror(false),
        TickOption::Mirror(true),
        TickOption::MajorScale(num(3.0)),
        TickOption::MajorScale(num(4.0)),
    ];
    assert!(matches!(
        resolve(&tick_options, TickOptionKind::Mirror),
        Some(TickOption::Mirror(false))
    ));
    assert!(resolve(&tick_options, TickOptionKind::OnAxis).is_none());
    let mut axis = AxisData::new(TickAxis::XTickAxis);
    axis.set_ticks(Some((AutoOption::Auto, 0)), &tick_options, &[]).unwrap();
    assert_eq!(
        shown(&axis.ticks_buf),
        "set xtics autofreq nomirror scale 5.000000000000e-1,3.000000000000e0\n"
    );
}

#[test]
fn tick_labels_take_text_decoration_only() {
    let mut axis = AxisData::new(TickAxis::YTickAxis);
    let label_options = [
        LabelOption::MarkerSymbol('Q'),
        LabelOption::TextAlign(plotscript::AlignType::AlignLeft),
        LabelOption::Rotate(num(45.0)),
        LabelOption::Font("Arial", num(10.0)),
        LabelOption::TextColor("gray"),
        LabelOption::TextOffset(num(0.0), num(1.0)),
    ];
    axis.set_ticks(
        Some((fixed(0.5), 0)),
        &[TickOption::Inward(true)],
        &label_options,
    )
    .unwrap();
    assert_eq!(
        shown(&axis.ticks_buf),
        "set ytics  5.000000000000e-1 offset character 0.000000000000e0,1.000000000000e0 \
tc rgb \"gray\" font \"Arial,1.000000000000e1\" rotate by 4.500000000000e1 in \
scale 5.000000000000e-1,5.000000000000e-1\n"
    );
}

#[test]
fn custom_ticks_are_listed_with_label_position_and_level() {
    let mut axis = AxisData::new(TickAxis::XTickAxis);
    axis.set_ticks(Some((AutoOption::Auto, 4)), &[], &[]).unwrap();
    let ticks = [
        Tick::Major(num(1.0), AutoOption::Fix("one".to_string())),
        Tick::Minor(num(1.5)),
        Tick::Major(num(2.0), AutoOption::Auto),
        Tick::Major(num(3.0), AutoOption::Fix("%.1f s".to_string())),
    ];
    axis.set_ticks_custom(&ticks, &[], &[]);
    assert_eq!(axis.mticks, 0);
    assert_eq!(
        shown(&axis.ticks_buf),
        "set xtics (\"one\" 1.000000000000e0 0,1.500000000000e0 1,2.000000000000e0 0,\
\"%.1f s\" 3.000000000000e0 0) scale 5.000000000000e-1,5.000000000000e-1\n"
    );
}

#[test]
fn custom_ticks_with_one_or_no_entry() {
    let mut axis = AxisData::new(TickAxis::CBTickAxis);
    axis.set_ticks_custom(&[], &[], &[]);
    assert_eq!(
        shown(&axis.ticks_buf),
        "set cbtics () scale 5.000000000000e-1,5.000000000000e-1\n"
    );
    axis.set_ticks_custom(&[Tick::Minor(num(0.0))], &[], &[]);
    assert_eq!(
        shown(&axis.ticks_buf),
        "set cbtics (0.000000000000e0 1) scale 5.000000000000e-1,5.000000000000e-1\n"
    );
    axis.set_ticks_custom(
        &[Tick::Major(num(0.0), AutoOption::Fix(String::new()))],
        &[],
        &[],
    );
    assert_eq!(
        shown(&axis.ticks_buf),
        "set cbtics (\"\" 0.000000000000e0 0) scale 5.000000000000e-1,5.000000000000e-1\n"
    );
}

#[test]
fn custom_ticks_take_the_tick_options() {
    let mut axis = AxisData::new(TickAxis::YTickAxis);
    axis.set_ticks_custom(
        &[Tick::Major(num(1.0), AutoOption::Auto)],
        &[TickOption::Mirror(false), TickOption::MinorScale(num(2.0))],
        &[LabelOption::TextColor("red")],
    );
    assert_eq!(
        shown(&axis.ticks_buf),
        "set ytics (1.000000000000e0 0) tc rgb \"red\" nomirror scale 2.000000000000e0,5.000000000000e-1\n"
    );
}

#[test]
fn every_tick_call_writes_the_directive_anew() {
    let mut axis = AxisData::new(TickAxis::XTickAxis);
    axis.set_ticks_custom(&[Tick::Minor(num(1.0))], &[TickOption::Mirror(true)], &[]);
    axis.set_ticks(Some((AutoOption::Auto, 2)), &[], &[]).unwrap();
    assert_eq!(
        shown(&axis.ticks_buf),
        "set xtics autofreq scale 5.000000000000e-1,5.000000000000e-1\n"
    );
    axis.set_ticks(None, &[], &[]).unwrap();
    assert_eq!(shown(&axis.ticks_buf), "unset xtics\n");
}

#[test]
fn range_and_scale_leave_the_ticks_alone() {
    let mut axis = AxisData::new(TickAxis::XTickAxis);
    axis.set_ticks_custom(&[Tick::Minor(num(1.0))], &[], &[]);
    let ticks = shown(&axis.ticks_buf);
    axis.set_range(fixed(0.0), fixed(1.0));
    axis.set_log(Some(num(2.0)));
    assert_eq!(shown(&axis.ticks_buf), ticks);
    assert_eq!(axis.mticks, 0);
    assert_eq!(axis.axis, TickAxis::XTickAxis);
}

#[test]
fn axis_commands_are_appended_to_what_is_there() {
    let axis = AxisData::new(TickAxis::XTickAxis);
    let mut w = Script::new();
    w.write_str("reset\n");
    axis.write_out_commands(&mut w);
    axis.write_out_commands(&mut w);
    assert_eq!(
        shown(&w),
        "reset\nunset logscale x\nunset mxtics\n\nset xrange [*:*]\n\
unset logscale x\nunset mxtics\n\nset xrange [*:*]\n"
    );
}
