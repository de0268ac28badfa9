use plotscript::{
    resolve, write_out_label_options, AlignType, Coordinate, InvalidArgument, LabelOption,
    LabelOptionKind, LabelType, Quantity, Scalar, Script,
};

fn num(x: f64) -> Scalar {
    Scalar::from_bits(x.to_bits())
}

fn decimal_text(quantity: &Quantity) -> Vec<u8> {
    let value = match quantity {
        Quantity::Value(value) => f64::from_bits(value.bits),
        Quantity::Spacing(lo, hi, cells) => {
            (f64::from_bits(hi.bits) - f64::from_bits(lo.bits)) / (*cells as f64 - 1.0)
        }
    };
    format!("{:.12e}", value).into_bytes()
}

fn render(script: &Script) -> Vec<u8> {
    let texts: Vec<Vec<u8>> = script.numbers().iter().map(decimal_text).collect();
    script.assemble(&texts).unwrap()
}

fn shown(script: &Script) -> String {
    String::from_utf8(render(script)).unwrap()
}

fn dressed(label_type: LabelType, options: &[LabelOption]) -> String {
    let mut writer = Script::new();
    write_out_label_options(label_type, options, &mut writer).unwrap();
    shown(&writer)
}

fn free_label() -> LabelType {
    LabelType::Label(Coordinate::Graph(num(0.5)), Coordinate::Axis(num(2.0)))
}

#[test]
fn only_a_free_standing_label_is_a_label() {
    assert!(free_label().is_label());
    for label_type in [
        LabelType::XLabel,
        LabelType::YLabel,
        LabelType::ZLabel,
        LabelType::CBLabel,
        LabelType::TitleLabel,
        LabelType::AxesTicks,
    ] {
        assert!(!label_type.is_label());
    }
}

#[test]
fn no_options_give_nothing_for_a_title() {
    assert_eq!(dressed(LabelType::TitleLabel, &[]), "");
    assert_eq!(dressed(LabelType::AxesTicks, &[]), "");
}

#[test]
fn free_standing_label_has_its_position() {
    assert_eq!(
        dressed(free_label(), &[]),
        " at  graph 5.000000000000e-1, first 2.000000000000e0 front"
    );
    let other = LabelType::Label(Coordinate::Axis(num(-1.0)), Coordinate::Graph(num(1.0)));
    assert_eq!(
        dressed(other, &[]),
        " at  first -1.000000000000e0, graph 1.000000000000e0 front"
    );
}

#[test]
fn text_decoration_comes_in_a_fixed_order() {
    let options = [
        LabelOption::Rotate(num(90.0)),
        LabelOption::Font("Arial", num(12.0)),
        LabelOption::TextColor("blue"),
        LabelOption::TextOffset(num(1.0), num(-2.0)),
    ];
    assert_eq!(
        dressed(LabelType::XLabel, &options),
        " offset character 1.000000000000e0,-2.000000000000e0 tc rgb \"blue\" font \"Arial,1.200000000000e1\" rotate by 9.000000000000e1"
    );
}

#[test]
fn each_text_decoration_alone() {
    assert_eq!(
        dressed(LabelType::YLabel, &[LabelOption::TextOffset(num(0.0), num(0.5))]),
        " offset character 0.000000000000e0,5.000000000000e-1"
    );
    assert_eq!(
        dressed(LabelType::YLabel, &[LabelOption::TextColor("#00ff00")]),
        " tc rgb \"#00ff00\""
    );
    assert_eq!(
        dressed(LabelType::YLabel, &[LabelOption::Font("Helvetica", num(8.0))]),
        " font \"Helvetica,8.000000000000e0\""
    );
    assert_eq!(
        dressed(LabelType::YLabel, &[LabelOption::Rotate(num(-45.0))]),
        " rotate by -4.500000000000e1"
    );
}

#[test]
fn titles_and_axis_labels_take_no_marker_or_alignment() {
    let options = [
        LabelOption::MarkerSymbol('o'),
        LabelOption::MarkerColor("red"),
        LabelOption::MarkerSize(num(2.0)),
        LabelOption::TextAlign(AlignType::AlignLeft),
        LabelOption::TextColor("blue"),
    ];
    for label_type in [
        LabelType::XLabel,
        LabelType::YLabel,
        LabelType::ZLabel,
        LabelType::CBLabel,
        LabelType::TitleLabel,
        LabelType::AxesTicks,
    ] {
        assert_eq!(dressed(label_type, &options), " tc rgb \"blue\"");
    }
}

#[test]
fn free_standing_label_takes_marker_and_alignment() {
    let options = [
        LabelOption::TextAlign(AlignType::AlignRight),
        LabelOption::MarkerSize(num(1.5)),
        LabelOption::MarkerColor("red"),
        LabelOption::MarkerSymbol('*'),
        LabelOption::TextColor("blue"),
    ];
    assert_eq!(
        dressed(free_label(), &options),
        " at  graph 5.000000000000e-1, first 2.000000000000e0 front tc rgb \"blue\" point pt 3 lc rgb \"red\" ps 1.500000000000e0 right"
    );
}

#[test]
fn marker_colour_and_size_need_a_symbol() {
    let options = [LabelOption::MarkerColor("red"), LabelOption::MarkerSize(num(1.5))];
    assert_eq!(
        dressed(free_label(), &options),
        " at  graph 5.000000000000e-1, first 2.000000000000e0 front"
    );
    let with_symbol = [
        LabelOption::MarkerColor("red"),
        LabelOption::MarkerSymbol('.'),
    ];
    assert_eq!(
        dressed(free_label(), &with_symbol),
        " at  graph 5.000000000000e-1, first 2.000000000000e0 front point pt 0 lc rgb \"red\""
    );
    let size_only = [LabelOption::MarkerSymbol('D'), LabelOption::MarkerSize(num(3.0))];
    assert_eq!(
        dressed(free_label(), &size_only),
        " at  graph 5.000000000000e-1, first 2.000000000000e0 front point pt 11 ps 3.000000000000e0"
    );
}

#[test]
fn alignment_is_left_right_or_centre() {
    let head = " at  graph 5.000000000000e-1, first 2.000000000000e0 front";
    let table = [
        (AlignType::AlignLeft, " left"),
        (AlignType::AlignRight, " right"),
        (AlignType::AlignCenter, " center"),
        (AlignType::AlignTop, " center"),
        (AlignType::AlignBottom, " center"),
    ];
    for (align, word) in table.iter() {
        assert_eq!(
            dressed(free_label(), &[LabelOption::TextAlign(*align)]),
            format!("{}{}", head, word)
        );
    }
}

#[test]
fn earliest_label_option_of_a_kind_counts() {
    let options = [
        LabelOption::TextColor("red"),
        LabelOption::Rotate(num(1.0)),
        LabelOption::TextColor("blue"),
        LabelOption::Rotate(num(2.0)),
    ];
    assert!(matches!(
        resolve(&options, LabelOptionKind::TextColor),
        Some(LabelOption::TextColor("red"))
    ));
    assert!(resolve(&options, LabelOptionKind::Font).is_none());
    assert_eq!(
        dressed(LabelType::TitleLabel, &options),
        " tc rgb \"red\" rotate by 1.000000000000e0"
    );
}

#[test]
fn unknown_marker_symbol_stops_a_free_standing_label() {
    let mut writer = Script::new();
    writer.write_str("kept");
    let options = [LabelOption::TextColor("blue"), LabelOption::MarkerSymbol('Q')];
    assert_eq!(
        write_out_label_options(free_label(), &options, &mut writer),
        Err(InvalidArgument::InvalidSymbol('Q'))
    );
    assert_eq!(shown(&writer), "kept");
}

#[test]
fn unknown_marker_symbol_is_ignored_elsewhere() {
    let options = [LabelOption::MarkerSymbol('Q')];
    let mut writer = Script::new();
    assert_eq!(
        write_out_label_options(LabelType::TitleLabel, &options, &mut writer),
        Ok(())
    );
    assert_eq!(
        write_out_label_options(LabelType::AxesTicks, &options, &mut writer),
        Ok(())
    );
    assert_eq!(shown(&writer), "");
}

#[test]
fn label_options_are_appended_to_what_is_there() {
    let mut writer = Script::new();
    writer.write_str("set title \"t\"");
    write_out_label_options(
        LabelType::TitleLabel,
        &[LabelOption::TextColor("red")],
        &mut writer,
    )
    .unwrap();
    assert_eq!(shown(&writer), "set title \"t\" tc rgb \"red\"");
}
