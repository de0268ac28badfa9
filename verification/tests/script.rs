use plotscript::{Piece, Quantity, Scalar, Script};

fn num(x: f64) -> Scalar {
    Scalar::from_bits(x.to_bits())
}

fn decimal_text(quantity: &Quantity) -> Vec<u8> {
    let value = match quantity {
        Quantity::Value(value) => f64::from_bits(value.bits),
        Quantity::Spacing(lo, hi, cells) => {
            (f64::from_bits(hi.bits) - f64::from_bits(lo.bits)) / (*cells as f64 - 1.0)
        }
    };
    format!("{:.12e}", value).into_bytes()
}

fn render(script: &Script) -> Vec<u8> {
    let texts: Vec<Vec<u8>> = script.numbers().iter().map(decimal_text).collect();
    script.assemble(&texts).unwrap()
}

fn shown(script: &Script) -> String {
    String::from_utf8(render(script)).unwrap()
}

#[test]
fn new_script_is_empty() {
    let script = Script::new();
    assert!(script.pieces.is_empty());
    assert!(render(&script).is_empty());
}

#[test]
fn text_and_bytes_are_kept_in_order() {
    let mut script = Script::new();
    script.write_str("set ");
    script.write_bytes(b"xtics");
    script.write_str("\n");
    assert_eq!(shown(&script), "set xtics\n");
}

#[test]
fn neighbouring_bytes_share_a_piece() {
    let mut script = Script::new();
    script.write_str("ab");
    script.write_str("cd");
    assert_eq!(script.pieces.len(), 1);
    assert!(matches!(&script.pieces[0], Piece::Bytes(b) if b == b"abcd"));
    script.write_number(num(1.0));
    script.write_str("ef");
    assert_eq!(script.pieces.len(), 3);
    assert!(matches!(&script.pieces[1], Piece::Number(Quantity::Value(v)) if v.bits == 1.0f64.to_bits()));
    assert!(matches!(&script.pieces[2], Piece::Bytes(b) if b == b"ef"));
}

#[test]
fn text_goes_out_as_utf8() {
    let mut script = Script::new();
    script.write_str("Größe µ");
    assert_eq!(render(&script), "Größe µ".as_bytes());
}

#[test]
fn empty_writes_add_nothing() {
    let mut script = Script::new();
    script.write_str("a");
    script.write_str("");
    script.write_bytes(&[]);
    assert_eq!(shown(&script), "a");
}

#[test]
fn numbers_keep_their_bits() {
    let mut script = Script::new();
    script.write_number(num(2.0));
    script.write_number(num(-0.5));
    assert_eq!(script.pieces.len(), 2);
    assert_eq!(shown(&script), "2.000000000000e0-5.000000000000e-1");
}

#[test]
fn spacing_is_kept_with_its_bounds_and_count() {
    let mut script = Script::new();
    script.write_spacing(num(1.0), num(4.0), 4);
    assert!(matches!(
        &script.pieces[0],
        Piece::Number(Quantity::Spacing(lo, hi, 4))
            if lo.bits == 1.0f64.to_bits() && hi.bits == 4.0f64.to_bits()
    ));
    assert_eq!(shown(&script), "1.000000000000e0");
}

#[test]
fn unsigned_integers_are_written_in_decimal() {
    let mut script = Script::new();
    script.write_uint(0);
    script.write_str(" ");
    script.write_uint(7);
    script.write_str(" ");
    script.write_uint(10);
    script.write_str(" ");
    script.write_uint(1234567890);
    script.write_str(" ");
    script.write_uint(u64::MAX);
    assert_eq!(shown(&script), "0 7 10 1234567890 18446744073709551615");
}

#[test]
fn signed_integers_are_written_in_decimal() {
    let mut script = Script::new();
    script.write_int(0);
    script.write_str(" ");
    script.write_int(-1);
    script.write_str(" ");
    script.write_int(-36);
    script.write_str(" ");
    script.write_int(36);
    script.write_str(" ");
    script.write_int(i64::MAX);
    script.write_str(" ");
    script.write_int(i64::MIN);
    assert_eq!(
        shown(&script),
        "0 -1 -36 36 9223372036854775807 -9223372036854775808"
    );
}

#[test]
fn write_all_copies_the_other_script() {
    let mut a = Script::new();
    a.write_str("x=");
    let mut b = Script::new();
    b.write_str("[");
    b.write_number(num(1.0));
    b.write_str(":");
    b.write_spacing(num(0.0), num(1.0), 3);
    b.write_str("]");
    a.write_all(&b);
    a.write_all(&Script::new());
    assert_eq!(shown(&a), "x=[1.000000000000e0:5.000000000000e-1]");
    assert_eq!(shown(&b), "[1.000000000000e0:5.000000000000e-1]");
}

#[test]
fn clear_empties_the_script() {
    let mut script = Script::new();
    script.write_str("abc");
    script.write_number(num(1.0));
    script.clear();
    assert!(script.pieces.is_empty());
    script.write_str("d");
    assert_eq!(shown(&script), "d");
}

#[test]
fn numbers_are_listed_in_order() {
    let mut script = Script::new();
    script.write_str("a");
    script.write_number(num(1.0));
    script.write_str("b");
    script.write_spacing(num(0.0), num(2.0), 3);
    script.write_number(num(3.0));
    assert_eq!(
        script.numbers(),
        vec![
            Quantity::Value(num(1.0)),
            Quantity::Spacing(num(0.0), num(2.0), 3),
            Quantity::Value(num(3.0)),
        ]
    );
    assert!(Script::new().numbers().is_empty());
}

#[test]
fn texts_take_the_places_of_the_numbers() {
    let mut script = Script::new();
    script.write_str("[");
    script.write_number(num(1.0));
    script.write_str(":");
    script.write_number(num(2.0));
    script.write_str("]");
    let texts = vec![b"one".to_vec(), b"two".to_vec()];
    assert_eq!(script.assemble(&texts), Some(b"[one:two]".to_vec()));
    let swapped = vec![b"two".to_vec(), b"".to_vec()];
    assert_eq!(script.assemble(&swapped), Some(b"[two:]".to_vec()));
}

#[test]
fn assembling_needs_one_text_for_each_number() {
    let mut script = Script::new();
    script.write_str("[");
    script.write_number(num(1.0));
    script.write_spacing(num(1.0), num(2.0), 2);
    script.write_str("]");
    assert_eq!(script.assemble(&[]), None);
    assert_eq!(script.assemble(&[b"1".to_vec()]), None);
    assert_eq!(
        script.assemble(&[b"1".to_vec(), b"2".to_vec(), b"3".to_vec()]),
        None
    );
    assert_eq!(
        script.assemble(&[b"1".to_vec(), b"2".to_vec()]),
        Some(b"[12]".to_vec())
    );
}

#[test]
fn bytes_alone_go_out_as_they_are() {
    let mut script = Script::new();
    script.write_bytes(&[0, 255, 10, 13, 128]);
    assert_eq!(script.assemble(&[]), Some(vec![0, 255, 10, 13, 128]));
    assert_eq!(script.assemble(&[b"1".to_vec()]), None);
    assert_eq!(Script::new().assemble(&[]), Some(Vec::new()));
}

#[test]
fn numbers_are_written_with_twelve_fraction_digits() {
    assert_eq!(plotscript::FRACTION_DIGITS, 12);
    assert_eq!(
        format!("{:.*e}", plotscript::FRACTION_DIGITS, 2.0f64),
        "2.000000000000e0"
    );
}
