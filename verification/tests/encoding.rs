use plotscript::payload::{encode_cells, encode_rows2, encode_rows3, row_count2, row_count3};
use plotscript::{write_data, Scalar};

fn num(x: f64) -> Scalar {
    Scalar::from_bits(x.to_bits())
}

fn nums(xs: &[f64]) -> Vec<Scalar> {
    xs.iter().map(|x| num(*x)).collect()
}

fn read_back(bytes: &[u8]) -> Vec<f64> {
    assert_eq!(bytes.len() % 8, 0);
    let mut out = Vec::new();
    for chunk in bytes.chunks(8) {
        let mut b = [0u8; 8];
        b.copy_from_slice(chunk);
        out.push(f64::from_le_bytes(b));
    }
    out
}

fn bits_of(xs: &[f64]) -> Vec<u64> {
    xs.iter().map(|x| x.to_bits()).collect()
}

#[test]
fn write_data_appends_eight_little_endian_bytes() {
    let mut buffer = vec![0xaau8];
    write_data(&mut buffer, num(1.0));
    assert_eq!(buffer, vec![0xaa, 0, 0, 0, 0, 0, 0, 0xf0, 0x3f]);
}

#[test]
fn write_data_orders_bytes_from_least_significant() {
    let mut buffer = Vec::new();
    write_data(&mut buffer, Scalar::from_bits(0x0102_0304_0506_0708));
    assert_eq!(buffer, vec![8, 7, 6, 5, 4, 3, 2, 1]);
}

#[test]
fn encoded_doubles_read_back_exactly() {
    let values = [
        0.0,
        -0.0,
        1.0,
        -1.5,
        3.141592653589793,
        f64::MAX,
        f64::MIN_POSITIVE,
        5e-324,
        f64::INFINITY,
        f64::NEG_INFINITY,
        f64::NAN,
    ];
    let mut buffer = Vec::new();
    for v in values.iter() {
        write_data(&mut buffer, num(*v));
    }
    assert_eq!(buffer.len(), 8 * values.len());
    assert_eq!(bits_of(&read_back(&buffer)), bits_of(&values));
}

#[test]
fn nan_padding_is_the_standard_quiet_nan() {
    assert_eq!(Scalar::nan().to_bits(), f64::NAN.to_bits());
    assert!(f64::from_bits(Scalar::nan().to_bits()).is_nan());
}

#[test]
fn half_is_one_half() {
    assert_eq!(f64::from_bits(Scalar::half().to_bits()), 0.5);
}

#[test]
fn two_columns_are_interleaved_row_by_row() {
    let data = encode_rows2(&nums(&[1.0, 2.0, 3.0]), &nums(&[10.0, 20.0, 30.0]));
    assert_eq!(read_back(&data), vec![1.0, 10.0, 2.0, 20.0, 3.0, 30.0]);
}

#[test]
fn two_columns_are_cut_to_the_shorter() {
    let x1 = nums(&[1.0, 2.0, 3.0, 4.0]);
    let x2 = nums(&[10.0, 20.0]);
    assert_eq!(row_count2(&x1, &x2), 2);
    assert_eq!(read_back(&encode_rows2(&x1, &x2)), vec![1.0, 10.0, 2.0, 20.0]);
    assert_eq!(row_count2(&x2, &x1), 2);
    assert_eq!(read_back(&encode_rows2(&x2, &x1)), vec![10.0, 1.0, 20.0, 2.0]);
}

#[test]
fn empty_column_gives_empty_payload() {
    let x1 = nums(&[1.0, 2.0]);
    let none: Vec<Scalar> = Vec::new();
    assert_eq!(row_count2(&x1, &none), 0);
    assert!(encode_rows2(&x1, &none).is_empty());
    assert!(encode_rows3(&x1, &x1, &none).is_empty());
}

#[test]
fn three_columns_are_interleaved_and_cut_to_the_shortest() {
    let x1 = nums(&[1.0, 2.0, 3.0]);
    let x2 = nums(&[10.0, 20.0]);
    let x3 = nums(&[100.0, 200.0, 300.0, 400.0]);
    assert_eq!(row_count3(&x1, &x2, &x3), 2);
    assert_eq!(
        read_back(&encode_rows3(&x1, &x2, &x3)),
        vec![1.0, 10.0, 100.0, 2.0, 20.0, 200.0]
    );
    assert_eq!(row_count3(&x3, &x1, &x2), 2);
    assert_eq!(row_count3(&x2, &x3, &x1), 2);
}

#[test]
fn short_matrix_is_padded_with_one_nan() {
    let mat = nums(&[1.0, 2.0, 3.0]);
    let data = encode_cells(&mat, 2, 2);
    assert_eq!(data.len(), 32);
    let back = read_back(&data);
    assert_eq!(&back[..3], &[1.0, 2.0, 3.0]);
    assert_eq!(back[3].to_bits(), f64::NAN.to_bits());
}

#[test]
fn empty_matrix_is_all_nan() {
    let none: Vec<Scalar> = Vec::new();
    let back = read_back(&encode_cells(&none, 2, 3));
    assert_eq!(back.len(), 6);
    assert!(back.iter().all(|v| v.to_bits() == f64::NAN.to_bits()));
}

#[test]
fn full_matrix_is_not_padded() {
    let mat = nums(&[1.0, 2.0, 3.0, 4.0]);
    assert_eq!(read_back(&encode_cells(&mat, 2, 2)), vec![1.0, 2.0, 3.0, 4.0]);
}

#[test]
fn long_matrix_is_cut_to_its_cells() {
    let mat = nums(&[1.0, 2.0, 3.0, 4.0, 5.0]);
    let data = encode_cells(&mat, 2, 2);
    assert_eq!(data.len(), 32);
    assert_eq!(read_back(&data), vec![1.0, 2.0, 3.0, 4.0]);
    let one = encode_cells(&nums(&[1.0, 2.0]), 1, 1);
    assert_eq!(one.len(), 8);
    assert_eq!(read_back(&one), vec![1.0]);
}

#[test]
fn matrix_without_cells_has_no_payload() {
    let mat = nums(&[7.0]);
    assert!(encode_cells(&mat, 0, 5).is_empty());
    assert!(encode_cells(&mat, 5, 0).is_empty());
    let none: Vec<Scalar> = Vec::new();
    assert!(encode_cells(&none, 0, 0).is_empty());
}

#[test]
fn matrix_payload_has_eight_bytes_for_each_cell() {
    for given in 0..8usize {
        let mat: Vec<Scalar> = (0..given).map(|k| num(k as f64)).collect();
        for (rows, cols) in [(0, 0), (1, 1), (1, 3), (2, 2), (3, 2)] {
            let data = encode_cells(&mat, rows, cols);
            assert_eq!(data.len(), 8 * rows * cols);
            let back = read_back(&data);
            for (i, v) in back.iter().enumerate() {
                if i < given {
                    assert_eq!(*v, i as f64);
                } else {
                    assert_eq!(v.to_bits(), f64::NAN.to_bits());
                }
            }
        }
    }
}

#[test]
fn matrix_nan_input_reads_back_bit_for_bit() {
    let odd_nan = f64::from_bits(0x7ff0_0000_0000_0001);
    let mat = nums(&[odd_nan, -0.0]);
    let back = read_back(&encode_cells(&mat, 1, 3));
    assert_eq!(
        bits_of(&back),
        vec![0x7ff0_0000_0000_0001, (-0.0f64).to_bits(), f64::NAN.to_bits()]
    );
}
