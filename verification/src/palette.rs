//! Palettes for surfaces and images.

use vstd::prelude::*;
use crate::error::InvalidArgument;
use crate::options::PaletteType;
use crate::scalar::Scalar;
use crate::script::{
    decimal, group_grow, grown, joined, joined_prefix, lemma_grow_start, lemma_joined_ends,
    lemma_joined_step, number, text, Atom, Script,
};

verus! {

broadcast use group_grow;

/// A control point of a custom palette: a gray level, and the red, green and
/// blue that it maps to.
pub type ControlPoint = (Scalar, Scalar, Scalar, Scalar);

/// Whether a colour formula has a number that the engine knows.
pub open spec fn formula_in_range(f: i32) -> bool {
    -36 <= f <= 36
}

/// Whether a palette is turned down: a gamma that is not greater than zero,
/// a saturation below zero, or a formula outside `-36..=36`.
pub open spec fn rejected_palette(palette: PaletteType) -> bool {
    match palette {
        PaletteType::Gray(gamma) => !gamma.is_positive(),
        PaletteType::Formula(r, g, b) => !(formula_in_range(r) && formula_in_range(g)
            && formula_in_range(b)),
        PaletteType::CubeHelix(_, _, sat, gamma) => !(sat.is_non_negative() && gamma.is_positive()),
    }
}

/// The directive that sets a palette.
pub open spec fn palette_directive(palette: PaletteType) -> Seq<Atom> {
    match palette {
        PaletteType::Gray(gamma) => text("set palette gray gamma "@) + number(gamma) + text("\n"@),
        PaletteType::Formula(r, g, b) => text("set palette rgbformulae "@) + decimal(r as int)
            + text(","@) + decimal(g as int) + text(","@) + decimal(b as int) + text("\n"@),
        PaletteType::CubeHelix(start, rev, sat, gamma) => text("set palette cubehelix start "@)
            + number(start) + text(" cycles "@) + number(rev) + text(" saturation "@) + number(sat)
            + text(" gamma "@) + number(gamma) + text("\n"@),
    }
}

/// Whether the gray level of control point `i` is in order: a number, and
/// not below the level before it.
pub open spec fn level_in_order(points: Seq<ControlPoint>, i: int) -> bool {
    if i == 0 {
        !points[0].0.is_nan()
    } else {
        points[i - 1].0.le(points[i].0)
    }
}

/// Whether `i` is the first control point whose gray level is out of order.
pub open spec fn first_disorder(points: Seq<ControlPoint>, i: int) -> bool {
    &&& 0 <= i < points.len()
    &&& !level_in_order(points, i)
    &&& forall|j: int| 0 <= j < i ==> level_in_order(points, j)
}

/// Whether a custom palette is accepted: it has a control point, and every
/// gray level is in order.
pub open spec fn accepted_points(points: Seq<ControlPoint>) -> bool {
    &&& points.len() > 0
    &&& forall|j: int| 0 <= j < points.len() ==> level_in_order(points, j)
}

/// One control point as the engine reads it.
pub open spec fn point_entry(point: ControlPoint) -> Seq<Atom> {
    number(point.0) + text(" "@) + number(point.1) + text(" "@) + number(point.2) + text(" "@)
        + number(point.3)
}

/// The entries of the control points.
pub open spec fn point_entries(points: Seq<ControlPoint>) -> Seq<Seq<Atom>> {
    Seq::new(points.len(), |i: int| point_entry(points[i]))
}

/// The directive that sets a custom palette.
pub open spec fn custom_palette_directive(points: Seq<ControlPoint>) -> Seq<Atom> {
    text("set palette defined ("@) + joined(point_entries(points), text(","@)) + text(")\n"@)
}

fn check_formula(f: i32) -> (b: bool)
    ensures
        b == formula_in_range(f),
{
    -36 <= f && f <= 36
}

/// Writes the directive of a palette, or nothing where the palette is
/// turned down.
pub fn write_palette(c: &mut Script, palette: PaletteType) -> (result: Result<
    (),
    InvalidArgument,
>)
    ensures
        match result {
            Ok(()) => !rejected_palette(palette) && final(c)@ == old(c)@ + palette_directive(
                palette,
            ),
            Err(e) => rejected_palette(palette) && e == InvalidArgument::InvalidPaletteParameter
                && *final(c) == *old(c),
        },
{
    proof {
        lemma_grow_start(c@);
    }
    match palette {
        PaletteType::Gray(gamma) => {
            if !gamma.check_positive() {
                return Err(InvalidArgument::InvalidPaletteParameter);
            }
            c.write_str("set palette gray gamma ");
            c.write_number(gamma);
            c.write_str("\n");
        },
        PaletteType::Formula(r, g, b) => {
            if !(check_formula(r) && check_formula(g) && check_formula(b)) {
                return Err(InvalidArgument::InvalidPaletteParameter);
            }
            c.write_str("set palette rgbformulae ");
            c.write_int(r as i64);
            c.write_str(",");
            c.write_int(g as i64);
            c.write_str(",");
            c.write_int(b as i64);
            c.write_str("\n");
        },
        PaletteType::CubeHelix(start, rev, sat, gamma) => {
            if !(sat.check_non_negative() && gamma.check_positive()) {
                return Err(InvalidArgument::InvalidPaletteParameter);
            }
            c.write_str("set palette cubehelix start ");
            c.write_number(start);
            c.write_str(" cycles ");
            c.write_number(rev);
            c.write_str(" saturation ");
            c.write_number(sat);
            c.write_str(" gamma ");
            c.write_number(gamma);
            c.write_str("\n");
        },
    }
    Ok(())
}

/// Looks for what stops a custom palette from being accepted.
pub fn check_points(points: &[ControlPoint]) -> (result: Result<(), InvalidArgument>)
    ensures
        match result {
            Ok(()) => accepted_points(points@),
            Err(InvalidArgument::EmptyGenerator) => points@.len() == 0,
            Err(InvalidArgument::NonMonotonicSequence(i)) => first_disorder(points@, i as int),
            Err(_) => false,
        },
{
    if points.len() == 0 {
        return Err(InvalidArgument::EmptyGenerator);
    }
    let mut i: usize = 0;
    while i < points.len()
        invariant
            i <= points.len(),
            forall|j: int| 0 <= j < i ==> level_in_order(points@, j),
        decreases points.len() - i,
    {
        let in_order = if i == 0 {
            !points[0].0.check_nan()
        } else {
            points[i - 1].0.at_most(&points[i].0)
        };
        if !in_order {
            return Err(InvalidArgument::NonMonotonicSequence(i));
        }
        i = i + 1;
    }
    Ok(())
}

fn write_point_entry(c: &mut Script, point: &ControlPoint)
    ensures
        final(c)@ == old(c)@ + point_entry(*point),
{
    proof {
        lemma_grow_start(c@);
    }
    c.write_number(point.0);
    c.write_str(" ");
    c.write_number(point.1);
    c.write_str(" ");
    c.write_number(point.2);
    c.write_str(" ");
    c.write_number(point.3);
}

fn write_point_entries(c: &mut Script, points: &[ControlPoint])
    ensures
        final(c)@ == old(c)@ + joined(point_entries(points@), text(","@)),
{
    let ghost parts = point_entries(points@);
    let mut i: usize = 0;
    proof {
        lemma_grow_start(c@);
        lemma_joined_ends(parts, text(","@));
    }
    while i < points.len()
        invariant
            i <= points.len(),
            parts.len() == points@.len(),
            forall|k: int| 0 <= k < parts.len() ==> parts[k] == point_entry(points@[k]),
            c@ == grown(old(c)@, joined_prefix(parts, text(","@), i as int)),
        decreases points.len() - i,
    {
        if i > 0 {
            c.write_str(",");
        }
        write_point_entry(c, &points[i]);
        proof {
            lemma_joined_step(parts, text(","@), i as int);
        }
        i = i + 1;
    }
    proof {
        lemma_joined_ends(parts, text(","@));
    }
}

/// Writes the directive of a custom palette, or nothing where the palette
/// is turned down.
pub fn write_custom_palette(c: &mut Script, points: &[ControlPoint]) -> (result: Result<
    (),
    InvalidArgument,
>)
    ensures
        match result {
            Ok(()) => accepted_points(points@) && final(c)@ == old(c)@ + custom_palette_directive(
                points@,
            ),
            Err(InvalidArgument::EmptyGenerator) => points@.len() == 0 && *final(c) == *old(c),
            Err(InvalidArgument::NonMonotonicSequence(i)) => first_disorder(points@, i as int)
                && *final(c) == *old(c),
            Err(_) => false,
        },
{
    proof {
        lemma_grow_start(c@);
    }
    match check_points(points) {
        Ok(()) => {},
        Err(e) => {
            return Err(e);
        },
    }
    c.write_str("set palette defined (");
    write_point_entries(c, points);
    c.write_str(")\n");
    Ok(())
}

} // verus!
