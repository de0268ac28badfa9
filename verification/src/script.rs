//! The output stream.
//!
//! A [`Script`] is what this library hands to whoever owns the transport: the
//! bytes of the directives and of the binary payloads, in order, with every
//! number that a directive mentions kept as its bit pattern at the place
//! where its decimal form belongs. Contracts speak of a script through its
//! view, a sequence of [`Atom`]s.

use vstd::prelude::*;
use vstd::utf8::encode_utf8;
use crate::scalar::Scalar;

verus! {

/// How many digits follow the point when a number of a script is written
/// out, in scientific notation with a lower-case `e`.
pub const FRACTION_DIGITS: usize = 12;

/// A number that a directive mentions.
#[derive(Clone, Copy, Debug, PartialEq, Eq, Structural)]
pub enum Quantity {
    /// A value as it was given.
    Value(Scalar),
    /// The distance between neighbours when `cells` samples are spread
    /// evenly from `lo` to `hi`, that is `(hi - lo) / (cells - 1)`.
    Spacing(Scalar, Scalar, usize),
}

/// One unit of a script.
#[derive(Clone, Copy, Debug, PartialEq, Eq, Structural)]
pub enum Atom {
    /// A byte that goes out as it is.
    Byte(u8),
    /// A number, to be written in scientific notation with
    /// [`FRACTION_DIGITS`] digits after the point.
    Number(Quantity),
}

/// A stretch of a script as it is held in memory.
#[derive(Debug)]
pub enum Piece {
    Bytes(Vec<u8>),
    Number(Quantity),
}

/// A growable script.
#[derive(Debug)]
pub struct Script {
    pub pieces: Vec<Piece>,
}

/// The atoms of a run of bytes.
pub open spec fn raw(bytes: Seq<u8>) -> Seq<Atom> {
    Seq::new(bytes.len(), |i: int| Atom::Byte(bytes[i]))
}

/// The atoms of a piece of text: its UTF-8 bytes.
pub open spec fn text(chars: Seq<char>) -> Seq<Atom> {
    raw(encode_utf8(chars))
}

/// The single atom of a quantity.
pub open spec fn quantity(q: Quantity) -> Seq<Atom> {
    seq![Atom::Number(q)]
}

/// The single atom of a value.
pub open spec fn number(value: Scalar) -> Seq<Atom> {
    quantity(Quantity::Value(value))
}

/// The decimal digits of `n`, most significant first, as ASCII.
pub open spec fn digits(n: nat) -> Seq<u8>
    decreases n,
{
    if n < 10 {
        seq![(48 + n) as u8]
    } else {
        digits(n / 10).push((48 + n % 10) as u8)
    }
}

/// The decimal form of an integer: a minus sign for a negative one, then the
/// digits of its magnitude.
pub open spec fn decimal(i: int) -> Seq<Atom> {
    if i < 0 {
        raw(seq![45u8] + digits((-i) as nat))
    } else {
        raw(digits(i as nat))
    }
}

/// The parts of a list, in order, with the separator between neighbours.
pub open spec fn joined(parts: Seq<Seq<Atom>>, separator: Seq<Atom>) -> Seq<Atom>
    decreases parts.len(),
{
    if parts.len() == 0 {
        Seq::empty()
    } else if parts.len() == 1 {
        parts[0]
    } else {
        joined(parts.drop_last(), separator) + separator + parts.last()
    }
}

impl Piece {
    /// The atoms that the piece stands for.
    pub open spec fn atoms(self) -> Seq<Atom> {
        match self {
            Piece::Bytes(bytes) => raw(bytes@),
            Piece::Number(q) => quantity(q),
        }
    }
}

/// The atoms of a run of pieces, in order.
pub open spec fn flatten(pieces: Seq<Piece>) -> Seq<Atom>
    decreases pieces.len(),
{
    if pieces.len() == 0 {
        Seq::empty()
    } else {
        flatten(pieces.drop_last()) + pieces.last().atoms()
    }
}

/// The numbers of a script, in order.
pub open spec fn quantities(atoms: Seq<Atom>) -> Seq<Quantity>
    decreases atoms.len(),
{
    if atoms.len() == 0 {
        Seq::empty()
    } else {
        match atoms.last() {
            Atom::Byte(_) => quantities(atoms.drop_last()),
            Atom::Number(q) => quantities(atoms.drop_last()).push(q),
        }
    }
}

/// The bytes that go out for a script when `texts` holds the decimal form
/// of each of its numbers, in order: every byte as it is, and in the place
/// of every number its text.
pub open spec fn assembled(atoms: Seq<Atom>, texts: Seq<Seq<u8>>) -> Seq<u8>
    decreases atoms.len(),
{
    if atoms.len() == 0 {
        Seq::empty()
    } else {
        match atoms.last() {
            Atom::Byte(b) => assembled(atoms.drop_last(), texts).push(b),
            Atom::Number(_) => assembled(atoms.drop_last(), texts) + texts[quantities(
                atoms.drop_last(),
            ).len() as int],
        }
    }
}

/// Bytes hold no numbers and go out as they are.
pub proof fn lemma_bytes_pass_through(atoms: Seq<Atom>, bytes: Seq<u8>, texts: Seq<Seq<u8>>)
    ensures
        quantities(atoms + raw(bytes)) == quantities(atoms),
        assembled(atoms + raw(bytes), texts) == assembled(atoms, texts) + bytes,
    decreases bytes.len(),
{
    if bytes.len() == 0 {
        assert(atoms + raw(bytes) =~= atoms);
        assert(assembled(atoms, texts) + bytes =~= assembled(atoms, texts));
    } else {
        let all = atoms + raw(bytes);
        lemma_bytes_pass_through(atoms, bytes.drop_last(), texts);
        assert(all.drop_last() =~= atoms + raw(bytes.drop_last()));
        assert(all.last() == Atom::Byte(bytes.last()));
        assert(assembled(atoms, texts) + bytes =~= (assembled(atoms, texts)
            + bytes.drop_last()).push(bytes.last()));
    }
}

/// A number is the next of the numbers, and its text goes out in its place.
pub proof fn lemma_number_is_replaced(atoms: Seq<Atom>, q: Quantity, texts: Seq<Seq<u8>>)
    ensures
        quantities(atoms + quantity(q)) == quantities(atoms).push(q),
        assembled(atoms + quantity(q), texts) == assembled(atoms, texts) + texts[quantities(
            atoms,
        ).len() as int],
{
    let all = atoms + quantity(q);
    assert(all.drop_last() =~= atoms);
    assert(all.last() == Atom::Number(q));
}

/// A script that has grown: `base` followed by `added`. A proof that
/// follows a script through a run of writes keeps it in this form, with the
/// script as it was on one side and all that was written since on the other.
pub closed spec fn grown(base: Seq<Atom>, added: Seq<Atom>) -> Seq<Atom> {
    base + added
}

/// A script to which nothing has been written yet.
pub proof fn lemma_grow_start(base: Seq<Atom>)
    ensures
        base == grown(base, Seq::<Atom>::empty()),
{
    assert(base + Seq::<Atom>::empty() =~= base);
}

/// The first write to a script.
pub broadcast proof fn lemma_grow_first(base: Seq<Atom>, piece: Seq<Atom>)
    ensures
        #[trigger] (grown(base, Seq::<Atom>::empty()) + piece) == grown(base, piece),
{
    assert(base + Seq::<Atom>::empty() + piece =~= base + piece);
}

/// One more write to a script that has grown.
pub broadcast proof fn lemma_grow_step(base: Seq<Atom>, added: Seq<Atom>, piece: Seq<Atom>)
    ensures
        #[trigger] (grown(base, added) + piece) == grown(base, added + piece),
{
    assert((base + added) + piece =~= base + (added + piece));
}

/// A script that has grown from nothing holds what was written.
pub broadcast proof fn lemma_grow_whole(added: Seq<Atom>)
    ensures
        #[trigger] grown(Seq::<Atom>::empty(), added) == added,
{
    assert(Seq::<Atom>::empty() + added =~= added);
}

/// Joining nothing to a script leaves it as it was.
pub broadcast proof fn lemma_concat_empty(a: Seq<Atom>)
    ensures
        #[trigger] (a + Seq::<Atom>::empty()) == a,
{
    assert(a + Seq::<Atom>::empty() =~= a);
}

/// Joining a script to nothing leaves it as it was.
pub broadcast proof fn lemma_empty_concat(a: Seq<Atom>)
    ensures
        #[trigger] (Seq::<Atom>::empty() + a) == a,
{
    assert(Seq::<Atom>::empty() + a =~= a);
}

/// What it takes to follow a script through a run of writes.
pub broadcast group group_grow {
    lemma_grow_first,
    lemma_grow_step,
    lemma_grow_whole,
    lemma_concat_empty,
    lemma_empty_concat,
}

/// The first `count` parts of a list, joined.
pub open spec fn joined_prefix(parts: Seq<Seq<Atom>>, separator: Seq<Atom>, count: int) -> Seq<
    Atom,
> {
    joined(parts.subrange(0, count), separator)
}

/// No parts, joined, are nothing; all parts of a list, joined, are the list
/// joined.
pub proof fn lemma_joined_ends(parts: Seq<Seq<Atom>>, separator: Seq<Atom>)
    ensures
        joined_prefix(parts, separator, 0) == Seq::<Atom>::empty(),
        joined_prefix(parts, separator, parts.len() as int) == joined(parts, separator),
{
    assert(parts.subrange(0, 0).len() == 0);
    assert(parts.subrange(0, parts.len() as int) =~= parts);
}

/// One part more, joined, is what was joined before, the separator and the
/// part; the first part stands alone.
pub proof fn lemma_joined_step(parts: Seq<Seq<Atom>>, separator: Seq<Atom>, i: int)
    requires
        0 <= i < parts.len(),
    ensures
        joined_prefix(parts, separator, i + 1) == if i == 0 {
            parts[0]
        } else {
            joined_prefix(parts, separator, i) + separator + parts[i]
        },
{
    let next = parts.subrange(0, i + 1);
    assert(next.drop_last() =~= parts.subrange(0, i));
    assert(next.last() == parts[i]);
    if i == 0 {
        assert(next.len() == 1);
        assert(next[0] == parts[0]);
    }
}

/// The atoms of two runs of bytes, one after the other, are the atoms of
/// the first followed by those of the second.
pub proof fn lemma_raw_concat(a: Seq<u8>, b: Seq<u8>)
    ensures
        raw(a + b) == raw(a) + raw(b),
{
    assert(raw(a + b) =~= raw(a) + raw(b));
}

proof fn lemma_flatten_push(pieces: Seq<Piece>, piece: Piece)
    ensures
        flatten(pieces.push(piece)) == flatten(pieces) + piece.atoms(),
{
    assert(pieces.push(piece).drop_last() =~= pieces);
}

impl View for Script {
    type V = Seq<Atom>;

    open spec fn view(&self) -> Seq<Atom> {
        flatten(self.pieces@)
    }
}

fn extend_bytes(target: &mut Vec<u8>, bytes: &[u8])
    ensures
        final(target)@ == old(target)@ + bytes@,
{
    let mut i: usize = 0;
    while i < bytes.len()
        invariant
            i <= bytes.len(),
            target@ == old(target)@ + bytes@.subrange(0, i as int),
        decreases bytes.len() - i,
    {
        target.push(bytes[i]);
        i = i + 1;
    }
    assert(bytes@.subrange(0, i as int) =~= bytes@);
}

fn decimal_digits(n: u64) -> (v: Vec<u8>)
    ensures
        v@ == digits(n as nat),
    decreases n,
{
    if n < 10 {
        let mut v: Vec<u8> = Vec::new();
        v.push((48 + n) as u8);
        v
    } else {
        let mut v = decimal_digits(n / 10);
        v.push((48 + n % 10) as u8);
        v
    }
}

impl Script {
    /// An empty script.
    pub fn new() -> (script: Script)
        ensures
            script@ == Seq::<Atom>::empty(),
    {
        Script { pieces: Vec::new() }
    }

    /// Empties the script.
    pub fn clear(&mut self)
        ensures
            final(self)@ == Seq::<Atom>::empty(),
    {
        self.pieces.clear();
    }

    /// Appends bytes as they are.
    pub fn write_bytes(&mut self, bytes: &[u8])
        ensures
            final(self)@ == old(self)@ + raw(bytes@),
    {
        let last = self.pieces.pop();
        proof {
            if old(self).pieces@.len() > 0 {
                assert(old(self).pieces@.subrange(0, old(self).pieces@.len() - 1)
                    =~= old(self).pieces@.drop_last());
            }
        }
        match last {
            Some(Piece::Bytes(mut held)) => {
                let ghost before = held@;
                extend_bytes(&mut held, bytes);
                proof {
                    lemma_raw_concat(before, bytes@);
                    lemma_flatten_push(self.pieces@, Piece::Bytes(held));
                }
                self.pieces.push(Piece::Bytes(held));
            },
            Some(other) => {
                proof {
                    lemma_flatten_push(self.pieces@, other);
                }
                self.pieces.push(other);
                let mut held: Vec<u8> = Vec::new();
                extend_bytes(&mut held, bytes);
                proof {
                    lemma_flatten_push(self.pieces@, Piece::Bytes(held));
                }
                self.pieces.push(Piece::Bytes(held));
            },
            None => {
                let mut held: Vec<u8> = Vec::new();
                extend_bytes(&mut held, bytes);
                proof {
                    lemma_flatten_push(self.pieces@, Piece::Bytes(held));
                }
                self.pieces.push(Piece::Bytes(held));
            },
        }
    }

    /// Appends a piece of text.
    pub fn write_str(&mut self, s: &str)
        ensures
            final(self)@ == old(self)@ + text(s@),
    {
        self.write_bytes(s.as_bytes());
    }

    /// Appends a quantity.
    pub fn write_quantity(&mut self, q: Quantity)
        ensures
            final(self)@ == old(self)@ + quantity(q),
    {
        proof {
            lemma_flatten_push(self.pieces@, Piece::Number(q));
        }
        self.pieces.push(Piece::Number(q));
    }

    /// Appends a value.
    pub fn write_number(&mut self, value: Scalar)
        ensures
            final(self)@ == old(self)@ + number(value),
    {
        self.write_quantity(Quantity::Value(value));
    }

    /// Appends the spacing of `cells` samples spread from `lo` to `hi`.
    pub fn write_spacing(&mut self, lo: Scalar, hi: Scalar, cells: usize)
        ensures
            final(self)@ == old(self)@ + quantity(Quantity::Spacing(lo, hi, cells)),
    {
        self.write_quantity(Quantity::Spacing(lo, hi, cells));
    }

    /// Appends an unsigned integer in decimal.
    pub fn write_uint(&mut self, n: u64)
        ensures
            final(self)@ == old(self)@ + decimal(n as int),
    {
        let v = decimal_digits(n);
        self.write_bytes(v.as_slice());
    }

    /// Appends a signed integer in decimal.
    pub fn write_int(&mut self, i: i64)
        ensures
            final(self)@ == old(self)@ + decimal(i as int),
    {
        if i < 0 {
            let magnitude: u64 = if i == i64::MIN {
                0x8000_0000_0000_0000
            } else {
                (-i) as u64
            };
            let mut v: Vec<u8> = Vec::new();
            v.push(45u8);
            let d = decimal_digits(magnitude);
            extend_bytes(&mut v, d.as_slice());
            self.write_bytes(v.as_slice());
        } else {
            self.write_uint(i as u64);
        }
    }

    /// Appends a copy of another script.
    pub fn write_all(&mut self, other: &Script)
        ensures
            final(self)@ == old(self)@ + other@,
    {
        let mut i: usize = 0;
        while i < other.pieces.len()
            invariant
                i <= other.pieces.len(),
                self@ == old(self)@ + flatten(other.pieces@.subrange(0, i as int)),
            decreases other.pieces.len() - i,
        {
            proof {
                assert(other.pieces@.subrange(0, i + 1).drop_last() =~= other.pieces@.subrange(
                    0,
                    i as int,
                ));
            }
            match &other.pieces[i] {
                Piece::Bytes(held) => {
                    self.write_bytes(held.as_slice());
                },
                Piece::Number(q) => {
                    self.write_quantity(*q);
                },
            }
            i = i + 1;
        }
        assert(other.pieces@.subrange(0, i as int) =~= other.pieces@);
    }

    /// The numbers of the script, in order.
    pub fn numbers(&self) -> (found: Vec<Quantity>)
        ensures
            found@ == quantities(self@),
    {
        let mut found: Vec<Quantity> = Vec::new();
        let mut i: usize = 0;
        while i < self.pieces.len()
            invariant
                i <= self.pieces.len(),
                found@ == quantities(flatten(self.pieces@.subrange(0, i as int))),
            decreases self.pieces.len() - i,
        {
            let ghost before = flatten(self.pieces@.subrange(0, i as int));
            proof {
                assert(self.pieces@.subrange(0, i + 1).drop_last() =~= self.pieces@.subrange(
                    0,
                    i as int,
                ));
            }
            match &self.pieces[i] {
                Piece::Bytes(held) => {
                    proof {
                        lemma_bytes_pass_through(before, held@, Seq::empty());
                    }
                },
                Piece::Number(q) => {
                    proof {
                        lemma_number_is_replaced(before, *q, Seq::empty());
                    }
                    found.push(*q);
                },
            }
            i = i + 1;
        }
        assert(self.pieces@.subrange(0, i as int) =~= self.pieces@);
        found
    }

    /// The bytes that go out, given the decimal form of each number of the
    /// script, in order. There must be one text for each number; with more
    /// or fewer, nothing goes out.
    pub fn assemble(&self, texts: &[Vec<u8>]) -> (out: Option<Vec<u8>>)
        ensures
            match out {
                Some(bytes) => texts@.len() == quantities(self@).len() && bytes@ == assembled(
                    self@,
                    texts_view(texts@),
                ),
                None => texts@.len() != quantities(self@).len(),
            },
    {
        let mut bytes: Vec<u8> = Vec::new();
        let mut used: usize = 0;
        let mut i: usize = 0;
        while i < self.pieces.len()
            invariant
                i <= self.pieces.len(),
                used <= texts@.len(),
                used == quantities(flatten(self.pieces@.subrange(0, i as int))).len(),
                bytes@ == assembled(
                    flatten(self.pieces@.subrange(0, i as int)),
                    texts_view(texts@),
                ),
            decreases self.pieces.len() - i,
        {
            let ghost before = flatten(self.pieces@.subrange(0, i as int));
            let ghost next = flatten(self.pieces@.subrange(0, i + 1));
            proof {
                assert(self.pieces@.subrange(0, i + 1).drop_last() =~= self.pieces@.subrange(
                    0,
                    i as int,
                ));
                assert(next == before + self.pieces@[i as int].atoms());
            }
            match &self.pieces[i] {
                Piece::Bytes(held) => {
                    proof {
                        lemma_bytes_pass_through(before, held@, texts_view(texts@));
                    }
                    extend_bytes(&mut bytes, held.as_slice());
                },
                Piece::Number(q) => {
                    proof {
                        lemma_number_is_replaced(before, *q, texts_view(texts@));
                        lemma_quantities_grow(next, self.pieces@, i + 1);
                    }
                    if used >= texts.len() {
                        return None;
                    }
                    extend_bytes(&mut bytes, texts[used].as_slice());
                    used = used + 1;
                },
            }
            i = i + 1;
        }
        assert(self.pieces@.subrange(0, i as int) =~= self.pieces@);
        if used == texts.len() {
            Some(bytes)
        } else {
            None
        }
    }
}

/// The texts of a list, each as the bytes it holds.
pub open spec fn texts_view(texts: Seq<Vec<u8>>) -> Seq<Seq<u8>> {
    Seq::new(texts.len(), |i: int| texts[i]@)
}

/// A script holds at least the numbers of each of its leading stretches.
proof fn lemma_quantities_grow(prefix: Seq<Atom>, pieces: Seq<Piece>, count: int)
    requires
        0 <= count <= pieces.len(),
        prefix == flatten(pieces.subrange(0, count)),
    ensures
        quantities(prefix).len() <= quantities(flatten(pieces)).len(),
    decreases pieces.len() - count,
{
    if count == pieces.len() {
        assert(pieces.subrange(0, count) =~= pieces);
    } else {
        let next = flatten(pieces.subrange(0, count + 1));
        assert(pieces.subrange(0, count + 1).drop_last() =~= pieces.subrange(0, count));
        assert(next == prefix + pieces[count].atoms());
        match pieces[count] {
            Piece::Bytes(held) => {
                lemma_bytes_pass_through(prefix, held@, Seq::empty());
            },
            Piece::Number(q) => {
                lemma_number_is_replaced(prefix, q, Seq::empty());
            },
        }
        lemma_quantities_grow(next, pieces, count + 1);
    }
}

} // verus!
