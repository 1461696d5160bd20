//! Printable forms of numbers, vectors and matrices.

use crate::fraction::Fractions;
use crate::matrix2d::{entry3, Matrix2D};
use crate::matrix3d::{entry4, Matrix3D};
use crate::scalar::Scalar;
use crate::vector::{component, Vector3D};
use crate::vector2d::Vector2D;
use vstd::prelude::*;
use vstd::string::StringExecFns;

verus! {

/// The character of a decimal digit.
pub open spec fn digit(d: int) -> char {
    if d == 0 {
        '0'
    } else if d == 1 {
        '1'
    } else if d == 2 {
        '2'
    } else if d == 3 {
        '3'
    } else if d == 4 {
        '4'
    } else if d == 5 {
        '5'
    } else if d == 6 {
        '6'
    } else if d == 7 {
        '7'
    } else if d == 8 {
        '8'
    } else {
        '9'
    }
}

/// The decimal digits of a natural number, without leading zeros.
pub open spec fn natural_text(n: nat) -> Seq<char>
    decreases n,
{
    if n < 10 {
        seq![digit(n as int)]
    } else {
        natural_text(n / 10).push(digit((n % 10) as int))
    }
}

/// The decimal form of an integer: a minus sign if it is negative, then its digits.
pub open spec fn integer_text(n: int) -> Seq<char> {
    if n < 0 {
        seq!['-'] + natural_text((-n) as nat)
    } else {
        natural_text(n as nat)
    }
}

/// The printed form of a rational in lowest terms: the numerator alone if it is a whole
/// number, and else numerator, a slash and denominator.
pub open spec fn scalar_text(s: Fractions) -> Seq<char> {
    if s.den == 1 {
        integer_text(s.num[0])
    } else {
        integer_text(s.num[0]) + "/"@ + integer_text(s.den)
    }
}

/// The printed form of a tuple of rationals from place `from` on, each after a comma and a
/// blank.
pub open spec fn rest_text(parts: Seq<Fractions>, from: int) -> Seq<char>
    decreases parts.len() - from,
{
    if from >= parts.len() {
        Seq::<char>::empty()
    } else {
        ", "@ + scalar_text(parts[from]) + rest_text(parts, from + 1)
    }
}

/// The printed form of a tuple of rationals: in square brackets, with a comma and a blank
/// between them.
pub open spec fn tuple_text(parts: Seq<Fractions>) -> Seq<char> {
    if parts.len() == 0 {
        "[]"@
    } else {
        "["@ + scalar_text(parts[0]) + rest_text(parts, 1) + "]"@
    }
}

/// Tabs, `count` of them.
pub open spec fn tabs(count: nat) -> Seq<char>
    decreases count,
{
    if count == 0 {
        Seq::<char>::empty()
    } else {
        tabs((count - 1) as nat) + "\t"@
    }
}

/// The printed form of a matrix from row `from` on, each row on a line of its own after a
/// comma, behind the indentation and a blank.
pub open spec fn rows_text(rows: Seq<Seq<Fractions>>, indentation: nat, from: int) -> Seq<char>
    decreases rows.len() - from,
{
    if from >= rows.len() {
        Seq::<char>::empty()
    } else {
        ",\n"@ + tabs(indentation) + " "@ + tuple_text(rows[from]) + rows_text(
            rows,
            indentation,
            from + 1,
        )
    }
}

/// The printed form of a matrix: its rows in square brackets, one to a line, behind
/// `indentation` tabs.
pub open spec fn matrix_text(rows: Seq<Seq<Fractions>>, indentation: nat) -> Seq<char> {
    tabs(indentation) + "["@ + tuple_text(rows[0]) + rows_text(rows, indentation, 1) + "]"@
}

/// The components of a vector, each in lowest terms.
pub open spec fn components(v: Fractions) -> Seq<Fractions> {
    Seq::new(v.num.len(), |i: int| component(v, i))
}

/// The rows of a 4x4 matrix, each entry in lowest terms.
pub open spec fn rows4(m: Fractions) -> Seq<Seq<Fractions>> {
    Seq::new(4, |i: int| Seq::new(4, |j: int| entry4(m, i, j)))
}

/// The rows of a 3x3 matrix, each entry in lowest terms.
pub open spec fn rows3(m: Fractions) -> Seq<Seq<Fractions>> {
    Seq::new(3, |i: int| Seq::new(3, |j: int| entry3(m, i, j)))
}

/// The character of a decimal digit, as a string.
fn digit_string(d: u64) -> (s: &'static str)
    requires
        d < 10,
    ensures
        s@ == seq![digit(d as int)],
{
    proof {
        reveal_strlit("0");
        reveal_strlit("1");
        reveal_strlit("2");
        reveal_strlit("3");
        reveal_strlit("4");
        reveal_strlit("5");
        reveal_strlit("6");
        reveal_strlit("7");
        reveal_strlit("8");
        reveal_strlit("9");
    }
    let s = if d == 0 {
        "0"
    } else if d == 1 {
        "1"
    } else if d == 2 {
        "2"
    } else if d == 3 {
        "3"
    } else if d == 4 {
        "4"
    } else if d == 5 {
        "5"
    } else if d == 6 {
        "6"
    } else if d == 7 {
        "7"
    } else if d == 8 {
        "8"
    } else {
        "9"
    };
    proof {
        assert(s@ =~= seq![digit(d as int)]);
    }
    s
}

/// The decimal digits of a natural number.
fn natural_string(n: u64) -> (r: String)
    ensures
        r@ == natural_text(n as nat),
    decreases n,
{
    if n < 10 {
        String::from_str(digit_string(n))
    } else {
        let r = natural_string(n / 10).concat(digit_string(n % 10));
        proof {
            assert(r@ =~= natural_text((n / 10) as nat).push(digit((n % 10) as int)));
        }
        r
    }
}

/// The decimal form of an integer.
fn integer_string(n: i64) -> (r: String)
    ensures
        r@ == integer_text(n as int),
{
    if n < 0 {
        let magnitude: u64 = (-(n + 1)) as u64 + 1;
        proof {
            reveal_strlit("-");
            assert("-"@ =~= seq!['-']);
        }
        String::from_str("-").concat(natural_string(magnitude).as_str())
    } else {
        natural_string(n as u64)
    }
}

/// `count` tabs.
fn tab_string(count: usize) -> (r: String)
    ensures
        r@ == tabs(count as nat),
{
    let mut out = String::new();
    let mut i: usize = 0;
    while i < count
        invariant
            0 <= i <= count,
            out@ == tabs(i as nat),
        decreases count - i,
    {
        out.append("\t");
        i = i + 1;
    }
    out
}

/// The printed form of a tuple of numbers.
fn tuple_string(parts: &Vec<Scalar>) -> (r: String)
    ensures
        r@ == tuple_text(parts@.map_values(|s: Scalar| s@)),
{
    let ghost views = parts@.map_values(|s: Scalar| s@);
    if parts.len() == 0 {
        return String::from_str("[]");
    }
    let mut i: usize = parts.len();
    let mut rest = String::new();
    while i > 1
        invariant
            1 <= i <= parts.len(),
            views == parts@.map_values(|s: Scalar| s@),
            rest@ == rest_text(views, i as int),
        decreases i,
    {
        i = i - 1;
        let piece = String::from_str(", ").concat(parts[i].to_text().as_str()).concat(
            rest.as_str(),
        );
        proof {
            assert(views[i as int] == parts@[i as int]@);
        }
        rest = piece;
    }
    proof {
        assert(views[0] == parts@[0]@);
    }
    String::from_str("[").concat(parts[0].to_text().as_str()).concat(rest.as_str()).concat("]")
}

impl Scalar {
    /// The printed form: the numerator alone for a whole number, and else numerator, a
    /// slash and denominator.
    pub fn to_text(&self) -> (r: String)
        ensures
            r@ == scalar_text(self@),
    {
        if self.denominator() == 1 {
            integer_string(self.numerator())
        } else {
            integer_string(self.numerator()).concat("/").concat(
                integer_string(self.denominator()).as_str(),
            )
        }
    }
}

impl Vector3D {
    /// The printed form: the four components in square brackets.
    pub fn display(&self) -> (r: String)
        ensures
            r@ == tuple_text(components(self@)),
    {
        proof {
            use_type_invariant(self);
        }
        let parts: Vec<Scalar> = vec![self.get(0), self.get(1), self.get(2), self.get(3)];
        proof {
            assert(parts@.map_values(|s: Scalar| s@) =~= components(self@));
        }
        tuple_string(&parts)
    }
}

impl Vector2D {
    /// The printed form: the three components in square brackets.
    pub fn display(&self) -> (r: String)
        ensures
            r@ == tuple_text(components(self@)),
    {
        proof {
            use_type_invariant(self);
        }
        let parts: Vec<Scalar> = vec![self.get(0), self.get(1), self.get(2)];
        proof {
            assert(parts@.map_values(|s: Scalar| s@) =~= components(self@));
        }
        tuple_string(&parts)
    }
}

impl Matrix3D {
    /// The printed form of row `i`.
    fn row_string(&self, i: usize) -> (r: String)
        requires
            i < 4,
        ensures
            r@ == tuple_text(rows4(self@)[i as int]),
    {
        let parts: Vec<Scalar> = vec![
            self.entry(i, 0),
            self.entry(i, 1),
            self.entry(i, 2),
            self.entry(i, 3),
        ];
        proof {
            assert(parts@.map_values(|s: Scalar| s@) =~= rows4(self@)[i as int]);
        }
        tuple_string(&parts)
    }

    /// The printed form: the four rows in square brackets, one to a line, behind
    /// `indentation` tabs.
    pub fn display(&self, indentation: usize) -> (r: String)
        ensures
            r@ == matrix_text(rows4(self@), indentation as nat),
    {
        let ghost rows = rows4(self@);
        let indent = tab_string(indentation);
        let mut i: usize = 4;
        let mut rest = String::new();
        while i > 1
            invariant
                1 <= i <= 4,
                rows == rows4(self@),
                indent@ == tabs(indentation as nat),
                rest@ == rows_text(rows, indentation as nat, i as int),
            decreases i,
        {
            i = i - 1;
            let line = String::from_str(",\n").concat(indent.as_str()).concat(" ").concat(
                self.row_string(i).as_str(),
            ).concat(rest.as_str());
            rest = line;
        }
        indent.concat("[").concat(self.row_string(0).as_str()).concat(rest.as_str()).concat("]")
    }
}

impl Matrix2D {
    /// The printed form of row `i`.
    fn row_string(&self, i: usize) -> (r: String)
        requires
            i < 3,
        ensures
            r@ == tuple_text(rows3(self@)[i as int]),
    {
        let parts: Vec<Scalar> = vec![self.entry(i, 0), self.entry(i, 1), self.entry(i, 2)];
        proof {
            assert(parts@.map_values(|s: Scalar| s@) =~= rows3(self@)[i as int]);
        }
        tuple_string(&parts)
    }

    /// The printed form: the three rows in square brackets, one to a line, behind
    /// `indentation` tabs.
    pub fn display(&self, indentation: usize) -> (r: String)
        ensures
            r@ == matrix_text(rows3(self@), indentation as nat),
    {
        let ghost rows = rows3(self@);
        let indent = tab_string(indentation);
        let mut i: usize = 3;
        let mut rest = String::new();
        while i > 1
            invariant
                1 <= i <= 3,
                rows == rows3(self@),
                indent@ == tabs(indentation as nat),
                rest@ == rows_text(rows, indentation as nat, i as int),
            decreases i,
        {
            i = i - 1;
            let line = String::from_str(",\n").concat(indent.as_str()).concat(" ").concat(
                self.row_string(i).as_str(),
            ).concat(rest.as_str());
            rest = line;
        }
        indent.concat("[").concat(self.row_string(0).as_str()).concat(rest.as_str()).concat("]")
    }
}

} // verus!
