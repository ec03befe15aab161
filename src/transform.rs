//! Transform functions and lists: parsing from tokens, printing, and choice of
//! the shortest printed form.
use vstd::prelude::*;
use crate::number::{Decimal, decimal_text};
use crate::values::{
    LengthUnit, Length, LengthPercentage, Angle, NumberOrPercentage, length_text, length_percentage_text,
    angle_text, number_or_percentage_text, lp_is_zero, np_is_one, angle_value, length_of,
    length_percentage_of, angle_of, number_or_percentage_of, number_from_token,
};
use crate::matrix::{Matrix, Matrix3d, spec_is_2d};
use crate::token::{Token, ParseError, keyword_eq, is_keyword, keyword_at, matches_keyword, arguments_from, parse_arguments};

verus! {

/// One function of a `transform` list.
#[derive(Clone, Copy, Debug, PartialEq, Eq, Structural)]
pub enum Transform {
    Translate(LengthPercentage, LengthPercentage),
    TranslateX(LengthPercentage),
    TranslateY(LengthPercentage),
    TranslateZ(Length),
    Translate3d(LengthPercentage, LengthPercentage, Length),
    Scale(NumberOrPercentage, NumberOrPercentage),
    ScaleX(NumberOrPercentage),
    ScaleY(NumberOrPercentage),
    ScaleZ(NumberOrPercentage),
    Scale3d(NumberOrPercentage, NumberOrPercentage, NumberOrPercentage),
    Rotate(Angle),
    RotateX(Angle),
    RotateY(Angle),
    RotateZ(Angle),
    Rotate3d(Decimal, Decimal, Decimal, Angle),
    Skew(Angle, Angle),
    SkewX(Angle),
    SkewY(Angle),
    Perspective(Length),
    Matrix(Matrix<Decimal>),
    Matrix3d(Matrix3d<Decimal>),
}

/// One printed argument of a function.
#[derive(Clone, Copy, Debug, PartialEq, Eq, Structural)]
pub enum CallArg {
    Number(Decimal),
    LengthPercentage(LengthPercentage),
    Length(Length),
    Angle(Angle),
    Factor(NumberOrPercentage),
}

pub open spec fn arg_text(a: CallArg) -> Seq<char> {
    match a {
        CallArg::Number(v) => decimal_text(v),
        CallArg::LengthPercentage(lp) => length_percentage_text(lp),
        CallArg::Length(l) => length_text(l),
        CallArg::Angle(an) => angle_text(an),
        CallArg::Factor(n) => number_or_percentage_text(n),
    }
}

/// The argument texts joined by `sep`.
pub open spec fn args_text(args: Seq<CallArg>, sep: Seq<char>) -> Seq<char>
    decreases args.len(),
{
    if args.len() == 0 {
        Seq::empty()
    } else if args.len() == 1 {
        arg_text(args[0])
    } else {
        args_text(args.drop_last(), sep) + sep + arg_text(args.last())
    }
}

/// The delimiter between arguments: a comma, followed by a space unless minifying.
pub open spec fn separator(minify: bool) -> Seq<char> {
    if minify {
        ","@
    } else {
        ", "@
    }
}

pub open spec fn call_text(name: Seq<char>, args: Seq<CallArg>, minify: bool) -> Seq<char> {
    name + "("@ + args_text(args, separator(minify)) + ")"@
}

pub open spec fn lp(x: LengthPercentage) -> CallArg {
    CallArg::LengthPercentage(x)
}

pub open spec fn fa(x: NumberOrPercentage) -> CallArg {
    CallArg::Factor(x)
}

pub open spec fn an(x: Angle) -> CallArg {
    CallArg::Angle(x)
}

pub open spec fn nu(x: Decimal) -> CallArg {
    CallArg::Number(x)
}

/// The function name and arguments under which a transform is printed. When
/// minifying, a function whose other axes hold the identity value is written
/// as the shorter single-axis or 2D function.
pub open spec fn spec_call(t: Transform, minify: bool) -> (Seq<char>, Seq<CallArg>) {
    match t {
        Transform::Translate(x, y) => if minify && lp_is_zero(x) && !lp_is_zero(y) {
            ("translateY"@, seq![lp(y)])
        } else if !lp_is_zero(y) {
            ("translate"@, seq![lp(x), lp(y)])
        } else {
            ("translate"@, seq![lp(x)])
        },
        Transform::TranslateX(x) => (
            if minify {
                "translate"@
            } else {
                "translateX"@
            },
            seq![lp(x)],
        ),
        Transform::TranslateY(y) => ("translateY"@, seq![lp(y)]),
        Transform::TranslateZ(z) => ("translateZ"@, seq![CallArg::Length(z)]),
        Transform::Translate3d(x, y, z) => {
            let zz = z.value.scaled == 0;
            if minify && !lp_is_zero(x) && lp_is_zero(y) && zz {
                ("translate"@, seq![lp(x)])
            } else if minify && lp_is_zero(x) && !lp_is_zero(y) && zz {
                ("translateY"@, seq![lp(y)])
            } else if minify && lp_is_zero(x) && lp_is_zero(y) && !zz {
                ("translateZ"@, seq![CallArg::Length(z)])
            } else if minify && zz {
                ("translate"@, seq![lp(x), lp(y)])
            } else {
                ("translate3d"@, seq![lp(x), lp(y), CallArg::Length(z)])
            }
        },
        Transform::Scale(x, y) => if minify && np_is_one(x) && !np_is_one(y) {
            ("scaleY"@, seq![fa(y)])
        } else if minify && !np_is_one(x) && np_is_one(y) {
            ("scaleX"@, seq![fa(x)])
        } else if y != x {
            ("scale"@, seq![fa(x), fa(y)])
        } else {
            ("scale"@, seq![fa(x)])
        },
        Transform::ScaleX(x) => ("scaleX"@, seq![fa(x)]),
        Transform::ScaleY(y) => ("scaleY"@, seq![fa(y)]),
        Transform::ScaleZ(z) => ("scaleZ"@, seq![fa(z)]),
        Transform::Scale3d(x, y, z) => if minify && np_is_one(z) && x == y {
            ("scale"@, seq![fa(x)])
        } else if minify && !np_is_one(x) && np_is_one(y) && np_is_one(z) {
            ("scaleX"@, seq![fa(x)])
        } else if minify && np_is_one(x) && !np_is_one(y) && np_is_one(z) {
            ("scaleY"@, seq![fa(y)])
        } else if minify && np_is_one(x) && np_is_one(y) && !np_is_one(z) {
            ("scaleZ"@, seq![fa(z)])
        } else if minify && np_is_one(z) {
            ("scale"@, seq![fa(x), fa(y)])
        } else {
            ("scale3d"@, seq![fa(x), fa(y), fa(z)])
        },
        Transform::Rotate(a) => ("rotate"@, seq![an(a)]),
        Transform::RotateX(a) => ("rotateX"@, seq![an(a)]),
        Transform::RotateY(a) => ("rotateY"@, seq![an(a)]),
        Transform::RotateZ(a) => (
            if minify {
                "rotate"@
            } else {
                "rotateZ"@
            },
            seq![an(a)],
        ),
        Transform::Rotate3d(x, y, z, a) => {
            let one = Decimal { scaled: crate::number::DECIMAL_SCALE };
            let zero = Decimal { scaled: 0 };
            if minify && x == one && y == zero && z == zero {
                ("rotateX"@, seq![an(a)])
            } else if minify && x == zero && y == one && z == zero {
                ("rotateY"@, seq![an(a)])
            } else if minify && x == zero && y == zero && z == one {
                ("rotate"@, seq![an(a)])
            } else {
                ("rotate3d"@, seq![nu(x), nu(y), nu(z), an(a)])
            }
        },
        Transform::Skew(x, y) => {
            let xz = angle_value(x).scaled == 0;
            let yz = angle_value(y).scaled == 0;
            if minify && xz && !yz {
                ("skewY"@, seq![an(y)])
            } else if !yz {
                ("skew"@, seq![an(x), an(y)])
            } else {
                ("skew"@, seq![an(x)])
            }
        },
        Transform::SkewX(a) => (
            if minify {
                "skew"@
            } else {
                "skewX"@
            },
            seq![an(a)],
        ),
        Transform::SkewY(a) => ("skewY"@, seq![an(a)]),
        Transform::Perspective(l) => ("perspective"@, seq![CallArg::Length(l)]),
        Transform::Matrix(m) => ("matrix"@, seq![nu(m.a), nu(m.b), nu(m.c), nu(m.d), nu(m.e), nu(m.f)]),
        Transform::Matrix3d(m) => (
            "matrix3d"@,
            seq![
                nu(m.m11), nu(m.m12), nu(m.m13), nu(m.m14),
                nu(m.m21), nu(m.m22), nu(m.m23), nu(m.m24),
                nu(m.m31), nu(m.m32), nu(m.m33), nu(m.m34),
                nu(m.m41), nu(m.m42), nu(m.m43), nu(m.m44),
            ],
        ),
    }
}

/// The text of one transform function.
pub open spec fn transform_text(t: Transform, minify: bool) -> Seq<char> {
    call_text(spec_call(t, minify).0, spec_call(t, minify).1, minify)
}

impl CallArg {
    pub fn write_to(&self, out: &mut String)
        ensures
            final(out)@ == old(out)@ + arg_text(*self),
    {
        match self {
            CallArg::Number(v) => v.write_to(out),
            CallArg::LengthPercentage(x) => x.write_to(out),
            CallArg::Length(x) => x.write_to(out),
            CallArg::Angle(x) => x.write_to(out),
            CallArg::Factor(x) => x.write_to(out),
        }
    }
}

/// Appends `name(arg, arg, ...)`.
pub fn write_call(out: &mut String, name: &str, args: &Vec<CallArg>, minify: bool)
    ensures
        final(out)@ == old(out)@ + call_text(name@, args@, minify),
{
    let ghost start = out@;
    out.append(name);
    out.append("(");
    let ghost open_at = out@;
    let sep = if minify {
        ","
    } else {
        ", "
    };
    let mut i: usize = 0;
    while i < args.len()
        invariant
            i <= args@.len(),
            sep@ == separator(minify),
            out@ == open_at + args_text(args@.take(i as int), separator(minify)),
        decreases args@.len() - i,
    {
        let ghost before = out@;
        if i > 0 {
            out.append(sep);
        }
        args[i].write_to(out);
        proof {
            let s = args@.take((i + 1) as int);
            assert(s.drop_last() =~= args@.take(i as int));
            assert(s.last() == args@[i as int]);
            if i == 0 {
                assert(args@.take(0) =~= Seq::<CallArg>::empty());
            }
        }
        i = i + 1;
    }
    assert(args@.take(args@.len() as int) =~= args@);
    out.append(")");
    assert(out@ =~= start + call_text(name@, args@, minify));
}

impl Transform {
    /// The function name and arguments under which the transform is printed.
    pub fn call(&self, minify: bool) -> (r: (&'static str, Vec<CallArg>))
        ensures
            r.0@ == spec_call(*self, minify).0,
            r.1@ == spec_call(*self, minify).1,
    {
        match self {
            Transform::Translate(x, y) => if minify && x.is_zero() && !y.is_zero() {
                ("translateY", vec![CallArg::LengthPercentage(*y)])
            } else if !y.is_zero() {
                ("translate", vec![CallArg::LengthPercentage(*x), CallArg::LengthPercentage(*y)])
            } else {
                ("translate", vec![CallArg::LengthPercentage(*x)])
            },
            Transform::TranslateX(x) => (
                if minify {
                    "translate"
                } else {
                    "translateX"
                },
                vec![CallArg::LengthPercentage(*x)],
            ),
            Transform::TranslateY(y) => ("translateY", vec![CallArg::LengthPercentage(*y)]),
            Transform::TranslateZ(z) => ("translateZ", vec![CallArg::Length(*z)]),
            Transform::Translate3d(x, y, z) => {
                let zz = z.value.scaled == 0;
                if minify && !x.is_zero() && y.is_zero() && zz {
                    ("translate", vec![CallArg::LengthPercentage(*x)])
                } else if minify && x.is_zero() && !y.is_zero() && zz {
                    ("translateY", vec![CallArg::LengthPercentage(*y)])
                } else if minify && x.is_zero() && y.is_zero() && !zz {
                    ("translateZ", vec![CallArg::Length(*z)])
                } else if minify && zz {
                    ("translate", vec![CallArg::LengthPercentage(*x), CallArg::LengthPercentage(*y)])
                } else {
                    (
                        "translate3d",
                        vec![
                            CallArg::LengthPercentage(*x),
                            CallArg::LengthPercentage(*y),
                            CallArg::Length(*z),
                        ],
                    )
                }
            },
            Transform::Scale(x, y) => if minify && x.is_one() && !y.is_one() {
                ("scaleY", vec![CallArg::Factor(*y)])
            } else if minify && !x.is_one() && y.is_one() {
                ("scaleX", vec![CallArg::Factor(*x)])
            } else if *y != *x {
                ("scale", vec![CallArg::Factor(*x), CallArg::Factor(*y)])
            } else {
                ("scale", vec![CallArg::Factor(*x)])
            },
            Transform::ScaleX(x) => ("scaleX", vec![CallArg::Factor(*x)]),
            Transform::ScaleY(y) => ("scaleY", vec![CallArg::Factor(*y)]),
            Transform::ScaleZ(z) => ("scaleZ", vec![CallArg::Factor(*z)]),
            Transform::Scale3d(x, y, z) => if minify && z.is_one() && *x == *y {
                ("scale", vec![CallArg::Factor(*x)])
            } else if minify && !x.is_one() && y.is_one() && z.is_one() {
                ("scaleX", vec![CallArg::Factor(*x)])
            } else if minify && x.is_one() && !y.is_one() && z.is_one() {
                ("scaleY", vec![CallArg::Factor(*y)])
            } else if minify && x.is_one() && y.is_one() && !z.is_one() {
                ("scaleZ", vec![CallArg::Factor(*z)])
            } else if minify && z.is_one() {
                ("scale", vec![CallArg::Factor(*x), CallArg::Factor(*y)])
            } else {
                ("scale3d", vec![CallArg::Factor(*x), CallArg::Factor(*y), CallArg::Factor(*z)])
            },
            Transform::Rotate(a) => ("rotate", vec![CallArg::Angle(*a)]),
            Transform::RotateX(a) => ("rotateX", vec![CallArg::Angle(*a)]),
            Transform::RotateY(a) => ("rotateY", vec![CallArg::Angle(*a)]),
            Transform::RotateZ(a) => (
                if minify {
                    "rotate"
                } else {
                    "rotateZ"
                },
                vec![CallArg::Angle(*a)],
            ),
            Transform::Rotate3d(x, y, z, a) => {
                let one = Decimal { scaled: crate::number::DECIMAL_SCALE };
                let zero = Decimal { scaled: 0 };
                if minify && *x == one && *y == zero && *z == zero {
                    ("rotateX", vec![CallArg::Angle(*a)])
                } else if minify && *x == zero && *y == one && *z == zero {
                    ("rotateY", vec![CallArg::Angle(*a)])
                } else if minify && *x == zero && *y == zero && *z == one {
                    ("rotate", vec![CallArg::Angle(*a)])
                } else {
                    (
                        "rotate3d",
                        vec![
                            CallArg::Number(*x),
                            CallArg::Number(*y),
                            CallArg::Number(*z),
                            CallArg::Angle(*a),
                        ],
                    )
                }
            },
            Transform::Skew(x, y) => {
                let xz = x.is_zero();
                let yz = y.is_zero();
                if minify && xz && !yz {
                    ("skewY", vec![CallArg::Angle(*y)])
                } else if !yz {
                    ("skew", vec![CallArg::Angle(*x), CallArg::Angle(*y)])
                } else {
                    ("skew", vec![CallArg::Angle(*x)])
                }
            },
            Transform::SkewX(a) => (
                if minify {
                    "skew"
                } else {
                    "skewX"
                },
                vec![CallArg::Angle(*a)],
            ),
            Transform::SkewY(a) => ("skewY", vec![CallArg::Angle(*a)]),
            Transform::Perspective(l) => ("perspective", vec![CallArg::Length(*l)]),
            Transform::Matrix(m) => (
                "matrix",
                vec![
                    CallArg::Number(m.a),
                    CallArg::Number(m.b),
                    CallArg::Number(m.c),
                    CallArg::Number(m.d),
                    CallArg::Number(m.e),
                    CallArg::Number(m.f),
                ],
            ),
            Transform::Matrix3d(m) => (
                "matrix3d",
                vec![
                    CallArg::Number(m.m11), CallArg::Number(m.m12), CallArg::Number(m.m13),
                    CallArg::Number(m.m14), CallArg::Number(m.m21), CallArg::Number(m.m22),
                    CallArg::Number(m.m23), CallArg::Number(m.m24), CallArg::Number(m.m31),
                    CallArg::Number(m.m32), CallArg::Number(m.m33), CallArg::Number(m.m34),
                    CallArg::Number(m.m41), CallArg::Number(m.m42), CallArg::Number(m.m43),
                    CallArg::Number(m.m44),
                ],
            ),
        }
    }

    /// Appends the transform's text.
    pub fn write_to(&self, out: &mut String, minify: bool)
        ensures
            final(out)@ == old(out)@ + transform_text(*self, minify),
    {
        let (name, args) = self.call(minify);
        write_call(out, name, &args, minify);
    }

    /// The transform's text.
    pub fn to_css(&self, minify: bool) -> (r: String)
        ensures
            r@ == transform_text(*self, minify),
    {
        let mut out = String::new();
        self.write_to(&mut out, minify);
        assert(out@ =~= transform_text(*self, minify));
        out
    }
}

/// The argument at `i` read as a length or percentage.
pub open spec fn lp_at(args: Seq<Token>, i: int) -> Option<LengthPercentage> {
    if 0 <= i < args.len() {
        length_percentage_of(args[i])
    } else {
        None
    }
}

pub open spec fn length_at(args: Seq<Token>, i: int) -> Option<Length> {
    if 0 <= i < args.len() {
        length_of(args[i])
    } else {
        None
    }
}

pub open spec fn factor_at(args: Seq<Token>, i: int) -> Option<NumberOrPercentage> {
    if 0 <= i < args.len() {
        number_or_percentage_of(args[i])
    } else {
        None
    }
}

pub open spec fn angle_at(args: Seq<Token>, i: int) -> Option<Angle> {
    if 0 <= i < args.len() {
        angle_of(args[i])
    } else {
        None
    }
}

/// The value of a number token; zero for any other token.
pub open spec fn number_value(t: Token) -> Decimal {
    match t {
        Token::Number(v) => v,
        _ => Decimal { scaled: 0 },
    }
}

pub open spec fn all_numbers(args: Seq<Token>, n: int) -> bool {
    args.len() >= n && forall|i: int| 0 <= i < n ==> (#[trigger] args[i]) is Number
}

pub open spec fn num(args: Seq<Token>, i: int) -> Decimal {
    number_value(args[i])
}

/// The transform that a function named `name` with arguments `args` denotes.
/// Names match ignoring ASCII case; `translate`, `scale` and `skew` take an
/// optional second argument.
pub open spec fn transform_of_call(name: Seq<char>, args: Seq<Token>) -> Option<Transform> {
    let n = args.len();
    if keyword_eq(name, "matrix"@) {
        if n == 6 && all_numbers(args, 6) {
            Some(
                Transform::Matrix(
                    Matrix {
                        a: num(args, 0),
                        b: num(args, 1),
                        c: num(args, 2),
                        d: num(args, 3),
                        e: num(args, 4),
                        f: num(args, 5),
                    },
                ),
            )
        } else {
            None
        }
    } else if keyword_eq(name, "matrix3d"@) {
        if n == 16 && all_numbers(args, 16) {
            Some(
                Transform::Matrix3d(
                    Matrix3d {
                        m11: num(args, 0), m12: num(args, 1), m13: num(args, 2), m14: num(args, 3),
                        m21: num(args, 4), m22: num(args, 5), m23: num(args, 6), m24: num(args, 7),
                        m31: num(args, 8), m32: num(args, 9), m33: num(args, 10), m34: num(args, 11),
                        m41: num(args, 12), m42: num(args, 13), m43: num(args, 14), m44: num(args, 15),
                    },
                ),
            )
        } else {
            None
        }
    } else if keyword_eq(name, "translate"@) {
        match (lp_at(args, 0), lp_at(args, 1)) {
            (Some(x), Some(y)) => if n == 2 {
                Some(Transform::Translate(x, y))
            } else {
                None
            },
            (Some(x), _) => if n == 1 {
                Some(
                    Transform::Translate(
                        x,
                        LengthPercentage::Dimension(
                            Length { value: Decimal { scaled: 0 }, unit: LengthUnit::Px },
                        ),
                    ),
                )
            } else {
                None
            },
            _ => None,
        }
    } else if keyword_eq(name, "translatex"@) {
        match lp_at(args, 0) {
            Some(x) => if n == 1 {
                Some(Transform::TranslateX(x))
            } else {
                None
            },
            None => None,
        }
    } else if keyword_eq(name, "translatey"@) {
        match lp_at(args, 0) {
            Some(y) => if n == 1 {
                Some(Transform::TranslateY(y))
            } else {
                None
            },
            None => None,
        }
    } else if keyword_eq(name, "translatez"@) {
        match length_at(args, 0) {
            Some(z) => if n == 1 {
                Some(Transform::TranslateZ(z))
            } else {
                None
            },
            None => None,
        }
    } else if keyword_eq(name, "translate3d"@) {
        match (lp_at(args, 0), lp_at(args, 1), length_at(args, 2)) {
            (Some(x), Some(y), Some(z)) => if n == 3 {
                Some(Transform::Translate3d(x, y, z))
            } else {
                None
            },
            _ => None,
        }
    } else if keyword_eq(name, "scale"@) {
        match (factor_at(args, 0), factor_at(args, 1)) {
            (Some(x), Some(y)) => if n == 2 {
                Some(Transform::Scale(x, y))
            } else {
                None
            },
            (Some(x), _) => if n == 1 {
                Some(Transform::Scale(x, x))
            } else {
                None
            },
            _ => None,
        }
    } else if keyword_eq(name, "scalex"@) {
        match factor_at(args, 0) {
            Some(x) => if n == 1 {
                Some(Transform::ScaleX(x))
            } else {
                None
            },
            None => None,
        }
    } else if keyword_eq(name, "scaley"@) {
        match factor_at(args, 0) {
            Some(y) => if n == 1 {
                Some(Transform::ScaleY(y))
            } else {
                None
            },
            None => None,
        }
    } else if keyword_eq(name, "scalez"@) {
        match factor_at(args, 0) {
            Some(z) => if n == 1 {
                Some(Transform::ScaleZ(z))
            } else {
                None
            },
            None => None,
        }
    } else if keyword_eq(name, "scale3d"@) {
        match (factor_at(args, 0), factor_at(args, 1), factor_at(args, 2)) {
            (Some(x), Some(y), Some(z)) => if n == 3 {
                Some(Transform::Scale3d(x, y, z))
            } else {
                None
            },
            _ => None,
        }
    } else if keyword_eq(name, "rotate"@) || keyword_eq(name, "rotatex"@) || keyword_eq(
        name,
        "rotatey"@,
    ) || keyword_eq(name, "rotatez"@) || keyword_eq(name, "skewx"@) || keyword_eq(
        name,
        "skewy"@,
    ) {
        match angle_at(args, 0) {
            Some(a) => if n != 1 {
                None
            } else if keyword_eq(name, "rotate"@) {
                Some(Transform::Rotate(a))
            } else if keyword_eq(name, "rotatex"@) {
                Some(Transform::RotateX(a))
            } else if keyword_eq(name, "rotatey"@) {
                Some(Transform::RotateY(a))
            } else if keyword_eq(name, "rotatez"@) {
                Some(Transform::RotateZ(a))
            } else if keyword_eq(name, "skewx"@) {
                Some(Transform::SkewX(a))
            } else {
                Some(Transform::SkewY(a))
            },
            None => None,
        }
    } else if keyword_eq(name, "rotate3d"@) {
        match angle_at(args, 3) {
            Some(a) => if n == 4 && all_numbers(args, 3) {
                Some(Transform::Rotate3d(num(args, 0), num(args, 1), num(args, 2), a))
            } else {
                None
            },
            None => None,
        }
    } else if keyword_eq(name, "skew"@) {
        match (angle_at(args, 0), angle_at(args, 1)) {
            (Some(x), Some(y)) => if n == 2 {
                Some(Transform::Skew(x, y))
            } else {
                None
            },
            (Some(x), _) => if n == 1 {
                Some(Transform::Skew(x, Angle::Deg(Decimal { scaled: 0 })))
            } else {
                None
            },
            _ => None,
        }
    } else if keyword_eq(name, "perspective"@) {
        match length_at(args, 0) {
            Some(l) => if n == 1 {
                Some(Transform::Perspective(l))
            } else {
                None
            },
            None => None,
        }
    } else {
        None
    }
}

/// The transform function that starts at token `pos`, and the index after it.
pub open spec fn transform_at(toks: Seq<Token>, pos: int) -> Option<(Transform, int)> {
    if 0 <= pos < toks.len() {
        match toks[pos] {
            Token::Function(name) => match arguments_from(toks, pos + 1) {
                Some((args, end)) => match transform_of_call(name@, args) {
                    Some(t) => Some((t, end)),
                    None => None,
                },
                None => None,
            },
            _ => None,
        }
    } else {
        None
    }
}

fn lp_arg(args: &Vec<Token>, i: usize) -> (r: Option<LengthPercentage>)
    ensures
        r == lp_at(args@, i as int),
{
    if i < args.len() {
        LengthPercentage::from_token(&args[i])
    } else {
        None
    }
}

fn length_arg(args: &Vec<Token>, i: usize) -> (r: Option<Length>)
    ensures
        r == length_at(args@, i as int),
{
    if i < args.len() {
        Length::from_token(&args[i])
    } else {
        None
    }
}

fn factor_arg(args: &Vec<Token>, i: usize) -> (r: Option<NumberOrPercentage>)
    ensures
        r == factor_at(args@, i as int),
{
    if i < args.len() {
        NumberOrPercentage::from_token(&args[i])
    } else {
        None
    }
}

fn angle_arg(args: &Vec<Token>, i: usize) -> (r: Option<Angle>)
    ensures
        r == angle_at(args@, i as int),
{
    if i < args.len() {
        Angle::from_token(&args[i])
    } else {
        None
    }
}

/// The values of the first `n` arguments, when all of them are numbers.
fn number_args(args: &Vec<Token>, n: usize) -> (r: Option<Vec<Decimal>>)
    ensures
        match r {
            Some(v) => all_numbers(args@, n as int) && v@.len() == n && forall|i: int|
                0 <= i < n ==> v@[i] == num(args@, i),
            None => !all_numbers(args@, n as int),
        },
{
    if args.len() < n {
        return None;
    }
    let mut out: Vec<Decimal> = Vec::new();
    let mut i: usize = 0;
    while i < n
        invariant
            i <= n <= args@.len(),
            out@.len() == i,
            forall|j: int| 0 <= j < i ==> (#[trigger] args@[j]) is Number,
            forall|j: int| 0 <= j < i ==> #[trigger] out@[j] == num(args@, j),
        decreases n - i,
    {
        match number_from_token(&args[i]) {
            Some(v) => {
                out.push(v);
            },
            None => {
                assert(!(args@[i as int] is Number));
                return None;
            },
        }
        i = i + 1;
    }
    Some(out)
}

impl Transform {
    /// The transform that a function named `name` with arguments `args` denotes.
    pub fn from_call(name: &str, args: &Vec<Token>) -> (r: Option<Transform>)
        ensures
            r == transform_of_call(name@, args@),
    {
        let n = args.len();
        if matches_keyword(name, "matrix") {
            if n != 6 {
                return None;
            }
            match number_args(args, 6) {
                Some(v) => Some(
                    Transform::Matrix(Matrix { a: v[0], b: v[1], c: v[2], d: v[3], e: v[4], f: v[5] }),
                ),
                None => None,
            }
        } else if matches_keyword(name, "matrix3d") {
            if n != 16 {
                return None;
            }
            match number_args(args, 16) {
                Some(v) => Some(
                    Transform::Matrix3d(
                        Matrix3d {
                            m11: v[0], m12: v[1], m13: v[2], m14: v[3],
                            m21: v[4], m22: v[5], m23: v[6], m24: v[7],
                            m31: v[8], m32: v[9], m33: v[10], m34: v[11],
                            m41: v[12], m42: v[13], m43: v[14], m44: v[15],
                        },
                    ),
                ),
                None => None,
            }
        } else if matches_keyword(name, "translate") {
            match (lp_arg(args, 0), lp_arg(args, 1)) {
                (Some(x), Some(y)) => if n == 2 {
                    Some(Transform::Translate(x, y))
                } else {
                    None
                },
                (Some(x), _) => if n == 1 {
                    Some(Transform::Translate(x, LengthPercentage::zero()))
                } else {
                    None
                },
                _ => None,
            }
        } else if matches_keyword(name, "translatex") {
            match lp_arg(args, 0) {
                Some(x) => if n == 1 {
                    Some(Transform::TranslateX(x))
                } else {
                    None
                },
                None => None,
            }
        } else if matches_keyword(name, "translatey") {
            match lp_arg(args, 0) {
                Some(y) => if n == 1 {
                    Some(Transform::TranslateY(y))
                } else {
                    None
                },
                None => None,
            }
        } else if matches_keyword(name, "translatez") {
            match length_arg(args, 0) {
                Some(z) => if n == 1 {
                    Some(Transform::TranslateZ(z))
                } else {
                    None
                },
                None => None,
            }
        } else if matches_keyword(name, "translate3d") {
            match (lp_arg(args, 0), lp_arg(args, 1), length_arg(args, 2)) {
                (Some(x), Some(y), Some(z)) => if n == 3 {
                    Some(Transform::Translate3d(x, y, z))
                } else {
                    None
                },
                _ => None,
            }
        } else if matches_keyword(name, "scale") {
            match (factor_arg(args, 0), factor_arg(args, 1)) {
                (Some(x), Some(y)) => if n == 2 {
                    Some(Transform::Scale(x, y))
                } else {
                    None
                },
                (Some(x), _) => if n == 1 {
                    Some(Transform::Scale(x, x))
                } else {
                    None
                },
                _ => None,
            }
        } else if matches_keyword(name, "scalex") {
            match factor_arg(args, 0) {
                Some(x) => if n == 1 {
                    Some(Transform::ScaleX(x))
                } else {
                    None
                },
                None => None,
            }
        } else if matches_keyword(name, "scaley") {
            match factor_arg(args, 0) {
                Some(y) => if n == 1 {
                    Some(Transform::ScaleY(y))
                } else {
                    None
                },
                None => None,
            }
        } else if matches_keyword(name, "scalez") {
            match factor_arg(args, 0) {
                Some(z) => if n == 1 {
                    Some(Transform::ScaleZ(z))
                } else {
                    None
                },
                None => None,
            }
        } else if matches_keyword(name, "scale3d") {
            match (factor_arg(args, 0), factor_arg(args, 1), factor_arg(args, 2)) {
                (Some(x), Some(y), Some(z)) => if n == 3 {
                    Some(Transform::Scale3d(x, y, z))
                } else {
                    None
                },
                _ => None,
            }
        } else if matches_keyword(name, "rotate") || matches_keyword(name, "rotatex")
            || matches_keyword(name, "rotatey") || matches_keyword(name, "rotatez")
            || matches_keyword(name, "skewx") || matches_keyword(name, "skewy") {
            match angle_arg(args, 0) {
                Some(a) => if n != 1 {
                    None
                } else if matches_keyword(name, "rotate") {
                    Some(Transform::Rotate(a))
                } else if matches_keyword(name, "rotatex") {
                    Some(Transform::RotateX(a))
                } else if matches_keyword(name, "rotatey") {
                    Some(Transform::RotateY(a))
                } else if matches_keyword(name, "rotatez") {
                    Some(Transform::RotateZ(a))
                } else if matches_keyword(name, "skewx") {
                    Some(Transform::SkewX(a))
                } else {
                    Some(Transform::SkewY(a))
                },
                None => None,
            }
        } else if matches_keyword(name, "rotate3d") {
            match angle_arg(args, 3) {
                Some(a) => if n == 4 {
                    match number_args(args, 3) {
                        Some(v) => Some(Transform::Rotate3d(v[0], v[1], v[2], a)),
                        None => None,
                    }
                } else {
                    None
                },
                None => None,
            }
        } else if matches_keyword(name, "skew") {
            match (angle_arg(args, 0), angle_arg(args, 1)) {
                (Some(x), Some(y)) => if n == 2 {
                    Some(Transform::Skew(x, y))
                } else {
                    None
                },
                (Some(x), _) => if n == 1 {
                    Some(Transform::Skew(x, Angle::Deg(Decimal { scaled: 0 })))
                } else {
                    None
                },
                _ => None,
            }
        } else if matches_keyword(name, "perspective") {
            match length_arg(args, 0) {
                Some(l) => if n == 1 {
                    Some(Transform::Perspective(l))
                } else {
                    None
                },
                None => None,
            }
        } else {
            None
        }
    }

    /// Parses the transform function that starts at token `pos`; gives it and
    /// the index after it, or an error at `pos`.
    pub fn parse(tokens: &Vec<Token>, pos: usize) -> (r: Result<(Transform, usize), ParseError>)
        ensures
            match (transform_at(tokens@, pos as int), r) {
                (Some((t, end)), Ok((v, e))) => v == t && e == end,
                (None, Err(err)) => err == ParseError::at(pos as int, tokens@.len() as int),
                _ => false,
            },
    {
        if pos >= tokens.len() {
            return Err(ParseError::new_at(pos, tokens.len()));
        }
        match &tokens[pos] {
            Token::Function(name) => {
                if pos + 1 > tokens.len() {
                    return Err(ParseError::new_at(pos, tokens.len()));
                }
                match parse_arguments(tokens, pos + 1) {
                    Some((args, end)) => match Transform::from_call(name.as_str(), &args) {
                        Some(t) => Ok((t, end)),
                        None => Err(ParseError::new_at(pos, tokens.len())),
                    },
                    None => Err(ParseError::new_at(pos, tokens.len())),
                }
            },
            _ => Err(ParseError::new_at(pos, tokens.len())),
        }
    }
}

/// A length that converts to pixels by a fixed factor.
pub open spec fn is_absolute_lp(x: LengthPercentage) -> bool {
    match x {
        LengthPercentage::Dimension(l) => l.unit.is_absolute(),
        LengthPercentage::Percentage(_) => false,
    }
}

/// Whether the transform has a fixed matrix: every length in it is absolute.
/// A percentage or a relative length depends on the element and blocks folding.
pub open spec fn spec_foldable(t: Transform) -> bool {
    match t {
        Transform::Translate(x, y) => is_absolute_lp(x) && is_absolute_lp(y),
        Transform::TranslateX(x) => is_absolute_lp(x),
        Transform::TranslateY(y) => is_absolute_lp(y),
        Transform::TranslateZ(z) => z.unit.is_absolute(),
        Transform::Translate3d(x, y, z) => is_absolute_lp(x) && is_absolute_lp(y)
            && z.unit.is_absolute(),
        Transform::Perspective(l) => l.unit.is_absolute(),
        _ => true,
    }
}

fn lp_is_absolute(x: &LengthPercentage) -> (r: bool)
    ensures
        r == is_absolute_lp(*x),
{
    match x {
        LengthPercentage::Dimension(l) => unit_is_absolute(&l.unit),
        LengthPercentage::Percentage(_) => false,
    }
}

fn unit_is_absolute(u: &LengthUnit) -> (r: bool)
    ensures
        r == u.is_absolute(),
{
    match u {
        LengthUnit::Px | LengthUnit::In | LengthUnit::Cm | LengthUnit::Mm | LengthUnit::Q
        | LengthUnit::Pt | LengthUnit::Pc => true,
        _ => false,
    }
}

impl Transform {
    /// Whether the transform has a fixed matrix, so that a list holding it
    /// can be folded into one matrix.
    pub fn is_foldable(&self) -> (r: bool)
        ensures
            r == spec_foldable(*self),
    {
        match self {
            Transform::Translate(x, y) => lp_is_absolute(x) && lp_is_absolute(y),
            Transform::TranslateX(x) => lp_is_absolute(x),
            Transform::TranslateY(y) => lp_is_absolute(y),
            Transform::TranslateZ(z) => unit_is_absolute(&z.unit),
            Transform::Translate3d(x, y, z) => lp_is_absolute(x) && lp_is_absolute(y)
                && unit_is_absolute(&z.unit),
            Transform::Perspective(l) => unit_is_absolute(&l.unit),
            _ => true,
        }
    }
}

/// A `transform` value: the functions in the order they apply. Empty for `none`.
#[derive(Debug)]
pub struct TransformList(pub Vec<Transform>);

/// The transforms that follow one another from `pos` on, up to the first
/// token that does not start one, and the index after the last.
pub open spec fn transforms_from(toks: Seq<Token>, pos: int) -> (Seq<Transform>, int)
    decreases toks.len() - pos,
{
    match transform_at(toks, pos) {
        Some((t, end)) => if pos < end <= toks.len() {
            let (rest, e) = transforms_from(toks, end);
            (seq![t] + rest, e)
        } else {
            (Seq::empty(), pos)
        },
        None => (Seq::empty(), pos),
    }
}

/// A transform list at `pos`: the keyword `none`, or one or more functions.
pub open spec fn transform_list_at(toks: Seq<Token>, pos: int) -> Option<(Seq<Transform>, int)> {
    if 0 <= pos < toks.len() && is_keyword(toks[pos], "none"@) {
        Some((Seq::empty(), pos + 1))
    } else if transform_at(toks, pos) is Some {
        Some(transforms_from(toks, pos))
    } else {
        None
    }
}

/// The functions' texts one after another.
pub open spec fn list_text(ts: Seq<Transform>, minify: bool) -> Seq<char>
    decreases ts.len(),
{
    if ts.len() == 0 {
        Seq::empty()
    } else {
        list_text(ts.drop_last(), minify) + transform_text(ts.last(), minify)
    }
}

/// The text of a list printed function by function: `none` when empty.
pub open spec fn transform_list_text(ts: Seq<Transform>, minify: bool) -> Seq<char> {
    if ts.len() == 0 {
        "none"@
    } else {
        list_text(ts, minify)
    }
}

/// The shortest of the candidate texts. Ties keep the function list over the
/// decomposed list, and either over the matrix literal.
pub open spec fn shortest_text(base: Seq<char>, decomposed: Option<Seq<char>>, matrix: Seq<char>) -> Seq<char> {
    let best = match decomposed {
        Some(d) => if d.len() < base.len() {
            d
        } else {
            base
        },
        None => base,
    };
    if matrix.len() < best.len() {
        matrix
    } else {
        best
    }
}

/// The `matrix()` literal of a folded matrix, or `matrix3d()` when it has an
/// out-of-plane component.
pub open spec fn matrix_literal_text(m: Matrix3d<Decimal>) -> Seq<char> {
    if spec_is_2d(m) {
        transform_text(
            Transform::Matrix(Matrix { a: m.m11, b: m.m12, c: m.m21, d: m.m22, e: m.m41, f: m.m42 }),
            true,
        )
    } else {
        transform_text(Transform::Matrix3d(m), true)
    }
}

/// The minified text of a list whose functions fold into `folded`, and which
/// `decomposed` (when given) denotes as well.
pub open spec fn minified_text(ts: Seq<Transform>, folded: Matrix3d<Decimal>, decomposed: Option<Seq<Transform>>) -> Seq<char> {
    if ts.len() == 0 {
        "none"@
    } else {
        shortest_text(
            list_text(ts, true),
            match decomposed {
                Some(d) => Some(list_text(d, true)),
                None => None,
            },
            matrix_literal_text(folded),
        )
    }
}

/// Picks the shortest candidate text; ties keep the earlier candidate.
pub fn shortest_encoding(base: String, decomposed: Option<String>, matrix: String) -> (r: String)
    ensures
        r@ == shortest_text(
            base@,
            match decomposed {
                Some(d) => Some(d@),
                None => None,
            },
            matrix@,
        ),
{
    let mut best = base;
    match decomposed {
        Some(d) => {
            if d.as_str().unicode_len() < best.as_str().unicode_len() {
                best = d;
            }
        },
        None => {},
    }
    if matrix.as_str().unicode_len() < best.as_str().unicode_len() {
        matrix
    } else {
        best
    }
}

impl TransformList {
    pub open spec fn view(&self) -> Seq<Transform> {
        self.0@
    }

    /// Parses a transform list at `pos`: `none`, or one or more functions;
    /// gives it and the index after it.
    pub fn parse(tokens: &Vec<Token>, pos: usize) -> (r: Result<(TransformList, usize), ParseError>)
        ensures
            match (transform_list_at(tokens@, pos as int), r) {
                (Some((ts, end)), Ok((v, e))) => v.view() == ts && e == end,
                (None, Err(err)) => err == ParseError::at(pos as int, tokens@.len() as int),
                _ => false,
            },
    {
        let n = tokens.len();
        if keyword_at(tokens, pos, "none") {
            return Ok((TransformList(Vec::new()), pos + 1));
        }
        let first = Transform::parse(tokens, pos);
        if first.is_err() {
            return Err(ParseError::new_at(pos, tokens.len()));
        }
        assert(transform_at(tokens@, pos as int) is Some);
        let mut items: Vec<Transform> = Vec::new();
        let mut i: usize = pos;
        loop
            invariant
                pos <= i <= tokens@.len(),
                transform_list_at(tokens@, pos as int) == Some(transforms_from(tokens@, pos as int)),
                transforms_from(tokens@, pos as int) == (
                    items@ + transforms_from(tokens@, i as int).0,
                    transforms_from(tokens@, i as int).1,
                ),
            decreases tokens@.len() - i,
        {
            match Transform::parse(tokens, i) {
                Ok((t, end)) => {
                    if end <= i || end > tokens.len() {
                        assert(transforms_from(tokens@, i as int).0 =~= Seq::<Transform>::empty());
                        assert(items@ + Seq::<Transform>::empty() =~= items@);
                        return Ok((TransformList(items), i));
                    }
                    let ghost prev = items@;
                    items.push(t);
                    assert(prev + (seq![t] + transforms_from(tokens@, end as int).0) =~= items@
                        + transforms_from(tokens@, end as int).0);
                    i = end;
                },
                Err(_) => {
                    assert(transform_at(tokens@, i as int) is None);
                    assert(transforms_from(tokens@, i as int).0 =~= Seq::<Transform>::empty());
                    assert(items@ + Seq::<Transform>::empty() =~= items@);
                    return Ok((TransformList(items), i));
                },
            }
        }
    }

    /// Appends the functions' texts one after another.
    pub fn write_base(&self, out: &mut String, minify: bool)
        ensures
            final(out)@ == old(out)@ + list_text(self.view(), minify),
    {
        let ghost start = out@;
        let mut i: usize = 0;
        while i < self.0.len()
            invariant
                i <= self.view().len(),
                out@ == start + list_text(self.view().take(i as int), minify),
            decreases self.view().len() - i,
        {
            self.0[i].write_to(out, minify);
            proof {
                let s = self.view().take((i + 1) as int);
                assert(s.drop_last() =~= self.view().take(i as int));
            }
            i = i + 1;
        }
        assert(self.view().take(self.view().len() as int) =~= self.view());
    }

    /// The list printed function by function, or `none` when empty.
    pub fn to_css(&self, minify: bool) -> (r: String)
        ensures
            r@ == transform_list_text(self.view(), minify),
    {
        if self.0.len() == 0 {
            return String::from_str("none");
        }
        let mut out = String::new();
        self.write_base(&mut out, minify);
        assert(out@ =~= list_text(self.view(), minify));
        out
    }

    /// Whether every function has a fixed matrix, so the list folds into one.
    pub fn is_foldable(&self) -> (r: bool)
        ensures
            r == forall|i: int| 0 <= i < self.view().len() ==> spec_foldable(#[trigger] self.view()[i]),
    {
        let mut i: usize = 0;
        while i < self.0.len()
            invariant
                i <= self.view().len(),
                forall|j: int| 0 <= j < i ==> spec_foldable(#[trigger] self.view()[j]),
            decreases self.view().len() - i,
        {
            if !self.0[i].is_foldable() {
                return false;
            }
            i = i + 1;
        }
        true
    }

    /// The minified text of a list that folds into `folded`: the shortest of
    /// the function list, the decomposed list when there is one, and the
    /// matrix literal.
    pub fn to_css_minified(&self, folded: &Matrix3d<Decimal>, decomposed: &Option<TransformList>) -> (r: String)
        ensures
            r@ == minified_text(
                self.view(),
                *folded,
                match decomposed {
                    Some(d) => Some(d.view()),
                    None => None,
                },
            ),
    {
        if self.0.len() == 0 {
            return String::from_str("none");
        }
        let mut base = String::new();
        self.write_base(&mut base, true);
        let d = match decomposed {
            Some(d) => {
                let mut text = String::new();
                d.write_base(&mut text, true);
                Some(text)
            },
            None => None,
        };
        let literal = match folded.to_matrix2d() {
            Some(m) => Transform::Matrix(m).to_css(true),
            None => Transform::Matrix3d(*folded).to_css(true),
        };
        proof {
            assert(base@ =~= list_text(self.view(), true));
        }
        shortest_encoding(base, d, literal)
    }
}

/// The `perspective` property: none, or the distance to the viewer.
#[derive(Clone, Copy, Debug, PartialEq, Eq, Structural)]
pub enum Perspective {
    /// The keyword `none`.
    NoPerspective,
    Length(Length),
}

pub open spec fn perspective_at(toks: Seq<Token>, pos: int) -> Option<(Perspective, int)> {
    if 0 <= pos < toks.len() && is_keyword(toks[pos], "none"@) {
        Some((Perspective::NoPerspective, pos + 1))
    } else if 0 <= pos < toks.len() {
        match length_of(toks[pos]) {
            Some(l) => Some((Perspective::Length(l), pos + 1)),
            None => None,
        }
    } else {
        None
    }
}

pub open spec fn perspective_text(p: Perspective) -> Seq<char> {
    match p {
        Perspective::NoPerspective => "none"@,
        Perspective::Length(l) => length_text(l),
    }
}

impl Perspective {
    pub fn parse(tokens: &Vec<Token>, pos: usize) -> (r: Result<(Perspective, usize), ParseError>)
        ensures
            match (perspective_at(tokens@, pos as int), r) {
                (Some((v, end)), Ok((w, e))) => w == v && e == end,
                (None, Err(err)) => err == ParseError::at(pos as int, tokens@.len() as int),
                _ => false,
            },
    {
        let n = tokens.len();
        if keyword_at(tokens, pos, "none") {
            return Ok((Perspective::NoPerspective, pos + 1));
        }
        if pos < n {
            if let Some(l) = Length::from_token(&tokens[pos]) {
                return Ok((Perspective::Length(l), pos + 1));
            }
        }
        Err(ParseError::new_at(pos, n))
    }

    pub fn to_css(&self) -> (r: String)
        ensures
            r@ == perspective_text(*self),
    {
        match self {
            Perspective::NoPerspective => String::from_str("none"),
            Perspective::Length(l) => {
                let mut out = String::new();
                l.write_to(&mut out);
                assert(out@ =~= length_text(*l));
                out
            },
        }
    }
}

} // verus!
