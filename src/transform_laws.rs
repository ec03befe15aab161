//! The printed form of a transform function reads back as the same function.
use vstd::prelude::*;
use crate::number::Decimal;
use crate::values::{
    LengthUnit, Length, LengthPercentage, Angle, NumberOrPercentage, length_of, length_percentage_of,
    angle_of, number_or_percentage_of, lp_is_zero, angle_value, lp_view, angle_view,
    lemma_angle_round_trip, lemma_lp_round_trip, lemma_length_round_trip, lemma_keyword_differs,
};
use crate::token::{Token, TokenView, token_view, views, is_argument, keyword_eq, arguments_from};
use crate::transform::{Transform, CallArg, spec_call, transform_at, number_value};

verus! {

/// The token an argument is written as.
pub open spec fn arg_view(a: CallArg) -> TokenView {
    match a {
        CallArg::Number(v) => TokenView::Number(v),
        CallArg::LengthPercentage(l) => lp_view(l),
        CallArg::Length(l) => TokenView::Dimension(l.value, l.unit.spec_name()),
        CallArg::Angle(x) => angle_view(x),
        CallArg::Factor(n) => match n {
            NumberOrPercentage::Number(v) => TokenView::Number(v),
            NumberOrPercentage::Percentage(p) => TokenView::Percentage(p),
        },
    }
}

/// The arguments' tokens with commas between them.
pub open spec fn args_views(args: Seq<CallArg>) -> Seq<TokenView>
    decreases args.len(),
{
    if args.len() == 0 {
        Seq::empty()
    } else if args.len() == 1 {
        seq![arg_view(args[0])]
    } else {
        args_views(args.drop_last()) + seq![TokenView::Comma, arg_view(args.last())]
    }
}

/// The tokens of a function call: its name, its arguments, and `)`.
pub open spec fn call_views(name: Seq<char>, args: Seq<CallArg>) -> Seq<TokenView> {
    seq![TokenView::Function(name)] + args_views(args) + seq![TokenView::CloseParen]
}

/// The tokens of a transform as it is printed when not minifying.
pub open spec fn transform_views(t: Transform) -> Seq<TokenView> {
    call_views(spec_call(t, false).0, spec_call(t, false).1)
}

proof fn lemma_args_views_index(args: Seq<CallArg>)
    requires
        args.len() >= 1,
    ensures
        args_views(args).len() == 2 * args.len() - 1,
        forall|k: int| 0 <= k < args.len() ==> args_views(args)[2 * k] == arg_view(#[trigger] args[k]),
        forall|k: int| 0 <= k < args.len() - 1 ==> #[trigger] args_views(args)[2 * k + 1] == TokenView::Comma,
    decreases args.len(),
{
    if args.len() > 1 {
        let init = args.drop_last();
        lemma_args_views_index(init);
        assert forall|k: int| 0 <= k < args.len() implies args_views(args)[2 * k] == arg_view(#[trigger] args[k]) by {
            if k < args.len() - 1 {
                assert(init[k] == args[k]);
            }
        }
    }
}

proof fn lemma_arguments_shape(toks: Seq<Token>, i: int, n: nat)
    requires
        n >= 1,
        0 <= i,
        i + 2 * n <= toks.len(),
        forall|k: int| 0 <= k < n ==> is_argument(#[trigger] toks[i + 2 * k]),
        forall|k: int| 0 <= k < n - 1 ==> (#[trigger] toks[i + 2 * k + 1]) is Comma,
        toks[i + 2 * n - 1] is CloseParen,
    ensures
        arguments_from(toks, i) == Some((Seq::new(n, |k: int| toks[i + 2 * k]), i + 2 * n)),
    decreases n,
{
    assert(is_argument(toks[i + 2 * 0]));
    if n == 1 {
        assert(Seq::new(n, |k: int| toks[i + 2 * k]) =~= seq![toks[i]]);
    } else {
        assert(toks[i + 2 * 0 + 1] is Comma);
        assert forall|k: int| 0 <= k < n - 1 implies is_argument(#[trigger] toks[(i + 2) + 2 * k]) by {
            assert(toks[(i + 2) + 2 * k] == toks[i + 2 * (k + 1)]);
        }
        assert forall|k: int| 0 <= k < n - 2 implies (#[trigger] toks[(i + 2) + 2 * k + 1]) is Comma by {
            assert(toks[(i + 2) + 2 * k + 1] == toks[i + 2 * (k + 1) + 1]);
        }
        lemma_arguments_shape(toks, i + 2, (n - 1) as nat);
        assert(seq![toks[i]] + Seq::new((n - 1) as nat, |k: int| toks[(i + 2) + 2 * k]) =~= Seq::new(
            n,
            |k: int| toks[i + 2 * k],
        ));
    }
}

proof fn lemma_arg_token(a: CallArg, t: Token)
    requires
        token_view(t) == arg_view(a),
    ensures
        is_argument(t),
        match a {
            CallArg::Number(v) => t is Number && number_value(t) == v,
            CallArg::LengthPercentage(l) => length_percentage_of(t) == Some(l),
            CallArg::Length(l) => length_of(t) == Some(l),
            CallArg::Angle(x) => angle_of(t) == Some(x),
            CallArg::Factor(n) => number_or_percentage_of(t) == Some(n),
        },
{
    match a {
        CallArg::LengthPercentage(l) => lemma_lp_round_trip(l, t),
        CallArg::Length(l) => lemma_length_round_trip(l, t),
        CallArg::Angle(x) => lemma_angle_round_trip(x, t),
        _ => {},
    }
}

proof fn lemma_nametranslate()
    ensures
        keyword_eq("translate"@, "translate"@),
        !keyword_eq("translate"@, "matrix"@),
        !keyword_eq("translate"@, "matrix3d"@),
        !keyword_eq("translate"@, "translatex"@),
        !keyword_eq("translate"@, "translatey"@),
        !keyword_eq("translate"@, "translatez"@),
        !keyword_eq("translate"@, "translate3d"@),
        !keyword_eq("translate"@, "scale"@),
        !keyword_eq("translate"@, "scalex"@),
        !keyword_eq("translate"@, "scaley"@),
        !keyword_eq("translate"@, "scalez"@),
        !keyword_eq("translate"@, "scale3d"@),
        !keyword_eq("translate"@, "rotate"@),
        !keyword_eq("translate"@, "rotatex"@),
        !keyword_eq("translate"@, "rotatey"@),
        !keyword_eq("translate"@, "rotatez"@),
        !keyword_eq("translate"@, "skewx"@),
        !keyword_eq("translate"@, "skewy"@),
        !keyword_eq("translate"@, "rotate3d"@),
        !keyword_eq("translate"@, "skew"@),
        !keyword_eq("translate"@, "perspective"@),
{
    reveal_strlit("matrix");
    reveal_strlit("matrix3d");
    reveal_strlit("perspective");
    reveal_strlit("rotate");
    reveal_strlit("rotate3d");
    reveal_strlit("rotatex");
    reveal_strlit("rotatey");
    reveal_strlit("rotatez");
    reveal_strlit("scale");
    reveal_strlit("scale3d");
    reveal_strlit("scalex");
    reveal_strlit("scaley");
    reveal_strlit("scalez");
    reveal_strlit("skew");
    reveal_strlit("skewx");
    reveal_strlit("skewy");
    reveal_strlit("translate");
    reveal_strlit("translate3d");
    reveal_strlit("translatex");
    reveal_strlit("translatey");
    reveal_strlit("translatez");
}

proof fn lemma_nametranslate_x()
    ensures
        keyword_eq("translateX"@, "translatex"@),
        !keyword_eq("translateX"@, "matrix"@),
        !keyword_eq("translateX"@, "matrix3d"@),
        !keyword_eq("translateX"@, "translate"@),
        !keyword_eq("translateX"@, "translatey"@),
        !keyword_eq("translateX"@, "translatez"@),
        !keyword_eq("translateX"@, "translate3d"@),
        !keyword_eq("translateX"@, "scale"@),
        !keyword_eq("translateX"@, "scalex"@),
        !keyword_eq("translateX"@, "scaley"@),
        !keyword_eq("translateX"@, "scalez"@),
        !keyword_eq("translateX"@, "scale3d"@),
        !keyword_eq("translateX"@, "rotate"@),
        !keyword_eq("translateX"@, "rotatex"@),
        !keyword_eq("translateX"@, "rotatey"@),
        !keyword_eq("translateX"@, "rotatez"@),
        !keyword_eq("translateX"@, "skewx"@),
        !keyword_eq("translateX"@, "skewy"@),
        !keyword_eq("translateX"@, "rotate3d"@),
        !keyword_eq("translateX"@, "skew"@),
        !keyword_eq("translateX"@, "perspective"@),
{
    reveal_strlit("matrix");
    reveal_strlit("matrix3d");
    reveal_strlit("perspective");
    reveal_strlit("rotate");
    reveal_strlit("rotate3d");
    reveal_strlit("rotatex");
    reveal_strlit("rotatey");
    reveal_strlit("rotatez");
    reveal_strlit("scale");
    reveal_strlit("scale3d");
    reveal_strlit("scalex");
    reveal_strlit("scaley");
    reveal_strlit("scalez");
    reveal_strlit("skew");
    reveal_strlit("skewx");
    reveal_strlit("skewy");
    reveal_strlit("translate");
    reveal_strlit("translate3d");
    reveal_strlit("translateX");
    reveal_strlit("translatex");
    reveal_strlit("translatey");
    reveal_strlit("translatez");
    lemma_keyword_differs("translateX"@, "translatey"@, 9);
    lemma_keyword_differs("translateX"@, "translatez"@, 9);
    assert forall|i: int| 0 <= i < 10 implies ("translateX"@[i] == "translatex"@[i] || ('a' <= "translatex"@[i] <= 'z'
        && "translateX"@[i] as u32 + 32 == "translatex"@[i] as u32)) by {
        assert(i == 0 || i == 1 || i == 2 || i == 3 || i == 4 || i == 5 || i == 6 || i == 7 || i == 8 || i == 9);
    }
}

proof fn lemma_nametranslate_y()
    ensures
        keyword_eq("translateY"@, "translatey"@),
        !keyword_eq("translateY"@, "matrix"@),
        !keyword_eq("translateY"@, "matrix3d"@),
        !keyword_eq("translateY"@, "translate"@),
        !keyword_eq("translateY"@, "translatex"@),
        !keyword_eq("translateY"@, "translatez"@),
        !keyword_eq("translateY"@, "translate3d"@),
        !keyword_eq("translateY"@, "scale"@),
        !keyword_eq("translateY"@, "scalex"@),
        !keyword_eq("translateY"@, "scaley"@),
        !keyword_eq("translateY"@, "scalez"@),
        !keyword_eq("translateY"@, "scale3d"@),
        !keyword_eq("translateY"@, "rotate"@),
        !keyword_eq("translateY"@, "rotatex"@),
        !keyword_eq("translateY"@, "rotatey"@),
        !keyword_eq("translateY"@, "rotatez"@),
        !keyword_eq("translateY"@, "skewx"@),
        !keyword_eq("translateY"@, "skewy"@),
        !keyword_eq("translateY"@, "rotate3d"@),
        !keyword_eq("translateY"@, "skew"@),
        !keyword_eq("translateY"@, "perspective"@),
{
    reveal_strlit("matrix");
    reveal_strlit("matrix3d");
    reveal_strlit("perspective");
    reveal_strlit("rotate");
    reveal_strlit("rotate3d");
    reveal_strlit("rotatex");
    reveal_strlit("rotatey");
    reveal_strlit("rotatez");
    reveal_strlit("scale");
    reveal_strlit("scale3d");
    reveal_strlit("scalex");
    reveal_strlit("scaley");
    reveal_strlit("scalez");
    reveal_strlit("skew");
    reveal_strlit("skewx");
    reveal_strlit("skewy");
    reveal_strlit("translate");
    reveal_strlit("translate3d");
    reveal_strlit("translateY");
    reveal_strlit("translatex");
    reveal_strlit("translatey");
    reveal_strlit("translatez");
    lemma_keyword_differs("translateY"@, "translatex"@, 9);
    lemma_keyword_differs("translateY"@, "translatez"@, 9);
    assert forall|i: int| 0 <= i < 10 implies ("translateY"@[i] == "translatey"@[i] || ('a' <= "translatey"@[i] <= 'z'
        && "translateY"@[i] as u32 + 32 == "translatey"@[i] as u32)) by {
        assert(i == 0 || i == 1 || i == 2 || i == 3 || i == 4 || i == 5 || i == 6 || i == 7 || i == 8 || i == 9);
    }
}

proof fn lemma_nametranslate_z()
    ensures
        keyword_eq("translateZ"@, "translatez"@),
        !keyword_eq("translateZ"@, "matrix"@),
        !keyword_eq("translateZ"@, "matrix3d"@),
        !keyword_eq("translateZ"@, "translate"@),
        !keyword_eq("translateZ"@, "translatex"@),
        !keyword_eq("translateZ"@, "translatey"@),
        !keyword_eq("translateZ"@, "translate3d"@),
        !keyword_eq("translateZ"@, "scale"@),
        !keyword_eq("translateZ"@, "scalex"@),
        !keyword_eq("translateZ"@, "scaley"@),
        !keyword_eq("translateZ"@, "scalez"@),
        !keyword_eq("translateZ"@, "scale3d"@),
        !keyword_eq("translateZ"@, "rotate"@),
        !keyword_eq("translateZ"@, "rotatex"@),
        !keyword_eq("translateZ"@, "rotatey"@),
        !keyword_eq("translateZ"@, "rotatez"@),
        !keyword_eq("translateZ"@, "skewx"@),
        !keyword_eq("translateZ"@, "skewy"@),
        !keyword_eq("translateZ"@, "rotate3d"@),
        !keyword_eq("translateZ"@, "skew"@),
        !keyword_eq("translateZ"@, "perspective"@),
{
    reveal_strlit("matrix");
    reveal_strlit("matrix3d");
    reveal_strlit("perspective");
    reveal_strlit("rotate");
    reveal_strlit("rotate3d");
    reveal_strlit("rotatex");
    reveal_strlit("rotatey");
    reveal_strlit("rotatez");
    reveal_strlit("scale");
    reveal_strlit("scale3d");
    reveal_strlit("scalex");
    reveal_strlit("scaley");
    reveal_strlit("scalez");
    reveal_strlit("skew");
    reveal_strlit("skewx");
    reveal_strlit("skewy");
    reveal_strlit("translate");
    reveal_strlit("translate3d");
    reveal_strlit("translateZ");
    reveal_strlit("translatex");
    reveal_strlit("translatey");
    reveal_strlit("translatez");
    lemma_keyword_differs("translateZ"@, "translatex"@, 9);
    lemma_keyword_differs("translateZ"@, "translatey"@, 9);
    assert forall|i: int| 0 <= i < 10 implies ("translateZ"@[i] == "translatez"@[i] || ('a' <= "translatez"@[i] <= 'z'
        && "translateZ"@[i] as u32 + 32 == "translatez"@[i] as u32)) by {
        assert(i == 0 || i == 1 || i == 2 || i == 3 || i == 4 || i == 5 || i == 6 || i == 7 || i == 8 || i == 9);
    }
}

proof fn lemma_nametranslate3d()
    ensures
        keyword_eq("translate3d"@, "translate3d"@),
        !keyword_eq("translate3d"@, "matrix"@),
        !keyword_eq("translate3d"@, "matrix3d"@),
        !keyword_eq("translate3d"@, "translate"@),
        !keyword_eq("translate3d"@, "translatex"@),
        !keyword_eq("translate3d"@, "translatey"@),
        !keyword_eq("translate3d"@, "translatez"@),
        !keyword_eq("translate3d"@, "scale"@),
        !keyword_eq("translate3d"@, "scalex"@),
        !keyword_eq("translate3d"@, "scaley"@),
        !keyword_eq("translate3d"@, "scalez"@),
        !keyword_eq("translate3d"@, "scale3d"@),
        !keyword_eq("translate3d"@, "rotate"@),
        !keyword_eq("translate3d"@, "rotatex"@),
        !keyword_eq("translate3d"@, "rotatey"@),
        !keyword_eq("translate3d"@, "rotatez"@),
        !keyword_eq("translate3d"@, "skewx"@),
        !keyword_eq("translate3d"@, "skewy"@),
        !keyword_eq("translate3d"@, "rotate3d"@),
        !keyword_eq("translate3d"@, "skew"@),
        !keyword_eq("translate3d"@, "perspective"@),
{
    reveal_strlit("matrix");
    reveal_strlit("matrix3d");
    reveal_strlit("perspective");
    reveal_strlit("rotate");
    reveal_strlit("rotate3d");
    reveal_strlit("rotatex");
    reveal_strlit("rotatey");
    reveal_strlit("rotatez");
    reveal_strlit("scale");
    reveal_strlit("scale3d");
    reveal_strlit("scalex");
    reveal_strlit("scaley");
    reveal_strlit("scalez");
    reveal_strlit("skew");
    reveal_strlit("skewx");
    reveal_strlit("skewy");
    reveal_strlit("translate");
    reveal_strlit("translate3d");
    reveal_strlit("translatex");
    reveal_strlit("translatey");
    reveal_strlit("translatez");
    lemma_keyword_differs("translate3d"@, "perspective"@, 0);
}

proof fn lemma_namescale()
    ensures
        keyword_eq("scale"@, "scale"@),
        !keyword_eq("scale"@, "matrix"@),
        !keyword_eq("scale"@, "matrix3d"@),
        !keyword_eq("scale"@, "translate"@),
        !keyword_eq("scale"@, "translatex"@),
        !keyword_eq("scale"@, "translatey"@),
        !keyword_eq("scale"@, "translatez"@),
        !keyword_eq("scale"@, "translate3d"@),
        !keyword_eq("scale"@, "scalex"@),
        !keyword_eq("scale"@, "scaley"@),
        !keyword_eq("scale"@, "scalez"@),
        !keyword_eq("scale"@, "scale3d"@),
        !keyword_eq("scale"@, "rotate"@),
        !keyword_eq("scale"@, "rotatex"@),
        !keyword_eq("scale"@, "rotatey"@),
        !keyword_eq("scale"@, "rotatez"@),
        !keyword_eq("scale"@, "skewx"@),
        !keyword_eq("scale"@, "skewy"@),
        !keyword_eq("scale"@, "rotate3d"@),
        !keyword_eq("scale"@, "skew"@),
        !keyword_eq("scale"@, "perspective"@),
{
    reveal_strlit("matrix");
    reveal_strlit("matrix3d");
    reveal_strlit("perspective");
    reveal_strlit("rotate");
    reveal_strlit("rotate3d");
    reveal_strlit("rotatex");
    reveal_strlit("rotatey");
    reveal_strlit("rotatez");
    reveal_strlit("scale");
    reveal_strlit("scale3d");
    reveal_strlit("scalex");
    reveal_strlit("scaley");
    reveal_strlit("scalez");
    reveal_strlit("skew");
    reveal_strlit("skewx");
    reveal_strlit("skewy");
    reveal_strlit("translate");
    reveal_strlit("translate3d");
    reveal_strlit("translatex");
    reveal_strlit("translatey");
    reveal_strlit("translatez");
    lemma_keyword_differs("scale"@, "skewx"@, 1);
    lemma_keyword_differs("scale"@, "skewy"@, 1);
}

proof fn lemma_namescale_x()
    ensures
        keyword_eq("scaleX"@, "scalex"@),
        !keyword_eq("scaleX"@, "matrix"@),
        !keyword_eq("scaleX"@, "matrix3d"@),
        !keyword_eq("scaleX"@, "translate"@),
        !keyword_eq("scaleX"@, "translatex"@),
        !keyword_eq("scaleX"@, "translatey"@),
        !keyword_eq("scaleX"@, "translatez"@),
        !keyword_eq("scaleX"@, "translate3d"@),
        !keyword_eq("scaleX"@, "scale"@),
        !keyword_eq("scaleX"@, "scaley"@),
        !keyword_eq("scaleX"@, "scalez"@),
        !keyword_eq("scaleX"@, "scale3d"@),
        !keyword_eq("scaleX"@, "rotate"@),
        !keyword_eq("scaleX"@, "rotatex"@),
        !keyword_eq("scaleX"@, "rotatey"@),
        !keyword_eq("scaleX"@, "rotatez"@),
        !keyword_eq("scaleX"@, "skewx"@),
        !keyword_eq("scaleX"@, "skewy"@),
        !keyword_eq("scaleX"@, "rotate3d"@),
        !keyword_eq("scaleX"@, "skew"@),
        !keyword_eq("scaleX"@, "perspective"@),
{
    reveal_strlit("matrix");
    reveal_strlit("matrix3d");
    reveal_strlit("perspective");
    reveal_strlit("rotate");
    reveal_strlit("rotate3d");
    reveal_strlit("rotatex");
    reveal_strlit("rotatey");
    reveal_strlit("rotatez");
    reveal_strlit("scale");
    reveal_strlit("scale3d");
    reveal_strlit("scaleX");
    reveal_strlit("scalex");
    reveal_strlit("scaley");
    reveal_strlit("scalez");
    reveal_strlit("skew");
    reveal_strlit("skewx");
    reveal_strlit("skewy");
    reveal_strlit("translate");
    reveal_strlit("translate3d");
    reveal_strlit("translatex");
    reveal_strlit("translatey");
    reveal_strlit("translatez");
    lemma_keyword_differs("scaleX"@, "matrix"@, 0);
    lemma_keyword_differs("scaleX"@, "scaley"@, 5);
    lemma_keyword_differs("scaleX"@, "scalez"@, 5);
    lemma_keyword_differs("scaleX"@, "rotate"@, 0);
    assert forall|i: int| 0 <= i < 6 implies ("scaleX"@[i] == "scalex"@[i] || ('a' <= "scalex"@[i] <= 'z'
        && "scaleX"@[i] as u32 + 32 == "scalex"@[i] as u32)) by {
        assert(i == 0 || i == 1 || i == 2 || i == 3 || i == 4 || i == 5);
    }
}

proof fn lemma_namescale_y()
    ensures
        keyword_eq("scaleY"@, "scaley"@),
        !keyword_eq("scaleY"@, "matrix"@),
        !keyword_eq("scaleY"@, "matrix3d"@),
        !keyword_eq("scaleY"@, "translate"@),
        !keyword_eq("scaleY"@, "translatex"@),
        !keyword_eq("scaleY"@, "translatey"@),
        !keyword_eq("scaleY"@, "translatez"@),
        !keyword_eq("scaleY"@, "translate3d"@),
        !keyword_eq("scaleY"@, "scale"@),
        !keyword_eq("scaleY"@, "scalex"@),
        !keyword_eq("scaleY"@, "scalez"@),
        !keyword_eq("scaleY"@, "scale3d"@),
        !keyword_eq("scaleY"@, "rotate"@),
        !keyword_eq("scaleY"@, "rotatex"@),
        !keyword_eq("scaleY"@, "rotatey"@),
        !keyword_eq("scaleY"@, "rotatez"@),
        !keyword_eq("scaleY"@, "skewx"@),
        !keyword_eq("scaleY"@, "skewy"@),
        !keyword_eq("scaleY"@, "rotate3d"@),
        !keyword_eq("scaleY"@, "skew"@),
        !keyword_eq("scaleY"@, "perspective"@),
{
    reveal_strlit("matrix");
    reveal_strlit("matrix3d");
    reveal_strlit("perspective");
    reveal_strlit("rotate");
    reveal_strlit("rotate3d");
    reveal_strlit("rotatex");
    reveal_strlit("rotatey");
    reveal_strlit("rotatez");
    reveal_strlit("scale");
    reveal_strlit("scale3d");
    reveal_strlit("scaleY");
    reveal_strlit("scalex");
    reveal_strlit("scaley");
    reveal_strlit("scalez");
    reveal_strlit("skew");
    reveal_strlit("skewx");
    reveal_strlit("skewy");
    reveal_strlit("translate");
    reveal_strlit("translate3d");
    reveal_strlit("translatex");
    reveal_strlit("translatey");
    reveal_strlit("translatez");
    lemma_keyword_differs("scaleY"@, "matrix"@, 0);
    lemma_keyword_differs("scaleY"@, "scalex"@, 5);
    lemma_keyword_differs("scaleY"@, "scalez"@, 5);
    lemma_keyword_differs("scaleY"@, "rotate"@, 0);
    assert forall|i: int| 0 <= i < 6 implies ("scaleY"@[i] == "scaley"@[i] || ('a' <= "scaley"@[i] <= 'z'
        && "scaleY"@[i] as u32 + 32 == "scaley"@[i] as u32)) by {
        assert(i == 0 || i == 1 || i == 2 || i == 3 || i == 4 || i == 5);
    }
}

proof fn lemma_namescale_z()
    ensures
        keyword_eq("scaleZ"@, "scalez"@),
        !keyword_eq("scaleZ"@, "matrix"@),
        !keyword_eq("scaleZ"@, "matrix3d"@),
        !keyword_eq("scaleZ"@, "translate"@),
        !keyword_eq("scaleZ"@, "translatex"@),
        !keyword_eq("scaleZ"@, "translatey"@),
        !keyword_eq("scaleZ"@, "translatez"@),
        !keyword_eq("scaleZ"@, "translate3d"@),
        !keyword_eq("scaleZ"@, "scale"@),
        !keyword_eq("scaleZ"@, "scalex"@),
        !keyword_eq("scaleZ"@, "scaley"@),
        !keyword_eq("scaleZ"@, "scale3d"@),
        !keyword_eq("scaleZ"@, "rotate"@),
        !keyword_eq("scaleZ"@, "rotatex"@),
        !keyword_eq("scaleZ"@, "rotatey"@),
        !keyword_eq("scaleZ"@, "rotatez"@),
        !keyword_eq("scaleZ"@, "skewx"@),
        !keyword_eq("scaleZ"@, "skewy"@),
        !keyword_eq("scaleZ"@, "rotate3d"@),
        !keyword_eq("scaleZ"@, "skew"@),
        !keyword_eq("scaleZ"@, "perspective"@),
{
    reveal_strlit("matrix");
    reveal_strlit("matrix3d");
    reveal_strlit("perspective");
    reveal_strlit("rotate");
    reveal_strlit("rotate3d");
    reveal_strlit("rotatex");
    reveal_strlit("rotatey");
    reveal_strlit("rotatez");
    reveal_strlit("scale");
    reveal_strlit("scale3d");
    reveal_strlit("scaleZ");
    reveal_strlit("scalex");
    reveal_strlit("scaley");
    reveal_strlit("scalez");
    reveal_strlit("skew");
    reveal_strlit("skewx");
    reveal_strlit("skewy");
    reveal_strlit("translate");
    reveal_strlit("translate3d");
    reveal_strlit("translatex");
    reveal_strlit("translatey");
    reveal_strlit("translatez");
    lemma_keyword_differs("scaleZ"@, "matrix"@, 0);
    lemma_keyword_differs("scaleZ"@, "scalex"@, 5);
    lemma_keyword_differs("scaleZ"@, "scaley"@, 5);
    lemma_keyword_differs("scaleZ"@, "rotate"@, 0);
    assert forall|i: int| 0 <= i < 6 implies ("scaleZ"@[i] == "scalez"@[i] || ('a' <= "scalez"@[i] <= 'z'
        && "scaleZ"@[i] as u32 + 32 == "scalez"@[i] as u32)) by {
        assert(i == 0 || i == 1 || i == 2 || i == 3 || i == 4 || i == 5);
    }
}

proof fn lemma_namescale3d()
    ensures
        keyword_eq("scale3d"@, "scale3d"@),
        !keyword_eq("scale3d"@, "matrix"@),
        !keyword_eq("scale3d"@, "matrix3d"@),
        !keyword_eq("scale3d"@, "translate"@),
        !keyword_eq("scale3d"@, "translatex"@),
        !keyword_eq("scale3d"@, "translatey"@),
        !keyword_eq("scale3d"@, "translatez"@),
        !keyword_eq("scale3d"@, "translate3d"@),
        !keyword_eq("scale3d"@, "scale"@),
        !keyword_eq("scale3d"@, "scalex"@),
        !keyword_eq("scale3d"@, "scaley"@),
        !keyword_eq("scale3d"@, "scalez"@),
        !keyword_eq("scale3d"@, "rotate"@),
        !keyword_eq("scale3d"@, "rotatex"@),
        !keyword_eq("scale3d"@, "rotatey"@),
        !keyword_eq("scale3d"@, "rotatez"@),
        !keyword_eq("scale3d"@, "skewx"@),
        !keyword_eq("scale3d"@, "skewy"@),
        !keyword_eq("scale3d"@, "rotate3d"@),
        !keyword_eq("scale3d"@, "skew"@),
        !keyword_eq("scale3d"@, "perspective"@),
{
    reveal_strlit("matrix");
    reveal_strlit("matrix3d");
    reveal_strlit("perspective");
    reveal_strlit("rotate");
    reveal_strlit("rotate3d");
    reveal_strlit("rotatex");
    reveal_strlit("rotatey");
    reveal_strlit("rotatez");
    reveal_strlit("scale");
    reveal_strlit("scale3d");
    reveal_strlit("scalex");
    reveal_strlit("scaley");
    reveal_strlit("scalez");
    reveal_strlit("skew");
    reveal_strlit("skewx");
    reveal_strlit("skewy");
    reveal_strlit("translate");
    reveal_strlit("translate3d");
    reveal_strlit("translatex");
    reveal_strlit("translatey");
    reveal_strlit("translatez");
    lemma_keyword_differs("scale3d"@, "rotatex"@, 0);
    lemma_keyword_differs("scale3d"@, "rotatey"@, 0);
    lemma_keyword_differs("scale3d"@, "rotatez"@, 0);
}

proof fn lemma_namerotate()
    ensures
        keyword_eq("rotate"@, "rotate"@),
        !keyword_eq("rotate"@, "matrix"@),
        !keyword_eq("rotate"@, "matrix3d"@),
        !keyword_eq("rotate"@, "translate"@),
        !keyword_eq("rotate"@, "translatex"@),
        !keyword_eq("rotate"@, "translatey"@),
        !keyword_eq("rotate"@, "translatez"@),
        !keyword_eq("rotate"@, "translate3d"@),
        !keyword_eq("rotate"@, "scale"@),
        !keyword_eq("rotate"@, "scalex"@),
        !keyword_eq("rotate"@, "scaley"@),
        !keyword_eq("rotate"@, "scalez"@),
        !keyword_eq("rotate"@, "scale3d"@),
        !keyword_eq("rotate"@, "rotatex"@),
        !keyword_eq("rotate"@, "rotatey"@),
        !keyword_eq("rotate"@, "rotatez"@),
        !keyword_eq("rotate"@, "skewx"@),
        !keyword_eq("rotate"@, "skewy"@),
        !keyword_eq("rotate"@, "rotate3d"@),
        !keyword_eq("rotate"@, "skew"@),
        !keyword_eq("rotate"@, "perspective"@),
{
    reveal_strlit("matrix");
    reveal_strlit("matrix3d");
    reveal_strlit("perspective");
    reveal_strlit("rotate");
    reveal_strlit("rotate3d");
    reveal_strlit("rotatex");
    reveal_strlit("rotatey");
    reveal_strlit("rotatez");
    reveal_strlit("scale");
    reveal_strlit("scale3d");
    reveal_strlit("scalex");
    reveal_strlit("scaley");
    reveal_strlit("scalez");
    reveal_strlit("skew");
    reveal_strlit("skewx");
    reveal_strlit("skewy");
    reveal_strlit("translate");
    reveal_strlit("translate3d");
    reveal_strlit("translatex");
    reveal_strlit("translatey");
    reveal_strlit("translatez");
    lemma_keyword_differs("rotate"@, "matrix"@, 0);
    lemma_keyword_differs("rotate"@, "scalex"@, 0);
    lemma_keyword_differs("rotate"@, "scaley"@, 0);
    lemma_keyword_differs("rotate"@, "scalez"@, 0);
}

proof fn lemma_namerotate_x()
    ensures
        keyword_eq("rotateX"@, "rotatex"@),
        !keyword_eq("rotateX"@, "matrix"@),
        !keyword_eq("rotateX"@, "matrix3d"@),
        !keyword_eq("rotateX"@, "translate"@),
        !keyword_eq("rotateX"@, "translatex"@),
        !keyword_eq("rotateX"@, "translatey"@),
        !keyword_eq("rotateX"@, "translatez"@),
        !keyword_eq("rotateX"@, "translate3d"@),
        !keyword_eq("rotateX"@, "scale"@),
        !keyword_eq("rotateX"@, "scalex"@),
        !keyword_eq("rotateX"@, "scaley"@),
        !keyword_eq("rotateX"@, "scalez"@),
        !keyword_eq("rotateX"@, "scale3d"@),
        !keyword_eq("rotateX"@, "rotate"@),
        !keyword_eq("rotateX"@, "rotatey"@),
        !keyword_eq("rotateX"@, "rotatez"@),
        !keyword_eq("rotateX"@, "skewx"@),
        !keyword_eq("rotateX"@, "skewy"@),
        !keyword_eq("rotateX"@, "rotate3d"@),
        !keyword_eq("rotateX"@, "skew"@),
        !keyword_eq("rotateX"@, "perspective"@),
{
    reveal_strlit("matrix");
    reveal_strlit("matrix3d");
    reveal_strlit("perspective");
    reveal_strlit("rotate");
    reveal_strlit("rotate3d");
    reveal_strlit("rotateX");
    reveal_strlit("rotatex");
    reveal_strlit("rotatey");
    reveal_strlit("rotatez");
    reveal_strlit("scale");
    reveal_strlit("scale3d");
    reveal_strlit("scalex");
    reveal_strlit("scaley");
    reveal_strlit("scalez");
    reveal_strlit("skew");
    reveal_strlit("skewx");
    reveal_strlit("skewy");
    reveal_strlit("translate");
    reveal_strlit("translate3d");
    reveal_strlit("translatex");
    reveal_strlit("translatey");
    reveal_strlit("translatez");
    lemma_keyword_differs("rotateX"@, "scale3d"@, 0);
    lemma_keyword_differs("rotateX"@, "rotatey"@, 6);
    lemma_keyword_differs("rotateX"@, "rotatez"@, 6);
    assert forall|i: int| 0 <= i < 7 implies ("rotateX"@[i] == "rotatex"@[i] || ('a' <= "rotatex"@[i] <= 'z'
        && "rotateX"@[i] as u32 + 32 == "rotatex"@[i] as u32)) by {
        assert(i == 0 || i == 1 || i == 2 || i == 3 || i == 4 || i == 5 || i == 6);
    }
}

proof fn lemma_namerotate_y()
    ensures
        keyword_eq("rotateY"@, "rotatey"@),
        !keyword_eq("rotateY"@, "matrix"@),
        !keyword_eq("rotateY"@, "matrix3d"@),
        !keyword_eq("rotateY"@, "translate"@),
        !keyword_eq("rotateY"@, "translatex"@),
        !keyword_eq("rotateY"@, "translatey"@),
        !keyword_eq("rotateY"@, "translatez"@),
        !keyword_eq("rotateY"@, "translate3d"@),
        !keyword_eq("rotateY"@, "scale"@),
        !keyword_eq("rotateY"@, "scalex"@),
        !keyword_eq("rotateY"@, "scaley"@),
        !keyword_eq("rotateY"@, "scalez"@),
        !keyword_eq("rotateY"@, "scale3d"@),
        !keyword_eq("rotateY"@, "rotate"@),
        !keyword_eq("rotateY"@, "rotatex"@),
        !keyword_eq("rotateY"@, "rotatez"@),
        !keyword_eq("rotateY"@, "skewx"@),
        !keyword_eq("rotateY"@, "skewy"@),
        !keyword_eq("rotateY"@, "rotate3d"@),
        !keyword_eq("rotateY"@, "skew"@),
        !keyword_eq("rotateY"@, "perspective"@),
{
    reveal_strlit("matrix");
    reveal_strlit("matrix3d");
    reveal_strlit("perspective");
    reveal_strlit("rotate");
    reveal_strlit("rotate3d");
    reveal_strlit("rotateY");
    reveal_strlit("rotatex");
    reveal_strlit("rotatey");
    reveal_strlit("rotatez");
    reveal_strlit("scale");
    reveal_strlit("scale3d");
    reveal_strlit("scalex");
    reveal_strlit("scaley");
    reveal_strlit("scalez");
    reveal_strlit("skew");
    reveal_strlit("skewx");
    reveal_strlit("skewy");
    reveal_strlit("translate");
    reveal_strlit("translate3d");
    reveal_strlit("translatex");
    reveal_strlit("translatey");
    reveal_strlit("translatez");
    lemma_keyword_differs("rotateY"@, "scale3d"@, 0);
    lemma_keyword_differs("rotateY"@, "rotatex"@, 6);
    lemma_keyword_differs("rotateY"@, "rotatez"@, 6);
    assert forall|i: int| 0 <= i < 7 implies ("rotateY"@[i] == "rotatey"@[i] || ('a' <= "rotatey"@[i] <= 'z'
        && "rotateY"@[i] as u32 + 32 == "rotatey"@[i] as u32)) by {
        assert(i == 0 || i == 1 || i == 2 || i == 3 || i == 4 || i == 5 || i == 6);
    }
}

proof fn lemma_namerotate_z()
    ensures
        keyword_eq("rotateZ"@, "rotatez"@),
        !keyword_eq("rotateZ"@, "matrix"@),
        !keyword_eq("rotateZ"@, "matrix3d"@),
        !keyword_eq("rotateZ"@, "translate"@),
        !keyword_eq("rotateZ"@, "translatex"@),
        !keyword_eq("rotateZ"@, "translatey"@),
        !keyword_eq("rotateZ"@, "translatez"@),
        !keyword_eq("rotateZ"@, "translate3d"@),
        !keyword_eq("rotateZ"@, "scale"@),
        !keyword_eq("rotateZ"@, "scalex"@),
        !keyword_eq("rotateZ"@, "scaley"@),
        !keyword_eq("rotateZ"@, "scalez"@),
        !keyword_eq("rotateZ"@, "scale3d"@),
        !keyword_eq("rotateZ"@, "rotate"@),
        !keyword_eq("rotateZ"@, "rotatex"@),
        !keyword_eq("rotateZ"@, "rotatey"@),
        !keyword_eq("rotateZ"@, "skewx"@),
        !keyword_eq("rotateZ"@, "skewy"@),
        !keyword_eq("rotateZ"@, "rotate3d"@),
        !keyword_eq("rotateZ"@, "skew"@),
        !keyword_eq("rotateZ"@, "perspective"@),
{
    reveal_strlit("matrix");
    reveal_strlit("matrix3d");
    reveal_strlit("perspective");
    reveal_strlit("rotate");
    reveal_strlit("rotate3d");
    reveal_strlit("rotateZ");
    reveal_strlit("rotatex");
    reveal_strlit("rotatey");
    reveal_strlit("rotatez");
    reveal_strlit("scale");
    reveal_strlit("scale3d");
    reveal_strlit("scalex");
    reveal_strlit("scaley");
    reveal_strlit("scalez");
    reveal_strlit("skew");
    reveal_strlit("skewx");
    reveal_strlit("skewy");
    reveal_strlit("translate");
    reveal_strlit("translate3d");
    reveal_strlit("translatex");
    reveal_strlit("translatey");
    reveal_strlit("translatez");
    lemma_keyword_differs("rotateZ"@, "scale3d"@, 0);
    lemma_keyword_differs("rotateZ"@, "rotatex"@, 6);
    lemma_keyword_differs("rotateZ"@, "rotatey"@, 6);
    assert forall|i: int| 0 <= i < 7 implies ("rotateZ"@[i] == "rotatez"@[i] || ('a' <= "rotatez"@[i] <= 'z'
        && "rotateZ"@[i] as u32 + 32 == "rotatez"@[i] as u32)) by {
        assert(i == 0 || i == 1 || i == 2 || i == 3 || i == 4 || i == 5 || i == 6);
    }
}

proof fn lemma_namerotate3d()
    ensures
        keyword_eq("rotate3d"@, "rotate3d"@),
        !keyword_eq("rotate3d"@, "matrix"@),
        !keyword_eq("rotate3d"@, "matrix3d"@),
        !keyword_eq("rotate3d"@, "translate"@),
        !keyword_eq("rotate3d"@, "translatex"@),
        !keyword_eq("rotate3d"@, "translatey"@),
        !keyword_eq("rotate3d"@, "translatez"@),
        !keyword_eq("rotate3d"@, "translate3d"@),
        !keyword_eq("rotate3d"@, "scale"@),
        !keyword_eq("rotate3d"@, "scalex"@),
        !keyword_eq("rotate3d"@, "scaley"@),
        !keyword_eq("rotate3d"@, "scalez"@),
        !keyword_eq("rotate3d"@, "scale3d"@),
        !keyword_eq("rotate3d"@, "rotate"@),
        !keyword_eq("rotate3d"@, "rotatex"@),
        !keyword_eq("rotate3d"@, "rotatey"@),
        !keyword_eq("rotate3d"@, "rotatez"@),
        !keyword_eq("rotate3d"@, "skewx"@),
        !keyword_eq("rotate3d"@, "skewy"@),
        !keyword_eq("rotate3d"@, "skew"@),
        !keyword_eq("rotate3d"@, "perspective"@),
{
    reveal_strlit("matrix");
    reveal_strlit("matrix3d");
    reveal_strlit("perspective");
    reveal_strlit("rotate");
    reveal_strlit("rotate3d");
    reveal_strlit("rotatex");
    reveal_strlit("rotatey");
    reveal_strlit("rotatez");
    reveal_strlit("scale");
    reveal_strlit("scale3d");
    reveal_strlit("scalex");
    reveal_strlit("scaley");
    reveal_strlit("scalez");
    reveal_strlit("skew");
    reveal_strlit("skewx");
    reveal_strlit("skewy");
    reveal_strlit("translate");
    reveal_strlit("translate3d");
    reveal_strlit("translatex");
    reveal_strlit("translatey");
    reveal_strlit("translatez");
    lemma_keyword_differs("rotate3d"@, "matrix3d"@, 0);
}

proof fn lemma_nameskew()
    ensures
        keyword_eq("skew"@, "skew"@),
        !keyword_eq("skew"@, "matrix"@),
        !keyword_eq("skew"@, "matrix3d"@),
        !keyword_eq("skew"@, "translate"@),
        !keyword_eq("skew"@, "translatex"@),
        !keyword_eq("skew"@, "translatey"@),
        !keyword_eq("skew"@, "translatez"@),
        !keyword_eq("skew"@, "translate3d"@),
        !keyword_eq("skew"@, "scale"@),
        !keyword_eq("skew"@, "scalex"@),
        !keyword_eq("skew"@, "scaley"@),
        !keyword_eq("skew"@, "scalez"@),
        !keyword_eq("skew"@, "scale3d"@),
        !keyword_eq("skew"@, "rotate"@),
        !keyword_eq("skew"@, "rotatex"@),
        !keyword_eq("skew"@, "rotatey"@),
        !keyword_eq("skew"@, "rotatez"@),
        !keyword_eq("skew"@, "skewx"@),
        !keyword_eq("skew"@, "skewy"@),
        !keyword_eq("skew"@, "rotate3d"@),
        !keyword_eq("skew"@, "perspective"@),
{
    reveal_strlit("matrix");
    reveal_strlit("matrix3d");
    reveal_strlit("perspective");
    reveal_strlit("rotate");
    reveal_strlit("rotate3d");
    reveal_strlit("rotatex");
    reveal_strlit("rotatey");
    reveal_strlit("rotatez");
    reveal_strlit("scale");
    reveal_strlit("scale3d");
    reveal_strlit("scalex");
    reveal_strlit("scaley");
    reveal_strlit("scalez");
    reveal_strlit("skew");
    reveal_strlit("skewx");
    reveal_strlit("skewy");
    reveal_strlit("translate");
    reveal_strlit("translate3d");
    reveal_strlit("translatex");
    reveal_strlit("translatey");
    reveal_strlit("translatez");
}

proof fn lemma_nameskew_x()
    ensures
        keyword_eq("skewX"@, "skewx"@),
        !keyword_eq("skewX"@, "matrix"@),
        !keyword_eq("skewX"@, "matrix3d"@),
        !keyword_eq("skewX"@, "translate"@),
        !keyword_eq("skewX"@, "translatex"@),
        !keyword_eq("skewX"@, "translatey"@),
        !keyword_eq("skewX"@, "translatez"@),
        !keyword_eq("skewX"@, "translate3d"@),
        !keyword_eq("skewX"@, "scale"@),
        !keyword_eq("skewX"@, "scalex"@),
        !keyword_eq("skewX"@, "scaley"@),
        !keyword_eq("skewX"@, "scalez"@),
        !keyword_eq("skewX"@, "scale3d"@),
        !keyword_eq("skewX"@, "rotate"@),
        !keyword_eq("skewX"@, "rotatex"@),
        !keyword_eq("skewX"@, "rotatey"@),
        !keyword_eq("skewX"@, "rotatez"@),
        !keyword_eq("skewX"@, "skewy"@),
        !keyword_eq("skewX"@, "rotate3d"@),
        !keyword_eq("skewX"@, "skew"@),
        !keyword_eq("skewX"@, "perspective"@),
{
    reveal_strlit("matrix");
    reveal_strlit("matrix3d");
    reveal_strlit("perspective");
    reveal_strlit("rotate");
    reveal_strlit("rotate3d");
    reveal_strlit("rotatex");
    reveal_strlit("rotatey");
    reveal_strlit("rotatez");
    reveal_strlit("scale");
    reveal_strlit("scale3d");
    reveal_strlit("scalex");
    reveal_strlit("scaley");
    reveal_strlit("scalez");
    reveal_strlit("skew");
    reveal_strlit("skewX");
    reveal_strlit("skewx");
    reveal_strlit("skewy");
    reveal_strlit("translate");
    reveal_strlit("translate3d");
    reveal_strlit("translatex");
    reveal_strlit("translatey");
    reveal_strlit("translatez");
    lemma_keyword_differs("skewX"@, "scale"@, 1);
    lemma_keyword_differs("skewX"@, "skewy"@, 4);
    assert forall|i: int| 0 <= i < 5 implies ("skewX"@[i] == "skewx"@[i] || ('a' <= "skewx"@[i] <= 'z'
        && "skewX"@[i] as u32 + 32 == "skewx"@[i] as u32)) by {
        assert(i == 0 || i == 1 || i == 2 || i == 3 || i == 4);
    }
}

proof fn lemma_nameskew_y()
    ensures
        keyword_eq("skewY"@, "skewy"@),
        !keyword_eq("skewY"@, "matrix"@),
        !keyword_eq("skewY"@, "matrix3d"@),
        !keyword_eq("skewY"@, "translate"@),
        !keyword_eq("skewY"@, "translatex"@),
        !keyword_eq("skewY"@, "translatey"@),
        !keyword_eq("skewY"@, "translatez"@),
        !keyword_eq("skewY"@, "translate3d"@),
        !keyword_eq("skewY"@, "scale"@),
        !keyword_eq("skewY"@, "scalex"@),
        !keyword_eq("skewY"@, "scaley"@),
        !keyword_eq("skewY"@, "scalez"@),
        !keyword_eq("skewY"@, "scale3d"@),
        !keyword_eq("skewY"@, "rotate"@),
        !keyword_eq("skewY"@, "rotatex"@),
        !keyword_eq("skewY"@, "rotatey"@),
        !keyword_eq("skewY"@, "rotatez"@),
        !keyword_eq("skewY"@, "skewx"@),
        !keyword_eq("skewY"@, "rotate3d"@),
        !keyword_eq("skewY"@, "skew"@),
        !keyword_eq("skewY"@, "perspective"@),
{
    reveal_strlit("matrix");
    reveal_strlit("matrix3d");
    reveal_strlit("perspective");
    reveal_strlit("rotate");
    reveal_strlit("rotate3d");
    reveal_strlit("rotatex");
    reveal_strlit("rotatey");
    reveal_strlit("rotatez");
    reveal_strlit("scale");
    reveal_strlit("scale3d");
    reveal_strlit("scalex");
    reveal_strlit("scaley");
    reveal_strlit("scalez");
    reveal_strlit("skew");
    reveal_strlit("skewY");
    reveal_strlit("skewx");
    reveal_strlit("skewy");
    reveal_strlit("translate");
    reveal_strlit("translate3d");
    reveal_strlit("translatex");
    reveal_strlit("translatey");
    reveal_strlit("translatez");
    lemma_keyword_differs("skewY"@, "scale"@, 1);
    lemma_keyword_differs("skewY"@, "skewx"@, 4);
    assert forall|i: int| 0 <= i < 5 implies ("skewY"@[i] == "skewy"@[i] || ('a' <= "skewy"@[i] <= 'z'
        && "skewY"@[i] as u32 + 32 == "skewy"@[i] as u32)) by {
        assert(i == 0 || i == 1 || i == 2 || i == 3 || i == 4);
    }
}

proof fn lemma_nameperspective()
    ensures
        keyword_eq("perspective"@, "perspective"@),
        !keyword_eq("perspective"@, "matrix"@),
        !keyword_eq("perspective"@, "matrix3d"@),
        !keyword_eq("perspective"@, "translate"@),
        !keyword_eq("perspective"@, "translatex"@),
        !keyword_eq("perspective"@, "translatey"@),
        !keyword_eq("perspective"@, "translatez"@),
        !keyword_eq("perspective"@, "translate3d"@),
        !keyword_eq("perspective"@, "scale"@),
        !keyword_eq("perspective"@, "scalex"@),
        !keyword_eq("perspective"@, "scaley"@),
        !keyword_eq("perspective"@, "scalez"@),
        !keyword_eq("perspective"@, "scale3d"@),
        !keyword_eq("perspective"@, "rotate"@),
        !keyword_eq("perspective"@, "rotatex"@),
        !keyword_eq("perspective"@, "rotatey"@),
        !keyword_eq("perspective"@, "rotatez"@),
        !keyword_eq("perspective"@, "skewx"@),
        !keyword_eq("perspective"@, "skewy"@),
        !keyword_eq("perspective"@, "rotate3d"@),
        !keyword_eq("perspective"@, "skew"@),
{
    reveal_strlit("matrix");
    reveal_strlit("matrix3d");
    reveal_strlit("perspective");
    reveal_strlit("rotate");
    reveal_strlit("rotate3d");
    reveal_strlit("rotatex");
    reveal_strlit("rotatey");
    reveal_strlit("rotatez");
    reveal_strlit("scale");
    reveal_strlit("scale3d");
    reveal_strlit("scalex");
    reveal_strlit("scaley");
    reveal_strlit("scalez");
    reveal_strlit("skew");
    reveal_strlit("skewx");
    reveal_strlit("skewy");
    reveal_strlit("translate");
    reveal_strlit("translate3d");
    reveal_strlit("translatex");
    reveal_strlit("translatey");
    reveal_strlit("translatez");
    lemma_keyword_differs("perspective"@, "translate3d"@, 0);
}

proof fn lemma_namematrix()
    ensures
        keyword_eq("matrix"@, "matrix"@),
        !keyword_eq("matrix"@, "matrix3d"@),
        !keyword_eq("matrix"@, "translate"@),
        !keyword_eq("matrix"@, "translatex"@),
        !keyword_eq("matrix"@, "translatey"@),
        !keyword_eq("matrix"@, "translatez"@),
        !keyword_eq("matrix"@, "translate3d"@),
        !keyword_eq("matrix"@, "scale"@),
        !keyword_eq("matrix"@, "scalex"@),
        !keyword_eq("matrix"@, "scaley"@),
        !keyword_eq("matrix"@, "scalez"@),
        !keyword_eq("matrix"@, "scale3d"@),
        !keyword_eq("matrix"@, "rotate"@),
        !keyword_eq("matrix"@, "rotatex"@),
        !keyword_eq("matrix"@, "rotatey"@),
        !keyword_eq("matrix"@, "rotatez"@),
        !keyword_eq("matrix"@, "skewx"@),
        !keyword_eq("matrix"@, "skewy"@),
        !keyword_eq("matrix"@, "rotate3d"@),
        !keyword_eq("matrix"@, "skew"@),
        !keyword_eq("matrix"@, "perspective"@),
{
    reveal_strlit("matrix");
    reveal_strlit("matrix3d");
    reveal_strlit("perspective");
    reveal_strlit("rotate");
    reveal_strlit("rotate3d");
    reveal_strlit("rotatex");
    reveal_strlit("rotatey");
    reveal_strlit("rotatez");
    reveal_strlit("scale");
    reveal_strlit("scale3d");
    reveal_strlit("scalex");
    reveal_strlit("scaley");
    reveal_strlit("scalez");
    reveal_strlit("skew");
    reveal_strlit("skewx");
    reveal_strlit("skewy");
    reveal_strlit("translate");
    reveal_strlit("translate3d");
    reveal_strlit("translatex");
    reveal_strlit("translatey");
    reveal_strlit("translatez");
    lemma_keyword_differs("matrix"@, "scalex"@, 0);
    lemma_keyword_differs("matrix"@, "scaley"@, 0);
    lemma_keyword_differs("matrix"@, "scalez"@, 0);
    lemma_keyword_differs("matrix"@, "rotate"@, 0);
}

proof fn lemma_namematrix3d()
    ensures
        keyword_eq("matrix3d"@, "matrix3d"@),
        !keyword_eq("matrix3d"@, "matrix"@),
        !keyword_eq("matrix3d"@, "translate"@),
        !keyword_eq("matrix3d"@, "translatex"@),
        !keyword_eq("matrix3d"@, "translatey"@),
        !keyword_eq("matrix3d"@, "translatez"@),
        !keyword_eq("matrix3d"@, "translate3d"@),
        !keyword_eq("matrix3d"@, "scale"@),
        !keyword_eq("matrix3d"@, "scalex"@),
        !keyword_eq("matrix3d"@, "scaley"@),
        !keyword_eq("matrix3d"@, "scalez"@),
        !keyword_eq("matrix3d"@, "scale3d"@),
        !keyword_eq("matrix3d"@, "rotate"@),
        !keyword_eq("matrix3d"@, "rotatex"@),
        !keyword_eq("matrix3d"@, "rotatey"@),
        !keyword_eq("matrix3d"@, "rotatez"@),
        !keyword_eq("matrix3d"@, "skewx"@),
        !keyword_eq("matrix3d"@, "skewy"@),
        !keyword_eq("matrix3d"@, "rotate3d"@),
        !keyword_eq("matrix3d"@, "skew"@),
        !keyword_eq("matrix3d"@, "perspective"@),
{
    reveal_strlit("matrix");
    reveal_strlit("matrix3d");
    reveal_strlit("perspective");
    reveal_strlit("rotate");
    reveal_strlit("rotate3d");
    reveal_strlit("rotatex");
    reveal_strlit("rotatey");
    reveal_strlit("rotatez");
    reveal_strlit("scale");
    reveal_strlit("scale3d");
    reveal_strlit("scalex");
    reveal_strlit("scaley");
    reveal_strlit("scalez");
    reveal_strlit("skew");
    reveal_strlit("skewx");
    reveal_strlit("skewy");
    reveal_strlit("translate");
    reveal_strlit("translate3d");
    reveal_strlit("translatex");
    reveal_strlit("translatey");
    reveal_strlit("translatez");
    lemma_keyword_differs("matrix3d"@, "rotate3d"@, 0);
}

/// Transforms whose printed form reads back as the same value: an omitted
/// second argument of `translate` or `skew` reads back as a zero in pixels
/// or degrees.
pub open spec fn transform_round_trips(t: Transform) -> bool {
    match t {
        Transform::Translate(_, y) => lp_is_zero(y) ==> y == LengthPercentage::Dimension(
            Length { value: Decimal { scaled: 0 }, unit: LengthUnit::Px },
        ),
        Transform::Skew(_, y) => angle_value(y).scaled == 0 ==> y == Angle::Deg(Decimal { scaled: 0 }),
        _ => true,
    }
}

/// A transform function, printed without minifying, reads back from its
/// tokens as the same function.
pub proof fn lemma_transform_round_trip(t: Transform, toks: Seq<Token>)
    requires
        transform_round_trips(t),
        views(toks) == transform_views(t),
    ensures
        transform_at(toks, 0) == Some((t, toks.len() as int)),
{
    let name = spec_call(t, false).0;
    let args = spec_call(t, false).1;
    let n = args.len();
    assert(n >= 1);
    lemma_args_views_index(args);
    let tv = transform_views(t);
    assert(tv.len() == 2 * n + 1);
    assert(views(toks).len() == toks.len());
    assert forall|i: int| 0 <= i < toks.len() implies token_view(#[trigger] toks[i]) == tv[i] by {
        assert(views(toks)[i] == token_view(toks[i]));
    }
    assert(token_view(toks[0]) == TokenView::Function(name));
    assert forall|k: int| 0 <= k < n implies is_argument(#[trigger] toks[1 + 2 * k]) && match args[k] {
        CallArg::Number(v) => toks[1 + 2 * k] is Number && number_value(toks[1 + 2 * k]) == v,
        CallArg::LengthPercentage(l) => length_percentage_of(toks[1 + 2 * k]) == Some(l),
        CallArg::Length(l) => length_of(toks[1 + 2 * k]) == Some(l),
        CallArg::Angle(x) => angle_of(toks[1 + 2 * k]) == Some(x),
        CallArg::Factor(f) => number_or_percentage_of(toks[1 + 2 * k]) == Some(f),
    } by {
        assert(tv[1 + 2 * k] == args_views(args)[2 * k]);
        lemma_arg_token(args[k], toks[1 + 2 * k]);
    }
    assert forall|k: int| 0 <= k < n - 1 implies (#[trigger] toks[1 + 2 * k + 1]) is Comma by {
        assert(tv[1 + 2 * k + 1] == args_views(args)[2 * k + 1]);
    }
    assert(toks[1 + 2 * n - 1] is CloseParen);
    lemma_arguments_shape(toks, 1, n);
    match t {
        Transform::Translate(..) => lemma_nametranslate(),
        Transform::TranslateX(..) => lemma_nametranslate_x(),
        Transform::TranslateY(..) => lemma_nametranslate_y(),
        Transform::TranslateZ(..) => lemma_nametranslate_z(),
        Transform::Translate3d(..) => lemma_nametranslate3d(),
        Transform::Scale(..) => lemma_namescale(),
        Transform::ScaleX(..) => lemma_namescale_x(),
        Transform::ScaleY(..) => lemma_namescale_y(),
        Transform::ScaleZ(..) => lemma_namescale_z(),
        Transform::Scale3d(..) => lemma_namescale3d(),
        Transform::Rotate(..) => lemma_namerotate(),
        Transform::RotateX(..) => lemma_namerotate_x(),
        Transform::RotateY(..) => lemma_namerotate_y(),
        Transform::RotateZ(..) => lemma_namerotate_z(),
        Transform::Rotate3d(..) => lemma_namerotate3d(),
        Transform::Skew(..) => lemma_nameskew(),
        Transform::SkewX(..) => lemma_nameskew_x(),
        Transform::SkewY(..) => lemma_nameskew_y(),
        Transform::Perspective(..) => lemma_nameperspective(),
        Transform::Matrix(..) => lemma_namematrix(),
        Transform::Matrix3d(..) => lemma_namematrix3d(),
    }
}

} // verus!
