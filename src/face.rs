use vstd::prelude::*;

verus! {

/// The pet's facial expression. `Sad`, `Confused` and `Surprised` are reached
/// by no transition, but keep their glyphs.
#[derive(PartialEq, Eq, Structural, Clone, Copy, Debug)]
pub enum FacialExpression {
    Calm,
    Happy,
    Sad,
    Confused,
    Surprised,
    Angry,
    Sleeping,
}

/// The glyph drawn for each expression.
pub open spec fn glyph_of(face: FacialExpression) -> Seq<char> {
    match face {
        FacialExpression::Calm => "(─‿‿─)"@,
        FacialExpression::Happy => "o(≧▽≦)o"@,
        FacialExpression::Sad => "(￣ヘ￣)"@,
        FacialExpression::Confused => "╮(￣ω￣;)╭"@,
        FacialExpression::Surprised => "ヽ(°〇°)ﾉ"@,
        FacialExpression::Angry => "(╯°□°)╯︵ ┻━┻"@,
        FacialExpression::Sleeping => "(－ω－) zzZ"@,
    }
}

impl FacialExpression {
    /// The glyph that shows this expression.
    pub fn glyph(&self) -> (r: &'static str)
        ensures
            r@ == glyph_of(*self),
    {
        match self {
            FacialExpression::Calm => "(─‿‿─)",
            FacialExpression::Happy => "o(≧▽≦)o",
            FacialExpression::Sad => "(￣ヘ￣)",
            FacialExpression::Confused => "╮(￣ω￣;)╭",
            FacialExpression::Surprised => "ヽ(°〇°)ﾉ",
            FacialExpression::Angry => "(╯°□°)╯︵ ┻━┻",
            FacialExpression::Sleeping => "(－ω－) zzZ",
        }
    }
}

} // verus!
