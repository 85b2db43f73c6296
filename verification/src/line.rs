//! The four weighted line symbols, the sum-to-symbol table, the canonical
//! glyph encoding, and the three-coin distribution law.

use vstd::prelude::*;
use vstd::assert_sets_equal;

verus! {

/// One line of a hexagram. Each carries a numeric code, a polarity (broken =
/// yin, solid = yang) and a volatility (changing or static): 6 = changing yin,
/// 7 = static yang, 8 = static yin, 9 = changing yang.
#[derive(Clone, Copy, PartialEq, Eq, Structural)]
pub enum Line {
    ChangingYin,
    StaticYang,
    StaticYin,
    ChangingYang,
}

/// The value of one weighted coin: 2 on a true flip (tails), 3 on a false one
/// (heads), each outcome having probability one half.
pub open spec fn coin_of(flip: bool) -> u8 {
    if flip {
        2
    } else {
        3
    }
}

/// The fixed table mapping a three-coin sum to its line.
pub open spec fn line_of_sum(sum: int) -> Line
    recommends
        6 <= sum <= 9,
{
    if sum == 6 {
        Line::ChangingYin
    } else if sum == 7 {
        Line::StaticYang
    } else if sum == 8 {
        Line::StaticYin
    } else {
        Line::ChangingYang
    }
}

impl Line {
    /// The line's numeric code.
    pub open spec fn code_spec(self) -> u8 {
        match self {
            Line::ChangingYin => 6,
            Line::StaticYang => 7,
            Line::StaticYin => 8,
            Line::ChangingYang => 9,
        }
    }

    /// Broken (yin) as opposed to solid (yang).
    pub open spec fn broken(self) -> bool {
        self == Line::ChangingYin || self == Line::StaticYin
    }

    /// Changing as opposed to static.
    pub open spec fn changing(self) -> bool {
        self == Line::ChangingYin || self == Line::ChangingYang
    }

    pub fn code(self) -> (r: u8)
        ensures
            r == self.code_spec(),
    {
        match self {
            Line::ChangingYin => 6,
            Line::StaticYang => 7,
            Line::StaticYin => 8,
            Line::ChangingYang => 9,
        }
    }

    /// The canonical one-line glyph of this symbol.
    pub open spec fn glyph(self) -> Seq<char> {
        match self {
            Line::ChangingYin => "--- x --- 6"@,
            Line::StaticYang => "--------- 7"@,
            Line::StaticYin => "---   --- 8"@,
            Line::ChangingYang => "----o---- 9"@,
        }
    }

    /// The canonical one-line text of this symbol.
    pub fn text(self) -> (r: String)
        ensures
            r@ == self.glyph(),
    {
        match self {
            Line::ChangingYin => "--- x --- 6".to_owned(),
            Line::StaticYang => "--------- 7".to_owned(),
            Line::StaticYin => "---   --- 8".to_owned(),
            Line::ChangingYang => "----o---- 9".to_owned(),
        }
    }
}

/// The canonical text of a whole sequence of lines: the glyphs joined in
/// order with a single newline between consecutive lines, no trailing one.
pub open spec fn joined_glyphs(ls: Seq<Line>) -> Seq<char>
    decreases ls.len(),
{
    if ls.len() == 0 {
        Seq::empty()
    } else if ls.len() == 1 {
        ls[0].glyph()
    } else {
        joined_glyphs(ls.drop_last()) + seq!['\n'] + ls.last().glyph()
    }
}

/// Encodes a hexagram: the six glyph lines joined in draw order with single
/// newlines, no leading or trailing newline.
pub fn format_hexagram(ts: [Line; 6]) -> (r: String)
    ensures
        r@ == joined_glyphs(ts@),
{
    let mut out = ts[0].text();
    proof {
        assert(ts@.take(1) =~= seq![ts@[0]]);
    }
    let mut i: usize = 1;
    while i < 6
        invariant
            1 <= i <= 6,
            out@ == joined_glyphs(ts@.take(i as int)),
        decreases 6 - i,
    {
        out.append("\n");
        let t = ts[i].text();
        out.append(t.as_str());
        proof {
            reveal_strlit("\n");
            assert("\n"@ =~= seq!['\n']);
            assert(ts@.take(i as int + 1).drop_last() =~= ts@.take(i as int));
            assert(ts@.take(i as int + 1).last() == ts@[i as int]);
        }
        i = i + 1;
    }
    proof {
        assert(ts@.take(6) =~= ts@);
    }
    out
}

/// Law: the code determines polarity and volatility exactly as the fixed
/// table says: 6 = changing yin, 7 = static yang, 8 = static yin,
/// 9 = changing yang.
pub proof fn lemma_code_classification(l: Line)
    ensures
        l.code_spec() == 6 <==> l.broken() && l.changing(),
        l.code_spec() == 7 <==> !l.broken() && !l.changing(),
        l.code_spec() == 8 <==> l.broken() && !l.changing(),
        l.code_spec() == 9 <==> !l.broken() && l.changing(),
{
}

/// The sum of the three coin values of one flip triple.
pub open spec fn triple_code(t: (bool, bool, bool)) -> int {
    coin_of(t.0) + coin_of(t.1) + coin_of(t.2)
}

/// The flip triples whose coin values sum to `code`.
pub open spec fn triples_with_code(code: int) -> Set<(bool, bool, bool)> {
    Set::new(|t: (bool, bool, bool)| triple_code(t) == code)
}

/// Law: of the eight equally likely flip triples, exactly one sums to 6,
/// three to 7, three to 8 and one to 9 — the three-coin distribution
/// P(6) = 1/8, P(7) = 3/8, P(8) = 3/8, P(9) = 1/8.
pub proof fn lemma_three_coin_distribution()
    ensures
        triples_with_code(6).len() == 1,
        triples_with_code(7).len() == 3,
        triples_with_code(8).len() == 3,
        triples_with_code(9).len() == 1,
{
    assert_sets_equal!(triples_with_code(6), set![(true, true, true)]);
    assert_sets_equal!(
        triples_with_code(7),
        set![(true, true, false), (true, false, true), (false, true, true)]
    );
    assert_sets_equal!(
        triples_with_code(8),
        set![(true, false, false), (false, true, false), (false, false, true)]
    );
    assert_sets_equal!(triples_with_code(9), set![(false, false, false)]);
    lemma_small_set_lens();
}

proof fn lemma_small_set_lens()
    ensures
        set![(true, true, true)].len() == 1,
        set![(true, true, false), (true, false, true), (false, true, true)].len() == 3,
        set![(true, false, false), (false, true, false), (false, false, true)].len() == 3,
        set![(false, false, false)].len() == 1,
{
    broadcast use vstd::set::group_set_axioms;

    assert(Set::<(bool, bool, bool)>::empty().len() == 0);
}

} // verus!
