//! The score of a Pong match and the text that shows it.
use vstd::prelude::*;
use vstd::string::*;

verus! {

/// The half of the field through which the ball left: `Right` when its
/// horizontal position was above zero.
#[derive(Clone, Copy, Debug, PartialEq, Eq, Structural)]
pub enum Side {
    Left,
    Right,
}

/// Points of the left player (`p1`, bar 0) and of the right player (`p2`).
#[derive(Clone, Copy, Debug, PartialEq, Eq, Structural)]
pub struct Score {
    pub p1: u32,
    pub p2: u32,
}

/// Whether the point for a ball leaving on `side` fits in the counter.
pub open spec fn spec_can_award(s: Score, side: Side) -> bool {
    match side {
        Side::Right => s.p1 < u32::MAX,
        Side::Left => s.p2 < u32::MAX,
    }
}

/// A ball leaving on the right is a point for the left player, one leaving
/// on the left a point for the right player.
pub open spec fn spec_award(s: Score, side: Side) -> Score {
    match side {
        Side::Right => Score { p1: (s.p1 + 1) as u32, p2: s.p2 },
        Side::Left => Score { p1: s.p1, p2: (s.p2 + 1) as u32 },
    }
}

impl Score {
    /// No points yet.
    pub fn new() -> (s: Score)
        ensures
            s == (Score { p1: 0, p2: 0 }),
    {
        Score { p1: 0, p2: 0 }
    }

    /// Counts the point for a ball that left on `side`.
    pub fn award(&mut self, side: Side)
        requires
            spec_can_award(*old(self), side),
        ensures
            *final(self) == spec_award(*old(self), side),
    {
        match side {
            Side::Right => self.p1 = self.p1 + 1,
            Side::Left => self.p2 = self.p2 + 1,
        }
    }

    /// The score text, both counts with at least two digits.
    pub fn text(&self) -> (t: String)
        ensures
            t@ == spec_score_text(self.p1 as nat, self.p2 as nat),
    {
        score_text(self.p1, self.p2)
    }
}

/// The character of a decimal digit.
pub open spec fn spec_digit(d: nat) -> char
    recommends
        d < 10,
{
    seq!['0', '1', '2', '3', '4', '5', '6', '7', '8', '9'][d as int]
}

/// Whether `c` is a decimal digit.
pub open spec fn spec_is_digit(c: char) -> bool {
    '0' <= c <= '9'
}

/// The decimal digits of `n`, most significant first, without leading zeros.
pub open spec fn spec_decimal(n: nat) -> Seq<char>
    decreases n,
{
    if n < 10 {
        seq![spec_digit(n)]
    } else {
        spec_decimal(n / 10).push(spec_digit(n % 10))
    }
}

/// `n` in decimal with at least two digits, padded with a leading zero.
pub open spec fn spec_padded2(n: nat) -> Seq<char> {
    if n < 10 {
        seq!['0', spec_digit(n)]
    } else {
        spec_decimal(n)
    }
}

/// The separator between the two counts.
pub open spec fn spec_separator() -> Seq<char> {
    seq![' ', '|', ' ']
}

/// The score text: the left count, " | ", the right count.
pub open spec fn spec_score_text(p1: nat, p2: nat) -> Seq<char> {
    spec_padded2(p1) + spec_separator() + spec_padded2(p2)
}

fn digit_str(d: u32) -> (s: &'static str)
    requires
        d < 10,
    ensures
        s@ == seq![spec_digit(d as nat)],
{
    proof {
        reveal_strlit("0");
        reveal_strlit("1");
        reveal_strlit("2");
        reveal_strlit("3");
        reveal_strlit("4");
        reveal_strlit("5");
        reveal_strlit("6");
        reveal_strlit("7");
        reveal_strlit("8");
        reveal_strlit("9");
    }
    match d {
        0 => "0",
        1 => "1",
        2 => "2",
        3 => "3",
        4 => "4",
        5 => "5",
        6 => "6",
        7 => "7",
        8 => "8",
        _ => "9",
    }
}

fn push_decimal(out: &mut String, n: u32)
    ensures
        final(out)@ == old(out)@ + spec_decimal(n as nat),
    decreases n,
{
    if n >= 10 {
        push_decimal(out, n / 10);
    }
    out.append(digit_str(n % 10));
    proof {
        if n >= 10 {
            assert(spec_decimal(n as nat) == spec_decimal((n / 10) as nat).push(spec_digit((n % 10) as nat)));
        } else {
            assert(n % 10 == n);
        }
    }
}

/// The score text shown above the field, as `{:02} | {:02}` formats it.
pub fn score_text(p1: u32, p2: u32) -> (t: String)
    ensures
        t@ == spec_score_text(p1 as nat, p2 as nat),
{
    let mut t = String::new();
    if p1 < 10 {
        t.append("0");
    }
    push_decimal(&mut t, p1);
    t.append(" | ");
    if p2 < 10 {
        t.append("0");
    }
    push_decimal(&mut t, p2);
    proof {
        reveal_strlit("0");
        reveal_strlit(" | ");
    }
    t
}


/// A goal adds exactly one point to the total, to the player on the far
/// side from where the ball left, and takes none away.
pub proof fn lemma_award_one_point(s: Score, side: Side)
    requires
        spec_can_award(s, side),
    ensures
        spec_award(s, side).p1 + spec_award(s, side).p2 == s.p1 + s.p2 + 1,
        spec_award(s, side).p1 >= s.p1,
        spec_award(s, side).p2 >= s.p2,
        (side == Side::Right) == (spec_award(s, side).p1 == s.p1 + 1),
{
}

/// The number that a string of decimal digits denotes.
pub open spec fn spec_digits_value(s: Seq<char>) -> nat
    decreases s.len(),
{
    if s.len() == 0 {
        0
    } else {
        spec_digits_value(s.drop_last()) * 10 + ((s.last() as nat) - ('0' as nat)) as nat
    }
}

proof fn lemma_digit(d: nat)
    requires
        d < 10,
    ensures
        spec_is_digit(spec_digit(d)),
        (spec_digit(d) as nat) - ('0' as nat) == d,
{
    let ds = seq!['0', '1', '2', '3', '4', '5', '6', '7', '8', '9'];
    assert(ds[0] == '0' && ds[1] == '1' && ds[2] == '2' && ds[3] == '3' && ds[4] == '4');
    assert(ds[5] == '5' && ds[6] == '6' && ds[7] == '7' && ds[8] == '8' && ds[9] == '9');
}

proof fn lemma_decimal_digits(n: nat)
    ensures
        forall|i: int| 0 <= i < spec_decimal(n).len() ==> spec_is_digit(#[trigger] spec_decimal(n)[i]),
        spec_digits_value(spec_decimal(n)) == n,
        spec_decimal(n).len() >= 1,
    decreases n,
{
    lemma_digit(n % 10);
    if n >= 10 {
        lemma_decimal_digits(n / 10);
        let d = spec_decimal(n);
        assert(d.drop_last() =~= spec_decimal(n / 10));
        assert(d.last() == spec_digit(n % 10));
        assert(spec_digits_value(d) == spec_digits_value(d.drop_last()) * 10 + (n % 10));
        assert(n == (n / 10) * 10 + n % 10);
    } else {
        let d = spec_decimal(n);
        assert(d.drop_last() =~= Seq::<char>::empty());
        assert(d.last() == spec_digit(n));
        assert(spec_digits_value(d.drop_last()) == 0);
        assert(spec_digits_value(d) == n);
    }
}

proof fn lemma_padded2_digits(n: nat)
    ensures
        forall|i: int| 0 <= i < spec_padded2(n).len() ==> spec_is_digit(#[trigger] spec_padded2(n)[i]),
        spec_digits_value(spec_padded2(n)) == n,
        spec_padded2(n).len() >= 2,
{
    lemma_decimal_digits(n);
    if n < 10 {
        lemma_digit(n);
        lemma_digit(0);
        let p = spec_padded2(n);
        let z = seq!['0'];
        assert(p.drop_last() =~= z);
        assert(z.drop_last() =~= Seq::<char>::empty());
        assert(z.last() == '0');
        assert(spec_digits_value(z.drop_last()) == 0);
        assert(spec_digits_value(z) == 0);
        assert(p.last() == spec_digit(n));
        assert(spec_digits_value(p) == n);
    } else {
        assert(spec_decimal(n).len() >= 2) by {
            assert(spec_decimal(n) == spec_decimal(n / 10).push(spec_digit(n % 10)));
            lemma_decimal_digits(n / 10);
        }
    }
}

/// The score text determines the score: two scores with the same text are
/// the same score.
pub proof fn lemma_score_text_injective(a1: nat, a2: nat, b1: nat, b2: nat)
    requires
        spec_score_text(a1, a2) == spec_score_text(b1, b2),
    ensures
        a1 == b1,
        a2 == b2,
{
    lemma_padded2_digits(a1);
    lemma_padded2_digits(a2);
    lemma_padded2_digits(b1);
    lemma_padded2_digits(b2);
    let t = spec_score_text(a1, a2);
    let pa = spec_padded2(a1);
    let pb = spec_padded2(b1);
    let la: int = pa.len() as int;
    let lb: int = pb.len() as int;
    if la < lb {
        assert(t[la] == ' ');
        assert(t[la] == pb[la]);
        assert(spec_is_digit(pb[la]));
    } else if lb < la {
        assert(t[lb] == ' ');
        assert(t[lb] == pa[lb]);
        assert(spec_is_digit(pa[lb]));
    }
    assert(la == lb);
    assert(pa =~= t.subrange(0, la));
    assert(pb =~= t.subrange(0, la));
    assert(spec_padded2(a2) =~= t.subrange(la + 3, t.len() as int));
    assert(spec_padded2(b2) =~= t.subrange(la + 3, t.len() as int));
}

} // verus!
