//! Pure formatting of the values the widgets display: decimal numbers,
//! two-decimal rounding, memory amounts with unit switching, percentages,
//! time remaining, and the joining of several texts with a separator.

use vstd::prelude::*;

verus! {

/// The character for one decimal digit.
pub open spec fn digit_char(d: int) -> char {
    if d == 0 {
        '0'
    } else if d == 1 {
        '1'
    } else if d == 2 {
        '2'
    } else if d == 3 {
        '3'
    } else if d == 4 {
        '4'
    } else if d == 5 {
        '5'
    } else if d == 6 {
        '6'
    } else if d == 7 {
        '7'
    } else if d == 8 {
        '8'
    } else {
        '9'
    }
}

/// The decimal digits of `n`, most significant first.
pub open spec fn dec_text(n: nat) -> Seq<char>
    decreases n,
{
    if n < 10 {
        seq![digit_char(n as int)]
    } else {
        dec_text(n / 10) + seq![digit_char((n % 10) as int)]
    }
}

/// The decimal digits of `t`, with a leading minus sign when `t` is negative.
pub open spec fn int_text(t: int) -> Seq<char> {
    if t < 0 {
        seq!['-'] + dec_text((-t) as nat)
    } else {
        dec_text(t as nat)
    }
}

/// A count of hundredths rendered as a decimal number with up to two
/// fractional digits; trailing fractional zeros are not written.
pub open spec fn two_dec_text(h: nat) -> Seq<char> {
    let f = h % 100;
    if f == 0 {
        dec_text(h / 100)
    } else if f % 10 == 0 {
        dec_text(h / 100) + seq!['.', digit_char((f / 10) as int)]
    } else {
        dec_text(h / 100) + seq!['.', digit_char((f / 10) as int), digit_char((f % 10) as int)]
    }
}

/// A memory amount of `kb` kilobytes: below one thousand it stays in
/// kilobytes, below one million it is divided by one thousand and rounded
/// to two decimals, above that divided by one million likewise.
pub open spec fn mem_text(kb: nat) -> Seq<char> {
    if kb < 1000 {
        dec_text(kb) + seq![' ', 'K', 'b']
    } else if kb < 1000000 {
        two_dec_text((kb + 5) / 10) + seq![' ', 'M', 'b']
    } else {
        two_dec_text(kb / 10000 + if kb % 10000 >= 5000 { 1nat } else { 0nat }) + seq![' ', 'G', 'b']
    }
}

/// A percentage with up to two decimals, from a count of hundredths of
/// a percent.
pub open spec fn percent_text(h: nat) -> Seq<char> {
    two_dec_text(h) + seq!['%']
}

/// A time span of `m` minutes: an hour count (rounded to the nearest hour)
/// once a full hour is reached, otherwise the minutes themselves.
pub open spec fn minutes_text(m: nat) -> Seq<char> {
    if m >= 60 {
        dec_text(m / 60 + if m % 60 >= 30 { 1nat } else { 0nat }) + seq!['h']
    } else {
        dec_text(m) + seq!['m']
    }
}

/// As `minutes_text`, marked as charging.
pub open spec fn charging_text(m: nat) -> Seq<char> {
    minutes_text(m) + seq![' ', '(', 'C', 'h', 'a', 'r', 'g', 'i', 'n', 'g', ')']
}

/// A temperature in whole degrees Celsius.
pub open spec fn celsius_text(t: int) -> Seq<char> {
    int_text(t) + seq![' ', '°', 'C']
}

/// `texts` joined with `sep` between each adjacent pair.
pub open spec fn join_texts(texts: Seq<Seq<char>>, sep: Seq<char>) -> Seq<char>
    decreases texts.len(),
{
    if texts.len() == 0 {
        Seq::empty()
    } else if texts.len() == 1 {
        texts[0]
    } else {
        texts[0] + sep + join_texts(texts.drop_first(), sep)
    }
}

/// Joining no texts yields the empty text; one text stays as it is; two
/// texts take exactly one separator between them.
pub proof fn lemma_join_small(texts: Seq<Seq<char>>, sep: Seq<char>)
    ensures
        texts.len() == 0 ==> join_texts(texts, sep) == Seq::<char>::empty(),
        texts.len() == 1 ==> join_texts(texts, sep) == texts[0],
        texts.len() == 2 ==> join_texts(texts, sep) == texts[0] + sep + texts[1],
{
    if texts.len() == 2 {
        assert(texts.drop_first().len() == 1);
        assert(join_texts(texts.drop_first(), sep) == texts[1]);
    }
}

/// Appending one more text to a join appends one separator and that text.
pub proof fn lemma_join_push(texts: Seq<Seq<char>>, sep: Seq<char>, t: Seq<char>)
    ensures
        texts.len() == 0 ==> join_texts(texts.push(t), sep) == t,
        texts.len() > 0 ==> join_texts(texts.push(t), sep) == join_texts(texts, sep) + sep + t,
    decreases texts.len(),
{
    let p = texts.push(t);
    if texts.len() == 0 {
        assert(p.len() == 1);
        assert(p[0] == t);
    } else if texts.len() == 1 {
        assert(p.len() == 2);
        assert(p.drop_first() =~= seq![t]);
        assert(join_texts(p.drop_first(), sep) == t);
    } else {
        lemma_join_push(texts.drop_first(), sep, t);
        assert(p.drop_first() =~= texts.drop_first().push(t));
        assert(texts[0] + sep + (join_texts(texts.drop_first(), sep) + sep + t) =~= (texts[0] + sep
            + join_texts(texts.drop_first(), sep)) + sep + t);
    }
}

fn digit_str(d: u64) -> (r: &'static str)
    requires
        d < 10,
    ensures
        r@ == seq![digit_char(d as int)],
{
    proof {
        reveal_strlit("0");
        reveal_strlit("1");
        reveal_strlit("2");
        reveal_strlit("3");
        reveal_strlit("4");
        reveal_strlit("5");
        reveal_strlit("6");
        reveal_strlit("7");
        reveal_strlit("8");
        reveal_strlit("9");
    }
    let r: &'static str = match d {
        0 => "0",
        1 => "1",
        2 => "2",
        3 => "3",
        4 => "4",
        5 => "5",
        6 => "6",
        7 => "7",
        8 => "8",
        _ => "9",
    };
    proof {
        assert(r@ =~= seq![digit_char(d as int)]);
    }
    r
}

/// Renders `n` in decimal.
pub fn dec_string(n: u64) -> (s: String)
    ensures
        s@ == dec_text(n as nat),
    decreases n,
{
    if n < 10 {
        let mut s = String::new();
        s.append(digit_str(n));
        s
    } else {
        let mut s = dec_string(n / 10);
        s.append(digit_str(n % 10));
        s
    }
}

/// Renders `t` in decimal, with a minus sign when negative.
pub fn int_string(t: i64) -> (s: String)
    ensures
        s@ == int_text(t as int),
{
    if t >= 0 {
        dec_string(t as u64)
    } else {
        let m: u64 = (-(t as i128)) as u64;
        proof {
            reveal_strlit("-");
        }
        let mut s = String::new();
        s.append("-");
        let d = dec_string(m);
        s.append(d.as_str());
        proof {
            assert(s@ =~= int_text(t as int));
        }
        s
    }
}

/// Renders a count of hundredths with up to two decimal places.
pub fn two_dec_string(h: u64) -> (s: String)
    ensures
        s@ == two_dec_text(h as nat),
{
    let f = h % 100;
    if f == 0 {
        dec_string(h / 100)
    } else {
        proof {
            reveal_strlit(".");
        }
        let mut s = dec_string(h / 100);
        s.append(".");
        s.append(digit_str(f / 10));
        if f % 10 != 0 {
            s.append(digit_str(f % 10));
        }
        proof {
            assert(s@ =~= two_dec_text(h as nat));
        }
        s
    }
}

/// Renders a memory amount of `kb` kilobytes with its unit.
pub fn mem_string(kb: u64) -> (s: String)
    ensures
        s@ == mem_text(kb as nat),
{
    if kb < 1000 {
        proof {
            reveal_strlit(" Kb");
        }
        let mut s = dec_string(kb);
        s.append(" Kb");
        proof {
            assert(s@ =~= mem_text(kb as nat));
        }
        s
    } else if kb < 1000000 {
        proof {
            reveal_strlit(" Mb");
        }
        let mut s = two_dec_string((kb + 5) / 10);
        s.append(" Mb");
        proof {
            assert(s@ =~= mem_text(kb as nat));
        }
        s
    } else {
        proof {
            reveal_strlit(" Gb");
        }
        let h = kb / 10000 + if kb % 10000 >= 5000 { 1 } else { 0 };
        let mut s = two_dec_string(h);
        s.append(" Gb");
        proof {
            assert(s@ =~= mem_text(kb as nat));
        }
        s
    }
}

/// Renders a percentage from hundredths of a percent.
pub fn percent_string(h: u64) -> (s: String)
    ensures
        s@ == percent_text(h as nat),
{
    proof {
        reveal_strlit("%");
    }
    let mut s = two_dec_string(h);
    s.append("%");
    proof {
        assert(s@ =~= percent_text(h as nat));
    }
    s
}

/// Renders a remaining time of `m` minutes.
pub fn minutes_string(m: u64) -> (s: String)
    ensures
        s@ == minutes_text(m as nat),
{
    if m >= 60 {
        proof {
            reveal_strlit("h");
        }
        let h = m / 60 + if m % 60 >= 30 { 1 } else { 0 };
        let mut s = dec_string(h);
        s.append("h");
        proof {
            assert(s@ =~= minutes_text(m as nat));
        }
        s
    } else {
        proof {
            reveal_strlit("m");
        }
        let mut s = dec_string(m);
        s.append("m");
        proof {
            assert(s@ =~= minutes_text(m as nat));
        }
        s
    }
}

/// Renders a remaining charging time of `m` minutes.
pub fn charging_string(m: u64) -> (s: String)
    ensures
        s@ == charging_text(m as nat),
{
    proof {
        reveal_strlit(" (Charging)");
    }
    let mut s = minutes_string(m);
    s.append(" (Charging)");
    proof {
        assert(s@ =~= charging_text(m as nat));
    }
    s
}

/// Renders a temperature in whole degrees Celsius.
pub fn celsius_string(t: i64) -> (s: String)
    ensures
        s@ == celsius_text(t as int),
{
    proof {
        reveal_strlit(" °C");
    }
    let mut s = int_string(t);
    s.append(" °C");
    proof {
        assert(s@ =~= celsius_text(t as int));
    }
    s
}

/// Joins `texts` with `sep` between each adjacent pair.
pub fn join_strings(texts: &Vec<String>, sep: &str) -> (r: String)
    ensures
        r@ == join_texts(texts@.map_values(|t: String| t@), sep@),
{
    let ghost m = texts@.map_values(|t: String| t@);
    let mut r = String::new();
    let mut i: usize = 0;
    while i < texts.len()
        invariant
            i <= texts.len(),
            m == texts@.map_values(|t: String| t@),
            r@ == join_texts(m.take(i as int), sep@),
        decreases texts.len() - i,
    {
        if i > 0 {
            r.append(sep);
        }
        r.append(texts[i].as_str());
        proof {
            lemma_join_push(m.take(i as int), sep@, m[i as int]);
            assert(m.take(i as int + 1) =~= m.take(i as int).push(m[i as int]));
            if i == 0 {
                assert(r@ =~= m[0]);
            }
        }
        i = i + 1;
    }
    proof {
        assert(m.take(texts@.len() as int) =~= m);
    }
    r
}

} // verus!
