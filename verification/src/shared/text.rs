//! Text that requests are made of: decimal numbers and space-separated lists.
use vstd::prelude::*;

verus! {

/// The parts in order, with one space between neighbours.
pub open spec fn space_joined(parts: Seq<Seq<char>>) -> Seq<char>
    decreases parts.len(),
{
    if parts.len() == 0 {
        Seq::empty()
    } else if parts.len() == 1 {
        parts[0]
    } else {
        space_joined(parts.drop_last()) + seq![' '] + parts.last()
    }
}

/// The character of a decimal digit.
pub open spec fn digit_char(d: nat) -> char
    recommends
        d < 10,
{
    if d == 0 {
        '0'
    } else if d == 1 {
        '1'
    } else if d == 2 {
        '2'
    } else if d == 3 {
        '3'
    } else if d == 4 {
        '4'
    } else if d == 5 {
        '5'
    } else if d == 6 {
        '6'
    } else if d == 7 {
        '7'
    } else if d == 8 {
        '8'
    } else {
        '9'
    }
}

/// A number in decimal notation, without sign or leading zeros.
pub open spec fn decimal(n: nat) -> Seq<char>
    decreases n,
{
    if n < 10 {
        seq![digit_char(n)]
    } else {
        decimal(n / 10).push(digit_char(n % 10))
    }
}

/// Joining one more part puts it last, after a space unless it is the first.
pub proof fn lemma_space_joined_push(parts: Seq<Seq<char>>, part: Seq<char>)
    ensures
        space_joined(parts.push(part)) == if parts.len() == 0 {
            part
        } else {
            space_joined(parts) + seq![' '] + part
        },
{
    let longer = parts.push(part);
    assert(longer.drop_last() =~= parts);
    assert(longer.last() == part);
}

/// Each part stands whole in the joined text, in the order given: part `i`
/// ends where the joined text of the first `i + 1` parts ends, and every part
/// but the first has exactly one space before it.
pub proof fn lemma_space_joined_keeps_parts(parts: Seq<Seq<char>>, i: int)
    requires
        0 <= i < parts.len(),
    ensures
        parts[i].len() <= space_joined(parts.take(i + 1)).len() <= space_joined(parts).len(),
        space_joined(parts).subrange(
            space_joined(parts.take(i + 1)).len() - parts[i].len(),
            space_joined(parts.take(i + 1)).len() as int,
        ) == parts[i],
        i > 0 ==> space_joined(parts.take(i + 1)).len() == space_joined(parts.take(i)).len() + 1
            + parts[i].len(),
        i > 0 ==> space_joined(parts)[space_joined(parts.take(i)).len() as int] == ' ',
{
    let upto = parts.take(i + 1);
    let whole = space_joined(parts);
    let head = space_joined(upto);
    assert(upto.drop_last() =~= parts.take(i));
    assert(upto.last() == parts[i]);
    lemma_space_joined_prefix(parts, i + 1);
    assert(whole.subrange(0, head.len() as int) == head);
    assert(head.subrange(head.len() - parts[i].len(), head.len() as int) =~= parts[i]);
    assert(whole.subrange(head.len() - parts[i].len(), head.len() as int) =~= whole.subrange(
        0,
        head.len() as int,
    ).subrange(head.len() - parts[i].len(), head.len() as int));
    if i > 0 {
        let before = space_joined(parts.take(i));
        assert(head == before + seq![' '] + parts[i]);
        assert(head[before.len() as int] == ' ');
        assert(whole.subrange(0, head.len() as int)[before.len() as int]
            == whole[before.len() as int]);
    }
}

/// The joined text of the first `n` parts begins the joined text of all.
pub proof fn lemma_space_joined_prefix(parts: Seq<Seq<char>>, n: int)
    requires
        0 <= n <= parts.len(),
    ensures
        space_joined(parts.take(n)).len() <= space_joined(parts).len(),
        space_joined(parts).subrange(0, space_joined(parts.take(n)).len() as int) == space_joined(
            parts.take(n),
        ),
    decreases parts.len() - n,
{
    if n == parts.len() {
        assert(parts.take(n) =~= parts);
    } else {
        lemma_space_joined_prefix(parts, n + 1);
        let next = parts.take(n + 1);
        assert(next.drop_last() =~= parts.take(n));
        if n == 0 {
            assert(space_joined(parts.take(0)) =~= Seq::<char>::empty());
        }
    }
}

/// The text of one decimal digit.
fn digit_str(d: u32) -> (s: &'static str)
    requires
        d < 10,
    ensures
        s@ == seq![digit_char(d as nat)],
{
    proof {
        reveal_strlit("0");
        reveal_strlit("1");
        reveal_strlit("2");
        reveal_strlit("3");
        reveal_strlit("4");
        reveal_strlit("5");
        reveal_strlit("6");
        reveal_strlit("7");
        reveal_strlit("8");
        reveal_strlit("9");
    }
    let s = if d == 0 {
        "0"
    } else if d == 1 {
        "1"
    } else if d == 2 {
        "2"
    } else if d == 3 {
        "3"
    } else if d == 4 {
        "4"
    } else if d == 5 {
        "5"
    } else if d == 6 {
        "6"
    } else if d == 7 {
        "7"
    } else if d == 8 {
        "8"
    } else {
        "9"
    };
    assert(s@ =~= seq![digit_char(d as nat)]);
    s
}

/// Writes a number as request parameters carry it: in decimal.
pub fn decimal_string(n: u32) -> (s: String)
    ensures
        s@ == decimal(n as nat),
    decreases n,
{
    if n < 10 {
        digit_str(n).to_owned()
    } else {
        let mut s = decimal_string(n / 10);
        s.append(digit_str(n % 10));
        assert(s@ =~= decimal(n as nat));
        s
    }
}

/// Two texts one after the other.
pub fn glue(a: &str, b: &str) -> (s: String)
    ensures
        s@ == a@ + b@,
{
    let mut s = a.to_owned();
    s.append(b);
    s
}

/// Whether two texts hold the same characters.
pub fn same_text(a: &str, b: &str) -> (same: bool)
    ensures
        same == (a@ == b@),
{
    let x = a.to_owned();
    let y = b.to_owned();
    x == y
}

/// The parts in order, with one space between neighbours.
pub fn join_with_spaces(parts: &Vec<String>) -> (joined: String)
    ensures
        joined@ == space_joined(parts@.map_values(|p: String| p@)),
{
    let ghost texts = parts@.map_values(|p: String| p@);
    let mut joined = String::new();
    let mut i: usize = 0;
    while i < parts.len()
        invariant
            i <= parts.len(),
            texts == parts@.map_values(|p: String| p@),
            joined@ == space_joined(texts.take(i as int)),
        decreases parts.len() - i,
    {
        proof {
            lemma_space_joined_push(texts.take(i as int), texts[i as int]);
            assert(texts.take(i as int).push(texts[i as int]) =~= texts.take(i + 1));
        }
        if i > 0 {
            proof {
                reveal_strlit(" ");
                assert(" "@ =~= seq![' ']);
            }
            joined.append(" ");
        }
        joined.append(parts[i].as_str());
        i += 1;
    }
    assert(texts.take(parts.len() as int) =~= texts);
    joined
}

} // verus!
