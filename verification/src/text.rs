//! Text building blocks: decimal numerals, separators and blank text.
use vstd::prelude::*;
use vstd::string::*;

verus! {

/// The decimal digit `d` as a character.
pub open spec fn digit(d: nat) -> char {
    (48 + d) as char
}

/// The decimal numeral of `n`, without leading zeros.
pub open spec fn decimal(n: nat) -> Seq<char>
    decreases n,
{
    if n < 10 {
        seq![digit(n)]
    } else {
        decimal(n / 10).push(digit(n % 10))
    }
}

/// Every part, each with `separator` in front of it, in order.
pub open spec fn each_after(separator: Seq<char>, parts: Seq<Seq<char>>) -> Seq<char>
    decreases parts.len(),
{
    if parts.len() == 0 {
        Seq::empty()
    } else {
        each_after(separator, parts.drop_last()) + separator + parts.last()
    }
}

/// The parts in order, with `separator` between neighbours.
pub open spec fn joined(parts: Seq<Seq<char>>, separator: Seq<char>) -> Seq<char> {
    if parts.len() == 0 {
        Seq::empty()
    } else {
        parts.first() + each_after(separator, parts.drop_first())
    }
}

/// The characters with the Unicode property `White_Space`.
pub open spec fn is_white_space(c: char) -> bool {
    let n = c as int;
    ||| 0x9 <= n <= 0xd
    ||| n == 0x20
    ||| n == 0x85
    ||| n == 0xa0
    ||| n == 0x1680
    ||| 0x2000 <= n <= 0x200a
    ||| n == 0x2028
    ||| n == 0x2029
    ||| n == 0x202f
    ||| n == 0x205f
    ||| n == 0x3000
}

/// Text that holds nothing but white space, or nothing at all.
pub open spec fn blank(s: Seq<char>) -> bool {
    forall|i: int| 0 <= i < s.len() ==> is_white_space(#[trigger] s[i])
}

/// `kept` is what stands in `s` between the two places, with nothing but white
/// space around it, and neither begins nor ends with white space.
pub open spec fn trimmed_between(s: Seq<char>, kept: Seq<char>, from: int, to: int) -> bool {
    &&& 0 <= from <= to <= s.len()
    &&& kept == s.subrange(from, to)
    &&& blank(s.subrange(0, from))
    &&& blank(s.subrange(to, s.len() as int))
    &&& kept.len() > 0 ==> !is_white_space(kept.first()) && !is_white_space(kept.last())
}

/// `kept` is `s` without its leading and trailing white space.
pub open spec fn trimmed(s: Seq<char>, kept: Seq<char>) -> bool {
    exists|from: int, to: int| trimmed_between(s, kept, from, to)
}

/// `str::trim` of the standard library removes leading and trailing white
/// space, as the Unicode property `White_Space` defines it, and nothing else.
pub assume_specification[ str::trim ](s: &str) -> (kept: &str)
    ensures
        trimmed(s@, kept@),
;

/// Whether the text is blank.
pub fn is_blank(s: &str) -> (b: bool)
    ensures
        b == blank(s@),
{
    let kept = s.trim();
    proof {
        let (from, to): (int, int) = choose|from: int, to: int|
            trimmed_between(s@, kept@, from, to);
        if kept@.len() == 0 {
            assert forall|i: int| 0 <= i < s@.len() implies is_white_space(#[trigger] s@[i]) by {
                if i < from {
                    assert(s@.subrange(0, from)[i] == s@[i]);
                } else {
                    assert(s@.subrange(to, s@.len() as int)[i - to] == s@[i]);
                }
            }
        } else {
            assert(s@[from] == kept@.first());
        }
    }
    kept.is_empty()
}

/// The numeral of one digit.
fn digit_text(d: u8) -> (s: &'static str)
    requires
        d < 10,
    ensures
        s@ == seq![digit(d as nat)],
{
    proof {
        reveal_strlit("0");
        reveal_strlit("1");
        reveal_strlit("2");
        reveal_strlit("3");
        reveal_strlit("4");
        reveal_strlit("5");
        reveal_strlit("6");
        reveal_strlit("7");
        reveal_strlit("8");
        reveal_strlit("9");
    }
    match d {
        0 => "0",
        1 => "1",
        2 => "2",
        3 => "3",
        4 => "4",
        5 => "5",
        6 => "6",
        7 => "7",
        8 => "8",
        _ => "9",
    }
}

/// The decimal numeral of a small number.
pub fn decimal_text(n: u8) -> (s: String)
    ensures
        s@ == decimal(n as nat),
    decreases n,
{
    if n < 10 {
        digit_text(n).to_string()
    } else {
        let mut s = decimal_text(n / 10);
        s.append(digit_text(n % 10));
        assert(s@ == decimal(n as nat));
        s
    }
}

/// Joins the parts with the separator between neighbours.
pub fn join_text(parts: &Vec<String>, separator: &str) -> (s: String)
    ensures
        s@ == joined(parts.deep_view(), separator@),
{
    let ghost all = parts.deep_view();
    if parts.len() == 0 {
        return String::new();
    }
    let mut s = parts[0].clone();
    let ghost tail = all.drop_first();
    let mut i: usize = 1;
    assert(tail.take(0) =~= Seq::empty());
    while i < parts.len()
        invariant
            1 <= i <= parts.len(),
            all == parts.deep_view(),
            tail == all.drop_first(),
            s@ == all.first() + each_after(separator@, tail.take(i - 1)),
        decreases parts.len() - i,
    {
        s.append(separator);
        s.append(parts[i].as_str());
        proof {
            let longer = tail.take(i as int);
            assert(longer.drop_last() =~= tail.take(i - 1));
            assert(longer.last() == all[i as int]);
            assert(s@ =~= all.first() + each_after(separator@, longer));
        }
        i = i + 1;
    }
    assert(tail.take(i - 1) =~= tail);
    s
}

/// `part` stands somewhere in `whole`.
pub open spec fn occurs(part: Seq<char>, whole: Seq<char>) -> bool {
    exists|at: int|
        0 <= at && at + part.len() <= whole.len() && part == #[trigger] whole.subrange(
            at,
            at + part.len(),
        )
}

/// What stands between two texts occurs in the whole.
pub proof fn lemma_occurs_between(before: Seq<char>, part: Seq<char>, after: Seq<char>)
    ensures
        occurs(part, before + part + after),
{
    let at = before.len() as int;
    assert((before + part + after).subrange(at, at + part.len()) =~= part);
}

/// What occurs in a part occurs in the whole.
pub proof fn lemma_occurs_in_larger(inner: Seq<char>, part: Seq<char>, whole: Seq<char>)
    requires
        occurs(inner, part),
        occurs(part, whole),
    ensures
        occurs(inner, whole),
{
    let i = choose|at: int|
        0 <= at && at + inner.len() <= part.len() && inner == #[trigger] part.subrange(
            at,
            at + inner.len(),
        );
    let j = choose|at: int|
        0 <= at && at + part.len() <= whole.len() && part == #[trigger] whole.subrange(
            at,
            at + part.len(),
        );
    assert(whole.subrange(i + j, i + j + inner.len()) =~= inner);
}

/// What occurs in the one or in the other of two texts occurs in both together.
pub proof fn lemma_occurs_in_sum(inner: Seq<char>, left: Seq<char>, right: Seq<char>)
    requires
        occurs(inner, left) || occurs(inner, right),
    ensures
        occurs(inner, left + right),
{
    if occurs(inner, left) {
        assert(left + right =~= Seq::empty() + left + right);
        lemma_occurs_between(Seq::empty(), left, right);
        lemma_occurs_in_larger(inner, left, left + right);
    } else {
        assert(left + right =~= left + right + Seq::empty());
        lemma_occurs_between(left, right, Seq::empty());
        lemma_occurs_in_larger(inner, right, left + right);
    }
}

/// Text occurs in itself.
pub proof fn lemma_occurs_in_itself(s: Seq<char>)
    ensures
        occurs(s, s),
{
    let at = 0int;
    assert(s.subrange(at, at + s.len()) =~= s);
}

/// Every part, wherever it stands in the list, occurs among the separated parts.
proof fn lemma_occurs_after_separator(separator: Seq<char>, parts: Seq<Seq<char>>, i: int)
    requires
        0 <= i < parts.len(),
    ensures
        occurs(parts[i], each_after(separator, parts)),
    decreases parts.len(),
{
    let front = each_after(separator, parts.drop_last());
    if i == parts.len() - 1 {
        assert(each_after(separator, parts) =~= (front + separator) + parts.last() + Seq::empty());
        lemma_occurs_between(front + separator, parts.last(), Seq::empty());
    } else {
        lemma_occurs_after_separator(separator, parts.drop_last(), i);
        assert(each_after(separator, parts) =~= Seq::empty() + front + (separator + parts.last()));
        lemma_occurs_between(Seq::empty(), front, separator + parts.last());
        lemma_occurs_in_larger(parts[i], front, each_after(separator, parts));
    }
}

/// Joining drops nothing: every part occurs in the joined text.
pub proof fn law_joined_holds_every_part(parts: Seq<Seq<char>>, separator: Seq<char>, i: int)
    requires
        0 <= i < parts.len(),
    ensures
        occurs(parts[i], joined(parts, separator)),
{
    let rest = each_after(separator, parts.drop_first());
    if i == 0 {
        assert(joined(parts, separator) =~= Seq::empty() + parts[0] + rest);
        lemma_occurs_between(Seq::empty(), parts[0], rest);
    } else {
        lemma_occurs_after_separator(separator, parts.drop_first(), i - 1);
        assert(joined(parts, separator) =~= parts[0] + rest + Seq::empty());
        lemma_occurs_between(parts[0], rest, Seq::empty());
        lemma_occurs_in_larger(parts[i], rest, joined(parts, separator));
    }
}

/// A numeral has at least one character, and all of them are digits.
pub proof fn lemma_decimal_is_digits(n: nat)
    ensures
        decimal(n).len() > 0,
        forall|i: int| 0 <= i < decimal(n).len() ==> 48 <= (#[trigger] decimal(n)[i]) as int <= 57,
    decreases n,
{
    if n >= 10 {
        lemma_decimal_is_digits(n / 10);
    }
}

/// Different numbers have different numerals.
pub proof fn law_decimal_is_unambiguous(a: nat, b: nat)
    requires
        decimal(a) == decimal(b),
    ensures
        a == b,
    decreases a,
{
    if a >= 10 {
        lemma_decimal_is_digits(a / 10);
    }
    if b >= 10 {
        lemma_decimal_is_digits(b / 10);
    }
    assert(decimal(a).last() == digit(a % 10));
    assert(decimal(b).last() == digit(b % 10));
    if a >= 10 && b >= 10 {
        assert(decimal(a).drop_last() =~= decimal(a / 10));
        assert(decimal(b).drop_last() =~= decimal(b / 10));
        law_decimal_is_unambiguous(a / 10, b / 10);
    }
}

} // verus!
