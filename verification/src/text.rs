//! Text by its characters: comparing strings, joining them, and writing a
//! number in decimal.

use vstd::prelude::*;
use vstd::string::*;

verus! {

/// Whether two strings hold the same characters.
pub fn str_eq(a: &str, b: &str) -> (r: bool)
    ensures
        r == (a@ == b@),
{
    let n = a.unicode_len();
    if n != b.unicode_len() {
        return false;
    }
    let mut i: usize = 0;
    while i < n
        invariant
            n == a@.len(),
            n == b@.len(),
            i <= n,
            forall|k: int| 0 <= k < i ==> a@[k] == b@[k],
        decreases n - i,
    {
        if a.get_char(i) != b.get_char(i) {
            return false;
        }
        i += 1;
    }
    assert(a@ =~= b@);
    true
}

/// `parts`, in order, with `sep` between each two of them.
pub open spec fn spec_join(parts: Seq<Seq<char>>, sep: Seq<char>) -> Seq<char>
    decreases parts.len(),
{
    if parts.len() == 0 {
        Seq::empty()
    } else if parts.len() == 1 {
        parts[0]
    } else {
        spec_join(parts.drop_last(), sep) + sep + parts.last()
    }
}

/// The strings of `parts`, in order, with `sep` between each two of them.
pub fn join(parts: &[String], sep: &str) -> (r: String)
    ensures
        r@ == spec_join(parts@.map_values(|s: String| s@), sep@),
{
    let ghost v = parts@.map_values(|s: String| s@);
    let mut s = String::new();
    let mut i: usize = 0;
    while i < parts.len()
        invariant
            i <= parts@.len(),
            v == parts@.map_values(|s: String| s@),
            s@ == spec_join(v.take(i as int), sep@),
        decreases parts@.len() - i,
    {
        assert(v.take(i + 1).drop_last() =~= v.take(i as int));
        assert(v.take(i + 1).last() == parts@[i as int]@);
        if i == 0 {
            s.append(parts[i].as_str());
            assert(v.take(1) =~= seq![parts@[0]@]);
            assert(s@ =~= parts@[0]@);
        } else {
            s.append(sep);
            s.append(parts[i].as_str());
        }
        i += 1;
    }
    assert(v.take(i as int) =~= v);
    s
}

/// The character of decimal digit `d`.
pub open spec fn spec_digit(d: int) -> char {
    (d + 48) as char
}

/// The decimal writing of `n`, most significant digit first, with no
/// leading zero.
pub open spec fn spec_decimal(n: nat) -> Seq<char>
    decreases n,
{
    if n < 10 {
        seq![spec_digit(n as int)]
    } else {
        spec_decimal(n / 10).push(spec_digit((n % 10) as int))
    }
}

/// The one-character string of decimal digit `d`.
fn digit(d: usize) -> (r: &'static str)
    requires
        d < 10,
    ensures
        r@ == seq![spec_digit(d as int)],
{
    proof {
        reveal_strlit("0");
        reveal_strlit("1");
        reveal_strlit("2");
        reveal_strlit("3");
        reveal_strlit("4");
        reveal_strlit("5");
        reveal_strlit("6");
        reveal_strlit("7");
        reveal_strlit("8");
        reveal_strlit("9");
    }
    let r = match d {
        0 => "0",
        1 => "1",
        2 => "2",
        3 => "3",
        4 => "4",
        5 => "5",
        6 => "6",
        7 => "7",
        8 => "8",
        _ => "9",
    };
    assert(r@ =~= seq![spec_digit(d as int)]);
    r
}

/// `n` written in decimal.
pub fn decimal_u64(n: u64) -> (r: String)
    ensures
        r@ == spec_decimal(n as nat),
    decreases n,
{
    if n < 10 {
        let mut s = String::new();
        s.append(digit(n as usize));
        assert(s@ =~= spec_decimal(n as nat));
        s
    } else {
        let mut s = decimal_u64(n / 10);
        s.append(digit((n % 10) as usize));
        assert(s@ =~= spec_decimal(n as nat));
        s
    }
}

/// `n` written in decimal.
pub fn decimal(n: usize) -> (r: String)
    ensures
        r@ == spec_decimal(n as nat),
{
    decimal_u64(n as u64)
}

/// `s` between double quotes.
pub open spec fn spec_quoted(s: Seq<char>) -> Seq<char> {
    "\u{22}"@ + s + "\u{22}"@
}

/// A list of strings as a debugging listing spells it: `["a", "b"]`.
pub open spec fn spec_debug_list(items: Seq<Seq<char>>) -> Seq<char> {
    "["@ + spec_join(items.map_values(|s: Seq<char>| spec_quoted(s)), ", "@) + "]"@
}

/// A list of strings as a debugging listing spells it: `["a", "b"]`.
pub fn debug_list(items: &[String]) -> (r: String)
    ensures
        r@ == spec_debug_list(items@.map_values(|s: String| s@)),
{
    let ghost v = items@.map_values(|s: String| s@);
    let mut quoted: Vec<String> = Vec::new();
    let mut i: usize = 0;
    while i < items.len()
        invariant
            i <= items@.len(),
            v == items@.map_values(|s: String| s@),
            quoted@.map_values(|s: String| s@) == v.take(i as int).map_values(|s: Seq<char>| spec_quoted(s)),
        decreases items@.len() - i,
    {
        let mut q = "\u{22}".to_string();
        q.append(items[i].as_str());
        q.append("\u{22}");
        proof {
            assert(q@ == spec_quoted(v[i as int]));
            assert(quoted@.push(q).map_values(|s: String| s@) =~= quoted@.map_values(|s: String| s@).push(q@));
            assert(v.take(i + 1).map_values(|s: Seq<char>| spec_quoted(s)) =~= v.take(i as int).map_values(
                |s: Seq<char>| spec_quoted(s),
            ).push(spec_quoted(v[i as int])));
        }
        quoted.push(q);
        i += 1;
    }
    assert(v.take(i as int) =~= v);
    let mut s = "[".to_string();
    s.append(join(quoted.as_slice(), ", ").as_str());
    s.append("]");
    s
}

} // verus!
