//! Text: trimming, searching, decoding and the decimal form of a number.
use vstd::prelude::*;
use vstd::utf8::{decode_utf8, valid_utf8};

verus! {

/// The characters with the Unicode property `White_Space`.
pub open spec fn is_white_space(c: char) -> bool {
    ||| '\u{9}' <= c <= '\u{d}'
    ||| c == '\u{20}'
    ||| c == '\u{85}'
    ||| c == '\u{a0}'
    ||| c == '\u{1680}'
    ||| '\u{2000}' <= c <= '\u{200a}'
    ||| c == '\u{2028}'
    ||| c == '\u{2029}'
    ||| c == '\u{202f}'
    ||| c == '\u{205f}'
    ||| c == '\u{3000}'
}

/// `s` without the white space that it starts with.
pub open spec fn trimmed_start(s: Seq<char>) -> Seq<char>
    decreases s.len(),
{
    if s.len() > 0 && is_white_space(s.first()) {
        trimmed_start(s.drop_first())
    } else {
        s
    }
}

/// `s` without the white space that it ends with.
pub open spec fn trimmed_end(s: Seq<char>) -> Seq<char>
    decreases s.len(),
{
    if s.len() > 0 && is_white_space(s.last()) {
        trimmed_end(s.drop_last())
    } else {
        s
    }
}

/// `s` without white space at either end.
pub open spec fn trimmed(s: Seq<char>) -> Seq<char> {
    trimmed_end(trimmed_start(s))
}

/// `s` trimmed, or nothing where no text is left.
pub open spec fn nonblank(s: Seq<char>) -> Option<Seq<char>> {
    if trimmed(s).len() == 0 {
        None
    } else {
        Some(trimmed(s))
    }
}

/// The entries of `list` that hold text, each trimmed, in their order.
pub open spec fn nonblank_entries(list: Seq<Seq<char>>) -> Seq<Seq<char>> {
    list.map_values(|s: Seq<char>| trimmed(s)).filter(|s: Seq<char>| s.len() > 0)
}

/// Whether `part` occurs in `s` as a run of adjacent characters.
pub open spec fn occurs_in(part: Seq<char>, s: Seq<char>) -> bool {
    exists|i: int|
        0 <= i <= s.len() - part.len() && #[trigger] s.subrange(i, i + part.len()) == part
}

/// The decimal digits of `n`, the most significant first and without leading zeros.
pub open spec fn decimal(n: nat) -> Seq<char>
    decreases n,
{
    if n < 10 {
        seq![digit(n)]
    } else {
        decimal(n / 10).push(digit(n % 10))
    }
}

/// The character that writes a number below ten.
pub open spec fn digit(n: nat) -> char {
    (('0' as nat) + n) as char
}

/// The text that bytes stand for, read as UTF-8 with a replacement character for each part that
/// is not valid.
pub uninterp spec fn lossy_text(bytes: Seq<u8>) -> Seq<char>;

/// `str::trim`: the text without leading and trailing white space.
pub assume_specification[ str::trim ](s: &str) -> (r: &str)
    ensures
        r@ == trimmed(s@),
;

/// `str::contains` with a string as the pattern.
#[verifier::external_body]
pub(crate) fn contains(s: &str, part: &str) -> (r: bool)
    ensures
        r == occurs_in(part@, s@),
{
    s.contains(part)
}

/// `String::from_utf8_lossy`: bytes that are valid UTF-8 come out as the text they encode. In
/// other bytes each invalid part is replaced, so that some text comes out of any bytes at all.
/// Where the replacement characters go is not said.
#[verifier::external_body]
pub(crate) fn decode_lossy(bytes: &Vec<u8>) -> (r: String)
    ensures
        r@ == lossy_text(bytes@),
        valid_utf8(bytes@) ==> r@ == decode_utf8(bytes@),
        r@.len() == 0 <==> bytes@.len() == 0,
{
    String::from_utf8_lossy(bytes).into_owned()
}

/// The text trimmed, or nothing where it is blank.
pub fn take_nonblank(s: &str) -> (r: Option<String>)
    ensures
        r.deep_view() == nonblank(s@),
{
    let t = s.trim();
    if t.is_empty() {
        None
    } else {
        Some(t.to_owned())
    }
}

/// The digit that writes `n`.
fn digit_text(n: u64) -> (r: &'static str)
    requires
        n < 10,
    ensures
        r@ == seq![digit(n as nat)],
{
    proof {
        reveal_strlit("0");
        reveal_strlit("1");
        reveal_strlit("2");
        reveal_strlit("3");
        reveal_strlit("4");
        reveal_strlit("5");
        reveal_strlit("6");
        reveal_strlit("7");
        reveal_strlit("8");
        reveal_strlit("9");
    }
    let r = match n {
        0 => "0",
        1 => "1",
        2 => "2",
        3 => "3",
        4 => "4",
        5 => "5",
        6 => "6",
        7 => "7",
        8 => "8",
        _ => "9",
    };
    assert(r@ =~= seq![digit(n as nat)]);
    r
}

/// The decimal form of `n`.
pub fn write_decimal(n: u64) -> (r: String)
    ensures
        r@ == decimal(n as nat),
    decreases n,
{
    if n < 10 {
        digit_text(n).to_owned()
    } else {
        let mut s = write_decimal(n / 10);
        s.append(digit_text(n % 10));
        assert(s@ =~= decimal(n as nat / 10).push(digit(n as nat % 10)));
        s
    }
}

/// Each entry that holds text, trimmed.
pub fn keep_nonblank(list: &Vec<String>) -> (r: Vec<String>)
    ensures
        r.deep_view() == nonblank_entries(list.deep_view()),
{
    let mut r: Vec<String> = Vec::new();
    let ghost all = list.deep_view().map_values(|s: Seq<char>| trimmed(s));
    let ghost holds = |s: Seq<char>| s.len() > 0;
    assert(r.deep_view() =~= all.take(0).filter(holds)) by {
        reveal(Seq::filter);
    }
    for i in 0..list.len()
        invariant
            all == list.deep_view().map_values(|s: Seq<char>| trimmed(s)),
            holds == (|s: Seq<char>| s.len() > 0),
            r.deep_view() == all.take(i as int).filter(holds),
    {
        let ghost before = r.deep_view();
        let t = list[i].as_str().trim();
        assert(t@ == all[i as int]);
        assert(all.take(i + 1).drop_last() =~= all.take(i as int));
        reveal(Seq::filter);
        if !t.is_empty() {
            r.push(t.to_owned());
            assert(r.deep_view() =~= before.push(t@));
        }
    }
    assert(all.take(list.len() as int) =~= all);
    r
}

} // verus!
