//! What holds of the texts that the tool reads and writes.
use crate::laws::law_output_is_cut_between_characters;
use crate::output::{byte_len, fitting_chars, limited};
use crate::text::{decimal, is_white_space, nonblank, nonblank_entries, occurs_in, trimmed};
use vstd::prelude::*;
use vstd::utf8::encode_utf8;

verus! {

/// White space is what Unicode calls so, by code point.
pub proof fn law_white_space_by_code_point(c: char)
    ensures
        is_white_space(c) <==> {
            let n = c as u32;
            ||| 0x9 <= n <= 0xd
            ||| n == 0x20
            ||| n == 0x85
            ||| n == 0xa0
            ||| n == 0x1680
            ||| 0x2000 <= n <= 0x200a
            ||| 0x2028 <= n <= 0x2029
            ||| n == 0x202f
            ||| n == 0x205f
            ||| n == 0x3000
        },
{
}

/// Text that is not blank comes out trimmed, and blank text does not come out.
pub proof fn law_nonblank_is_trimmed(s: Seq<char>)
    ensures
        trimmed(s).len() == 0 ==> nonblank(s) is None,
        trimmed(s).len() > 0 ==> nonblank(s) == Some(trimmed(s)),
{
}

/// A list entry counts by itself: what is kept of two lists put together is what is kept of each,
/// a blank entry is dropped and any other is kept trimmed.
pub proof fn law_entries_count_one_by_one(a: Seq<Seq<char>>, b: Seq<Seq<char>>, s: Seq<char>)
    ensures
        nonblank_entries(Seq::empty()) == Seq::<Seq<char>>::empty(),
        nonblank_entries(a + b) == nonblank_entries(a) + nonblank_entries(b),
        trimmed(s).len() == 0 ==> nonblank_entries(seq![s]) == Seq::<Seq<char>>::empty(),
        trimmed(s).len() > 0 ==> nonblank_entries(seq![s]) == seq![trimmed(s)],
    decreases b.len(),
{
    let trim = |t: Seq<char>| trimmed(t);
    reveal_with_fuel(Seq::filter, 2);
    assert(Seq::<Seq<char>>::empty().map_values(trim) =~= Seq::empty());
    assert(seq![s].map_values(trim) =~= seq![trimmed(s)]);
    assert(seq![trimmed(s)].drop_last() =~= Seq::empty());
    if b.len() == 0 {
        assert(a + b =~= a);
        assert(b =~= Seq::empty());
    } else {
        let fewer = b.drop_last();
        law_entries_count_one_by_one(a, fewer, s);
        assert((a + b).map_values(trim).drop_last() =~= (a + fewer).map_values(trim));
        assert(b.map_values(trim).drop_last() =~= fewer.map_values(trim));
        assert((a + b).map_values(trim).last() == trimmed(b.last()));
        assert(nonblank_entries(a + b) =~= nonblank_entries(a) + nonblank_entries(b));
    }
}

/// A part occurs in a text exactly when the text is something, then the part, then something.
pub proof fn law_parts_split_the_text(part: Seq<char>, s: Seq<char>)
    ensures
        occurs_in(part, s) <==> exists|a: Seq<char>, b: Seq<char>| s == #[trigger] (a + part + b),
{
    if occurs_in(part, s) {
        let i = choose|i: int|
            0 <= i <= s.len() - part.len() && #[trigger] s.subrange(i, i + part.len()) == part;
        assert(s =~= s.take(i) + part + s.skip(i + part.len()));
    }
    if exists|a: Seq<char>, b: Seq<char>| s == #[trigger] (a + part + b) {
        let (a, b) = choose|a: Seq<char>, b: Seq<char>| s == #[trigger] (a + part + b);
        let i = a.len() as int;
        assert(s.subrange(i, i + part.len()) =~= part);
    }
}

/// A number is written with digits alone, without a leading zero, so that reading them from the
/// left, ten times what was read and the next digit, gives the number back.
pub proof fn law_decimal_reads_back(n: nat)
    ensures
        decimal(n).len() > 0,
        forall|i: int| 0 <= i < decimal(n).len() ==> '0' <= #[trigger] decimal(n)[i] <= '9',
        n > 0 ==> decimal(n).first() != '0',
        n == 0 ==> decimal(n).len() == 1,
        decimal(n).fold_left(0int, |read: int, c: char| 10 * read + (c as int - '0' as int)) == n,
    decreases n,
{
    reveal_with_fuel(Seq::fold_left, 2);
    if n < 10 {
        assert(decimal(n).drop_last() =~= Seq::empty());
    } else {
        law_decimal_reads_back(n / 10);
        assert(decimal(n).drop_last() =~= decimal(n / 10));
        assert(decimal(n).first() == decimal(n / 10).first());
    }
}

/// Reported output is the whole text where that takes at most the allowed bytes. Otherwise it is a
/// beginning of the text with the notice behind it: one that takes at most the allowed bytes, while
/// every longer beginning takes more.
pub proof fn law_reported_output(s: Seq<char>, max_bytes: nat)
    ensures
        encode_utf8(s).len() <= max_bytes ==> limited(s, max_bytes) == s,
        encode_utf8(s).len() > max_bytes ==> exists|kept: int|
            {
                &&& 0 <= kept < s.len()
                &&& limited(s, max_bytes) == #[trigger] s.take(kept) + "\n... [output truncated]"@
                &&& encode_utf8(s.take(kept)).len() <= max_bytes
                &&& forall|n: int|
                    kept < n <= s.len() ==> encode_utf8(#[trigger] s.take(n)).len() > max_bytes
            },
{
    if encode_utf8(s).len() > max_bytes {
        law_output_is_cut_between_characters(s, max_bytes);
        let k = fitting_chars(s, max_bytes);
        let kept = k.len() as int;
        assert(k =~= s.take(kept));
        assert(s.take(s.len() as int) =~= s);
        assert forall|n: int| kept < n <= s.len() implies encode_utf8(#[trigger] s.take(n)).len()
            > max_bytes by {
            assert(s.take(n).is_prefix_of(s));
            assert(byte_len(s.take(n)) == encode_utf8(s.take(n)).len());
        }
        assert(limited(s, max_bytes) == s.take(kept) + "\n... [output truncated]"@);
    }
}

} // verus!
