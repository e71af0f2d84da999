//! Cutting long output down to a number of bytes without splitting a character.
use vstd::prelude::*;
use vstd::string::StringSliceAdditionalSpecFns;
use vstd::utf8::*;

verus! {

/// What is put behind output that was cut.
pub open spec fn truncation_notice() -> Seq<char> {
    "\n... [output truncated]"@
}

/// The number of bytes that a character takes in UTF-8.
pub open spec fn char_width(c: char) -> nat {
    encode_scalar(c as u32).len()
}

/// The number of bytes that a text takes in UTF-8.
pub open spec fn byte_len(s: Seq<char>) -> nat {
    encode_utf8(s).len()
}

/// The characters from the start of `s` that fit into `budget` bytes, up to the first that does
/// not.
pub open spec fn fitting_chars(s: Seq<char>, budget: nat) -> Seq<char>
    decreases s.len(),
{
    if s.len() == 0 || char_width(s.first()) > budget {
        Seq::empty()
    } else {
        seq![s.first()] + fitting_chars(s.drop_first(), (budget - char_width(s.first())) as nat)
    }
}

/// Output as it is reported: whole where it takes at most `max_bytes` bytes, otherwise the
/// characters that fit, with a notice behind them.
pub open spec fn limited(s: Seq<char>, max_bytes: nat) -> Seq<char> {
    if byte_len(s) <= max_bytes {
        s
    } else {
        fitting_chars(s, max_bytes) + truncation_notice()
    }
}

/// The text up to the last character boundary at or below `limit` is what fits into `limit`
/// bytes.
proof fn lemma_boundary_cut(s: Seq<char>, limit: int, cut: int)
    requires
        0 <= cut <= limit < encode_utf8(s).len(),
        is_char_boundary(encode_utf8(s), cut),
        forall|i: int| cut < i <= limit ==> !is_char_boundary(encode_utf8(s), i),
    ensures
        encode_utf8(s).subrange(0, cut) == encode_utf8(fitting_chars(s, limit as nat)),
    decreases s.len(),
{
    let bytes = encode_utf8(s);
    let width = char_width(s.first()) as int;
    let rest = s.drop_first();
    encode_utf8_valid_utf8(s);
    encode_utf8_first_scalar(s);
    assert(width == length_of_first_scalar(bytes));
    assert(pop_first_scalar(bytes) =~= encode_utf8(rest));
    encode_utf8_valid_utf8(rest);
    if width > limit {
        if cut > 0 {
            assert(!is_char_boundary(encode_utf8(rest), cut - width));
        }
        assert(bytes.subrange(0, cut) =~= encode_utf8(Seq::<char>::empty()));
    } else {
        assert(is_char_boundary(encode_utf8(rest), 0));
        assert(is_char_boundary(bytes, width));
        assert(cut >= width);
        assert forall|i: int| cut - width < i <= limit - width implies !is_char_boundary(
            encode_utf8(rest),
            i,
        ) by {
            assert(!is_char_boundary(bytes, i + width));
        }
        lemma_boundary_cut(rest, limit - width, cut - width);
        let kept = fitting_chars(rest, (limit - width) as nat);
        let all_kept = fitting_chars(s, limit as nat);
        assert(all_kept.first() == s.first());
        assert(all_kept.drop_first() =~= kept);
        assert(bytes =~= encode_scalar(s[0] as u32) + encode_utf8(rest));
        assert(bytes.subrange(0, cut) =~= encode_scalar(s[0] as u32) + encode_utf8(rest).subrange(
            0,
            cut - width,
        ));
    }
}

/// Output limited to `max_bytes` bytes of text.
pub fn limit_output(output: String, max_bytes: usize) -> (r: String)
    ensures
        r@ == limited(output@, max_bytes as nat),
{
    let text = output.as_str();
    if text.as_bytes().len() <= max_bytes {
        return output;
    }
    let mut cut: usize = max_bytes;
    proof {
        encode_utf8_valid_utf8(text@);
        is_char_boundary_start_end_of_seq(encode_utf8(text@));
    }
    while cut > 0 && !text.is_char_boundary(cut)
        invariant
            cut <= max_bytes,
            forall|i: int| cut < i <= max_bytes ==> !is_char_boundary(text.spec_bytes(), i),
        decreases cut,
    {
        cut = cut - 1;
    }
    let kept = text.split_at(cut).0;
    proof {
        lemma_boundary_cut(text@, max_bytes as int, cut as int);
        encode_utf8_decode_utf8(kept@);
        encode_utf8_decode_utf8(fitting_chars(text@, max_bytes as nat));
    }
    let mut r = kept.to_owned();
    r.append("\n... [output truncated]");
    r
}

} // verus!
