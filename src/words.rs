use vstd::prelude::*;

verus! {

/// Whether a character has the Unicode White_Space property.
pub uninterp spec fn white_space(c: char) -> bool;

/// Relies on `char::is_whitespace`: true exactly for the characters with the
/// Unicode White_Space property, which depends on the character alone.
#[verifier::external_body]
fn is_white(c: char) -> (r: bool)
    ensures
        r == white_space(c),
{
    c.is_whitespace()
}

/// The words of `rest`, given that `cur` holds the letters of the word read
/// so far (empty between words).
pub open spec fn split_from(rest: Seq<char>, cur: Seq<char>) -> Seq<Seq<char>>
    decreases rest.len(),
{
    let done: Seq<Seq<char>> = if cur.len() > 0 {
        seq![cur]
    } else {
        seq![]
    };
    if rest.len() == 0 {
        done
    } else if white_space(rest[0]) {
        done + split_from(rest.drop_first(), seq![])
    } else {
        split_from(rest.drop_first(), cur.push(rest[0]))
    }
}

/// The maximal runs of non-white-space characters of `s`, in order.
pub open spec fn words(s: Seq<char>) -> Seq<Seq<char>> {
    split_from(s, seq![])
}

/// Splits `s` at white space into its words; no word is empty and none holds
/// white space.
pub fn split_words(s: &str) -> (r: Vec<String>)
    ensures
        r.deep_view() == words(s@),
{
    let n = s.unicode_len();
    let mut out: Vec<String> = Vec::new();
    let mut i: usize = 0;
    let mut start: usize = 0;
    let mut in_word = false;
    assert(s@.skip(0) =~= s@);
    assert(s@.subrange(0, 0) =~= Seq::<char>::empty());
    assert(out.deep_view() + words(s@) =~= words(s@));
    while i < n
        invariant
            n == s@.len(),
            start <= i <= n,
            !in_word ==> start == i,
            in_word ==> start < i,
            out.deep_view() + split_from(s@.skip(i as int), s@.subrange(start as int, i as int))
                == words(s@),
        decreases n - i,
    {
        let c = s.get_char(i);
        let ghost rest = s@.skip(i as int);
        let ghost cur = s@.subrange(start as int, i as int);
        assert(rest[0] == c);
        assert(rest.drop_first() =~= s@.skip(i + 1));
        let ghost prev = out.deep_view();
        assert(split_from(rest, cur) == (if cur.len() > 0 { seq![cur] } else { Seq::<Seq<char>>::empty() })
            + split_from(rest.drop_first(), seq![]) || !white_space(c));
        if is_white(c) {
            let ghost tail = split_from(s@.skip(i + 1), seq![]);
            if in_word {
                let w = String::from_str(s.substring_char(start, i));
                out.push(w);
                assert(out.deep_view() =~= prev.push(cur));
                assert(prev + (seq![cur] + tail) =~= prev.push(cur) + tail);
            } else {
                assert(cur =~= Seq::<char>::empty());
                assert(Seq::<Seq<char>>::empty() + tail =~= tail);
            }
            in_word = false;
            i = i + 1;
            start = i;
            assert(s@.subrange(start as int, i as int) =~= Seq::<char>::empty());
        } else {
            if !in_word {
                start = i;
                in_word = true;
            }
            assert(cur.push(c) =~= s@.subrange(start as int, i + 1));
            i = i + 1;
        }
    }
    let ghost prev = out.deep_view();
    let ghost cur = s@.subrange(start as int, n as int);
    assert(s@.skip(n as int) =~= Seq::<char>::empty());
    if in_word {
        let w = String::from_str(s.substring_char(start, n));
        out.push(w);
        assert(out.deep_view() =~= prev.push(cur));
        assert(prev + seq![cur] =~= prev.push(cur));
    } else {
        assert(cur =~= Seq::<char>::empty());
        assert(prev + Seq::<Seq<char>>::empty() =~= prev);
    }
    out
}

} // verus!
