//! Splitting command arguments into whitespace-separated words.
use vstd::prelude::*;

verus! {

/// Whether `c` has the Unicode White_Space property.
pub open spec fn is_white_space(c: char) -> bool {
    let v = c as u32;
    (0x09 <= v && v <= 0x0d) || v == 0x20 || v == 0x85 || v == 0xa0 || v == 0x1680
    || (0x2000 <= v && v <= 0x200a) || v == 0x2028 || v == 0x2029 || v == 0x202f
    || v == 0x205f || v == 0x3000
}

/// Relies on `char::is_whitespace`: true exactly for the characters with
/// the Unicode White_Space property.
#[verifier::external_body]
fn white_space(c: char) -> (r: bool)
    ensures
        r == is_white_space(c),
{
    c.is_whitespace()
}

/// Scanning `s` from the left: the words completed so far, and the word in
/// progress (empty between words).
pub open spec fn scan(s: Seq<char>) -> (Seq<Seq<char>>, Seq<char>)
    decreases s.len(),
{
    if s.len() == 0 {
        (Seq::empty(), Seq::empty())
    } else {
        let prev = scan(s.drop_last());
        let c = s.last();
        if is_white_space(c) {
            if prev.1.len() > 0 {
                (prev.0.push(prev.1), Seq::empty())
            } else {
                prev
            }
        } else {
            (prev.0, prev.1.push(c))
        }
    }
}

/// The maximal runs of non-white-space characters of `s`, in order.
pub open spec fn words(s: Seq<char>) -> Seq<Seq<char>> {
    let st = scan(s);
    if st.1.len() > 0 { st.0.push(st.1) } else { st.0 }
}

/// The words of `s`: its maximal runs of non-white-space characters.
pub fn split_whitespace<'a>(s: &'a str) -> (r: Vec<&'a str>)
    ensures
        r@.map_values(|w: &str| w@) == words(s@),
{
    let n = s.unicode_len();
    let mut done: Vec<&'a str> = Vec::new();
    let mut start: usize = 0;
    let mut in_word = false;
    let mut i: usize = 0;
    while i < n
        invariant
            i <= n,
            n == s@.len(),
            start <= i,
            in_word ==> start < i,
            scan(s@.subrange(0, i as int)).0 == done@.map_values(|w: &str| w@),
            scan(s@.subrange(0, i as int)).1 == if in_word {
                s@.subrange(start as int, i as int)
            } else {
                Seq::<char>::empty()
            },
        decreases n - i,
    {
        let c = s.get_char(i);
        let ghost pre = s@.subrange(0, i as int);
        assert(s@.subrange(0, i as int + 1).drop_last() =~= pre);
        assert(s@.subrange(0, i as int + 1).last() == c);
        let ghost before = done@;
        if white_space(c) {
            if in_word {
                let w = s.substring_char(start, i);
                done.push(w);
                assert(done@.map_values(|w: &str| w@)
                    =~= before.map_values(|w: &str| w@).push(s@.subrange(start as int, i as int)));
                in_word = false;
            }
        } else {
            if !in_word {
                start = i;
                in_word = true;
                assert(Seq::<char>::empty().push(c) =~= s@.subrange(i as int, i as int + 1));
            } else {
                assert(s@.subrange(start as int, i as int).push(c) =~= s@.subrange(start as int, i as int + 1));
            }
        }
        i = i + 1;
    }
    assert(s@.subrange(0, n as int) =~= s@);
    if in_word {
        let ghost before = done@;
        let w = s.substring_char(start, n);
        done.push(w);
        assert(done@.map_values(|w: &str| w@)
            =~= before.map_values(|w: &str| w@).push(s@.subrange(start as int, n as int)));
    }
    done
}

} // verus!
