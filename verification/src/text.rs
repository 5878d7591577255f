//! Character-sequence utilities: equality of strings and splitting a raw
//! triple string on its `'-'` separators.

use vstd::prelude::*;
use vstd::string::*;

verus! {

/// True when `s` contains no `'-'` separator.
pub open spec fn dash_free(s: Seq<char>) -> bool {
    forall|i: int| 0 <= i < s.len() ==> s[i] != '-'
}

/// The pieces of `s` split on `'-'`, leftmost first.
///
/// As with `str::split`, every separator ends a piece, so the result always
/// holds one more piece than there are separators; splitting the empty
/// sequence yields one empty piece.
pub open spec fn split_dash(s: Seq<char>) -> Seq<Seq<char>>
    decreases s.len(),
{
    if s.len() == 0 {
        seq![Seq::<char>::empty()]
    } else if s[0] == '-' {
        seq![Seq::<char>::empty()] + split_dash(s.drop_first())
    } else {
        let rest = split_dash(s.drop_first());
        seq![seq![s[0]] + rest[0]] + rest.drop_first()
    }
}

/// A separator-free sequence splits into exactly itself.
pub proof fn lemma_split_dash_whole(s: Seq<char>)
    requires
        dash_free(s),
    ensures
        split_dash(s) == seq![s],
    decreases s.len(),
{
    if s.len() == 0 {
        assert(s =~= Seq::<char>::empty());
    } else {
        lemma_split_dash_whole(s.drop_first());
        assert(seq![s[0]] + s.drop_first() =~= s);
        assert(split_dash(s) =~= seq![s]);
    }
}

/// Splitting peels off the piece before the first separator.
pub proof fn lemma_split_dash_step(s: Seq<char>, k: int)
    requires
        0 <= k < s.len(),
        s[k] == '-',
        dash_free(s.take(k)),
    ensures
        split_dash(s) == seq![s.take(k)] + split_dash(s.skip(k + 1)),
    decreases k,
{
    if k == 0 {
        assert(s.take(0) =~= Seq::<char>::empty());
        assert(s.skip(1) =~= s.drop_first());
        assert(split_dash(s) =~= seq![s.take(0)] + split_dash(s.skip(1)));
    } else {
        assert(s.take(k)[0] != '-');
        assert(s.drop_first().take(k - 1) =~= s.take(k).drop_first());
        assert(dash_free(s.drop_first().take(k - 1))) by {
            assert(forall|i: int|
                0 <= i < k - 1 ==> #[trigger] s.drop_first().take(k - 1)[i] == s.take(k)[i + 1]);
        }
        lemma_split_dash_step(s.drop_first(), k - 1);
        let rest = split_dash(s.drop_first());
        assert(rest == seq![s.take(k).drop_first()] + split_dash(s.drop_first().skip(k)));
        assert(seq![s[0]] + rest[0] =~= s.take(k));
        assert(s.drop_first().skip(k) =~= s.skip(k + 1));
        assert(rest.drop_first() =~= split_dash(s.skip(k + 1)));
        assert(split_dash(s) =~= seq![s.take(k)] + split_dash(s.skip(k + 1)));
    }
}

/// Character-wise string equality, decided exactly by the views.
pub fn str_eq(a: &str, b: &str) -> (r: bool)
    ensures
        r == (a@ == b@),
{
    let a_len = a.unicode_len();
    let b_len = b.unicode_len();
    if a_len != b_len {
        return false;
    }
    let mut i: usize = 0;
    while i < a_len
        invariant
            i <= a_len,
            a_len == a@.len(),
            b_len == b@.len(),
            a_len == b_len,
            forall|j: int| 0 <= j < i ==> a@[j] == b@[j],
        decreases a_len - i,
    {
        if a.get_char(i) != b.get_char(i) {
            return false;
        }
        i = i + 1;
    }
    proof {
        assert(a@ =~= b@);
    }
    true
}

/// The pieces of `s` split on `'-'`, as owned strings, leftmost first.
pub fn split_dash_str(s: &str) -> (pieces: Vec<String>)
    ensures
        pieces.deep_view() == split_dash(s@),
{
    let n = s.unicode_len();
    let mut pieces: Vec<String> = Vec::new();
    let mut start: usize = 0;
    let mut i: usize = 0;
    proof {
        assert(s@.skip(0) =~= s@);
        assert(pieces.deep_view() =~= Seq::<Seq<char>>::empty());
        assert(pieces.deep_view() + split_dash(s@) =~= split_dash(s@));
    }
    while i < n
        invariant
            start <= i <= n,
            n == s@.len(),
            dash_free(s@.subrange(start as int, i as int)),
            split_dash(s@) == pieces.deep_view() + split_dash(s@.skip(start as int)),
        decreases n - i,
    {
        if s.get_char(i) == '-' {
            let piece = s.substring_char(start, i);
            let ghost old_dv = pieces.deep_view();
            pieces.push(String::from_str(piece));
            proof {
                let tail = s@.skip(start as int);
                assert(tail.take(i - start) =~= s@.subrange(start as int, i as int));
                lemma_split_dash_step(tail, i - start);
                assert(tail.skip(i - start + 1) =~= s@.skip(i + 1));
                assert(pieces.deep_view() =~= old_dv.push(piece@));
                assert(pieces.deep_view() + split_dash(s@.skip(i + 1)) =~= old_dv + split_dash(
                    tail,
                ));
            }
            start = i + 1;
        } else {
            proof {
                assert(s@.subrange(start as int, i + 1) =~= s@.subrange(start as int, i as int)
                    + seq![s@[i as int]]);
            }
        }
        i = i + 1;
    }
    let last = s.substring_char(start, n);
    let ghost old_dv = pieces.deep_view();
    pieces.push(String::from_str(last));
    proof {
        assert(s@.skip(start as int) =~= s@.subrange(start as int, n as int));
        lemma_split_dash_whole(s@.skip(start as int));
        assert(pieces.deep_view() =~= old_dv.push(last@));
        assert(pieces.deep_view() =~= split_dash(s@));
    }
    pieces
}

} // verus!
