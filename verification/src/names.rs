//! Display names of files loaded by URL.

use vstd::prelude::*;

verus! {

/// The part of `s` after its last `/`, or all of `s` when it has none.
pub open spec fn last_segment(s: Seq<char>) -> Seq<char>
    decreases s.len(),
{
    if s.len() == 0 {
        s
    } else if s.last() == '/' {
        Seq::empty()
    } else {
        last_segment(s.drop_last()).push(s.last())
    }
}

/// The name a file fetched from `url` is shown under: the URL's last path
/// segment (everything after the last `/`), or the whole URL when it has no
/// `/`.
pub fn file_name_from_url(url: &str) -> (name: String)
    ensures
        name@ == last_segment(url@),
{
    let n = url.unicode_len();
    let mut k: usize = n;
    assert(url@.take(n as int) =~= url@);
    assert(url@.subrange(n as int, n as int) =~= Seq::<char>::empty());
    while k > 0 && url.get_char(k - 1) != '/'
        invariant
            n == url@.len(),
            k <= n,
            last_segment(url@) == last_segment(url@.take(k as int)) + url@.subrange(k as int, n as int),
        decreases k,
    {
        let ghost t = url@.take(k as int);
        assert(t.drop_last() =~= url@.take(k - 1));
        assert(t.last() == url@[k - 1]);
        assert(last_segment(t.drop_last()).push(t.last()) + url@.subrange(k as int, n as int)
            =~= last_segment(url@.take(k - 1)) + url@.subrange(k - 1, n as int));
        k = k - 1;
    }
    proof {
        let t = url@.take(k as int);
        if k == 0 {
            assert(t.len() == 0);
        } else {
            assert(t.last() == url@[k - 1]);
        }
        assert(last_segment(t) =~= Seq::<char>::empty());
        assert(last_segment(url@) =~= url@.subrange(k as int, n as int));
    }
    url.substring_char(k, n).to_owned()
}

/// The shown name is the tail of the URL that follows its last `/`: it holds
/// no `/`, the URL ends with it, and what precedes it in the URL is empty or
/// ends with a `/`.
pub proof fn lemma_last_segment_is_tail(s: Seq<char>)
    ensures
        last_segment(s).len() <= s.len(),
        forall|i: int| 0 <= i < last_segment(s).len() ==> #[trigger] last_segment(s)[i] != '/',
        s.subrange(s.len() - last_segment(s).len(), s.len() as int) == last_segment(s),
        last_segment(s).len() == s.len() || s[s.len() - last_segment(s).len() - 1] == '/',
    decreases s.len(),
{
    if s.len() > 0 && s.last() != '/' {
        let t = s.drop_last();
        lemma_last_segment_is_tail(t);
        let n = last_segment(t).len();
        assert(s.subrange(s.len() - (n + 1), s.len() as int) =~= t.subrange(
            t.len() - n,
            t.len() as int,
        ).push(s.last()));
        if n < t.len() {
            assert(s[s.len() - (n + 1) - 1] == t[t.len() - n - 1]);
        }
    } else if s.len() > 0 {
        assert(s.subrange(s.len() as int, s.len() as int) =~= Seq::<char>::empty());
    } else {
        assert(s.subrange(0, 0) =~= s);
    }
}

} // verus!
