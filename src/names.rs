use vstd::prelude::*;
use heck::MixedCase;

verus! {

/// What heck's mixed-case conversion (`some_name` to `someName`) makes of a name.
pub uninterp spec fn mixed_case_of(s: Seq<char>) -> Seq<char>;

/// Relies on `heck::MixedCase::to_mixed_case` for `str`: its result depends on
/// the characters of the input alone.
#[verifier::external_body]
pub(crate) fn to_mixed_case(s: &str) -> (r: String)
    ensures
        r@ == mixed_case_of(s@),
{
    s.to_mixed_case()
}

/// Compares two strings character by character.
pub fn str_eq(a: &str, b: &str) -> (r: bool)
    ensures
        r == (a@ == b@),
{
    let n = a.unicode_len();
    if n != b.unicode_len() {
        return false;
    }
    let mut i: usize = 0;
    while i < n
        invariant
            n == a@.len(),
            n == b@.len(),
            i <= n,
            a@.subrange(0, i as int) == b@.subrange(0, i as int),
        decreases n - i,
    {
        if a.get_char(i) != b.get_char(i) {
            assert(a@[i as int] != b@[i as int]);
            return false;
        }
        assert(a@.subrange(0, i + 1) == a@.subrange(0, i as int).push(a@[i as int]));
        assert(b@.subrange(0, i + 1) == b@.subrange(0, i as int).push(b@[i as int]));
        i = i + 1;
    }
    assert(a@ == a@.subrange(0, n as int));
    assert(b@ == b@.subrange(0, n as int));
    true
}

/// Whether `a` and `b` agree on their first `k` characters.
pub open spec fn agree_up_to(a: Seq<char>, b: Seq<char>, k: int) -> bool {
    0 <= k <= a.len() && k <= b.len() && a.subrange(0, k) == b.subrange(0, k)
}

/// Lexicographic order by code point (the order of `String`'s `Ord`):
/// `a` is a proper prefix of `b`, or at the first position where they differ
/// `a` has the smaller character.
pub open spec fn str_lt(a: Seq<char>, b: Seq<char>) -> bool {
    exists|k: int| #[trigger] lt_at(a, b, k)
}

/// `a` and `b` agree before position `k`, where `a` ends while `b` goes on,
/// or `a` has the smaller character.
pub open spec fn lt_at(a: Seq<char>, b: Seq<char>, k: int) -> bool {
    agree_up_to(a, b, k) && ((k == a.len() && k < b.len()) || (k < a.len() && k < b.len() && a[k]
        < b[k]))
}

/// Whether `a` comes strictly before `b` in lexicographic order.
pub fn str_less(a: &str, b: &str) -> (r: bool)
    ensures
        r == str_lt(a@, b@),
{
    let n = a.unicode_len();
    let m = b.unicode_len();
    let mut i: usize = 0;
    assert(a@.subrange(0, 0) =~= b@.subrange(0, 0));
    while i < n && i < m
        invariant
            n == a@.len(),
            m == b@.len(),
            i <= n,
            i <= m,
            agree_up_to(a@, b@, i as int),
        decreases n - i,
    {
        let x = a.get_char(i);
        let y = b.get_char(i);
        if x != y {
            let r = x < y;
            proof {
                if r {
                    assert(lt_at(a@, b@, i as int));
                } else if str_lt(a@, b@) {
                    let k = choose|k: int| lt_at(a@, b@, k);
                    if k > i {
                        assert(a@.subrange(0, k)[i as int] == b@.subrange(0, k)[i as int]);
                    } else if k < i {
                        assert(a@.subrange(0, i as int)[k] == b@.subrange(0, i as int)[k]);
                    }
                }
            }
            return r;
        }
        assert(a@.subrange(0, i + 1) == a@.subrange(0, i as int).push(x));
        assert(b@.subrange(0, i + 1) == b@.subrange(0, i as int).push(y));
        i = i + 1;
    }
    let r = i == n && i < m;
    proof {
        if r {
            assert(lt_at(a@, b@, i as int));
        } else if str_lt(a@, b@) {
            let k = choose|k: int| lt_at(a@, b@, k);
            if k < i {
                assert(a@.subrange(0, i as int)[k] == b@.subrange(0, i as int)[k]);
            }
        }
    }
    r
}

/// Appends `piece` to `out`.
pub(crate) fn emit(out: &mut String, piece: &str)
    ensures
        final(out)@ == old(out)@ + piece@,
{
    out.append(piece);
}

} // verus!
