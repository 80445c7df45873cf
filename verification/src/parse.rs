//! Lenient parsing of the monitor-index argument: anything that is not a
//! plain decimal numeral within range counts as "no filter".

use vstd::prelude::*;
use vstd::string::StrSliceExecFns;

verus! {

/// Whether `s` is a plain decimal numeral: nonempty and digits only.
pub open spec fn is_numeral(s: Seq<char>) -> bool {
    s.len() > 0 && forall|i: int| 0 <= i < s.len() ==> '0' <= #[trigger] s[i] <= '9'
}

/// The value of a decimal numeral, most significant digit first.
pub open spec fn numeral_val(s: Seq<char>) -> nat
    decreases s.len(),
{
    if s.len() == 0 {
        0
    } else {
        (numeral_val(s.drop_last()) * 10 + (s.last() as int - '0' as int)) as nat
    }
}

proof fn lemma_numeral_val_monotone(s: Seq<char>, i: int, j: int)
    requires
        0 <= i <= j <= s.len(),
        forall|k: int| 0 <= k < s.len() ==> '0' <= #[trigger] s[k] <= '9',
    ensures
        numeral_val(s.take(i)) <= numeral_val(s.take(j)),
    decreases j - i,
{
    if i < j {
        lemma_numeral_val_monotone(s, i, j - 1);
        let t = s.take(j);
        assert(t.drop_last() =~= s.take(j - 1));
        assert(t.last() == s[j - 1]);
        assert(numeral_val(t) == (numeral_val(s.take(j - 1)) * 10 + (s[j - 1] as int
            - '0' as int)) as nat);
    }
}

/// Parses the monitor-index argument.  Returns its value only when the whole
/// string is a decimal numeral whose value fits the machine; everything else
/// falls back to "no filter".
pub fn parse_monitor_index(s: &String) -> (r: Option<usize>)
    ensures
        r is Some <==> is_numeral(s@) && numeral_val(s@) <= usize::MAX,
        r matches Some(v) ==> v == numeral_val(s@),
{
    let st: &str = s.as_str();
    let n: usize = st.unicode_len();
    if n == 0 {
        return None;
    }
    let mut acc: usize = 0;
    let mut i: usize = 0;
    while i < n
        invariant
            n == s@.len(),
            st@ == s@,
            i <= n,
            forall|j: int| 0 <= j < i ==> '0' <= #[trigger] s@[j] <= '9',
            acc == numeral_val(s@.take(i as int)),
        decreases n - i,
    {
        let c = st.get_char(i);
        if c < '0' || c > '9' {
            proof {
                assert(!('0' <= s@[i as int] && s@[i as int] <= '9'));
            }
            return None;
        }
        let d: u32 = c as u32 - '0' as u32;
        let du: usize = d as usize;
        proof {
            assert(s@.take(i as int + 1).drop_last() =~= s@.take(i as int));
            assert(s@.take(i as int + 1).last() == s@[i as int]);
        }
        if acc > (usize::MAX - du) / 10 {
            proof {
                vstd::arithmetic::div_mod::lemma_fundamental_div_mod(
                    (usize::MAX - du) as int,
                    10,
                );
                assert(acc * 10 + du > usize::MAX);
                assert(numeral_val(s@.take(i as int + 1)) > usize::MAX);
                if is_numeral(s@) {
                    lemma_numeral_val_monotone(s@, i as int + 1, n as int);
                    assert(s@.take(n as int) =~= s@);
                }
            }
            return None;
        }
        acc = acc * 10 + du;
        i = i + 1;
    }
    proof {
        assert(s@.take(n as int) =~= s@);
    }
    Some(acc)
}

} // verus!
