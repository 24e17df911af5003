use vstd::prelude::*;

verus! {

/// Floor division of a signed value by a positive divisor.
pub fn floor_div(a: i64, b: i64) -> (r: i64)
    requires
        b > 0,
    ensures
        r as int == (a as int) / (b as int),
{
    if a >= 0 {
        let q: u64 = (a as u64) / (b as u64);
        q as i64
    } else {
        let m: u64 = ((-(a + 1)) as u64) / (b as u64);
        proof {
            let ai = a as int;
            let bi = b as int;
            let mi = m as int;
            assert(mi == (-(ai + 1)) / bi);
            assert(-(mi + 1) == ai / bi) by (nonlinear_arith)
                requires
                    mi == (-(ai + 1)) / bi,
                    bi > 0,
                    ai < 0,
            {
                let t = -(ai + 1);
                assert(t >= 0);
                assert(t == bi * mi + t % bi) by {
                    vstd::arithmetic::div_mod::lemma_fundamental_div_mod(t, bi);
                }
            }
        }
        -(m as i64) - 1
    }
}

} // verus!
