use vstd::prelude::*;
use crate::arith::floor_div;

verus! {

/// Angles are measured in tenths of a degree; a full turn is this many units.
pub const ANGLE_UNITS: i64 = 3600;

/// A quarter turn, in angle units.
pub const QUARTER_TURN: i64 = 900;

/// Fixed-point scale of sine and cosine values: `TRIG_ONE` stands for 1.
pub const TRIG_ONE: i64 = 2048;

/// The angle `a` brought into `[0, ANGLE_UNITS)`.
pub open spec fn wrap_spec(a: int) -> int {
    a % (ANGLE_UNITS as int)
}

/// Brings an angle into `[0, ANGLE_UNITS)`.
pub fn wrap_angle(a: i64) -> (r: i64)
    requires
        a > i64::MIN + ANGLE_UNITS,
    ensures
        r as int == wrap_spec(a as int),
        0 <= r < ANGLE_UNITS,
{
    let q = floor_div(a, ANGLE_UNITS);
    proof {
        vstd::arithmetic::div_mod::lemma_fundamental_div_mod(a as int, ANGLE_UNITS as int);
        vstd::arithmetic::div_mod::lemma_mod_bound(a as int, ANGLE_UNITS as int);
    }
    a - q * ANGLE_UNITS
}

/// A table of sines, one per angle unit, in fixed point.
pub struct SineTable {
    values: Vec<i64>,
}

/// Half a turn, in angle units.
pub const HALF_TURN: i64 = 1800;

/// A sine table is sound when it has one entry per angle unit, each within
/// `[-TRIG_ONE, TRIG_ONE]`, with sin 0 = 0 and sin of a quarter turn = 1; it rises
/// over the first quarter, is symmetric about the quarter turn
/// (sin(180° - a) = sin a), and changes sign over half a turn (sin(a + 180°) = -sin a).
pub open spec fn valid_sine_values(v: Seq<i64>) -> bool {
    &&& v.len() == ANGLE_UNITS
    &&& forall|i: int| 0 <= i < v.len() ==> -TRIG_ONE <= #[trigger] v[i] <= TRIG_ONE
    &&& v[0] == 0
    &&& v[QUARTER_TURN as int] == TRIG_ONE
    &&& forall|i: int| 0 <= i < QUARTER_TURN ==> #[trigger] v[i] <= v[i + 1]
    &&& forall|i: int| 0 <= i <= QUARTER_TURN ==> #[trigger] v[HALF_TURN - i] == v[i]
    &&& forall|i: int| 0 <= i < HALF_TURN ==> #[trigger] v[i + HALF_TURN] == -v[i]
}

impl SineTable {
    pub closed spec fn view_values(&self) -> Seq<i64> {
        self.values@
    }

    pub open spec fn wf(&self) -> bool {
        valid_sine_values(self.view_values())
    }

    /// The sine of angle `a`, in fixed point.
    pub open spec fn sin_spec(&self, a: int) -> int {
        self.view_values()[wrap_spec(a)] as int
    }

    /// The cosine of angle `a`, in fixed point: the sine a quarter turn further.
    pub open spec fn cos_spec(&self, a: int) -> int {
        self.sin_spec(a + QUARTER_TURN)
    }

    /// Takes a table of sines; `None` when it is not sound.
    pub fn from_values(values: Vec<i64>) -> (r: Option<SineTable>)
        ensures
            r.is_some() <==> valid_sine_values(values@),
            r.is_some() ==> r.unwrap().view_values() == values@,
    {
        if values.len() != ANGLE_UNITS as usize {
            return None;
        }
        let mut i: usize = 0;
        while i < values.len()
            invariant
                values@.len() == ANGLE_UNITS,
                i <= values@.len(),
                forall|j: int| 0 <= j < i ==> -TRIG_ONE <= #[trigger] values@[j] <= TRIG_ONE,
            decreases values@.len() - i,
        {
            if values[i] < -TRIG_ONE || values[i] > TRIG_ONE {
                return None;
            }
            i = i + 1;
        }
        if values[0] != 0 || values[QUARTER_TURN as usize] != TRIG_ONE {
            return None;
        }
        let mut i: usize = 0;
        while i < QUARTER_TURN as usize
            invariant
                values@.len() == ANGLE_UNITS,
                i <= QUARTER_TURN,
                forall|j: int| 0 <= j < i ==> #[trigger] values@[j] <= values@[j + 1],
            decreases QUARTER_TURN - i,
        {
            if values[i] > values[i + 1] {
                return None;
            }
            i = i + 1;
        }
        let mut i: usize = 0;
        while i <= QUARTER_TURN as usize
            invariant
                values@.len() == ANGLE_UNITS,
                i <= QUARTER_TURN + 1,
                forall|j: int| 0 <= j < i ==> #[trigger] values@[HALF_TURN - j] == values@[j],
            decreases QUARTER_TURN + 1 - i,
        {
            if values[HALF_TURN as usize - i] != values[i] {
                return None;
            }
            i = i + 1;
        }
        let mut i: usize = 0;
        while i < HALF_TURN as usize
            invariant
                values@.len() == ANGLE_UNITS,
                i <= HALF_TURN,
                forall|j: int| 0 <= j < values@.len() ==> -TRIG_ONE <= #[trigger] values@[j] <= TRIG_ONE,
                forall|j: int| 0 <= j < i ==> #[trigger] values@[j + HALF_TURN] == -values@[j],
            decreases HALF_TURN - i,
        {
            if values[i + HALF_TURN as usize] != -values[i] {
                return None;
            }
            i = i + 1;
        }
        Some(SineTable { values })
    }

    /// The sine of angle `a`.
    pub fn sin(&self, a: i64) -> (r: i64)
        requires
            self.wf(),
            a > i64::MIN + ANGLE_UNITS,
        ensures
            r as int == self.sin_spec(a as int),
            -TRIG_ONE <= r <= TRIG_ONE,
    {
        let i = wrap_angle(a);
        self.values[i as usize]
    }

    /// The cosine of angle `a`.
    pub fn cos(&self, a: i64) -> (r: i64)
        requires
            self.wf(),
            i64::MIN + ANGLE_UNITS < a < i64::MAX - QUARTER_TURN,
        ensures
            r as int == self.cos_spec(a as int),
            -TRIG_ONE <= r <= TRIG_ONE,
    {
        self.sin(a + QUARTER_TURN)
    }

    /// The sines and cosines of the four axis directions are exact.
    pub proof fn lemma_axis_values(&self)
        requires
            self.wf(),
        ensures
            self.cos_spec(0) == TRIG_ONE,
            self.sin_spec(0) == 0,
            self.cos_spec(QUARTER_TURN as int) == 0,
            self.sin_spec(QUARTER_TURN as int) == TRIG_ONE,
            self.cos_spec(HALF_TURN as int) == -TRIG_ONE,
            self.sin_spec(HALF_TURN as int) == 0,
            self.cos_spec(3 * QUARTER_TURN) == 0,
            self.sin_spec(3 * QUARTER_TURN) == -TRIG_ONE,
    {
        let v = self.view_values();
        assert(v[HALF_TURN - 0] == v[0]);
        assert(v[QUARTER_TURN + HALF_TURN] == -v[QUARTER_TURN as int]);
        assert(v[0 + HALF_TURN] == -v[0]);
        assert(wrap_spec(0) == 0);
        assert(wrap_spec(QUARTER_TURN as int) == QUARTER_TURN);
        assert(wrap_spec(HALF_TURN as int) == HALF_TURN);
        assert(wrap_spec(3 * QUARTER_TURN) == 3 * QUARTER_TURN);
        assert(wrap_spec(4 * QUARTER_TURN) == 0);
    }
}

} // verus!
