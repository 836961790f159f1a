use vstd::prelude::*;

verus! {

/// A time value in seconds and milliseconds (`pj_time_val`).
#[derive(Clone, Copy, Debug, PartialEq, Eq, Structural)]
pub struct PjTimeVal {
    pub sec: i64,
    pub msec: i64,
}

/// The whole time in milliseconds.
pub open spec fn total_msec(t: PjTimeVal) -> int {
    t.sec * 1000 + t.msec
}

/// A normalized time value: fewer than 1000 milliseconds, and a sign that
/// agrees with the seconds'.
pub open spec fn is_normalized(t: PjTimeVal) -> bool {
    &&& -1000 < t.msec < 1000
    &&& t.sec > 0 ==> t.msec >= 0
    &&& t.sec < 0 ==> t.msec <= 0
}

/// Normalizing `t` would overflow the seconds: carrying the whole seconds
/// of the milliseconds into them leaves the range of `i64`.
pub open spec fn normalize_overflows(t: PjTimeVal) -> bool {
    ||| t.msec >= 1000 && t.sec + t.msec / 1000 > i64::MAX
    ||| t.msec <= -1000 && t.sec - (-t.msec) / 1000 < i64::MIN
}

/// `a / b` rounded toward zero, as Rust's integer division does.
pub open spec fn trunc_div(a: int, b: int) -> int {
    if a >= 0 {
        a / b
    } else {
        -((-a) / b)
    }
}

impl PjTimeVal {
    pub fn new(sec: i64, msec: i64) -> (r: Self)
        ensures
            r.sec == sec,
            r.msec == msec,
    {
        PjTimeVal { sec, msec }
    }

    pub fn sec(&self) -> (r: i64)
        ensures
            r == self.sec,
    {
        self.sec
    }

    pub fn msec(&self) -> (r: i64)
        ensures
            r == self.msec,
    {
        self.msec
    }

    /// Brings the milliseconds below one second, carrying the rest into the
    /// seconds, and gives both the same sign; the whole time is kept.
    pub fn normalize(&mut self)
        requires
            !normalize_overflows(*old(self)),
        ensures
            total_msec(*final(self)) == total_msec(*old(self)),
            is_normalized(*final(self)),
            is_normalized(*old(self)) ==> *final(self) == *old(self),
    {
        let ghost o = *self;
        if self.msec >= 1000 {
            let carry = self.msec / 1000;
            self.sec = self.sec + carry;
            self.msec = self.msec % 1000;
        } else if self.msec <= -1000 {
            let magnitude: u64 = (-(self.msec as i128)) as u64;
            let carry: u64 = magnitude / 1000;
            let rest: u64 = magnitude % 1000;
            self.sec = self.sec - (carry as i64);
            self.msec = -(rest as i64);
        }
        if self.sec >= 1 && self.msec < 0 {
            self.sec = self.sec - 1;
            self.msec = self.msec + 1000;
        } else if self.sec < 0 && self.msec > 0 {
            self.sec = self.sec + 1;
            self.msec = self.msec - 1000;
        }
        proof {
            if is_normalized(o) {
                lemma_normalized_unique(*self, o);
            }
        }
    }

    /// Sets both parts, then normalizes.
    pub fn set(&mut self, sec: i64, msec: i64)
        requires
            !normalize_overflows(PjTimeVal { sec, msec }),
        ensures
            total_msec(*final(self)) == sec * 1000 + msec,
            is_normalized(*final(self)),
    {
        self.sec = sec;
        self.msec = msec;
        self.normalize();
    }

    /// Sets the seconds, then normalizes.
    pub fn set_sec(&mut self, sec: i64)
        requires
            !normalize_overflows(PjTimeVal { sec, msec: old(self).msec }),
        ensures
            total_msec(*final(self)) == sec * 1000 + old(self).msec,
            is_normalized(*final(self)),
    {
        self.sec = sec;
        self.normalize();
    }

    /// Sets the milliseconds, then normalizes.
    pub fn set_msec(&mut self, msec: i64)
        requires
            !normalize_overflows(PjTimeVal { sec: old(self).sec, msec }),
        ensures
            total_msec(*final(self)) == old(self).sec * 1000 + msec,
            is_normalized(*final(self)),
    {
        self.msec = msec;
        self.normalize();
    }

    pub fn clear(&mut self)
        ensures
            final(self).sec == 0,
            final(self).msec == 0,
    {
        self.msec = 0;
        self.sec = 0;
    }

    /// The whole seconds: the seconds plus the milliseconds divided by 1000,
    /// rounded toward zero.
    pub fn in_sec(&self) -> (r: i64)
        requires
            i64::MIN <= self.sec + trunc_div(self.msec as int, 1000) <= i64::MAX,
        ensures
            r == self.sec + trunc_div(self.msec as int, 1000),
    {
        self.sec + self.msec / 1000
    }

    /// The whole time in milliseconds.
    pub fn in_msec(&self) -> (r: i64)
        requires
            i64::MIN <= self.sec * 1000 <= i64::MAX,
            i64::MIN <= total_msec(*self) <= i64::MAX,
        ensures
            r == total_msec(*self),
    {
        self.sec * 1000 + self.msec
    }

    /// The sum, normalized.
    pub fn add(self, other: Self) -> (r: Self)
        requires
            i64::MIN <= self.sec + other.sec <= i64::MAX,
            i64::MIN <= self.msec + other.msec <= i64::MAX,
            !normalize_overflows(
                PjTimeVal { sec: (self.sec + other.sec) as i64, msec: (self.msec + other.msec) as i64 },
            ),
        ensures
            total_msec(r) == total_msec(self) + total_msec(other),
            is_normalized(r),
    {
        let mut t = PjTimeVal { sec: self.sec + other.sec, msec: self.msec + other.msec };
        t.normalize();
        t
    }

    /// The difference, normalized.
    pub fn sub(self, other: Self) -> (r: Self)
        requires
            i64::MIN <= self.sec - other.sec <= i64::MAX,
            i64::MIN <= self.msec - other.msec <= i64::MAX,
            !normalize_overflows(
                PjTimeVal { sec: (self.sec - other.sec) as i64, msec: (self.msec - other.msec) as i64 },
            ),
        ensures
            total_msec(r) == total_msec(self) - total_msec(other),
            is_normalized(r),
    {
        let mut t = PjTimeVal { sec: self.sec - other.sec, msec: self.msec - other.msec };
        t.normalize();
        t
    }
}

impl Default for PjTimeVal {
    fn default() -> (r: Self)
        ensures
            r.sec == 0,
            r.msec == 0,
    {
        PjTimeVal { sec: 0, msec: 0 }
    }
}

/// Two normalized time values with the same whole time are the same value:
/// normalizing settles each time on one representation.
pub proof fn lemma_normalized_unique(a: PjTimeVal, b: PjTimeVal)
    requires
        is_normalized(a),
        is_normalized(b),
        total_msec(a) == total_msec(b),
    ensures
        a == b,
{
    if a.sec > b.sec {
        assert(a.sec * 1000 >= b.sec * 1000 + 1000);
    } else if a.sec < b.sec {
        assert(b.sec * 1000 >= a.sec * 1000 + 1000);
    }
}

/// Adding a time value and then taking it away gives back the normalized
/// starting value: a normalized `s` with the whole time of `a` plus `b`,
/// and a normalized `d` with the whole time of `s` minus `b`, make `d`
/// equal to `a` when `a` is normalized.
pub proof fn lemma_add_then_sub(a: PjTimeVal, b: PjTimeVal, s: PjTimeVal, d: PjTimeVal)
    requires
        is_normalized(a),
        is_normalized(s),
        is_normalized(d),
        total_msec(s) == total_msec(a) + total_msec(b),
        total_msec(d) == total_msec(s) - total_msec(b),
    ensures
        d == a,
{
    lemma_normalized_unique(d, a);
}

} // verus!
