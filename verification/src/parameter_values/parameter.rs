use vstd::prelude::*;

verus! {

/// One synthesizer parameter: a value, its range, and a change flag for each
/// of the two consumers.
#[derive(Debug, Clone, Copy)]
pub struct Parameter {
    /// Current value, within `[min_value, max_value]`.
    pub value: i32,
    /// Minimum allowed value (inclusive). Default: 0.
    pub min_value: i32,
    /// Maximum allowed value (inclusive). Default: 127.
    pub max_value: i32,
    /// Set while the display has not yet shown the current value.
    pub changed_oled: bool,
    /// Set while the current value has not yet been sent out on the bus.
    pub changed_i2c: bool,
}

/// `v` limited to the range `[lo, hi]`.
pub open spec fn clamp_to(v: int, lo: int, hi: int) -> int {
    if v < lo {
        lo
    } else if v > hi {
        hi
    } else {
        v
    }
}

/// `v` limited to the range `[lo, hi]`.
pub fn clamp(v: i32, lo: i32, hi: i32) -> (r: i32)
    requires
        lo <= hi,
    ensures
        r == clamp_to(v as int, lo as int, hi as int),
{
    if v < lo {
        lo
    } else if v > hi {
        hi
    } else {
        v
    }
}

impl Parameter {
    /// The range is not empty.
    pub open spec fn range_ok(self) -> bool {
        self.min_value <= self.max_value
    }

    /// The value lies within the range.
    pub open spec fn wf(self) -> bool {
        self.min_value <= self.value <= self.max_value
    }

    /// The parameter after a local write of `v`: clamped, both flags set.
    pub open spec fn written(self, v: int) -> Parameter {
        Parameter {
            value: clamp_to(v, self.min_value as int, self.max_value as int) as i32,
            min_value: self.min_value,
            max_value: self.max_value,
            changed_oled: true,
            changed_i2c: true,
        }
    }

    /// The parameter after a write of `v` that came in over the bus: clamped,
    /// display flag set, bus flag as it was.
    pub open spec fn written_from_i2c(self, v: int) -> Parameter {
        Parameter {
            value: clamp_to(v, self.min_value as int, self.max_value as int) as i32,
            min_value: self.min_value,
            max_value: self.max_value,
            changed_oled: true,
            changed_i2c: self.changed_i2c,
        }
    }

    /// A parameter as a fresh store holds it: value 0 in the range 0 to 127,
    /// no change pending.
    pub open spec fn initial() -> Parameter {
        Parameter { value: 0, min_value: 0, max_value: 127, changed_oled: false, changed_i2c: false }
    }

    /// Update the value from an encoder or other local source.
    ///
    /// Clamps to `[min_value, max_value]` and sets both change flags: a local
    /// change has to reach the display and the bus.
    pub fn set_value(&mut self, v: i32)
        requires
            old(self).range_ok(),
        ensures
            *final(self) == old(self).written(v as int),
            final(self).wf(),
    {
        self.value = clamp(v, self.min_value, self.max_value);
        self.changed_oled = true;
        self.changed_i2c = true;
    }

    /// Update the value from a bus write.
    ///
    /// Clamps to `[min_value, max_value]` and sets only `changed_oled`, so
    /// that the value is not echoed back to where it came from.
    pub fn set_value_from_i2c(&mut self, v: i32)
        requires
            old(self).range_ok(),
        ensures
            *final(self) == old(self).written_from_i2c(v as int),
            final(self).wf(),
    {
        self.value = clamp(v, self.min_value, self.max_value);
        self.changed_oled = true;
    }

    /// Move the value by `delta`, as an encoder does.
    ///
    /// The sum is taken exactly, then clamped; both change flags are set.
    pub fn nudge(&mut self, delta: i64)
        requires
            old(self).range_ok(),
        ensures
            *final(self) == old(self).written(old(self).value + delta),
            final(self).wf(),
    {
        let room_up: i64 = self.max_value as i64 - self.value as i64;
        let room_down: i64 = self.min_value as i64 - self.value as i64;
        if delta >= room_up {
            self.value = self.max_value;
        } else if delta <= room_down {
            self.value = self.min_value;
        } else {
            self.value = (self.value as i64 + delta) as i32;
        }
        self.changed_oled = true;
        self.changed_i2c = true;
    }
}

impl Default for Parameter {
    fn default() -> (p: Self)
        ensures
            p == Parameter::initial(),
    {
        Self { value: 0, min_value: 0, max_value: 127, changed_oled: false, changed_i2c: false }
    }
}

/// One of the two change flags that every parameter carries, named by the
/// consumer that reads it.
#[derive(Debug, Clone, Copy, PartialEq, Eq, Structural)]
pub enum ChangeFlag {
    /// `changed_oled`, read by the display.
    Oled,
    /// `changed_i2c`, read by the outgoing bus.
    I2c,
}

/// A slot of a page: it holds a parameter, or nothing.
///
/// Every page has `PARAMS_PER_PAGE` slots. On a `Null` slot the encoder at
/// that position has no effect.
#[derive(Debug, Clone, Copy)]
pub enum ParameterSlot {
    /// The slot holds a parameter.
    Active(Parameter),
    /// The slot is empty: encoder movements are ignored, nothing is shown.
    Null,
}

impl ParameterSlot {
    /// What holds of every slot of a valid store: an active one is in range.
    pub open spec fn wf(self) -> bool {
        self matches ParameterSlot::Active(p) ==> p.wf()
    }

    /// The slot after an encoder moved it by `delta`. A `Null` slot stays as
    /// it is.
    pub open spec fn nudged(self, delta: int) -> ParameterSlot {
        match self {
            ParameterSlot::Active(p) => ParameterSlot::Active(p.written(p.value + delta)),
            ParameterSlot::Null => ParameterSlot::Null,
        }
    }

    /// The slot after a bus write of `v`. A `Null` slot stays as it is.
    pub open spec fn written_from_i2c(self, v: int) -> ParameterSlot {
        match self {
            ParameterSlot::Active(p) => ParameterSlot::Active(p.written_from_i2c(v)),
            ParameterSlot::Null => ParameterSlot::Null,
        }
    }

    /// The slot with `changed_oled` set, if it holds a parameter.
    pub open spec fn marked_for_oled(self) -> ParameterSlot {
        match self {
            ParameterSlot::Active(p) => ParameterSlot::Active(
                Parameter { changed_oled: true, ..p },
            ),
            ParameterSlot::Null => ParameterSlot::Null,
        }
    }

    /// The slot holds a parameter on which `flag` is set.
    pub open spec fn is_flagged(self, flag: ChangeFlag) -> bool {
        match self {
            ParameterSlot::Active(p) => match flag {
                ChangeFlag::Oled => p.changed_oled,
                ChangeFlag::I2c => p.changed_i2c,
            },
            ParameterSlot::Null => false,
        }
    }

    /// The slot with `flag` cleared and the other flag as it was.
    pub open spec fn cleared(self, flag: ChangeFlag) -> ParameterSlot {
        match self {
            ParameterSlot::Active(p) => match flag {
                ChangeFlag::Oled => ParameterSlot::Active(Parameter { changed_oled: false, ..p }),
                ChangeFlag::I2c => ParameterSlot::Active(Parameter { changed_i2c: false, ..p }),
            },
            ParameterSlot::Null => ParameterSlot::Null,
        }
    }

    /// Returns `true` if this slot holds a parameter.
    pub fn is_active(&self) -> (b: bool)
        ensures
            b == (*self is Active),
    {
        matches!(self, ParameterSlot::Active(_))
    }

    /// The parameter in this slot, or `None` if the slot is `Null`.
    pub fn as_ref(&self) -> (r: Option<&Parameter>)
        ensures
            match *self {
                ParameterSlot::Active(p) => r == Some(&p),
                ParameterSlot::Null => r is None,
            },
    {
        match self {
            ParameterSlot::Active(param) => Some(param),
            ParameterSlot::Null => None,
        }
    }

    /// The parameter in this slot, for writing, or `None` if the slot is
    /// `Null`. What the caller writes through the reference is what the slot
    /// holds afterwards.
    pub fn as_mut(&mut self) -> (r: Option<&mut Parameter>)
        ensures
            match *old(self) {
                ParameterSlot::Active(p) => r is Some && *r->Some_0 == p && *final(self)
                    == ParameterSlot::Active(*final(r->Some_0)),
                ParameterSlot::Null => r is None && *final(self) == ParameterSlot::Null,
            },
    {
        match self {
            ParameterSlot::Active(param) => Some(param),
            ParameterSlot::Null => None,
        }
    }
}

impl Default for ParameterSlot {
    fn default() -> (s: Self)
        ensures
            s == ParameterSlot::Null,
    {
        ParameterSlot::Null
    }
}

} // verus!
