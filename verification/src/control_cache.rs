use vstd::prelude::*;

verus! {

/// Remembers the display flags a front end chose for each control mode, so
/// switching between modes restores them.  One bit per flag: position mode's
/// two flags in bits 0 and 1, velocity mode's in bits 2 and 3, torque mode's
/// in bits 4 and 5.
#[derive(Clone, Copy, PartialEq, Eq, Structural, Debug)]
pub struct ControlStateCache(pub u8);

/// Whether bit `k` of `v` is set.
pub open spec fn spec_bit(v: u8, k: u8) -> bool {
    (v >> k) & 1 == 1
}

impl ControlStateCache {
    /// Starts with every flag clear.
    pub fn new() -> (r: ControlStateCache)
        ensures
            r.0 == 0,
    {
        ControlStateCache(0)
    }

    /// Position mode: show velocity.
    pub fn pos_ctrl_vel(&self) -> (r: bool)
        ensures
            r == spec_bit(self.0, 0),
    {
        let x = self.0;
        proof {
            assert(((x & (1u8 << 0u8)) > 0) == ((x >> 0u8) & 1 == 1)) by (bit_vector);
        }
        (x & (1u8 << 0u8)) > 0
    }

    /// Position mode: show torque.
    pub fn pos_ctrl_i(&self) -> (r: bool)
        ensures
            r == spec_bit(self.0, 1),
    {
        let x = self.0;
        proof {
            assert(((x & (1u8 << 1u8)) > 0) == ((x >> 1u8) & 1 == 1)) by (bit_vector);
        }
        (x & (1u8 << 1u8)) > 0
    }

    /// Velocity mode: show position.
    pub fn vel_ctrl_pos(&self) -> (r: bool)
        ensures
            r == spec_bit(self.0, 2),
    {
        let x = self.0;
        proof {
            assert(((x & (1u8 << 2u8)) > 0) == ((x >> 2u8) & 1 == 1)) by (bit_vector);
        }
        (x & (1u8 << 2u8)) > 0
    }

    /// Velocity mode: show torque.
    pub fn vel_ctrl_i(&self) -> (r: bool)
        ensures
            r == spec_bit(self.0, 3),
    {
        let x = self.0;
        proof {
            assert(((x & (1u8 << 3u8)) > 0) == ((x >> 3u8) & 1 == 1)) by (bit_vector);
        }
        (x & (1u8 << 3u8)) > 0
    }

    /// Torque mode: show position.
    pub fn i_ctrl_pos(&self) -> (r: bool)
        ensures
            r == spec_bit(self.0, 4),
    {
        let x = self.0;
        proof {
            assert(((x & (1u8 << 4u8)) > 0) == ((x >> 4u8) & 1 == 1)) by (bit_vector);
        }
        (x & (1u8 << 4u8)) > 0
    }

    /// Torque mode: show velocity.
    pub fn i_ctrl_vel(&self) -> (r: bool)
        ensures
            r == spec_bit(self.0, 5),
    {
        let x = self.0;
        proof {
            assert(((x & (1u8 << 5u8)) > 0) == ((x >> 5u8) & 1 == 1)) by (bit_vector);
        }
        (x & (1u8 << 5u8)) > 0
    }

    /// Stores position mode's flags, leaving the other modes' bits alone.
    pub fn set_pos_ctrl(&mut self, show_vel: bool, show_i: bool)
        ensures
            spec_bit(final(self).0, 0) == show_vel,
            spec_bit(final(self).0, 1) == show_i,
            spec_bit(final(self).0, 2) == spec_bit(old(self).0, 2),
            spec_bit(final(self).0, 3) == spec_bit(old(self).0, 3),
            spec_bit(final(self).0, 4) == spec_bit(old(self).0, 4),
            spec_bit(final(self).0, 5) == spec_bit(old(self).0, 5),
    {
        let b1: u8 = if show_vel {
            1
        } else {
            0
        };
        let b2: u8 = if show_i {
            1
        } else {
            0
        };
        let x = self.0;
        let y = (x & !((1u8 << 0u8) | (1u8 << 1u8))) | ((b1 << 0u8) | (b2 << 1u8));
        proof {
            assert({
                let y2 = (x & !((1u8 << 0u8) | (1u8 << 1u8))) | ((b1 << 0u8) | (b2 << 1u8));
                &&& ((y2 >> 0u8) & 1 == 1) == (b1 == 1)
                &&& ((y2 >> 1u8) & 1 == 1) == (b2 == 1)
                &&& (y2 >> 2u8) & 1 == (x >> 2u8) & 1
                &&& (y2 >> 3u8) & 1 == (x >> 3u8) & 1
                &&& (y2 >> 4u8) & 1 == (x >> 4u8) & 1
                &&& (y2 >> 5u8) & 1 == (x >> 5u8) & 1
            }) by (bit_vector)
                requires
                    b1 <= 1,
                    b2 <= 1,
            ;
        }
        self.0 = y;
    }

    /// Stores velocity mode's flags, leaving the other modes' bits alone.
    pub fn set_vel_ctrl(&mut self, show_pos: bool, show_i: bool)
        ensures
            spec_bit(final(self).0, 2) == show_pos,
            spec_bit(final(self).0, 3) == show_i,
            spec_bit(final(self).0, 0) == spec_bit(old(self).0, 0),
            spec_bit(final(self).0, 1) == spec_bit(old(self).0, 1),
            spec_bit(final(self).0, 4) == spec_bit(old(self).0, 4),
            spec_bit(final(self).0, 5) == spec_bit(old(self).0, 5),
    {
        let b1: u8 = if show_pos {
            1
        } else {
            0
        };
        let b2: u8 = if show_i {
            1
        } else {
            0
        };
        let x = self.0;
        let y = (x & !((1u8 << 2u8) | (1u8 << 3u8))) | ((b1 << 2u8) | (b2 << 3u8));
        proof {
            assert({
                let y2 = (x & !((1u8 << 2u8) | (1u8 << 3u8))) | ((b1 << 2u8) | (b2 << 3u8));
                &&& ((y2 >> 2u8) & 1 == 1) == (b1 == 1)
                &&& ((y2 >> 3u8) & 1 == 1) == (b2 == 1)
                &&& (y2 >> 0u8) & 1 == (x >> 0u8) & 1
                &&& (y2 >> 1u8) & 1 == (x >> 1u8) & 1
                &&& (y2 >> 4u8) & 1 == (x >> 4u8) & 1
                &&& (y2 >> 5u8) & 1 == (x >> 5u8) & 1
            }) by (bit_vector)
                requires
                    b1 <= 1,
                    b2 <= 1,
            ;
        }
        self.0 = y;
    }

    /// Stores torque mode's flags, leaving the other modes' bits alone.
    pub fn set_i_ctrl(&mut self, show_pos: bool, show_vel: bool)
        ensures
            spec_bit(final(self).0, 4) == show_pos,
            spec_bit(final(self).0, 5) == show_vel,
            spec_bit(final(self).0, 0) == spec_bit(old(self).0, 0),
            spec_bit(final(self).0, 1) == spec_bit(old(self).0, 1),
            spec_bit(final(self).0, 2) == spec_bit(old(self).0, 2),
            spec_bit(final(self).0, 3) == spec_bit(old(self).0, 3),
    {
        let b1: u8 = if show_pos {
            1
        } else {
            0
        };
        let b2: u8 = if show_vel {
            1
        } else {
            0
        };
        let x = self.0;
        let y = (x & !((1u8 << 4u8) | (1u8 << 5u8))) | ((b1 << 4u8) | (b2 << 5u8));
        proof {
            assert({
                let y2 = (x & !((1u8 << 4u8) | (1u8 << 5u8))) | ((b1 << 4u8) | (b2 << 5u8));
                &&& ((y2 >> 4u8) & 1 == 1) == (b1 == 1)
                &&& ((y2 >> 5u8) & 1 == 1) == (b2 == 1)
                &&& (y2 >> 0u8) & 1 == (x >> 0u8) & 1
                &&& (y2 >> 1u8) & 1 == (x >> 1u8) & 1
                &&& (y2 >> 2u8) & 1 == (x >> 2u8) & 1
                &&& (y2 >> 3u8) & 1 == (x >> 3u8) & 1
            }) by (bit_vector)
                requires
                    b1 <= 1,
                    b2 <= 1,
            ;
        }
        self.0 = y;
    }
}

} // verus!
