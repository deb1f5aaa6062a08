use vstd::prelude::*;

verus! {

/// Monotonic counter of T-states since reset.
pub struct Clock {
    pub t_state: u64,
}

impl Clock {
    pub fn new() -> (r: Self)
        ensures
            r.t_state == 0,
    {
        Clock { t_state: 0 }
    }

    pub fn get_t_state(&self) -> (r: u64)
        ensures
            r == self.t_state,
    {
        self.t_state
    }

    pub fn add_t_state(&mut self, t_state: u8)
        requires
            old(self).t_state + t_state <= u64::MAX,
        ensures
            final(self).t_state == old(self).t_state + t_state,
    {
        self.t_state = self.t_state + t_state as u64;
    }
}

} // verus!
