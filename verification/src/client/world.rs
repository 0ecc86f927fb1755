//! Client cell tracking.
use vstd::prelude::*;

verus! {

/// The cell the player is in and the 3x3 grid of loaded cells around it.
#[derive(Debug, Clone, Copy)]
pub struct CellTracker {
    pub current_cell: u32,
    pub context: [u32; 9],
}

impl CellTracker {
    /// No cell known yet.
    pub fn new() -> (r: CellTracker)
        ensures
            r.current_cell == 0,
            r.context@ == Seq::new(9, |i: int| 0u32),
    {
        let r = CellTracker { current_cell: 0, context: [0; 9] };
        assert(r.context@ =~= Seq::new(9, |i: int| 0u32));
        r
    }

    /// Takes a new 3x3 context; the player's cell is its centre.
    pub fn update(&mut self, cells: [u32; 9])
        ensures
            final(self).current_cell == cells[4],
            final(self).context == cells,
    {
        self.current_cell = cells[4];
        self.context = cells;
    }
}

impl Default for CellTracker {
    fn default() -> (r: CellTracker)
        ensures
            r.current_cell == 0,
            r.context@ == Seq::new(9, |i: int| 0u32),
    {
        CellTracker::new()
    }
}

} // verus!
