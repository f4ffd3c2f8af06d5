//! The plan picker.

use vstd::prelude::*;

use crate::schemas::PlanSummary;

verus! {

/// The picker's cursor.
#[derive(Debug, Clone, PartialEq, Eq)]
pub struct SelectorState {
    pub selected: Option<usize>,
}

impl SelectorState {
    /// The cursor on the first plan, or on nothing when there is none.
    pub fn new(plan_count: usize) -> (r: SelectorState)
        ensures
            r.selected == (if plan_count > 0 { Some(0usize) } else { None }),
    {
        if plan_count > 0 {
            SelectorState { selected: Some(0) }
        } else {
            SelectorState { selected: None }
        }
    }

    /// The plan the cursor is on.
    pub fn selected(&self) -> (r: Option<usize>)
        ensures
            r == self.selected,
    {
        self.selected
    }

    /// Moves the cursor up, staying on the first plan.
    pub fn move_up(&mut self)
        ensures
            ({
                let i = match old(self).selected { Some(i) => i as int, None => 0 };
                if i > 0 {
                    final(self).selected == Some((i - 1) as usize)
                } else {
                    *final(self) == *old(self)
                }
            }),
    {
        let i = match self.selected {
            Some(i) => i,
            None => 0,
        };
        if i > 0 {
            self.selected = Some(i - 1);
        }
    }

    /// Moves the cursor down, staying on the last of `plan_count` plans.
    pub fn move_down(&mut self, plan_count: usize)
        ensures
            ({
                let i = match old(self).selected { Some(i) => i as int, None => 0 };
                if i + 1 < plan_count {
                    final(self).selected == Some((i + 1) as usize)
                } else {
                    *final(self) == *old(self)
                }
            }),
    {
        let i = match self.selected {
            Some(i) => i,
            None => 0,
        };
        if i < plan_count && i + 1 < plan_count {
            self.selected = Some(i + 1);
        }
    }

    /// The plan the cursor is on, if the cursor is on one.
    pub fn pick<'a>(&self, plans: &'a [PlanSummary]) -> (r: Option<&'a PlanSummary>)
        ensures
            match self.selected {
                Some(i) => if i < plans@.len() {
                    r == Some(&plans@[i as int])
                } else {
                    r is None
                },
                None => r is None,
            },
    {
        match self.selected {
            Some(i) => if i < plans.len() {
                Some(&plans[i])
            } else {
                None
            },
            None => None,
        }
    }
}

} // verus!
