use crate::habit::Habit;
use vstd::prelude::*;

verus! {

/// What a list reports to its observers after a change: at `position`, `removed` items went
/// and `added` items came.
#[derive(Debug, Clone, Copy, PartialEq, Eq, Structural)]
pub struct ItemsChanged {
    pub position: u32,
    pub removed: u32,
    pub added: u32,
}

/// The habits that a view lists, in order.
pub struct HabitModel {
    items: Vec<Habit>,
}

impl HabitModel {
    pub closed spec fn view(&self) -> Seq<Habit> {
        self.items@
    }

    pub fn new() -> (r: HabitModel)
        ensures
            r@ == Seq::<Habit>::empty(),
    {
        HabitModel { items: Vec::new() }
    }

    /// Adds `habit` at the end, and reports one item added there.
    pub fn append(&mut self, habit: Habit) -> (r: ItemsChanged)
        requires
            old(self)@.len() < u32::MAX,
        ensures
            final(self)@ == old(self)@.push(habit),
            r == (ItemsChanged { position: old(self)@.len() as u32, removed: 0, added: 1 }),
    {
        self.items.push(habit);
        ItemsChanged { position: (self.items.len() - 1) as u32, removed: 0, added: 1 }
    }

    /// Takes out the item at `index`, and reports one item removed there.
    pub fn remove(&mut self, index: u32) -> (r: ItemsChanged)
        requires
            (index as int) < old(self)@.len(),
        ensures
            final(self)@ == old(self)@.remove(index as int),
            r == (ItemsChanged { position: index, removed: 1, added: 0 }),
    {
        let _ = self.items.remove(index as usize);
        ItemsChanged { position: index, removed: 1, added: 0 }
    }

    pub fn n_items(&self) -> (r: u32)
        requires
            self@.len() <= u32::MAX,
        ensures
            r == self@.len(),
    {
        self.items.len() as u32
    }

    /// The item at `position`, if there is one.
    pub fn item(&self, position: u32) -> (r: Option<&Habit>)
        ensures
            match r {
                Some(h) => (position as int) < self@.len() && *h == self@[position as int],
                None => position as int >= self@.len(),
            },
    {
        if (position as usize) < self.items.len() {
            Some(&self.items[position as usize])
        } else {
            None
        }
    }
}

} // verus!
