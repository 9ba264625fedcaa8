//! Small value types.

use vstd::prelude::*;

verus! {

/// A named model.
pub struct Model {
    pub name: String,
}

impl Model {
    /// A model with the given name.
    pub fn new(name: String) -> (m: Model)
        ensures
            m.name == name,
    {
        Model { name }
    }
}

/// A value that is doubled when the instance is made.
pub struct Example {
    pub value: i32,
}

impl Example {
    /// An instance holding twice `value`.
    pub fn new(value: i32) -> (e: Example)
        requires
            i32::MIN <= 2 * value <= i32::MAX,
        ensures
            e.value == 2 * value,
    {
        let mut instance = Example { value };
        instance.initialize();
        instance
    }

    /// Doubles the held value.
    pub fn initialize(&mut self)
        requires
            i32::MIN <= 2 * old(self).value <= i32::MAX,
        ensures
            final(self).value == 2 * old(self).value,
    {
        self.value = self.value * 2;
    }
}

/// A point whose second coordinate defaults to zero.
pub struct MyStruct {
    pub x: i32,
    pub y: i32,
}

impl MyStruct {
    /// A point on the first axis.
    pub fn new(x: i32) -> (s: MyStruct)
        ensures
            s.x == x,
            s.y == 0,
    {
        MyStruct { x, y: 0 }
    }

    /// A point with both coordinates given.
    pub fn new_with_y(x: i32, y: i32) -> (s: MyStruct)
        ensures
            s.x == x,
            s.y == y,
    {
        MyStruct { x, y }
    }
}

} // verus!
