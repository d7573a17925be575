//! Move semantics of composite values.
//!
//! A composite value either sits inline in its binding's storage or behind an
//! owning heap handle. Moving one field out of an inline composite leaves the
//! sibling fields usable (a partial move); moving a field out of a composite
//! reached through an owning handle gives up the whole value. The two entry
//! points below show each legal shape; the `tracker` module states the rule
//! itself, as a small state machine over per-field ownership, and proves its
//! properties.

use vstd::prelude::*;

pub mod tracker;

verus! {

/// A composite with a plain scalar field and an exclusively owning heap handle.
#[derive(Debug)]
pub struct Foo {
    x: i32,
    y: Box<i32>,
}

/// Builds a `Foo` in an inline stack slot, moves the handle `y` out, and then
/// still reads `x` through the original binding: a partial move of an inline
/// composite leaves the remaining fields accessible.
pub fn move_semantics_of_struct_values_on_stack() -> (r: i32)
    ensures
        r == 10,
{
    let foo = Foo { x: 10, y: Box::new(10) };
    // `foo` owns the composite, whose storage is inline.
    let a = foo.y;
    // Ownership of the boxed value moved to `a`; `foo` now holds a partially
    // moved value, but `foo.x` is still owned through the original binding.
    let b = foo.x;
    b
}

/// Builds the same composite behind one owning heap handle. Moving `y` out
/// moves the whole handle: no partial ownership is tracked through an
/// indirection, so neither field stays accessible through `foo`. The moved-out
/// handle is dereferenced instead.
pub fn move_semantics_of_struct_values_on_heap() -> (r: i32)
    ensures
        r == 10,
{
    let foo = Box::new(Foo { x: 10, y: Box::new(10) });
    // The first field move out of the boxed composite moves `foo` itself.
    let a = foo.y;
    *a
}

} // verus!
