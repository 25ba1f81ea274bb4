//! Structs with named fields, a builder function and methods.

use vstd::prelude::*;

verus! {

/// A user account.
pub struct User {
    pub active: bool,
    pub username: String,
    pub email: String,
    pub sign_in_count: u64,
}

/// Builds an active user with the given address and name, signed in once.
pub fn build_user(email: String, username: String) -> (r: User)
    ensures
        r.email@ == email@,
        r.username@ == username@,
        r.active,
        r.sign_in_count == 1,
{
    User { email: email, username: username, active: true, sign_in_count: 1 }
}

/// A rectangle given by its width and height.
pub struct Rectangle {
    pub width: u32,
    pub height: u32,
}

/// The area of `r`.
pub fn area(r: &Rectangle) -> (a: u32)
    requires
        r.width * r.height <= u32::MAX,
    ensures
        a == r.width * r.height,
{
    r.width * r.height
}

impl Rectangle {
    /// The area of this rectangle.
    pub fn area(&self) -> (a: u32)
        requires
            self.width * self.height <= u32::MAX,
        ensures
            a == self.width * self.height,
    {
        self.width * self.height
    }

    /// Whether `other` fits strictly inside this rectangle.
    pub fn can_hold(&self, other: &Rectangle) -> (r: bool)
        ensures
            r == (self.width > other.width && self.height > other.height),
    {
        self.width > other.width && self.height > other.height
    }

    /// The square with sides of length `size`.
    pub fn square(size: u32) -> (r: Rectangle)
        ensures
            r.width == size,
            r.height == size,
    {
        Rectangle { width: size, height: size }
    }
}

} // verus!
