//! Records: a user account, a point on the integer grid, and an
//! axis-aligned rectangle.

use vstd::prelude::*;
use crate::text::{bool_text, bool_to_string, decimal, u64_to_string};

verus! {

/// A user account.
#[derive(Debug)]
pub struct User {
    pub username: String,
    pub email: String,
    pub active: bool,
    pub login_count: u64,
}

/// The status line of a user: `Status: <active>, login count: <count>`.
pub open spec fn status_text(active: bool, login_count: u64) -> Seq<char> {
    "Status: "@ + bool_text(active) + ", login count: "@ + decimal(login_count as int)
}

impl User {
    /// The name shown for the user: a copy of the user name.
    pub fn display_name(&self) -> (r: String)
        ensures
            r@ == self.username@,
    {
        self.username.clone()
    }

    /// The status line of the user.
    pub fn display_status(&self) -> (r: String)
        ensures
            r@ == status_text(self.active, self.login_count),
    {
        let mut s = String::from_str("Status: ");
        let active = bool_to_string(self.active);
        s.append(active.as_str());
        s.append(", login count: ");
        let count = u64_to_string(self.login_count);
        s.append(count.as_str());
        s
    }
}

/// A new user with the given name and e-mail: active, with no logins yet.
pub fn build_user(username: String, email: String) -> (r: User)
    ensures
        r.username == username,
        r.email == email,
        r.active,
        r.login_count == 0,
{
    User { username, email, active: true, login_count: 0 }
}

/// A point on the integer grid.
pub struct Point(pub i32, pub i32);

/// The point `pt` moved by `dx` across and `dy` down.
pub fn move_point(pt: &Point, dx: i32, dy: i32) -> (r: Point)
    requires
        i32::MIN <= pt.0 + dx <= i32::MAX,
        i32::MIN <= pt.1 + dy <= i32::MAX,
    ensures
        r.0 == pt.0 + dx,
        r.1 == pt.1 + dy,
{
    Point(pt.0 + dx, pt.1 + dy)
}

/// An axis-aligned rectangle from corner `(x0, y0)` to corner `(x1, y1)`.
#[derive(Debug)]
pub struct Rect {
    pub x0: u32,
    pub y0: u32,
    pub x1: u32,
    pub y1: u32,
}

impl Rect {
    /// Width times height.
    pub fn area(&self) -> (r: u32)
        requires
            self.x0 <= self.x1,
            self.y0 <= self.y1,
            (self.x1 - self.x0) * (self.y1 - self.y0) <= u32::MAX,
        ensures
            r == (self.x1 - self.x0) * (self.y1 - self.y0),
    {
        (self.x1 - self.x0) * (self.y1 - self.y0)
    }

    /// The square with one corner at the origin and sides of length `size`.
    pub fn square(size: u32) -> (r: Rect)
        ensures
            r.x0 == 0,
            r.y0 == 0,
            r.x1 == size,
            r.y1 == size,
    {
        Rect { x0: 0, y0: 0, x1: size, y1: size }
    }
}

} // verus!
