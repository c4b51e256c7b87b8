//! What the renderer needs to know of the terminal: the status codes of the
//! drawing primitives and the size the screen last reported.
//!
//! The primitives themselves are called by the program that owns the
//! terminal. It hands their status codes to the functions of this module.

use vstd::prelude::*;

verus! {

/// Turns a status code of a drawing primitive into a result: a negative
/// code is an error, any other code is the primitive's value.
pub fn handle_err(result: i32) -> (r: Result<i32, i32>)
    ensures
        r == if result < 0 {
            Err::<i32, i32>(result)
        } else {
            Ok::<i32, i32>(result)
        },
{
    if result < 0 {
        Err(result)
    } else {
        Ok(result)
    }
}

/// The result of leaving screen mode, from the status code of that call:
/// only zero is a success.
pub fn endwin(result: i32) -> (r: Result<(), i32>)
    ensures
        r == if result == 0 {
            Ok::<(), i32>(())
        } else {
            Err::<(), i32>(result)
        },
{
    if result == 0 {
        Ok(())
    } else {
        Err(result)
    }
}

/// The size of the screen as it was last asked for: the status codes of the
/// two size queries, rows first.
#[derive(Clone, Copy, Debug, PartialEq, Eq, Structural)]
pub struct Window {
    pub max_y: i32,
    pub max_x: i32,
}

impl Window {
    /// The window that reported these two status codes.
    pub fn new(max_y: i32, max_x: i32) -> (w: Window)
        ensures
            w == (Window { max_y, max_x }),
    {
        Window { max_y, max_x }
    }

    /// What `get_max_yx` returns.
    pub open spec fn max_yx(&self) -> Result<(i32, i32), i32> {
        if self.max_y < 0 {
            Err(self.max_y)
        } else if self.max_x < 0 {
            Err(self.max_x)
        } else {
            Ok((self.max_y, self.max_x))
        }
    }

    /// Get the maximum y on the screen.
    pub fn get_max_y(&self) -> (r: Result<i32, i32>)
        ensures
            r == if self.max_y < 0 {
                Err::<i32, i32>(self.max_y)
            } else {
                Ok::<i32, i32>(self.max_y)
            },
    {
        handle_err(self.max_y)
    }

    /// Get the maximum x on the screen.
    pub fn get_max_x(&self) -> (r: Result<i32, i32>)
        ensures
            r == if self.max_x < 0 {
                Err::<i32, i32>(self.max_x)
            } else {
                Ok::<i32, i32>(self.max_x)
            },
    {
        handle_err(self.max_x)
    }

    /// Get a tuple containing the maximum y and x on the screen. Where a
    /// query failed its code is the error, that of the rows first.
    pub fn get_max_yx(&self) -> (r: Result<(i32, i32), i32>)
        ensures
            r == self.max_yx(),
    {
        let y: i32 = match self.get_max_y() {
            Ok(y) => y,
            Err(e) => {
                return Err(e);
            },
        };
        let x: i32 = match self.get_max_x() {
            Ok(x) => x,
            Err(e) => {
                return Err(e);
            },
        };
        Ok((y, x))
    }
}

} // verus!
