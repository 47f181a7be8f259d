//! The extraction window, and the name of the file that an extraction
//! writes.

use vstd::prelude::*;
use vstd::string::*;

use crate::time::{parse_wall_time, wall_time_of, WallTime, WINDOW_FORMAT};

verus! {

/// Why there is no window between two bounds.
#[derive(Clone, Copy, Debug, PartialEq, Eq, Structural)]
pub enum WindowError {
    /// The start is not a date and time in the window format.
    UnreadableStart,
    /// The end is not a date and time in the window format.
    UnreadableEnd,
    /// The start is not before the end.
    Empty,
}

/// A stretch of time between two dates and times, both left out: a message
/// is in the window where it was stored after the start and before the end.
/// The start of a window is always before its end.
#[derive(Debug)]
pub struct Window {
    start: WallTime,
    end: WallTime,
}

/// What [`Window::between`] owes for the two bounds it is given.
pub open spec fn window_between(
    start: Option<WallTime>,
    end: Option<WallTime>,
    outcome: Result<Window, WindowError>,
) -> bool {
    match (start, end) {
        (None, _) => outcome == Err::<Window, WindowError>(WindowError::UnreadableStart),
        (Some(_), None) => outcome == Err::<Window, WindowError>(WindowError::UnreadableEnd),
        (Some(s), Some(e)) => if s.before(e) {
            outcome matches Ok(window) && window.lower() == s && window.upper() == e
        } else {
            outcome == Err::<Window, WindowError>(WindowError::Empty)
        },
    }
}

impl Window {
    #[verifier::type_invariant]
    spec fn ordered(self) -> bool {
        self.start.before(self.end)
    }

    /// The start of the window.
    pub closed spec fn lower(self) -> WallTime {
        self.start
    }

    /// The end of the window.
    pub closed spec fn upper(self) -> WallTime {
        self.end
    }

    /// The window from `start` to `end`, where `start` is the earlier one.
    pub fn new(start: WallTime, end: WallTime) -> (r: Result<Window, WindowError>)
        ensures
            window_between(Some(start), Some(end), r),
    {
        if start.is_before(&end) {
            Ok(Window { start, end })
        } else {
            Err(WindowError::Empty)
        }
    }

    /// The window between two bounds as they were read from text, each
    /// `None` where its text could not be read. An unreadable start is
    /// reported before an unreadable end, and both before an empty window.
    pub fn between(start: Option<WallTime>, end: Option<WallTime>) -> (r: Result<
        Window,
        WindowError,
    >)
        ensures
            window_between(start, end, r),
    {
        match start {
            None => Err(WindowError::UnreadableStart),
            Some(s) => match end {
                None => Err(WindowError::UnreadableEnd),
                Some(e) => Window::new(s, e),
            },
        }
    }

    /// The start of the window.
    pub fn start(&self) -> (r: WallTime)
        ensures
            r == self.lower(),
            r.before(self.upper()),
    {
        proof {
            use_type_invariant(self);
        }
        self.start
    }

    /// The end of the window.
    pub fn end(&self) -> (r: WallTime)
        ensures
            r == self.upper(),
            self.lower().before(r),
    {
        proof {
            use_type_invariant(self);
        }
        self.end
    }
}

/// Reads the two bounds of a window, each a date and time in
/// [`WINDOW_FORMAT`], and makes the window between them.
pub fn parse_window(start: &str, end: &str) -> (r: Result<Window, WindowError>)
    ensures
        window_between(
            wall_time_of(start@, WINDOW_FORMAT@),
            wall_time_of(end@, WINDOW_FORMAT@),
            r,
        ),
{
    let lower = parse_wall_time(start, WINDOW_FORMAT);
    let upper = parse_wall_time(end, WINDOW_FORMAT);
    Window::between(lower, upper)
}

/// The directory that extractions are written to.
pub const ARTIFACT_DIR: &'static str = "datasets";

/// The name of the file that holds the extraction of a window: the texts of
/// its two bounds as they were given, with `__` between them and `.csv`
/// behind.
pub open spec fn artifact_name_of(start: Seq<char>, end: Seq<char>) -> Seq<char> {
    start + "__"@ + end + ".csv"@
}

/// Names the file that holds the extraction of the window from `start` to
/// `end`.
pub fn artifact_name(start: &str, end: &str) -> (r: String)
    ensures
        r@ == artifact_name_of(start@, end@),
{
    let mut name = String::from_str(start);
    name.append("__");
    name.append(end);
    name.append(".csv");
    name
}

} // verus!
