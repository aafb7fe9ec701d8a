//! What the progress display shows, cell by cell: the flight path with the
//! airplane on it, and the line of progress and remaining time above it.

use crate::decimal::{append_signed_decimal, signed_decimal_text};
use crate::flight_status::{FlightStatus, FlightStatusView, FlightStatusViewModel};
use vstd::prelude::*;
use vstd::string::StringExecFns;
use vstd::utf8::encode_utf8;

verus! {

/// The narrowest display on which the flight path is drawn: one cell for
/// each end and one between them.
pub const MIN_PATH_DISPLAY_WIDTH: usize = 3;

/// One cell of the flight path.
#[derive(Debug, Clone, Copy, PartialEq, Eq, Structural)]
pub enum PathCell {
    /// The origin, at the left end.
    Origin,
    /// A cell that the flight has passed.
    Traveled,
    /// The cell where the flight is.
    Airplane,
    /// A cell still ahead of the flight.
    Remaining,
    /// The destination, at the right end.
    Destination,
}

/// The progress held to the range from 0 to 100.
pub open spec fn clamped_progress(progress: int) -> int {
    if progress < 0 {
        0
    } else if progress > 100 {
        100
    } else {
        progress
    }
}

/// The cells between the two ends of a display `width` cells wide.
pub open spec fn path_width(width: int) -> int {
    if width >= 2 {
        width - 2
    } else {
        0
    }
}

/// `percent` hundredths of `cells`, rounded to the nearest whole number,
/// halves upward.
pub open spec fn rounded_share(cells: int, percent: int) -> int {
    (cells * percent + 50) / 100
}

/// The cell of the path where the airplane stands: the share of the path
/// that the clamped progress covers, but never beyond the last cell.
pub open spec fn marker_position(width: int, progress: int) -> int {
    let cells = path_width(width);
    let share = rounded_share(cells, clamped_progress(progress));
    if cells > 0 && share > cells - 1 {
        cells - 1
    } else {
        share
    }
}

/// The cell at place `i` of the path with the airplane at `marker`.
pub open spec fn path_cell(i: int, marker: int) -> PathCell {
    if i == marker {
        PathCell::Airplane
    } else if i < marker {
        PathCell::Traveled
    } else {
        PathCell::Remaining
    }
}

/// The flight path on a display `width` cells wide: the origin, the cells
/// of the path with the airplane among them, and the destination; nothing
/// on a display too narrow to leave a cell between the two ends.
pub open spec fn flight_path(width: int, progress: int) -> Seq<PathCell> {
    if width < MIN_PATH_DISPLAY_WIDTH {
        Seq::empty()
    } else {
        Seq::new(
            width as nat,
            |i: int|
                if i == 0 {
                    PathCell::Origin
                } else if i == width - 1 {
                    PathCell::Destination
                } else {
                    path_cell(i - 1, marker_position(width, progress))
                },
        )
    }
}

/// The cell of the path where the airplane stands, counted from zero, on a
/// display `width` cells wide.
pub fn airplane_position(width: usize, progress: i64) -> (position: usize)
    ensures
        position == marker_position(width as int, progress as int),
        width > 2 ==> position < width - 2,
{
    let percent: u128 = if progress < 0 {
        0
    } else if progress > 100 {
        100
    } else {
        progress as u128
    };
    let cells: usize = if width >= 2 {
        width - 2
    } else {
        0
    };
    let wide: u128 = cells as u128;
    assert(wide * percent <= wide * 100) by (nonlinear_arith)
        requires
            0 <= percent <= 100,
            0 <= wide,
    ;
    let share: u128 = (wide * percent + 50) / 100;
    if cells > 0 && share > wide - 1 {
        cells - 1
    } else {
        share as usize
    }
}

/// The flight path on a display `width` cells wide, cell by cell from the
/// origin to the destination; empty on a display narrower than three
/// cells, which leaves no cell between the two ends.
pub fn build_flight_path(width: usize, progress: i64) -> (cells: Vec<PathCell>)
    ensures
        cells@ == flight_path(width as int, progress as int),
{
    let mut cells: Vec<PathCell> = Vec::new();
    if width < MIN_PATH_DISPLAY_WIDTH {
        return cells;
    }
    let between: usize = width - 2;
    let airplane = airplane_position(width, progress);
    cells.push(PathCell::Origin);
    let mut i: usize = 0;
    while i < between
        invariant
            width >= 3,
            between == width - 2,
            airplane == marker_position(width as int, progress as int),
            0 <= i <= between,
            cells@.len() == i + 1,
            forall|k: int|
                0 <= k < cells@.len() ==> cells@[k] == flight_path(width as int, progress as int)[k],
        decreases between - i,
    {
        if i == airplane {
            cells.push(PathCell::Airplane);
        } else if i < airplane {
            cells.push(PathCell::Traveled);
        } else {
            cells.push(PathCell::Remaining);
        }
        i += 1;
    }
    cells.push(PathCell::Destination);
    cells
}

/// The line above the path before it is centred: the progress in percent,
/// a bullet, and the remaining time, "N/A" where none is known.
pub open spec fn progress_info(progress: int, time_remaining: Option<Seq<char>>) -> Seq<char> {
    signed_decimal_text(progress) + "% \u{2022} "@ + match time_remaining {
        Some(text) => text,
        None => "N/A"@,
    }
}

/// The blanks that centre a text of `len` bytes on `width` cells: half of
/// what the text leaves free, rounded down.
pub open spec fn centering_padding(width: int, len: int) -> int {
    if width > len {
        (width - len) / 2
    } else {
        0
    }
}

/// `text` behind the blanks that centre it on `width` cells, its length
/// counted in bytes.
pub open spec fn centered(text: Seq<char>, width: int) -> Seq<char> {
    Seq::new(centering_padding(width, encode_utf8(text).len() as int) as nat, |i: int| ' ') + text
}

/// The line above the path, centred on `width` cells: the progress in
/// percent, a bullet, and the remaining time, "N/A" where none is known.
pub fn build_progress_info(progress: i64, time_remaining: Option<&str>, width: usize) -> (line:
    String)
    ensures
        line@ == centered(
            progress_info(
                progress as int,
                match time_remaining {
                    Some(text) => Some(text@),
                    None => None,
                },
            ),
            width as int,
        ),
{
    let mut info = String::new();
    append_signed_decimal(&mut info, progress);
    info.append("% \u{2022} ");
    match time_remaining {
        Some(text) => info.append(text),
        None => info.append("N/A"),
    }
    assert(info@ =~= progress_info(
        progress as int,
        match time_remaining {
            Some(text) => Some(text@),
            None => None,
        },
    ));
    let len = info.as_str().as_bytes().len();
    let padding: usize = if width > len {
        (width - len) / 2
    } else {
        0
    };
    let mut line = String::new();
    let mut i: usize = 0;
    while i < padding
        invariant
            0 <= i <= padding,
            line@ == Seq::new(i as nat, |k: int| ' '),
        decreases padding - i,
    {
        proof {
            reveal_strlit(" ");
        }
        line.append(" ");
        i += 1;
        proof {
            assert(line@ =~= Seq::new(i as nat, |k: int| ' '));
        }
    }
    line.append(info.as_str());
    proof {
        assert(padding == centering_padding(width as int, encode_utf8(info@).len() as int));
        assert(line@ =~= centered(info@, width as int));
    }
    line
}

impl FlightStatusView {
    /// A progress in percent guessed from the status alone: half way once
    /// the flight has left, all the way once an on-time flight has arrived,
    /// nothing before departure or after a cancellation.
    pub open spec fn calculate_progress(self) -> int {
        match self.status {
            FlightStatus::OnTime => if self.actual_departure is Some && self.actual_arrival is None {
                50
            } else if self.actual_arrival is Some {
                100
            } else {
                0
            },
            FlightStatus::EnRoute => 50,
            FlightStatus::Cancelled => 0,
            FlightStatus::Delayed => if self.actual_departure is Some {
                50
            } else {
                0
            },
        }
    }
}

/// A progress in percent guessed from the status alone, for a view model
/// without a reported progress.
pub fn calculate_progress(view_model: &FlightStatusViewModel) -> (percent: i64)
    ensures
        percent == view_model@.calculate_progress(),
{
    match view_model.status {
        FlightStatus::OnTime => {
            if view_model.actual_departure.is_some() && view_model.actual_arrival.is_none() {
                50
            } else if view_model.actual_arrival.is_some() {
                100
            } else {
                0
            }
        },
        FlightStatus::EnRoute => 50,
        FlightStatus::Cancelled => 0,
        FlightStatus::Delayed => {
            if view_model.actual_departure.is_some() {
                50
            } else {
                0
            }
        },
    }
}

} // verus!
