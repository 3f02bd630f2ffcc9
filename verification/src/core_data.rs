//! What the program knows about itself while it runs: how long it has run,
//! how many frames it has drawn, the size of the screen and where the cursor is.

use std::time::{Duration, SystemTime, SystemTimeError};
use vstd::prelude::*;
use crate::editor::{Dimensions, Location};

pub mod core_data;

verus! {

/// `std::time::SystemTime`, a reading of the system clock. Nothing is known
/// of what a reading holds.
#[verifier::external_type_specification]
#[verifier::external_body]
pub struct ExSystemTime(SystemTime);

/// `std::time::SystemTimeError`, what `SystemTime::duration_since` returns
/// in place of a duration. Nothing is known of what it holds.
#[verifier::external_type_specification]
#[verifier::external_body]
pub struct ExSystemTimeError(SystemTimeError);

/// `SystemTime::now` reads the system clock. Nothing is claimed of the
/// reading: two readings may differ, and a later one may even be earlier.
pub assume_specification[ SystemTime::now ]() -> SystemTime;

/// `SystemTime::duration_since` gives the time that passed from `earlier` to
/// `later`, or an error where `later` is the earlier of the two. Nothing is
/// claimed of which it is, nor of the amount.
pub assume_specification[ SystemTime::duration_since ](
    later: &SystemTime,
    earlier: SystemTime,
) -> Result<Duration, SystemTimeError>;

/// `Duration::as_secs` gives the whole seconds of a duration. Nothing is
/// claimed of the number.
pub assume_specification[ Duration::as_secs ](duration: &Duration) -> u64;

/// The counters and sizes of a `CoreData`, without its clock.
pub struct CoreDataView {
    pub running_for_secs: u64,
    pub frames: u64,
    pub dimensions: Dimensions,
    pub cursor_location: Location,
}

/// The running program's record of itself. It keeps the clock reading of
/// its start, from which `tick` works out the time run.
pub struct CoreData {
    start_time: SystemTime,
    running_for_secs: u64,
    frames: u64,
    dimensions: Dimensions,
    cursor_location: Location,
}

impl View for CoreData {
    type V = CoreDataView;

    closed spec fn view(&self) -> CoreDataView {
        CoreDataView {
            running_for_secs: self.running_for_secs,
            frames: self.frames,
            dimensions: self.dimensions,
            cursor_location: self.cursor_location,
        }
    }
}

/// Frames per whole second: 0 during the first second.
pub open spec fn frame_rate(frames: u64, secs: u64) -> int {
    if secs == 0 {
        0
    } else {
        frames as int / secs as int
    }
}

impl CoreData {
    /// Starts the clock: no frame drawn, no second run, a screen of the
    /// default size and the cursor at the origin.
    pub fn new() -> (data: CoreData)
        ensures
            data@ == (CoreDataView {
                running_for_secs: 0,
                frames: 0,
                dimensions: Dimensions { columns: 80, rows: 24 },
                cursor_location: Location { column_ix: 0, row_ix: 0 },
            }),
    {
        CoreData {
            start_time: SystemTime::now(),
            running_for_secs: 0,
            frames: 0,
            dimensions: Dimensions::default(),
            cursor_location: Location::default(),
        }
    }

    /// Counts one frame and takes `uptime_secs` as the time run so far.
    /// Without an uptime the time run so far stays as it is.
    pub fn count_frame(&mut self, uptime_secs: Option<u64>)
        requires
            old(self)@.frames < u64::MAX,
        ensures
            final(self)@ == (CoreDataView {
                running_for_secs: match uptime_secs {
                    Some(secs) => secs,
                    None => old(self)@.running_for_secs,
                },
                frames: (old(self)@.frames + 1) as u64,
                ..old(self)@
            }),
    {
        if let Some(secs) = uptime_secs {
            self.running_for_secs = secs;
        }
        self.frames = self.frames + 1;
    }

    /// Counts one frame and reads the clock for the time run so far. Where
    /// the clock reads earlier than at the start, the time run so far stays
    /// as it is.
    pub fn tick(&mut self)
        requires
            old(self)@.frames < u64::MAX,
        ensures
            final(self)@.frames == old(self)@.frames + 1,
            final(self)@.dimensions == old(self)@.dimensions,
            final(self)@.cursor_location == old(self)@.cursor_location,
    {
        let now = SystemTime::now();
        let uptime_secs = match now.duration_since(self.start_time) {
            Ok(elapsed) => Some(elapsed.as_secs()),
            Err(_) => None,
        };
        self.count_frame(uptime_secs);
    }

    /// Frames counted so far.
    pub fn frames(&self) -> (frames: u64)
        ensures
            frames == self@.frames,
    {
        self.frames
    }

    /// Whole seconds run at the last tick.
    pub fn uptime(&self) -> (secs: u64)
        ensures
            secs == self@.running_for_secs,
    {
        self.running_for_secs
    }

    /// Frames drawn per second run; 0 during the first second.
    pub fn fps(&self) -> (rate: u64)
        ensures
            rate == frame_rate(self@.frames, self@.running_for_secs),
    {
        if self.running_for_secs == 0 {
            0
        } else {
            self.frames / self.running_for_secs
        }
    }

    /// The size of the screen as last recorded.
    pub fn dimensions(&self) -> (dimensions: &Dimensions)
        ensures
            *dimensions == self@.dimensions,
    {
        &self.dimensions
    }

    /// Records a new size of the screen.
    pub fn update_dimensions(&mut self, dimensions: &Dimensions)
        ensures
            final(self)@ == (CoreDataView { dimensions: *dimensions, ..old(self)@ }),
    {
        self.dimensions = Dimensions::from(dimensions);
    }

    /// The cursor position as last recorded.
    pub fn cursor_location(&self) -> (location: &Location)
        ensures
            *location == self@.cursor_location,
    {
        &self.cursor_location
    }

    /// Records a new cursor position.
    pub fn update_cursor_location(&mut self, location: &Location)
        ensures
            final(self)@ == (CoreDataView { cursor_location: *location, ..old(self)@ }),
    {
        self.cursor_location = Location::from(location);
    }
}

} // verus!
