use vstd::prelude::*;

use crate::paths::{file_name_of, path_file_name};
use crate::signal::{changes_view, value_at, value_at_spec, Signal};
use crate::trace::{parse_vcd, parsed, VcdData};

verus! {

/// Why a trace could not be loaded.
#[derive(Clone, Copy, Debug, PartialEq, Eq, Structural)]
pub enum LoadError {
    /// There are no trace files to choose from.
    NoFiles,
    /// The selected index is past the end of the file list.
    InvalidSelection,
}

/// The smallest visible time window.
pub const MIN_WINDOW: u64 = 10;

/// The window shown right after a trace is loaded.
pub open spec fn initial_window(max_time: u64) -> u64 {
    if max_time / 10 > 100 {
        (max_time / 10) as u64
    } else {
        100
    }
}

/// The window after one step of zooming in: seven tenths, at least `MIN_WINDOW`.
pub open spec fn zoomed_in(w: u64) -> u64 {
    if w * 7 / 10 > MIN_WINDOW {
        (w * 7 / 10) as u64
    } else {
        MIN_WINDOW
    }
}

/// The window after one step of zooming out: fourteen tenths, at most `max_time`.
pub open spec fn zoomed_out(w: u64, max_time: u64) -> u64 {
    if w * 14 / 10 > max_time {
        max_time
    } else {
        (w * 14 / 10) as u64
    }
}

/// The offset after one step to the left: a tenth of the window, not below 0.
pub open spec fn scrolled_left(offset: u64, w: u64) -> u64 {
    if offset > w / 10 {
        (offset - w / 10) as u64
    } else {
        0
    }
}

/// The offset after one step to the right: a tenth of the window, so far that the window still
/// ends by `max_time` (or at 0 when the window alone is longer).
pub open spec fn scrolled_right(offset: u64, w: u64, max_time: u64) -> u64 {
    if offset + w / 10 + w > max_time {
        if max_time > w {
            (max_time - w) as u64
        } else {
            0
        }
    } else {
        (offset + w / 10) as u64
    }
}

/// The index before `i` in a list of `len` items, from the first back to the last.
pub open spec fn cycled_up(i: usize, len: usize) -> usize {
    if len == 0 {
        i
    } else if i == 0 {
        (len - 1) as usize
    } else {
        (i - 1) as usize
    }
}

/// The index after `i` in a list of `len` items, from the last on to the first.
pub open spec fn cycled_down(i: usize, len: usize) -> usize {
    if len == 0 {
        i
    } else {
        ((i + 1) % (len as int)) as usize
    }
}

pub fn cycle_up(i: usize, len: usize) -> (r: usize)
    ensures
        r == cycled_up(i, len),
{
    if len == 0 {
        i
    } else if i == 0 {
        len - 1
    } else {
        i - 1
    }
}

pub fn cycle_down(i: usize, len: usize) -> (r: usize)
    ensures
        r == cycled_down(i, len),
{
    if len == 0 {
        i
    } else {
        let r = (i % len + 1) % len;
        proof {
            vstd::arithmetic::div_mod::lemma_add_mod_noop_right(1, i as int, len as int);
        }
        r
    }
}

/// The state of one waveform viewing session: the trace files to choose from, the loaded
/// trace, the selected signal and the visible time window.
#[derive(Debug)]
pub struct WaveformViewer {
    pub vcd_files: Vec<String>,
    pub selected_file_index: usize,
    pub current_vcd: Option<VcdData>,
    pub selected_signal_index: usize,
    /// Left edge of the visible window.
    pub time_offset: u64,
    pub current_directory: String,
    /// Width of the visible window.
    pub visible_time_window: u64,
}

impl WaveformViewer {
    /// A session over the trace files `vcd_files` found under `current_directory`, with nothing
    /// loaded yet.
    pub fn new(current_directory: String, vcd_files: Vec<String>) -> (r: Self)
        ensures
            r.vcd_files@ == vcd_files@,
            r.current_directory@ == current_directory@,
            r.selected_file_index == 0,
            r.current_vcd is None,
            r.selected_signal_index == 0,
            r.time_offset == 0,
            r.visible_time_window == 100,
    {
        WaveformViewer {
            vcd_files,
            selected_file_index: 0,
            current_vcd: None,
            selected_signal_index: 0,
            time_offset: 0,
            current_directory,
            visible_time_window: 100,
        }
    }

    /// Replaces the list of trace files with a fresh one and selects its first file.
    pub fn refresh_vcd_files(&mut self, vcd_files: Vec<String>)
        ensures
            final(self).vcd_files@ == vcd_files@,
            final(self).selected_file_index == 0,
            final(self).current_vcd == old(self).current_vcd,
            final(self).selected_signal_index == old(self).selected_signal_index,
            final(self).time_offset == old(self).time_offset,
            final(self).visible_time_window == old(self).visible_time_window,
    {
        self.vcd_files = vcd_files;
        self.selected_file_index = 0;
    }

    /// The path of the selected trace file.
    pub fn selected_file_path(&self) -> (r: Result<&String, LoadError>)
        ensures
            self.vcd_files.len() == 0 ==> r == Err::<&String, LoadError>(LoadError::NoFiles),
            self.vcd_files.len() > 0 && self.selected_file_index >= self.vcd_files.len() ==> r
                == Err::<&String, LoadError>(LoadError::InvalidSelection),
            self.selected_file_index < self.vcd_files.len() ==> r == Ok::<&String, LoadError>(
                &self.vcd_files@[self.selected_file_index as int],
            ),
    {
        if self.vcd_files.len() == 0 {
            Err(LoadError::NoFiles)
        } else if self.selected_file_index >= self.vcd_files.len() {
            Err(LoadError::InvalidSelection)
        } else {
            Ok(&self.vcd_files[self.selected_file_index])
        }
    }

    /// Loads the trace whose text is `text`, read from the selected file: the signal selection
    /// and the offset go back to 0 and the window to a tenth of the trace, at least 100.
    pub fn load_vcd_file(&mut self, text: &str) -> (r: Result<(), LoadError>)
        ensures
            old(self).vcd_files.len() == 0 ==> r == Err::<(), LoadError>(LoadError::NoFiles),
            old(self).vcd_files.len() > 0 && old(self).selected_file_index >= old(self).vcd_files.len() ==> r == Err::<(), LoadError>(LoadError::InvalidSelection),
            old(self).selected_file_index < old(self).vcd_files.len() ==> r is Ok,
            r is Err ==> *final(self) == *old(self),
            r is Ok ==> {
                &&& old(self).selected_file_index < old(self).vcd_files.len()
                &&& final(self).current_vcd is Some
                &&& parsed(final(self).current_vcd->0, text@)
                &&& final(self).visible_time_window == initial_window(
                    final(self).current_vcd->0.max_time,
                )
                &&& final(self).selected_signal_index == 0
                &&& final(self).time_offset == 0
                &&& final(self).vcd_files == old(self).vcd_files
                &&& final(self).selected_file_index == old(self).selected_file_index
                &&& final(self).current_directory == old(self).current_directory
            },
    {
        if self.vcd_files.len() == 0 {
            return Err(LoadError::NoFiles);
        }
        if self.selected_file_index >= self.vcd_files.len() {
            return Err(LoadError::InvalidSelection);
        }
        let data = parse_vcd(text);
        let max_time = data.max_time;
        self.current_vcd = Some(data);
        self.selected_signal_index = 0;
        self.time_offset = 0;
        self.visible_time_window = if max_time / 10 > 100 {
            max_time / 10
        } else {
            100
        };
        Ok(())
    }

    /// The signals shown around the selected one: from two before it to two after it, within
    /// the list.
    pub fn get_visible_signals(&self) -> (r: &[Signal])
        ensures
            match self.current_vcd {
                Some(d) => {
                    let start = if self.selected_signal_index >= 2 {
                        self.selected_signal_index - 2
                    } else {
                        0
                    };
                    let end = if self.selected_signal_index + 3 < d.signals@.len() {
                        self.selected_signal_index + 3
                    } else {
                        d.signals@.len() as int
                    };
                    r@ == if start <= end {
                        d.signals@.subrange(start, end)
                    } else {
                        seq![]
                    }
                },
                None => r@.len() == 0,
            },
    {
        match &self.current_vcd {
            Some(d) => {
                let len = d.signals.len();
                let start = if self.selected_signal_index >= 2 {
                    self.selected_signal_index - 2
                } else {
                    0
                };
                let end = if self.selected_signal_index < len && len - self.selected_signal_index
                    > 3 {
                    self.selected_signal_index + 3
                } else {
                    len
                };
                if start <= end {
                    vstd::slice::slice_subrange(d.signals.as_slice(), start, end)
                } else {
                    let r = vstd::slice::slice_subrange(d.signals.as_slice(), 0, 0);
                    assert(r@ =~= seq![]);
                    r
                }
            },
            None => &[],
        }
    }

    /// The visible bounds `(time_min, time_max, value_min, value_max)`: the window in time, and
    /// the fixed value range from -1/2 to 3/2, given in halves.
    pub fn get_chart_bounds(&self) -> (r: (u64, u64, i64, i64))
        requires
            self.time_offset + self.visible_time_window <= u64::MAX,
        ensures
            r == (self.time_offset, (self.time_offset + self.visible_time_window) as u64, -1i64, 3i64),
    {
        (self.time_offset, self.time_offset + self.visible_time_window, -1, 3)
    }

    pub fn move_file_selection_up(&mut self)
        ensures
            final(self).selected_file_index == cycled_up(
                old(self).selected_file_index,
                old(self).vcd_files.len(),
            ),
            final(self).vcd_files == old(self).vcd_files,
            final(self).current_vcd == old(self).current_vcd,
            final(self).selected_signal_index == old(self).selected_signal_index,
            final(self).time_offset == old(self).time_offset,
            final(self).visible_time_window == old(self).visible_time_window,
    {
        self.selected_file_index = cycle_up(self.selected_file_index, self.vcd_files.len());
    }

    pub fn move_file_selection_down(&mut self)
        ensures
            final(self).selected_file_index == cycled_down(
                old(self).selected_file_index,
                old(self).vcd_files.len(),
            ),
            final(self).vcd_files == old(self).vcd_files,
            final(self).current_vcd == old(self).current_vcd,
            final(self).selected_signal_index == old(self).selected_signal_index,
            final(self).time_offset == old(self).time_offset,
            final(self).visible_time_window == old(self).visible_time_window,
    {
        self.selected_file_index = cycle_down(self.selected_file_index, self.vcd_files.len());
    }

    pub fn move_signal_selection_up(&mut self)
        ensures
            final(self).selected_signal_index == match old(self).current_vcd {
                Some(d) => cycled_up(old(self).selected_signal_index, d.signals.len()),
                None => old(self).selected_signal_index,
            },
            final(self).vcd_files == old(self).vcd_files,
            final(self).selected_file_index == old(self).selected_file_index,
            final(self).current_vcd == old(self).current_vcd,
            final(self).time_offset == old(self).time_offset,
            final(self).visible_time_window == old(self).visible_time_window,
    {
        if let Some(d) = &self.current_vcd {
            let n = d.signals.len();
            self.selected_signal_index = cycle_up(self.selected_signal_index, n);
        }
    }

    pub fn move_signal_selection_down(&mut self)
        ensures
            final(self).selected_signal_index == match old(self).current_vcd {
                Some(d) => cycled_down(old(self).selected_signal_index, d.signals.len()),
                None => old(self).selected_signal_index,
            },
            final(self).vcd_files == old(self).vcd_files,
            final(self).selected_file_index == old(self).selected_file_index,
            final(self).current_vcd == old(self).current_vcd,
            final(self).time_offset == old(self).time_offset,
            final(self).visible_time_window == old(self).visible_time_window,
    {
        if let Some(d) = &self.current_vcd {
            let n = d.signals.len();
            self.selected_signal_index = cycle_down(self.selected_signal_index, n);
        }
    }

    /// Narrows the window to seven tenths, at least `MIN_WINDOW`.
    pub fn zoom_in(&mut self)
        ensures
            final(self).visible_time_window == zoomed_in(old(self).visible_time_window),
            final(self).time_offset == old(self).time_offset,
            final(self).current_vcd == old(self).current_vcd,
            final(self).selected_signal_index == old(self).selected_signal_index,
            final(self).selected_file_index == old(self).selected_file_index,
            final(self).vcd_files == old(self).vcd_files,
    {
        let w = (self.visible_time_window as u128) * 7 / 10;
        self.visible_time_window = if w > MIN_WINDOW as u128 {
            w as u64
        } else {
            MIN_WINDOW
        };
    }

    /// Widens the window to fourteen tenths, at most the trace's length; nothing without a
    /// loaded trace.
    pub fn zoom_out(&mut self)
        ensures
            final(self).visible_time_window == match old(self).current_vcd {
                Some(d) => zoomed_out(old(self).visible_time_window, d.max_time),
                None => old(self).visible_time_window,
            },
            final(self).time_offset == old(self).time_offset,
            final(self).current_vcd == old(self).current_vcd,
            final(self).selected_signal_index == old(self).selected_signal_index,
            final(self).selected_file_index == old(self).selected_file_index,
            final(self).vcd_files == old(self).vcd_files,
    {
        if let Some(d) = &self.current_vcd {
            let max_time = d.max_time;
            let w = (self.visible_time_window as u128) * 14 / 10;
            self.visible_time_window = if w > max_time as u128 {
                max_time
            } else {
                w as u64
            };
        }
    }

    /// Moves the window a tenth of its width to the left, not past 0.
    pub fn scroll_left(&mut self)
        ensures
            final(self).time_offset == scrolled_left(
                old(self).time_offset,
                old(self).visible_time_window,
            ),
            final(self).visible_time_window == old(self).visible_time_window,
            final(self).current_vcd == old(self).current_vcd,
            final(self).selected_signal_index == old(self).selected_signal_index,
            final(self).selected_file_index == old(self).selected_file_index,
            final(self).vcd_files == old(self).vcd_files,
    {
        let step = self.visible_time_window / 10;
        if self.time_offset > step {
            self.time_offset = self.time_offset - step;
        } else {
            self.time_offset = 0;
        }
    }

    /// Moves the window a tenth of its width to the right, so that it still ends by the end of
    /// the trace; nothing without a loaded trace.
    pub fn scroll_right(&mut self)
        ensures
            final(self).time_offset == match old(self).current_vcd {
                Some(d) => scrolled_right(
                    old(self).time_offset,
                    old(self).visible_time_window,
                    d.max_time,
                ),
                None => old(self).time_offset,
            },
            final(self).visible_time_window == old(self).visible_time_window,
            final(self).current_vcd == old(self).current_vcd,
            final(self).selected_signal_index == old(self).selected_signal_index,
            final(self).selected_file_index == old(self).selected_file_index,
            final(self).vcd_files == old(self).vcd_files,
    {
        if let Some(d) = &self.current_vcd {
            let max_time = d.max_time;
            let w = self.visible_time_window;
            let moved = self.time_offset as u128 + (w / 10) as u128;
            if moved + w as u128 > max_time as u128 {
                self.time_offset = if max_time > w {
                    max_time - w
                } else {
                    0
                };
            } else {
                self.time_offset = moved as u64;
            }
        }
    }

    /// The raw value token of `signal` at `time`: that of its last change at or before `time`,
    /// or `x` before its first change.
    pub fn get_signal_value_at_time(&self, signal: &Signal, time: u64) -> (r: String)
        ensures
            r@ == value_at_spec(changes_view(signal.values@), time as int),
    {
        value_at(&signal.values, time)
    }

    pub fn has_vcd_files(&self) -> (r: bool)
        ensures
            r == (self.vcd_files.len() > 0),
    {
        self.vcd_files.len() > 0
    }

    pub fn vcd_file_count(&self) -> (r: usize)
        ensures
            r == self.vcd_files.len(),
    {
        self.vcd_files.len()
    }

    /// The file name of the selected trace file.
    pub fn get_selected_file_name(&self) -> (r: Option<String>)
        ensures
            self.selected_file_index >= self.vcd_files.len() ==> r is None,
            self.selected_file_index < self.vcd_files.len() ==> match r {
                Some(n) => path_file_name(self.vcd_files@[self.selected_file_index as int]@)
                    == Some(n@),
                None => path_file_name(
                    self.vcd_files@[self.selected_file_index as int]@,
                ) is None,
            },
    {
        if self.selected_file_index < self.vcd_files.len() {
            file_name_of(self.vcd_files[self.selected_file_index].as_str())
        } else {
            None
        }
    }

    pub fn get_selected_signal(&self) -> (r: Option<&Signal>)
        ensures
            match self.current_vcd {
                Some(d) => if self.selected_signal_index < d.signals.len() {
                    r == Some(&d.signals@[self.selected_signal_index as int])
                } else {
                    r is None
                },
                None => r is None,
            },
    {
        match &self.current_vcd {
            Some(d) => {
                if self.selected_signal_index < d.signals.len() {
                    Some(&d.signals[self.selected_signal_index])
                } else {
                    None
                }
            },
            None => None,
        }
    }
}


/// The window after `n` steps of zooming in from `w`.
pub open spec fn zoomed_in_times(w: u64, n: nat) -> u64
    decreases n,
{
    if n == 0 {
        w
    } else {
        zoomed_in(zoomed_in_times(w, (n - 1) as nat))
    }
}

/// Zooming in never narrows the window below `MIN_WINDOW`, and after as many steps as the
/// window was wide it stays there.
pub proof fn lemma_zoom_in_floor(w: u64, n: nat)
    requires
        n > 0,
    ensures
        zoomed_in_times(w, n) >= MIN_WINDOW,
        zoomed_in_times(w, n) <= MIN_WINDOW || zoomed_in_times(w, n) <= w - n,
        n >= w ==> zoomed_in_times(w, n) == MIN_WINDOW,
    decreases n,
{
    if n > 1 {
        lemma_zoom_in_floor(w, (n - 1) as nat);
    }
    let prev = zoomed_in_times(w, (n - 1) as nat);
    assert(prev >= 4 ==> prev * 7 / 10 <= prev - 1) by (nonlinear_arith);
}

/// Scrolling right keeps the window within the trace when it fits in it; a window longer than
/// the trace stays at offset 0. Either way the offset stays within the trace.
pub proof fn lemma_scroll_right_clamped(offset: u64, w: u64, max_time: u64)
    ensures
        w <= max_time ==> scrolled_right(offset, w, max_time) + w <= max_time,
        w > max_time ==> scrolled_right(offset, w, max_time) == 0,
        scrolled_right(offset, w, max_time) <= max_time,
{
}

/// Scrolling left never goes below 0 and never moves right.
pub proof fn lemma_scroll_left_clamped(offset: u64, w: u64)
    ensures
        scrolled_left(offset, w) <= offset,
        offset <= w / 10 ==> scrolled_left(offset, w) == 0,
{
}

} // verus!
