//! Draw instructions for the renderer collaborator.
//!
//! The dispatcher reduces a view state and a snapshot to an ordered list of
//! these instructions; the renderer consumes them in order.  Fractions are
//! carried as a numerator and denominator so that no instruction holds a
//! floating-point value.

use vstd::prelude::*;

use crate::layout::Region;

verus! {

/// Horizontal alignment of a text panel.
#[derive(Clone, Copy, Debug, PartialEq, Eq, Structural)]
pub enum Align {
    Left,
    Center,
}

/// One instruction to the renderer.
#[derive(Clone, Debug)]
pub enum DrawCmd {
    /// A titled bordered block with nothing inside.
    Block { title: String, region: Region },
    /// A titled, bordered, multi-line text panel, scrolled down `scroll`
    /// lines from the top.
    Paragraph { title: String, align: Align, lines: Vec<String>, scroll: usize, region: Region },
    /// The tab bar, with the entry at `selected` highlighted.
    TabBar { titles: Vec<String>, selected: usize, region: Region },
    /// A ratio gauge showing `numerator / denominator`, a fraction in
    /// [0, 1].
    Gauge { title: String, numerator: u64, denominator: u64, region: Region },
    /// A bar chart of labeled values.
    BarChart { title: String, bars: Vec<(String, u64)>, region: Region },
    /// A line chart through the given points; the y values are in
    /// hundredths.
    Chart { title: String, points: Vec<(u64, u64)>, region: Region },
    /// A vertical scrollbar for content of `content_length` lines, with
    /// its thumb at `position`.
    Scrollbar { position: usize, content_length: usize, region: Region },
}

} // verus!
