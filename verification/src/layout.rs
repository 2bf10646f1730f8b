//! Screen geometry: viewport classes, centred dialogs and the scrim below
//! the top bar. Areas are rectangles of terminal cells.
use vstd::prelude::*;

verus! {

/// A rectangle of cells: left column, top row, width, height.
#[derive(Debug, Clone, Copy, PartialEq, Eq, Structural)]
pub struct Area {
    pub x: u16,
    pub y: u16,
    pub width: u16,
    pub height: u16,
}

/// How roomy the terminal is.
#[derive(Debug, Clone, Copy, PartialEq, Eq, Structural)]
pub enum ViewportClass {
    /// Fewer than 100 columns
    Narrow,
    /// At least 100 columns but fewer than 28 rows
    Short,
    Normal,
}

pub open spec fn viewport_class_spec(area: Area) -> ViewportClass {
    if area.width < 100 {
        ViewportClass::Narrow
    } else if area.height < 28 {
        ViewportClass::Short
    } else {
        ViewportClass::Normal
    }
}

/// Classifies a viewport: narrow below 100 columns, else short below 28
/// rows, else normal.
pub fn viewport_class(area: Area) -> (r: ViewportClass)
    ensures
        r == viewport_class_spec(area),
{
    let narrow = area.width < 100;
    let short = area.height < 28;
    if narrow {
        ViewportClass::Narrow
    } else if short {
        ViewportClass::Short
    } else {
        ViewportClass::Normal
    }
}

pub open spec fn min_u16(a: u16, b: u16) -> u16 {
    if a < b {
        a
    } else {
        b
    }
}

/// The centred dialog: as large as allowed up to the maxima, with the
/// leftover space split evenly (the extra cell goes after).
pub open spec fn centered_spec(area: Area, max_width: u16, max_height: u16) -> Area {
    let w = min_u16(area.width, max_width);
    let h = min_u16(area.height, max_height);
    Area {
        x: (area.x + (area.width - w) / 2) as u16,
        y: (area.y + (area.height - h) / 2) as u16,
        width: w,
        height: h,
    }
}

/// A dialog of at most `max_width` by `max_height` cells, centred in `area`.
pub fn centered_area(area: Area, max_width: u16, max_height: u16) -> (r: Area)
    requires
        area.x + area.width / 2 <= u16::MAX,
        area.y + area.height / 2 <= u16::MAX,
    ensures
        r == centered_spec(area, max_width, max_height),
{
    let width = if area.width < max_width {
        area.width
    } else {
        max_width
    };
    let height = if area.height < max_height {
        area.height
    } else {
        max_height
    };
    let x = area.x + (area.width - width) / 2;
    let y = area.y + (area.height - height) / 2;
    Area { x, y, width, height }
}

/// The centred dialog fits inside the area and is no larger than asked.
pub proof fn law_centered_area_fits(area: Area, max_width: u16, max_height: u16)
    requires
        area.x + area.width <= u16::MAX,
        area.y + area.height <= u16::MAX,
    ensures
        ({
            let r = centered_spec(area, max_width, max_height);
            &&& r.width <= max_width && r.height <= max_height
            &&& area.x <= r.x && r.x + r.width <= area.x + area.width
            &&& area.y <= r.y && r.y + r.height <= area.y + area.height
        }),
{
}

/// The part of `area` below the top bar, where the scrim is drawn.
pub open spec fn scrim_spec(area: Area, top_bar: Area) -> Area {
    Area {
        x: area.x,
        y: (top_bar.y + top_bar.height) as u16,
        width: area.width,
        height: if area.height > top_bar.height {
            (area.height - top_bar.height) as u16
        } else {
            0
        },
    }
}

pub fn scrim_area(area: Area, top_bar: Area) -> (r: Area)
    requires
        top_bar.y + top_bar.height <= u16::MAX,
    ensures
        r == scrim_spec(area, top_bar),
{
    Area {
        x: area.x,
        y: top_bar.y + top_bar.height,
        width: area.width,
        height: area.height.saturating_sub(top_bar.height),
    }
}

} // verus!
