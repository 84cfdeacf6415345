//! The five HSL colors of each of the twelve palettes. Pattern elements cycle
//! through the five slots of the palette the index selects.

use vstd::prelude::*;
use crate::classify::palette_code;
use crate::svg::SvgGenerator;

verus! {

/// The color in `slot` (0..=4) of palette `p` (0..=11).
pub open spec fn spec_palette_color(p: u128, slot: int) -> Seq<char> {
    if p == 0 {
        if slot == 0 {
            "hsl(10, 80%, 60%)"@
        } else if slot == 1 {
            "hsl(30, 90%, 50%)"@
        } else if slot == 2 {
            "hsl(50, 85%, 55%)"@
        } else if slot == 3 {
            "hsl(20, 75%, 45%)"@
        } else {
            "hsl(340, 70%, 50%)"@
        }
    } else if p == 1 {
        if slot == 0 {
            "hsl(200, 80%, 40%)"@
        } else if slot == 1 {
            "hsl(220, 90%, 60%)"@
        } else if slot == 2 {
            "hsl(180, 85%, 45%)"@
        } else if slot == 3 {
            "hsl(240, 70%, 50%)"@
        } else {
            "hsl(160, 75%, 40%)"@
        }
    } else if p == 2 {
        if slot == 0 {
            "hsl(120, 60%, 30%)"@
        } else if slot == 1 {
            "hsl(100, 70%, 40%)"@
        } else if slot == 2 {
            "hsl(80, 65%, 45%)"@
        } else if slot == 3 {
            "hsl(140, 55%, 35%)"@
        } else {
            "hsl(60, 60%, 50%)"@
        }
    } else if p == 3 {
        if slot == 0 {
            "hsl(300, 80%, 60%)"@
        } else if slot == 1 {
            "hsl(180, 90%, 50%)"@
        } else if slot == 2 {
            "hsl(60, 85%, 55%)"@
        } else if slot == 3 {
            "hsl(320, 75%, 45%)"@
        } else {
            "hsl(200, 70%, 50%)"@
        }
    } else if p == 4 {
        if slot == 0 {
            "hsl(0, 90%, 50%)"@
        } else if slot == 1 {
            "hsl(20, 95%, 60%)"@
        } else if slot == 2 {
            "hsl(40, 90%, 55%)"@
        } else if slot == 3 {
            "hsl(10, 85%, 45%)"@
        } else {
            "hsl(350, 80%, 40%)"@
        }
    } else if p == 5 {
        if slot == 0 {
            "hsl(30, 70%, 50%)"@
        } else if slot == 1 {
            "hsl(45, 80%, 60%)"@
        } else if slot == 2 {
            "hsl(60, 75%, 55%)"@
        } else if slot == 3 {
            "hsl(20, 65%, 45%)"@
        } else {
            "hsl(40, 70%, 40%)"@
        }
    } else if p == 6 {
        if slot == 0 {
            "hsl(270, 80%, 50%)"@
        } else if slot == 1 {
            "hsl(240, 90%, 60%)"@
        } else if slot == 2 {
            "hsl(300, 85%, 55%)"@
        } else if slot == 3 {
            "hsl(210, 75%, 45%)"@
        } else {
            "hsl(330, 70%, 50%)"@
        }
    } else if p == 7 {
        if slot == 0 {
            "hsl(120, 100%, 50%)"@
        } else if slot == 1 {
            "hsl(300, 100%, 50%)"@
        } else if slot == 2 {
            "hsl(60, 100%, 50%)"@
        } else if slot == 3 {
            "hsl(180, 100%, 50%)"@
        } else {
            "hsl(0, 100%, 50%)"@
        }
    } else if p == 8 {
        if slot == 0 {
            "hsl(300, 40%, 80%)"@
        } else if slot == 1 {
            "hsl(60, 50%, 85%)"@
        } else if slot == 2 {
            "hsl(180, 45%, 80%)"@
        } else if slot == 3 {
            "hsl(120, 40%, 75%)"@
        } else {
            "hsl(30, 50%, 85%)"@
        }
    } else if p == 9 {
        if slot == 0 {
            "hsl(0, 0%, 20%)"@
        } else if slot == 1 {
            "hsl(0, 0%, 60%)"@
        } else if slot == 2 {
            "hsl(0, 0%, 80%)"@
        } else if slot == 3 {
            "hsl(0, 0%, 40%)"@
        } else {
            "hsl(0, 0%, 90%)"@
        }
    } else if p == 10 {
        if slot == 0 {
            "hsl(0, 80%, 50%)"@
        } else if slot == 1 {
            "hsl(60, 80%, 50%)"@
        } else if slot == 2 {
            "hsl(120, 80%, 50%)"@
        } else if slot == 3 {
            "hsl(240, 80%, 50%)"@
        } else {
            "hsl(300, 80%, 50%)"@
        }
    } else {
        if slot == 0 {
            "hsl(30, 60%, 40%)"@
        } else if slot == 1 {
            "hsl(20, 70%, 30%)"@
        } else if slot == 2 {
            "hsl(40, 65%, 50%)"@
        } else if slot == 3 {
            "hsl(10, 55%, 35%)"@
        } else {
            "hsl(50, 60%, 45%)"@
        }
    }
}

/// The color an element cycles to: slot `n % 5` of the index's palette.
pub open spec fn spec_cycle_color(index: u128, n: int) -> Seq<char> {
    spec_palette_color(palette_code(index), n % 5)
}

impl SvgGenerator {
    /// The five colors of the palette the index selects.
    pub fn get_color_palette_colors(index: u128) -> (r: (String, String, String, String, String))
        ensures
            r.0@ == spec_palette_color(palette_code(index), 0),
            r.1@ == spec_palette_color(palette_code(index), 1),
            r.2@ == spec_palette_color(palette_code(index), 2),
            r.3@ == spec_palette_color(palette_code(index), 3),
            r.4@ == spec_palette_color(palette_code(index), 4),
    {
        match (index / 6) % 12 {
            0 => (
                String::from_str("hsl(10, 80%, 60%)"),
                String::from_str("hsl(30, 90%, 50%)"),
                String::from_str("hsl(50, 85%, 55%)"),
                String::from_str("hsl(20, 75%, 45%)"),
                String::from_str("hsl(340, 70%, 50%)"),
            ),
            1 => (
                String::from_str("hsl(200, 80%, 40%)"),
                String::from_str("hsl(220, 90%, 60%)"),
                String::from_str("hsl(180, 85%, 45%)"),
                String::from_str("hsl(240, 70%, 50%)"),
                String::from_str("hsl(160, 75%, 40%)"),
            ),
            2 => (
                String::from_str("hsl(120, 60%, 30%)"),
                String::from_str("hsl(100, 70%, 40%)"),
                String::from_str("hsl(80, 65%, 45%)"),
                String::from_str("hsl(140, 55%, 35%)"),
                String::from_str("hsl(60, 60%, 50%)"),
            ),
            3 => (
                String::from_str("hsl(300, 80%, 60%)"),
                String::from_str("hsl(180, 90%, 50%)"),
                String::from_str("hsl(60, 85%, 55%)"),
                String::from_str("hsl(320, 75%, 45%)"),
                String::from_str("hsl(200, 70%, 50%)"),
            ),
            4 => (
                String::from_str("hsl(0, 90%, 50%)"),
                String::from_str("hsl(20, 95%, 60%)"),
                String::from_str("hsl(40, 90%, 55%)"),
                String::from_str("hsl(10, 85%, 45%)"),
                String::from_str("hsl(350, 80%, 40%)"),
            ),
            5 => (
                String::from_str("hsl(30, 70%, 50%)"),
                String::from_str("hsl(45, 80%, 60%)"),
                String::from_str("hsl(60, 75%, 55%)"),
                String::from_str("hsl(20, 65%, 45%)"),
                String::from_str("hsl(40, 70%, 40%)"),
            ),
            6 => (
                String::from_str("hsl(270, 80%, 50%)"),
                String::from_str("hsl(240, 90%, 60%)"),
                String::from_str("hsl(300, 85%, 55%)"),
                String::from_str("hsl(210, 75%, 45%)"),
                String::from_str("hsl(330, 70%, 50%)"),
            ),
            7 => (
                String::from_str("hsl(120, 100%, 50%)"),
                String::from_str("hsl(300, 100%, 50%)"),
                String::from_str("hsl(60, 100%, 50%)"),
                String::from_str("hsl(180, 100%, 50%)"),
                String::from_str("hsl(0, 100%, 50%)"),
            ),
            8 => (
                String::from_str("hsl(300, 40%, 80%)"),
                String::from_str("hsl(60, 50%, 85%)"),
                String::from_str("hsl(180, 45%, 80%)"),
                String::from_str("hsl(120, 40%, 75%)"),
                String::from_str("hsl(30, 50%, 85%)"),
            ),
            9 => (
                String::from_str("hsl(0, 0%, 20%)"),
                String::from_str("hsl(0, 0%, 60%)"),
                String::from_str("hsl(0, 0%, 80%)"),
                String::from_str("hsl(0, 0%, 40%)"),
                String::from_str("hsl(0, 0%, 90%)"),
            ),
            10 => (
                String::from_str("hsl(0, 80%, 50%)"),
                String::from_str("hsl(60, 80%, 50%)"),
                String::from_str("hsl(120, 80%, 50%)"),
                String::from_str("hsl(240, 80%, 50%)"),
                String::from_str("hsl(300, 80%, 50%)"),
            ),
            _ => (
                String::from_str("hsl(30, 60%, 40%)"),
                String::from_str("hsl(20, 70%, 30%)"),
                String::from_str("hsl(40, 65%, 50%)"),
                String::from_str("hsl(10, 55%, 35%)"),
                String::from_str("hsl(50, 60%, 45%)"),
            ),
        }
    }

    /// The color element `n` of the index's pattern cycles to.
    pub fn cycle_color(index: u128, n: u64) -> (r: String)
        ensures
            r@ == spec_cycle_color(index, n as int),
    {
        let colors = Self::get_color_palette_colors(index);
        match n % 5 {
            0 => colors.0,
            1 => colors.1,
            2 => colors.2,
            3 => colors.3,
            _ => colors.4,
        }
    }
}

} // verus!
