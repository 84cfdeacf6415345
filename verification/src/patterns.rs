//! The six pattern families. Each is a deterministic function of the index:
//! positions come from the arithmetic mix of a per-family prime seed, angles
//! from the integer trigonometry in [`crate::trig`], and colors cycle through
//! the index's palette. Iteration bounds are fixed, never index-dependent.

use vstd::prelude::*;
use vstd::arithmetic::div_mod::lemma_multiply_divide_lt;
use vstd::arithmetic::div_mod::lemma_div_pos_is_pos;
use vstd::arithmetic::mul::lemma_mul_upper_bound;
use crate::digits::dec_digits;
use crate::digits::fmt_u64;
use crate::palette::spec_cycle_color;
use crate::svg::SvgGenerator;
use crate::svg::MAX_SUPPLY;
use crate::svg::spec_mix;
use crate::svg::mix;
use crate::svg::spec_radial;
use crate::svg::radial;
use crate::svg::spec_circle_tag;
use crate::svg::circle_tag;
use crate::trig::spec_sin_milli;
use crate::trig::spec_cos_milli;
use crate::trig::sin_milli;
use crate::trig::cos_milli;

verus! {

/// One rotated square of the fractal pattern.
pub open spec fn spec_rect_tag(
    x: nat,
    y: nat,
    w: nat,
    h: nat,
    fill: Seq<char>,
    rot: nat,
    cx: nat,
    cy: nat,
) -> Seq<char> {
    "<rect x=\""@ + dec_digits(x) + "\" y=\""@ + dec_digits(y) + "\" width=\""@ + dec_digits(w)
        + "\" height=\""@ + dec_digits(h) + "\" fill=\""@ + fill
        + "\" opacity=\"0.7\" transform=\"rotate("@ + dec_digits(rot) + " "@ + dec_digits(cx)
        + " "@ + dec_digits(cy) + ")\"/>"@
}

fn rect_tag(x: u64, y: u64, w: u64, h: u64, fill: &str, rot: u64, cx: u64, cy: u64) -> (s: String)
    ensures
        s@ == spec_rect_tag(x as nat, y as nat, w as nat, h as nat, fill@, rot as nat, cx as nat, cy as nat),
{
    let mut s = String::from_str("<rect x=\"");
    let n1 = fmt_u64(x);
    s.append(n1.as_str());
    s.append("\" y=\"");
    let n2 = fmt_u64(y);
    s.append(n2.as_str());
    s.append("\" width=\"");
    let n3 = fmt_u64(w);
    s.append(n3.as_str());
    s.append("\" height=\"");
    let n4 = fmt_u64(h);
    s.append(n4.as_str());
    s.append("\" fill=\"");
    s.append(fill);
    s.append("\" opacity=\"0.7\" transform=\"rotate(");
    let n5 = fmt_u64(rot);
    s.append(n5.as_str());
    s.append(" ");
    let n6 = fmt_u64(cx);
    s.append(n6.as_str());
    s.append(" ");
    let n7 = fmt_u64(cy);
    s.append(n7.as_str());
    s.append(")\"/>");
    s
}

/// How many squares recursion depth `d` draws: `4^d`, capped at 20.
pub open spec fn fr_count(d: int) -> int {
    if d == 0 {
        1
    } else if d == 1 {
        4
    } else if d == 2 {
        16
    } else {
        20
    }
}

/// The square's side at depth `d`: 200 halved `d` times.
pub open spec fn fr_size(d: int) -> int {
    if d == 0 {
        200
    } else if d == 1 {
        100
    } else if d == 2 {
        50
    } else if d == 3 {
        25
    } else if d == 4 {
        12
    } else {
        6
    }
}

/// The orbit radius at depth `d`.
pub open spec fn fr_radius(d: int) -> int {
    50 + 20 * d
}

/// The angle (in whole degrees) square `i` of depth `d` sits at.
pub open spec fn fr_angle(index: u128, d: int, i: int) -> int {
    spec_mix(index * 1931 * (d + 1), i + 1, 41, 360)
}

/// The center of square `i` of depth `d`.
pub open spec fn fr_cx(index: u128, d: int, i: int) -> int {
    spec_radial(200, spec_cos_milli(fr_angle(index, d, i)), fr_radius(d))
}

pub open spec fn fr_cy(index: u128, d: int, i: int) -> int {
    spec_radial(200, spec_sin_milli(fr_angle(index, d, i)), fr_radius(d))
}

/// One square of the fractal pattern.
pub open spec fn fr_elem(index: u128, d: int, i: int) -> Seq<char> {
    spec_rect_tag(
        (fr_cx(index, d, i) - fr_size(d) / 2) as nat,
        (fr_cy(index, d, i) - fr_size(d) / 2) as nat,
        fr_size(d) as nat,
        fr_size(d) as nat,
        spec_cycle_color(index, d),
        spec_mix(index * 1931, i + 1, 73, 360) as nat,
        fr_cx(index, d, i) as nat,
        fr_cy(index, d, i) as nat,
    )
}

/// The first `n` squares of depth `d`.
pub open spec fn fr_row(index: u128, d: int, n: int) -> Seq<char>
    decreases n,
{
    if n <= 0 {
        Seq::empty()
    } else {
        fr_row(index, d, n - 1) + fr_elem(index, d, n - 1)
    }
}

/// All squares of the first `d` depths.
pub open spec fn fr_rows(index: u128, d: int) -> Seq<char>
    decreases d,
{
    if d <= 0 {
        Seq::empty()
    } else {
        fr_rows(index, d - 1) + fr_row(index, d - 1, fr_count(d - 1))
    }
}

/// The whole fractal pattern: six depths of orbiting squares.
pub open spec fn spec_fractal(index: u128) -> Seq<char> {
    fr_rows(index, 6)
}

/// One circle of the packing pattern.
pub open spec fn cp_elem(index: u128, i: int) -> Seq<char> {
    spec_circle_tag(
        (spec_mix(index * 2099, i + 1, 89, 360) + 20) as nat,
        (spec_mix(index * 2099, i + 1, 103, 360) + 20) as nat,
        (spec_mix(index * 2099, i + 1, 67, 40) + 5) as nat,
        spec_cycle_color(index, i),
        "\" opacity=\"0.6\" stroke=\"white\" stroke-width=\"1\"/>"@,
    )
}

/// The first `n` packed circles.
pub open spec fn cp_elems(index: u128, n: int) -> Seq<char>
    decreases n,
{
    if n <= 0 {
        Seq::empty()
    } else {
        cp_elems(index, n - 1) + cp_elem(index, n - 1)
    }
}

/// The whole circle-packing pattern: fifty circles.
pub open spec fn spec_circle_packing(index: u128) -> Seq<char> {
    cp_elems(index, 50)
}

/// The angle of point `j` among `points` equally spaced points, in whole
/// degrees.
pub open spec fn ring_angle(points: int, j: int) -> int {
    (j * 360) / points
}

/// Equally spaced points keep their angle under a full turn.
pub proof fn lemma_ring_angle_bounds(points: int, j: int)
    requires
        0 < points,
        0 <= j < points,
    ensures
        0 <= ring_angle(points, j) < 360,
{
    lemma_div_pos_is_pos(j * 360, points);
    lemma_multiply_divide_lt(j * 360, points, 360);
}

/// The bead size of mandala ring `ring`: 15 shrinking by one and a half per
/// ring, kept whole by halving twice the value.
pub open spec fn md_size(ring: int) -> int {
    (30 - 3 * ring) / 2
}

/// One bead of the mandala.
pub open spec fn md_elem(index: u128, ring: int, j: int) -> Seq<char> {
    spec_circle_tag(
        spec_radial(200, spec_cos_milli(ring_angle(ring * 8, j)), ring * 25) as nat,
        spec_radial(200, spec_sin_milli(ring_angle(ring * 8, j)), ring * 25) as nat,
        md_size(ring) as nat,
        spec_cycle_color(index, ring + j),
        "\" opacity=\"0.8\"/>"@,
    )
}

/// The first `n` beads of ring `ring`.
pub open spec fn md_ring(index: u128, ring: int, n: int) -> Seq<char>
    decreases n,
{
    if n <= 0 {
        Seq::empty()
    } else {
        md_ring(index, ring, n - 1) + md_elem(index, ring, n - 1)
    }
}

/// All beads of the rings before `ring` (rings start at 1).
pub open spec fn md_rings(index: u128, ring: int) -> Seq<char>
    decreases ring,
{
    if ring <= 1 {
        Seq::empty()
    } else {
        md_rings(index, ring - 1) + md_ring(index, ring - 1, (ring - 1) * 8)
    }
}

/// The whole mandala: seven concentric rings of beads.
pub open spec fn spec_mandala(index: u128) -> Seq<char> {
    md_rings(index, 8)
}

/// Wave `w`'s phase, from the index's seed.
pub open spec fn wv_phase(index: u128, w: int) -> int {
    spec_mix(index * 2131, w + 1, 1, 360)
}

/// The angle sampled at horizontal position `5 k` of wave `w`.
pub open spec fn wv_angle(index: u128, w: int, k: int) -> int {
    ((5 * k * (23 + 11 * w)) / 20 + wv_phase(index, w)) % 360
}

/// The height of wave `w` at sample `k`: mid-canvas, displaced by up to 50.
pub open spec fn wv_y(index: u128, w: int, k: int) -> int {
    spec_radial(200, spec_sin_milli(wv_angle(index, w, k)), 50)
}

/// One sample of a wave's path: a move for the first, a line for the rest.
pub open spec fn wv_pt(index: u128, w: int, k: int) -> Seq<char> {
    if k == 0 {
        "M 0 "@ + dec_digits(wv_y(index, w, 0) as nat)
    } else {
        " L "@ + dec_digits((5 * k) as nat) + " "@ + dec_digits(wv_y(index, w, k) as nat)
    }
}

/// The first `n` samples of wave `w`'s path.
pub open spec fn wv_path(index: u128, w: int, n: int) -> Seq<char>
    decreases n,
{
    if n <= 0 {
        Seq::empty()
    } else {
        wv_path(index, w, n - 1) + wv_pt(index, w, n - 1)
    }
}

/// One wave: 80 samples five units apart.
pub open spec fn wv_elem(index: u128, w: int) -> Seq<char> {
    "<path d=\""@ + wv_path(index, w, 80) + "\" stroke=\""@ + spec_cycle_color(index, w)
        + "\" stroke-width=\"3\" fill=\"none\" opacity=\"0.7\"/>"@
}

/// The first `n` waves.
pub open spec fn wv_elems(index: u128, n: int) -> Seq<char>
    decreases n,
{
    if n <= 0 {
        Seq::empty()
    } else {
        wv_elems(index, n - 1) + wv_elem(index, n - 1)
    }
}

/// The whole interference pattern: five overlaid waves.
pub open spec fn spec_wave(index: u128) -> Seq<char> {
    wv_elems(index, 5)
}

/// A coordinate nudged by a scaled trig value (eight units at full swing)
/// and clamped to the canvas.
pub open spec fn clamp_step(x: int, s: int) -> int {
    if s >= 0 {
        if x + (s * 8) / 1000 > 400 {
            400
        } else {
            x + (s * 8) / 1000
        }
    } else {
        if x < ((-s) * 8) / 1000 {
            0
        } else {
            x - ((-s) * 8) / 1000
        }
    }
}

/// The reduced seed that phases the flow field.
pub open spec fn fl_sr(index: u128) -> int {
    (index * 2017) % 360
}

/// The horizontal position of curve `i` after `k` steps.
pub open spec fn fl_x(index: u128, i: int, k: int) -> int
    decreases k,
{
    if k <= 0 {
        spec_mix(index * 2017, i + 1, 83, 400)
    } else {
        clamp_step(
            fl_x(index, i, k - 1),
            spec_sin_milli((fl_x(index, i, k - 1) * 2 + fl_sr(index)) % 360),
        )
    }
}

/// The vertical position of curve `i` after `k` steps.
pub open spec fn fl_y(index: u128, i: int, k: int) -> int
    decreases k,
{
    if k <= 0 {
        spec_mix(index * 2017, i + 1, 97, 400)
    } else {
        clamp_step(
            fl_y(index, i, k - 1),
            spec_cos_milli((fl_y(index, i, k - 1) * 2 + fl_sr(index)) % 360),
        )
    }
}

/// The first `n` steps of curve `i`'s path, after its starting move.
pub open spec fn fl_path(index: u128, i: int, n: int) -> Seq<char>
    decreases n,
{
    if n <= 0 {
        "M "@ + dec_digits(fl_x(index, i, 0) as nat) + " "@ + dec_digits(fl_y(index, i, 0) as nat)
    } else {
        fl_path(index, i, n - 1) + " L "@ + dec_digits(fl_x(index, i, n) as nat) + " "@
            + dec_digits(fl_y(index, i, n) as nat)
    }
}

/// One flowing curve: twenty steps through the field.
pub open spec fn fl_elem(index: u128, i: int) -> Seq<char> {
    "<path d=\""@ + fl_path(index, i, 20) + "\" stroke=\""@ + spec_cycle_color(index, i)
        + "\" stroke-width=\"2\" fill=\"none\" opacity=\"0.8\"/>"@
}

/// The first `n` curves.
pub open spec fn fl_elems(index: u128, n: int) -> Seq<char>
    decreases n,
{
    if n <= 0 {
        Seq::empty()
    } else {
        fl_elems(index, n - 1) + fl_elem(index, n - 1)
    }
}

/// The whole flow field: thirty curves.
pub open spec fn spec_flow_field(index: u128) -> Seq<char> {
    fl_elems(index, 30)
}

/// The center of crystal `c`.
pub open spec fn cr_cx(index: u128, c: int) -> int {
    spec_mix(index * 2141, c + 1, 79, 300) + 50
}

pub open spec fn cr_cy(index: u128, c: int) -> int {
    spec_mix(index * 2141, c + 1, 83, 300) + 50
}

/// Crystal `c` has three to six sides.
pub open spec fn cr_sides(c: int) -> int {
    3 + c % 4
}

/// Crystal `c`'s circumscribed radius.
pub open spec fn cr_radius(index: u128, c: int) -> int {
    20 + spec_mix(index * 2141, c + 1, 71, 30)
}

/// One vertex of crystal `c`'s outline, comma-joined, space-separated.
pub open spec fn cr_pt(index: u128, c: int, j: int) -> Seq<char> {
    let px = spec_radial(
        cr_cx(index, c),
        spec_cos_milli(ring_angle(cr_sides(c), j)),
        cr_radius(index, c),
    );
    let py = spec_radial(
        cr_cy(index, c),
        spec_sin_milli(ring_angle(cr_sides(c), j)),
        cr_radius(index, c),
    );
    if j == 0 {
        dec_digits(px as nat) + ","@ + dec_digits(py as nat)
    } else {
        " "@ + dec_digits(px as nat) + ","@ + dec_digits(py as nat)
    }
}

/// The first `n` vertices of crystal `c`.
pub open spec fn cr_pts(index: u128, c: int, n: int) -> Seq<char>
    decreases n,
{
    if n <= 0 {
        Seq::empty()
    } else {
        cr_pts(index, c, n - 1) + cr_pt(index, c, n - 1)
    }
}

/// One crystal: an outlined polygon.
pub open spec fn cr_elem(index: u128, c: int) -> Seq<char> {
    "<polygon points=\""@ + cr_pts(index, c, cr_sides(c)) + "\" fill=\""@ + spec_cycle_color(
        index,
        c,
    ) + "\" opacity=\"0.6\" stroke=\"white\" stroke-width=\"1\"/>"@
}

/// The first `n` crystals.
pub open spec fn cr_elems(index: u128, n: int) -> Seq<char>
    decreases n,
{
    if n <= 0 {
        Seq::empty()
    } else {
        cr_elems(index, n - 1) + cr_elem(index, n - 1)
    }
}

/// The whole crystalline pattern: twelve polygons.
pub open spec fn spec_crystal(index: u128) -> Seq<char> {
    cr_elems(index, 12)
}

impl SvgGenerator {
    fn fractal_count(d: u64) -> (r: u64)
        ensures
            r == fr_count(d as int),
            1 <= r <= 20,
    {
        if d == 0 {
            1
        } else if d == 1 {
            4
        } else if d == 2 {
            16
        } else {
            20
        }
    }

    fn fractal_size(d: u64) -> (r: u64)
        ensures
            r == fr_size(d as int),
            6 <= r <= 200,
    {
        if d == 0 {
            200
        } else if d == 1 {
            100
        } else if d == 2 {
            50
        } else if d == 3 {
            25
        } else if d == 4 {
            12
        } else {
            6
        }
    }

    /// The geometric-fractal pattern: recursive depths of squares orbiting
    /// the canvas center.
    #[verifier::rlimit(60)]
    pub fn generate_fractal_pattern(index: u128) -> (s: String)
        requires
            index < MAX_SUPPLY,
        ensures
            s@ == spec_fractal(index),
    {
        let seed: u128 = index * 1931;
        let mut s = String::new();
        let mut d: u64 = 0;
        proof {
            assert(s@ =~= fr_rows(index, 0));
        }
        while d < 6
            invariant
                index < MAX_SUPPLY,
                seed == index * 1931,
                d <= 6,
                s@ == fr_rows(index, d as int),
            decreases 6 - d,
        {
            let count = Self::fractal_count(d);
            let size = Self::fractal_size(d);
            let orbit: u64 = 50 + 20 * d;
            let mut i: u64 = 0;
            while i < count
                invariant
                    index < MAX_SUPPLY,
                    seed == index * 1931,
                    d < 6,
                    count == fr_count(d as int),
                    size == fr_size(d as int),
                    orbit == fr_radius(d as int),
                    i <= count,
                    s@ == fr_rows(index, d as int) + fr_row(index, d as int, i as int),
                decreases count - i,
            {
                proof {
                    lemma_mul_upper_bound(seed as int, 6_434_092, d as int + 1, 6);
                }
                let angle = mix(seed * ((d + 1) as u128), (i + 1) as u128, 41, 360);
                let cx = radial(200, cos_milli(angle), orbit);
                let cy = radial(200, sin_milli(angle), orbit);
                let rot = mix(seed, (i + 1) as u128, 73, 360);
                let color = Self::cycle_color(index, d);
                let tag = rect_tag(cx - size / 2, cy - size / 2, size, size, color.as_str(), rot, cx, cy);
                s.append(tag.as_str());
                i = i + 1;
            }
            d = d + 1;
        }
        s
    }

    /// The mandala: seven concentric rings of beads, shrinking outward.
    #[verifier::rlimit(60)]
    pub fn generate_mandala(index: u128) -> (s: String)
        requires
            index < MAX_SUPPLY,
        ensures
            s@ == spec_mandala(index),
    {
        let mut s = String::new();
        let mut ring: u64 = 1;
        proof {
            assert(s@ =~= md_rings(index, 1));
        }
        while ring < 8
            invariant
                index < MAX_SUPPLY,
                1 <= ring <= 8,
                s@ == md_rings(index, ring as int),
            decreases 8 - ring,
        {
            let points: u64 = ring * 8;
            let radius: u64 = ring * 25;
            let size: u64 = (30 - 3 * ring) / 2;
            let mut j: u64 = 0;
            while j < points
                invariant
                    index < MAX_SUPPLY,
                    1 <= ring < 8,
                    points == ring * 8,
                    radius == ring * 25,
                    size == md_size(ring as int),
                    j <= points,
                    s@ == md_rings(index, ring as int) + md_ring(index, ring as int, j as int),
                decreases points - j,
            {
                proof {
                    lemma_ring_angle_bounds(points as int, j as int);
                }
                let angle = (j * 360) / points;
                let cx = radial(200, cos_milli(angle), radius);
                let cy = radial(200, sin_milli(angle), radius);
                let color = Self::cycle_color(index, ring + j);
                let tag = circle_tag(cx, cy, size, color.as_str(), "\" opacity=\"0.8\"/>");
                s.append(tag.as_str());
                j = j + 1;
            }
            ring = ring + 1;
        }
        s
    }

    /// The wave-interference pattern: five sine paths across the canvas.
    #[verifier::rlimit(60)]
    pub fn generate_wave_pattern(index: u128) -> (s: String)
        requires
            index < MAX_SUPPLY,
        ensures
            s@ == spec_wave(index),
    {
        let seed: u128 = index * 2131;
        let mut s = String::new();
        let mut w: u64 = 0;
        proof {
            assert(s@ =~= wv_elems(index, 0));
        }
        while w < 5
            invariant
                index < MAX_SUPPLY,
                seed == index * 2131,
                w <= 5,
                s@ == wv_elems(index, w as int),
            decreases 5 - w,
        {
            let phase = mix(seed, (w + 1) as u128, 1, 360);
            let mut path = String::new();
            let mut k: u64 = 0;
            proof {
                assert(path@ =~= wv_path(index, w as int, 0));
            }
            while k < 80
                invariant
                    index < MAX_SUPPLY,
                    seed == index * 2131,
                    w < 5,
                    phase == wv_phase(index, w as int),
                    phase < 360,
                    k <= 80,
                    path@ == wv_path(index, w as int, k as int),
                decreases 80 - k,
            {
                proof {
                    lemma_mul_upper_bound(5 * (k as int), 395, 23 + 11 * (w as int), 67);
                }
                let angle = ((5 * k * (23 + 11 * w)) / 20 + phase) % 360;
                let y = radial(200, sin_milli(angle), 50);
                if k == 0 {
                    path.append("M 0 ");
                    let n = fmt_u64(y);
                    path.append(n.as_str());
                } else {
                    path.append(" L ");
                    let n = fmt_u64(5 * k);
                    path.append(n.as_str());
                    path.append(" ");
                    let n2 = fmt_u64(y);
                    path.append(n2.as_str());
                }
                proof {
                    assert(path@ =~= wv_path(index, w as int, k as int + 1));
                }
                k = k + 1;
            }
            let mut tag = String::from_str("<path d=\"");
            tag.append(path.as_str());
            tag.append("\" stroke=\"");
            let color = Self::cycle_color(index, w);
            tag.append(color.as_str());
            tag.append("\" stroke-width=\"3\" fill=\"none\" opacity=\"0.7\"/>");
            s.append(tag.as_str());
            proof {
                assert(s@ =~= wv_elems(index, w as int + 1));
            }
            w = w + 1;
        }
        s
    }

    /// The flow field: thirty curves stepped through a trigonometric field,
    /// clamped to the canvas.
    #[verifier::rlimit(60)]
    pub fn generate_flow_field(index: u128) -> (s: String)
        requires
            index < MAX_SUPPLY,
        ensures
            s@ == spec_flow_field(index),
    {
        let seed: u128 = index * 2017;
        let sr: u64 = (seed % 360) as u64;
        let mut s = String::new();
        let mut i: u64 = 0;
        proof {
            assert(s@ =~= fl_elems(index, 0));
        }
        while i < 30
            invariant
                index < MAX_SUPPLY,
                seed == index * 2017,
                sr == fl_sr(index),
                i <= 30,
                s@ == fl_elems(index, i as int),
            decreases 30 - i,
        {
            let mut x: u64 = mix(seed, (i + 1) as u128, 83, 400);
            let mut y: u64 = mix(seed, (i + 1) as u128, 97, 400);
            let mut path = String::from_str("M ");
            let n0 = fmt_u64(x);
            path.append(n0.as_str());
            path.append(" ");
            let n1 = fmt_u64(y);
            path.append(n1.as_str());
            let mut k: u64 = 0;
            proof {
                assert(path@ =~= fl_path(index, i as int, 0));
            }
            while k < 20
                invariant
                    index < MAX_SUPPLY,
                    seed == index * 2017,
                    sr == fl_sr(index),
                    i < 30,
                    k <= 20,
                    x == fl_x(index, i as int, k as int),
                    x <= 400,
                    y == fl_y(index, i as int, k as int),
                    y <= 400,
                    path@ == fl_path(index, i as int, k as int),
                decreases 20 - k,
            {
                let ax = (x * 2 + sr) % 360;
                let sx = sin_milli(ax);
                if sx >= 0 {
                    let step = ((sx as u64) * 8) / 1000;
                    x = if x + step > 400 {
                        400
                    } else {
                        x + step
                    };
                } else {
                    let step = (((-sx) as u64) * 8) / 1000;
                    x = if x < step {
                        0
                    } else {
                        x - step
                    };
                }
                let ay = (y * 2 + sr) % 360;
                let cs = cos_milli(ay);
                if cs >= 0 {
                    let step = ((cs as u64) * 8) / 1000;
                    y = if y + step > 400 {
                        400
                    } else {
                        y + step
                    };
                } else {
                    let step = (((-cs) as u64) * 8) / 1000;
                    y = if y < step {
                        0
                    } else {
                        y - step
                    };
                }
                path.append(" L ");
                let nx = fmt_u64(x);
                path.append(nx.as_str());
                path.append(" ");
                let ny = fmt_u64(y);
                path.append(ny.as_str());
                proof {
                    assert(path@ =~= fl_path(index, i as int, k as int + 1));
                }
                k = k + 1;
            }
            let mut tag = String::from_str("<path d=\"");
            tag.append(path.as_str());
            tag.append("\" stroke=\"");
            let color = Self::cycle_color(index, i);
            tag.append(color.as_str());
            tag.append("\" stroke-width=\"2\" fill=\"none\" opacity=\"0.8\"/>");
            s.append(tag.as_str());
            proof {
                assert(s@ =~= fl_elems(index, i as int + 1));
            }
            i = i + 1;
        }
        s
    }

    /// The crystalline pattern: twelve polygons of three to six sides.
    #[verifier::rlimit(60)]
    pub fn generate_crystal_pattern(index: u128) -> (s: String)
        requires
            index < MAX_SUPPLY,
        ensures
            s@ == spec_crystal(index),
    {
        let seed: u128 = index * 2141;
        let mut s = String::new();
        let mut c: u64 = 0;
        proof {
            assert(s@ =~= cr_elems(index, 0));
        }
        while c < 12
            invariant
                index < MAX_SUPPLY,
                seed == index * 2141,
                c <= 12,
                s@ == cr_elems(index, c as int),
            decreases 12 - c,
        {
            let cx = mix(seed, (c + 1) as u128, 79, 300) + 50;
            let cy = mix(seed, (c + 1) as u128, 83, 300) + 50;
            let sides: u64 = 3 + c % 4;
            let radius = 20 + mix(seed, (c + 1) as u128, 71, 30);
            let mut pts = String::new();
            let mut j: u64 = 0;
            proof {
                assert(pts@ =~= cr_pts(index, c as int, 0));
            }
            while j < sides
                invariant
                    index < MAX_SUPPLY,
                    seed == index * 2141,
                    c < 12,
                    cx == cr_cx(index, c as int),
                    cy == cr_cy(index, c as int),
                    sides == cr_sides(c as int),
                    radius == cr_radius(index, c as int),
                    50 <= cx <= 349,
                    50 <= cy <= 349,
                    20 <= radius <= 49,
                    3 <= sides <= 6,
                    j <= sides,
                    pts@ == cr_pts(index, c as int, j as int),
                decreases sides - j,
            {
                proof {
                    lemma_ring_angle_bounds(sides as int, j as int);
                }
                let angle = (j * 360) / sides;
                let px = radial(cx, cos_milli(angle), radius);
                let py = radial(cy, sin_milli(angle), radius);
                if j > 0 {
                    pts.append(" ");
                }
                let nx = fmt_u64(px);
                pts.append(nx.as_str());
                pts.append(",");
                let ny = fmt_u64(py);
                pts.append(ny.as_str());
                proof {
                    assert(pts@ =~= cr_pts(index, c as int, j as int + 1));
                }
                j = j + 1;
            }
            let mut tag = String::from_str("<polygon points=\"");
            tag.append(pts.as_str());
            tag.append("\" fill=\"");
            let color = Self::cycle_color(index, c);
            tag.append(color.as_str());
            tag.append("\" opacity=\"0.6\" stroke=\"white\" stroke-width=\"1\"/>");
            s.append(tag.as_str());
            proof {
                assert(s@ =~= cr_elems(index, c as int + 1));
            }
            c = c + 1;
        }
        s
    }

    /// The circle-packing pattern: fifty scattered, outlined circles.
    pub fn generate_circle_packing(index: u128) -> (s: String)
        requires
            index < MAX_SUPPLY,
        ensures
            s@ == spec_circle_packing(index),
    {
        let seed: u128 = index * 2099;
        let mut s = String::new();
        let mut i: u64 = 0;
        proof {
            assert(s@ =~= cp_elems(index, 0));
        }
        while i < 50
            invariant
                index < MAX_SUPPLY,
                seed == index * 2099,
                i <= 50,
                s@ == cp_elems(index, i as int),
            decreases 50 - i,
        {
            let x = mix(seed, (i + 1) as u128, 89, 360) + 20;
            let y = mix(seed, (i + 1) as u128, 103, 360) + 20;
            let r = mix(seed, (i + 1) as u128, 67, 40) + 5;
            let color = Self::cycle_color(index, i);
            let tag = circle_tag(
                x,
                y,
                r,
                color.as_str(),
                "\" opacity=\"0.6\" stroke=\"white\" stroke-width=\"1\"/>",
            );
            s.append(tag.as_str());
            i = i + 1;
        }
        s
    }
}

} // verus!
