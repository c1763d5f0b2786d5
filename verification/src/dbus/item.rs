//! Helpers for talking to a `StatusNotifierItem`: how a scroll request maps
//! onto the item's `Scroll(delta, orientation)` call, and which of the
//! item's `IconPixmap` frames best fits a requested size.

use vstd::prelude::*;

use crate::model::{Pixmap, PixmapFormat, ScrollDirection};

verus! {

/// The SNI orientation of a scroll direction.
pub open spec fn orientation_text(d: ScrollDirection) -> Seq<char> {
    match d {
        ScrollDirection::Up | ScrollDirection::Down => "vertical"@,
        ScrollDirection::Left | ScrollDirection::Right => "horizontal"@,
    }
}

/// The signed SNI delta of a scroll: up and left scroll by the negated
/// amount (saturating at `i32::MAX`), down and right by the amount itself.
pub open spec fn signed_delta(d: ScrollDirection, delta: i32) -> i32 {
    match d {
        ScrollDirection::Up | ScrollDirection::Left => if delta == i32::MIN {
            i32::MAX
        } else {
            (-delta) as i32
        },
        ScrollDirection::Down | ScrollDirection::Right => delta,
    }
}

/// The `orientation` argument of `Scroll` for a direction.
pub fn scroll_orientation(direction: ScrollDirection) -> (r: &'static str)
    ensures
        r@ == orientation_text(direction),
{
    match direction {
        ScrollDirection::Up | ScrollDirection::Down => "vertical",
        ScrollDirection::Left | ScrollDirection::Right => "horizontal",
    }
}

/// The `delta` argument of `Scroll` for a direction and amount.
pub fn scroll_delta(direction: ScrollDirection, delta: i32) -> (r: i32)
    ensures
        r == signed_delta(direction, delta),
{
    match direction {
        ScrollDirection::Up | ScrollDirection::Left => {
            if delta == i32::MIN {
                i32::MAX
            } else {
                -delta
            }
        },
        ScrollDirection::Down | ScrollDirection::Right => delta,
    }
}

/// One `IconPixmap` frame: width, height and ARGB32 bytes.
pub type IconFrame = (i32, i32, Vec<u8>);

/// A frame with a positive width and height.
pub open spec fn usable(f: IconFrame) -> bool {
    f.0 > 0 && f.1 > 0
}

/// How far a frame's width is from the requested size.
pub open spec fn size_distance(f: IconFrame, size: u32) -> int {
    let d = f.0 as int - size as int;
    if d < 0 {
        -d
    } else {
        d
    }
}

/// Whether frame `k` is the best fit: usable, no usable frame is closer to
/// the requested size, and no earlier usable frame is as close.
pub open spec fn is_best_frame(frames: Seq<IconFrame>, size: u32, k: int) -> bool {
    &&& 0 <= k < frames.len()
    &&& usable(frames[k])
    &&& forall|j: int| 0 <= j < frames.len() && usable(#[trigger] frames[j]) ==> size_distance(frames[k], size) <= size_distance(frames[j], size)
    &&& forall|j: int| 0 <= j < k && usable(#[trigger] frames[j]) ==> size_distance(frames[k], size) < size_distance(frames[j], size)
}

fn distance(width: i32, size: u32) -> (r: u64)
    ensures
        r as int == {
            let d = width as int - size as int;
            if d < 0 { -d } else { d }
        },
{
    let w = width as i64;
    let s = size as i64;
    if w >= s {
        (w - s) as u64
    } else {
        (s - w) as u64
    }
}

/// The frame that best fits `size` pixels, as a pixmap: among the frames
/// with positive dimensions, the first whose width is closest to `size`.
/// `None` when no frame has positive dimensions.
pub fn pick_pixmap(frames: Vec<IconFrame>, size: u32) -> (r: Option<Pixmap>)
    ensures
        match r {
            Some(p) => exists|k: int| #[trigger] is_best_frame(frames@, size, k) && p.format == PixmapFormat::Argb32
                && p.width == frames@[k].0 as u32 && p.height == frames@[k].1 as u32 && p.data@ == frames@[k].2@,
            None => forall|j: int| 0 <= j < frames@.len() ==> !usable(#[trigger] frames@[j]),
        },
{
    let mut frames = frames;
    let ghost orig = frames@;
    let mut best: Option<usize> = None;
    let mut best_dist: u64 = 0;
    let mut i: usize = 0;
    while i < frames.len()
        invariant
            frames@ == orig,
            i <= orig.len(),
            match best {
                Some(k) => k < i && usable(orig[k as int]) && best_dist as int == size_distance(orig[k as int], size)
                    && (forall|j: int| 0 <= j < i && usable(#[trigger] orig[j]) ==> (best_dist as int) <= size_distance(orig[j], size))
                    && (forall|j: int| 0 <= j < k && usable(#[trigger] orig[j]) ==> (best_dist as int) < size_distance(orig[j], size)),
                None => forall|j: int| 0 <= j < i ==> !usable(#[trigger] orig[j]),
            },
        decreases orig.len() - i,
    {
        let w = frames[i].0;
        let h = frames[i].1;
        if w > 0 && h > 0 {
            let d = distance(w, size);
            let better = match best {
                Some(_) => d < best_dist,
                None => true,
            };
            if better {
                best = Some(i);
                best_dist = d;
            }
        }
        i = i + 1;
    }
    match best {
        Some(k) => {
            let frame = frames.remove(k);
            assert(frame == orig[k as int]);
            assert(is_best_frame(orig, size, k as int));
            Some(Pixmap { format: PixmapFormat::Argb32, width: frame.0 as u32, height: frame.1 as u32, data: frame.2 })
        },
        None => None,
    }
}

/// The frame chosen as best fit is usable and its width is at least as
/// close to the requested size, in absolute difference, as the width of
/// every usable frame: a usable frame of exactly the requested width is
/// never passed over for one of another width, and among frames equally
/// close the first is chosen.
pub proof fn lemma_best_frame_is_closest(frames: Seq<IconFrame>, size: u32, k: int)
    requires
        is_best_frame(frames, size, k),
    ensures
        frames[k].0 > 0 && frames[k].1 > 0,
        forall|j: int|
            0 <= j < frames.len() && #[trigger] frames[j].0 > 0 && frames[j].1 > 0 ==> {
                let dk = frames[k].0 as int - size as int;
                let dj = frames[j].0 as int - size as int;
                (if dk < 0 { -dk } else { dk }) <= (if dj < 0 { -dj } else { dj })
            },
        (exists|j: int| 0 <= j < frames.len() && #[trigger] frames[j].0 > 0 && frames[j].1 > 0 && frames[j].0 == size)
            ==> frames[k].0 == size,
        forall|j: int|
            0 <= j < k && #[trigger] frames[j].0 > 0 && frames[j].1 > 0 ==> frames[j].0 != frames[k].0,
{
    assert forall|j: int| 0 <= j < frames.len() && #[trigger] frames[j].0 > 0 && frames[j].1 > 0 implies {
        let dk = frames[k].0 as int - size as int;
        let dj = frames[j].0 as int - size as int;
        (if dk < 0 { -dk } else { dk }) <= (if dj < 0 { -dj } else { dj })
    } by {
        assert(usable(frames[j]));
    }
    if exists|j: int| 0 <= j < frames.len() && #[trigger] frames[j].0 > 0 && frames[j].1 > 0 && frames[j].0 == size {
        let j = choose|j: int| 0 <= j < frames.len() && #[trigger] frames[j].0 > 0 && frames[j].1 > 0 && frames[j].0 == size;
        assert(usable(frames[j]));
    }
    assert forall|j: int| 0 <= j < k && #[trigger] frames[j].0 > 0 && frames[j].1 > 0 implies frames[j].0 != frames[k].0 by {
        assert(usable(frames[j]));
    }
}

} // verus!
