//! The rectangle animation: many colored rectangles that bounce off the screen's edges.
//!
//! The rectangles move on fractions of a pixel, outside; where they are is given here as
//! whole pixels.

use crate::renderer;
use crate::renderer::{Fill, Graphics};
use vstd::prelude::*;

verus! {

/// The width of a rectangle.
pub const RECT_W: usize = 50;

/// The height of a rectangle.
pub const RECT_H: usize = 30;

/// The number of rectangles.
pub const RECT_COUNT: usize = 500;

/// The colors of the rectangles.
pub const COLORS: [[u8; 4]; 20] = [
    [255, 0, 0, 255],
    [0, 255, 0, 255],
    [0, 0, 255, 255],
    [255, 255, 0, 255],
    [255, 0, 255, 255],
    [0, 255, 255, 255],
    [255, 165, 0, 255],
    [128, 0, 128, 255],
    [255, 192, 203, 255],
    [0, 128, 128, 255],
    [0, 0, 128, 255],
    [128, 0, 0, 255],
    [128, 128, 0, 255],
    [192, 192, 192, 255],
    [128, 128, 128, 255],
    [165, 42, 42, 255],
    [255, 215, 0, 255],
    [250, 128, 114, 255],
    [64, 224, 208, 255],
    [238, 130, 238, 255],
];

/// A rectangle that moves.
#[derive(Clone, Copy, Debug, PartialEq, Eq)]
pub struct MovingRect {
    /// X coordinate of the top-left corner in whole pixels.
    pub x: usize,
    /// Y coordinate of the top-left corner in whole pixels.
    pub y: usize,
    /// Width of the rectangle in pixels.
    pub width: usize,
    /// Height of the rectangle in pixels.
    pub height: usize,
    /// Horizontal velocity in pixels per second.
    pub vx: i32,
    /// Vertical velocity in pixels per second.
    pub vy: i32,
    /// RGBA color of the rectangle.
    pub color: [u8; 4],
}

/// The horizontal speed of a rectangle: five steps of 100 pixels per second.
pub open spec fn speed_across(i: int) -> int {
    (i % 5 + 1) * 100
}

/// The vertical speed of a rectangle: more with every fifth, up to 400 pixels per second.
pub open spec fn speed_down(i: int) -> int {
    renderer::smaller((i / 5 + 1) * 120, 400)
}

/// The rectangle with the given number, on a screen of the given size.
pub open spec fn spawned(i: int, width: int, height: int) -> MovingRect {
    MovingRect {
        x: ((i * 37) % (width - RECT_W)) as usize,
        y: ((i * 53) % (height - RECT_H)) as usize,
        width: RECT_W,
        height: RECT_H,
        vx: (if i % 2 == 0 {
            speed_across(i)
        } else {
            -speed_across(i)
        }) as i32,
        vy: (if i % 3 == 0 {
            speed_down(i)
        } else {
            -speed_down(i)
        }) as i32,
        color: COLORS@[i % 20],
    }
}

/// The rectangles that the animation starts with, on a screen of the given size.
pub open spec fn all_spawned(width: int, height: int) -> Seq<MovingRect> {
    Seq::new(RECT_COUNT as nat, |i: int| spawned(i, width, height))
}

/// Creates the rectangle with the given number.
pub fn spawn(i: usize, width: usize, height: usize) -> (rect: MovingRect)
    requires
        i < RECT_COUNT,
        width > RECT_W,
        height > RECT_H,
    ensures
        rect == spawned(i as int, width as int, height as int),
{
    let base_vx: i32 = (i % 5 + 1) as i32 * 100;
    let rise: i32 = (i / 5 + 1) as i32 * 120;
    let base_vy: i32 = if rise <= 400 {
        rise
    } else {
        400
    };
    MovingRect {
        x: (i * 37) % (width - RECT_W),
        y: (i * 53) % (height - RECT_H),
        width: RECT_W,
        height: RECT_H,
        vx: if i % 2 == 0 {
            base_vx
        } else {
            -base_vx
        },
        vy: if i % 3 == 0 {
            base_vy
        } else {
            -base_vy
        },
        color: COLORS[i % 20],
    }
}

/// Creates all rectangles.
pub fn spawn_all(width: usize, height: usize) -> (rects: Vec<MovingRect>)
    requires
        width > RECT_W,
        height > RECT_H,
    ensures
        rects@ == all_spawned(width as int, height as int),
{
    let mut rects: Vec<MovingRect> = Vec::with_capacity(RECT_COUNT);
    let mut i: usize = 0;
    while i < RECT_COUNT
        invariant
            i <= RECT_COUNT,
            width > RECT_W,
            height > RECT_H,
            rects@ == Seq::new(i as nat, |k: int| spawned(k, width as int, height as int)),
        decreases RECT_COUNT - i,
    {
        rects.push(spawn(i, width, height));
        i = i + 1;
        assert(rects@ =~= Seq::new(i as nat, |k: int| spawned(k, width as int, height as int)));
    }
    assert(rects@ =~= all_spawned(width as int, height as int));
    rects
}

/// Every rectangle starts inside the screen, and it moves at a speed that can be turned
/// round.
pub proof fn spawned_inside(i: int, width: int, height: int)
    requires
        0 <= i < RECT_COUNT,
        RECT_W < width <= usize::MAX,
        RECT_H < height <= usize::MAX,
    ensures
        spawned(i, width, height).x + RECT_W < width,
        spawned(i, width, height).y + RECT_H < height,
        spawned(i, width, height).vx != 0,
        spawned(i, width, height).vy != 0,
        turnable(spawned(i, width, height)),
{
    assert(0 <= (i * 37) % (width - RECT_W) < width - RECT_W) by (nonlinear_arith)
        requires
            width - RECT_W > 0,
    ;
    assert(0 <= (i * 53) % (height - RECT_H) < height - RECT_H) by (nonlinear_arith)
        requires
            height - RECT_H > 0,
    ;
}

/// What an edge of the screen does to a rectangle along one axis.
#[derive(Clone, Copy, Debug, PartialEq, Eq, Structural)]
pub struct Bounce {
    /// Where the edge has put the rectangle; nothing if no edge was met.
    pub place: Option<usize>,
    /// The velocity from here on.
    pub velocity: i32,
}

/// What the edges do along one axis to a rectangle of the given size. `at_low` and `at_high`
/// say which edge it has reached; with both, the first counts. The velocity turns away from
/// the edge, and the rectangle is put back to it.
pub open spec fn bounced(
    at_low: bool,
    at_high: bool,
    extent: int,
    size: int,
    velocity: int,
) -> Bounce {
    let speed = if velocity < 0 {
        -velocity
    } else {
        velocity
    };
    if at_low {
        Bounce { place: Some(0), velocity: speed as i32 }
    } else if at_high {
        Bounce {
            place: Some(
                (if extent >= size {
                    extent - size
                } else {
                    0
                }) as usize,
            ),
            velocity: (-speed) as i32,
        }
    } else {
        Bounce { place: None, velocity: velocity as i32 }
    }
}

/// Bounces a rectangle off the edges of one axis.
pub fn bounce_axis(at_low: bool, at_high: bool, extent: usize, size: usize, velocity: i32) -> (bounce:
    Bounce)
    requires
        velocity > i32::MIN,
    ensures
        bounce == bounced(at_low, at_high, extent as int, size as int, velocity as int),
{
    if at_low {
        Bounce {
            place: Some(0),
            velocity: if velocity < 0 {
                -velocity
            } else {
                velocity
            },
        }
    } else if at_high {
        Bounce {
            place: Some(extent.saturating_sub(size)),
            velocity: if velocity > 0 {
                -velocity
            } else {
                velocity
            },
        }
    } else {
        Bounce { place: None, velocity }
    }
}

/// An edge puts a rectangle back into the screen as far as the screen can hold it, and turns
/// its velocity away from the edge without changing the speed.
pub proof fn bounce_pushes_back(at_low: bool, at_high: bool, extent: int, size: int, velocity: int)
    requires
        i32::MIN < velocity <= i32::MAX,
        0 <= extent <= usize::MAX,
        0 <= size <= usize::MAX,
    ensures
        ({
            let bounce = bounced(at_low, at_high, extent, size, velocity);
            &&& bounce.place is Some <==> at_low || at_high
            &&& size <= extent ==> (bounce.place matches Some(place) ==> place + size <= extent)
            &&& bounce.velocity == velocity || bounce.velocity == -velocity
            &&& at_low ==> bounce.velocity >= 0
            &&& at_high && !at_low ==> bounce.velocity <= 0
        }),
{
}

/// Where the movement of a frame has taken a rectangle, in whole pixels, and which edges of
/// the screen it has reached.
#[derive(Clone, Copy, Debug, PartialEq, Eq, Structural)]
pub struct Flight {
    pub x: usize,
    pub y: usize,
    pub at_left: bool,
    pub at_right: bool,
    pub at_top: bool,
    pub at_bottom: bool,
}

/// Where a rectangle is along one axis after the edges.
pub open spec fn landed_at(bounce: Bounce, flown: usize) -> usize {
    match bounce.place {
        Some(place) => place,
        None => flown,
    }
}

/// A rectangle after it has flown, on a screen of the given size.
pub open spec fn landed(rect: MovingRect, flight: Flight, width: int, height: int) -> MovingRect {
    let across = bounced(
        flight.at_left,
        flight.at_right,
        width,
        rect.width as int,
        rect.vx as int,
    );
    let down = bounced(
        flight.at_top,
        flight.at_bottom,
        height,
        rect.height as int,
        rect.vy as int,
    );
    MovingRect {
        x: landed_at(across, flight.x),
        y: landed_at(down, flight.y),
        vx: across.velocity,
        vy: down.velocity,
        ..rect
    }
}

/// The rectangles after they have flown, on a screen of the given size.
pub open spec fn all_landed(
    rects: Seq<MovingRect>,
    flights: Seq<Flight>,
    width: int,
    height: int,
) -> Seq<MovingRect> {
    Seq::new(rects.len(), |i: int| landed(rects[i], flights[i], width, height))
}

/// The velocities of a rectangle can be turned round.
pub open spec fn turnable(rect: MovingRect) -> bool {
    rect.vx > i32::MIN && rect.vy > i32::MIN
}

/// Updates the rectangles after their flights: those that have reached an edge of the screen
/// are put back to it and turn away from it.
pub fn update_rects(rects: &mut Vec<MovingRect>, flights: &Vec<Flight>, width: usize, height: usize)
    requires
        old(rects)@.len() == flights@.len(),
        forall|i: int| 0 <= i < old(rects)@.len() ==> turnable(#[trigger] old(rects)@[i]),
    ensures
        final(rects)@ == all_landed(old(rects)@, flights@, width as int, height as int),
{
    let ghost before = rects@;
    let mut i: usize = 0;
    while i < rects.len()
        invariant
            i <= rects@.len(),
            rects@.len() == before.len(),
            rects@.len() == flights@.len(),
            before == old(rects)@,
            forall|k: int| 0 <= k < before.len() ==> turnable(#[trigger] before[k]),
            forall|k: int|
                0 <= k < i ==> #[trigger] rects@[k] == landed(
                    before[k],
                    flights@[k],
                    width as int,
                    height as int,
                ),
            forall|k: int| i <= k < rects@.len() ==> #[trigger] rects@[k] == before[k],
        decreases rects@.len() - i,
    {
        let rect = rects[i];
        let flight = flights[i];
        assert(rect == before[i as int]);
        let across = bounce_axis(flight.at_left, flight.at_right, width, rect.width, rect.vx);
        let down = bounce_axis(flight.at_top, flight.at_bottom, height, rect.height, rect.vy);
        rects[i] = MovingRect {
            x: match across.place {
                Some(place) => place,
                None => flight.x,
            },
            y: match down.place {
                Some(place) => place,
                None => flight.y,
            },
            width: rect.width,
            height: rect.height,
            vx: across.velocity,
            vy: down.velocity,
            color: rect.color,
        };
        i = i + 1;
    }
    assert(rects@ =~= all_landed(before, flights@, width as int, height as int));
}

/// The flight tells the truth about the right and the lower edge: a rectangle that is not said
/// to have reached one of them has not.
pub open spec fn truthful(rect: MovingRect, flight: Flight, width: int, height: int) -> bool {
    &&& !flight.at_right ==> flight.x + rect.width < width
    &&& !flight.at_bottom ==> flight.y + rect.height < height
}

/// A rectangle lies wholly on a screen.
pub open spec fn on_screen(rect: MovingRect, width: int, height: int) -> bool {
    rect.x + rect.width <= width && rect.y + rect.height <= height
}

/// A rectangle has the size, the color and the speeds of another.
pub open spec fn alike(a: MovingRect, b: MovingRect) -> bool {
    &&& a.width == b.width && a.height == b.height && a.color == b.color
    &&& a.vx == b.vx || a.vx == -b.vx
    &&& a.vy == b.vy || a.vy == -b.vy
}

/// After its flight every rectangle is on the screen, if the screen can hold it and the flight
/// tells the truth; and one that has reached an edge is, whatever the other edges. No
/// rectangle changes its size, its color or its speed, and every one can be turned round
/// again. One at an edge moves away from it.
pub proof fn landing_keeps_rectangles(rect: MovingRect, flight: Flight, width: int, height: int)
    requires
        turnable(rect),
        0 <= width <= usize::MAX,
        0 <= height <= usize::MAX,
    ensures
        ({
            let after = landed(rect, flight, width, height);
            &&& truthful(rect, flight, width, height) && rect.width <= width && rect.height
                <= height ==> on_screen(after, width, height)
            &&& (flight.at_left || flight.at_right) && rect.width <= width ==> after.x + rect.width
                <= width
            &&& (flight.at_top || flight.at_bottom) && rect.height <= height ==> after.y
                + rect.height <= height
            &&& alike(after, rect)
            &&& turnable(after)
            &&& flight.at_left ==> after.x == 0 && (rect.vx != 0 ==> after.vx > 0)
            &&& flight.at_top ==> after.y == 0 && (rect.vy != 0 ==> after.vy > 0)
            &&& truthful(rect, flight, width, height) && rect.width < width && after.x + rect.width
                == width && rect.vx != 0 ==> after.vx < 0
            &&& truthful(rect, flight, width, height) && rect.height < height && after.y
                + rect.height == height && rect.vy != 0 ==> after.vy < 0
        }),
{
    bounce_pushes_back(
        flight.at_left,
        flight.at_right,
        width,
        rect.width as int,
        rect.vx as int,
    );
    bounce_pushes_back(
        flight.at_top,
        flight.at_bottom,
        height,
        rect.height as int,
        rect.vy as int,
    );
}

/// A frame: where the rectangles have flown, and the size of the screen, which may have
/// changed since the frame before.
pub ghost struct Frame {
    pub flights: Seq<Flight>,
    pub width: int,
    pub height: int,
}

/// The rectangles after some frames.
pub open spec fn after_frames(rects: Seq<MovingRect>, frames: Seq<Frame>) -> Seq<MovingRect>
    decreases frames.len(),
{
    if frames.len() == 0 {
        rects
    } else {
        let before = after_frames(rects, frames.drop_last());
        let frame = frames.last();
        all_landed(before, frame.flights, frame.width, frame.height)
    }
}

/// In each frame the screen is larger than a rectangle, and the flights tell the truth.
pub open spec fn frames_truthful(rects: Seq<MovingRect>, frames: Seq<Frame>) -> bool
    decreases frames.len(),
{
    frames.len() > 0 ==> {
        let before = after_frames(rects, frames.drop_last());
        let frame = frames.last();
        &&& frames_truthful(rects, frames.drop_last())
        &&& RECT_W < frame.width <= usize::MAX
        &&& RECT_H < frame.height <= usize::MAX
        &&& forall|i: int|
            0 <= i < before.len() ==> truthful(
                #[trigger] before[i],
                frame.flights[i],
                frame.width,
                frame.height,
            )
    }
}

/// The animation: in every frame, however the screen has changed its size, each rectangle lies
/// wholly on the screen of that frame and has the size, the color and the speeds that it was
/// created with. None ever stands still. One that has reached the left or the upper edge in
/// the frame lies at it and moves away from it; one that lies at the right or the lower edge
/// moves away from that.
pub proof fn every_frame_on_screen(width: int, height: int, frames: Seq<Frame>, i: int)
    requires
        RECT_W < width <= usize::MAX,
        RECT_H < height <= usize::MAX,
        0 <= i < RECT_COUNT,
        frames_truthful(all_spawned(width, height), frames),
    ensures
        ({
            let created = all_spawned(width, height);
            let rect = after_frames(created, frames)[i];
            &&& after_frames(created, frames).len() == RECT_COUNT
            &&& alike(rect, spawned(i, width, height))
            &&& turnable(rect)
            &&& frames.len() == 0 ==> on_screen(rect, width, height)
            &&& rect.vx != 0 && rect.vy != 0
            &&& frames.len() > 0 ==> {
                let frame = frames.last();
                let flight = frame.flights[i];
                &&& on_screen(rect, frame.width, frame.height)
                &&& flight.at_left ==> rect.x == 0 && rect.vx > 0
                &&& flight.at_top ==> rect.y == 0 && rect.vy > 0
                &&& rect.x + rect.width == frame.width ==> rect.vx < 0
                &&& rect.y + rect.height == frame.height ==> rect.vy < 0
            }
        }),
    decreases frames.len(),
{
    let created = all_spawned(width, height);
    spawned_inside(i, width, height);
    if frames.len() > 0 {
        let rest = frames.drop_last();
        let frame = frames.last();
        every_frame_on_screen(width, height, rest, i);
        let before = after_frames(created, rest);
        assert(truthful(before[i], frame.flights[i], frame.width, frame.height));
        landing_keeps_rectangles(before[i], frame.flights[i], frame.width, frame.height);
    }
}

/// A rectangle as it is drawn.
pub open spec fn rect_fill(rect: MovingRect) -> Fill {
    Fill {
        x: rect.x as int,
        y: rect.y as int,
        w: rect.width as int,
        h: rect.height as int,
        color: rect.color@,
    }
}

/// The rectangles as they are drawn.
pub open spec fn rect_fills(rects: Seq<MovingRect>) -> Seq<Fill> {
    rects.map_values(|rect: MovingRect| rect_fill(rect))
}

/// The color of the ground.
pub open spec fn ground_color() -> Seq<u8> {
    seq![0u8, 0u8, 0u8, 255u8]
}

/// Draws a frame: the rectangles, one after the other, on a black ground.
pub fn draw_frame(gfx: &mut Graphics, rects: &Vec<MovingRect>)
    requires
        renderer::all_fit(
            old(gfx).buf@.len() as int,
            old(gfx).width as int,
            old(gfx).height as int,
            old(gfx).stride as int,
            rect_fills(rects@),
        ),
    ensures
        final(gfx).repainted(
            *old(gfx),
            renderer::painted_all(
                renderer::cleared(old(gfx).buf@, ground_color()),
                old(gfx).width as int,
                old(gfx).height as int,
                old(gfx).stride as int,
                rect_fills(rects@),
            ),
        ),
        final(final(gfx).buf)@ == final(old(gfx).buf)@,
{
    let black: [u8; 4] = [0, 0, 0, 255];
    assert(black@ =~= ground_color());
    let ghost len = gfx.buf@.len() as int;
    let ghost width = gfx.width as int;
    let ghost height = gfx.height as int;
    let ghost stride = gfx.stride as int;
    let ghost fills = rect_fills(rects@);
    gfx.clear_screen(black);
    let ghost ground = gfx.buf@;
    let mut i: usize = 0;
    while i < rects.len()
        invariant
            i <= rects@.len(),
            fills == rect_fills(rects@),
            renderer::all_fit(len, width, height, stride, fills),
            len == ground.len(),
            width == gfx.width,
            height == gfx.height,
            stride == gfx.stride,
            gfx.width == old(gfx).width,
            gfx.height == old(gfx).height,
            gfx.stride == old(gfx).stride,
            final(gfx.buf)@ == final(old(gfx).buf)@,
            gfx.buf@ == renderer::painted_all(ground, width, height, stride, fills.take(i as int)),
        decreases rects@.len() - i,
    {
        let rect = rects[i];
        proof {
            assert(fills[i as int] == rect_fill(rect));
            renderer::painted_all_push(
                ground,
                width,
                height,
                stride,
                fills.take(i as int),
                fills[i as int],
            );
            assert(fills.take(i + 1) =~= fills.take(i as int).push(fills[i as int]));
        }
        gfx.fill_rect(rect.x, rect.y, rect.width, rect.height, rect.color);
        i = i + 1;
    }
    assert(fills.take(i as int) =~= fills);
}

/// A screen that lies in its buffer can show any rectangles.
pub proof fn screen_fits_frame(
    rects: Seq<MovingRect>,
    len: int,
    width: int,
    height: int,
    stride: int,
)
    requires
        4 * width <= stride,
        stride * height <= len,
    ensures
        renderer::all_fit(len, width, height, stride, rect_fills(rects)),
{
    renderer::screen_fits_all(len, width, height, stride, rect_fills(rects));
}

/// How the rectangles start: scattered over the screen, with five horizontal speeds and four
/// vertical ones, every second one to the right and every third one down, in twenty colors.
pub proof fn rectangles_start_scattered(i: usize, width: usize, height: usize, rect: MovingRect)
    requires
        i < RECT_COUNT,
        50 < width,
        30 < height,
        call_ensures(spawn, (i, width, height), rect),
    ensures
        rect.width == 50,
        rect.height == 30,
        rect.x == (37 * i) % (width - 50),
        rect.y == (53 * i) % (height - 30),
        i as int % 2 == 0 ==> rect.vx == 100 * (i as int % 5 + 1),
        i as int % 2 == 1 ==> rect.vx == -100 * (i as int % 5 + 1),
        ({
            let down = if i < 15 {
                120 * (i as int / 5 + 1)
            } else {
                400
            };
            rect.vy == (if i as int % 3 == 0 {
                down
            } else {
                -down
            })
        }),
        rect.color == COLORS@[i as int % 20],
{
    assert((i * 37) % (width - 50) == (37 * i) % (width - 50));
    assert((i * 53) % (height - 30) == (53 * i) % (height - 30));
    spawned_inside(i as int, width as int, height as int);
}

/// There are 500 rectangles, and each is the one with its number.
pub proof fn all_rectangles_start(width: usize, height: usize, rects: Vec<MovingRect>)
    requires
        50 < width,
        30 < height,
        call_ensures(spawn_all, (width, height), rects),
    ensures
        rects@.len() == 500,
        forall|i: int|
            0 <= i < 500 ==> #[trigger] rects@[i] == spawned(i, width as int, height as int),
{
}

/// The colors are opaque, and they are these.
pub proof fn palette()
    ensures
        COLORS@.len() == 20,
        COLORS@[0]@ == seq![255u8, 0u8, 0u8, 255u8],
        COLORS@[1]@ == seq![0u8, 255u8, 0u8, 255u8],
        COLORS@[2]@ == seq![0u8, 0u8, 255u8, 255u8],
        COLORS@[3]@ == seq![255u8, 255u8, 0u8, 255u8],
        COLORS@[4]@ == seq![255u8, 0u8, 255u8, 255u8],
        COLORS@[5]@ == seq![0u8, 255u8, 255u8, 255u8],
        COLORS@[6]@ == seq![255u8, 165u8, 0u8, 255u8],
        COLORS@[7]@ == seq![128u8, 0u8, 128u8, 255u8],
        COLORS@[8]@ == seq![255u8, 192u8, 203u8, 255u8],
        COLORS@[9]@ == seq![0u8, 128u8, 128u8, 255u8],
        COLORS@[10]@ == seq![0u8, 0u8, 128u8, 255u8],
        COLORS@[11]@ == seq![128u8, 0u8, 0u8, 255u8],
        COLORS@[12]@ == seq![128u8, 128u8, 0u8, 255u8],
        COLORS@[13]@ == seq![192u8, 192u8, 192u8, 255u8],
        COLORS@[14]@ == seq![128u8, 128u8, 128u8, 255u8],
        COLORS@[15]@ == seq![165u8, 42u8, 42u8, 255u8],
        COLORS@[16]@ == seq![255u8, 215u8, 0u8, 255u8],
        COLORS@[17]@ == seq![250u8, 128u8, 114u8, 255u8],
        COLORS@[18]@ == seq![64u8, 224u8, 208u8, 255u8],
        COLORS@[19]@ == seq![238u8, 130u8, 238u8, 255u8],
{
    assert(COLORS@[0]@ =~= seq![255u8, 0u8, 0u8, 255u8]);
    assert(COLORS@[1]@ =~= seq![0u8, 255u8, 0u8, 255u8]);
    assert(COLORS@[2]@ =~= seq![0u8, 0u8, 255u8, 255u8]);
    assert(COLORS@[3]@ =~= seq![255u8, 255u8, 0u8, 255u8]);
    assert(COLORS@[4]@ =~= seq![255u8, 0u8, 255u8, 255u8]);
    assert(COLORS@[5]@ =~= seq![0u8, 255u8, 255u8, 255u8]);
    assert(COLORS@[6]@ =~= seq![255u8, 165u8, 0u8, 255u8]);
    assert(COLORS@[7]@ =~= seq![128u8, 0u8, 128u8, 255u8]);
    assert(COLORS@[8]@ =~= seq![255u8, 192u8, 203u8, 255u8]);
    assert(COLORS@[9]@ =~= seq![0u8, 128u8, 128u8, 255u8]);
    assert(COLORS@[10]@ =~= seq![0u8, 0u8, 128u8, 255u8]);
    assert(COLORS@[11]@ =~= seq![128u8, 0u8, 0u8, 255u8]);
    assert(COLORS@[12]@ =~= seq![128u8, 128u8, 0u8, 255u8]);
    assert(COLORS@[13]@ =~= seq![192u8, 192u8, 192u8, 255u8]);
    assert(COLORS@[14]@ =~= seq![128u8, 128u8, 128u8, 255u8]);
    assert(COLORS@[15]@ =~= seq![165u8, 42u8, 42u8, 255u8]);
    assert(COLORS@[16]@ =~= seq![255u8, 215u8, 0u8, 255u8]);
    assert(COLORS@[17]@ =~= seq![250u8, 128u8, 114u8, 255u8]);
    assert(COLORS@[18]@ =~= seq![64u8, 224u8, 208u8, 255u8]);
    assert(COLORS@[19]@ =~= seq![238u8, 130u8, 238u8, 255u8]);
}

/// A rectangle after its flight, along both axes: at the near edge it lies at 0 and moves away
/// from it; at the far edge alone it lies as far out as the screen can hold it and moves back;
/// and at no edge it lies where it has flown and moves on as before.
pub proof fn flight_ends_at_the_edge(rect: MovingRect, flight: Flight, width: int, height: int)
    requires
        turnable(rect),
        0 <= width <= usize::MAX,
        0 <= height <= usize::MAX,
    ensures
        ({
            let after = landed(rect, flight, width, height);
            &&& flight.at_left ==> after.x == 0 && after.vx >= 0
            &&& flight.at_right && !flight.at_left ==> after.vx <= 0 && (if rect.width <= width {
                after.x + rect.width == width
            } else {
                after.x == 0
            })
            &&& !flight.at_left && !flight.at_right ==> after.x == flight.x && after.vx == rect.vx
            &&& flight.at_top ==> after.y == 0 && after.vy >= 0
            &&& flight.at_bottom && !flight.at_top ==> after.vy <= 0 && (if rect.height
                <= height {
                after.y + rect.height == height
            } else {
                after.y == 0
            })
            &&& !flight.at_top && !flight.at_bottom ==> after.y == flight.y && after.vy == rect.vy
            &&& after.vx == rect.vx || after.vx == -rect.vx
            &&& after.vy == rect.vy || after.vy == -rect.vy
            &&& after.width == rect.width
            &&& after.height == rect.height
            &&& after.color == rect.color
        }),
{
}

/// The last of the rectangles that cover a pixel; -1 if none does.
pub open spec fn uppermost(rects: Seq<MovingRect>, px: int, py: int) -> int
    decreases rects.len(),
{
    if rects.len() == 0 {
        -1
    } else {
        let rect = rects.last();
        if rect.x <= px < rect.x + rect.width && rect.y <= py < rect.y + rect.height {
            rects.len() - 1
        } else {
            uppermost(rects.drop_last(), px, py)
        }
    }
}

/// A frame shows at each pixel the uppermost rectangle there, and black where there is none.
pub proof fn frame_shows_the_uppermost(
    rects: Seq<MovingRect>,
    buf: Seq<u8>,
    width: int,
    height: int,
    stride: int,
    px: int,
    py: int,
    channel: int,
)
    requires
        4 * width <= stride,
        stride % 4 == 0,
        stride * height <= buf.len(),
        0 <= px < width,
        0 <= py < height,
        0 <= channel < 4,
    ensures
        ({
            let shown = renderer::pixel(
                renderer::painted_all(
                    renderer::cleared(buf, ground_color()),
                    width,
                    height,
                    stride,
                    rect_fills(rects),
                ),
                stride,
                px,
                py,
                channel,
            );
            let top = uppermost(rects, px, py);
            &&& -1 <= top < rects.len()
            &&& top >= 0 ==> shown == rects[top].color@[channel]
            &&& top < 0 ==> shown == (if channel == 3 {
                255u8
            } else {
                0u8
            })
        }),
{
    let ground = renderer::cleared(buf, ground_color());
    let fills = rect_fills(rects);
    let under = Seq::new(4, |c: int| renderer::pixel(ground, stride, px, py, c));
    renderer::last_rectangle_shows(ground, width, height, stride, fills, px, py, channel);
    renderer::clear_screen_paints_every_pixel(
        buf,
        width,
        height,
        stride,
        ground_color(),
        px,
        py,
        channel,
    );
    uppermost_shows(under, rects, px, py);
}

/// The color that the uppermost rectangle gives.
proof fn uppermost_shows(under: Seq<u8>, rects: Seq<MovingRect>, px: int, py: int)
    ensures
        -1 <= uppermost(rects, px, py) < rects.len(),
        renderer::shown_color(under, rect_fills(rects), px, py) == (if uppermost(rects, px, py)
            >= 0 {
            rects[uppermost(rects, px, py)].color@
        } else {
            under
        }),
    decreases rects.len(),
{
    let fills = rect_fills(rects);
    if rects.len() > 0 {
        uppermost_shows(under, rects.drop_last(), px, py);
        assert(fills.drop_last() =~= rect_fills(rects.drop_last()));
        assert(fills.last() == rect_fill(rects.last()));
    }
}

/// Each rectangle flies its own flight.
pub proof fn each_flies_its_own_flight(
    rects: Seq<MovingRect>,
    flights: Seq<Flight>,
    width: int,
    height: int,
    i: int,
)
    requires
        rects.len() == flights.len(),
        0 <= i < rects.len(),
    ensures
        all_landed(rects, flights, width, height).len() == rects.len(),
        all_landed(rects, flights, width, height)[i] == landed(
            rects[i],
            flights[i],
            width,
            height,
        ),
{
}

} // verus!
