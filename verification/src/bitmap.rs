//! Bitmaps: the files they are kept in, and finding one inside another.
use vstd::prelude::*;
use crate::adapter::{plain_error, AdapterError, AdapterErrorView};
use crate::definition::{ImageRegion, ImageTarget, ImageTargetView};
use crate::run::RunErrorKind;

verus! {

/// A picture: rows from top to bottom, pixels from left to right, each of four bytes of which the
/// first three are its color.
#[derive(Debug, PartialEq, Eq)]
pub struct BmpImage {
    pub width: i32,
    pub height: i32,
    pub pixels: Vec<u8>,
}

/// Where a picture was found, and how many percent of its pixels agree.
#[derive(Debug, Clone, Copy, PartialEq, Eq, Structural)]
pub struct VisualMatch {
    pub left: i32,
    pub top: i32,
    pub width: i32,
    pub height: i32,
    pub confidence: u8,
}

impl BmpImage {
    /// Whether there are four bytes for every pixel.
    pub open spec fn complete(self) -> bool {
        &&& self.width > 0
        &&& self.height > 0
        &&& self.pixels@.len() == self.width * self.height * 4
    }

    /// The `k`-th byte of a pixel.
    pub open spec fn byte(self, x: int, y: int, k: int) -> u8 {
        self.pixels@[(y * self.width + x) * 4 + k]
    }
}

impl BmpImage {
    /// Whether there is a pixel for every place of the picture.
    pub fn is_complete(&self) -> (r: bool)
        ensures
            r == self.complete(),
    {
        if self.width <= 0 || self.height <= 0 {
            return false;
        }
        proof {
            let w = self.width as int;
            let h = self.height as int;
            assert(0 <= w * h <= 0x7FFF_FFFF * 0x7FFF_FFFF) by (nonlinear_arith)
                requires
                    0 <= w <= 0x7FFF_FFFF,
                    0 <= h <= 0x7FFF_FFFF,
            ;
        }
        self.pixels.len() as u128 == self.width as u128 * self.height as u128 * 4
    }
}

/// The most pixels that a search may look at.
pub const VISUAL_MATCH_MAX_PIXEL_COMPARISONS: u64 = 50_000_000;

/// Whether the pixel of the template at `x`, `y` has the color of the pixel behind it when the
/// template lies at `left`, `top`.
pub open spec fn same_color(
    screenshot: BmpImage,
    template: BmpImage,
    left: int,
    top: int,
    x: int,
    y: int,
) -> bool {
    &&& screenshot.byte(left + x, top + y, 0) == template.byte(x, y, 0)
    &&& screenshot.byte(left + x, top + y, 1) == template.byte(x, y, 1)
    &&& screenshot.byte(left + x, top + y, 2) == template.byte(x, y, 2)
}

/// How many of the first `n` pixels of row `y` agree.
pub open spec fn agreeing_in_row(
    screenshot: BmpImage,
    template: BmpImage,
    left: int,
    top: int,
    y: int,
    n: nat,
) -> nat
    decreases n,
{
    if n == 0 {
        0
    } else {
        agreeing_in_row(screenshot, template, left, top, y, (n - 1) as nat) + if same_color(
            screenshot,
            template,
            left,
            top,
            n - 1,
            y,
        ) {
            1nat
        } else {
            0nat
        }
    }
}

/// How many pixels of the first `n` rows agree.
pub open spec fn agreeing(screenshot: BmpImage, template: BmpImage, left: int, top: int, n: nat) -> nat
    decreases n,
{
    if n == 0 {
        0
    } else {
        agreeing(screenshot, template, left, top, (n - 1) as nat) + agreeing_in_row(
            screenshot,
            template,
            left,
            top,
            n - 1,
            template.width as nat,
        )
    }
}

/// How many percent of the pixels of the template agree with the screenshot behind it, rounded
/// down.
pub open spec fn confidence_at(screenshot: BmpImage, template: BmpImage, left: int, top: int) -> int {
    (agreeing(screenshot, template, left, top, template.height as nat) as int * 100) / (
    template.width * template.height)
}

proof fn row_bound(screenshot: BmpImage, template: BmpImage, left: int, top: int, y: int, n: nat)
    ensures
        agreeing_in_row(screenshot, template, left, top, y, n) <= n,
    decreases n,
{
    if n > 0 {
        row_bound(screenshot, template, left, top, y, (n - 1) as nat);
    }
}

proof fn agreeing_bound(screenshot: BmpImage, template: BmpImage, left: int, top: int, n: nat)
    requires
        template.width > 0,
    ensures
        agreeing(screenshot, template, left, top, n) <= n * template.width,
    decreases n,
{
    if n > 0 {
        agreeing_bound(screenshot, template, left, top, (n - 1) as nat);
        row_bound(screenshot, template, left, top, n - 1, template.width as nat);
        assert(n * template.width == (n - 1) * template.width + template.width) by (nonlinear_arith)
            requires
                n > 0,
        ;
    }
}

/// A confidence is a percentage.
pub proof fn confidence_is_percentage(screenshot: BmpImage, template: BmpImage, left: int, top: int)
    requires
        template.width > 0,
        template.height > 0,
    ensures
        0 <= confidence_at(screenshot, template, left, top) <= 100,
{
    agreeing_bound(screenshot, template, left, top, template.height as nat);
    let matching = agreeing(screenshot, template, left, top, template.height as nat) as int;
    let total = template.width * template.height;
    assert(total > 0) by (nonlinear_arith)
        requires
            total == template.width * template.height,
            template.width > 0,
            template.height > 0,
    ;
    assert(template.height * template.width == total) by (nonlinear_arith)
        requires
            total == template.width * template.height,
    ;
    assert((matching * 100) / total <= 100 && 0 <= (matching * 100) / total) by (nonlinear_arith)
        requires
            0 <= matching <= total,
            total > 0,
    ;
}

/// Whether two pictures have the same size and the same colors, whatever their fourth bytes are.
pub open spec fn same_colors(a: BmpImage, b: BmpImage) -> bool {
    &&& a.width == b.width
    &&& a.height == b.height
    &&& forall|x: int, y: int, k: int|
        0 <= x < a.width && 0 <= y < a.height && 0 <= k < 3 ==> #[trigger] a.byte(x, y, k)
            == b.byte(x, y, k)
}

/// Only colors are compared: where the template lies in the screenshot, the confidence does not
/// depend on how opaque a pixel is.
pub proof fn only_colors_count(
    screenshot: BmpImage,
    template: BmpImage,
    other_screenshot: BmpImage,
    other_template: BmpImage,
    left: int,
    top: int,
)
    requires
        template.width > 0,
        template.height > 0,
        same_colors(screenshot, other_screenshot),
        same_colors(template, other_template),
        0 <= left <= screenshot.width - template.width,
        0 <= top <= screenshot.height - template.height,
    ensures
        confidence_at(screenshot, template, left, top) == confidence_at(
            other_screenshot,
            other_template,
            left,
            top,
        ),
{
    same_agreeing(
        screenshot,
        template,
        other_screenshot,
        other_template,
        left,
        top,
        template.height as nat,
    );
}

proof fn same_agreeing(
    screenshot: BmpImage,
    template: BmpImage,
    other_screenshot: BmpImage,
    other_template: BmpImage,
    left: int,
    top: int,
    n: nat,
)
    requires
        template.width > 0,
        template.height > 0,
        same_colors(screenshot, other_screenshot),
        same_colors(template, other_template),
        0 <= left <= screenshot.width - template.width,
        0 <= top <= screenshot.height - template.height,
        n <= template.height,
    ensures
        agreeing(screenshot, template, left, top, n) == agreeing(
            other_screenshot,
            other_template,
            left,
            top,
            n,
        ),
    decreases n,
{
    if n > 0 {
        same_agreeing(
            screenshot,
            template,
            other_screenshot,
            other_template,
            left,
            top,
            (n - 1) as nat,
        );
        same_agreeing_in_row(
            screenshot,
            template,
            other_screenshot,
            other_template,
            left,
            top,
            n - 1,
            template.width as nat,
        );
    }
}

proof fn same_agreeing_in_row(
    screenshot: BmpImage,
    template: BmpImage,
    other_screenshot: BmpImage,
    other_template: BmpImage,
    left: int,
    top: int,
    y: int,
    n: nat,
)
    requires
        same_colors(screenshot, other_screenshot),
        same_colors(template, other_template),
        0 <= left <= screenshot.width - template.width,
        0 <= top <= screenshot.height - template.height,
        0 <= y < template.height,
        n <= template.width,
    ensures
        agreeing_in_row(screenshot, template, left, top, y, n) == agreeing_in_row(
            other_screenshot,
            other_template,
            left,
            top,
            y,
            n,
        ),
    decreases n,
{
    if n > 0 {
        same_agreeing_in_row(
            screenshot,
            template,
            other_screenshot,
            other_template,
            left,
            top,
            y,
            (n - 1) as nat,
        );
        assert(same_color(screenshot, template, left, top, n - 1, y) == same_color(
            other_screenshot,
            other_template,
            left,
            top,
            n - 1,
            y,
        ));
    }
}

proof fn pixel_in_range(image: BmpImage, x: int, y: int)
    requires
        image.complete(),
        0 <= x < image.width,
        0 <= y < image.height,
    ensures
        0 <= (y * image.width + x) * 4,
        (y * image.width + x) * 4 + 3 < image.pixels@.len(),
{
    let w = image.width as int;
    let h = image.height as int;
    assert(0 <= y * w + x && (y * w + x) * 4 + 4 <= w * h * 4) by (nonlinear_arith)
        requires
            0 <= x < w,
            0 <= y < h,
    ;
}

/// The `k`-th byte of a pixel.
fn byte_at(image: &BmpImage, x: i32, y: i32, k: usize) -> (r: u8)
    requires
        image.complete(),
        0 <= x < image.width,
        0 <= y < image.height,
        k < 4,
    ensures
        r == image.byte(x as int, y as int, k as int),
{
    proof {
        pixel_in_range(*image, x as int, y as int);
    }
    let total: usize = image.pixels.len();
    proof {
        let w = image.width as int;
        assert(0 <= y * w) by (nonlinear_arith)
            requires
                0 <= y,
                0 < w,
        ;
    }
    let offset: usize = ((y as u64 * image.width as u64 + x as u64) * 4) as usize;
    image.pixels[offset + k]
}

/// The color of a pixel.
pub fn rgb_at(image: &BmpImage, x: i32, y: i32) -> (r: (u8, u8, u8))
    requires
        image.complete(),
        0 <= x < image.width,
        0 <= y < image.height,
    ensures
        r == (
            image.byte(x as int, y as int, 0),
            image.byte(x as int, y as int, 1),
            image.byte(x as int, y as int, 2),
        ),
{
    (byte_at(image, x, y, 0), byte_at(image, x, y, 1), byte_at(image, x, y, 2))
}

/// How many percent of the pixels of the template agree with the screenshot behind it.
pub fn template_confidence(screenshot: &BmpImage, template: &BmpImage, left: i32, top: i32) -> (r: u8)
    requires
        screenshot.complete(),
        template.complete(),
        0 <= left,
        0 <= top,
        left + template.width <= screenshot.width,
        top + template.height <= screenshot.height,
    ensures
        r == confidence_at(*screenshot, *template, left as int, top as int),
{
    let mut matching: u64 = 0;
    let mut y: i32 = 0;
    while y < template.height
        invariant
            0 <= y <= template.height,
            screenshot.complete(),
            template.complete(),
            0 <= left,
            0 <= top,
            left + template.width <= screenshot.width,
            top + template.height <= screenshot.height,
            matching == agreeing(*screenshot, *template, left as int, top as int, y as nat),
            matching <= y * template.width,
        decreases template.height - y,
    {
        let ghost so_far = matching;
        let mut x: i32 = 0;
        while x < template.width
            invariant
                0 <= x <= template.width,
                0 <= y < template.height,
                screenshot.complete(),
                template.complete(),
                0 <= left,
                0 <= top,
                left + template.width <= screenshot.width,
                top + template.height <= screenshot.height,
                so_far <= y * template.width,
                matching == so_far + agreeing_in_row(
                    *screenshot,
                    *template,
                    left as int,
                    top as int,
                    y as int,
                    x as nat,
                ),
                matching <= so_far + x,
            decreases template.width - x,
        {
            assert(y * template.width <= i32::MAX * i32::MAX) by (nonlinear_arith)
                requires
                    0 <= y <= i32::MAX,
                    0 < template.width <= i32::MAX,
            ;
            let behind = rgb_at(screenshot, left + x, top + y);
            let own = rgb_at(template, x, y);
            if behind.0 == own.0 && behind.1 == own.1 && behind.2 == own.2 {
                matching = matching + 1;
            }
            x = x + 1;
        }
        proof {
            assert((y + 1) * template.width == y * template.width + template.width)
                by (nonlinear_arith);
        }
        y = y + 1;
    }
    proof {
        let w = template.width as int;
        let h = template.height as int;
        assert(0 < w * h <= i32::MAX * i32::MAX) by (nonlinear_arith)
            requires
                0 < w <= i32::MAX,
                0 < h <= i32::MAX,
        ;
        assert(h * w == w * h) by (nonlinear_arith);
        assert(matching <= w * h);
        confidence_is_percentage(*screenshot, *template, left as int, top as int);
    }
    let total: u64 = template.width as u64 * template.height as u64;
    let percent: u128 = (matching as u128 * 100) / total as u128;
    percent as u8
}

/// The least and greatest position that the top left corner of the template may have.
#[derive(Debug, Clone, Copy, PartialEq, Eq, Structural)]
pub struct SearchArea {
    pub left: i32,
    pub top: i32,
    pub right: i32,
    pub bottom: i32,
}

pub open spec fn smaller(a: int, b: int) -> int {
    if a <= b {
        a
    } else {
        b
    }
}

pub open spec fn larger(a: int, b: int) -> int {
    if a >= b {
        a
    } else {
        b
    }
}

/// Where to search: in the region as far as it lies in the screenshot, or everywhere. There is
/// nowhere to search where the template does not fit in, or where the region goes beyond what an
/// `i32` can count.
pub open spec fn search_area(
    screenshot: BmpImage,
    template: BmpImage,
    region: Option<ImageRegion>,
) -> Option<SearchArea> {
    let max_left = screenshot.width - template.width;
    let max_top = screenshot.height - template.height;
    match region {
        None => Some(
            SearchArea { left: 0, top: 0, right: max_left as i32, bottom: max_top as i32 },
        ),
        Some(r) => {
            let left = larger(r.left as int, 0);
            let top = larger(r.top as int, 0);
            let right = smaller(r.left + r.width - template.width, max_left);
            let bottom = smaller(r.top + r.height - template.height, max_top);
            if r.width > i32::MAX || r.height > i32::MAX || r.left + r.width > i32::MAX || r.top
                + r.height > i32::MAX || left > right || top > bottom {
                None
            } else {
                Some(
                    SearchArea {
                        left: left as i32,
                        top: top as i32,
                        right: right as i32,
                        bottom: bottom as i32,
                    },
                )
            }
        },
    }
}

/// Whether the template can lie somewhere in the screenshot.
pub open spec fn fits(screenshot: BmpImage, template: BmpImage) -> bool {
    0 < template.width <= screenshot.width && 0 < template.height <= screenshot.height
}

pub fn visual_search_bounds(
    screenshot: &BmpImage,
    template: &BmpImage,
    region: Option<ImageRegion>,
) -> (r: Option<SearchArea>)
    requires
        fits(*screenshot, *template),
    ensures
        r == search_area(*screenshot, *template, region),
        r matches Some(area) ==> 0 <= area.left <= area.right <= screenshot.width - template.width
            && 0 <= area.top <= area.bottom <= screenshot.height - template.height,
{
    let max_left: i32 = screenshot.width - template.width;
    let max_top: i32 = screenshot.height - template.height;
    match region {
        None => Some(SearchArea { left: 0, top: 0, right: max_left, bottom: max_top }),
        Some(region) => {
            let region_right: i64 = region.left as i64 + region.width as i64;
            let region_bottom: i64 = region.top as i64 + region.height as i64;
            if region.width > 0x7FFF_FFFF || region.height > 0x7FFF_FFFF || region_right
                > 0x7FFF_FFFF || region_bottom > 0x7FFF_FFFF {
                return None;
            }
            let left: i32 = if region.left > 0 {
                region.left
            } else {
                0
            };
            let top: i32 = if region.top > 0 {
                region.top
            } else {
                0
            };
            let last_left: i64 = region_right - template.width as i64;
            let last_top: i64 = region_bottom - template.height as i64;
            let right: i64 = if last_left <= max_left as i64 {
                last_left
            } else {
                max_left as i64
            };
            let bottom: i64 = if last_top <= max_top as i64 {
                last_top
            } else {
                max_top as i64
            };
            if left as i64 > right || top as i64 > bottom {
                None
            } else {
                Some(SearchArea { left, top, right: right as i32, bottom: bottom as i32 })
            }
        },
    }
}

/// How many pixels a search in the area looks at, at most.
pub open spec fn comparisons(area: SearchArea, template: BmpImage) -> int {
    ((area.right - area.left + 1) * (area.bottom - area.top + 1)) * (template.width
        * template.height)
}

pub open spec fn too_large() -> AdapterErrorView {
    plain_error(
        RunErrorKind::Unsupported,
        "image target search is too large; provide a bounded image region or smaller template"@,
    )
}

/// Refuses a search that would look at too many pixels.
pub fn enforce_visual_search_budget(area: SearchArea, template: &BmpImage) -> (r: Result<
    (),
    AdapterError,
>)
    requires
        0 <= area.left <= area.right < i32::MAX,
        0 <= area.top <= area.bottom < i32::MAX,
        template.width > 0,
        template.height > 0,
    ensures
        match r {
            Ok(_) => comparisons(area, *template) <= VISUAL_MATCH_MAX_PIXEL_COMPARISONS,
            Err(e) => comparisons(area, *template) > VISUAL_MATCH_MAX_PIXEL_COMPARISONS && e@
                == too_large(),
        },
{
    let columns: u64 = (area.right - area.left + 1) as u64;
    let rows: u64 = (area.bottom - area.top + 1) as u64;
    proof {
        let w = template.width as int;
        let h = template.height as int;
        assert(columns * rows <= i32::MAX * i32::MAX) by (nonlinear_arith)
            requires
                0 < columns <= i32::MAX,
                0 < rows <= i32::MAX,
        ;
        assert(0 <= w * h <= i32::MAX * i32::MAX) by (nonlinear_arith)
            requires
                0 < w <= i32::MAX,
                0 < h <= i32::MAX,
        ;
        assert((columns * rows) * (w * h) <= (i32::MAX * i32::MAX) * (i32::MAX * i32::MAX))
            by (nonlinear_arith)
            requires
                0 <= columns * rows <= i32::MAX * i32::MAX,
                0 <= w * h <= i32::MAX * i32::MAX,
        ;
        assert(0 <= columns * rows) by (nonlinear_arith)
            requires
                0 < columns,
                0 < rows,
        ;
        assert(0 <= (columns * rows) * (w * h)) by (nonlinear_arith)
            requires
                0 <= columns * rows,
                0 <= w * h,
        ;
    }
    let positions: u128 = columns as u128 * rows as u128;
    let template_pixels: u128 = template.width as u128 * template.height as u128;
    let needed: u128 = positions * template_pixels;
    if needed > VISUAL_MATCH_MAX_PIXEL_COMPARISONS as u128 {
        return Err(
            AdapterError::unsupported(
                "image target search is too large; provide a bounded image region or smaller template".to_owned(),
            ),
        );
    }
    Ok(())
}

/// The confidence that is asked for: what the target says, but no more than all pixels; all pixels
/// where it says nothing.
pub open spec fn threshold(image: ImageTargetView) -> int {
    match image.confidence {
        Some(c) => if c > 100 {
            100
        } else {
            c as int
        },
        None => 100,
    }
}

/// Whether `y`, `x` comes before `other_y`, `other_x`: rows from the top, each from the left.
pub open spec fn sooner(y: int, x: int, other_y: int, other_x: int) -> bool {
    y < other_y || (y == other_y && x < other_x)
}

pub open spec fn in_area(area: SearchArea, x: int, y: int) -> bool {
    area.left <= x <= area.right && area.top <= y <= area.bottom
}

/// Whether nothing in the area is good enough before the given position.
pub open spec fn none_sooner(
    screenshot: BmpImage,
    template: BmpImage,
    area: SearchArea,
    wanted: int,
    top: int,
    left: int,
) -> bool {
    forall|y: int, x: int|
        in_area(area, x, y) && sooner(y, x, top, left) ==> #[trigger] confidence_at(
            screenshot,
            template,
            x,
            y,
        ) < wanted
}

/// The area that a search looks through, where it looks at all.
pub open spec fn searched(screenshot: BmpImage, template: BmpImage, image: ImageTargetView) -> Option<
    SearchArea,
> {
    if fits(screenshot, template) {
        search_area(screenshot, template, image.region)
    } else {
        None
    }
}

/// Finds the template in the screenshot: the first position, row by row, at which enough pixels
/// agree.
pub fn find_template_match(screenshot: &BmpImage, template: &BmpImage, image: &ImageTarget) -> (r:
    Result<Option<VisualMatch>, AdapterError>)
    requires
        searched(*screenshot, *template, image@) matches Some(area) && comparisons(area, *template)
            <= VISUAL_MATCH_MAX_PIXEL_COMPARISONS ==> screenshot.complete() && template.complete(),
    ensures
        match searched(*screenshot, *template, image@) {
            None => r matches Ok(None),
            Some(area) => if comparisons(area, *template) > VISUAL_MATCH_MAX_PIXEL_COMPARISONS {
                r matches Err(e) && e@ == too_large()
            } else {
                match r {
                    Ok(Some(found)) => {
                        &&& in_area(area, found.left as int, found.top as int)
                        &&& found.width == template.width
                        &&& found.height == template.height
                        &&& found.confidence == confidence_at(
                            *screenshot,
                            *template,
                            found.left as int,
                            found.top as int,
                        )
                        &&& found.confidence >= threshold(image@)
                        &&& none_sooner(
                            *screenshot,
                            *template,
                            area,
                            threshold(image@),
                            found.top as int,
                            found.left as int,
                        )
                    },
                    Ok(None) => forall|y: int, x: int|
                        in_area(area, x, y) ==> #[trigger] confidence_at(
                            *screenshot,
                            *template,
                            x,
                            y,
                        ) < threshold(image@),
                    Err(_) => false,
                }
            },
        },
{
    if template.width <= 0 || template.height <= 0 || template.width > screenshot.width
        || template.height > screenshot.height {
        return Ok(None);
    }
    let wanted: u8 = match image.confidence {
        Some(c) => if c > 100 {
            100
        } else {
            c
        },
        None => 100,
    };
    let area = match visual_search_bounds(screenshot, template, image.region) {
        Some(area) => area,
        None => {
            return Ok(None);
        },
    };
    match enforce_visual_search_budget(area, template) {
        Ok(_) => {},
        Err(e) => {
            return Err(e);
        },
    }
    let mut y: i32 = area.top;
    while y <= area.bottom
        invariant
            area.top <= y <= area.bottom + 1,
            0 <= area.left <= area.right <= screenshot.width - template.width,
            0 <= area.top <= area.bottom <= screenshot.height - template.height,
            screenshot.complete(),
            template.complete(),
            wanted == threshold(image@),
            searched(*screenshot, *template, image@) == Some(area),
            comparisons(area, *template) <= VISUAL_MATCH_MAX_PIXEL_COMPARISONS,
            none_sooner(
                *screenshot,
                *template,
                area,
                wanted as int,
                y as int,
                area.left as int,
            ),
        decreases area.bottom + 1 - y,
    {
        let mut x: i32 = area.left;
        while x <= area.right
            invariant
                area.left <= x <= area.right + 1,
                area.top <= y <= area.bottom,
                0 <= area.left <= area.right <= screenshot.width - template.width,
                0 <= area.top <= area.bottom <= screenshot.height - template.height,
                screenshot.complete(),
                template.complete(),
                wanted == threshold(image@),
                searched(*screenshot, *template, image@) == Some(area),
                comparisons(area, *template) <= VISUAL_MATCH_MAX_PIXEL_COMPARISONS,
                none_sooner(*screenshot, *template, area, wanted as int, y as int, x as int),
            decreases area.right + 1 - x,
        {
            let confidence = template_confidence(screenshot, template, x, y);
            if confidence >= wanted {
                return Ok(
                    Some(
                        VisualMatch {
                            left: x,
                            top: y,
                            width: template.width,
                            height: template.height,
                            confidence,
                        },
                    ),
                );
            }
            x = x + 1;
        }
        y = y + 1;
    }
    Ok(None)
}

/// The point in the middle of what was found in a window with the given corner, as far as an `i32`
/// can count.
pub fn match_center(window_left: i32, window_top: i32, found: VisualMatch) -> (r: Option<(i32, i32)>)
    requires
        found.width >= 0,
        found.height >= 0,
    ensures
        ({
            let x = window_left + found.left + found.width / 2;
            let y = window_top + found.top + found.height / 2;
            if i32::MIN <= x <= i32::MAX && i32::MIN <= y <= i32::MAX {
                r == Some((x as i32, y as i32))
            } else {
                r is None
            }
        }),
{
    let x: i64 = window_left as i64 + found.left as i64 + (found.width / 2) as i64;
    let y: i64 = window_top as i64 + found.top as i64 + (found.height / 2) as i64;
    if -0x8000_0000 <= x && x <= 0x7FFF_FFFF && -0x8000_0000 <= y && y <= 0x7FFF_FFFF {
        Some((x as i32, y as i32))
    } else {
        None
    }
}

} // verus!
