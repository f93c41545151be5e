//! What looking for a picture in another comes to, and how pictures stand in files.
use vstd::set_lib::*;
use vstd::prelude::*;
use crate::adapter::AdapterError;
use crate::bitmap::{
    agreeing, agreeing_in_row, comparisons, confidence_at, find_template_match, fits, in_area,
    same_color, search_area, threshold, BmpImage, SearchArea, VisualMatch,
};
use crate::bmp_file::{bmp_problem, header_of, is_picture, BmpDepth};
use crate::definition::{ImageRegion, ImageTarget, ImageTargetView};

verus! {

/// Whether a pixel of a template has all three color bytes of the pixel of the screenshot behind it
/// when the template lies at `left`, `top`.
pub open spec fn pixels_agree(
    screenshot: BmpImage,
    template: BmpImage,
    left: int,
    top: int,
    x: int,
    y: int,
) -> bool {
    let own = (y * template.width + x) * 4;
    let behind = ((top + y) * screenshot.width + (left + x)) * 4;
    &&& template.pixels@[own] == screenshot.pixels@[behind]
    &&& template.pixels@[own + 1] == screenshot.pixels@[behind + 1]
    &&& template.pixels@[own + 2] == screenshot.pixels@[behind + 2]
}

/// The pixels of a template that agree with the screenshot behind them.
pub open spec fn agreeing_pixels(
    screenshot: BmpImage,
    template: BmpImage,
    left: int,
    top: int,
) -> Set<(int, int)> {
    Set::new(
        |p: (int, int)|
            0 <= p.0 < template.width && 0 <= p.1 < template.height && pixels_agree(
                screenshot,
                template,
                left,
                top,
                p.0,
                p.1,
            ),
    )
}

spec fn row_pixels(s: BmpImage, t: BmpImage, left: int, top: int, y: int, n: int) -> Set<
    (int, int),
> {
    Set::new(|p: (int, int)| 0 <= p.0 < n && p.1 == y && pixels_agree(s, t, left, top, p.0, p.1))
}

spec fn upper_pixels(s: BmpImage, t: BmpImage, left: int, top: int, n: int) -> Set<(int, int)> {
    Set::new(
        |p: (int, int)|
            0 <= p.0 < t.width && 0 <= p.1 < n && pixels_agree(s, t, left, top, p.0, p.1),
    )
}

proof fn row_counted(s: BmpImage, t: BmpImage, left: int, top: int, y: int, n: nat)
    ensures
        row_pixels(s, t, left, top, y, n as int).finite(),
        row_pixels(s, t, left, top, y, n as int).len() == agreeing_in_row(s, t, left, top, y, n),
    decreases n,
{
    let all = row_pixels(s, t, left, top, y, n as int);
    if n == 0 {
        assert(all =~= Set::empty());
    } else {
        row_counted(s, t, left, top, y, (n - 1) as nat);
        let fewer = row_pixels(s, t, left, top, y, n - 1);
        assert(same_color(s, t, left, top, n - 1, y) == pixels_agree(s, t, left, top, n - 1, y));
        if same_color(s, t, left, top, n - 1, y) {
            assert(all =~= fewer.insert((n - 1, y)));
            assert(!fewer.contains((n - 1, y)));
        } else {
            assert(all =~= fewer);
        }
    }
}

proof fn rows_counted(s: BmpImage, t: BmpImage, left: int, top: int, n: nat)
    requires
        t.width >= 0,
    ensures
        upper_pixels(s, t, left, top, n as int).finite(),
        upper_pixels(s, t, left, top, n as int).len() == agreeing(s, t, left, top, n),
    decreases n,
{
    let all = upper_pixels(s, t, left, top, n as int);
    if n == 0 {
        assert(all =~= Set::empty());
    } else {
        rows_counted(s, t, left, top, (n - 1) as nat);
        row_counted(s, t, left, top, n - 1, t.width as nat);
        let upper = upper_pixels(s, t, left, top, n - 1);
        let row = row_pixels(s, t, left, top, n - 1, t.width as int);
        assert(all =~= upper + row);
        assert(upper.disjoint(row));
        lemma_set_disjoint_lens(upper, row);
    }
}

/// The confidence is the share of the pixels of the template whose three color bytes are all those
/// of the screenshot behind them, in percent and rounded down.
pub proof fn confidence_counts_agreeing_pixels(
    screenshot: BmpImage,
    template: BmpImage,
    left: int,
    top: int,
)
    requires
        template.width > 0,
        template.height > 0,
    ensures
        agreeing_pixels(screenshot, template, left, top).finite(),
        confidence_at(screenshot, template, left, top) == agreeing_pixels(
            screenshot,
            template,
            left,
            top,
        ).len() as int * 100 / (template.width * template.height),
{
    rows_counted(screenshot, template, left, top, template.height as nat);
    assert(agreeing_pixels(screenshot, template, left, top) =~= upper_pixels(
        screenshot,
        template,
        left,
        top,
        template.height as int,
    ));
}

proof fn row_full(s: BmpImage, t: BmpImage, left: int, top: int, y: int, n: nat)
    ensures
        agreeing_in_row(s, t, left, top, y, n) <= n,
        agreeing_in_row(s, t, left, top, y, n) == n <==> forall|x: int|
            0 <= x < n ==> #[trigger] pixels_agree(s, t, left, top, x, y),
    decreases n,
{
    if n > 0 {
        row_full(s, t, left, top, y, (n - 1) as nat);
        assert(same_color(s, t, left, top, n - 1, y) == pixels_agree(s, t, left, top, n - 1, y));
    }
}

proof fn rows_full(s: BmpImage, t: BmpImage, left: int, top: int, n: nat)
    requires
        t.width > 0,
    ensures
        agreeing(s, t, left, top, n) <= n * t.width,
        agreeing(s, t, left, top, n) == n * t.width <==> forall|x: int, y: int|
            0 <= x < t.width && 0 <= y < n ==> #[trigger] pixels_agree(s, t, left, top, x, y),
    decreases n,
{
    if n > 0 {
        rows_full(s, t, left, top, (n - 1) as nat);
        row_full(s, t, left, top, n - 1, t.width as nat);
        assert(n * t.width == (n - 1) * t.width + t.width) by (nonlinear_arith);
    }
}

/// The confidence is 100 exactly where every pixel of the template has all three color bytes of the
/// pixel behind it; one byte that differs makes it less.
pub proof fn full_confidence_means_equal_colors(
    screenshot: BmpImage,
    template: BmpImage,
    left: int,
    top: int,
)
    requires
        template.width > 0,
        template.height > 0,
    ensures
        confidence_at(screenshot, template, left, top) == 100 <==> forall|x: int, y: int|
            0 <= x < template.width && 0 <= y < template.height ==> #[trigger] pixels_agree(
                screenshot,
                template,
                left,
                top,
                x,
                y,
            ),
        confidence_at(screenshot, template, left, top) <= 100,
{
    rows_full(screenshot, template, left, top, template.height as nat);
    let matching = agreeing(screenshot, template, left, top, template.height as nat) as int;
    let total = template.width * template.height;
    assert(template.height as nat * template.width == total) by (nonlinear_arith)
        requires
            total == template.width * template.height,
            template.height > 0,
    ;
    assert(total > 0) by (nonlinear_arith)
        requires
            total == template.width * template.height,
            template.width > 0,
            template.height > 0,
    ;
    assert((matching * 100) / total == 100 <==> matching == total) by (nonlinear_arith)
        requires
            0 <= matching <= total,
            total > 0,
    ;
    assert((matching * 100) / total <= 100) by (nonlinear_arith)
        requires
            0 <= matching <= total,
            total > 0,
    ;
}

/// Whether a template that lies at `x`, `y` lies in the screenshot, and in the region if there is
/// one.
pub open spec fn lies_within(
    screenshot: BmpImage,
    template: BmpImage,
    region: Option<ImageRegion>,
    x: int,
    y: int,
) -> bool {
    &&& 0 <= x && x + template.width <= screenshot.width
    &&& 0 <= y && y + template.height <= screenshot.height
    &&& region matches Some(r) ==> r.left <= x && x + template.width <= r.left + r.width && r.top
        <= y && y + template.height <= r.top + r.height
}

/// Whether the edges of a region can be counted.
pub open spec fn countable(region: Option<ImageRegion>) -> bool {
    region matches Some(r) ==> r.width <= i32::MAX && r.height <= i32::MAX && r.left + r.width
        <= i32::MAX && r.top + r.height <= i32::MAX
}

/// A search looks at exactly the positions at which the template lies in the screenshot and in the
/// region; there is nowhere to look where there is no such position.
pub proof fn every_position_is_searched(
    screenshot: BmpImage,
    template: BmpImage,
    region: Option<ImageRegion>,
    x: int,
    y: int,
)
    requires
        fits(screenshot, template),
        countable(region),
    ensures
        lies_within(screenshot, template, region, x, y) <==> (search_area(
            screenshot,
            template,
            region,
        ) matches Some(area) && in_area(area, x, y)),
{
}

/// A target that asks for no confidence asks for all of it, and none asks for more.
pub proof fn asked_confidence(image: ImageTargetView)
    ensures
        image.confidence is None ==> threshold(image) == 100,
        image.confidence is Some && image.confidence->0 <= 100 ==> threshold(image)
            == image.confidence->0,
        image.confidence is Some && image.confidence->0 > 100 ==> threshold(image) == 100,
{
}

/// The confidence that a target asks for: all of it where it does not say.
pub open spec fn asked_for(image: ImageTargetView) -> int {
    if image.confidence is Some && image.confidence->0 < 100 {
        image.confidence->0 as int
    } else {
        100
    }
}

/// What a search for a picture answers, in a screenshot and for a template that have all their
/// pixels, where there are not too many to compare: the first position, row by row and each row
/// from the left, at which the template lies in the screenshot and in the region and as many
/// percent of its pixels agree as asked for; and nothing exactly where there is no such position.
pub proof fn pictures_are_found_where_they_agree(
    screenshot: &BmpImage,
    template: &BmpImage,
    image: &ImageTarget,
    r: Result<Option<VisualMatch>, AdapterError>,
)
    requires
        screenshot.complete(),
        template.complete(),
        countable(image@.region),
        (screenshot.width - template.width + 1) * (screenshot.height - template.height + 1) * (
        template.width * template.height) <= 50_000_000,
        call_ensures(find_template_match, (screenshot, template, image), r),
    ensures
        match r {
            Err(_) => false,
            Ok(Some(found)) => {
                &&& found.width == template.width && found.height == template.height
                &&& lies_within(
                    *screenshot,
                    *template,
                    image@.region,
                    found.left as int,
                    found.top as int,
                )
                &&& found.confidence == agreeing_pixels(
                    *screenshot,
                    *template,
                    found.left as int,
                    found.top as int,
                ).len() as int * 100 / (template.width * template.height)
                &&& found.confidence >= asked_for(image@)
                &&& forall|x: int, y: int|
                    (y < found.top || (y == found.top && x < found.left)) && #[trigger] lies_within(
                        *screenshot,
                        *template,
                        image@.region,
                        x,
                        y,
                    ) ==> agreeing_pixels(*screenshot, *template, x, y).len() as int * 100 / (
                    template.width * template.height) < asked_for(image@)
            },
            Ok(None) => forall|x: int, y: int| #[trigger]
                lies_within(*screenshot, *template, image@.region, x, y) ==> agreeing_pixels(
                    *screenshot,
                    *template,
                    x,
                    y,
                ).len() as int * 100 / (template.width * template.height) < asked_for(image@),
        },
{
    asked_confidence(image@);
    if fits(*screenshot, *template) {
        let area = search_area(*screenshot, *template, image@.region);
        if area is Some {
            budget_holds(*screenshot, *template, area->0);
        }
        if let Ok(Some(found)) = r {
            every_position_is_searched(
                *screenshot,
                *template,
                image@.region,
                found.left as int,
                found.top as int,
            );
            confidence_counts_agreeing_pixels(
                *screenshot,
                *template,
                found.left as int,
                found.top as int,
            );
        }
        assert forall|x: int, y: int|
            #[trigger] lies_within(*screenshot, *template, image@.region, x, y) implies in_area(
            area->0,
            x,
            y,
        ) && area is Some && confidence_at(*screenshot, *template, x, y) == agreeing_pixels(
            *screenshot,
            *template,
            x,
            y,
        ).len() as int * 100 / (template.width * template.height) by {
            every_position_is_searched(*screenshot, *template, image@.region, x, y);
            confidence_counts_agreeing_pixels(*screenshot, *template, x, y);
        }
    }
}

proof fn budget_holds(screenshot: BmpImage, template: BmpImage, area: SearchArea)
    requires
        fits(screenshot, template),
        0 <= area.left <= area.right <= screenshot.width - template.width,
        0 <= area.top <= area.bottom <= screenshot.height - template.height,
        (screenshot.width - template.width + 1) * (screenshot.height - template.height + 1) * (
        template.width * template.height) <= 50_000_000,
    ensures
        comparisons(area, template) <= 50_000_000,
{
    let across = area.right - area.left + 1;
    let down = area.bottom - area.top + 1;
    let w = screenshot.width - template.width + 1;
    let h = screenshot.height - template.height + 1;
    let size = template.width * template.height;
    assert(size > 0) by (nonlinear_arith)
        requires
            size == template.width * template.height,
            template.width > 0,
            template.height > 0,
    ;
    assert(across * down <= w * h) by (nonlinear_arith)
        requires
            0 < across <= w,
            0 < down <= h,
    ;
    assert((across * down) * size <= (w * h) * size) by (nonlinear_arith)
        requires
            across * down <= w * h,
            size > 0,
    ;
}

/// The number that four bytes of a file stand for, the least byte first.
pub open spec fn number_at(bytes: Seq<u8>, at: int) -> int {
    bytes[at] as int + 256 * bytes[at + 1] as int + 65536 * bytes[at + 2] as int + 16777216
        * bytes[at + 3] as int
}

/// How a bitmap file holds a picture of 32 bits for every pixel: the place of the pixels stands at
/// byte 10, the width at byte 18, the height at byte 22, rows run from bottom to top, and each
/// pixel is four bytes, which the picture takes over as they are.
pub proof fn files_hold_rows_from_the_bottom(
    bytes: Seq<u8>,
    depth: BmpDepth,
    picture: BmpImage,
    x: int,
    y: int,
    k: int,
)
    requires
        bmp_problem(bytes, depth) is None,
        is_picture(bytes, picture),
        number_at(bytes, 22) < 0x8000_0000,
        bytes[28] == 32,
        0 <= x < picture.width,
        0 <= y < picture.height,
        0 <= k < 4,
    ensures
        picture.width == number_at(bytes, 18),
        picture.height == number_at(bytes, 22),
        picture.pixels@[(y * picture.width + x) * 4 + k] == bytes[number_at(bytes, 10) + (
        picture.height - 1 - y) * (picture.width * 4) + x * 4 + k],
{
    let h = header_of(bytes);
    assert(h.bits == 32);
    assert((32 * h.width + 31) / 32 == h.width);
    assert(picture.byte(x, y, k) == crate::bmp_file::file_byte(bytes, x, y, k));
}

/// How a bitmap file holds a picture of 24 bits for every pixel: rows are padded to a multiple of
/// four bytes, and each pixel is three bytes, behind which the picture has a byte that is full.
pub proof fn files_pad_rows(
    bytes: Seq<u8>,
    picture: BmpImage,
    x: int,
    y: int,
    k: int,
    row: int,
)
    requires
        bmp_problem(bytes, BmpDepth::Also24) is None,
        is_picture(bytes, picture),
        number_at(bytes, 22) < 0x8000_0000,
        bytes[28] == 24,
        0 <= x < picture.width,
        0 <= y < picture.height,
        0 <= k < 4,
        row % 4 == 0,
        picture.width * 3 <= row < picture.width * 3 + 4,
    ensures
        picture.pixels@[(y * picture.width + x) * 4 + k] == (if k < 3 {
            bytes[number_at(bytes, 10) + (picture.height - 1 - y) * row + x * 3 + k]
        } else {
            255
        }),
{
    let h = header_of(bytes);
    assert(h.bits == 24);
    assert(((24 * h.width + 31) / 32) * 4 == row);
    assert(picture.byte(x, y, k) == crate::bmp_file::file_byte(bytes, x, y, k));
}

/// A file with 24 bits for every pixel is read only where that is accepted.
pub proof fn depths_are_told_apart(bytes: Seq<u8>)
    requires
        bmp_problem(bytes, BmpDepth::Only32) is None,
    ensures
        bytes[28] == 32,
        bytes[29] == 0,
        bytes[0] == 66,
        bytes[1] == 77,
        bmp_problem(bytes, BmpDepth::Also24) is None,
{
}

} // verus!
