use vstd::prelude::*;

verus! {

/// Position of pixel `(i, j)` (column `i`, row `j`) in a row-major scan of an
/// image `width` pixels wide: rows top to bottom, each row left to right.
pub open spec fn pixel_index(width: nat, i: nat, j: nat) -> nat {
    j * width + i
}

/// The three channel bytes of the `k`-th pixel of a packed RGB byte stream.
pub open spec fn pixel_of(bytes: Seq<u8>, k: nat) -> (u8, u8, u8) {
    let o = 3 * k as int;
    (bytes[o], bytes[o + 1], bytes[o + 2])
}

/// Shades every pixel of a `width` by `height` image with `shade(i, j)` and
/// returns the packed RGB stream in row-major order, top row first.
///
/// `shade` may be nondeterministic (it samples rays at random): each pixel
/// holds one of the values that `shade` may return for its coordinates, and
/// `shade` is called once per pixel, in scan order.
pub fn render_pixels<F: Fn(u32, u32) -> (u8, u8, u8)>(width: u32, height: u32, shade: F) -> (r:
    Vec<u8>)
    requires
        3 * (height * width) <= usize::MAX,
        forall|i: u32, j: u32| i < width && j < height ==> #[trigger] shade.requires((i, j)),
    ensures
        r@.len() == 3 * (height * width),
        forall|i: u32, j: u32|
            i < width && j < height ==> #[trigger] shade.ensures(
                (i, j),
                pixel_of(r@, pixel_index(width as nat, i as nat, j as nat)),
            ),
{
    let mut out: Vec<u8> = Vec::new();
    let mut j: u32 = 0;
    while j < height
        invariant
            j <= height,
            3 * (height * width) <= usize::MAX,
            forall|i: u32, j: u32| i < width && j < height ==> #[trigger] shade.requires((i, j)),
            out@.len() == 3 * (j * width),
            forall|a: u32, b: u32|
                a < width && b < j ==> #[trigger] shade.ensures(
                    (a, b),
                    pixel_of(out@, pixel_index(width as nat, a as nat, b as nat)),
                ),
        decreases height - j,
    {
        assert(j * width + width <= height * width) by (nonlinear_arith)
            requires
                j < height,
        ;
        let mut i: u32 = 0;
        while i < width
            invariant
                j < height,
                i <= width,
                3 * (height * width) <= usize::MAX,
                forall|i: u32, j: u32|
                    i < width && j < height ==> #[trigger] shade.requires((i, j)),
                out@.len() == 3 * (j * width + i),
                forall|a: u32, b: u32|
                    (a < width && b < j) || (a < i && b == j) ==> #[trigger] shade.ensures(
                        (a, b),
                        pixel_of(out@, pixel_index(width as nat, a as nat, b as nat)),
                    ),
            decreases width - i,
        {
            let px = shade(i, j);
            let ghost before = out@;
            out.push(px.0);
            out.push(px.1);
            out.push(px.2);
            proof {
                assert(pixel_of(out@, pixel_index(width as nat, i as nat, j as nat)) == px);
                assert forall|a: u32, b: u32|
                    (a < width && b < j) || (a < i + 1 && b == j) implies #[trigger] shade.ensures(
                    (a, b),
                    pixel_of(out@, pixel_index(width as nat, a as nat, b as nat)),
                ) by {
                    if a != i || b != j {
                        assert(pixel_index(width as nat, a as nat, b as nat) < pixel_index(
                            width as nat,
                            i as nat,
                            j as nat,
                        )) by (nonlinear_arith)
                            requires
                                (a < width && b < j) || (a < i && b == j),
                        ;
                        assert(pixel_of(out@, pixel_index(width as nat, a as nat, b as nat))
                            == pixel_of(before, pixel_index(width as nat, a as nat, b as nat)));
                    }
                }
            }
            i = i + 1;
        }
        assert(j * width + width == (j + 1) * width) by (nonlinear_arith);
        j = j + 1;
    }
    out
}

} // verus!
