use vstd::prelude::*;

verus! {

/// How a pixel byte is written out.
#[derive(Debug, Clone, Copy, PartialEq, Eq, Structural)]
pub enum PixelStyle {
    /// `@` for a dark pixel (at least `230`), `.` for any other.
    Shade,
    /// The byte in decimal, then a line break.
    DecimalLine,
    /// The byte in decimal, then a space.
    DecimalSpaced,
}

/// The smallest byte drawn as a dark pixel.
pub const DARK_PIXEL: u8 = 230;

/// The character of the decimal digit `d`.
pub open spec fn digit_char(d: nat) -> char {
    if d == 0 {
        '0'
    } else if d == 1 {
        '1'
    } else if d == 2 {
        '2'
    } else if d == 3 {
        '3'
    } else if d == 4 {
        '4'
    } else if d == 5 {
        '5'
    } else if d == 6 {
        '6'
    } else if d == 7 {
        '7'
    } else if d == 8 {
        '8'
    } else {
        '9'
    }
}

/// `n` written in decimal, without leading zeros.
pub open spec fn decimal(n: nat) -> Seq<char>
    decreases n,
{
    if n < 10 {
        seq![digit_char(n)]
    } else {
        decimal(n / 10).push(digit_char(n % 10))
    }
}

/// The text of one pixel.
pub open spec fn pixel_text(style: PixelStyle, b: u8) -> Seq<char> {
    match style {
        PixelStyle::Shade => if b >= DARK_PIXEL {
            seq!['@']
        } else {
            seq!['.']
        },
        PixelStyle::DecimalLine => decimal(b as nat).push('\n'),
        PixelStyle::DecimalSpaced => decimal(b as nat).push(' '),
    }
}

/// The text of a row of pixels: the text of each pixel, in order.
pub open spec fn row_text(row: Seq<u8>, style: PixelStyle) -> Seq<char>
    decreases row.len(),
{
    if row.len() == 0 {
        Seq::empty()
    } else {
        row_text(row.drop_last(), style) + pixel_text(style, row.last())
    }
}

/// The text of the first `rows` rows of an image `width` pixels wide: each
/// row's text followed by a line break.
pub open spec fn image_text(pixels: Seq<u8>, width: nat, rows: nat, style: PixelStyle) -> Seq<
    char,
>
    decreases rows,
{
    if rows == 0 {
        Seq::empty()
    } else {
        let start = (rows - 1) * width;
        image_text(pixels, width, (rows - 1) as nat, style) + row_text(
            pixels.subrange(start as int, start + width),
            style,
        ) + seq!['\n']
    }
}

/// The header of a plain PGM file of a `28` by `28` image whose largest
/// value is `255`.
pub open spec fn pgm_header() -> Seq<char> {
    seq!['P', '2', '\n', '2', '8', ' ', '2', '8', '\n', '2', '5', '5', '\n']
}

/// A new string holding [pgm_header].
pub fn pgm_header_string() -> (r: String)
    ensures
        r@ == pgm_header(),
{
    proof {
        reveal_strlit("P2\n28 28\n255\n");
    }
    let r = String::from_str("P2\n28 28\n255\n");
    assert(r@ =~= pgm_header());
    r
}

fn digit_str(d: usize) -> (r: &'static str)
    requires
        d < 10,
    ensures
        r@ == seq![digit_char(d as nat)],
{
    if d == 0 {
        proof {
            reveal_strlit("0");
        }
        "0"
    } else if d == 1 {
        proof {
            reveal_strlit("1");
        }
        "1"
    } else if d == 2 {
        proof {
            reveal_strlit("2");
        }
        "2"
    } else if d == 3 {
        proof {
            reveal_strlit("3");
        }
        "3"
    } else if d == 4 {
        proof {
            reveal_strlit("4");
        }
        "4"
    } else if d == 5 {
        proof {
            reveal_strlit("5");
        }
        "5"
    } else if d == 6 {
        proof {
            reveal_strlit("6");
        }
        "6"
    } else if d == 7 {
        proof {
            reveal_strlit("7");
        }
        "7"
    } else if d == 8 {
        proof {
            reveal_strlit("8");
        }
        "8"
    } else {
        proof {
            reveal_strlit("9");
        }
        "9"
    }
}

/// Appends `n` in decimal to `out`.
pub fn push_decimal(out: &mut String, n: usize)
    ensures
        final(out)@ == old(out)@ + decimal(n as nat),
    decreases n,
{
    if n >= 10 {
        push_decimal(out, n / 10);
    }
    out.append(digit_str(n % 10));
    assert(final(out)@ =~= old(out)@ + decimal(n as nat));
}

/// Appends a line break to `out`.
pub fn push_line_break(out: &mut String)
    ensures
        final(out)@ == old(out)@.push('\n'),
{
    proof {
        reveal_strlit("\n");
    }
    out.append("\n");
    assert(final(out)@ =~= old(out)@.push('\n'));
}

/// Appends the text of pixel `b` to `out`.
pub fn push_pixel(out: &mut String, b: u8, style: PixelStyle)
    ensures
        final(out)@ == old(out)@ + pixel_text(style, b),
{
    match style {
        PixelStyle::Shade => {
            if b >= DARK_PIXEL {
                proof {
                    reveal_strlit("@");
                }
                out.append("@");
            } else {
                proof {
                    reveal_strlit(".");
                }
                out.append(".");
            }
        },
        PixelStyle::DecimalLine => {
            push_decimal(out, b as usize);
            push_line_break(out);
        },
        PixelStyle::DecimalSpaced => {
            push_decimal(out, b as usize);
            proof {
                reveal_strlit(" ");
            }
            out.append(" ");
        },
    }
    assert(final(out)@ =~= old(out)@ + pixel_text(style, b));
}

/// Appends to `out` the text of the `height` rows of `width` pixels that
/// start at byte `start` of `data`.
pub fn push_image(
    out: &mut String,
    data: &[u8],
    start: usize,
    width: usize,
    height: usize,
    style: PixelStyle,
)
    requires
        start + width * height <= data@.len(),
    ensures
        final(out)@ == old(out)@ + image_text(
            data@.subrange(start as int, start + width * height),
            width as nat,
            height as nat,
            style,
        ),
{
    let ghost pixels = data@.subrange(start as int, start + width * height);
    let ghost base = out@;
    let mut row: usize = 0;
    let mut pos: usize = start;
    while row < height
        invariant
            start + width * height <= data@.len(),
            pixels == data@.subrange(start as int, start + width * height),
            row <= height,
            pos == start + row * width,
            out@ == base + image_text(pixels, width as nat, row as nat, style),
        decreases height - row,
    {
        proof {
            assert(row * width + width <= width * height) by (nonlinear_arith)
                requires
                    row < height,
            ;
        }
        let ghost row_start = out@;
        let mut col: usize = 0;
        while col < width
            invariant
                start + width * height <= data@.len(),
                pixels == data@.subrange(start as int, start + width * height),
                row < height,
                row * width + width <= width * height,
                col <= width,
                pos == start + row * width + col,
                out@ == row_start + row_text(
                    pixels.subrange(row * width, row * width + col),
                    style,
                ),
            decreases width - col,
        {
            let ghost before = out@;
            push_pixel(out, data[pos], style);
            proof {
                let q = pixels.subrange(row * width, row * width + col + 1);
                assert(q.drop_last() =~= pixels.subrange(row * width, row * width + col));
                assert(q.last() == data@[pos as int]);
            }
            col = col + 1;
            pos = pos + 1;
        }
        push_line_break(out);
        proof {
            assert((row + 1) * width == row * width + width) by (nonlinear_arith);
            assert(pixels.subrange(row * width, row * width + col) =~= pixels.subrange(
                row * width,
                row * width + width,
            ));
        }
        row = row + 1;
    }
}

} // verus!
