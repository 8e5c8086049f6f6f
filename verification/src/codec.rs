//! The Code Encoder: turns a guest URL into a square scannable module grid
//! at medium error correction, then serializes the grid as vector path
//! instructions — one unit square per dark module, quantized to integer
//! coordinates, inside a fixed-width quiet border — wrapped in a minimal
//! vector-image document. Pure and deterministic; fails only on text too
//! long to encode.

use vstd::prelude::*;
use vstd::string::StringExecFns;

use crate::text::dec_rep;
use crate::text::dec_u32;
use crate::ticket::Error;

verus! {

#[verifier::external_type_specification]
#[verifier::external_body]
pub struct ExQrCode(qrcodegen::QrCode);

#[verifier::external_type_specification]
#[verifier::external_body]
pub struct ExDataTooLong(qrcodegen::DataTooLong);

/// The module grid of a generated code, row by row; `true` is a dark module.
pub uninterp spec fn qr_grid(qr: qrcodegen::QrCode) -> Seq<Seq<bool>>;

/// The module grid that encoding a text at medium error correction yields;
/// a function of the text alone.
pub uninterp spec fn qr_matrix_of(text: Seq<char>) -> Seq<Seq<bool>>;

/// Whether a text fits some code version at medium error correction; encoding
/// succeeds exactly on these texts, and which they are depends on the text
/// alone.
pub uninterp spec fn qr_fits_medium(text: Seq<char>) -> bool;

/// Square, with the documented side length: 21 to 177 modules, 17 more than
/// a multiple of 4.
pub open spec fn wf_grid(g: Seq<Seq<bool>>) -> bool {
    &&& 21 <= g.len() <= 177
    &&& (g.len() - 17) % 4 == 0
    &&& forall|y: int| 0 <= y < g.len() ==> (#[trigger] g[y]).len() == g.len()
}

/// Relies on qrcodegen::QrCode::encode_text at QrCodeEcc::Medium: on success
/// the grid is the text's code — square, in the documented side range — and
/// is determined by the text alone; the call fails exactly when the text is
/// too long to fit any version at that level, which also depends on the text
/// alone.
#[verifier::external_body]
fn qr_encode_medium(text: &str) -> (r: Result<qrcodegen::QrCode, qrcodegen::DataTooLong>)
    ensures
        match r {
            Ok(qr) => qr_fits_medium(text@) && qr_grid(qr) == qr_matrix_of(text@) && wf_grid(
                qr_grid(qr),
            ),
            Err(_) => !qr_fits_medium(text@),
        },
{
    qrcodegen::QrCode::encode_text(text, qrcodegen::QrCodeEcc::Medium)
}

/// Relies on qrcodegen::QrCode::size: the side length of the module grid,
/// documented to lie in [21, 177].
pub assume_specification[ qrcodegen::QrCode::size ](qr: &qrcodegen::QrCode) -> (r: i32)
    ensures
        r as int == qr_grid(*qr).len() as int,
        21 <= r <= 177,
;

/// Relies on qrcodegen::QrCode::get_module: whether the module at the given
/// coordinates is dark; documented to be false outside the grid.
pub assume_specification[ qrcodegen::QrCode::get_module ](
    qr: &qrcodegen::QrCode,
    x: i32,
    y: i32,
) -> (r: bool)
    ensures
        r == (0 <= x && (x as int) < qr_grid(*qr).len() && 0 <= y && (y as int) < qr_grid(*qr).len()
            && qr_grid(*qr)[y as int][x as int]),
;

/// The widest quiet border for which the view-box width — a side of at most
/// 177 modules plus the border on both sides — still fits an `i32`: half of
/// `i32::MAX - 177`.
pub const MAX_BORDER: i32 = 1073741735;

/// One dark module: a unit square drawn at quantized integer coordinates.
pub open spec fn svg_cell(x: int, y: int) -> Seq<char> {
    "M"@ + dec_rep(x as nat) + ","@ + dec_rep(y as nat) + "h1v1h-1z "@
}

/// The squares of one row, for the columns left of `upto`.
pub open spec fn svg_row(row: Seq<bool>, y: int, border: int, upto: int) -> Seq<char>
    decreases upto,
{
    if upto <= 0 {
        Seq::<char>::empty()
    } else {
        svg_row(row, y, border, upto - 1) + if row[upto - 1] {
            svg_cell(upto - 1 + border, y + border)
        } else {
            Seq::<char>::empty()
        }
    }
}

/// The squares of the rows above `upto`, each row scanned across the grid's
/// full width.
pub open spec fn svg_rows(grid: Seq<Seq<bool>>, border: int, upto: int) -> Seq<char>
    decreases upto,
{
    if upto <= 0 {
        Seq::<char>::empty()
    } else {
        svg_rows(grid, border, upto - 1) + svg_row(
            grid[upto - 1],
            upto - 1,
            border,
            grid.len() as int,
        )
    }
}

/// Everything before the path data: the document opening with the view box
/// sized to grid plus border on both sides, the white backdrop, and the
/// opening of the dark path.
pub open spec fn svg_header(grid: Seq<Seq<bool>>, border: int) -> Seq<char> {
    let width = grid.len() as int + 2 * border;
    "<svg xmlns=\"http://www.w3.org/2000/svg\" version=\"1.1\" viewBox=\"0 0 "@ + dec_rep(
        width as nat,
    ) + " "@ + dec_rep(width as nat) + "\" stroke=\"none\">"@
        + "<rect width=\"100%\" height=\"100%\" fill=\"#FFFFFF\"/>"@ + "<path d=\""@
}

/// The whole vector-image document for a module grid.
pub open spec fn svg_of(grid: Seq<Seq<bool>>, border: int) -> Seq<char> {
    svg_header(grid, border) + svg_rows(grid, border, grid.len() as int)
        + "\" fill=\"#000000\"/></svg>"@
}

/// Serializes a generated code as vector path instructions wrapped in a
/// minimal vector-image document, with a quiet border of the given width.
pub fn to_svg_string(qr: &qrcodegen::QrCode, border: i32) -> (r: String)
    requires
        0 <= border <= MAX_BORDER,
    ensures
        r@ == svg_of(qr_grid(*qr), border as int),
{
    let ghost grid = qr_grid(*qr);
    let dim = qr.size();
    let width = dim + border * 2;
    let mut res = String::from_str(
        "<svg xmlns=\"http://www.w3.org/2000/svg\" version=\"1.1\" viewBox=\"0 0 ",
    );
    let w = dec_u32(width as u32);
    res.append(w.as_str());
    res.append(" ");
    res.append(w.as_str());
    res.append("\" stroke=\"none\">");
    res.append("<rect width=\"100%\" height=\"100%\" fill=\"#FFFFFF\"/>");
    res.append("<path d=\"");
    proof {
        assert(res@ =~= svg_header(grid, border as int) + svg_rows(grid, border as int, 0));
    }
    let mut y: i32 = 0;
    while y < dim
        invariant
            0 <= y <= dim,
            dim as int == grid.len(),
            21 <= dim <= 177,
            0 <= border <= MAX_BORDER,
            grid == qr_grid(*qr),
            res@ == svg_header(grid, border as int) + svg_rows(grid, border as int, y as int),
        decreases dim - y,
    {
        let mut x: i32 = 0;
        while x < dim
            invariant
                0 <= x <= dim,
                0 <= y < dim,
                dim as int == grid.len(),
                21 <= dim <= 177,
                0 <= border <= MAX_BORDER,
                grid == qr_grid(*qr),
                res@ == svg_header(grid, border as int) + svg_rows(grid, border as int, y as int)
                    + svg_row(grid[y as int], y as int, border as int, x as int),
            decreases dim - x,
        {
            if qr.get_module(x, y) {
                res.append("M");
                let xs = dec_u32((x + border) as u32);
                res.append(xs.as_str());
                res.append(",");
                let ys = dec_u32((y + border) as u32);
                res.append(ys.as_str());
                res.append("h1v1h-1z ");
                proof {
                    assert(svg_row(grid[y as int], y as int, border as int, x as int + 1)
                        =~= svg_row(grid[y as int], y as int, border as int, x as int) + svg_cell(
                        x as int + border as int,
                        y as int + border as int,
                    ));
                    assert(res@ =~= svg_header(grid, border as int) + svg_rows(
                        grid,
                        border as int,
                        y as int,
                    ) + svg_row(grid[y as int], y as int, border as int, x as int + 1));
                }
            } else {
                proof {
                    assert(svg_row(grid[y as int], y as int, border as int, x as int + 1)
                        =~= svg_row(grid[y as int], y as int, border as int, x as int));
                }
            }
            x = x + 1;
        }
        proof {
            assert(svg_rows(grid, border as int, y as int + 1) =~= svg_rows(
                grid,
                border as int,
                y as int,
            ) + svg_row(grid[y as int], y as int, border as int, grid.len() as int));
            assert(res@ =~= svg_header(grid, border as int) + svg_rows(
                grid,
                border as int,
                y as int + 1,
            ));
        }
        y = y + 1;
    }
    res.append("\" fill=\"#000000\"/></svg>");
    proof {
        assert(res@ =~= svg_of(grid, border as int));
    }
    res
}

/// Encodes a text — the guest URL — as a scannable code at medium error
/// correction and serializes it with the standard quiet border of 4 modules.
/// Fails exactly when the text is too long to encode at that level; the
/// failure is surfaced, never swallowed.
pub fn encode_qr_svg(text: &str) -> (r: Result<String, Error>)
    ensures
        match r {
            Ok(svg) => qr_fits_medium(text@) && svg@ == svg_of(qr_matrix_of(text@), 4) && wf_grid(
                qr_matrix_of(text@),
            ),
            Err(e) => e == Error::TooLong && !qr_fits_medium(text@),
        },
{
    match qr_encode_medium(text) {
        Ok(qr) => Ok(to_svg_string(&qr, 4)),
        Err(_) => Err(Error::TooLong),
    }
}

} // verus!
