//! The application icon: of the images of an ICO file, the tray and the
//! settings window take the widest one.
use vstd::prelude::*;

verus! {

/// What `ico::IconDir::read` makes of the bytes of an ICO file, as the width of
/// each of its entries (`IconDirEntry::width`); `None` when the file is refused.
pub uninterp spec fn ico_widths(bytes: Seq<u8>) -> Option<Seq<u32>>;

/// What `IconDirEntry::decode` gives for entry `index` of the ICO file read by
/// `ico::IconDir::read`: the RGBA pixels, the width and the height; `None` when
/// the file is refused, there is no such entry, or it does not decode.
pub uninterp spec fn ico_image(bytes: Seq<u8>, index: nat) -> Option<(Seq<u8>, u32, u32)>;

/// The pixels of a decoded icon image, in RGBA order, row by row.
#[derive(Debug, Clone)]
pub struct IconPixels {
    pub rgba: Vec<u8>,
    pub width: u32,
    pub height: u32,
}

/// The little-endian 16-bit number at `at`.
pub open spec fn le16(b: Seq<u8>, at: int) -> nat {
    (b[at] + 256 * b[at + 1]) as nat
}

/// The little-endian 32-bit number at `at`.
pub open spec fn le32(b: Seq<u8>, at: int) -> nat {
    le16(b, at) + 65536 * le16(b, at + 2)
}

/// Whether an image's bytes start with the PNG signature that `ico` tests.
pub open spec fn is_png_data(d: Seq<u8>) -> bool {
    d.len() >= 4 && d[0] == 0x89 && d[1] == 0x50 && d[2] == 0x4e && d[3] == 0x47
}

/// The colour depth of a BMP, from byte 14 of its header.
pub open spec fn bmp_depth(d: Seq<u8>) -> nat {
    le16(d, 14)
}

/// The width of a BMP, from byte 4 of its header.
pub open spec fn bmp_width(d: Seq<u8>) -> nat {
    le32(d, 4)
}

/// The number of pixel rows of a BMP: its header (byte 8) counts the rows of
/// the colours and of the mask together.
pub open spec fn bmp_rows(d: Seq<u8>) -> nat {
    le32(d, 8) / 2
}

/// Whether the `ico` decoder reads a BMP header without refusing it: a 40-byte
/// header, a width and a doubled height that are positive 32-bit signed numbers,
/// the height even, a supported depth, and at most 8192 * 8192 pixels.
pub open spec fn bmp_header_accepted(d: Seq<u8>) -> bool {
    &&& d.len() >= 40
    &&& le32(d, 0) == 40
    &&& 1 <= bmp_width(d) < 0x8000_0000
    &&& 2 <= le32(d, 8) < 0x8000_0000
    &&& le32(d, 8) % 2 == 0
    &&& (bmp_depth(d) == 1 || bmp_depth(d) == 4 || bmp_depth(d) == 8 || bmp_depth(d) == 16
        || bmp_depth(d) == 24 || bmp_depth(d) == 32)
    &&& bmp_width(d) * bmp_rows(d) <= 8192 * 8192
}

/// The number of colours the decoder reads into the colour table of a BMP of
/// `depth` that declares `used` colours: all the depth can index when `used` is
/// 0 or too large, else `used`. Depths above 8 have no table.
pub open spec fn bmp_table_len(depth: nat, used: nat) -> nat {
    let max: nat = if depth == 1 {
        2
    } else if depth == 4 {
        16
    } else if depth == 8 {
        256
    } else {
        0
    };
    if used == 0 || used > max {
        max
    } else {
        used
    }
}

/// The number of bytes of one row of pixels of a palette BMP, padded to a
/// multiple of four.
pub open spec fn bmp_row_stride(width: nat, depth: nat) -> nat {
    let data: nat = if depth == 1 {
        (width + 7) / 8
    } else if depth == 4 {
        (4 * width + 7) / 8
    } else {
        width
    };
    (data + 3) / 4 * 4
}

/// The byte, within its row, that holds pixel `c` of a palette BMP.
pub open spec fn bmp_pixel_byte(depth: nat, c: int) -> int {
    if depth == 1 {
        c / 8
    } else if depth == 4 {
        c / 2
    } else {
        c
    }
}

/// Where pixel `c` of row `r` (in the order the rows are stored) lies in the
/// bytes of a palette BMP: after the header and the colour table, `r` rows on.
pub open spec fn bmp_pixel_offset(d: Seq<u8>, r: int, c: int) -> int {
    40 + 4 * bmp_table_len(bmp_depth(d), le32(d, 32)) + r * bmp_row_stride(bmp_width(d), bmp_depth(d))
        + bmp_pixel_byte(bmp_depth(d), c)
}

/// The colour-table index of pixel `c`, taken from byte `b`, as the decoder
/// takes it: a bit, from the high bit down, at depth 1; a nibble, the high
/// one first, at depth 4; the byte at depth 8.
pub open spec fn bmp_pixel_value(b: u8, depth: nat, c: int) -> u8 {
    if depth == 1 {
        (b >> ((7 - c % 8) as u8)) & 1u8
    } else if depth == 4 {
        (b >> ((4 * (1 - c % 2)) as u8)) & 0xfu8
    } else {
        b
    }
}

/// Whether pixel `c` of row `r` gives no index beyond the colour table, or its
/// byte lies beyond the data (the decoder then fails before it looks it up).
pub open spec fn bmp_pixel_in_table(d: Seq<u8>, r: int, c: int) -> bool {
    let off = bmp_pixel_offset(d, r, c);
    off < d.len() ==> bmp_pixel_value(d[off], bmp_depth(d), c) < bmp_table_len(
        bmp_depth(d),
        le32(d, 32),
    )
}

/// Whether `IconDirEntry::decode` returns, rather than panics, on these image
/// bytes. The BMP decoder looks each pixel of depth 1, 4 or 8 up in its colour
/// table without a bounds check, and reads the pixels in order, failing at the
/// first byte beyond the data; so it panics exactly when it accepts the header
/// and some pixel whose byte lies within the data indexes past the table.
pub open spec fn image_decodes_safely(d: Seq<u8>) -> bool {
    ||| is_png_data(d)
    ||| !bmp_header_accepted(d)
    ||| !(bmp_depth(d) == 1 || bmp_depth(d) == 4 || bmp_depth(d) == 8)
    ||| forall|r: int, c: int|
        0 <= r < bmp_rows(d) && 0 <= c < bmp_width(d) ==> #[trigger] bmp_pixel_in_table(d, r, c)
}

/// Whether decoding entry `index` of the ICO file `bytes` returns rather than
/// panics. The file starts with three 16-bit numbers, the third the number of
/// entries; entry `i` is described by 16 bytes at `6 + 16 * i`, whose bytes 8
/// and 12 give the size and the offset of its image. When the entry does not
/// exist, or its description or image lies beyond the file, `IconDir::read`
/// fails or no entry is decoded.
pub open spec fn entry_decodes_safely(bytes: Seq<u8>, index: nat) -> bool {
    let r: int = 6 + 16 * index as int;
    if bytes.len() < 6 || index >= le16(bytes, 4) || bytes.len() < r + 16 {
        true
    } else {
        let size = le32(bytes, r + 8);
        let offset = le32(bytes, r + 12);
        if offset + size > bytes.len() {
            true
        } else {
            image_decodes_safely(bytes.subrange(offset as int, (offset + size) as int))
        }
    }
}

fn read_le16(b: &[u8], at: usize) -> (v: u64)
    requires
        at + 2 <= b@.len(),
    ensures
        v == le16(b@, at as int),
{
    b[at] as u64 + 256 * (b[at + 1] as u64)
}

fn read_le32(b: &[u8], at: usize) -> (v: u64)
    requires
        at + 4 <= b@.len(),
    ensures
        v == le32(b@, at as int),
{
    let n: usize = b.len();
    proof {
        assert(at + 2 < n);
    }
    read_le16(b, at) + 65536 * read_le16(b, at + 2)
}

/// The colour-table index of pixel `c` in byte `b` (see `bmp_pixel_value`).
fn pixel_value(b: u8, depth: u64, c: u64) -> (v: u8)
    requires
        depth == 1 || depth == 4 || depth == 8,
    ensures
        v == bmp_pixel_value(b, depth as nat, c as int),
{
    if depth == 1 {
        let shift: u8 = (7 - c % 8) as u8;
        (b >> shift) & 1u8
    } else if depth == 4 {
        let shift: u8 = (4 * (1 - c % 2)) as u8;
        (b >> shift) & 0xfu8
    } else {
        b
    }
}

/// Whether `IconDirEntry::decode` returns rather than panics on these image bytes.
pub fn image_is_decodable(d: &[u8]) -> (b: bool)
    ensures
        b == image_decodes_safely(d@),
{
    let n: usize = d.len();
    if n >= 4 && d[0] == 0x89 && d[1] == 0x50 && d[2] == 0x4e && d[3] == 0x47 {
        return true;
    }
    if n < 40 {
        return true;
    }
    let header: u64 = read_le32(d, 0);
    let w: u64 = read_le32(d, 4);
    let doubled: u64 = read_le32(d, 8);
    let depth: u64 = read_le16(d, 14);
    let used: u64 = read_le32(d, 32);
    if header != 40 || w < 1 || w >= 0x8000_0000 || doubled < 2 || doubled >= 0x8000_0000
        || doubled % 2 != 0 {
        return true;
    }
    if !(depth == 1 || depth == 4 || depth == 8 || depth == 16 || depth == 24 || depth == 32) {
        return true;
    }
    let h: u64 = doubled / 2;
    assert(w * h < 0x8000_0000 * 0x8000_0000) by (nonlinear_arith)
        requires
            w < 0x8000_0000,
            h < 0x8000_0000,
    ;
    if w * h > 8192 * 8192 {
        return true;
    }
    if !(depth == 1 || depth == 4 || depth == 8) {
        return true;
    }
    let max: u64 = if depth == 1 {
        2
    } else if depth == 4 {
        16
    } else {
        256
    };
    let table: u64 = if used == 0 || used > max {
        max
    } else {
        used
    };
    let data: u64 = if depth == 1 {
        (w + 7) / 8
    } else if depth == 4 {
        (4 * w + 7) / 8
    } else {
        w
    };
    let stride: u64 = (data + 3) / 4 * 4;
    let base: u64 = 40 + 4 * table;
    let ghost s = d@;
    assert(!is_png_data(s));
    assert(table == bmp_table_len(bmp_depth(s), le32(s, 32)));
    assert(stride == bmp_row_stride(bmp_width(s), bmp_depth(s)));
    assert(h == bmp_rows(s));
    assert(bmp_header_accepted(s));
    let mut r: u64 = 0;
    let mut row_start: u64 = base;
    while r < h
        invariant
            s == d@,
            n == s.len(),
            !is_png_data(s),
            bmp_header_accepted(s),
            depth == bmp_depth(s),
            depth == 1 || depth == 4 || depth == 8,
            w == bmp_width(s),
            h == bmp_rows(s),
            w * h <= 8192 * 8192,
            table == bmp_table_len(bmp_depth(s), le32(s, 32)),
            stride == bmp_row_stride(bmp_width(s), bmp_depth(s)),
            stride <= w + 3,
            base == 40 + 4 * table,
            table <= 256,
            r <= h,
            row_start == base + r * stride,
            forall|rr: int, c: int|
                0 <= rr < r && 0 <= c < w ==> #[trigger] bmp_pixel_in_table(s, rr, c),
        decreases h - r,
    {
        assert(r * stride <= h * (w + 3)) by (nonlinear_arith)
            requires
                r <= h,
                stride <= w + 3,
        ;
        assert(h * (w + 3) == w * h + 3 * h) by (nonlinear_arith);
        let mut c: u64 = 0;
        while c < w
            invariant
                s == d@,
                n == s.len(),
                !is_png_data(s),
                bmp_header_accepted(s),
                h == bmp_rows(s),
                r < h,
                depth == bmp_depth(s),
                depth == 1 || depth == 4 || depth == 8,
                w == bmp_width(s),
                table == bmp_table_len(bmp_depth(s), le32(s, 32)),
                stride == bmp_row_stride(bmp_width(s), bmp_depth(s)),
                base == 40 + 4 * table,
                row_start == base + r * stride,
                row_start < 0x1_0000_0000_0000,
                w < 0x8000_0000,
                c <= w,
                forall|cc: int| 0 <= cc < c ==> #[trigger] bmp_pixel_in_table(s, r as int, cc),
            decreases w - c,
        {
            let byte_in_row: u64 = if depth == 1 {
                c / 8
            } else if depth == 4 {
                c / 2
            } else {
                c
            };
            let off: u64 = row_start + byte_in_row;
            assert(off == bmp_pixel_offset(s, r as int, c as int));
            if off < n as u64 {
                let v: u8 = pixel_value(d[off as usize], depth, c);
                if v as u64 >= table {
                    assert(!bmp_pixel_in_table(s, r as int, c as int));
                    return false;
                }
            }
            assert(bmp_pixel_in_table(s, r as int, c as int));
            c = c + 1;
        }
        assert((r + 1) * stride == r * stride + stride) by (nonlinear_arith);
        row_start = row_start + stride;
        r = r + 1;
    }
    true
}

/// Whether decoding entry `index` of the ICO file `bytes` returns rather than panics.
pub fn entry_is_decodable(bytes: &[u8], index: usize) -> (b: bool)
    ensures
        b == entry_decodes_safely(bytes@, index as nat),
{
    let n: usize = bytes.len();
    if n < 6 || index as u64 >= read_le16(bytes, 4) {
        return true;
    }
    // `index` is below a 16-bit count here, so the arithmetic stays small.
    let r: usize = 6 + 16 * index;
    if n < r + 16 {
        return true;
    }
    let size: u64 = read_le32(bytes, r + 8);
    let offset: u64 = read_le32(bytes, r + 12);
    if offset + size > n as u64 {
        return true;
    }
    let start: usize = offset as usize;
    let end: usize = (offset + size) as usize;
    image_is_decodable(vstd::slice::slice_subrange(bytes, start, end))
}

/// Reads an ICO file with `ico::IconDir::read` and gives the width of each
/// entry. The contract names the result; it claims nothing else of it.
#[verifier::external_body]
fn entry_widths(bytes: &[u8]) -> (r: Option<Vec<u32>>)
    ensures
        r.deep_view() == ico_widths(bytes@),
{
    let dir = match ico::IconDir::read(std::io::Cursor::new(bytes)) {
        Ok(dir) => dir,
        Err(_) => return None,
    };
    let mut widths = Vec::new();
    for entry in dir.entries() {
        widths.push(entry.width());
    }
    Some(widths)
}

/// Reads an ICO file with `ico::IconDir::read` and decodes entry `index` with
/// `IconDirEntry::decode`. The contract names the result, and claims one fact
/// that the crate's source shows: `decode` refuses an image whose width differs
/// from the width of its entry. It admits only entries that decode without a
/// panic: the BMP decoder panics on a pixel value beyond a partial colour table.
#[verifier::external_body]
fn entry_image(bytes: &[u8], index: usize) -> (r: Option<IconPixels>)
    requires
        entry_decodes_safely(bytes@, index as nat),
    ensures
        r matches Some(p) ==> ico_image(bytes@, index as nat) == Some(
            (p.rgba@, p.width, p.height),
        ),
        r is None ==> ico_image(bytes@, index as nat) is None,
        r matches Some(p) ==> (ico_widths(bytes@) matches Some(ws) && index < ws.len()
            && ws[index as int] == p.width),
{
    let dir = match ico::IconDir::read(std::io::Cursor::new(bytes)) {
        Ok(dir) => dir,
        Err(_) => return None,
    };
    let image = match dir.entries().get(index) {
        Some(entry) => entry.decode(),
        None => return None,
    };
    match image {
        Ok(image) => Some(IconPixels { width: image.width(), height: image.height(), rgba: image.into_rgba_data() }),
        Err(_) => None,
    }
}

/// The index of the widest entry; of several equally wide, the last one, as
/// `Iterator::max_by_key` picks.
pub open spec fn widest(ws: Seq<u32>) -> int
    decreases ws.len(),
{
    if ws.len() <= 1 {
        0
    } else {
        let k: int = widest(ws.drop_last());
        if ws.last() >= ws[k] {
            ws.len() - 1
        } else {
            k
        }
    }
}

proof fn lemma_widest_is_last_maximum(ws: Seq<u32>)
    requires
        ws.len() > 0,
    ensures
        0 <= widest(ws) < ws.len(),
        forall|j: int| 0 <= j < ws.len() ==> #[trigger] ws[j] <= ws[widest(ws)],
        forall|j: int| widest(ws) < j < ws.len() ==> #[trigger] ws[j] < ws[widest(ws)],
    decreases ws.len(),
{
    if ws.len() > 1 {
        let prev = ws.drop_last();
        lemma_widest_is_last_maximum(prev);
        let k: int = widest(prev);
        assert forall|j: int| 0 <= j < prev.len() implies prev[j] == ws[j] by {}
        if ws.last() >= ws[k] {
            assert forall|j: int| 0 <= j < ws.len() implies #[trigger] ws[j] <= ws[widest(ws)] by {
                if j < prev.len() {
                    assert(prev[j] <= prev[k]);
                }
            }
        } else {
            assert forall|j: int| 0 <= j < ws.len() implies #[trigger] ws[j] <= ws[widest(ws)] by {
                if j < prev.len() {
                    assert(prev[j] <= prev[k]);
                }
            }
            assert forall|j: int| widest(ws) < j < ws.len() implies #[trigger] ws[j] < ws[widest(
                ws,
            )] by {
                if j < prev.len() {
                    assert(prev[j] < prev[k]);
                }
            }
        }
    }
}

/// The index of the widest of the widths `ws`, the last of several equally wide.
pub fn widest_entry(ws: &Vec<u32>) -> (i: Option<usize>)
    ensures
        ws@.len() == 0 <==> i is None,
        i matches Some(k) ==> k == widest(ws@),
        i matches Some(k) ==> (forall|j: int| 0 <= j < ws@.len() ==> #[trigger] ws@[j] <= ws@[k as int])
            && (forall|j: int| k < j < ws@.len() ==> #[trigger] ws@[j] < ws@[k as int]),
{
    if ws.len() == 0 {
        return None;
    }
    let mut best: usize = 0;
    let mut i: usize = 1;
    while i < ws.len()
        invariant
            1 <= i <= ws@.len(),
            best as int == widest(ws@.subrange(0, i as int)),
        decreases ws@.len() - i,
    {
        proof {
            let next = ws@.subrange(0, i + 1);
            assert(next.drop_last() =~= ws@.subrange(0, i as int));
            lemma_widest_is_last_maximum(ws@.subrange(0, i as int));
        }
        if ws[i] >= ws[best] {
            best = i;
        }
        i = i + 1;
    }
    proof {
        assert(ws@.subrange(0, ws@.len() as int) =~= ws@);
        lemma_widest_is_last_maximum(ws@);
    }
    Some(best)
}

/// Whether the widest entry of the ICO file `bytes` decodes without a panic
/// (a file that is refused, or has no entry, decodes nothing).
pub open spec fn widest_decodes_safely(bytes: Seq<u8>) -> bool {
    match ico_widths(bytes) {
        Some(ws) => ws.len() == 0 || entry_decodes_safely(bytes, widest(ws) as nat),
        None => true,
    }
}

/// The widest image of an ICO file, decoded; `None` when the file is refused,
/// has no entry, or its widest entry does not decode.
pub fn widest_icon(bytes: &[u8]) -> (r: Option<IconPixels>)
    requires
        widest_decodes_safely(bytes@),
    ensures
        r is None <==> match ico_widths(bytes@) {
            None => true,
            Some(ws) => ws.len() == 0 || ico_image(bytes@, widest(ws) as nat) is None,
        },
        r matches Some(p) ==> ico_widths(bytes@) matches Some(ws) && ico_image(
            bytes@,
            widest(ws) as nat,
        ) == Some((p.rgba@, p.width, p.height)) && (forall|j: int|
            0 <= j < ws.len() ==> #[trigger] ws[j] <= p.width),
{
    let ws = match entry_widths(bytes) {
        Some(ws) => ws,
        None => return None,
    };
    proof {
        assert(ws.deep_view() =~= ws@);
    }
    match widest_entry(&ws) {
        Some(k) => entry_image(bytes, k),
        None => None,
    }
}

/// Whether the widest entry of the ICO file `bytes` decodes without a panic.
pub fn widest_is_decodable(bytes: &[u8]) -> (b: bool)
    ensures
        b == widest_decodes_safely(bytes@),
{
    let ws = match entry_widths(bytes) {
        Some(ws) => ws,
        None => return true,
    };
    proof {
        assert(ws.deep_view() =~= ws@);
    }
    match widest_entry(&ws) {
        Some(k) => entry_is_decodable(bytes, k),
        None => true,
    }
}

/// The widest image of an ICO file, decoded, when its widest entry decodes
/// without a panic; `None` when it would not, and otherwise as `widest_icon`.
pub fn checked_widest_icon(bytes: &[u8]) -> (r: Option<IconPixels>)
    ensures
        !widest_decodes_safely(bytes@) ==> r is None,
        widest_decodes_safely(bytes@) ==> (r is None <==> match ico_widths(bytes@) {
            None => true,
            Some(ws) => ws.len() == 0 || ico_image(bytes@, widest(ws) as nat) is None,
        }),
        r matches Some(p) ==> ico_widths(bytes@) matches Some(ws) && ico_image(
            bytes@,
            widest(ws) as nat,
        ) == Some((p.rgba@, p.width, p.height)),
{
    if widest_is_decodable(bytes) {
        widest_icon(bytes)
    } else {
        None
    }
}

} // verus!
