use vstd::prelude::*;

verus! {

/// The text-art glyph of one cell: a full block for a true cell, a space
/// for a false one.
pub open spec fn glyph(cell: bool) -> char {
    if cell {
        '\u{2588}'
    } else {
        ' '
    }
}

/// One row of text art: one glyph per cell, then a terminating newline.
pub open spec fn rendered(row: Seq<bool>) -> Seq<char> {
    Seq::new(
        row.len() + 1,
        |i: int|
            if i < row.len() {
                glyph(row[i])
            } else {
                '\n'
            },
    )
}

/// Relies on `String::push`: appends the character to the end of the string.
#[verifier::external_body]
fn push_char(s: &mut String, c: char)
    ensures
        final(s)@ == old(s)@.push(c),
{
    s.push(c);
}

/// Renders one row as a line of text art: one full block per true cell, one
/// space per false cell, and a final newline.
pub fn render_row(row: &Vec<bool>) -> (r: String)
    ensures
        r@ == rendered(row@),
{
    let len = row.len();
    let mut s = String::new();
    let mut i: usize = 0;
    while i < len
        invariant
            i <= len,
            len == row@.len(),
            s@.len() == i,
            forall|j: int| 0 <= j < i ==> s@[j] == glyph(row@[j]),
        decreases len - i,
    {
        if row[i] {
            push_char(&mut s, '\u{2588}');
        } else {
            push_char(&mut s, ' ');
        }
        i = i + 1;
    }
    push_char(&mut s, '\n');
    proof {
        assert(s@ =~= rendered(row@));
    }
    s
}

/// The bit contribution of cell `k`: 1 for a true cell, 0 for a false cell
/// or for an index past the end of the row (padding).
pub open spec fn bit_at(row: Seq<bool>, k: int) -> u8 {
    if 0 <= k < row.len() && row[k] {
        1
    } else {
        0
    }
}

/// Byte `i` of the packed form of `row`: cells `8i .. 8i + 8`, most
/// significant bit first, zero-padded past the end of the row.
pub open spec fn packed_byte(row: Seq<bool>, i: int) -> u8 {
    (128 * bit_at(row, 8 * i) + 64 * bit_at(row, 8 * i + 1) + 32 * bit_at(row, 8 * i + 2) + 16
        * bit_at(row, 8 * i + 3) + 8 * bit_at(row, 8 * i + 4) + 4 * bit_at(row, 8 * i + 5) + 2
        * bit_at(row, 8 * i + 6) + bit_at(row, 8 * i + 7)) as u8
}

/// The number of bytes needed to pack `n` cells: `n / 8`, rounded up.
pub open spec fn packed_len(n: nat) -> nat {
    (n + 7) / 8
}

/// Packs a row of cells into bytes for a 1-bit-per-pixel image: eight cells
/// per byte, most significant bit first, the last byte zero-padded.
pub fn pack_row(row: &Vec<bool>) -> (r: Vec<u8>)
    ensures
        r@.len() == packed_len(row@.len()),
        forall|i: int| 0 <= i < r@.len() ==> r@[i] == packed_byte(row@, i),
{
    let len = row.len();
    let nbytes = len / 8 + (if len % 8 != 0 {
        1
    } else {
        0
    });
    let mut out: Vec<u8> = Vec::new();
    let mut i: usize = 0;
    while i < nbytes
        invariant
            i <= nbytes,
            len == row@.len(),
            nbytes == packed_len(len as nat),
            8 * nbytes <= len + 7,
            out@.len() == i,
            forall|j: int| 0 <= j < i ==> out@[j] == packed_byte(row@, j),
        decreases nbytes - i,
    {
        let base = 8 * i;
        let rem = len - base;
        let mut val: u8 = 0;
        if row[base] {
            val = val + 128;
        }
        if rem > 1 && row[base + 1] {
            val = val + 64;
        }
        if rem > 2 && row[base + 2] {
            val = val + 32;
        }
        if rem > 3 && row[base + 3] {
            val = val + 16;
        }
        if rem > 4 && row[base + 4] {
            val = val + 8;
        }
        if rem > 5 && row[base + 5] {
            val = val + 4;
        }
        if rem > 6 && row[base + 6] {
            val = val + 2;
        }
        if rem > 7 && row[base + 7] {
            val = val + 1;
        }
        assert(val == packed_byte(row@, i as int));
        out.push(val);
        i = i + 1;
    }
    out
}

} // verus!
