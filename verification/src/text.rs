use vstd::prelude::*;

verus! {

/// Columns of the text screen.
pub const WIDTH: u8 = 80;

/// Rows of the text screen.
pub const HEIGHT: u8 = 24;

/// One 16-bit cell of the text buffer to set: `offset` counts cells from the
/// start of the buffer, `value` holds the byte and its colours.
#[derive(Clone, Copy, Debug, PartialEq, Eq, Structural)]
pub struct CellWrite {
    pub offset: usize,
    pub value: u16,
}

/// The cell value for byte `b` in foreground colour `fg` on background `bg`:
/// the byte in the low 8 bits, the low 4 bits of `fg` above it, then the low
/// 4 bits of `bg`.
pub open spec fn cell_value(b: u8, fg: u8, bg: u8) -> u16 {
    (b + 256 * (fg % 16 + 16 * (bg % 16))) as u16
}

/// A row index that has run past the bottom goes back to the top.
pub open spec fn wrap_row(row: int) -> u8 {
    if row >= HEIGHT {
        0
    } else {
        row as u8
    }
}

/// The cursor after printing byte `b` at `cursor` (row, column), and the cell
/// written if any. A newline moves to the start of the next row; any other
/// byte is written at the cursor, which then moves right, to the next row at
/// the end of a row. Past the last row the cursor goes back to the first.
pub open spec fn put_spec(cursor: (u8, u8), b: u8, fg: u8, bg: u8) -> ((u8, u8), Option<CellWrite>) {
    let (row, column) = cursor;
    if b == 10 {
        ((wrap_row(row + 1), 0), None)
    } else {
        let cell = CellWrite { offset: (WIDTH * row + column) as usize, value: cell_value(b, fg, bg) };
        if column + 1 >= WIDTH {
            ((wrap_row(row + 1), 0), Some(cell))
        } else {
            ((row, (column + 1) as u8), Some(cell))
        }
    }
}

/// The cells written by a step, as a sequence.
pub open spec fn writes_of(w: Option<CellWrite>) -> Seq<CellWrite> {
    match w {
        Some(c) => seq![c],
        None => Seq::empty(),
    }
}

/// The cursor after printing the bytes `s` from `cursor`, and the cells
/// written, in order.
pub open spec fn write_spec(cursor: (u8, u8), s: Seq<u8>, fg: u8, bg: u8) -> ((u8, u8), Seq<CellWrite>)
    decreases s.len(),
{
    if s.len() == 0 {
        (cursor, Seq::empty())
    } else {
        let (c1, w1) = write_spec(cursor, s.drop_last(), fg, bg);
        let (c2, w) = put_spec(c1, s.last(), fg, bg);
        (c2, w1 + writes_of(w))
    }
}

/// The cursor is on the screen.
pub open spec fn on_screen(cursor: (u8, u8)) -> bool {
    cursor.0 < HEIGHT && cursor.1 < WIDTH
}

/// The ASCII character of digit `d`: '0' to '9', then 'a' to 'z'.
pub open spec fn digit_char(d: nat) -> u8 {
    if d < 10 {
        (48 + d) as u8
    } else {
        (87 + d) as u8
    }
}

/// The digits of `m` in base `base`, most significant first, without leading zeros.
pub open spec fn digits(m: nat, base: nat) -> Seq<u8>
    decreases m,
{
    if base < 2 || m < base {
        seq![digit_char(m)]
    } else {
        proof {
            lemma_div_decreases(m, base);
        }
        digits(m / base, base).push(digit_char(m % base))
    }
}

/// Dividing by a base of at least 2 makes a number no smaller than the base smaller.
pub proof fn lemma_div_decreases(m: nat, base: nat)
    requires
        base >= 2,
        m >= base,
    ensures
        m / base < m,
{
    assert(m / base < m) by (nonlinear_arith)
        requires
            base >= 2,
            m >= base,
    ;
}

/// How `n` is printed in base `base`: a '-' for a negative number, then the
/// digits of its magnitude.
pub open spec fn format_spec(n: int, base: nat) -> Seq<u8> {
    if n < 0 {
        seq![45u8] + digits((-n) as nat, base)
    } else {
        digits(n as nat, base)
    }
}

fn digit(d: u8) -> (r: u8)
    requires
        d < 36,
    ensures
        r == digit_char(d as nat),
{
    if d < 10 {
        48 + d
    } else {
        87 + d
    }
}

/// The characters of `n` in base `base`.
pub fn format_num(n: i128, base: u8) -> (r: Vec<u8>)
    requires
        2 <= base <= 36,
    ensures
        r@ == format_spec(n as int, base as nat),
{
    let negative = n < 0;
    let magnitude: u128 = if negative {
        (-(n + 1)) as u128 + 1
    } else {
        n as u128
    };
    let ghost mag = magnitude as nat;
    let b = base as u128;
    let mut m = magnitude;
    let mut out: Vec<u8> = Vec::new();
    loop
        invariant_except_break
            b == base,
            2 <= base <= 36,
            digits(mag, b as nat) == digits(m as nat, b as nat) + out@,
        ensures
            digits(mag, b as nat) == out@,
        decreases m,
    {
        let d = (m % b) as u8;
        let ghost old_out = out@;
        out.insert(0, digit(d));
        if m < b {
            assert(m % b == m) by (nonlinear_arith)
                requires
                    m < b,
            ;
            assert(out@ =~= seq![digit_char(m as nat)] + old_out);
            break;
        }
        proof {
            lemma_div_decreases(m as nat, b as nat);
            assert(digits(m as nat, b as nat) == digits((m / b) as nat, b as nat).push(digit_char((m % b) as nat)));
            assert(digits((m / b) as nat, b as nat).push(digit_char((m % b) as nat)) + old_out
                =~= digits((m / b) as nat, b as nat) + out@);
        }
        m = m / b;
    }
    if negative {
        out.insert(0, 45);
        assert(out@ =~= seq![45u8] + digits(mag, base as nat));
    }
    out
}

/// Printing a byte from a cursor on the screen leaves the cursor on the
/// screen, and any cell it writes lies inside the text buffer.
pub proof fn law_put_on_screen(cursor: (u8, u8), b: u8, fg: u8, bg: u8)
    requires
        on_screen(cursor),
    ensures
        on_screen(put_spec(cursor, b, fg, bg).0),
        put_spec(cursor, b, fg, bg).1 matches Some(c) ==> c.offset < WIDTH * HEIGHT,
{
    let (row, column) = cursor;
    assert(WIDTH * row + column < WIDTH * HEIGHT) by (nonlinear_arith)
        requires
            row < HEIGHT,
            column < WIDTH,
    ;
}

/// Printing any bytes from a cursor on the screen leaves the cursor on the
/// screen, and every cell written lies inside the text buffer.
pub proof fn law_write_on_screen(cursor: (u8, u8), s: Seq<u8>, fg: u8, bg: u8)
    requires
        on_screen(cursor),
    ensures
        on_screen(write_spec(cursor, s, fg, bg).0),
        forall|i: int| 0 <= i < write_spec(cursor, s, fg, bg).1.len()
            ==> #[trigger] write_spec(cursor, s, fg, bg).1[i].offset < WIDTH * HEIGHT,
    decreases s.len(),
{
    if s.len() > 0 {
        law_write_on_screen(cursor, s.drop_last(), fg, bg);
        let (c1, w1) = write_spec(cursor, s.drop_last(), fg, bg);
        law_put_on_screen(c1, s.last(), fg, bg);
        let w = write_spec(cursor, s, fg, bg).1;
        assert forall|i: int| 0 <= i < w.len() implies #[trigger] w[i].offset < WIDTH * HEIGHT by {
            if i >= w1.len() {
                assert(w[i] == writes_of(put_spec(c1, s.last(), fg, bg).1)[i - w1.len()]);
            }
        }
    }
}

/// Printing `s1` and then `s2` is printing `s1 + s2`: the same cursor at the
/// end, and the cells of the first followed by those of the second.
pub proof fn law_write_concat(cursor: (u8, u8), s1: Seq<u8>, s2: Seq<u8>, fg: u8, bg: u8)
    ensures
        ({
            let (c1, w1) = write_spec(cursor, s1, fg, bg);
            let (c2, w2) = write_spec(c1, s2, fg, bg);
            write_spec(cursor, s1 + s2, fg, bg) == (c2, w1 + w2)
        }),
    decreases s2.len(),
{
    let (c1, w1) = write_spec(cursor, s1, fg, bg);
    if s2.len() == 0 {
        assert(s1 + s2 =~= s1);
        assert(w1 + Seq::<CellWrite>::empty() =~= w1);
    } else {
        law_write_concat(cursor, s1, s2.drop_last(), fg, bg);
        assert((s1 + s2).drop_last() =~= s1 + s2.drop_last());
        assert((s1 + s2).last() == s2.last());
        let (c3, w3) = write_spec(c1, s2.drop_last(), fg, bg);
        let (c4, w) = put_spec(c3, s2.last(), fg, bg);
        assert(w1 + w3 + writes_of(w) =~= w1 + (w3 + writes_of(w)));
    }
}

/// The value of digit character `c`: the inverse of `digit_char`.
pub open spec fn digit_value(c: u8) -> int {
    if c < 87 {
        c - 48
    } else {
        c - 87
    }
}

/// The number that the digit characters `s` stand for in base `base`.
pub open spec fn digits_value(s: Seq<u8>, base: nat) -> int
    decreases s.len(),
{
    if s.len() == 0 {
        0
    } else {
        digits_value(s.drop_last(), base) * base + digit_value(s.last())
    }
}

/// The digits of `m` stand for `m`, each digit is less than the base, and
/// there is no leading zero.
pub proof fn law_digits_value(m: nat, base: nat)
    requires
        2 <= base <= 36,
    ensures
        digits_value(digits(m, base), base) == m,
        forall|i: int| 0 <= i < digits(m, base).len()
            ==> 0 <= #[trigger] digit_value(digits(m, base)[i]) < base,
        digits(m, base)[0] == digit_char(0) ==> m == 0,
    decreases m,
{
    if m < base {
        let d = digits(m, base);
        assert(d.drop_last() =~= Seq::<u8>::empty());
        assert(digit_value(d.last()) == m);
        assert(digits_value(d.drop_last(), base) == 0);
        assert(digits_value(d, base) == 0 * base + m);
    } else {
        lemma_div_decreases(m, base);
        law_digits_value(m / base, base);
        vstd::arithmetic::div_mod::lemma_fundamental_div_mod(m as int, base as int);
        assert(m / base >= 1) by (nonlinear_arith)
            requires
                m >= base,
                base >= 2,
        ;
        let d = digits(m, base);
        let q = digits(m / base, base);
        assert(d.drop_last() =~= q);
        assert(m % base < base) by (nonlinear_arith)
            requires
                base >= 2,
        ;
        assert forall|i: int| 0 <= i < d.len() implies 0 <= #[trigger] digit_value(d[i]) < base by {
            if i < q.len() {
                assert(d[i] == q[i]);
            }
        }
        assert(d[0] == q[0]);
        assert(m == base * (m / base) + m % base);
        assert(d.last() == digit_char((m % base) as nat));
        assert(digit_value(d.last()) == m % base);
        assert(digits_value(d, base) == digits_value(q, base) * base + (m % base) as int);
        assert(digits_value(q, base) * base == base * (m / base)) by (nonlinear_arith)
            requires
                digits_value(q, base) == m / base,
        ;
    }
}

/// What `format_num` prints stands for `n`: a '-' exactly when `n` is
/// negative, then the digits of its magnitude.
pub proof fn law_format_value(n: int, base: nat)
    requires
        2 <= base <= 36,
    ensures
        format_spec(n, base).len() >= 1,
        (format_spec(n, base)[0] == 45u8) <==> n < 0,
        n < 0 ==> digits_value(format_spec(n, base).drop_first(), base) == -n,
        n >= 0 ==> digits_value(format_spec(n, base), base) == n,
{
    if n < 0 {
        law_digits_value((-n) as nat, base);
        assert(format_spec(n, base).drop_first() =~= digits((-n) as nat, base));
    } else {
        law_digits_value(n as nat, base);
        let d = digits(n as nat, base);
        assert(0 <= digit_value(d[0]) < base);
    }
}

/// Each digit is the character at its place in "0123456789abcdefghijklmnopqrstuvwxyz":
/// '0' plus the digit below ten, 'a' plus the digit less ten from ten on.
pub proof fn law_digit_char(d: nat)
    requires
        d < 36,
    ensures
        d < 10 ==> digit_char(d) == ('0' as u8) + d,
        d >= 10 ==> digit_char(d) == ('a' as u8) + (d - 10),
{
}

/// `c` is one of the characters that stand for a digit below `base`:
/// '0' to '9', then 'a' to 'z'.
pub open spec fn is_digit_char(c: u8, base: nat) -> bool {
    ||| ('0' as u8) <= c && c <= ('9' as u8) && c - ('0' as u8) < base
    ||| ('a' as u8) <= c && c <= ('z' as u8) && c - ('a' as u8) + 10 < base
}

/// Every character of the digits of `m` stands for a digit below the base.
pub proof fn law_digits_chars(m: nat, base: nat)
    requires
        2 <= base <= 36,
    ensures
        forall|i: int| 0 <= i < digits(m, base).len() ==> is_digit_char(#[trigger] digits(m, base)[i], base),
    decreases m,
{
    if m >= base {
        lemma_div_decreases(m, base);
        law_digits_chars(m / base, base);
        assert(m % base < base) by (nonlinear_arith)
            requires
                base >= 2,
        ;
        let d = digits(m, base);
        let q = digits(m / base, base);
        assert forall|i: int| 0 <= i < d.len() implies is_digit_char(#[trigger] d[i], base) by {
            if i < q.len() {
                assert(d[i] == q[i]);
            }
        }
    }
}

/// A printed number is a '-' exactly when it is negative, followed by
/// characters that each stand for a digit below the base: nothing but '-',
/// '0' to '9' and 'a' to 'z'.
pub proof fn law_format_chars(n: int, base: nat)
    requires
        2 <= base <= 36,
    ensures
        forall|i: int| 0 <= i < format_spec(n, base).len() && !(n < 0 && i == 0)
            ==> is_digit_char(#[trigger] format_spec(n, base)[i], base),
        n < 0 ==> format_spec(n, base)[0] == '-' as u8,
{
    if n < 0 {
        law_digits_chars((-n) as nat, base);
        let f = format_spec(n, base);
        let d = digits((-n) as nat, base);
        assert forall|i: int| 0 <= i < f.len() && !(n < 0 && i == 0) implies is_digit_char(#[trigger] f[i], base) by {
            assert(f[i] == d[i - 1]);
        }
    } else {
        law_digits_chars(n as nat, base);
    }
}

/// A cell holds the byte in its low 8 bits, the foreground colour in the next
/// 4 and the background colour in the top 4.
pub proof fn law_cell_value(b: u8, fg: u8, bg: u8)
    ensures
        cell_value(b, fg, bg) % 256 == b,
        (cell_value(b, fg, bg) / 256) % 16 == fg % 16,
        cell_value(b, fg, bg) / 4096 == bg % 16,
{
}

/// Printing a byte from a cursor on the screen: a newline writes no cell and
/// moves to column 0 of the next row, the top row coming after the last; any
/// other byte, a space as much as a letter, writes exactly one cell, at the
/// cursor, holding that byte in the given colours, and moves one column
/// right, or to column 0 of the next row from the last column.
pub proof fn law_put_byte(cursor: (u8, u8), b: u8, fg: u8, bg: u8)
    requires
        on_screen(cursor),
    ensures
        b == '\n' as u8 ==> put_spec(cursor, b, fg, bg).1 is None,
        b == '\n' as u8 ==> put_spec(cursor, b, fg, bg).0 == (((cursor.0 + 1) % HEIGHT as int) as u8, 0u8),
        b != '\n' as u8 ==> put_spec(cursor, b, fg, bg).1 == Some(
            CellWrite { offset: (cursor.0 * WIDTH + cursor.1) as usize, value: cell_value(b, fg, bg) },
        ),
        b != '\n' as u8 && cursor.1 + 1 < WIDTH ==> put_spec(cursor, b, fg, bg).0 == (cursor.0, (cursor.1 + 1) as u8),
        b != '\n' as u8 && cursor.1 + 1 == WIDTH ==> put_spec(cursor, b, fg, bg).0
            == (((cursor.0 + 1) % HEIGHT as int) as u8, 0u8),
{
}

/// The bytes of `s` that put a character on the screen: all but the newlines.
pub open spec fn shown(s: Seq<u8>) -> Seq<u8>
    decreases s.len(),
{
    if s.len() == 0 {
        s
    } else if s.last() == '\n' as u8 {
        shown(s.drop_last())
    } else {
        shown(s.drop_last()).push(s.last())
    }
}

/// Printing bytes writes one cell for each byte that is not a newline, in
/// order, each holding that byte in the given colours.
pub proof fn law_write_cells(cursor: (u8, u8), s: Seq<u8>, fg: u8, bg: u8)
    requires
        on_screen(cursor),
    ensures
        write_spec(cursor, s, fg, bg).1.len() == shown(s).len(),
        forall|i: int| 0 <= i < shown(s).len()
            ==> (#[trigger] write_spec(cursor, s, fg, bg).1[i]).value == cell_value(shown(s)[i], fg, bg),
    decreases s.len(),
{
    if s.len() > 0 {
        law_write_cells(cursor, s.drop_last(), fg, bg);
        law_write_on_screen(cursor, s.drop_last(), fg, bg);
        let (c1, w1) = write_spec(cursor, s.drop_last(), fg, bg);
        law_put_byte(c1, s.last(), fg, bg);
        let w = write_spec(cursor, s, fg, bg).1;
        let sh = shown(s);
        let sh1 = shown(s.drop_last());
        assert forall|i: int| 0 <= i < sh.len() implies (#[trigger] w[i]).value == cell_value(sh[i], fg, bg) by {
            if i < sh1.len() {
                assert(w[i] == w1[i]);
                assert(sh[i] == sh1[i]);
            }
        }
    }
}

/// `k` newlines.
pub open spec fn newlines(k: nat) -> Seq<u8> {
    Seq::new(k, |i: int| '\n' as u8)
}

/// `k` newlines from column 0 of a row move the cursor `k` rows down, the top
/// row coming after the last: so `HEIGHT` newlines come back to the same row.
pub proof fn law_newlines(cursor: (u8, u8), k: nat, fg: u8, bg: u8)
    requires
        on_screen(cursor),
        cursor.1 == 0,
    ensures
        write_spec(cursor, newlines(k), fg, bg) == ((((cursor.0 + k) % HEIGHT as int) as u8, 0u8), Seq::<CellWrite>::empty()),
        k == HEIGHT ==> write_spec(cursor, newlines(k), fg, bg).0 == cursor,
    decreases k,
{
    if k > 0 {
        law_newlines(cursor, (k - 1) as nat, fg, bg);
        assert(newlines(k).drop_last() =~= newlines((k - 1) as nat));
        let c1 = (((cursor.0 + k - 1) % HEIGHT as int) as u8, 0u8);
        law_put_byte(c1, '\n' as u8, fg, bg);
        assert(((cursor.0 + k - 1) % 24 + 1) % 24 == (cursor.0 + k) % 24) by (nonlinear_arith);
        assert(Seq::<CellWrite>::empty() + writes_of(None) =~= Seq::<CellWrite>::empty());
    }
}

/// The rejected base of a number to print.
#[derive(Debug, PartialEq, Eq, Structural)]
pub struct InvalidBase;

/// A VGA text-mode writer: the cursor position on a screen of `WIDTH` by
/// `HEIGHT` cells. Printing gives the cells to set in the text buffer.
pub struct Text {
    row: u8,
    column: u8,
}

impl View for Text {
    type V = (u8, u8);

    closed spec fn view(&self) -> (u8, u8) {
        (self.row, self.column)
    }
}

impl Text {
    #[verifier::type_invariant]
    spec fn inv(self) -> bool {
        self.row < HEIGHT && self.column < WIDTH
    }

    /// A writer with the cursor at the top left.
    pub fn new() -> (r: Self)
        ensures
            r@ == (0u8, 0u8),
    {
        Text { row: 0, column: 0 }
    }

    /// The cursor, (row, column); it is always on the screen.
    pub fn cursor(&self) -> (r: (u8, u8))
        ensures
            r == self@,
            on_screen(r),
    {
        proof {
            use_type_invariant(self);
        }
        (self.row, self.column)
    }

    /// The cell value for byte `b` in colours `fg` on `bg`.
    pub fn cell(b: u8, fg: u8, bg: u8) -> (r: u16)
        ensures
            r == cell_value(b, fg, bg),
    {
        let attr: u8 = fg & 0xf | bg << 4;
        let v: u16 = b as u16 | (attr as u16) << 8;
        assert(v == (b + 256 * (fg % 16 + 16 * (bg % 16))) as u16) by (bit_vector)
            requires
                attr == fg & 0xf | bg << 4,
                v == b as u16 | (attr as u16) << 8,
        ;
        v
    }

    /// Print one byte, returning the cell to set, if any.
    pub fn put_byte(&mut self, b: u8, fg: u8, bg: u8) -> (r: Option<CellWrite>)
        ensures
            (final(self)@, r) == put_spec(old(self)@, b, fg, bg),
            on_screen(final(self)@),
            r matches Some(c) ==> c.offset < WIDTH * HEIGHT,
    {
        proof {
            use_type_invariant(&*self);
            law_put_on_screen(self@, b, fg, bg);
        }
        let mut row = self.row;
        let mut column = self.column;
        let mut written = None;
        if b == 10 {
            column = 0;
            row = row + 1;
        } else {
            assert(WIDTH * row + column < 1920) by (nonlinear_arith)
                requires
                    row < HEIGHT,
                    column < WIDTH,
            ;
            let offset = WIDTH as usize * row as usize + column as usize;
            written = Some(CellWrite { offset, value: Self::cell(b, fg, bg) });
            column = column + 1;
            if column >= WIDTH {
                column = 0;
                row = row + 1;
            }
        }
        if row >= HEIGHT {
            row = 0;
        }
        self.row = row;
        self.column = column;
        written
    }

    /// Print the number `n` in base `base`, for a base from 2 to 35; any
    /// other base is rejected with `InvalidBase` and nothing is printed.
    pub fn write_num(&mut self, n: i128, base: u8, fg: u8, bg: u8) -> (r: Result<Vec<CellWrite>, InvalidBase>)
        requires
            !(base == 2 && n == i128::MIN),
        ensures
            r is Err <==> !(2 <= base < 36),
            r is Err ==> final(self)@ == old(self)@,
            r matches Ok(w) ==> (final(self)@, w@) == write_spec(old(self)@, format_spec(n as int, base as nat), fg, bg),
            r matches Ok(w) ==> forall|i: int| 0 <= i < w@.len() ==> #[trigger] w@[i].offset < WIDTH * HEIGHT,
    {
        if !(2 <= base && base < 36) {
            return Err(InvalidBase);
        }
        let chars = format_num(n, base);
        Ok(self.write_str(chars.as_slice(), fg, bg))
    }

    /// Print the bytes of `s`, returning the cells to set, in order.
    pub fn write_str(&mut self, s: &[u8], fg: u8, bg: u8) -> (r: Vec<CellWrite>)
        ensures
            (final(self)@, r@) == write_spec(old(self)@, s@, fg, bg),
            on_screen(final(self)@),
            forall|i: int| 0 <= i < r@.len() ==> #[trigger] r@[i].offset < WIDTH * HEIGHT,
    {
        proof {
            use_type_invariant(&*self);
            law_write_on_screen(self@, s@, fg, bg);
        }
        let mut writes: Vec<CellWrite> = Vec::new();
        let mut i: usize = 0;
        while i < s.len()
            invariant
                i <= s.len(),
                (self@, writes@) == write_spec(old(self)@, s@.subrange(0, i as int), fg, bg),
            decreases s.len() - i,
        {
            let ghost before = writes@;
            let w = self.put_byte(s[i], fg, bg);
            match w {
                Some(c) => writes.push(c),
                None => {},
            }
            proof {
                let t = s@.subrange(0, i + 1);
                assert(t.drop_last() =~= s@.subrange(0, i as int));
                assert(t.last() == s@[i as int]);
                assert(writes@ =~= before + writes_of(w));
            }
            i = i + 1;
        }
        assert(s@.subrange(0, s.len() as int) =~= s@);
        proof {
            let ghost all = write_spec(old(self)@, s@, fg, bg).1;
            assert forall|i: int| 0 <= i < writes@.len() implies #[trigger] writes@[i].offset < WIDTH * HEIGHT by {
                assert(writes@[i] == all[i]);
            }
        }
        writes
    }
}

} // verus!
