//! The document buffer: lines of text, the cursor, and the viewport offsets
//! that keep the cursor visible.

use vstd::prelude::*;

use crate::clamped;

verus! {

/// Mathematical model of a [`Buffer`]: the document's lines, the cursor
/// `(cx, cy)` (column, row), the viewport offsets `(roff, coff)` and the
/// viewport dimensions `(w, h)`.
pub struct BufferView {
    pub lines: Seq<Seq<char>>,
    pub cx: nat,
    pub cy: nat,
    pub roff: nat,
    pub coff: nat,
    pub w: nat,
    pub h: nat,
}

/// The row offset after re-deriving it for cursor row `cy`: it decreases to
/// `cy` when the cursor lies above the window, and increases just enough to
/// make `cy` the last visible content row when the cursor lies below it
/// (the last of the `h` screen rows is reserved).
pub open spec fn scrolled_roff(roff: nat, cy: nat, h: nat) -> nat
    recommends
        h >= 2,
{
    if cy < roff {
        cy
    } else if cy > roff + (h - 2) {
        (cy - (h - 2)) as nat
    } else {
        roff
    }
}

/// The column offset after re-deriving it for cursor column `cx`, against a
/// window of `w` visible columns.
pub open spec fn scrolled_coff(coff: nat, cx: nat, w: nat) -> nat
    recommends
        w >= 1,
{
    if cx < coff {
        cx
    } else if cx > coff + (w - 1) {
        (cx - (w - 1)) as nat
    } else {
        coff
    }
}

impl BufferView {
    /// Well-formedness: at least one line always exists, the cursor row is a
    /// valid line index, the cursor column is at most the current line's
    /// length (end-of-line is a legal insertion point), the viewport is at
    /// least one column wide and two rows tall, and the cursor lies inside
    /// the viewport window.
    pub open spec fn wf(self) -> bool {
        &&& self.lines.len() >= 1
        &&& self.cy < self.lines.len()
        &&& self.cx <= self.lines[self.cy as int].len()
        &&& self.w >= 1
        &&& self.h >= 2
        &&& self.roff <= self.cy <= self.roff + (self.h - 2)
        &&& self.coff <= self.cx <= self.coff + (self.w - 1)
    }

    /// The view with both viewport offsets re-derived from the cursor.
    pub open spec fn rederived(self) -> BufferView {
        BufferView {
            roff: scrolled_roff(self.roff, self.cy, self.h),
            coff: scrolled_coff(self.coff, self.cx, self.w),
            ..self
        }
    }
}

/// The effect of moving the cursor by the signed deltas `(drow, dcol)`:
/// the row is clamped to the valid line indices, the column is then clamped
/// against the length of the line the cursor lands on, and the viewport
/// offsets are re-derived from the new cursor.
pub open spec fn move_caret_spec(v: BufferView, drow: int, dcol: int) -> BufferView
    recommends
        v.wf(),
{
    let cy2 = clamped(v.cy + drow, 0, v.lines.len() - 1) as nat;
    let cx2 = clamped(v.cx + dcol, 0, v.lines[cy2 as int].len() as int) as nat;
    BufferView { cx: cx2, cy: cy2, ..v }.rederived()
}

/// The effect of inserting `c` at the cursor. A newline splits the current
/// line at the cursor column — the tail becomes a new line directly below —
/// and the cursor moves to column 0 of that new line. Any other character is
/// inserted at the cursor column and the cursor advances one column right.
/// Either way the viewport offsets are re-derived from the new cursor.
pub open spec fn insert_char_spec(v: BufferView, c: char) -> BufferView
    recommends
        v.wf(),
{
    if c == '\n' {
        let head = v.lines[v.cy as int].take(v.cx as int);
        let tail = v.lines[v.cy as int].skip(v.cx as int);
        BufferView {
            lines: v.lines.update(v.cy as int, head).insert(v.cy as int + 1, tail),
            cy: (v.cy + 1) as nat,
            cx: 0,
            ..v
        }.rederived()
    } else {
        BufferView {
            lines: v.lines.update(v.cy as int, v.lines[v.cy as int].insert(v.cx as int, c)),
            cx: (v.cx + 1) as nat,
            ..v
        }.rederived()
    }
}

/// The effect of deleting backward at the cursor. At column 0 of row 0 it is
/// a no-op. At column 0 of a later row it merges the current line onto the
/// end of the previous line, removes the current line, and places the cursor
/// at the join point: the previous line's prior length, one row up. Otherwise
/// it removes the character just before the cursor and moves one column left.
/// Offsets are re-derived whenever the cursor moved.
pub open spec fn backspace_spec(v: BufferView) -> BufferView
    recommends
        v.wf(),
{
    if v.cx == 0 && v.cy == 0 {
        v
    } else if v.cx == 0 {
        let prev = v.lines[v.cy as int - 1];
        let cur = v.lines[v.cy as int];
        BufferView {
            lines: v.lines.update(v.cy as int - 1, prev + cur).remove(v.cy as int),
            cy: (v.cy - 1) as nat,
            cx: prev.len(),
            ..v
        }.rederived()
    } else {
        BufferView {
            lines: v.lines.update(v.cy as int, v.lines[v.cy as int].remove(v.cx as int - 1)),
            cx: (v.cx - 1) as nat,
            ..v
        }.rederived()
    }
}

/// The effect of deleting forward at the cursor. At end-of-line it appends
/// the next line to the current one and removes the next line, unless the
/// cursor is on the last line, where it is a no-op. Otherwise it removes the
/// character at the cursor column. The cursor and offsets never change.
pub open spec fn delete_spec(v: BufferView) -> BufferView
    recommends
        v.wf(),
{
    let cur = v.lines[v.cy as int];
    if v.cx == cur.len() && v.cy + 1 < v.lines.len() {
        BufferView {
            lines: v.lines.update(v.cy as int, cur + v.lines[v.cy as int + 1]).remove(
                v.cy as int + 1,
            ),
            ..v
        }
    } else if v.cx < cur.len() {
        BufferView { lines: v.lines.update(v.cy as int, cur.remove(v.cx as int)), ..v }
    } else {
        v
    }
}

/// The effect of replacing the whole document with `content`: the cursor and
/// both viewport offsets return to the origin, and an empty `content` leaves
/// one empty line so the document is never empty of lines.
pub open spec fn load_spec(v: BufferView, content: Seq<Seq<char>>) -> BufferView {
    let lines = if content.len() == 0 {
        seq![Seq::<char>::empty()]
    } else {
        content
    };
    BufferView { lines, cx: 0, cy: 0, roff: 0, coff: 0, ..v }
}

/// The text painted on screen row `k` of the viewport (so for document row
/// `roff + k`): the window of the document line from `coff` on, at most `w`
/// columns wide, empty when the line ends before `coff`; rows beyond the
/// document's last line show a single filler glyph.
pub open spec fn row_text(v: BufferView, i: int) -> Seq<char> {
    if 0 <= i < v.lines.len() {
        let line = v.lines[i];
        if line.len() < v.coff {
            Seq::empty()
        } else if v.coff + v.w < line.len() {
            line.subrange(v.coff as int, v.coff as int + v.w as int)
        } else {
            line.subrange(v.coff as int, line.len() as int)
        }
    } else {
        seq!['~']
    }
}

/// The viewport-offset derivation is idempotent: deriving the offsets a
/// second time with an unchanged cursor leaves them unchanged.
pub proof fn lemma_rederive_idempotent(v: BufferView)
    requires
        v.w >= 1,
        v.h >= 2,
    ensures
        v.rederived().rederived() == v.rederived(),
{
}

/// Round trip: inserting a newline at any column of any line and immediately
/// deleting backward restores the original lines and the original cursor
/// position.
pub proof fn lemma_split_then_backspace(v: BufferView)
    requires
        v.wf(),
    ensures
        backspace_spec(insert_char_spec(v, '\n')).lines == v.lines,
        backspace_spec(insert_char_spec(v, '\n')).cx == v.cx,
        backspace_spec(insert_char_spec(v, '\n')).cy == v.cy,
{
    let head = v.lines[v.cy as int].take(v.cx as int);
    let tail = v.lines[v.cy as int].skip(v.cx as int);
    let v1 = insert_char_spec(v, '\n');
    assert(v1.lines[v.cy as int] =~= head);
    assert(v1.lines[v.cy as int + 1] =~= tail);
    assert(head + tail =~= v.lines[v.cy as int]);
    assert(backspace_spec(v1).lines =~~= v.lines);
}

/// Dual round trip: deleting forward at the end of any non-last line joins
/// the two lines, and inserting a newline at that same position restores the
/// original two-line split.
pub proof fn lemma_join_then_split(v: BufferView)
    requires
        v.wf(),
        v.cx == v.lines[v.cy as int].len(),
        v.cy + 1 < v.lines.len(),
    ensures
        insert_char_spec(delete_spec(v), '\n').lines == v.lines,
{
    let cur = v.lines[v.cy as int];
    let next = v.lines[v.cy as int + 1];
    let v1 = delete_spec(v);
    assert(v1.lines[v.cy as int] =~= cur + next);
    assert((cur + next).take(v.cx as int) =~= cur);
    assert((cur + next).skip(v.cx as int) =~= next);
    assert(insert_char_spec(v1, '\n').lines =~~= v.lines);
}

/// A text buffer: the document as a non-empty sequence of lines of
/// characters, the cursor position within it, and the viewport offsets
/// derived from the cursor.
pub struct Buffer {
    roff: usize,
    coff: usize,
    cx: usize,
    cy: usize,
    w: usize,
    h: usize,
    lines: Vec<Vec<char>>,
}

impl View for Buffer {
    type V = BufferView;

    closed spec fn view(&self) -> BufferView {
        BufferView {
            lines: self.lines.deep_view(),
            cx: self.cx as nat,
            cy: self.cy as nat,
            roff: self.roff as nat,
            coff: self.coff as nat,
            w: self.w as nat,
            h: self.h as nat,
        }
    }
}

impl Buffer {
    /// A fresh buffer for a viewport of `w` columns and `h` rows: one empty
    /// line, cursor and offsets at the origin.
    pub fn new(w: usize, h: usize) -> (b: Buffer)
        requires
            w >= 1,
            h >= 2,
        ensures
            b@.wf(),
            b@.lines == seq![Seq::<char>::empty()],
            b@.cx == 0 && b@.cy == 0 && b@.roff == 0 && b@.coff == 0,
            b@.w == w && b@.h == h,
    {
        let mut lines: Vec<Vec<char>> = Vec::new();
        lines.push(Vec::new());
        let b = Buffer { roff: 0, coff: 0, cx: 0, cy: 0, w, h, lines };
        proof {
            assert(b@.lines =~~= seq![Seq::<char>::empty()]);
        }
        b
    }

    /// Re-derives both viewport offsets from the current cursor position.
    fn scroll(&mut self)
        requires
            old(self).w >= 1,
            old(self).h >= 2,
        ensures
            final(self)@ == old(self)@.rederived(),
    {
        if self.cy < self.roff {
            self.roff = self.cy;
        } else if self.cy - self.roff > self.h - 2 {
            self.roff = self.cy - (self.h - 2);
        }
        if self.cx < self.coff {
            self.coff = self.cx;
        } else if self.cx - self.coff > self.w - 1 {
            self.coff = self.cx - (self.w - 1);
        }
    }

    /// Moves the cursor by the signed deltas, clamping the row to
    /// `[0, lines.len() - 1]` and the column to `[0, line length]` of the
    /// row the cursor lands on, then re-derives the viewport offsets.
    /// Out-of-range requests degrade to the nearest legal position.
    pub fn move_caret(&mut self, row: i32, col: i32)
        requires
            old(self)@.wf(),
        ensures
            final(self)@ == move_caret_spec(old(self)@, row as int, col as int),
            final(self)@.wf(),
    {
        let last = self.lines.len() - 1;
        if row >= 0 {
            let d = row as usize;
            if d >= last - self.cy {
                self.cy = last;
            } else {
                self.cy = self.cy + d;
            }
        } else {
            let d = (-(row as i64)) as usize;
            if d >= self.cy {
                self.cy = 0;
            } else {
                self.cy = self.cy - d;
            }
        }
        let line_len = self.lines[self.cy].len();
        if col >= 0 {
            let d = col as usize;
            if self.cx >= line_len || d >= line_len - self.cx {
                self.cx = line_len;
            } else {
                self.cx = self.cx + d;
            }
        } else {
            let d = (-(col as i64)) as usize;
            if d >= self.cx {
                self.cx = 0;
            } else if self.cx - d > line_len {
                self.cx = line_len;
            } else {
                self.cx = self.cx - d;
            }
        }
        self.scroll();
    }

    /// Inserts `c` at the cursor: a newline splits the current line at the
    /// cursor column and moves the cursor to the start of the new line below;
    /// any other character is inserted in place and the cursor advances one
    /// column. The size bounds only keep lengths within the machine word.
    pub fn push(&mut self, c: char)
        requires
            old(self)@.wf(),
            c == '\n' ==> old(self)@.lines.len() < usize::MAX,
            c != '\n' ==> old(self)@.lines[old(self)@.cy as int].len() < usize::MAX,
        ensures
            final(self)@ == insert_char_spec(old(self)@, c),
            final(self)@.wf(),
    {
        let ghost v = self@;
        if c == '\n' {
            let mut line = self.lines.remove(self.cy);
            let tail = line.split_off(self.cx);
            self.lines.insert(self.cy, line);
            self.lines.insert(self.cy + 1, tail);
            self.cy = self.cy + 1;
            self.cx = 0;
            proof {
                let head = v.lines[v.cy as int].take(v.cx as int);
                let tl = v.lines[v.cy as int].skip(v.cx as int);
                assert(self@.lines =~~= v.lines.update(v.cy as int, head).insert(
                    v.cy as int + 1,
                    tl,
                ));
            }
            self.scroll();
        } else {
            let mut line = self.lines.remove(self.cy);
            line.insert(self.cx, c);
            self.lines.insert(self.cy, line);
            self.cx = self.cx + 1;
            proof {
                assert(self@.lines =~~= v.lines.update(
                    v.cy as int,
                    v.lines[v.cy as int].insert(v.cx as int, c),
                ));
            }
            self.scroll();
        }
    }

    /// Deletes backward at the cursor: a no-op at the very start of the
    /// document; at column 0 elsewhere it joins the current line onto the end
    /// of the previous one and puts the cursor at the join point; otherwise
    /// it removes the character before the cursor.
    pub fn backspace(&mut self)
        requires
            old(self)@.wf(),
        ensures
            final(self)@ == backspace_spec(old(self)@),
            final(self)@.wf(),
    {
        let ghost v = self@;
        if self.cx == 0 && self.cy != 0 {
            let mut cur = self.lines.remove(self.cy);
            let mut prev = self.lines.remove(self.cy - 1);
            self.cy = self.cy - 1;
            self.cx = prev.len();
            prev.append(&mut cur);
            self.lines.insert(self.cy, prev);
            proof {
                let p = v.lines[v.cy as int - 1];
                let c = v.lines[v.cy as int];
                assert(self@.lines =~~= v.lines.update(v.cy as int - 1, p + c).remove(
                    v.cy as int,
                ));
            }
            self.scroll();
        } else if self.cx != 0 {
            let mut line = self.lines.remove(self.cy);
            line.remove(self.cx - 1);
            self.lines.insert(self.cy, line);
            self.cx = self.cx - 1;
            proof {
                assert(self@.lines =~~= v.lines.update(
                    v.cy as int,
                    v.lines[v.cy as int].remove(v.cx as int - 1),
                ));
            }
            self.scroll();
        }
    }

    /// Deletes forward at the cursor: at end-of-line it joins the next line
    /// onto the current one (a no-op on the last line); otherwise it removes
    /// the character at the cursor column. The cursor does not move.
    pub fn delete(&mut self)
        requires
            old(self)@.wf(),
        ensures
            final(self)@ == delete_spec(old(self)@),
            final(self)@.wf(),
    {
        let ghost v = self@;
        let line_len = self.lines[self.cy].len();
        if self.cx == line_len && self.cy != self.lines.len() - 1 {
            let mut next = self.lines.remove(self.cy + 1);
            let mut cur = self.lines.remove(self.cy);
            cur.append(&mut next);
            self.lines.insert(self.cy, cur);
            proof {
                let c = v.lines[v.cy as int];
                let n = v.lines[v.cy as int + 1];
                assert(self@.lines =~~= v.lines.update(v.cy as int, c + n).remove(
                    v.cy as int + 1,
                ));
            }
        } else if self.cx != line_len {
            let mut line = self.lines.remove(self.cy);
            line.remove(self.cx);
            self.lines.insert(self.cy, line);
            proof {
                assert(self@.lines =~~= v.lines.update(
                    v.cy as int,
                    v.lines[v.cy as int].remove(v.cx as int),
                ));
            }
        }
    }

    /// Replaces the whole document with `content` and resets the cursor and
    /// viewport offsets to the origin. An empty `content` leaves one empty
    /// line, so the document invariant is kept even for an empty file.
    pub fn load(&mut self, content: Vec<Vec<char>>)
        requires
            old(self)@.wf(),
        ensures
            final(self)@ == load_spec(old(self)@, content.deep_view()),
            final(self)@.wf(),
    {
        if content.len() == 0 {
            let mut one: Vec<Vec<char>> = Vec::new();
            one.push(Vec::new());
            self.lines = one;
            proof {
                assert(self@.lines =~~= seq![Seq::<char>::empty()]);
            }
        } else {
            self.lines = content;
        }
        self.cx = 0;
        self.cy = 0;
        self.roff = 0;
        self.coff = 0;
    }

    /// The text to paint on each of the `h - 1` content rows of the screen:
    /// row `k` shows the viewport's window onto document row `roff + k`, and
    /// rows beyond the document show the filler glyph. The bound in the
    /// precondition only keeps the last row index within the machine word.
    pub fn visible_rows(&self) -> (rows: Vec<Vec<char>>)
        requires
            self@.wf(),
            self@.roff + self@.h <= usize::MAX,
        ensures
            rows.deep_view().len() == self@.h - 1,
            forall|k: int|
                0 <= k < self@.h - 1 ==> rows.deep_view()[k] == row_text(self@, self@.roff + k),
    {
        let mut rows: Vec<Vec<char>> = Vec::new();
        let count = self.h - 1;
        let mut k: usize = 0;
        while k < count
            invariant
                self@.wf(),
                self@.roff + self@.h <= usize::MAX,
                count == self@.h - 1,
                k <= count,
                rows.deep_view().len() == k,
                forall|m: int| 0 <= m < k ==> rows.deep_view()[m] == row_text(self@, self@.roff + m),
            decreases count - k,
        {
            let i = self.roff + k;
            let mut row: Vec<char> = Vec::new();
            if i < self.lines.len() {
                let line = &self.lines[i];
                if line.len() >= self.coff {
                    let end = if line.len() - self.coff > self.w {
                        self.coff + self.w
                    } else {
                        line.len()
                    };
                    let mut j = self.coff;
                    while j < end
                        invariant
                            i < self.lines@.len(),
                            self@.coff <= j <= end <= self@.lines[i as int].len(),
                            line@ == self.lines@[i as int]@,
                            row@ =~= self@.lines[i as int].subrange(self@.coff as int, j as int),
                        decreases end - j,
                    {
                        row.push(line[j]);
                        j = j + 1;
                    }
                }
                proof {
                    assert(row.deep_view() =~= row_text(self@, i as int));
                }
            } else {
                row.push('~');
                proof {
                    assert(row.deep_view() =~= row_text(self@, i as int));
                }
            }
            let ghost prev = rows;
            rows.push(row);
            proof {
                assert forall|m: int|
                    0 <= m <= k implies rows.deep_view()[m] == row_text(
                    self@,
                    self@.roff + m,
                ) by {
                    if m < k {
                        assert(rows.deep_view()[m] == prev.deep_view()[m]);
                    } else {
                        assert(rows.deep_view()[m] == row.deep_view());
                    }
                }
            }
            k = k + 1;
        }
        rows
    }

    /// The cursor's column.
    pub fn cx(&self) -> (r: usize)
        ensures
            r == self@.cx,
    {
        self.cx
    }

    /// The cursor's row.
    pub fn cy(&self) -> (r: usize)
        ensures
            r == self@.cy,
    {
        self.cy
    }

    /// The viewport's row offset: the document row shown on the top screen row.
    pub fn roff(&self) -> (r: usize)
        ensures
            r == self@.roff,
    {
        self.roff
    }

    /// The viewport's column offset: the document column shown in the leftmost
    /// screen column.
    pub fn coff(&self) -> (r: usize)
        ensures
            r == self@.coff,
    {
        self.coff
    }

    /// The viewport's width in columns.
    pub fn width(&self) -> (r: usize)
        ensures
            r == self@.w,
    {
        self.w
    }

    /// The viewport's height in rows.
    pub fn height(&self) -> (r: usize)
        ensures
            r == self@.h,
    {
        self.h
    }

    /// How many lines the document holds.
    pub fn line_count(&self) -> (r: usize)
        ensures
            r == self@.lines.len(),
    {
        self.lines.len()
    }

    /// The length of line `i`.
    pub fn line_len(&self, i: usize) -> (r: usize)
        requires
            i < self@.lines.len(),
        ensures
            r == self@.lines[i as int].len(),
    {
        self.lines[i].len()
    }

    /// A copy of line `i`'s characters.
    pub fn line_chars(&self, i: usize) -> (r: Vec<char>)
        requires
            i < self@.lines.len(),
        ensures
            r@ == self@.lines[i as int],
    {
        let line = &self.lines[i];
        let mut out: Vec<char> = Vec::new();
        let mut j: usize = 0;
        while j < line.len()
            invariant
                i < self.lines@.len(),
                j <= line@.len(),
                line@ == self.lines@[i as int]@,
                out@ =~= self@.lines[i as int].subrange(0, j as int),
            decreases line@.len() - j,
        {
            out.push(line[j]);
            j = j + 1;
        }
        proof {
            assert(out@ =~= self@.lines[i as int]);
        }
        out
    }
}

} // verus!
