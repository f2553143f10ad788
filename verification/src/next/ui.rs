use vstd::prelude::*;

use crate::mode::{HeaderInfo, Output, ReadLine};
use crate::next::mode::SelectMenu;
use crate::text::{lines, lines_spec, views};

verus! {

/// The colors the screens use.
#[derive(PartialEq, Eq, Structural, Clone, Copy, Debug)]
pub enum Color {
    Black,
    White,
    DarkYellow,
    DarkRed,
    DarkGrey,
    Yellow,
    Blue,
    Green,
    Red,
}

/// One terminal command of a drawing: move, set a color, print, clear.
pub enum DrawOp {
    MoveTo(u16, u16),
    SetBackground(Color),
    SetForeground(Color),
    Print(String),
    ClearUntilNewLine,
    ClearFromCursorDown,
    MoveToColumn(u16),
    MoveLeft(u16),
    MoveToNextLine,
    ResetColor,
}

/// A terminal command as values.
pub enum OpView {
    MoveTo(u16, u16),
    SetBackground(Color),
    SetForeground(Color),
    Print(Seq<char>),
    ClearUntilNewLine,
    ClearFromCursorDown,
    MoveToColumn(u16),
    MoveLeft(u16),
    MoveToNextLine,
    ResetColor,
}

/// A terminal command as values.
pub open spec fn op_view(op: DrawOp) -> OpView {
    match op {
        DrawOp::MoveTo(x, y) => OpView::MoveTo(x, y),
        DrawOp::SetBackground(c) => OpView::SetBackground(c),
        DrawOp::SetForeground(c) => OpView::SetForeground(c),
        DrawOp::Print(s) => OpView::Print(s@),
        DrawOp::ClearUntilNewLine => OpView::ClearUntilNewLine,
        DrawOp::ClearFromCursorDown => OpView::ClearFromCursorDown,
        DrawOp::MoveToColumn(x) => OpView::MoveToColumn(x),
        DrawOp::MoveLeft(n) => OpView::MoveLeft(n),
        DrawOp::MoveToNextLine => OpView::MoveToNextLine,
        DrawOp::ResetColor => OpView::ResetColor,
    }
}

/// The commands as values.
pub open spec fn ops_view(ops: Seq<DrawOp>) -> Seq<OpView> {
    ops.map_values(|op: DrawOp| op_view(op))
}

/// What draws a screen: the commands so far and the size of the viewport.
pub struct Drawer {
    pub ops: Vec<DrawOp>,
    pub viewport_size: (u16, u16),
}

/// A list entry that draws itself.
pub trait Draw {
    /// The commands that draw the entry on a viewport `width` columns wide.
    spec fn drawn(&self, width: u16) -> Seq<OpView>;

    /// Draws the entry.
    fn draw(&self, drawer: &mut Drawer)
        ensures
            ops_view(final(drawer).ops@) == ops_view(old(drawer).ops@) + self.drawn(old(drawer).viewport_size.0),
            final(drawer).viewport_size == old(drawer).viewport_size;
}

/// The header: the screen's name between a space and the dots of a spinner (none when the
/// screen does not wait) at the right end.
pub open spec fn header_ops(name: Seq<char>, waiting: bool, spinner_state: u8) -> Seq<OpView> {
    let dots = if waiting {
        spinner_state % 4
    } else {
        0
    };
    seq![
        OpView::MoveTo(0, 0),
        OpView::SetBackground(Color::DarkYellow),
        OpView::SetForeground(Color::Black),
        OpView::Print(seq![' ']),
        OpView::SetBackground(Color::Black),
        OpView::SetForeground(Color::DarkYellow),
        OpView::Print(seq![' ']),
        OpView::Print(name),
        OpView::Print(seq![' ']),
        OpView::SetBackground(Color::DarkYellow),
        OpView::ClearUntilNewLine,
        OpView::MoveToColumn(0xffff),
        OpView::MoveLeft(4),
        OpView::Print(Seq::new(dots as nat, |i: int| '.')),
        OpView::MoveToNextLine,
        OpView::ResetColor,
    ]
}

/// A line printed, cleared to its end, and the move to the next one.
pub open spec fn line_ops(line: Seq<char>) -> Seq<OpView> {
    seq![OpView::Print(line), OpView::ClearUntilNewLine, OpView::MoveToNextLine]
}

/// The lines printed one after the other.
pub open spec fn lines_ops(ls: Seq<Seq<char>>) -> Seq<OpView>
    decreases ls.len(),
{
    if ls.len() == 0 {
        seq![]
    } else {
        lines_ops(ls.drop_last()) + line_ops(ls.last())
    }
}

/// The entries of a list from `start`, at most `count` of them, the one at `cursor` on gray,
/// on a viewport `width` columns wide.
pub open spec fn menu_ops<E: Draw>(es: Seq<E>, start: int, count: int, cursor: int, width: u16) -> Seq<OpView>
    decreases count,
{
    if count <= 0 || start < 0 || start >= es.len() {
        seq![]
    } else {
        let hovered = start == cursor;
        (if hovered {
            seq![OpView::SetBackground(Color::DarkGrey)]
        } else {
            seq![]
        }) + es[start].drawn(width) + seq![OpView::ClearUntilNewLine, OpView::MoveToNextLine] + (if hovered {
            seq![OpView::SetBackground(Color::Black)]
        } else {
            seq![]
        }) + menu_ops(es, start + 1, count - 1, cursor, width)
    }
}

impl Drawer {
    /// A drawer with no commands yet.
    pub fn new(viewport_size: (u16, u16)) -> (res: Drawer)
        ensures
            res.ops@.len() == 0,
            res.viewport_size == viewport_size,
    {
        Drawer { ops: Vec::new(), viewport_size }
    }

    /// Appends a command.
    fn op(&mut self, op: DrawOp)
        ensures
            ops_view(final(self).ops@) == ops_view(old(self).ops@).push(op_view(op)),
            final(self).viewport_size == old(self).viewport_size,
    {
        self.ops.push(op);
        assert(ops_view(self.ops@) == ops_view(old(self).ops@).push(op_view(op)));
    }

    /// Sets the foreground color.
    pub fn color(&mut self, color: Color)
        ensures
            ops_view(final(self).ops@) == ops_view(old(self).ops@).push(OpView::SetForeground(color)),
            final(self).viewport_size == old(self).viewport_size,
    {
        self.op(DrawOp::SetForeground(color));
    }

    /// Prints a text.
    pub fn write(&mut self, text: &str)
        ensures
            ops_view(final(self).ops@) == ops_view(old(self).ops@).push(OpView::Print(text@)),
            final(self).viewport_size == old(self).viewport_size,
    {
        self.op(DrawOp::Print(text.to_owned()));
    }

    /// Prints a space.
    fn space(&mut self)
        ensures
            ops_view(final(self).ops@) == ops_view(old(self).ops@).push(OpView::Print(seq![' '])),
            final(self).viewport_size == old(self).viewport_size,
    {
        proof {
            reveal_strlit(" ");
        }
        assert(" "@ =~= seq![' ']);
        self.write(" ");
    }

    /// Clears the rest of the line and moves to the next one.
    pub fn next_line(&mut self)
        ensures
            ops_view(final(self).ops@) == ops_view(old(self).ops@) + seq![OpView::ClearUntilNewLine, OpView::MoveToNextLine],
            final(self).viewport_size == old(self).viewport_size,
    {
        self.op(DrawOp::ClearUntilNewLine);
        self.op(DrawOp::MoveToNextLine);
    }

    /// Clears the screen below, on black.
    pub fn clear_to_bottom(&mut self)
        ensures
            ops_view(final(self).ops@) == ops_view(old(self).ops@) + seq![
                OpView::SetBackground(Color::Black),
                OpView::ClearFromCursorDown,
            ],
            final(self).viewport_size == old(self).viewport_size,
    {
        self.op(DrawOp::SetBackground(Color::Black));
        self.op(DrawOp::ClearFromCursorDown);
    }

    /// Draws the header of a screen.
    pub fn header(&mut self, info: HeaderInfo, spinner_state: u8)
        ensures
            ops_view(final(self).ops@) == ops_view(old(self).ops@) + header_ops(info.name@, info.waiting_response, spinner_state),
            final(self).viewport_size == old(self).viewport_size,
    {
        let dots: u8 = if info.waiting_response {
            spinner_state % 4
        } else {
            0
        };
        let mut spinner = String::new();
        let mut i: u8 = 0;
        while i < dots
            invariant
                i <= dots,
                spinner@ == Seq::new(i as nat, |k: int| '.'),
            decreases dots - i,
        {
            crate::text::string_push(&mut spinner, '.');
            i = i + 1;
            assert(spinner@ == Seq::new(i as nat, |k: int| '.'));
        }
        self.op(DrawOp::MoveTo(0, 0));
        self.op(DrawOp::SetBackground(Color::DarkYellow));
        self.op(DrawOp::SetForeground(Color::Black));
        self.space();
        self.op(DrawOp::SetBackground(Color::Black));
        self.op(DrawOp::SetForeground(Color::DarkYellow));
        self.space();
        self.write(info.name);
        self.space();
        self.op(DrawOp::SetBackground(Color::DarkYellow));
        self.op(DrawOp::ClearUntilNewLine);
        self.op(DrawOp::MoveToColumn(0xffff));
        self.op(DrawOp::MoveLeft(4));
        self.op(DrawOp::Print(spinner));
        self.op(DrawOp::MoveToNextLine);
        self.op(DrawOp::ResetColor);
        assert(ops_view(self.ops@) == ops_view(old(self).ops@) + header_ops(info.name@, info.waiting_response, spinner_state));
    }

    /// Prints the lines of a text from its scroll on.
    pub fn output(&mut self, output: &Output)
        ensures
            ops_view(final(self).ops@) == ops_view(old(self).ops@) + lines_ops(
                lines_spec(output.text@).skip(
                    if output.scroll <= lines_spec(output.text@).len() { output.scroll as int } else { lines_spec(output.text@).len() as int },
                ),
            ),
            final(self).viewport_size == old(self).viewport_size,
    {
        let lines = output.lines_from_scroll();
        let ghost ls = views(lines@);
        let mut i: usize = 0;
        let ghost o0 = ops_view(self.ops@);
        assert(ls.take(0) == Seq::<Seq<char>>::empty());
        while i < lines.len()
            invariant
                i <= lines.len(),
                ls == views(lines@),
                ops_view(self.ops@) == o0 + lines_ops(ls.take(i as int)),
                self.viewport_size == old(self).viewport_size,
            decreases lines.len() - i,
        {
            assert(ls.take(i as int + 1).drop_last() == ls.take(i as int));
            self.write(lines[i].as_str());
            self.next_line();
            i = i + 1;
        }
        assert(ls.take(lines.len() as int) == ls);
    }

    /// Draws a line being typed: the input and a block for the cursor.
    pub fn readline(&mut self, readline: &ReadLine)
        ensures
            ops_view(final(self).ops@) == ops_view(old(self).ops@) + seq![
                OpView::SetBackground(Color::Black),
                OpView::SetForeground(Color::White),
                OpView::Print(readline.input@),
                OpView::SetBackground(Color::DarkRed),
                OpView::Print(seq![' ']),
                OpView::SetBackground(Color::Black),
            ],
            final(self).viewport_size == old(self).viewport_size,
    {
        self.op(DrawOp::SetBackground(Color::Black));
        self.op(DrawOp::SetForeground(Color::White));
        self.write(readline.input());
        self.op(DrawOp::SetBackground(Color::DarkRed));
        self.space();
        self.op(DrawOp::SetBackground(Color::Black));
    }

    /// Draws a list from its scroll on, as many entries as the rows below the header leave,
    /// the one under the cursor on gray.
    pub fn select_menu<E: Draw>(&mut self, select: &SelectMenu, header_height: u16, entries: &Vec<E>)
        ensures
            ops_view(final(self).ops@) == ops_view(old(self).ops@) + seq![
                OpView::SetBackground(Color::Black),
                OpView::SetForeground(Color::White),
            ] + menu_ops(
                entries@,
                select.scroll as int,
                crate::ui::saturating_sub(old(self).viewport_size.1 as int, 1 + header_height),
                select.cursor as int,
                old(self).viewport_size.0,
            ),
            final(self).viewport_size == old(self).viewport_size,
    {
        self.op(DrawOp::SetBackground(Color::Black));
        self.op(DrawOp::SetForeground(Color::White));
        let height = self.viewport_size.1 as usize;
        let take = if height > 1 + header_height as usize {
            height - 1 - header_height as usize
        } else {
            0
        };
        let ghost o0 = ops_view(self.ops@);
        let mut i = select.scroll;
        let mut left = take;
        while left > 0 && i < entries.len()
            invariant
                select.scroll <= i,
                i - select.scroll + left == take,
                o0 + menu_ops(entries@, select.scroll as int, take as int, select.cursor as int, self.viewport_size.0)
                    == ops_view(self.ops@) + menu_ops(entries@, i as int, left as int, select.cursor as int, self.viewport_size.0),
                self.viewport_size == old(self).viewport_size,
            decreases left,
        {
            let hovered = i == select.cursor;
            let ghost before = ops_view(self.ops@);
            if hovered {
                self.op(DrawOp::SetBackground(Color::DarkGrey));
            }
            entries[i].draw(self);
            self.op(DrawOp::ClearUntilNewLine);
            self.op(DrawOp::MoveToNextLine);
            if hovered {
                self.op(DrawOp::SetBackground(Color::Black));
            }
            assert(ops_view(self.ops@) == before + ((if hovered {
                seq![OpView::SetBackground(Color::DarkGrey)]
            } else {
                seq![]
            }) + entries@[i as int].drawn(self.viewport_size.0) + seq![OpView::ClearUntilNewLine, OpView::MoveToNextLine] + (if hovered {
                seq![OpView::SetBackground(Color::Black)]
            } else {
                seq![]
            })));
            i = i + 1;
            left = left - 1;
        }
    }
}

} // verus!
