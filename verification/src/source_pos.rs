//! Locations in a source file, ranges between them, and comments.

use vstd::prelude::*;

verus! {

/// `String::push` appends one character at the end of the string and leaves
/// what was there untouched.
pub assume_specification[ String::push ](s: &mut String, ch: char)
    ensures
        final(s)@ == old(s)@.push(ch),
;

/// The character that stands for the decimal digit `d`.
pub open spec fn digit_char(d: int) -> char
    recommends
        0 <= d < 10,
{
    if d == 0 {
        '0'
    } else if d == 1 {
        '1'
    } else if d == 2 {
        '2'
    } else if d == 3 {
        '3'
    } else if d == 4 {
        '4'
    } else if d == 5 {
        '5'
    } else if d == 6 {
        '6'
    } else if d == 7 {
        '7'
    } else if d == 8 {
        '8'
    } else {
        '9'
    }
}

/// The decimal digits of `n`, most significant first, without padding.
pub open spec fn decimal(n: nat) -> Seq<char>
    decreases n,
{
    if n < 10 {
        seq![digit_char(n as int)]
    } else {
        decimal(n / 10).push(digit_char((n % 10) as int))
    }
}

fn digit(d: u32) -> (c: char)
    requires
        d < 10,
    ensures
        c == digit_char(d as int),
{
    if d == 0 {
        '0'
    } else if d == 1 {
        '1'
    } else if d == 2 {
        '2'
    } else if d == 3 {
        '3'
    } else if d == 4 {
        '4'
    } else if d == 5 {
        '5'
    } else if d == 6 {
        '6'
    } else if d == 7 {
        '7'
    } else if d == 8 {
        '8'
    } else {
        '9'
    }
}

/// Appends the decimal digits of `n` to `out`.
fn push_decimal(out: &mut String, n: u32)
    ensures
        final(out)@ == old(out)@ + decimal(n as nat),
    decreases n,
{
    if n >= 10 {
        push_decimal(out, n / 10);
    }
    out.push(digit(n % 10));
}

/// Mathematical model of a [`SourcePos`].
pub struct SourcePosView {
    pub filename: Seq<char>,
    pub line: int,
    pub col: int,
    pub offset: int,
}

impl SourcePosView {
    /// Line and column are known when both are positive.
    pub open spec fn is_known(self) -> bool {
        self.line > 0 && self.col > 0
    }

    /// How the position is shown to a reader: `file:line:col`, or the file
    /// name alone while line or column is unknown.
    pub open spec fn display(self) -> Seq<char> {
        if self.is_known() {
            self.filename + seq![':'] + decimal(self.line as nat) + seq![':'] + decimal(
                self.col as nat,
            )
        } else {
            self.filename
        }
    }
}

/// A location in a source file.
#[derive(Debug)]
pub struct SourcePos {
    filename: String,
    line: i32,
    col: i32,
    offset: i32,
}

impl View for SourcePos {
    type V = SourcePosView;

    closed spec fn view(&self) -> SourcePosView {
        SourcePosView {
            filename: self.filename@,
            line: self.line as int,
            col: self.col as int,
            offset: self.offset as int,
        }
    }
}

impl Clone for SourcePos {
    fn clone(&self) -> (res: Self)
        ensures
            res@ == self@,
    {
        SourcePos {
            filename: self.filename.clone(),
            line: self.line,
            col: self.col,
            offset: self.offset,
        }
    }
}

impl SourcePos {
    /// A position in the file `filename` whose line, column and offset are
    /// not known yet.
    pub fn new(filename: &str) -> (res: Self)
        ensures
            res@ == (SourcePosView { filename: filename@, line: 0, col: 0, offset: 0 }),
    {
        SourcePos { filename: filename.to_owned(), line: 0, col: 0, offset: 0 }
    }

    pub fn set_line(&mut self, line: i32) -> (res: &mut Self)
        ensures
            res@ == (SourcePosView { line: line as int, ..old(self)@ }),
            *final(self) == *final(res),
    {
        self.line = line;
        self
    }

    pub fn set_col(&mut self, col: i32) -> (res: &mut Self)
        ensures
            res@ == (SourcePosView { col: col as int, ..old(self)@ }),
            *final(self) == *final(res),
    {
        self.col = col;
        self
    }

    pub fn set_offset(&mut self, offset: i32) -> (res: &mut Self)
        ensures
            res@ == (SourcePosView { offset: offset as int, ..old(self)@ }),
            *final(self) == *final(res),
    {
        self.offset = offset;
        self
    }

    pub fn filename(&self) -> (res: &str)
        ensures
            res@ == self@.filename,
    {
        self.filename.as_str()
    }

    pub fn line(&self) -> (res: i32)
        ensures
            res == self@.line,
    {
        self.line
    }

    pub fn col(&self) -> (res: i32)
        ensures
            res == self@.col,
    {
        self.col
    }

    pub fn offset(&self) -> (res: i32)
        ensures
            res == self@.offset,
    {
        self.offset
    }

    /// Whether line and column are known.
    pub fn is_known(&self) -> (res: bool)
        ensures
            res == self@.is_known(),
    {
        self.line > 0 && self.col > 0
    }

    /// `file:line:col`, or the file name alone while line or column is
    /// unknown.
    pub fn to_string(&self) -> (res: String)
        ensures
            res@ == self@.display(),
    {
        let mut out = self.filename.clone();
        if self.line <= 0 || self.col <= 0 {
            return out;
        }
        out.push(':');
        push_decimal(&mut out, self.line as u32);
        out.push(':');
        push_decimal(&mut out, self.col as u32);
        out
    }
}

/// Mathematical model of a [`PosRange`].
pub struct PosRangeView {
    pub start: SourcePosView,
    pub end: SourcePosView,
}

impl PosRangeView {
    /// The range does not end before it starts.
    pub open spec fn is_ordered(self) -> bool {
        self.start.offset <= self.end.offset
    }
}

/// The span of a piece of source text, from its first position to its last.
#[derive(Debug)]
pub struct PosRange {
    pub start: SourcePos,
    pub end: SourcePos,
}

impl View for PosRange {
    type V = PosRangeView;

    open spec fn view(&self) -> PosRangeView {
        PosRangeView { start: self.start@, end: self.end@ }
    }
}

impl Clone for PosRange {
    fn clone(&self) -> (res: Self)
        ensures
            res@ == self@,
    {
        PosRange { start: self.start.clone(), end: self.end.clone() }
    }
}

impl PosRange {
    /// Whether the range does not end before it starts.
    pub fn is_ordered(&self) -> (res: bool)
        ensures
            res == self@.is_ordered(),
    {
        self.start.offset() <= self.end.offset()
    }
}

/// Mathematical model of a [`Comment`].
pub struct CommentView {
    pub range: PosRangeView,
    pub leading_whitespace: Seq<char>,
    pub text: Seq<char>,
}

/// A comment as it stands in the source: its span, the whitespace in front
/// of it, and its text.
#[derive(Debug)]
pub struct Comment {
    pos_range: PosRange,
    leading_whitespace: String,
    text: String,
}

impl View for Comment {
    type V = CommentView;

    closed spec fn view(&self) -> CommentView {
        CommentView {
            range: self.pos_range@,
            leading_whitespace: self.leading_whitespace@,
            text: self.text@,
        }
    }
}

impl Clone for Comment {
    fn clone(&self) -> (res: Self)
        ensures
            res@ == self@,
    {
        Comment {
            pos_range: self.pos_range.clone(),
            leading_whitespace: self.leading_whitespace.clone(),
            text: self.text.clone(),
        }
    }
}

impl Comment {
    /// A comment at `pos_range` with no whitespace and no text yet.
    pub fn new(pos_range: PosRange) -> (res: Self)
        ensures
            res@ == (CommentView {
                range: pos_range@,
                leading_whitespace: Seq::empty(),
                text: Seq::empty(),
            }),
    {
        Comment { pos_range, leading_whitespace: String::new(), text: String::new() }
    }

    pub fn set_leading_whitespace(&mut self, lw: &str) -> (res: &mut Self)
        ensures
            res@ == (CommentView { leading_whitespace: lw@, ..old(self)@ }),
            *final(self) == *final(res),
    {
        self.leading_whitespace = lw.to_owned();
        self
    }

    pub fn set_text(&mut self, text: &str) -> (res: &mut Self)
        ensures
            res@ == (CommentView { text: text@, ..old(self)@ }),
            *final(self) == *final(res),
    {
        self.text = text.to_owned();
        self
    }

    pub fn pos_range(&self) -> (res: &PosRange)
        ensures
            res@ == self@.range,
    {
        &self.pos_range
    }

    pub fn leading_whitespace(&self) -> (res: &str)
        ensures
            res@ == self@.leading_whitespace,
    {
        self.leading_whitespace.as_str()
    }

    pub fn text(&self) -> (res: &str)
        ensures
            res@ == self@.text,
    {
        self.text.as_str()
    }
}

/// The models of a sequence of comments, in order.
pub open spec fn comment_views(comments: Seq<Comment>) -> Seq<CommentView> {
    comments.map_values(|c: Comment| c@)
}

/// A copy of `comments`, comment for comment.
pub fn clone_comments(comments: &Vec<Comment>) -> (res: Vec<Comment>)
    ensures
        comment_views(res@) == comment_views(comments@),
{
    let mut res: Vec<Comment> = Vec::new();
    let mut i: usize = 0;
    while i < comments.len()
        invariant
            i <= comments.len(),
            res.len() == i,
            forall|j: int| 0 <= j < i ==> res[j]@ == comments[j]@,
        decreases comments.len() - i,
    {
        res.push(comments[i].clone());
        i += 1;
    }
    assert(comment_views(res@) =~= comment_views(comments@));
    res
}

} // verus!
