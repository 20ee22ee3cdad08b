//! The path language of `PaintPath`: whitespace-separated words, each command
//! letter followed by its operands. The grammar is checked here; the operands
//! stay text, and their numbers are read where the canvas bounds are known.

use vstd::prelude::*;
use crate::text::{char_is_whitespace, is_whitespace, strings_view};

verus! {

/// The words of `s` between runs of whitespace, in order (what
/// `str::split_whitespace` yields).
pub open spec fn words(s: Seq<char>) -> Seq<Seq<char>>
    decreases s.len(),
{
    if s.len() == 0 {
        Seq::empty()
    } else {
        let w = words(s.drop_last());
        let c = s.last();
        if is_whitespace(c) {
            w
        } else if s.len() >= 2 && !is_whitespace(s[s.len() - 2]) {
            w.update(w.len() - 1, w.last().push(c))
        } else {
            w.push(seq![c])
        }
    }
}

/// Splits `s` into its whitespace-separated words.
pub fn split_words(s: &str) -> (w: Vec<String>)
    ensures
        strings_view(w@) == words(s@),
{
    let n = s.unicode_len();
    let mut done: Vec<String> = Vec::new();
    let mut start: usize = 0;
    let mut in_word = false;
    let mut i: usize = 0;
    proof {
        assert(s@.take(0) =~= Seq::<char>::empty());
        assert(strings_view(done@) =~= Seq::<Seq<char>>::empty());
    }
    while i < n
        invariant
            n == s@.len(),
            start <= i <= n,
            in_word == (i > 0 && !is_whitespace(s@[i - 1])),
            in_word ==> words(s@.take(i as int)) == strings_view(done@).push(
                s@.subrange(start as int, i as int),
            ),
            !in_word ==> words(s@.take(i as int)) == strings_view(done@),
        decreases n - i,
    {
        let c = s.get_char(i);
        let ghost before = strings_view(done@);
        proof {
            let t = s@.take(i as int + 1);
            assert(t.drop_last() =~= s@.take(i as int));
            assert(t.last() == c);
            if i > 0 {
                assert(t[t.len() - 2] == s@[i - 1]);
            }
        }
        if char_is_whitespace(c) {
            if in_word {
                let word = String::from_str(s.substring_char(start, i));
                done.push(word);
                proof {
                    assert(strings_view(done@) =~= before.push(s@.subrange(start as int, i as int)));
                }
            }
            in_word = false;
        } else {
            if !in_word {
                start = i;
                proof {
                    assert(s@.subrange(i as int, i as int + 1) =~= seq![c]);
                }
            } else {
                proof {
                    let sub = s@.subrange(start as int, i as int);
                    assert(s@.subrange(start as int, i as int + 1) =~= sub.push(c));
                    assert(before.push(sub).update(before.len() as int, sub.push(c)) =~= before.push(
                        sub.push(c),
                    ));
                }
            }
            in_word = true;
        }
        i = i + 1;
    }
    proof {
        assert(s@.take(n as int) =~= s@);
    }
    if in_word {
        let word = String::from_str(s.substring_char(start, n));
        let ghost before = strings_view(done@);
        done.push(word);
        proof {
            assert(strings_view(done@) =~= before.push(s@.subrange(start as int, n as int)));
        }
    }
    done
}

/// A command of the path language.
#[derive(Clone, Copy, Debug, PartialEq, Eq, Structural)]
pub enum PathCommand {
    /// `M x y`: moves to a point.
    Move,
    /// `L x y`: a line to a point.
    Line,
    /// `Q cx cy x y`: a quadratic curve.
    Quad,
    /// `C ax ay bx by x y`: a cubic curve.
    Cubic,
    /// `A rx ry rotation large sweep x y`: an elliptical arc.
    Arc,
    /// `Z` or `z`: closes the path.
    Close,
}

/// What an operand of a path command is.
#[derive(Clone, Copy, Debug, PartialEq, Eq, Structural)]
pub enum Operand {
    /// A horizontal position within the canvas.
    X,
    /// A vertical position within the canvas.
    Y,
    /// A horizontal radius, a length across the canvas width.
    RadiusX,
    /// A vertical radius, a length across the canvas height.
    RadiusY,
    /// A plain number.
    Number,
}

/// The command a word names, if any.
pub open spec fn command_of(word: Seq<char>) -> Option<PathCommand> {
    if word == "M"@ {
        Some(PathCommand::Move)
    } else if word == "L"@ {
        Some(PathCommand::Line)
    } else if word == "Q"@ {
        Some(PathCommand::Quad)
    } else if word == "C"@ {
        Some(PathCommand::Cubic)
    } else if word == "A"@ {
        Some(PathCommand::Arc)
    } else if word == "Z"@ || word == "z"@ {
        Some(PathCommand::Close)
    } else {
        None
    }
}

/// The operands a command takes, in order.
pub open spec fn operand_layout(command: PathCommand) -> Seq<Operand> {
    match command {
        PathCommand::Move | PathCommand::Line => seq![Operand::X, Operand::Y],
        PathCommand::Quad => seq![Operand::X, Operand::Y, Operand::X, Operand::Y],
        PathCommand::Cubic => seq![
            Operand::X,
            Operand::Y,
            Operand::X,
            Operand::Y,
            Operand::X,
            Operand::Y,
        ],
        PathCommand::Arc => seq![
            Operand::RadiusX,
            Operand::RadiusY,
            Operand::Number,
            Operand::Number,
            Operand::Number,
            Operand::X,
            Operand::Y,
        ],
        PathCommand::Close => seq![],
    }
}

/// One command of a path with the words of its operands.
pub struct PathSegment {
    pub command: PathCommand,
    pub operands: Vec<String>,
}

/// How the words of a path end.
pub enum PathEnding {
    /// Every command has all its operands.
    Complete,
    /// The words ran out within the operands of `command`; `operands` holds
    /// those that were there.
    EndedEarly { command: PathCommand, operands: Vec<String> },
    /// A word where a command belongs names no command.
    Unknown(String),
}

/// A segment as its command and the words of its operands.
pub type SegmentView = (PathCommand, Seq<Seq<char>>);

/// The ending of a path's words, with its words as characters.
pub enum EndingView {
    Complete,
    EndedEarly(PathCommand, Seq<Seq<char>>),
    Unknown(Seq<char>),
}

pub open spec fn segment_view(s: PathSegment) -> SegmentView {
    (s.command, strings_view(s.operands@))
}

pub open spec fn ending_view(e: PathEnding) -> EndingView {
    match e {
        PathEnding::Complete => EndingView::Complete,
        PathEnding::EndedEarly { command, operands } => EndingView::EndedEarly(
            command,
            strings_view(operands@),
        ),
        PathEnding::Unknown(w) => EndingView::Unknown(w@),
    }
}

/// The segments that the words from position `i` on make, and how they end:
/// each command takes as many following words as it has operands; a word that
/// names no command, or words that run out within a command's operands, end
/// the path there.
pub open spec fn path_from(words: Seq<Seq<char>>, i: int) -> (Seq<SegmentView>, EndingView)
    decreases words.len() - i,
{
    if i < 0 || i >= words.len() {
        (Seq::empty(), EndingView::Complete)
    } else {
        match command_of(words[i]) {
            None => (Seq::empty(), EndingView::Unknown(words[i])),
            Some(c) => {
                let k = operand_layout(c).len();
                if i + 1 + k > words.len() {
                    (Seq::empty(), EndingView::EndedEarly(c, words.subrange(i + 1, words.len() as int)))
                } else {
                    let (rest, ending) = path_from(words, i + 1 + k);
                    (seq![(c, words.subrange(i + 1, i + 1 + k))] + rest, ending)
                }
            },
        }
    }
}

/// Every segment a path reads has exactly the operands its command takes, and
/// a path that runs out within a command keeps fewer than that.
pub proof fn lemma_segments_are_complete(words: Seq<Seq<char>>, i: int)
    ensures
        forall|k: int|
            0 <= k < path_from(words, i).0.len() ==> #[trigger] path_from(words, i).0[k].1.len()
                == operand_layout(path_from(words, i).0[k].0).len(),
        path_from(words, i).1 matches EndingView::EndedEarly(c, ops) ==> ops.len() < operand_layout(
            c,
        ).len(),
    decreases words.len() - i,
{
    if 0 <= i < words.len() {
        if let Some(c) = command_of(words[i]) {
            let k = operand_layout(c).len();
            if i + 1 + k <= words.len() {
                lemma_segments_are_complete(words, i + 1 + k);
                let rest = path_from(words, i + 1 + k).0;
                assert forall|j: int| 0 <= j < path_from(words, i).0.len() implies
                    #[trigger] path_from(words, i).0[j].1.len() == operand_layout(
                    path_from(words, i).0[j].0,
                ).len() by {
                    if j > 0 {
                        assert(path_from(words, i).0[j] == rest[j - 1]);
                    }
                }
            }
        }
    }
}

/// A path ends on an unknown command exactly at a word that names no
/// command: reading stops there, and that word is what the ending reports.
pub proof fn lemma_unknown_command_ends(words: Seq<Seq<char>>, i: int)
    ensures
        0 <= i < words.len() && command_of(words[i]) is None ==> path_from(words, i) == (
            Seq::<SegmentView>::empty(),
            EndingView::Unknown(words[i]),
        ),
        path_from(words, i).1 matches EndingView::Unknown(w) ==> command_of(w) is None
            && words.contains(w),
    decreases words.len() - i,
{
    if 0 <= i < words.len() {
        if let Some(c) = command_of(words[i]) {
            let k = operand_layout(c).len();
            if i + 1 + k <= words.len() {
                lemma_unknown_command_ends(words, i + 1 + k);
            }
        } else {
            assert(words.contains(words[i]));
        }
    }
}

/// An arc reads seven operands: two radii, the rotation, the large-arc and
/// sweep flags as plain numbers, and the end point.
pub proof fn lemma_arc_operands(words: Seq<Seq<char>>, i: int, k: int)
    requires
        0 <= k < path_from(words, i).0.len(),
        path_from(words, i).0[k].0 == PathCommand::Arc,
    ensures
        path_from(words, i).0[k].1.len() == 7,
        operand_layout(PathCommand::Arc) == seq![
            Operand::RadiusX,
            Operand::RadiusY,
            Operand::Number,
            Operand::Number,
            Operand::Number,
            Operand::X,
            Operand::Y,
        ],
{
    lemma_segments_are_complete(words, i);
    assert(path_from(words, i).0[k].1.len() == operand_layout(path_from(words, i).0[k].0).len());
}

/// The letter each command is written with.
pub open spec fn command_letter(command: PathCommand) -> Seq<char> {
    match command {
        PathCommand::Move => "M"@,
        PathCommand::Line => "L"@,
        PathCommand::Quad => "Q"@,
        PathCommand::Cubic => "C"@,
        PathCommand::Arc => "A"@,
        PathCommand::Close => "Z"@,
    }
}

/// A command's letter followed by the words of its operands reads as that one
/// command with all of them: a point for `M` and `L`, a control point and the
/// end for `Q`, two control points and the end for `C`, two radii, three
/// numbers and the end for `A`, nothing for `Z`.
pub proof fn lemma_command_reads_its_operands(command: PathCommand, operands: Seq<Seq<char>>)
    requires
        operands.len() == match command {
            PathCommand::Move | PathCommand::Line => 2int,
            PathCommand::Quad => 4int,
            PathCommand::Cubic => 6int,
            PathCommand::Arc => 7int,
            PathCommand::Close => 0int,
        },
    ensures
        path_from(seq![command_letter(command)] + operands, 0) == (
            seq![(command, operands)],
            EndingView::Complete,
        ),
{
    reveal_strlit("M");
    reveal_strlit("L");
    reveal_strlit("Q");
    reveal_strlit("C");
    reveal_strlit("A");
    reveal_strlit("Z");
    reveal_strlit("z");
    let words = seq![command_letter(command)] + operands;
    assert("M"@[0] == 'M' && "L"@[0] == 'L' && "Q"@[0] == 'Q' && "C"@[0] == 'C' && "A"@[0] == 'A'
        && "Z"@[0] == 'Z' && "z"@[0] == 'z');
    assert(words[0] == command_letter(command));
    assert(command_of(words[0]) == Some(command));
    let k: int = operand_layout(command).len() as int;
    assert(k == operands.len());
    assert(words.subrange(1, 1 + k) =~= operands);
    assert(path_from(words, 1 + k) == (Seq::<SegmentView>::empty(), EndingView::Complete));
    assert(seq![(command, operands)] + Seq::<SegmentView>::empty() =~= seq![(command, operands)]);
}

/// The segments and the ending of a whole path text.
pub open spec fn path_of(text: Seq<char>) -> (Seq<SegmentView>, EndingView) {
    path_from(words(text), 0)
}

fn command_word(word: &str) -> (c: Option<PathCommand>)
    ensures
        c == command_of(word@),
{
    if crate::text::str_equal(word, "M") {
        Some(PathCommand::Move)
    } else if crate::text::str_equal(word, "L") {
        Some(PathCommand::Line)
    } else if crate::text::str_equal(word, "Q") {
        Some(PathCommand::Quad)
    } else if crate::text::str_equal(word, "C") {
        Some(PathCommand::Cubic)
    } else if crate::text::str_equal(word, "A") {
        Some(PathCommand::Arc)
    } else if crate::text::str_equal(word, "Z") || crate::text::str_equal(word, "z") {
        Some(PathCommand::Close)
    } else {
        None
    }
}

/// How many operands a command takes.
pub fn operand_count(command: PathCommand) -> (k: usize)
    ensures
        k == operand_layout(command).len(),
{
    match command {
        PathCommand::Move | PathCommand::Line => 2,
        PathCommand::Quad => 4,
        PathCommand::Cubic => 6,
        PathCommand::Arc => 7,
        PathCommand::Close => 0,
    }
}

/// The operand at position `index` of a command's operands.
pub fn operand_at(command: PathCommand, index: usize) -> (o: Operand)
    requires
        index < operand_layout(command).len(),
    ensures
        o == operand_layout(command)[index as int],
{
    match command {
        PathCommand::Arc => if index == 0 {
            Operand::RadiusX
        } else if index == 1 {
            Operand::RadiusY
        } else if index < 5 {
            Operand::Number
        } else if index == 5 {
            Operand::X
        } else {
            Operand::Y
        },
        _ => if index % 2 == 0 {
            Operand::X
        } else {
            Operand::Y
        },
    }
}

fn clone_words(words: &Vec<String>, from: usize, to: usize) -> (w: Vec<String>)
    requires
        from <= to <= words@.len(),
    ensures
        strings_view(w@) == strings_view(words@).subrange(from as int, to as int),
{
    let mut w: Vec<String> = Vec::new();
    let mut j = from;
    while j < to
        invariant
            from <= j <= to <= words@.len(),
            strings_view(w@) == strings_view(words@).subrange(from as int, j as int),
        decreases to - j,
    {
        let ghost before = strings_view(w@);
        let item = words[j].clone();
        w.push(item);
        proof {
            assert(item@ == strings_view(words@)[j as int]);
            assert(strings_view(w@) =~= before.push(item@));
            assert(strings_view(words@).subrange(from as int, j + 1) =~= strings_view(
                words@,
            ).subrange(from as int, j as int).push(item@));
        }
        j = j + 1;
    }
    w
}

/// Reads a path text into its segments and how its words end.
pub fn parse_path_words(text: &str) -> (parsed: (Vec<PathSegment>, PathEnding))
    ensures
        parsed.0@.map_values(|s: PathSegment| segment_view(s)) == path_of(text@).0,
        ending_view(parsed.1) == path_of(text@).1,
{
    let list = split_words(text);
    let ghost w = strings_view(list@);
    let n = list.len();
    let mut segments: Vec<PathSegment> = Vec::new();
    let mut i: usize = 0;
    proof {
        assert(segments@.map_values(|s: PathSegment| segment_view(s)) + path_from(w, 0).0 =~= path_from(w, 0).0);
    }
    while i < n
        invariant
            n == list@.len(),
            w == strings_view(list@),
            w == words(text@),
            i <= n,
            segments@.map_values(|s: PathSegment| segment_view(s)) + path_from(w, i as int).0
                == path_of(text@).0,
            path_from(w, i as int).1 == path_of(text@).1,
        decreases n - i,
    {
        let ghost done = segments@.map_values(|s: PathSegment| segment_view(s));
        proof {
            assert(w[i as int] == list@[i as int]@);
        }
        let command = match command_word(list[i].as_str()) {
            Some(c) => c,
            None => {
                proof {
                    assert(path_from(w, i as int).0 =~= Seq::<SegmentView>::empty());
                    assert(done + Seq::<SegmentView>::empty() =~= done);
                }
                return (segments, PathEnding::Unknown(list[i].clone()));
            },
        };
        let k = operand_count(command);
        if k > n - i - 1 {
            let operands = clone_words(&list, i + 1, n);
            proof {
                assert(path_from(w, i as int).0 =~= Seq::<SegmentView>::empty());
                assert(done + Seq::<SegmentView>::empty() =~= done);
            }
            return (segments, PathEnding::EndedEarly { command, operands });
        }
        let operands = clone_words(&list, i + 1, i + 1 + k);
        let segment = PathSegment { command, operands };
        let ghost seg = segment_view(segment);
        segments.push(segment);
        proof {
            let rest = path_from(w, i + 1 + k);
            assert(path_from(w, i as int).0 == seq![seg] + rest.0);
            assert(segments@.map_values(|s: PathSegment| segment_view(s)) =~= done.push(seg));
            assert(done.push(seg) + rest.0 =~= done + (seq![seg] + rest.0));
        }
        i = i + 1 + k;
    }
    proof {
        assert(path_from(w, i as int).0 =~= Seq::<SegmentView>::empty());
        assert(segments@.map_values(|s: PathSegment| segment_view(s)) + Seq::<SegmentView>::empty()
            =~= segments@.map_values(|s: PathSegment| segment_view(s)));
    }
    (segments, PathEnding::Complete)
}

/// How a length word is written: the number it starts with, as a fraction of
/// the extent (`0.5f`, `0.5F`), a percentage of it (`50%`), or pixels.
#[derive(Clone, Copy, Debug, PartialEq, Eq, Structural)]
pub enum LengthUnit {
    Fraction,
    Percent,
    Pixels,
}

/// The unit a length word is written in and the word without its suffix.
pub open spec fn length_parts(word: Seq<char>) -> (LengthUnit, Seq<char>) {
    if word.len() > 0 && (word.last() == 'f' || word.last() == 'F') {
        (LengthUnit::Fraction, word.drop_last())
    } else if word.len() > 0 && word.last() == '%' {
        (LengthUnit::Percent, word.drop_last())
    } else {
        (LengthUnit::Pixels, word)
    }
}

/// Splits a length word into its unit and the number written before it.
pub fn split_length(word: &str) -> (parts: (LengthUnit, String))
    ensures
        parts.0 == length_parts(word@).0,
        parts.1@ == length_parts(word@).1,
{
    let n = word.unicode_len();
    if n > 0 {
        let last = word.get_char(n - 1);
        proof {
            assert(word@.subrange(0, n - 1) =~= word@.drop_last());
        }
        if last == 'f' || last == 'F' {
            return (LengthUnit::Fraction, String::from_str(word.substring_char(0, n - 1)));
        }
        if last == '%' {
            return (LengthUnit::Percent, String::from_str(word.substring_char(0, n - 1)));
        }
    }
    proof {
        assert(word@.subrange(0, n as int) =~= word@);
    }
    (LengthUnit::Pixels, String::from_str(word.substring_char(0, n)))
}

} // verus!
