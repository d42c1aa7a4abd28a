//! Highlighting of the lines that a device prints on its serial console.
use vstd::prelude::*;
use vstd::std_specs::iter::IteratorSpec;

verus! {

/// How a line of console output is shown.
#[derive(Clone, Copy, Debug, PartialEq, Eq, Structural)]
pub enum OutputStyle {
    /// A blank line, shown as it is.
    Blank,
    /// A prompt (the line starts with `>`): bright green, bold.
    Prompt,
    /// An error: bright red.
    Error,
    /// A warning: bright yellow.
    Warning,
    /// A command or help text: bright cyan.
    Help,
    /// An unknown command: bright red.
    UnknownCommand,
    /// A status report such as `led: on`: bright blue.
    Status,
    /// Any other line: white.
    Plain,
}

/// Whether `c` is white space, as `char::is_whitespace` defines it (the
/// Unicode `White_Space` property).
pub open spec fn is_white_space(c: char) -> bool {
    ||| '\u{9}' <= c <= '\u{D}'
    ||| c == ' '
    ||| c == '\u{85}'
    ||| c == '\u{A0}'
    ||| c == '\u{1680}'
    ||| '\u{2000}' <= c <= '\u{200A}'
    ||| c == '\u{2028}'
    ||| c == '\u{2029}'
    ||| c == '\u{202F}'
    ||| c == '\u{205F}'
    ||| c == '\u{3000}'
}

/// Whether `text` holds `pattern` at position `i`.
pub open spec fn occurs_at(text: Seq<char>, pattern: Seq<char>, i: int) -> bool {
    0 <= i && i + pattern.len() <= text.len() && text.subrange(i, i + pattern.len()) == pattern
}

/// Whether `text` holds `pattern` somewhere.
pub open spec fn holds(text: Seq<char>, pattern: Seq<char>) -> bool {
    exists|i: int| occurs_at(text, pattern, i)
}

/// The style of a console line.
pub open spec fn output_style(t: Seq<char>) -> OutputStyle {
    if forall|i: int| 0 <= i < t.len() ==> is_white_space(#[trigger] t[i]) {
        OutputStyle::Blank
    } else if t[0] == '>' {
        OutputStyle::Prompt
    } else if holds(t, seq!['e', 'r', 'r', 'o', 'r']) || holds(t, seq!['E', 'r', 'r', 'o', 'r'])
        || holds(t, seq!['E', 'R', 'R', 'O', 'R']) {
        OutputStyle::Error
    } else if holds(t, seq!['w', 'a', 'r', 'n', 'i', 'n', 'g']) || holds(t, seq!['W', 'a', 'r', 'n', 'i', 'n', 'g'])
        || holds(t, seq!['W', 'A', 'R', 'N']) {
        OutputStyle::Warning
    } else if holds(t, seq!['C', 'o', 'm', 'm', 'a', 'n', 'd']) || holds(t, seq!['h', 'e', 'l', 'p']) {
        OutputStyle::Help
    } else if holds(t, seq!['U', 'n', 'k', 'n', 'o', 'w', 'n', ' ', 'c', 'o', 'm', 'm', 'a', 'n', 'd']) {
        OutputStyle::UnknownCommand
    } else if holds(t, seq![':']) && (holds(t, seq!['o', 'n']) || holds(t, seq!['o', 'f', 'f'])
        || holds(t, seq!['s', 'w', 'i', 't', 'c', 'h'])) {
        OutputStyle::Status
    } else {
        OutputStyle::Plain
    }
}

/// How a console line is styled, for any line:
/// - a line of white space only (or an empty one) is blank, and no other;
/// - any other line that starts with `>` is a prompt;
/// - any other line that holds `error`, `Error` or `ERROR` is an error,
///   and an error line holds one of them;
/// - any other line that holds `warning`, `Warning` or `WARN` is a
///   warning;
/// - any other line that holds `Command` or `help` is help text;
/// - any other line that holds `Unknown command` is an unknown command;
/// - any other line with a `:` and `on`, `off` or `switch` is a status;
/// - a plain line holds none of these words.
pub proof fn lemma_output_styles(t: Seq<char>)
    ensures
        (forall|i: int| 0 <= i < t.len() ==> is_white_space(#[trigger] t[i])) <==> output_style(t)
            == OutputStyle::Blank,
        ({
            let blank = forall|i: int| 0 <= i < t.len() ==> is_white_space(#[trigger] t[i]);
            let error = holds(t, seq!['e', 'r', 'r', 'o', 'r']) || holds(t, seq!['E', 'r', 'r', 'o', 'r']) || holds(
                t,
                seq!['E', 'R', 'R', 'O', 'R'],
            );
            let warning = holds(t, seq!['w', 'a', 'r', 'n', 'i', 'n', 'g']) || holds(
                t,
                seq!['W', 'a', 'r', 'n', 'i', 'n', 'g'],
            ) || holds(t, seq!['W', 'A', 'R', 'N']);
            let help = holds(t, seq!['C', 'o', 'm', 'm', 'a', 'n', 'd']) || holds(t, seq!['h', 'e', 'l', 'p']);
            let unknown = holds(t, seq!['U', 'n', 'k', 'n', 'o', 'w', 'n', ' ', 'c', 'o', 'm', 'm', 'a', 'n', 'd']);
            let status = holds(t, seq![':']) && (holds(t, seq!['o', 'n']) || holds(t, seq!['o', 'f', 'f']) || holds(
                t,
                seq!['s', 'w', 'i', 't', 'c', 'h'],
            ));
            &&& !blank && t[0] == '>' ==> output_style(t) == OutputStyle::Prompt
            &&& !blank && t[0] != '>' && error ==> output_style(t) == OutputStyle::Error
            &&& output_style(t) == OutputStyle::Error ==> error && t[0] != '>'
            &&& !blank && t[0] != '>' && !error && warning ==> output_style(t) == OutputStyle::Warning
            &&& !blank && t[0] != '>' && !error && !warning && help ==> output_style(t) == OutputStyle::Help
            &&& !blank && t[0] != '>' && !error && !warning && !help && unknown ==> output_style(t)
                == OutputStyle::UnknownCommand
            &&& !blank && t[0] != '>' && !error && !warning && !help && !unknown && status ==> output_style(t)
                == OutputStyle::Status
            &&& output_style(t) == OutputStyle::Plain ==> !blank && t[0] != '>' && !error && !warning && !help
                && !unknown && !status
        }),
{
}

/// Whether `c` is white space.
fn white_space(c: char) -> (r: bool)
    ensures
        r == is_white_space(c),
{
    ('\u{9}' <= c && c <= '\u{D}') || c == ' ' || c == '\u{85}' || c == '\u{A0}' || c == '\u{1680}' || (
    '\u{2000}' <= c && c <= '\u{200A}') || c == '\u{2028}' || c == '\u{2029}' || c == '\u{202F}' || c
        == '\u{205F}' || c == '\u{3000}'
}

/// The characters of `text`.
pub(crate) fn chars_of(text: &str) -> (r: Vec<char>)
    ensures
        r@ == text@,
{
    broadcast use vstd::string::axiom_spec_iter;

    let mut out: Vec<char> = Vec::new();
    let mut it = text.chars();
    loop
        invariant
            text@ == out@ + it.remaining(),
            it.obeys_prophetic_iter_laws(),
            it.decrease() is Some,
        ensures
            text@ == out@,
        decreases it.decrease()->0,
    {
        let ghost before = it;
        match it.next() {
            Some(c) => {
                proof {
                    broadcast use vstd::string::next_postcondition;

                    assert(before.remaining().len() > 0);
                    assert(out@.push(c) + it.remaining() =~= out@ + before.remaining());
                }
                out.push(c);
            },
            None => {
                proof {
                    broadcast use vstd::string::next_postcondition;

                    assert(out@ + it.remaining() =~= out@);
                }
                break;
            },
        }
    }
    out
}

/// Whether `text` holds `pattern` somewhere.
pub(crate) fn contains(text: &Vec<char>, pattern: &[char]) -> (r: bool)
    ensures
        r == holds(text@, pattern@),
{
    let n = text.len();
    let m = pattern.len();
    if m > n {
        assert forall|i: int| !occurs_at(text@, pattern@, i) by {}
        return false;
    }
    let mut i: usize = 0;
    while i <= n - m
        invariant
            n == text@.len(),
            m == pattern@.len(),
            m <= n,
            i <= n - m + 1,
            forall|k: int| 0 <= k < i ==> !occurs_at(text@, pattern@, k),
        decreases n - i,
    {
        let mut j: usize = 0;
        while j < m && text[i + j] == pattern[j]
            invariant
                n == text@.len(),
                m == pattern@.len(),
                i + m <= n,
                j <= m,
                forall|t: int| 0 <= t < j ==> text@[i + t] == pattern@[t],
            decreases m - j,
        {
            j = j + 1;
        }
        if j == m {
            assert(text@.subrange(i as int, i + m) =~= pattern@);
            assert(occurs_at(text@, pattern@, i as int));
            return true;
        }
        assert(!occurs_at(text@, pattern@, i as int)) by {
            if occurs_at(text@, pattern@, i as int) {
                assert(text@.subrange(i as int, i + m)[j as int] == text@[i + j]);
            }
        }
        i = i + 1;
    }
    assert forall|k: int| !occurs_at(text@, pattern@, k) by {
        if 0 <= k < i {
        }
    }
    false
}

/// The style in which to show a line that the device printed.
pub fn format_serial_output(text: &str) -> (r: OutputStyle)
    ensures
        r == output_style(text@),
        (forall|i: int| 0 <= i < text@.len() ==> is_white_space(#[trigger] text@[i])) <==> r == OutputStyle::Blank,
        r != OutputStyle::Blank && text@[0] == '>' ==> r == OutputStyle::Prompt,
        r != OutputStyle::Blank && text@[0] != '>' && (holds(text@, seq!['e', 'r', 'r', 'o', 'r']) || holds(
            text@,
            seq!['E', 'r', 'r', 'o', 'r'],
        ) || holds(text@, seq!['E', 'R', 'R', 'O', 'R'])) ==> r == OutputStyle::Error,
{
    proof {
        lemma_output_styles(text@);
    }
    let t = chars_of(text);
    let mut blank = true;
    let mut i: usize = 0;
    while i < t.len()
        invariant
            i <= t@.len(),
            blank == forall|k: int| 0 <= k < i ==> is_white_space(#[trigger] t@[k]),
        decreases t@.len() - i,
    {
        if !white_space(t[i]) {
            blank = false;
        }
        i = i + 1;
    }
    if blank {
        return OutputStyle::Blank;
    }
    let p_error: [char; 5] = ['e', 'r', 'r', 'o', 'r'];
    let p_error2: [char; 5] = ['E', 'r', 'r', 'o', 'r'];
    let p_error3: [char; 5] = ['E', 'R', 'R', 'O', 'R'];
    let p_warning: [char; 7] = ['w', 'a', 'r', 'n', 'i', 'n', 'g'];
    let p_warning2: [char; 7] = ['W', 'a', 'r', 'n', 'i', 'n', 'g'];
    let p_warn: [char; 4] = ['W', 'A', 'R', 'N'];
    let p_command: [char; 7] = ['C', 'o', 'm', 'm', 'a', 'n', 'd'];
    let p_help: [char; 4] = ['h', 'e', 'l', 'p'];
    let p_unknown: [char; 15] = ['U', 'n', 'k', 'n', 'o', 'w', 'n', ' ', 'c', 'o', 'm', 'm', 'a', 'n', 'd'];
    let p_colon: [char; 1] = [':'];
    let p_on: [char; 2] = ['o', 'n'];
    let p_off: [char; 3] = ['o', 'f', 'f'];
    let p_switch: [char; 6] = ['s', 'w', 'i', 't', 'c', 'h'];
    proof {
        assert(p_error@ =~= seq!['e', 'r', 'r', 'o', 'r']);
        assert(p_error2@ =~= seq!['E', 'r', 'r', 'o', 'r']);
        assert(p_error3@ =~= seq!['E', 'R', 'R', 'O', 'R']);
        assert(p_warning@ =~= seq!['w', 'a', 'r', 'n', 'i', 'n', 'g']);
        assert(p_warning2@ =~= seq!['W', 'a', 'r', 'n', 'i', 'n', 'g']);
        assert(p_warn@ =~= seq!['W', 'A', 'R', 'N']);
        assert(p_command@ =~= seq!['C', 'o', 'm', 'm', 'a', 'n', 'd']);
        assert(p_help@ =~= seq!['h', 'e', 'l', 'p']);
        assert(p_unknown@ =~= seq!['U', 'n', 'k', 'n', 'o', 'w', 'n', ' ', 'c', 'o', 'm', 'm', 'a', 'n', 'd']);
        assert(p_colon@ =~= seq![':']);
        assert(p_on@ =~= seq!['o', 'n']);
        assert(p_off@ =~= seq!['o', 'f', 'f']);
        assert(p_switch@ =~= seq!['s', 'w', 'i', 't', 'c', 'h']);
    }
    if t[0] == '>' {
        OutputStyle::Prompt
    } else if contains(&t, &p_error) || contains(&t, &p_error2) || contains(&t, &p_error3) {
        OutputStyle::Error
    } else if contains(&t, &p_warning) || contains(&t, &p_warning2) || contains(&t, &p_warn) {
        OutputStyle::Warning
    } else if contains(&t, &p_command) || contains(&t, &p_help) {
        OutputStyle::Help
    } else if contains(&t, &p_unknown) {
        OutputStyle::UnknownCommand
    } else if contains(&t, &p_colon) && (contains(&t, &p_on) || contains(&t, &p_off) || contains(&t, &p_switch)) {
        OutputStyle::Status
    } else {
        OutputStyle::Plain
    }
}

/// How the console loops split device output into lines.
#[derive(Clone, Copy, Debug, PartialEq, Eq, Structural)]
pub enum LineMode {
    /// The interactive console: a carriage return ends a line even when it
    /// is empty; tabs and backspaces are kept, other control characters
    /// dropped.
    Console,
    /// The monitor: a carriage return ends a line only when it holds
    /// something; every control character is dropped.
    Monitor,
}

/// How a piece of output that the loops print ends.
#[derive(Clone, Copy, Debug, PartialEq, Eq, Structural)]
pub enum LineEnd {
    /// The line ended with a line feed.
    Newline,
    /// The line ended with a carriage return.
    Return,
    /// The output stopped in the middle of a line, which is shown as far as
    /// it goes.
    Open,
}

/// A piece of output to print: its characters and how it ends.
#[derive(Clone, Debug)]
pub struct LinePiece {
    /// The characters of the piece.
    pub text: Vec<char>,
    /// How the piece ends.
    pub end: LineEnd,
}

impl View for LinePiece {
    type V = (Seq<char>, LineEnd);

    open spec fn view(&self) -> (Seq<char>, LineEnd) {
        (self.text@, self.end)
    }
}

/// Whether `c` is a control character, as `char::is_control` defines it
/// (the Unicode general category Cc: U+0000 to U+001F and U+007F to
/// U+009F).
pub open spec fn is_control_char(c: char) -> bool {
    (c as u32) < 0x20 || (0x7f <= (c as u32) && (c as u32) <= 0x9f)
}

/// Whether `c` is a control character.
pub fn is_control(c: char) -> (r: bool)
    ensures
        r == is_control_char(c),
{
    let code: u32 = c as u32;
    code < 0x20 || (0x7f <= code && code <= 0x9f)
}

/// The line buffer after one more character, and the piece that the
/// character completes, if any.
pub open spec fn feed_char(mode: LineMode, buf: Seq<char>, c: char) -> (Seq<char>, Option<(Seq<char>, LineEnd)>) {
    if c == '\n' {
        (Seq::empty(), Some((buf, LineEnd::Newline)))
    } else if c == '\r' {
        match mode {
            LineMode::Console => (Seq::empty(), Some((buf, LineEnd::Return))),
            LineMode::Monitor => if buf.len() > 0 {
                (Seq::empty(), Some((buf, LineEnd::Return)))
            } else {
                (buf, None)
            },
        }
    } else if is_control_char(c) && !(mode == LineMode::Console && (c == '\t' || c == '\u{8}')) {
        (buf, None)
    } else {
        (buf.push(c), None)
    }
}

/// The line buffer after the characters of `input`, and the pieces they
/// complete, in order.
pub open spec fn feed_all(mode: LineMode, buf: Seq<char>, input: Seq<char>) -> (Seq<char>, Seq<(Seq<char>, LineEnd)>)
    decreases input.len(),
{
    if input.len() == 0 {
        (buf, Seq::empty())
    } else {
        let prev = feed_all(mode, buf, input.drop_last());
        let step = feed_char(mode, prev.0, input.last());
        match step.1 {
            Some(piece) => (step.0, prev.1.push(piece)),
            None => (step.0, prev.1),
        }
    }
}

/// The line buffer after a chunk of output, and the pieces to print: the
/// lines that the chunk completes, then what is left of an unfinished
/// line, shown at once when the chunk does not end with a line feed or a
/// carriage return.
pub open spec fn feed_chunk_spec(mode: LineMode, buf: Seq<char>, input: Seq<char>) -> (Seq<char>, Seq<(Seq<char>, LineEnd)>) {
    let (b, out) = feed_all(mode, buf, input);
    if b.len() > 0 && !(input.len() > 0 && (input.last() == '\n' || input.last() == '\r')) {
        (Seq::empty(), out.push((b, LineEnd::Open)))
    } else {
        (b, out)
    }
}

/// The views of a list of pieces.
pub open spec fn pieces_view(pieces: Seq<LinePiece>) -> Seq<(Seq<char>, LineEnd)> {
    pieces.map_values(|p: LinePiece| p@)
}

/// How many times `c` occurs in `s`.
pub open spec fn count_char(s: Seq<char>, c: char) -> nat
    decreases s.len(),
{
    if s.len() == 0 {
        0
    } else {
        count_char(s.drop_last(), c) + if s.last() == c {
            1nat
        } else {
            0nat
        }
    }
}

/// How many of the pieces end with `e`.
pub open spec fn count_end(pieces: Seq<(Seq<char>, LineEnd)>, e: LineEnd) -> nat
    decreases pieces.len(),
{
    if pieces.len() == 0 {
        0
    } else {
        count_end(pieces.drop_last(), e) + if pieces.last().1 == e {
            1nat
        } else {
            0nat
        }
    }
}

/// The texts of the pieces, one after the other.
pub open spec fn joined_texts(pieces: Seq<(Seq<char>, LineEnd)>) -> Seq<char>
    decreases pieces.len(),
{
    if pieces.len() == 0 {
        Seq::empty()
    } else {
        joined_texts(pieces.drop_last()) + pieces.last().0
    }
}

/// Whether a character of device output is shown: line feeds and carriage
/// returns end lines and are not part of them; control characters are
/// dropped, but for tabs and backspaces on the console.
pub open spec fn shown_char(mode: LineMode, c: char) -> bool {
    &&& c != '\n'
    &&& c != '\r'
    &&& (!((c as u32) < 0x20 || (0x7f <= (c as u32) && (c as u32) <= 0x9f)) || (mode == LineMode::Console && (c
        == '\t' || c == '\u{8}')))
}

/// The characters of `s` that are shown, in order.
pub open spec fn shown_chars(mode: LineMode, s: Seq<char>) -> Seq<char>
    decreases s.len(),
{
    if s.len() == 0 {
        Seq::empty()
    } else if shown_char(mode, s.last()) {
        shown_chars(mode, s.drop_last()).push(s.last())
    } else {
        shown_chars(mode, s.drop_last())
    }
}

/// The line ends that the line feeds and carriage returns of `s` stand
/// for, in order.
pub open spec fn line_ends(s: Seq<char>) -> Seq<LineEnd>
    decreases s.len(),
{
    if s.len() == 0 {
        Seq::empty()
    } else if s.last() == '\n' {
        line_ends(s.drop_last()).push(LineEnd::Newline)
    } else if s.last() == '\r' {
        line_ends(s.drop_last()).push(LineEnd::Return)
    } else {
        line_ends(s.drop_last())
    }
}

/// How the pieces end, in order.
pub open spec fn piece_ends(pieces: Seq<(Seq<char>, LineEnd)>) -> Seq<LineEnd> {
    pieces.map_values(|p: (Seq<char>, LineEnd)| p.1)
}

proof fn lemma_push_piece(out: Seq<(Seq<char>, LineEnd)>, p: (Seq<char>, LineEnd))
    ensures
        out.push(p).drop_last() == out,
        out.push(p).last() == p,
        piece_ends(out.push(p)) == piece_ends(out).push(p.1),
{
    assert(out.push(p).drop_last() =~= out);
    assert(piece_ends(out.push(p)) =~= piece_ends(out).push(p.1));
}

/// Splitting characters into lines, one at a time, keeps what
/// `lemma_split_lines` states of a whole chunk.
proof fn lemma_feed_all(mode: LineMode, buf: Seq<char>, input: Seq<char>)
    ensures
        ({
            let (b, out) = feed_all(mode, buf, input);
            &&& count_end(out, LineEnd::Newline) == count_char(input, '\n')
            &&& count_end(out, LineEnd::Return) <= count_char(input, '\r')
            &&& mode == LineMode::Console ==> piece_ends(out) == line_ends(input)
            &&& count_end(out, LineEnd::Open) == 0
            &&& joined_texts(out) + b == buf + shown_chars(mode, input)
            &&& input.len() > 0 && (input.last() == '\n' || input.last() == '\r') ==> b.len() == 0
            &&& forall|i: int| 0 <= i < out.len() ==> (#[trigger] out[i]).1 != LineEnd::Open
            &&& forall|i: int|
                0 <= i < out.len() && mode == LineMode::Monitor && (#[trigger] out[i]).1 == LineEnd::Return ==> out[i].0.len()
                    > 0
        }),
    decreases input.len(),
{
    if input.len() == 0 {
        assert(piece_ends(Seq::<(Seq<char>, LineEnd)>::empty()) =~= Seq::<LineEnd>::empty());
        assert(buf + Seq::<char>::empty() =~= buf);
        assert(Seq::<char>::empty() + buf =~= buf);
    } else {
        let init = input.drop_last();
        let c = input.last();
        lemma_feed_all(mode, buf, init);
        let prev = feed_all(mode, buf, init);
        let (b0, out0) = prev;
        let step = feed_char(mode, b0, c);
        if let Some(piece) = step.1 {
            lemma_push_piece(out0, piece);
            assert(joined_texts(out0.push(piece)) == joined_texts(out0) + piece.0);
            assert(joined_texts(out0) + piece.0 + Seq::<char>::empty() =~= joined_texts(out0) + b0);
        } else {
            if step.0 == b0.push(c) {
                assert(joined_texts(out0) + b0.push(c) =~= (joined_texts(out0) + b0).push(c));
                assert(buf + shown_chars(mode, init).push(c) =~= (buf + shown_chars(mode, init)).push(c));
            }
        }
    }
}

/// What splitting a chunk of device output into lines does, for any
/// chunk and any unfinished line before it:
/// - every line feed of the chunk ends exactly one piece, ending in a line
///   feed, even when the line is empty;
/// - on the console every carriage return ends one piece too, and the
///   pieces end in the order of the line feeds and carriage returns of the
///   chunk, with at most one unfinished piece after them;
/// - the texts of the pieces, one after the other, are the unfinished line
///   followed by the characters of the chunk that are shown: nothing is
///   lost, repeated or invented;
/// - nothing is left over in the line buffer;
/// - only the last piece can be unfinished, and it is never empty; on the
///   monitor, no piece ending in a carriage return is empty.
pub proof fn lemma_split_lines(mode: LineMode, buf: Seq<char>, input: Seq<char>)
    ensures
        ({
            let (b, out) = feed_chunk_spec(mode, buf, input);
            &&& count_end(out, LineEnd::Newline) == count_char(input, '\n')
            &&& count_end(out, LineEnd::Return) <= count_char(input, '\r')
            &&& mode == LineMode::Console ==> count_end(out, LineEnd::Return) == count_char(input, '\r')
            &&& mode == LineMode::Console ==> (piece_ends(out) == line_ends(input) || piece_ends(out) == line_ends(
                input,
            ).push(LineEnd::Open))
            &&& count_end(out, LineEnd::Open) <= 1
            &&& joined_texts(out) == buf + shown_chars(mode, input)
            &&& b.len() == 0
            &&& forall|i: int|
                0 <= i < out.len() && (#[trigger] out[i]).1 == LineEnd::Open ==> out[i].0.len() > 0 && i == out.len() - 1
            &&& forall|i: int|
                0 <= i < out.len() && mode == LineMode::Monitor && (#[trigger] out[i]).1 == LineEnd::Return ==> out[i].0.len()
                    > 0
        }),
{
    lemma_feed_all(mode, buf, input);
    lemma_console_returns(mode, buf, input);
    let (b0, out0) = feed_all(mode, buf, input);
    if b0.len() > 0 && !(input.len() > 0 && (input.last() == '\n' || input.last() == '\r')) {
        lemma_push_piece(out0, (b0, LineEnd::Open));
        assert(joined_texts(out0.push((b0, LineEnd::Open))) == joined_texts(out0) + b0);
        let out = out0.push((b0, LineEnd::Open));
        assert forall|i: int| 0 <= i < out.len() && (#[trigger] out[i]).1 == LineEnd::Open implies out[i].0.len() > 0
            && i == out.len() - 1 by {
            if i < out0.len() {
                assert(out[i] == out0[i]);
            }
        }
    } else {
        assert(b0 =~= Seq::<char>::empty());
        assert(joined_texts(out0) + b0 =~= joined_texts(out0));
    }
}

/// On the console, the carriage returns of a chunk and the pieces ending
/// in one are as many.
proof fn lemma_console_returns(mode: LineMode, buf: Seq<char>, input: Seq<char>)
    ensures
        mode == LineMode::Console ==> count_end(feed_all(mode, buf, input).1, LineEnd::Return) == count_char(
            input,
            '\r',
        ),
    decreases input.len(),
{
    if input.len() > 0 {
        lemma_console_returns(mode, buf, input.drop_last());
        let (b0, out0) = feed_all(mode, buf, input.drop_last());
        if let Some(piece) = feed_char(mode, b0, input.last()).1 {
            lemma_push_piece(out0, piece);
        }
    }
}

/// Splits a chunk of device output into the pieces to print, starting with
/// the unfinished line in `line_buffer`, which is left empty.
pub fn feed_chunk(mode: LineMode, line_buffer: &mut Vec<char>, input: &[char]) -> (r: Vec<LinePiece>)
    ensures
        final(line_buffer)@ == feed_chunk_spec(mode, old(line_buffer)@, input@).0,
        pieces_view(r@) == feed_chunk_spec(mode, old(line_buffer)@, input@).1,
        final(line_buffer)@.len() == 0,
        count_end(pieces_view(r@), LineEnd::Newline) == count_char(input@, '\n'),
        count_end(pieces_view(r@), LineEnd::Return) <= count_char(input@, '\r'),
        mode == LineMode::Console ==> count_end(pieces_view(r@), LineEnd::Return) == count_char(input@, '\r'),
        mode == LineMode::Console ==> (piece_ends(pieces_view(r@)) == line_ends(input@) || piece_ends(
            pieces_view(r@),
        ) == line_ends(input@).push(LineEnd::Open)),
        count_end(pieces_view(r@), LineEnd::Open) <= 1,
        joined_texts(pieces_view(r@)) == old(line_buffer)@ + shown_chars(mode, input@),
        forall|i: int|
            0 <= i < r@.len() && (#[trigger] r@[i]).end == LineEnd::Open ==> r@[i].text@.len() > 0 && i == r@.len() - 1,
        forall|i: int|
            0 <= i < r@.len() && mode == LineMode::Monitor && (#[trigger] r@[i]).end == LineEnd::Return
                ==> r@[i].text@.len() > 0,
{
    proof {
        lemma_split_lines(mode, old(line_buffer)@, input@);
    }
    let ghost buf0 = line_buffer@;
    let mut out: Vec<LinePiece> = Vec::new();
    let mut i: usize = 0;
    while i < input.len()
        invariant
            i <= input@.len(),
            line_buffer@ == feed_all(mode, old(line_buffer)@, input@.take(i as int)).0,
            pieces_view(out@) == feed_all(mode, old(line_buffer)@, input@.take(i as int)).1,
        decreases input@.len() - i,
    {
        let c: char = input[i];
        let ghost prev_out = out@;
        assert(input@.take(i + 1).drop_last() =~= input@.take(i as int));
        assert(input@.take(i + 1).last() == c);
        let ends_piece: bool = if c == '\n' {
            true
        } else if c == '\r' {
            match mode {
                LineMode::Console => true,
                LineMode::Monitor => line_buffer.len() > 0,
            }
        } else {
            false
        };
        if ends_piece {
            let mut text: Vec<char> = Vec::new();
            std::mem::swap(&mut text, line_buffer);
            let end = if c == '\n' {
                LineEnd::Newline
            } else {
                LineEnd::Return
            };
            out.push(LinePiece { text, end });
            assert(pieces_view(out@) =~= pieces_view(prev_out).push((text@, end)));
        } else if c == '\r' {
        } else {
            let control: bool = is_control(c);
            let kept: bool = match mode {
                LineMode::Console => c == '\t' || c == '\u{8}',
                LineMode::Monitor => false,
            };
            if !control || kept {
                line_buffer.push(c);
            }
        }
        i = i + 1;
    }
    assert(input@.take(input@.len() as int) =~= input@);
    let n: usize = input.len();
    let ends_line: bool = n > 0 && (input[n - 1] == '\n' || input[n - 1] == '\r');
    if line_buffer.len() > 0 && !ends_line {
        let ghost prev_out = out@;
        let mut text: Vec<char> = Vec::new();
        std::mem::swap(&mut text, line_buffer);
        out.push(LinePiece { text, end: LineEnd::Open });
        assert(pieces_view(out@) =~= pieces_view(prev_out).push((text@, LineEnd::Open)));
    }
    proof {
        let pv = pieces_view(out@);
        assert(pv == feed_chunk_spec(mode, buf0, input@).1);
        assert forall|i: int| 0 <= i < out@.len() && (#[trigger] out@[i]).end == LineEnd::Open implies out@[i].text@.len()
            > 0 && i == out@.len() - 1 by {
            assert(pv[i] == out@[i]@);
        }
        assert forall|i: int| 0 <= i < out@.len() && mode == LineMode::Monitor && (#[trigger] out@[i]).end
            == LineEnd::Return implies out@[i].text@.len() > 0 by {
            assert(pv[i] == out@[i]@);
        }
    }
    out
}

} // verus!
