//! The text the run prints: the centering utility, banner headers and
//! step-marker lines.

use vstd::prelude::*;

verus! {

/// The character `c` repeated `n` times.
pub open spec fn char_repeat(c: char, n: nat) -> Seq<char> {
    Seq::new(n, |i: int| c)
}

/// A string centered in a field of `width` characters: the padding is split
/// between the two sides, with any odd remainder going to the right side;
/// a string at or above `width` is returned unchanged.
pub open spec fn pad_center_spec(s: Seq<char>, width: int, c: char) -> Seq<char> {
    if s.len() >= width {
        s
    } else {
        let left = (width - s.len()) / 2;
        let right = (width - s.len()) - left;
        char_repeat(c, left as nat) + s + char_repeat(c, right as nat)
    }
}

/// Relies on String::push: appends the given character to the end of the string.
#[verifier::external_body]
fn push_char(s: &mut String, c: char)
    ensures
        final(s)@ == old(s)@.push(c),
{
    s.push(c);
}

/// The character `c` repeated `n` times, as a string.
pub fn repeat_char(c: char, n: usize) -> (r: String)
    ensures
        r@ == char_repeat(c, n as nat),
{
    let mut r = String::new();
    let mut i: usize = 0;
    proof {
        assert(r@ =~= char_repeat(c, 0));
    }
    while i < n
        invariant
            i <= n,
            r@ == char_repeat(c, i as nat),
        decreases n - i,
    {
        push_char(&mut r, c);
        i = i + 1;
        proof {
            assert(r@ =~= char_repeat(c, i as nat));
        }
    }
    r
}

/// Centers `s` in a field of `width` copies of `pad_char`, splitting the
/// padding with any remainder on the right; a string at or above `width`
/// comes back unchanged.
pub fn pad_to_center(s: &str, width: usize, pad_char: char) -> (r: String)
    ensures
        r@ == pad_center_spec(s@, width as int, pad_char),
        s@.len() >= width ==> r@ == s@,
        s@.len() < width ==> r@.len() == width,
{
    let len = s.unicode_len();
    if len >= width {
        String::from_str(s)
    } else {
        let left = (width - len) / 2;
        let right = width - len - left;
        let mut r = repeat_char(pad_char, left);
        r.append(s);
        let rp = repeat_char(pad_char, right);
        r.append(rp.as_str());
        proof {
            assert(r@ =~= pad_center_spec(s@, width as int, pad_char));
        }
        r
    }
}

/// A step-marker line: the message behind a `>> ` prefix.
pub open spec fn step_line_spec(msg: Seq<char>) -> Seq<char> {
    ">> "@ + msg
}

/// Builds the step-marker line for a message.
pub fn step_line(msg: &str) -> (r: String)
    ensures
        r@ == step_line_spec(msg@),
{
    let mut r = String::from_str(">> ");
    r.append(msg);
    r
}

/// The banner frame: the `=` character repeated fifty times.
pub open spec fn frame_line() -> Seq<char> {
    char_repeat('=', 50)
}

/// The five output lines of a banner header: a blank line, the frame, the
/// message with one space either side centered in `=` padding, the frame
/// again, and a final blank line.
pub open spec fn header_view(msg: Seq<char>) -> Seq<Seq<char>> {
    seq![
        Seq::<char>::empty(),
        frame_line(),
        pad_center_spec(" "@ + msg + " "@, 50, '='),
        frame_line(),
        Seq::<char>::empty(),
    ]
}

/// The views of a list of output lines.
pub open spec fn lines_view(v: Vec<String>) -> Seq<Seq<char>> {
    v@.map_values(|l: String| l@)
}

/// Builds the five banner-header lines for a message.
pub fn header_lines(msg: &str) -> (r: Vec<String>)
    ensures
        lines_view(r) == header_view(msg@),
{
    let frame = repeat_char('=', 50);
    let mut mid = String::from_str(" ");
    mid.append(msg);
    mid.append(" ");
    proof {
        reveal_strlit(" ");
    }
    let centered = pad_to_center(mid.as_str(), 50, '=');
    let mut r: Vec<String> = Vec::new();
    r.push(String::new());
    r.push(frame);
    r.push(centered);
    let frame2 = repeat_char('=', 50);
    r.push(frame2);
    r.push(String::new());
    proof {
        assert(lines_view(r) =~= header_view(msg@));
    }
    r
}

} // verus!
