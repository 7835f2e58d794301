//! Formatting a status line to a string: title padding and line assembly.

use vstd::prelude::*;
use vstd::string::StrSliceExecFns;
use vstd::string::StringExecFns;

use crate::coloration::ansi_wrapped;
use crate::coloration::colorize_string;
use crate::coloration::no_escape;
use crate::coloration::styled_spec;
use crate::coloration::Color;
use crate::split::leading_of;
use crate::split::message_of;
use crate::split::split_title_message;
use crate::split::title_of;
use crate::split::ws_prefix_index;
use crate::split::ws_prefix_len;

verus! {

/// Width of the title column: titles narrower than this are right-aligned
/// in it with leading spaces.
pub const PAD_WIDTH: usize = 12;

/// `n` spaces.
pub open spec fn spaces(n: nat) -> Seq<char> {
    Seq::new(n, |i: int| ' ')
}

/// The padded form of a title: right-aligned to `PAD_WIDTH` characters
/// with leading spaces, and left whole when it is already that wide.
pub open spec fn pad_spec(t: Seq<char>) -> Seq<char> {
    if t.len() >= PAD_WIDTH {
        t
    } else {
        spaces((PAD_WIDTH - t.len()) as nat) + t
    }
}

/// Pads `title` on the left with spaces until it is `PAD_WIDTH` characters
/// wide. A title already `PAD_WIDTH` or wider comes back unchanged, never
/// truncated.
pub fn pad_title(title: &str) -> (r: String)
    ensures
        r@ == pad_spec(title@),
        title@.len() <= PAD_WIDTH ==> r@.len() == PAD_WIDTH,
        title@.len() > PAD_WIDTH ==> r@.len() == title@.len(),
{
    let n = title.unicode_len();
    let mut r = String::new();
    if n < PAD_WIDTH {
        let mut k: usize = 0;
        while k < PAD_WIDTH - n
            invariant
                n == title@.len(),
                n < PAD_WIDTH,
                k <= PAD_WIDTH - n,
                r@ == spaces(k as nat),
            decreases PAD_WIDTH - n - k,
        {
            proof {
                reveal_strlit(" ");
            }
            r.append(" ");
            k = k + 1;
            proof {
                assert(r@ =~= spaces(k as nat));
            }
        }
    }
    r.append(title);
    proof {
        assert(r@ =~= pad_spec(title@));
    }
    r
}

/// Assembles a line from its parts: leading whitespace, the painted title
/// column, one separating space, and the message.
fn join_line(leading: &str, painted: &str, message: &str) -> (r: String)
    ensures
        r@ == leading@ + painted@ + seq![' '] + message@,
{
    let mut r = leading.to_owned();
    r.append(painted);
    proof {
        reveal_strlit(" ");
    }
    r.append(" ");
    r.append(message);
    proof {
        assert(r@ =~= leading@ + painted@ + seq![' '] + message@);
    }
    r
}

/// Formats `title` and `msg` as one line: the leading whitespace of
/// `title` verbatim, the rest of `title` padded to `PAD_WIDTH` characters
/// and rendered bold in `color`, one space, then `msg`. When coloring is
/// globally disabled the title column is the padded title itself.
pub fn cformat(title: &str, msg: &str, color: &Color) -> (r: String)
    ensures
        ({
            let lead = leading_of(title@);
            let padded = pad_spec(
                title@.subrange(ws_prefix_len(title@) as int, title@.len() as int),
            );
            no_escape(padded) ==> (r@ == lead + padded + seq![' '] + msg@ || r@ == lead
                + styled_spec(padded, *color) + seq![' '] + msg@ || (*color is TrueColor
                && exists|fg: Seq<char>| r@ == lead + ansi_wrapped(fg, padded) + seq![' '] + msg@))
        }),
{
    let n = title.unicode_len();
    let i = ws_prefix_index(title);
    let lead = title.substring_char(0, i);
    let rest = title.substring_char(i, n);
    let padded = pad_title(rest);
    let painted = colorize_string(padded.as_str(), color);
    let r = join_line(lead, painted.as_str(), msg);
    proof {
        let leadv = leading_of(title@);
        let padv = pad_spec(title@.subrange(ws_prefix_len(title@) as int, title@.len() as int));
        assert(lead@ =~= leadv);
        assert(padded@ == padv);
        if no_escape(padv) {
            if painted@ == padv {
                assert(r@ =~= leadv + padv + seq![' '] + msg@);
            } else if painted@ == styled_spec(padv, *color) {
                assert(r@ =~= leadv + styled_spec(padv, *color) + seq![' '] + msg@);
            } else {
                let fg = choose|fg: Seq<char>| painted@ == ansi_wrapped(fg, padv);
                assert(r@ =~= leadv + ansi_wrapped(fg, padv) + seq![' '] + msg@);
            }
        }
    }
    r
}

/// Formats a single-string status line: the first word of `text` becomes
/// the title, what follows it becomes the message, and the leading
/// whitespace of `text` stands verbatim in front of the padded, colorized
/// title column.
pub fn cformat_message(text: &str, color: &Color) -> (r: String)
    ensures
        ({
            let lead = leading_of(text@);
            let padded = pad_spec(title_of(text@));
            no_escape(padded) ==> (r@ == lead + padded + seq![' '] + message_of(text@) || r@
                == lead + styled_spec(padded, *color) + seq![' '] + message_of(text@) || (*color
                is TrueColor && exists|fg: Seq<char>|
                r@ == lead + ansi_wrapped(fg, padded) + seq![' '] + message_of(text@)))
        }),
{
    let parts = split_title_message(text);
    let padded = pad_title(parts.1.as_str());
    let painted = colorize_string(padded.as_str(), color);
    let r = join_line(parts.0.as_str(), painted.as_str(), parts.2.as_str());
    proof {
        let leadv = leading_of(text@);
        let padv = pad_spec(title_of(text@));
        if no_escape(padv) {
            if painted@ == padv {
                assert(r@ =~= leadv + padv + seq![' '] + message_of(text@));
            } else if painted@ == styled_spec(padv, *color) {
                assert(r@ =~= leadv + styled_spec(padv, *color) + seq![' '] + message_of(text@));
            } else {
                let fg = choose|fg: Seq<char>| painted@ == ansi_wrapped(fg, padv);
                assert(r@ =~= leadv + ansi_wrapped(fg, padv) + seq![' '] + message_of(text@));
            }
        }
    }
    r
}

} // verus!
