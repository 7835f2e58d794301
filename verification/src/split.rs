//! Splitting a status line into leading whitespace, title and message.
//!
//! The title of a one-string status line is its first whitespace-delimited
//! token; any whitespace in front of it (for example a carriage return used
//! to overwrite the current line) is preserved verbatim, and the message is
//! what follows the title, minus the single separating whitespace character.

use vstd::prelude::*;
use vstd::string::StrSliceExecFns;

verus! {

/// A character of Unicode's White_Space set, the set that
/// `char::is_whitespace` recognizes.
pub open spec fn is_ws(c: char) -> bool {
    ||| c == ' '
    ||| c == '\t'
    ||| c == '\n'
    ||| c == '\u{b}'
    ||| c == '\u{c}'
    ||| c == '\r'
    ||| c == '\u{85}'
    ||| c == '\u{a0}'
    ||| c == '\u{1680}'
    ||| c == '\u{2000}'
    ||| c == '\u{2001}'
    ||| c == '\u{2002}'
    ||| c == '\u{2003}'
    ||| c == '\u{2004}'
    ||| c == '\u{2005}'
    ||| c == '\u{2006}'
    ||| c == '\u{2007}'
    ||| c == '\u{2008}'
    ||| c == '\u{2009}'
    ||| c == '\u{200a}'
    ||| c == '\u{2028}'
    ||| c == '\u{2029}'
    ||| c == '\u{202f}'
    ||| c == '\u{205f}'
    ||| c == '\u{3000}'
}

/// Whether `c` is a whitespace character in the sense of Unicode's
/// White_Space property.
pub fn is_whitespace_char(c: char) -> (r: bool)
    ensures
        r == is_ws(c),
{
    c == ' ' || c == '\t' || c == '\n' || c == '\u{b}' || c == '\u{c}' || c == '\r'
        || c == '\u{85}' || c == '\u{a0}' || c == '\u{1680}' || c == '\u{2000}'
        || c == '\u{2001}' || c == '\u{2002}' || c == '\u{2003}' || c == '\u{2004}'
        || c == '\u{2005}' || c == '\u{2006}' || c == '\u{2007}' || c == '\u{2008}'
        || c == '\u{2009}' || c == '\u{200a}' || c == '\u{2028}' || c == '\u{2029}'
        || c == '\u{202f}' || c == '\u{205f}' || c == '\u{3000}'
}

/// Length of the longest prefix of `s` made of whitespace characters.
pub open spec fn ws_prefix_len(s: Seq<char>) -> nat
    decreases s.len(),
{
    if s.len() == 0 || !is_ws(s[0]) {
        0
    } else {
        ws_prefix_len(s.drop_first()) + 1
    }
}

/// Length of the longest prefix of `s` free of whitespace characters.
pub open spec fn token_len(s: Seq<char>) -> nat
    decreases s.len(),
{
    if s.len() == 0 || is_ws(s[0]) {
        0
    } else {
        token_len(s.drop_first()) + 1
    }
}

/// The leading whitespace of `s`, kept verbatim by the splitter.
pub open spec fn leading_of(s: Seq<char>) -> Seq<char> {
    s.subrange(0, ws_prefix_len(s) as int)
}

/// The title of `s`: its first whitespace-delimited token.
pub open spec fn title_of(s: Seq<char>) -> Seq<char> {
    let w = ws_prefix_len(s);
    let t = token_len(s.subrange(w as int, s.len() as int));
    s.subrange(w as int, (w + t) as int)
}

/// The message of `s`: what follows the title, minus the one whitespace
/// character that separates the two; empty when nothing follows the title.
pub open spec fn message_of(s: Seq<char>) -> Seq<char> {
    let w = ws_prefix_len(s);
    let t = token_len(s.subrange(w as int, s.len() as int));
    if w + t < s.len() {
        s.subrange((w + t + 1) as int, s.len() as int)
    } else {
        Seq::empty()
    }
}

proof fn lemma_ws_prefix_len_at(s: Seq<char>, k: int)
    requires
        0 <= k <= s.len(),
        forall|i: int| 0 <= i < k ==> is_ws(s[i]),
        k == s.len() || !is_ws(s[k]),
    ensures
        ws_prefix_len(s) == k,
    decreases k,
{
    if k == 0 {
    } else {
        assert(is_ws(s[0]));
        let d = s.drop_first();
        assert forall|i: int| 0 <= i < k - 1 implies is_ws(d[i]) by {
            assert(d[i] == s[i + 1]);
        }
        lemma_ws_prefix_len_at(d, k - 1);
    }
}

proof fn lemma_token_len_at(s: Seq<char>, k: int)
    requires
        0 <= k <= s.len(),
        forall|i: int| 0 <= i < k ==> !is_ws(s[i]),
        k == s.len() || is_ws(s[k]),
    ensures
        token_len(s) == k,
    decreases k,
{
    if k == 0 {
    } else {
        assert(!is_ws(s[0]));
        let d = s.drop_first();
        assert forall|i: int| 0 <= i < k - 1 implies !is_ws(d[i]) by {
            assert(d[i] == s[i + 1]);
        }
        lemma_token_len_at(d, k - 1);
    }
}

/// Index of the first non-whitespace character of `text` (its length when
/// there is none).
pub(crate) fn ws_prefix_index(text: &str) -> (i: usize)
    ensures
        i == ws_prefix_len(text@),
        i <= text@.len(),
{
    let n = text.unicode_len();
    let mut i: usize = 0;
    while i < n && is_whitespace_char(text.get_char(i))
        invariant
            i <= n,
            n == text@.len(),
            forall|j: int| 0 <= j < i ==> is_ws(text@[j]),
        decreases n - i,
    {
        i = i + 1;
    }
    proof {
        lemma_ws_prefix_len_at(text@, i as int);
    }
    i
}

/// The whitespace prefix of `text`, verbatim.
pub fn leading_whitespace(text: &str) -> (r: String)
    ensures
        r@ == leading_of(text@),
{
    let i = ws_prefix_index(text);
    text.substring_char(0, i).to_owned()
}

/// Splits `text` into its leading whitespace, its title (the first
/// whitespace-delimited token after the leading whitespace) and its message
/// (the rest, minus the one separating whitespace character). A text that
/// is empty or all whitespace yields an empty title and an empty message.
pub fn split_title_message(text: &str) -> (r: (String, String, String))
    ensures
        r.0@ == leading_of(text@),
        r.1@ == title_of(text@),
        r.2@ == message_of(text@),
{
    let n = text.unicode_len();
    let i = ws_prefix_index(text);
    let mut j: usize = i;
    while j < n && !is_whitespace_char(text.get_char(j))
        invariant
            i <= j <= n,
            n == text@.len(),
            forall|k: int| i <= k < j ==> !is_ws(text@[k]),
        decreases n - j,
    {
        j = j + 1;
    }
    proof {
        let rest = text@.subrange(i as int, n as int);
        assert forall|k: int| 0 <= k < j - i implies !is_ws(rest[k]) by {
            assert(rest[k] == text@[i + k]);
        }
        if j < n {
            assert(rest[j - i] == text@[j as int]);
        }
        lemma_token_len_at(rest, j - i);
    }
    let leading = text.substring_char(0, i).to_owned();
    let title = text.substring_char(i, j).to_owned();
    let message = if j < n {
        text.substring_char(j + 1, n).to_owned()
    } else {
        String::new()
    };
    proof {
        if j >= n {
            assert(message_of(text@) =~= Seq::<char>::empty());
        }
    }
    (leading, title, message)
}

/// Law: splitting the join of a title, a single space and a message
/// recovers the title and the message exactly, and yields no leading
/// whitespace, whenever the title is nonempty and contains no whitespace.
pub proof fn lemma_split_round_trip(title: Seq<char>, message: Seq<char>)
    requires
        title.len() > 0,
        forall|i: int| 0 <= i < title.len() ==> !is_ws(title[i]),
    ensures
        leading_of(title + seq![' '] + message) == Seq::<char>::empty(),
        title_of(title + seq![' '] + message) == title,
        message_of(title + seq![' '] + message) == message,
{
    let s = title + seq![' '] + message;
    assert(s[0] == title[0]);
    lemma_ws_prefix_len_at(s, 0);
    let rest = s.subrange(0, s.len() as int);
    assert(rest =~= s);
    assert forall|i: int| 0 <= i < title.len() implies !is_ws(rest[i]) by {
        assert(rest[i] == title[i]);
    }
    assert(rest[title.len() as int] == ' ');
    lemma_token_len_at(rest, title.len() as int);
    assert(leading_of(s) =~= Seq::<char>::empty());
    assert(title_of(s) =~= title);
    assert(message_of(s) =~= message);
}

} // verus!
