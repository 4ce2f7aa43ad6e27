//! Scanning of the movetext of a game record.
//!
//! The movetext of a record holds the notation tokens of the primary line,
//! interspersed with move numbers (`1.`), annotation glyphs (`$1`, `!`, `?`),
//! comments (`{ ... }` and `; ...`), game results (`1-0`, `1/2-1/2`, `*`) and
//! parenthesised variation branches. Scanning keeps exactly the notation
//! tokens of the primary line: everything inside a variation is skipped
//! without being read, and the other interspersed material is dropped.

use vstd::prelude::*;

verus! {

/// The state of the movetext scanner after reading a prefix of the record.
pub ghost struct Scan {
    /// Nesting depth of variation parentheses; tokens count only at depth
    /// zero, the primary line.
    pub depth: nat,
    /// Whether the scanner stands inside a brace comment.
    pub in_brace: bool,
    /// Whether the scanner stands inside a rest-of-line comment.
    pub in_line: bool,
    /// The characters of the word being read, empty between words.
    pub cur: Seq<char>,
    /// The notation tokens of the primary line completed so far.
    pub toks: Seq<Seq<char>>,
}

/// Whether a character separates words of the movetext.
pub open spec fn is_ws(c: char) -> bool {
    c == ' ' || c == '\t' || c == '\n' || c == '\r'
}

/// Whether a character is a decimal digit.
pub open spec fn is_digit(c: char) -> bool {
    48 <= c as u32 <= 57
}

/// Whether a character is a suffix annotation glyph, which is dropped from
/// the word it follows.
pub open spec fn is_annotation(c: char) -> bool {
    c == '!' || c == '?'
}

/// Whether a completed word is a notation token. Move numbers and game
/// results begin with a digit or `*`, numeric annotation glyphs with `$`;
/// those are not notation.
pub open spec fn keeps(t: Seq<char>) -> bool {
    t.len() > 0 && !is_digit(t[0]) && t[0] != '*' && t[0] != '$'
}

/// The completed tokens after the word `cur` ends at nesting depth `depth`.
pub open spec fn flush_toks(depth: nat, cur: Seq<char>, toks: Seq<Seq<char>>) -> Seq<Seq<char>> {
    if depth == 0 && keeps(cur) {
        toks.push(cur)
    } else {
        toks
    }
}

/// The scanner state after the word being read ends.
pub open spec fn flushed(s: Scan) -> Scan {
    Scan { cur: Seq::empty(), toks: flush_toks(s.depth, s.cur, s.toks), ..s }
}

/// The scanner state before anything is read.
pub open spec fn scan_init() -> Scan {
    Scan { depth: 0, in_brace: false, in_line: false, cur: Seq::empty(), toks: Seq::empty() }
}

/// One step of the scanner: how reading one character changes its state.
pub open spec fn scan_step(s: Scan, c: char) -> Scan {
    if s.in_brace {
        if c == '}' {
            Scan { in_brace: false, ..s }
        } else {
            s
        }
    } else if s.in_line {
        if c == '\n' {
            Scan { in_line: false, ..s }
        } else {
            s
        }
    } else if c == '{' {
        Scan { in_brace: true, ..flushed(s) }
    } else if c == ';' {
        Scan { in_line: true, ..flushed(s) }
    } else if c == '(' {
        let f = flushed(s);
        Scan { depth: f.depth + 1, ..f }
    } else if c == ')' {
        let f = flushed(s);
        Scan { depth: if f.depth > 0 { (f.depth - 1) as nat } else { 0 as nat }, ..f }
    } else if is_ws(c) {
        flushed(s)
    } else if s.depth > 0 || is_annotation(c) {
        s
    } else {
        Scan { cur: s.cur.push(c), ..s }
    }
}

/// The scanner state after reading the whole string.
pub open spec fn scanned(s: Seq<char>) -> Scan
    decreases s.len(),
{
    if s.len() == 0 {
        scan_init()
    } else {
        scan_step(scanned(s.drop_last()), s.last())
    }
}

/// The notation tokens of the primary line of a movetext string.
pub open spec fn movetext_tokens(s: Seq<char>) -> Seq<Seq<char>> {
    flushed(scanned(s)).toks
}

/// Ends the word being read: keeps it as a token when it is notation of the
/// primary line, drops it otherwise.
fn flush_word(depth: usize, cur: &mut Vec<char>, toks: &mut Vec<Vec<char>>)
    ensures
        final(cur)@ == Seq::<char>::empty(),
        final(toks)@.map_values(|t: Vec<char>| t@) == flush_toks(
            depth as nat,
            old(cur)@,
            old(toks)@.map_values(|t: Vec<char>| t@),
        ),
{
    let mut keep = false;
    if depth == 0 && cur.len() > 0 {
        let c0 = cur[0];
        let u = c0 as u32;
        keep = !(48 <= u && u <= 57) && c0 != '*' && c0 != '$';
    }
    if keep {
        toks.push(cur.clone());
        proof {
            assert(toks@.map_values(|t: Vec<char>| t@) =~= flush_toks(
                depth as nat,
                old(cur)@,
                old(toks)@.map_values(|t: Vec<char>| t@),
            ));
        }
        cur.clear();
    } else {
        cur.clear();
    }
}

/// Scans a movetext record into the notation tokens of its primary line.
pub fn tokenize(text: &str) -> (toks: Vec<Vec<char>>)
    ensures
        toks@.map_values(|t: Vec<char>| t@) == movetext_tokens(text@),
{
    let n = text.unicode_len();
    let mut depth: usize = 0;
    let mut in_brace = false;
    let mut in_line = false;
    let mut cur: Vec<char> = Vec::new();
    let mut toks: Vec<Vec<char>> = Vec::new();
    let mut i: usize = 0;
    proof {
        assert(text@.take(0) =~= Seq::<char>::empty());
        assert(cur@ =~= Seq::<char>::empty());
        assert(toks@.map_values(|t: Vec<char>| t@) =~= Seq::<Seq<char>>::empty());
    }
    while i < n
        invariant
            n == text@.len(),
            i <= n,
            depth <= i,
            scanned(text@.take(i as int)) == (Scan {
                depth: depth as nat,
                in_brace,
                in_line,
                cur: cur@,
                toks: toks@.map_values(|t: Vec<char>| t@),
            }),
        decreases n - i,
    {
        let c = text.get_char(i);
        proof {
            assert(text@.take(i + 1).drop_last() =~= text@.take(i as int));
            assert(text@.take(i + 1).last() == text@[i as int]);
        }
        if in_brace {
            if c == '}' {
                in_brace = false;
            }
        } else if in_line {
            if c == '\n' {
                in_line = false;
            }
        } else if c == '{' {
            flush_word(depth, &mut cur, &mut toks);
            in_brace = true;
        } else if c == ';' {
            flush_word(depth, &mut cur, &mut toks);
            in_line = true;
        } else if c == '(' {
            flush_word(depth, &mut cur, &mut toks);
            depth = depth + 1;
        } else if c == ')' {
            flush_word(depth, &mut cur, &mut toks);
            if depth > 0 {
                depth = depth - 1;
            }
        } else if c == ' ' || c == '\t' || c == '\n' || c == '\r' {
            flush_word(depth, &mut cur, &mut toks);
        } else if depth > 0 || c == '!' || c == '?' {
        } else {
            cur.push(c);
        }
        i = i + 1;
    }
    proof {
        assert(text@.take(n as int) =~= text@);
    }
    flush_word(depth, &mut cur, &mut toks);
    toks
}

} // verus!
