//! Reading the output of a `forge script` deployment: the line that tells where the summary of
//! the broadcast transactions was saved.
use vstd::prelude::*;

verus! {

/// What `forge` prints before the path of the saved transactions.
pub const TRANSACTIONS_SAVED_MARKER: &'static str = "Transactions saved to:";

/// Whether `c` has the Unicode White_Space property.
pub open spec fn white_space(c: char) -> bool {
    let u = c as u32;
    ||| 0x9 <= u <= 0xd
    ||| u == 0x20
    ||| u == 0x85
    ||| u == 0xa0
    ||| u == 0x1680
    ||| 0x2000 <= u <= 0x200a
    ||| u == 0x2028
    ||| u == 0x2029
    ||| u == 0x202f
    ||| u == 0x205f
    ||| u == 0x3000
}

/// Whether `c` has the Unicode White_Space property.
pub fn is_white_space(c: char) -> (b: bool)
    ensures
        b == white_space(c),
{
    let u = c as u32;
    (0x9 <= u && u <= 0xd) || u == 0x20 || u == 0x85 || u == 0xa0 || u == 0x1680
        || (0x2000 <= u && u <= 0x200a) || u == 0x2028 || u == 0x2029 || u == 0x202f
        || u == 0x205f || u == 0x3000
}

/// `s` without its leading white space.
pub open spec fn trim_start(s: Seq<char>) -> Seq<char>
    decreases s.len(),
{
    if s.len() > 0 && white_space(s[0]) {
        trim_start(s.drop_first())
    } else {
        s
    }
}

/// `s` without its trailing white space.
pub open spec fn trim_end(s: Seq<char>) -> Seq<char>
    decreases s.len(),
{
    if s.len() > 0 && white_space(s.last()) {
        trim_end(s.drop_last())
    } else {
        s
    }
}

/// `s` without its leading and trailing white space.
pub open spec fn trim(s: Seq<char>) -> Seq<char> {
    trim_end(trim_start(s))
}

/// The position of the first `c` in `s` at or after `from`, if any.
pub open spec fn find_from(s: Seq<char>, c: char, from: int) -> Option<int>
    decreases s.len() - from,
{
    if from < 0 || from >= s.len() {
        None
    } else if s[from] == c {
        Some(from)
    } else {
        find_from(s, c, from + 1)
    }
}

/// Where `find_from` finds a character: at or after `from`, inside `s`, and it is that
/// character; and no earlier one from `from` on is.
pub proof fn lemma_find_from(s: Seq<char>, c: char, from: int)
    ensures
        find_from(s, c, from) matches Some(i) ==> from <= i < s.len() && s[i] == c
            && forall|j: int| from <= j < i ==> s[j] != c,
        find_from(s, c, from) is None && 0 <= from ==> forall|j: int| from <= j < s.len() ==> s[j] != c,
    decreases s.len() - from,
{
    if from >= 0 && from < s.len() && s[from] != c {
        lemma_find_from(s, c, from + 1);
    }
}

/// A line without its line feed and the carriage return before it.
pub open spec fn strip_cr(line: Seq<char>) -> Seq<char> {
    if line.len() > 0 && line.last() == '\r' {
        line.drop_last()
    } else {
        line
    }
}

/// Whether `needle` occurs in `hay`.
pub open spec fn contains_chars(hay: Seq<char>, needle: Seq<char>) -> bool {
    exists|i: int| 0 <= i && i + needle.len() <= hay.len() && #[trigger] hay.subrange(i, i + needle.len()) == needle
}

/// The first line of `s`, from position `from` on, that contains `needle`, lines ending at a
/// line feed, which they do not include, nor a carriage return just before it.
pub open spec fn find_line(s: Seq<char>, needle: Seq<char>, from: int) -> Option<Seq<char>>
    decreases s.len() - from,
{
    if from < 0 || from >= s.len() {
        None
    } else {
        match find_from(s, '\n', from) {
            Some(end) => {
                let line = strip_cr(s.subrange(from, end));
                if contains_chars(line, needle) {
                    Some(line)
                } else {
                    proof { lemma_find_from(s, '\n', from); }
                    find_line(s, needle, end + 1)
                }
            },
            None => {
                let line = strip_cr(s.subrange(from, s.len() as int));
                if contains_chars(line, needle) {
                    Some(line)
                } else {
                    None
                }
            },
        }
    }
}

/// What follows the first `:` of a line, if it has one.
pub open spec fn after_colon(line: Seq<char>) -> Option<Seq<char>> {
    match find_from(line, ':', 0) {
        Some(i) => Some(line.subrange(i + 1, line.len() as int)),
        None => None,
    }
}

/// Why the path of the saved transactions cannot be read.
#[derive(Debug, Clone, Copy, PartialEq, Eq, Structural)]
pub enum ForgeOutputError {
    /// No line tells where the transactions were saved.
    NoTransactionsLine,
    /// The line has nothing after its `:`.
    NoPathAfterMarker,
}

/// The path of the saved transactions that a `forge` output tells: in the trimmed output, the
/// first line that contains the marker, what follows its first `:`, trimmed.
pub open spec fn spec_saved_transactions_path(output: Seq<char>) -> Result<Seq<char>, ForgeOutputError> {
    match find_line(trim(output), TRANSACTIONS_SAVED_MARKER@, 0) {
        None => Err(ForgeOutputError::NoTransactionsLine),
        Some(line) => match after_colon(line) {
            None => Err(ForgeOutputError::NoPathAfterMarker),
            Some(rest) => Ok(trim(rest)),
        },
    }
}

/// Appends a character to a text.
///
/// Calls `String::push`, which appends the given char to the end of the string.
#[verifier::external_body]
pub(crate) fn push_char(s: &mut String, c: char)
    ensures
        final(s)@ == old(s)@.push(c),
{
    s.push(c);
}

/// The characters of a text.
pub fn chars_of(s: &str) -> (v: Vec<char>)
    ensures
        v@ == s@,
{
    let mut v: Vec<char> = Vec::new();
    for c in it: s.chars()
        invariant
            it.seq() == s@,
            v@ == it.seq().take(it.index() as int),
    {
        v.push(c);
        proof {
            assert(v@ =~= it.seq().take(it.index() + 1));
        }
    }
    assert(v@ =~= s@);
    v
}

/// The text of the characters `chars[from..to]`.
pub fn text_of(chars: &Vec<char>, from: usize, to: usize) -> (s: String)
    requires
        from <= to <= chars@.len(),
    ensures
        s@ == chars@.subrange(from as int, to as int),
{
    let mut s = String::new();
    let mut i = from;
    while i < to
        invariant
            from <= i <= to <= chars@.len(),
            s@ == chars@.subrange(from as int, i as int),
        decreases to - i,
    {
        push_char(&mut s, chars[i]);
        assert(s@ =~= chars@.subrange(from as int, i + 1));
        i = i + 1;
    }
    s
}

/// The bounds of `chars[from..to]` without its leading and trailing white space.
pub fn trim_bounds(chars: &Vec<char>, from: usize, to: usize) -> (r: (usize, usize))
    requires
        from <= to <= chars@.len(),
    ensures
        from <= r.0 <= r.1 <= to,
        chars@.subrange(r.0 as int, r.1 as int) == trim(chars@.subrange(from as int, to as int)),
{
    let mut a = from;
    while a < to && is_white_space(chars[a])
        invariant
            from <= a <= to <= chars@.len(),
            trim_start(chars@.subrange(from as int, to as int)) == trim_start(chars@.subrange(a as int, to as int)),
        decreases to - a,
    {
        assert(chars@.subrange(a as int, to as int).drop_first() =~= chars@.subrange(a + 1, to as int));
        a = a + 1;
    }
    proof {
        let t = chars@.subrange(a as int, to as int);
        if t.len() > 0 {
            assert(t[0] == chars@[a as int]);
        }
        assert(trim_start(t) == t);
    }
    let mut b = to;
    while b > a && is_white_space(chars[b - 1])
        invariant
            from <= a <= b <= to <= chars@.len(),
            trim_end(chars@.subrange(a as int, to as int)) == trim_end(chars@.subrange(a as int, b as int)),
        decreases b - a,
    {
        assert(chars@.subrange(a as int, b as int).drop_last() =~= chars@.subrange(a as int, b - 1));
        b = b - 1;
    }
    proof {
        let t = chars@.subrange(a as int, b as int);
        if t.len() > 0 {
            assert(t.last() == chars@[b - 1]);
        }
        assert(trim_end(t) == t);
    }
    (a, b)
}

/// The position of the first `c` in `chars` at or after `from`, if any.
pub fn find_char(chars: &Vec<char>, c: char, from: usize) -> (r: Option<usize>)
    ensures
        match find_from(chars@, c, from as int) {
            Some(i) => r == Some(i as usize),
            None => r is None,
        },
{
    let mut i = from;
    while i < chars.len()
        invariant
            from <= i,
            find_from(chars@, c, from as int) == find_from(chars@, c, i as int),
        decreases chars@.len() - i,
    {
        if chars[i] == c {
            return Some(i);
        }
        i = i + 1;
    }
    None
}

/// Whether `needle` occurs in `chars[from..to]`.
pub fn contains_in(chars: &Vec<char>, from: usize, to: usize, needle: &Vec<char>) -> (b: bool)
    requires
        from <= to <= chars@.len(),
    ensures
        b == contains_chars(chars@.subrange(from as int, to as int), needle@),
{
    let ghost hay = chars@.subrange(from as int, to as int);
    if needle.len() > to - from {
        return false;
    }
    let last = to - from - needle.len();
    let mut i: usize = 0;
    loop
        invariant
            i <= last,
            last + needle@.len() == hay.len(),
            hay == chars@.subrange(from as int, to as int),
            from <= to <= chars@.len(),
            forall|k: int| 0 <= k < i ==> #[trigger] hay.subrange(k, k + needle@.len()) != needle@,
        decreases last - i,
    {
        let mut j: usize = 0;
        let mut same = true;
        while j < needle.len()
            invariant
                0 <= j <= needle@.len(),
                i + needle@.len() <= hay.len(),
                hay == chars@.subrange(from as int, to as int),
                from <= to <= chars@.len(),
                same == (forall|k: int| 0 <= k < j ==> hay[i + k] == needle@[k]),
            decreases needle@.len() - j,
        {
            if chars[from + i + j] != needle[j] {
                same = false;
            }
            j = j + 1;
        }
        if same {
            assert(hay.subrange(i as int, i + needle@.len()) =~= needle@);
            return true;
        }
        proof {
            let k0 = choose|k: int| 0 <= k < needle@.len() && hay[i + k] != needle@[k];
            assert(hay.subrange(i as int, i + needle@.len())[k0] != needle@[k0]);
        }
        if i == last {
            assert forall|k: int| 0 <= k && k + needle@.len() <= hay.len() implies #[trigger] hay.subrange(k, k + needle@.len()) != needle@ by {
                assert(k <= last);
            }
            return false;
        }
        i = i + 1;
    }
}

/// The characters `chars[from..to]`.
pub fn slice_chars(chars: &Vec<char>, from: usize, to: usize) -> (v: Vec<char>)
    requires
        from <= to <= chars@.len(),
    ensures
        v@ == chars@.subrange(from as int, to as int),
{
    let mut v: Vec<char> = Vec::new();
    let mut i = from;
    while i < to
        invariant
            from <= i <= to <= chars@.len(),
            v@ == chars@.subrange(from as int, i as int),
        decreases to - i,
    {
        v.push(chars[i]);
        assert(v@ =~= chars@.subrange(from as int, i + 1));
        i = i + 1;
    }
    v
}

/// The path of the saved transactions that a `forge` output tells: in the trimmed output, the
/// first line that contains the marker, what follows its first `:`, trimmed.
pub fn saved_transactions_path(output: &str) -> (r: Result<String, ForgeOutputError>)
    ensures
        match spec_saved_transactions_path(output@) {
            Ok(p) => r matches Ok(s) && s@ == p,
            Err(e) => r == Err::<String, ForgeOutputError>(e),
        },
{
    let all = chars_of(output);
    let (a, b) = trim_bounds(&all, 0, all.len());
    assert(all@.subrange(0, all@.len() as int) =~= output@);
    let t = slice_chars(&all, a, b);
    let marker = chars_of(TRANSACTIONS_SAVED_MARKER);
    let mut from: usize = 0;
    loop
        invariant
            from <= t@.len(),
            t@ == trim(output@),
            marker@ == TRANSACTIONS_SAVED_MARKER@,
            find_line(t@, marker@, 0) == find_line(t@, marker@, from as int),
        decreases t@.len() - from,
    {
        if from >= t.len() {
            return Err(ForgeOutputError::NoTransactionsLine);
        }
        let newline = find_char(&t, '\n', from);
        proof { lemma_find_from(t@, '\n', from as int); }
        let end = match newline {
            Some(e) => e,
            None => t.len(),
        };
        let line_end = if end > from && t[end - 1] == '\r' { end - 1 } else { end };
        assert(t@.subrange(from as int, line_end as int) == strip_cr(t@.subrange(from as int, end as int))) by {
            let raw = t@.subrange(from as int, end as int);
            if end > from && t@[end - 1] == '\r' {
                assert(raw.last() == t@[end - 1]);
                assert(raw.drop_last() =~= t@.subrange(from as int, line_end as int));
            } else {
                if raw.len() > 0 {
                    assert(raw.last() == t@[end - 1]);
                }
            }
        }
        if contains_in(&t, from, line_end, &marker) {
            let line = slice_chars(&t, from, line_end);
            let colon = find_char(&line, ':', 0);
            proof { lemma_find_from(line@, ':', 0); }
            match colon {
                None => return Err(ForgeOutputError::NoPathAfterMarker),
                Some(c) => {
                    let (pa, pb) = trim_bounds(&line, c + 1, line.len());
                    return Ok(text_of(&line, pa, pb));
                },
            }
        }
        match newline {
            None => return Err(ForgeOutputError::NoTransactionsLine),
            Some(e) => {
                from = e + 1;
            },
        }
    }
}

} // verus!
