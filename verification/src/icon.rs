use vstd::prelude::*;
use vstd::string::StringSliceAdditionalSpecFns;

verus! {

/// Bytes that separate the commands and numbers of an SVG path.
pub open spec fn separator(b: u8) -> bool {
    b == 32 || b == 44 || b == 9 || b == 10 || b == 13
}

/// An ASCII letter: a path command.
pub open spec fn letter(b: u8) -> bool {
    (65 <= b && b <= 90) || (97 <= b && b <= 122)
}

/// A byte of a number's body: a digit or the decimal point.
pub open spec fn numeric(b: u8) -> bool {
    (48 <= b && b <= 57) || b == 46
}

/// The first position from `p` on that is not a separator.
pub open spec fn after_separators(bytes: Seq<u8>, p: int) -> int
    decreases bytes.len() - p,
{
    if 0 <= p < bytes.len() && separator(bytes[p]) {
        after_separators(bytes, p + 1)
    } else {
        p
    }
}

/// The first position from `p` on that does not continue a number's body.
pub open spec fn after_digits(bytes: Seq<u8>, p: int) -> int
    decreases bytes.len() - p,
{
    if 0 <= p < bytes.len() && numeric(bytes[p]) {
        after_digits(bytes, p + 1)
    } else {
        p
    }
}

/// The command a path repeats when numbers follow without a letter: a move
/// goes on as lines, any other command goes on as itself.
pub open spec fn repeated(command: char) -> char {
    if command == 'M' {
        'L'
    } else {
        command
    }
}

proof fn lemma_after_separators(bytes: Seq<u8>, p: int)
    requires
        0 <= p <= bytes.len(),
    ensures
        p <= after_separators(bytes, p) <= bytes.len(),
        after_separators(bytes, p) < bytes.len() ==> !separator(bytes[after_separators(bytes, p)]),
    decreases bytes.len() - p,
{
    if p < bytes.len() && separator(bytes[p]) {
        lemma_after_separators(bytes, p + 1);
    }
}

proof fn lemma_after_digits(bytes: Seq<u8>, p: int)
    requires
        0 <= p <= bytes.len(),
    ensures
        p <= after_digits(bytes, p) <= bytes.len(),
    decreases bytes.len() - p,
{
    if p < bytes.len() && numeric(bytes[p]) {
        lemma_after_digits(bytes, p + 1);
    }
}

/// A reading position in the text of an SVG path, and the command that
/// numbers without a letter of their own continue.
pub struct Cursor<'a> {
    bytes: &'a [u8],
    position: usize,
    pending: Option<char>,
}

impl<'a> Cursor<'a> {
    pub closed spec fn text(self) -> Seq<u8> {
        self.bytes@
    }

    pub closed spec fn position(self) -> int {
        self.position as int
    }

    pub closed spec fn pending(self) -> Option<char> {
        self.pending
    }

    pub closed spec fn wf(self) -> bool {
        self.position <= self.bytes@.len()
    }

    /// A cursor at the start of `path`, with no command yet.
    pub fn new(path: &'a str) -> (cursor: Self)
        ensures
            cursor.wf(),
            cursor.position() == 0,
            cursor.pending() is None,
            cursor.text() == path.spec_bytes(),
    {
        Cursor { bytes: path.as_bytes(), position: 0, pending: None }
    }

    /// Moves past spaces, commas, tabs and line breaks.
    pub fn skip_separators(&mut self)
        requires
            old(self).wf(),
        ensures
            final(self).wf(),
            final(self).text() == old(self).text(),
            final(self).pending() == old(self).pending(),
            final(self).position() == after_separators(old(self).text(), old(self).position()),
    {
        proof {
            lemma_after_separators(self.bytes@, self.position as int);
        }
        while self.position < self.bytes.len()
            invariant
                self.position <= self.bytes@.len(),
                self.bytes@ == old(self).bytes@,
                self.pending == old(self).pending,
                after_separators(self.bytes@, self.position as int) == after_separators(
                    old(self).bytes@,
                    old(self).position as int,
                ),
            ensures
                self.position <= self.bytes@.len(),
                self.bytes@ == old(self).bytes@,
                self.pending == old(self).pending,
                self.position == after_separators(old(self).bytes@, old(self).position as int),
            decreases self.bytes@.len() - self.position,
        {
            let b = self.bytes[self.position];
            if b == 32 || b == 44 || b == 9 || b == 10 || b == 13 {
                self.position = self.position + 1;
            } else {
                break;
            }
        }
    }

    /// The next command. A letter is read and becomes the command that later
    /// bare numbers continue (`M` continues as `L`); bare numbers give the
    /// pending command without reading anything; the end of the path gives
    /// nothing.
    pub fn command(&mut self) -> (command: Option<char>)
        requires
            old(self).wf(),
        ensures
            final(self).wf(),
            final(self).text() == old(self).text(),
            ({
                let p = after_separators(old(self).text(), old(self).position());
                if p >= old(self).text().len() {
                    &&& command is None
                    &&& final(self).position() == p
                    &&& final(self).pending() == old(self).pending()
                } else if letter(old(self).text()[p]) {
                    &&& command == Some(old(self).text()[p] as char)
                    &&& final(self).position() == p + 1
                    &&& final(self).pending() == Some(repeated(old(self).text()[p] as char))
                } else {
                    &&& command == old(self).pending()
                    &&& final(self).position() == p
                    &&& final(self).pending() == old(self).pending()
                }
            }),
    {
        self.skip_separators();
        proof {
            lemma_after_separators(self.bytes@, old(self).position as int);
        }
        if self.position >= self.bytes.len() {
            return None;
        }
        let byte = self.bytes[self.position];
        if (65 <= byte && byte <= 90) || (97 <= byte && byte <= 122) {
            self.position = self.position + 1;
            let command = byte as char;
            self.pending = Some(if command == 'M' { 'L' } else { command });
            return Some(command);
        }
        self.pending
    }

    /// The bytes of the next number: an optional sign, then digits and
    /// decimal points. Nothing when no such byte follows the separators.
    pub fn number_span(&mut self) -> (span: Option<(usize, usize)>)
        requires
            old(self).wf(),
        ensures
            final(self).wf(),
            final(self).text() == old(self).text(),
            final(self).pending() == old(self).pending(),
            ({
                let start = after_separators(old(self).text(), old(self).position());
                let body = if start < old(self).text().len() && (old(self).text()[start] == 45
                    || old(self).text()[start] == 43) {
                    start + 1
                } else {
                    start
                };
                let end = after_digits(old(self).text(), body);
                if end == start {
                    span is None && final(self).position() == start
                } else {
                    span == Some((start as usize, end as usize)) && final(self).position() == end
                }
            }),
    {
        self.skip_separators();
        let start = self.position;
        proof {
            lemma_after_separators(self.bytes@, old(self).position as int);
        }
        if self.position < self.bytes.len() && (self.bytes[self.position] == 45 || self.bytes[self.position] == 43) {
            self.position = self.position + 1;
        }
        let ghost body = self.position as int;
        proof {
            lemma_after_digits(self.bytes@, body);
        }
        while self.position < self.bytes.len()
            invariant
                body <= self.position <= self.bytes@.len(),
                self.bytes@ == old(self).bytes@,
                self.pending == old(self).pending,
                after_digits(self.bytes@, self.position as int) == after_digits(self.bytes@, body),
            ensures
                body <= self.position <= self.bytes@.len(),
                self.bytes@ == old(self).bytes@,
                self.pending == old(self).pending,
                after_digits(self.bytes@, body) == self.position,
            decreases self.bytes@.len() - self.position,
        {
            let b = self.bytes[self.position];
            if (48 <= b && b <= 57) || b == 46 {
                self.position = self.position + 1;
            } else {
                break;
            }
        }
        if self.position == start {
            return None;
        }
        Some((start, self.position))
    }
}

} // verus!
