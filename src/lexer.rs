use vstd::prelude::*;

use crate::location::{Pos, Range};
use crate::tokens::Token;

verus! {

broadcast use vstd::string::group_string_axioms;

/// What `char::is_uppercase` answers for a character (the Unicode `Uppercase` property).
pub uninterp spec fn upper(c: char) -> bool;

/// Relies on `char::is_uppercase`: whether the character has the Unicode `Uppercase`
/// property, which depends on the character alone.
#[verifier::external_body]
fn is_uppercase(c: char) -> (r: bool)
    ensures
        r == upper(c),
{
    c.is_uppercase()
}

/// Relies on `String`'s `FromIterator<&char>`: the string holds the characters in order.
#[verifier::external_body]
fn string_of(cs: &Vec<char>) -> (r: String)
    ensures
        r@ == cs@,
{
    cs.iter().collect()
}

/// The character classes that the lexer reads runs of.
#[derive(Debug, Clone, Copy, PartialEq, Eq, Structural)]
pub enum CharClass {
    Blank,
    Digit,
    Word,
}

pub open spec fn blank(c: char) -> bool {
    c == ' ' || c == '\t' || c == '\r' || c == '\n'
}

pub open spec fn digit(c: char) -> bool {
    '0' <= c && c <= '9'
}

/// Characters that always stand alone as a token, or start the arrow `->`.
pub open spec fn reserved(c: char) -> bool {
    c == '(' || c == ')' || c == '[' || c == ']' || c == '.' || c == ':' || c == '=' || c == '*'
        || c == '-' || c == 'λ' || c == '∀' || c == 'Λ'
}

/// Characters that may occur in a name.
pub open spec fn word_char(c: char) -> bool {
    !reserved(c) && !blank(c)
}

pub open spec fn in_class(class: CharClass, c: char) -> bool {
    match class {
        CharClass::Blank => blank(c),
        CharClass::Digit => digit(c),
        CharClass::Word => word_char(c),
    }
}

/// The number of bytes of a character in UTF-8.
pub open spec fn utf8_width(c: char) -> nat {
    if (c as u32) < 0x80 {
        1
    } else if (c as u32) < 0x800 {
        2
    } else if (c as u32) < 0x10000 {
        3
    } else {
        4
    }
}

/// The byte offset of the character at index `i`, saturated at `usize::MAX`.
pub open spec fn offset(s: Seq<char>, i: int) -> nat
    decreases i,
{
    if i <= 0 {
        0
    } else {
        let o = offset(s, i - 1) + utf8_width(s[i - 1]);
        if o > usize::MAX {
            usize::MAX as nat
        } else {
            o
        }
    }
}

/// The first index at or after `i` whose character is not of `class`.
pub open spec fn run_end(s: Seq<char>, i: int, class: CharClass) -> int
    decreases s.len() - i,
{
    if 0 <= i < s.len() && in_class(class, s[i]) {
        run_end(s, i + 1, class)
    } else {
        i
    }
}

proof fn lemma_run_end(s: Seq<char>, i: int, class: CharClass)
    requires
        0 <= i <= s.len(),
    ensures
        i <= run_end(s, i, class) <= s.len(),
        forall|k: int| i <= k < run_end(s, i, class) ==> in_class(class, #[trigger] s[k]),
    decreases s.len() - i,
{
    if i < s.len() && in_class(class, s[i]) {
        lemma_run_end(s, i + 1, class);
    }
}

/// The index after the lexeme that starts at `j`.
pub open spec fn lexeme_end(s: Seq<char>, j: int) -> int {
    if j >= s.len() {
        j
    } else if digit(s[j]) {
        run_end(s, j, CharClass::Digit)
    } else if word_char(s[j]) {
        run_end(s, j, CharClass::Word)
    } else if s[j] == '-' && j + 1 < s.len() && s[j + 1] == '>' {
        j + 2
    } else {
        j + 1
    }
}

/// The value of a run of decimal digits.
pub open spec fn digits_value(w: Seq<char>) -> nat
    decreases w.len(),
{
    if w.len() == 0 {
        0
    } else {
        digits_value(w.drop_last()) * 10 + ((w.last() as u32) - ('0' as u32)) as nat
    }
}

/// The token that a name-like lexeme denotes.
pub open spec fn word_token(t: Token, w: Seq<char>) -> bool {
    if upper(w[0]) {
        if w == seq!['I', 'n', 't'] {
            t is TInt
        } else {
            t is TVar && t->TVar_0@ == w
        }
    } else if w == seq!['l', 'a', 'm', 'b', 'd', 'a'] {
        t is Lambda
    } else if w == seq!['f', 'o', 'r', 'a', 'l', 'l'] {
        t is Forall
    } else if w == seq!['l', 'e', 't'] {
        t is Let
    } else if w == seq!['i', 'n'] {
        t is In
    } else if w == seq!['k', 'i', 'n', 'd'] {
        t is Kind
    } else if w == seq!['t', 'y', 'p', 'e'] {
        t is Type
    } else {
        t is Variable && t->Variable_0@ == w
    }
}

/// The token that a lexeme denotes; the empty lexeme is the end of input.
pub open spec fn lexeme_token(t: Token, w: Seq<char>) -> bool {
    if w.len() == 0 {
        t is Eof
    } else {
        let c = w[0];
        if digit(c) {
            if digits_value(w) <= usize::MAX {
                t == Token::Number(digits_value(w) as usize)
            } else {
                t is Error
            }
        } else if word_char(c) {
            word_token(t, w)
        } else if c == 'λ' {
            t is Lambda
        } else if c == '∀' || c == 'Λ' {
            t is Forall
        } else if c == '=' {
            t is Equal
        } else if c == '(' {
            t is LParen
        } else if c == ')' {
            t is RParen
        } else if c == '[' {
            t is LBracket
        } else if c == ']' {
            t is RBracket
        } else if c == ':' {
            t is Colon
        } else if c == '.' {
            t is Dot
        } else if c == '*' {
            t is Star
        } else if w == seq!['-', '>'] {
            t is Arrow
        } else {
            t is Error
        }
    }
}

/// A lexer over a character buffer; `index` is the next character to read and
/// `current_pos` its byte offset.
#[derive(Debug)]
pub struct Lexer {
    pub input: Vec<char>,
    pub index: usize,
    pub start_pos: usize,
    pub current_pos: usize,
}

impl Lexer {
    pub open spec fn wf(&self) -> bool {
        &&& self.index <= self.input@.len()
        &&& self.current_pos == offset(self.input@, self.index as int)
    }

    /// The number of characters not read yet.
    pub open spec fn left(&self) -> nat {
        (self.input@.len() - self.index) as nat
    }

    pub fn new(input: &str) -> (r: Lexer)
        ensures
            r.wf(),
            r.input@ == input@,
            r.index == 0,
    {
        let mut chars: Vec<char> = Vec::new();
        for c in it: input.chars()
            invariant
                chars@ == it.seq().take(it.index()),
        {
            chars.push(c);
            assert(chars@ =~= it.seq().take(it.index() + 1));
        }
        assert(chars@ =~= input@);
        Lexer { input: chars, index: 0, start_pos: 0, current_pos: 0 }
    }

    pub fn span(&self) -> (r: usize)
        ensures
            r == self.current_pos,
    {
        self.current_pos
    }

    pub fn next_char(&mut self) -> (r: Option<char>)
        requires
            old(self).wf(),
        ensures
            final(self).wf(),
            final(self).input == old(self).input,
            old(self).index < old(self).input@.len() ==> r == Some(old(self).input@[old(self).index as int])
                && final(self).index == old(self).index + 1,
            old(self).index >= old(self).input@.len() ==> r is None && final(self).index == old(self).index,
    {
        if self.index < self.input.len() {
            let c = self.input[self.index];
            self.index = self.index + 1;
            let w = utf8_len(c);
            if self.current_pos <= usize::MAX - w {
                self.current_pos = self.current_pos + w;
            } else {
                self.current_pos = usize::MAX;
            }
            Some(c)
        } else {
            None
        }
    }

    pub fn make_range(&self, start_pos: usize) -> (r: Range)
        ensures
            r.start.index == start_pos as u32,
            r.end.index == self.current_pos as u32,
    {
        Range::new(Pos::new(start_pos as u32), Pos::new(self.current_pos as u32))
    }

    pub fn make_token(&self, token: Token, start_pos: usize) -> (r: (Token, Range))
        ensures
            r.0 == token,
            r.1.start.index == start_pos as u32,
            r.1.end.index == self.current_pos as u32,
    {
        (token, self.make_range(start_pos))
    }

    /// Reads the longest run of characters of `class` and returns it.
    pub fn accu_while(&mut self, class: CharClass) -> (r: Vec<char>)
        requires
            old(self).wf(),
        ensures
            final(self).wf(),
            final(self).input == old(self).input,
            final(self).index == run_end(old(self).input@, old(self).index as int, class),
            r@ == old(self).input@.subrange(old(self).index as int, final(self).index as int),
    {
        let mut buf: Vec<char> = Vec::new();
        while self.index < self.input.len() && char_in(class, self.input[self.index])
            invariant
                self.wf(),
                self.input == old(self).input,
                old(self).index <= self.index,
                run_end(self.input@, self.index as int, class) == run_end(
                    old(self).input@,
                    old(self).index as int,
                    class,
                ),
                buf@ == self.input@.subrange(old(self).index as int, self.index as int),
            decreases self.input@.len() - self.index,
        {
            let c = self.next_char();
            match c {
                Some(c) => {
                    buf.push(c);
                },
                None => {},
            }
            assert(buf@ =~= self.input@.subrange(old(self).index as int, self.index as int));
        }
        buf
    }

    pub fn single_token(&mut self, token: Token, start: usize) -> (r: (Token, Range))
        requires
            old(self).wf(),
            old(self).index < old(self).input@.len(),
        ensures
            final(self).wf(),
            final(self).input == old(self).input,
            final(self).index == old(self).index + 1,
            r.0 == token,
            r.1.start.index == start as u32,
            r.1.end.index == final(self).current_pos as u32,
    {
        self.next_char();
        self.make_token(token, start)
    }

    /// Skips blanks, then reads one lexeme and returns the token that it denotes, with its
    /// span; at the end of the input the token is `Eof`.
    pub fn lex_token(&mut self) -> (r: (Token, Range))
        requires
            old(self).wf(),
        ensures
            final(self).wf(),
            old(self).index <= run_end(old(self).input@, old(self).index as int, CharClass::Blank)
                <= final(self).index <= old(self).input@.len(),
            r.0 is Eof ==> final(self).index == old(self).input@.len(),
            !(r.0 is Eof) ==> final(self).index > old(self).index,
            final(self).input == old(self).input,
            ({
                let s = old(self).input@;
                let j = run_end(s, old(self).index as int, CharClass::Blank);
                &&& final(self).index == lexeme_end(s, j)
                &&& lexeme_token(r.0, s.subrange(j, final(self).index as int))
                &&& r.1.start.index == #[verifier::truncate] (offset(s, j) as u32)
                &&& r.1.end.index == #[verifier::truncate] (final(self).current_pos as u32)
            }),
    {
        proof {
            lemma_run_end(self.input@, self.index as int, CharClass::Blank);
        }
        self.accu_while(CharClass::Blank);
        let start = self.span();
        if self.index >= self.input.len() {
            assert(self.input@.subrange(self.index as int, self.index as int) =~= Seq::<char>::empty());
            return self.make_token(Token::Eof, start);
        }
        let c = self.input[self.index];
        let j = Ghost(self.index as int);
        proof {
            lemma_run_end(self.input@, j@, CharClass::Digit);
            lemma_run_end(self.input@, j@, CharClass::Word);
            lemma_run_end(self.input@, j@ + 1, CharClass::Word);
            lemma_run_end(self.input@, j@ + 1, CharClass::Digit);
        }
        if is_digit(c) {
            let digits = self.accu_while(CharClass::Digit);
            let tok = match digits_number(&digits) {
                Some(n) => Token::Number(n),
                None => Token::Error,
            };
            return self.make_token(tok, start);
        }
        if char_in(CharClass::Word, c) {
            let word = self.accu_while(CharClass::Word);
            let tok = if is_uppercase(c) {
                to_type(&word)
            } else {
                to_keyword(&word)
            };
            return self.make_token(tok, start);
        }
        if c == '-' && self.index + 1 < self.input.len() && self.input[self.index + 1] == '>' {
            self.next_char();
            self.next_char();
            proof {
                let w = self.input@.subrange(j@, self.index as int);
                assert(w =~= seq!['-', '>']);
            }
            return self.make_token(Token::Arrow, start);
        }
        let tok = match c {
            'λ' => Token::Lambda,
            '∀' => Token::Forall,
            'Λ' => Token::Forall,
            '=' => Token::Equal,
            '(' => Token::LParen,
            ')' => Token::RParen,
            '[' => Token::LBracket,
            ']' => Token::RBracket,
            ':' => Token::Colon,
            '.' => Token::Dot,
            '*' => Token::Star,
            _ => Token::Error,
        };
        let r = self.single_token(tok, start);
        proof {
            let w = self.input@.subrange(j@, self.index as int);
            assert(w.len() == 1 && w[0] == c);
            if c == '-' {
                assert(w != seq!['-', '>']) by {
                    assert(seq!['-', '>'].len() == 2);
                }
            }
        }
        r
    }
}

/// The width in bytes of a character in UTF-8.
fn utf8_len(c: char) -> (r: usize)
    ensures
        r == utf8_width(c),
{
    let code = c as u32;
    if code < 0x80 {
        1
    } else if code < 0x800 {
        2
    } else if code < 0x10000 {
        3
    } else {
        4
    }
}

fn is_digit(c: char) -> (r: bool)
    ensures
        r == digit(c),
{
    '0' <= c && c <= '9'
}

fn is_whitespace(c: char) -> (r: bool)
    ensures
        r == blank(c),
{
    c == ' ' || c == '\t' || c == '\r' || c == '\n'
}

fn is_reserved(c: char) -> (r: bool)
    ensures
        r == reserved(c),
{
    c == '(' || c == ')' || c == '[' || c == ']' || c == '.' || c == ':' || c == '=' || c == '*'
        || c == '-' || c == 'λ' || c == '∀' || c == 'Λ'
}

fn char_in(class: CharClass, c: char) -> (r: bool)
    ensures
        r == in_class(class, c),
{
    match class {
        CharClass::Blank => is_whitespace(c),
        CharClass::Digit => is_digit(c),
        CharClass::Word => !is_reserved(c) && !is_whitespace(c),
    }
}

/// The value of a run of digits, if it fits in `usize`.
fn digits_number(w: &Vec<char>) -> (r: Option<usize>)
    requires
        forall|i: int| 0 <= i < w@.len() ==> digit(#[trigger] w@[i]),
    ensures
        digits_value(w@) <= usize::MAX ==> r == Some(digits_value(w@) as usize),
        digits_value(w@) > usize::MAX ==> r is None,
{
    let mut value: usize = 0;
    let mut i: usize = 0;
    let mut overflow = false;
    while i < w.len()
        invariant
            i <= w@.len(),
            forall|k: int| 0 <= k < w@.len() ==> digit(#[trigger] w@[k]),
            !overflow ==> value == digits_value(w@.take(i as int)),
            overflow ==> digits_value(w@.take(i as int)) > usize::MAX,
        decreases w@.len() - i,
    {
        let d = (w[i] as u32 - '0' as u32) as usize;
        assert(w@.take(i + 1).drop_last() =~= w@.take(i as int));
        if overflow {
            assert(digits_value(w@.take(i + 1)) >= digits_value(w@.take(i as int)) * 10);
        } else if value > (usize::MAX - d) / 10 {
            overflow = true;
        } else {
            value = value * 10 + d;
        }
        i = i + 1;
    }
    assert(w@.take(i as int) =~= w@);
    if overflow {
        None
    } else {
        Some(value)
    }
}

fn word_is(buf: &Vec<char>, w: &[char]) -> (r: bool)
    ensures
        r == (buf@ == w@),
{
    if buf.len() != w.len() {
        return false;
    }
    let mut i: usize = 0;
    while i < buf.len()
        invariant
            buf@.len() == w@.len(),
            i <= buf@.len(),
            forall|k: int| 0 <= k < i ==> buf@[k] == w@[k],
        decreases buf@.len() - i,
    {
        if buf[i] != w[i] {
            return false;
        }
        i = i + 1;
    }
    assert(buf@ =~= w@);
    true
}

fn to_type(buf: &Vec<char>) -> (r: Token)
    requires
        buf@.len() > 0,
        upper(buf@[0]),
    ensures
        word_token(r, buf@),
{
    if word_is(buf, &['I', 'n', 't']) {
        Token::TInt
    } else {
        Token::TVar(string_of(buf))
    }
}

fn to_keyword(buf: &Vec<char>) -> (r: Token)
    requires
        buf@.len() > 0,
        !upper(buf@[0]),
    ensures
        word_token(r, buf@),
{
    if word_is(buf, &['l', 'a', 'm', 'b', 'd', 'a']) {
        Token::Lambda
    } else if word_is(buf, &['f', 'o', 'r', 'a', 'l', 'l']) {
        Token::Forall
    } else if word_is(buf, &['l', 'e', 't']) {
        Token::Let
    } else if word_is(buf, &['i', 'n']) {
        Token::In
    } else if word_is(buf, &['k', 'i', 'n', 'd']) {
        Token::Kind
    } else if word_is(buf, &['t', 'y', 'p', 'e']) {
        Token::Type
    } else {
        Token::Variable(string_of(buf))
    }
}

} // verus!
