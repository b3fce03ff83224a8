use vstd::prelude::*;

use crate::lexemes::{
    double_lookup, double_of, keyword_lookup, keyword_of, single_lookup, single_of,
    DoubleCharacterToken, Keyword, SingleCharacterToken,
};
use crate::text::{chars_of, push_char};

verus! {

/// The location of a [Token]'s lexeme in the source code, counted from zero.
#[derive(Debug, Clone, Copy, PartialEq, Eq, Structural)]
pub struct Location {
    /// Our vertical location in the file
    pub line_number: usize,
    /// Our horizontal location in the file
    pub column_number: usize,
}

/// Where a scan starts: the first column of the first line.
pub open spec fn start_location() -> Location {
    Location { line_number: 0, column_number: 0 }
}

/// The location that follows `l` once the character `c` has been read.
pub open spec fn advance(l: Location, c: char) -> Location {
    if c == '\n' {
        Location { line_number: (l.line_number + 1) as usize, column_number: 0 }
    } else {
        Location { line_number: l.line_number, column_number: (l.column_number + 1) as usize }
    }
}

/// The location of the character at index `i` of `s`, or of the end of
/// `s` when `i == s.len()`.
pub open spec fn location_of(s: Seq<char>, i: int) -> Location
    decreases i,
{
    if 0 < i <= s.len() {
        advance(location_of(s, i - 1), s[i - 1])
    } else {
        start_location()
    }
}

/// Neither coordinate can grow faster than the number of characters read.
pub proof fn lemma_location_bounded(s: Seq<char>, i: int)
    requires
        0 <= i <= s.len(),
    ensures
        location_of(s, i).line_number <= i,
        location_of(s, i).column_number <= i,
    decreases i,
{
    if i > 0 {
        lemma_location_bounded(s, i - 1);
    }
}

impl From<(u16, u16)> for Location {
    fn from(pair: (u16, u16)) -> (r: Location)
        ensures
            r.line_number == pair.0,
            r.column_number == pair.1,
    {
        let (x, y) = pair;
        Location { line_number: x as usize, column_number: y as usize }
    }
}

impl vstd::std_specs::convert::FromSpecImpl<(u16, u16)> for Location {
    open spec fn obeys_from_spec() -> bool {
        true
    }

    open spec fn from_spec(pair: (u16, u16)) -> Location {
        Location { line_number: pair.0 as usize, column_number: pair.1 as usize }
    }
}

impl Location {
    /// Move one column to the right.
    pub fn advance_col(&mut self)
        requires
            old(self).column_number < usize::MAX,
        ensures
            final(self).line_number == old(self).line_number,
            final(self).column_number == old(self).column_number + 1,
    {
        self.column_number = self.column_number + 1;
    }

    /// Move to the first column of the next line.
    pub fn advance_row(&mut self)
        requires
            old(self).line_number < usize::MAX,
        ensures
            final(self).line_number == old(self).line_number + 1,
            final(self).column_number == 0,
    {
        self.column_number = 0;
        self.line_number = self.line_number + 1;
    }
}

/// The one kind of lexical error: a character that starts no lexeme.
#[derive(Debug, Clone, Copy, PartialEq, Eq, Structural)]
pub enum LexerError {
    UnexpectedCharacter { character: char, location: Location },
}

/// Literals can be numbers, variable names, function names, class names, or strings
/// surrounded by double quotes `"`
#[derive(Debug, Clone, Hash, PartialEq, Eq, PartialOrd, Ord)]
pub enum Literal {
    /// The digits and dots of a number, as they stand in the source
    Number(String),
    /// An identifier can be a variable name, a function name ...
    Identifier(String),
    /// A string is anything within double quotes `"<string>"`
    StringLiteral(String),
}

/// All the valid tokens in the `lox` language
#[derive(Debug, Clone, Hash, PartialEq, Eq, PartialOrd, Ord)]
pub enum Token {
    Eof,
    LiteralToken(Literal),
    KeywordToken(Keyword),
    Single(SingleCharacterToken),
    Double(DoubleCharacterToken),
}

/// A token as a mathematical value: literal payloads become sequences of characters.
pub enum TokenView {
    Eof,
    Number(Seq<char>),
    Identifier(Seq<char>),
    Str(Seq<char>),
    KeywordToken(Keyword),
    Single(SingleCharacterToken),
    Double(DoubleCharacterToken),
}

impl View for Token {
    type V = TokenView;

    open spec fn view(&self) -> TokenView {
        match self {
            Token::Eof => TokenView::Eof,
            Token::LiteralToken(Literal::Number(s)) => TokenView::Number(s@),
            Token::LiteralToken(Literal::Identifier(s)) => TokenView::Identifier(s@),
            Token::LiteralToken(Literal::StringLiteral(s)) => TokenView::Str(s@),
            Token::KeywordToken(k) => TokenView::KeywordToken(*k),
            Token::Single(t) => TokenView::Single(*t),
            Token::Double(t) => TokenView::Double(*t),
        }
    }
}

/// The views of a sequence of tokens.
pub open spec fn views(ts: Seq<Token>) -> Seq<TokenView> {
    ts.map_values(|t: Token| t@)
}

// ---------------------------------------------------------------------------
// Character classes

pub open spec fn is_blank(c: char) -> bool {
    c == ' ' || c == '\r' || c == '\t'
}

pub open spec fn is_digit(c: char) -> bool {
    '0' <= c && c <= '9'
}

pub open spec fn is_ident_start(c: char) -> bool {
    ('A' <= c && c <= 'Z') || ('a' <= c && c <= 'z') || c == '_'
}

pub open spec fn is_ident_char(c: char) -> bool {
    is_ident_start(c) || is_digit(c)
}

/// A character that begins no lexeme and is not skipped: scanning it is an error.
pub open spec fn is_unexpected(c: char) -> bool {
    !(is_blank(c) || c == '\n' || single_of(c) is Some || c == '"' || is_digit(c)
        || is_ident_start(c))
}

/// The classes of characters over which a sub-scanner runs.
#[derive(Clone, Copy)]
pub enum Span {
    /// the body of a line comment
    NotNewline,
    /// the body of a string literal
    NotQuote,
    /// the rest of a number
    NumberChar,
    /// the rest of an identifier or keyword
    IdentChar,
}

pub open spec fn in_span(k: Span, c: char) -> bool {
    match k {
        Span::NotNewline => c != '\n',
        Span::NotQuote => c != '"',
        Span::NumberChar => is_digit(c) || c == '.',
        Span::IdentChar => is_ident_char(c),
    }
}

/// The first index at or after `j` whose character is not of class `k`,
/// or `s.len()` if there is none.
pub open spec fn span_end(s: Seq<char>, j: int, k: Span) -> int
    decreases s.len() - j,
{
    if 0 <= j < s.len() && in_span(k, s[j]) {
        span_end(s, j + 1, k)
    } else {
        j
    }
}

pub proof fn lemma_span_end(s: Seq<char>, j: int, k: Span)
    requires
        0 <= j <= s.len(),
    ensures
        j <= span_end(s, j, k) <= s.len(),
        forall|m: int| j <= m < span_end(s, j, k) ==> in_span(k, #[trigger] s[m]),
        span_end(s, j, k) < s.len() ==> !in_span(k, s[span_end(s, j, k)]),
    decreases s.len() - j,
{
    if j < s.len() && in_span(k, s[j]) {
        lemma_span_end(s, j + 1, k);
    }
}

// ---------------------------------------------------------------------------
// One step of a scan

/// The token for a word: its keyword if it is reserved, else an identifier.
pub open spec fn word_token(w: Seq<char>) -> TokenView {
    match keyword_of(w) {
        Some(k) => TokenView::KeywordToken(k),
        None => TokenView::Identifier(w),
    }
}

/// Scanning from index `i` of `s` (with `i < s.len()`): the index at which the
/// next step starts, and the token that this step emits, if any.
pub open spec fn step(s: Seq<char>, i: int) -> (int, Option<TokenView>) {
    let c = s[i];
    if is_blank(c) || c == '\n' {
        (i + 1, None)
    } else if c == '/' {
        if i + 1 < s.len() && s[i + 1] == '/' {
            let e = span_end(s, i + 2, Span::NotNewline);
            (if e < s.len() { e + 1 } else { e }, None)
        } else {
            (i + 1, Some(TokenView::Single(SingleCharacterToken::Slash)))
        }
    } else if double_of(c) is Some {
        if i + 1 < s.len() && s[i + 1] == '=' {
            (i + 2, Some(TokenView::Double(double_of(c)->0)))
        } else {
            (i + 1, Some(TokenView::Single(single_of(c)->0)))
        }
    } else if single_of(c) is Some {
        (i + 1, Some(TokenView::Single(single_of(c)->0)))
    } else if c == '"' {
        let e = span_end(s, i + 1, Span::NotQuote);
        if e < s.len() {
            (e + 1, Some(TokenView::Str(s.subrange(i + 1, e))))
        } else {
            (e, None)
        }
    } else if is_digit(c) {
        let e = span_end(s, i + 1, Span::NumberChar);
        (e, Some(TokenView::Number(s.subrange(i, e))))
    } else if is_ident_start(c) {
        let e = span_end(s, i + 1, Span::IdentChar);
        (e, Some(word_token(s.subrange(i, e))))
    } else {
        (i + 1, None)
    }
}

pub proof fn lemma_step_advances(s: Seq<char>, i: int)
    requires
        0 <= i < s.len(),
    ensures
        i < step(s, i).0 <= s.len(),
{
    if i + 2 <= s.len() {
        lemma_span_end(s, i + 2, Span::NotNewline);
    }
    lemma_span_end(s, i + 1, Span::NotQuote);
    lemma_span_end(s, i + 1, Span::NumberChar);
    lemma_span_end(s, i + 1, Span::IdentChar);
}

/// The error that the character at index `i` raises.
pub open spec fn unexpected_at(s: Seq<char>, i: int) -> LexerError {
    LexerError::UnexpectedCharacter { character: s[i], location: location_of(s, i) }
}

/// The tokens (without the end-of-stream marker) and the errors of a scan of
/// `s` from index `i` on.
pub open spec fn scan_from(s: Seq<char>, i: int) -> (Seq<TokenView>, Seq<LexerError>)
    decreases s.len() - i,
{
    if 0 <= i < s.len() {
        proof {
            lemma_step_advances(s, i);
        }
        let (n, t) = step(s, i);
        let rest = scan_from(s, n);
        let ts = match t {
            Some(t) => seq![t] + rest.0,
            None => rest.0,
        };
        let es = if is_unexpected(s[i]) {
            seq![unexpected_at(s, i)] + rest.1
        } else {
            rest.1
        };
        (ts, es)
    } else {
        (seq![], seq![])
    }
}

/// The tokens that a scan of `s` produces, ended by the end-of-stream marker.
pub open spec fn lex_tokens(s: Seq<char>) -> Seq<TokenView> {
    scan_from(s, 0).0.push(TokenView::Eof)
}

/// The errors that a scan of `s` finds, in the order of the source.
pub open spec fn lex_errors(s: Seq<char>) -> Seq<LexerError> {
    scan_from(s, 0).1
}


impl Span {
    fn contains(&self, c: char) -> (r: bool)
        ensures
            r == in_span(*self, c),
    {
        match self {
            Span::NotNewline => c != '\n',
            Span::NotQuote => c != '"',
            Span::NumberChar => ('0' <= c && c <= '9') || c == '.',
            Span::IdentChar => ('A' <= c && c <= 'Z') || ('a' <= c && c <= 'z') || c == '_' || (
            '0' <= c && c <= '9'),
        }
    }
}

/// A read position over the source text, with the location it stands at.
pub struct Cursor {
    chars: Vec<char>,
    index: usize,
    location: Location,
}

impl Cursor {
    /// The whole source text.
    pub closed spec fn text(&self) -> Seq<char> {
        self.chars@
    }

    /// The index of the next character to read.
    pub closed spec fn pos(&self) -> int {
        self.index as int
    }

    /// The location of the next character to read.
    pub closed spec fn location(&self) -> Location {
        self.location
    }

    /// The position lies within the text and the location is that of the position.
    pub closed spec fn wf(&self) -> bool {
        &&& self.index <= self.chars.len()
        &&& self.location == location_of(self.chars@, self.index as int)
    }

    /// A cursor at the start of `source`.
    pub fn new(source: &str) -> (r: Cursor)
        ensures
            r.wf(),
            r.text() == source@,
            r.pos() == 0,
    {
        Cursor { chars: chars_of(source), index: 0, location: Location { line_number: 0, column_number: 0 } }
    }

    /// The next character, which stays unread.
    pub fn peek(&self) -> (r: Option<char>)
        requires
            self.wf(),
        ensures
            r == if self.pos() < self.text().len() {
                Some(self.text()[self.pos()])
            } else {
                None
            },
    {
        if self.index < self.chars.len() {
            Some(self.chars[self.index])
        } else {
            None
        }
    }

    /// Reads the next character, if any, and moves past it.
    pub fn next_char(&mut self) -> (r: Option<char>)
        requires
            old(self).wf(),
        ensures
            final(self).wf(),
            final(self).text() == old(self).text(),
            old(self).pos() < old(self).text().len() ==> r == Some(old(self).text()[old(self).pos()])
                && final(self).pos() == old(self).pos() + 1,
            old(self).pos() >= old(self).text().len() ==> r is None && final(self).pos()
                == old(self).pos(),
    {
        if self.index < self.chars.len() {
            let c = self.chars[self.index];
            proof {
                lemma_location_bounded(self.chars@, self.index as int);
            }
            if c == '\n' {
                self.location.advance_row();
            } else {
                self.location.advance_col();
            }
            self.index = self.index + 1;
            Some(c)
        } else {
            None
        }
    }

    /// Moves past the characters of class `k` that follow, appending them to `buf`.
    fn read_span(&mut self, k: Span, buf: &mut String)
        requires
            old(self).wf(),
        ensures
            final(self).wf(),
            final(self).text() == old(self).text(),
            final(self).pos() == span_end(old(self).text(), old(self).pos(), k),
            final(buf)@ == old(buf)@ + old(self).text().subrange(old(self).pos(), final(self).pos()),
    {
        let ghost s = self.chars@;
        let ghost start = self.index as int;
        let ghost e = span_end(s, start, k);
        proof {
            lemma_span_end(s, start, k);
        }
        while self.index < self.chars.len() && k.contains(self.chars[self.index])
            invariant
                self.wf(),
                self.chars@ == s,
                0 <= start <= self.index <= e,
                span_end(s, self.index as int, k) == e,
                buf@ == old(buf)@ + s.subrange(start, self.index as int),
            decreases s.len() - self.index,
        {
            let c = self.chars[self.index];
            let ghost before = self.index as int;
            proof {
                lemma_span_end(s, before + 1, k);
                assert(s.subrange(start, before + 1) =~= s.subrange(start, before).push(c));
            }
            push_char(buf, c);
            self.next_char();
        }
    }

    /// Moves past the characters of class `k` that follow.
    fn skip_span(&mut self, k: Span)
        requires
            old(self).wf(),
        ensures
            final(self).wf(),
            final(self).text() == old(self).text(),
            final(self).pos() == span_end(old(self).text(), old(self).pos(), k),
    {
        let ghost s = self.chars@;
        let ghost start = self.index as int;
        let ghost e = span_end(s, start, k);
        proof {
            lemma_span_end(s, start, k);
        }
        while self.index < self.chars.len() && k.contains(self.chars[self.index])
            invariant
                self.wf(),
                self.chars@ == s,
                0 <= start <= self.index <= e,
                span_end(s, self.index as int, k) == e,
            decreases s.len() - self.index,
        {
            proof {
                lemma_span_end(s, self.index + 1, k);
            }
            self.next_char();
        }
    }
}


/// The tokens that one step emits: none or one.
pub open spec fn emitted(t: Option<TokenView>) -> Seq<TokenView> {
    match t {
        Some(t) => seq![t],
        None => seq![],
    }
}

/// A sub-scanner that started on the character at index `i` of `s` has done
/// one step: it stopped at the step's end and appended the step's token.
pub open spec fn did_step(
    s: Seq<char>,
    i: int,
    before: Seq<Token>,
    after: Seq<Token>,
    end: int,
) -> bool {
    &&& end == step(s, i).0
    &&& views(after) == views(before) + emitted(step(s, i).1)
}

proof fn lemma_views_push(ts: Seq<Token>, t: Token)
    ensures
        views(ts.push(t)) == views(ts) + seq![t@],
{
    assert(views(ts.push(t)) =~= views(ts) + seq![t@]);
}

/// An ordered sequence of tokens, ended by the one end-of-stream marker.
pub struct TokenStream(Vec<Token>);

impl View for TokenStream {
    type V = Seq<TokenView>;

    closed spec fn view(&self) -> Seq<TokenView> {
        views(self.0@)
    }
}

impl TokenStream {
    /// The tokens, in order.
    pub fn tokens(&self) -> (r: &Vec<Token>)
        ensures
            views(r@) == self@,
    {
        &self.0
    }

    /// The tokens, in order, taken out of the stream.
    pub fn into_tokens(self) -> (r: Vec<Token>)
        ensures
            views(r@) == self@,
    {
        self.0
    }
}

/// A scanner over one source text.
pub struct Lexer {
    source_code: String,
    current_location: Location,
}

impl Lexer {
    /// The source text.
    pub closed spec fn source(&self) -> Seq<char> {
        self.source_code@
    }

    /// Where the last scan ended.
    pub closed spec fn location(&self) -> Location {
        self.current_location
    }

    /// Create a new lexer for the provided source code
    pub fn new(source_code: String) -> (r: Lexer)
        ensures
            r.source() == source_code@,
            r.location() == start_location(),
    {
        Lexer { source_code, current_location: Location { line_number: 0, column_number: 0 } }
    }

    /// Where the last scan ended: the location after the whole source.
    pub fn current_location(&self) -> (r: Location)
        ensures
            r == self.location(),
    {
        self.current_location
    }

    /// Scan the source code to generate a stream of [Token]s producing
    /// [LexerError]s if any errors are encountered.
    pub fn lex(&mut self) -> (r: Result<TokenStream, Vec<LexerError>>)
        ensures
            final(self).source() == old(self).source(),
            final(self).location() == location_of(old(self).source(), old(self).source().len() as int),
            match r {
                Ok(ts) => lex_errors(old(self).source()).len() == 0 && ts@ == lex_tokens(old(self).source()),
                Err(es) => lex_errors(old(self).source()).len() > 0 && es@ == lex_errors(old(self).source()),
            },
    {
        let ghost s = self.source_code@;
        let mut errors: Vec<LexerError> = Vec::new();
        let mut tokens: Vec<Token> = Vec::new();
        let mut code = Cursor::new(self.source_code.as_str());
        while code.index < code.chars.len()
            invariant
                code.wf(),
                code.text() == s,
                self.source_code@ == s,
                views(tokens@) + scan_from(s, code.pos()).0 == scan_from(s, 0).0,
                errors@ + scan_from(s, code.pos()).1 == scan_from(s, 0).1,
            decreases s.len() - code.pos(),
        {
            let ghost i = code.pos();
            let ghost before = tokens@;
            let location = code.location;
            let character = code.chars[code.index];
            code.next_char();
            match character {
                ' ' | '\r' | '\t' | '\n' => {},
                '(' | ')' | '{' | '}' | '+' | '-' | ',' | '.' | ';' | '*' => {
                    if let Some(t) = single_lookup(character) {
                        tokens.push(Token::Single(t));
                        proof {
                            lemma_views_push(before, Token::Single(t));
                        }
                    }
                },
                '!' | '=' | '<' | '>' => Self::add_double_or_single_token(&mut tokens, character, &mut code),
                '/' => Self::consume_comment(&mut tokens, character, &mut code),
                '"' => Self::add_string_literal(&mut tokens, &mut code),
                '0'..='9' => Self::add_number_literal(&mut tokens, character, &mut code),
                'A'..='Z' | 'a'..='z' | '_' => Self::add_identifier_or_keyword(&mut tokens, character, &mut code),
                _ => {
                    errors.push(LexerError::UnexpectedCharacter { character, location });
                },
            }
            proof {
                lemma_step_advances(s, i);
                let n = step(s, i).0;
                let rest = scan_from(s, n);
                assert(did_step(s, i, before, tokens@, code.pos()));
                assert(views(tokens@) + rest.0 =~= views(before) + scan_from(s, i).0);
            }
        }
        tokens.push(Token::Eof);
        proof {
            lemma_views_push(tokens@.drop_last(), Token::Eof);
            assert(tokens@.drop_last().push(Token::Eof) == tokens@);
            assert(views(tokens@.drop_last()) =~= scan_from(s, 0).0);
            assert(errors@ =~= scan_from(s, 0).1);
        }
        self.current_location = code.location;
        if errors.len() == 0 {
            Ok(TokenStream(tokens))
        } else {
            Err(errors)
        }
    }

    /// Look ahead one step. Add a [Token::Double] if the next character is `=`.
    /// Otherwise add a [Token::Single]
    fn add_double_or_single_token(tokens: &mut Vec<Token>, current_character: char, code: &mut Cursor)
        requires
            old(code).wf(),
            1 <= old(code).pos(),
            old(code).text()[old(code).pos() - 1] == current_character,
            double_of(current_character) is Some,
        ensures
            final(code).wf(),
            final(code).text() == old(code).text(),
            did_step(old(code).text(), old(code).pos() - 1, old(tokens)@, final(tokens)@, final(code).pos()),
    {
        let ghost before = tokens@;
        if Self::one_step_look_ahead('=', code) {
            let t = Token::Double(double_lookup(current_character).unwrap());
            tokens.push(t);
            proof {
                lemma_views_push(before, t);
            }
        } else {
            let t = Token::Single(single_lookup(current_character).unwrap());
            tokens.push(t);
            proof {
                lemma_views_push(before, t);
            }
        }
    }

    /// Look ahead one character and if the next character is another `/`,
    /// consume the rest of the line. If not, add a single `/` token.
    fn consume_comment(tokens: &mut Vec<Token>, current_character: char, code: &mut Cursor)
        requires
            old(code).wf(),
            1 <= old(code).pos(),
            old(code).text()[old(code).pos() - 1] == current_character,
            current_character == '/',
        ensures
            final(code).wf(),
            final(code).text() == old(code).text(),
            did_step(old(code).text(), old(code).pos() - 1, old(tokens)@, final(tokens)@, final(code).pos()),
    {
        let ghost before = tokens@;
        if Self::one_step_look_ahead('/', code) {
            code.skip_span(Span::NotNewline);
            // the newline that ends the comment, if the text goes on
            code.next_char();
            assert(views(tokens@) =~= views(before) + emitted(None));
        } else {
            let t = Token::Single(SingleCharacterToken::Slash);
            tokens.push(t);
            proof {
                lemma_views_push(before, t);
            }
        }
    }

    /// Peek at the next character. If it is what we `expect`, we consume it
    /// and return `true`. Otherwise, we return `false`.
    pub fn one_step_look_ahead(expect: char, code: &mut Cursor) -> (r: bool)
        requires
            old(code).wf(),
        ensures
            final(code).wf(),
            final(code).text() == old(code).text(),
            r == (old(code).pos() < old(code).text().len() && old(code).text()[old(code).pos()]
                == expect),
            final(code).pos() == if r {
                old(code).pos() + 1
            } else {
                old(code).pos()
            },
    {
        match code.peek() {
            Some(next_character) => {
                if next_character == expect {
                    code.next_char();
                    true
                } else {
                    false
                }
            },
            // There is no next character. We are at the end of the file.
            None => false,
        }
    }

    /// Called when we encounter a `"`. We scan forward looking for a closing
    /// `"`. If we find one, the characters between the two quotes make a
    /// string token. If the text ends first, nothing is emitted.
    fn add_string_literal(tokens: &mut Vec<Token>, code: &mut Cursor)
        requires
            old(code).wf(),
            1 <= old(code).pos(),
            old(code).text()[old(code).pos() - 1] == '"',
        ensures
            final(code).wf(),
            final(code).text() == old(code).text(),
            did_step(old(code).text(), old(code).pos() - 1, old(tokens)@, final(tokens)@, final(code).pos()),
    {
        let ghost before = tokens@;
        let ghost s = code.text();
        let ghost start = code.pos();
        let mut maybe_string = String::new();
        code.read_span(Span::NotQuote, &mut maybe_string);
        proof {
            lemma_span_end(s, start, Span::NotQuote);
            assert(maybe_string@ =~= s.subrange(start, code.pos()));
        }
        if let Some(_) = code.next_char() {
            let t = Token::LiteralToken(Literal::StringLiteral(maybe_string));
            tokens.push(t);
            proof {
                lemma_views_push(before, t);
            }
        } else {
            assert(views(tokens@) =~= views(before) + emitted(None));
        }
    }

    /// Called whenever we encounter a digit. Consumes characters until one
    /// is neither a digit nor a `.` (decimal point).
    fn add_number_literal(tokens: &mut Vec<Token>, first_digit: char, code: &mut Cursor)
        requires
            old(code).wf(),
            1 <= old(code).pos(),
            old(code).text()[old(code).pos() - 1] == first_digit,
            is_digit(first_digit),
        ensures
            final(code).wf(),
            final(code).text() == old(code).text(),
            did_step(old(code).text(), old(code).pos() - 1, old(tokens)@, final(tokens)@, final(code).pos()),
    {
        let ghost before = tokens@;
        let ghost s = code.text();
        let ghost start = code.pos();
        let mut maybe_number = String::new();
        push_char(&mut maybe_number, first_digit);
        code.read_span(Span::NumberChar, &mut maybe_number);
        proof {
            lemma_span_end(s, start, Span::NumberChar);
            assert(maybe_number@ =~= s.subrange(start - 1, code.pos()));
        }
        let t = Token::LiteralToken(Literal::Number(maybe_number));
        tokens.push(t);
        proof {
            lemma_views_push(before, t);
        }
    }

    /// Called whenever we encounter a letter or `_`. The word that follows is
    /// a keyword if it is reserved, else an identifier.
    fn add_identifier_or_keyword(tokens: &mut Vec<Token>, first_character: char, code: &mut Cursor)
        requires
            old(code).wf(),
            1 <= old(code).pos(),
            old(code).text()[old(code).pos() - 1] == first_character,
            is_ident_start(first_character),
        ensures
            final(code).wf(),
            final(code).text() == old(code).text(),
            did_step(old(code).text(), old(code).pos() - 1, old(tokens)@, final(tokens)@, final(code).pos()),
    {
        let ghost before = tokens@;
        let ghost s = code.text();
        let ghost start = code.pos();
        let first = code.index - 1;
        let mut identifier_or_keyword = String::new();
        push_char(&mut identifier_or_keyword, first_character);
        code.read_span(Span::IdentChar, &mut identifier_or_keyword);
        proof {
            lemma_span_end(s, start, Span::IdentChar);
            assert(identifier_or_keyword@ =~= s.subrange(start - 1, code.pos()));
        }
        let t = match keyword_lookup(&code.chars, first, code.index) {
            Some(keyword) => Token::KeywordToken(keyword),
            None => Token::LiteralToken(Literal::Identifier(identifier_or_keyword)),
        };
        tokens.push(t);
        proof {
            lemma_views_push(before, t);
        }
    }
}

} // verus!
