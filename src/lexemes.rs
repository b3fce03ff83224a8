use vstd::prelude::*;

use crate::lexer::{Literal, Token, TokenView};
use crate::text::chars_of;

verus! {

/// All the single character tokens
#[derive(Debug, Clone, Copy, Hash, PartialEq, Eq, Structural, PartialOrd, Ord)]
pub enum SingleCharacterToken {
    /// ## (
    LeftParenthesis,
    /// ## )
    RightParenthesis,
    /// ## {
    LeftBrace,
    /// ## }
    RightBrace,
    /// ## ,
    Comma,
    /// ## .
    Dot,
    /// ## -
    Minus,
    /// ## +
    Plus,
    /// ## ;
    SemiColon,
    /// ## /
    Slash,
    /// ## *
    Star,
    /// ## !
    Not,
    /// ## =
    EqualSign,
    /// ## >
    GreaterThan,
    /// ## <
    LessThan,
}

#[derive(Debug, Clone, Copy, Hash, PartialEq, Eq, Structural, PartialOrd, Ord)]
pub enum DoubleCharacterToken {
    /// ## !=
    NotEqual,
    /// ## ==
    EqualEqualSign,
    /// ## >=
    GreaterThanOrEqual,
    /// ## <=
    LessThanOrEqual,
}

/// Keywords are literals that have been reserved for
/// the language's internal use
#[derive(Debug, Clone, Copy, Hash, PartialEq, Eq, Structural, PartialOrd, Ord)]
pub enum Keyword {
    /// ## and
    And,
    /// ## class
    Class,
    /// ## if
    If,
    /// ## else
    Else,
    /// ## true
    True,
    /// ## false
    False,
    /// ## fun
    Fun,
    /// ## for
    For,
    /// ## while
    While,
    /// ## var
    Var,
    /// ## nil
    Nil,
    /// ## or
    Or,
    /// ## print
    Print,
    /// ## return
    Return,
    /// ## super
    Super,
    /// ## this
    This,
}

/// The character that a single character token stands for.
pub open spec fn single_char(t: SingleCharacterToken) -> char {
    match t {
        SingleCharacterToken::LeftParenthesis => '(',
        SingleCharacterToken::RightParenthesis => ')',
        SingleCharacterToken::LeftBrace => '{',
        SingleCharacterToken::RightBrace => '}',
        SingleCharacterToken::Comma => ',',
        SingleCharacterToken::Dot => '.',
        SingleCharacterToken::Minus => '-',
        SingleCharacterToken::Plus => '+',
        SingleCharacterToken::SemiColon => ';',
        SingleCharacterToken::Slash => '/',
        SingleCharacterToken::Star => '*',
        SingleCharacterToken::Not => '!',
        SingleCharacterToken::EqualSign => '=',
        SingleCharacterToken::GreaterThan => '>',
        SingleCharacterToken::LessThan => '<',
    }
}

/// The single character token that `c` stands for, if any.
pub open spec fn single_of(c: char) -> Option<SingleCharacterToken> {
    if c == '(' {
        Some(SingleCharacterToken::LeftParenthesis)
    } else if c == ')' {
        Some(SingleCharacterToken::RightParenthesis)
    } else if c == '{' {
        Some(SingleCharacterToken::LeftBrace)
    } else if c == '}' {
        Some(SingleCharacterToken::RightBrace)
    } else if c == ',' {
        Some(SingleCharacterToken::Comma)
    } else if c == '.' {
        Some(SingleCharacterToken::Dot)
    } else if c == '-' {
        Some(SingleCharacterToken::Minus)
    } else if c == '+' {
        Some(SingleCharacterToken::Plus)
    } else if c == ';' {
        Some(SingleCharacterToken::SemiColon)
    } else if c == '/' {
        Some(SingleCharacterToken::Slash)
    } else if c == '*' {
        Some(SingleCharacterToken::Star)
    } else if c == '!' {
        Some(SingleCharacterToken::Not)
    } else if c == '=' {
        Some(SingleCharacterToken::EqualSign)
    } else if c == '>' {
        Some(SingleCharacterToken::GreaterThan)
    } else if c == '<' {
        Some(SingleCharacterToken::LessThan)
    } else {
        None
    }
}

/// The two characters that a double character token stands for.
pub open spec fn double_lexeme(t: DoubleCharacterToken) -> Seq<char> {
    match t {
        DoubleCharacterToken::NotEqual => seq!['!', '='],
        DoubleCharacterToken::EqualEqualSign => seq!['=', '='],
        DoubleCharacterToken::GreaterThanOrEqual => seq!['>', '='],
        DoubleCharacterToken::LessThanOrEqual => seq!['<', '='],
    }
}

/// The double character token whose first character is `c` (its second is `=`).
pub open spec fn double_of(c: char) -> Option<DoubleCharacterToken> {
    if c == '!' {
        Some(DoubleCharacterToken::NotEqual)
    } else if c == '=' {
        Some(DoubleCharacterToken::EqualEqualSign)
    } else if c == '>' {
        Some(DoubleCharacterToken::GreaterThanOrEqual)
    } else if c == '<' {
        Some(DoubleCharacterToken::LessThanOrEqual)
    } else {
        None
    }
}

/// The word that a keyword is spelled as.
pub open spec fn keyword_lexeme(k: Keyword) -> Seq<char> {
    match k {
        Keyword::And => seq!['a', 'n', 'd'],
        Keyword::Class => seq!['c', 'l', 'a', 's', 's'],
        Keyword::If => seq!['i', 'f'],
        Keyword::Else => seq!['e', 'l', 's', 'e'],
        Keyword::True => seq!['t', 'r', 'u', 'e'],
        Keyword::False => seq!['f', 'a', 'l', 's', 'e'],
        Keyword::Fun => seq!['f', 'u', 'n'],
        Keyword::For => seq!['f', 'o', 'r'],
        Keyword::While => seq!['w', 'h', 'i', 'l', 'e'],
        Keyword::Var => seq!['v', 'a', 'r'],
        Keyword::Nil => seq!['n', 'i', 'l'],
        Keyword::Or => seq!['o', 'r'],
        Keyword::Print => seq!['p', 'r', 'i', 'n', 't'],
        Keyword::Return => seq!['r', 'e', 't', 'u', 'r', 'n'],
        Keyword::Super => seq!['s', 'u', 'p', 'e', 'r'],
        Keyword::This => seq!['t', 'h', 'i', 's'],
    }
}

/// The keyword spelled as `w`, if `w` is reserved.
pub open spec fn keyword_of(w: Seq<char>) -> Option<Keyword> {
    if w == keyword_lexeme(Keyword::And) {
        Some(Keyword::And)
    } else if w == keyword_lexeme(Keyword::Class) {
        Some(Keyword::Class)
    } else if w == keyword_lexeme(Keyword::If) {
        Some(Keyword::If)
    } else if w == keyword_lexeme(Keyword::Else) {
        Some(Keyword::Else)
    } else if w == keyword_lexeme(Keyword::True) {
        Some(Keyword::True)
    } else if w == keyword_lexeme(Keyword::False) {
        Some(Keyword::False)
    } else if w == keyword_lexeme(Keyword::Fun) {
        Some(Keyword::Fun)
    } else if w == keyword_lexeme(Keyword::For) {
        Some(Keyword::For)
    } else if w == keyword_lexeme(Keyword::While) {
        Some(Keyword::While)
    } else if w == keyword_lexeme(Keyword::Var) {
        Some(Keyword::Var)
    } else if w == keyword_lexeme(Keyword::Nil) {
        Some(Keyword::Nil)
    } else if w == keyword_lexeme(Keyword::Or) {
        Some(Keyword::Or)
    } else if w == keyword_lexeme(Keyword::Print) {
        Some(Keyword::Print)
    } else if w == keyword_lexeme(Keyword::Return) {
        Some(Keyword::Return)
    } else if w == keyword_lexeme(Keyword::Super) {
        Some(Keyword::Super)
    } else if w == keyword_lexeme(Keyword::This) {
        Some(Keyword::This)
    } else {
        None
    }
}

/// The lexeme table, from lexeme to token: keywords, single character
/// tokens, and double character tokens.
pub open spec fn lexeme_token(l: Seq<char>) -> Option<TokenView> {
    if keyword_of(l) is Some {
        Some(TokenView::KeywordToken(keyword_of(l)->0))
    } else if l.len() == 1 && single_of(l[0]) is Some {
        Some(TokenView::Single(single_of(l[0])->0))
    } else if l.len() == 2 && l[1] == '=' && double_of(l[0]) is Some {
        Some(TokenView::Double(double_of(l[0])->0))
    } else {
        None
    }
}

/// The lexeme table, from token to lexeme. Literal tokens and the
/// end-of-stream marker have no fixed lexeme.
pub open spec fn token_lexeme(t: TokenView) -> Option<Seq<char>> {
    match t {
        TokenView::KeywordToken(k) => Some(keyword_lexeme(k)),
        TokenView::Single(t) => Some(seq![single_char(t)]),
        TokenView::Double(t) => Some(double_lexeme(t)),
        _ => None,
    }
}


/// The spelling of a keyword.
pub fn keyword_text(k: Keyword) -> (r: &'static str)
    ensures
        r@ == keyword_lexeme(k),
{
    match k {
        Keyword::And => {
            proof {
                reveal_strlit("and");
                assert("and"@ =~= seq!['a', 'n', 'd']);
            }
            "and"
        },
        Keyword::Class => {
            proof {
                reveal_strlit("class");
                assert("class"@ =~= seq!['c', 'l', 'a', 's', 's']);
            }
            "class"
        },
        Keyword::If => {
            proof {
                reveal_strlit("if");
                assert("if"@ =~= seq!['i', 'f']);
            }
            "if"
        },
        Keyword::Else => {
            proof {
                reveal_strlit("else");
                assert("else"@ =~= seq!['e', 'l', 's', 'e']);
            }
            "else"
        },
        Keyword::True => {
            proof {
                reveal_strlit("true");
                assert("true"@ =~= seq!['t', 'r', 'u', 'e']);
            }
            "true"
        },
        Keyword::False => {
            proof {
                reveal_strlit("false");
                assert("false"@ =~= seq!['f', 'a', 'l', 's', 'e']);
            }
            "false"
        },
        Keyword::Fun => {
            proof {
                reveal_strlit("fun");
                assert("fun"@ =~= seq!['f', 'u', 'n']);
            }
            "fun"
        },
        Keyword::For => {
            proof {
                reveal_strlit("for");
                assert("for"@ =~= seq!['f', 'o', 'r']);
            }
            "for"
        },
        Keyword::While => {
            proof {
                reveal_strlit("while");
                assert("while"@ =~= seq!['w', 'h', 'i', 'l', 'e']);
            }
            "while"
        },
        Keyword::Var => {
            proof {
                reveal_strlit("var");
                assert("var"@ =~= seq!['v', 'a', 'r']);
            }
            "var"
        },
        Keyword::Nil => {
            proof {
                reveal_strlit("nil");
                assert("nil"@ =~= seq!['n', 'i', 'l']);
            }
            "nil"
        },
        Keyword::Or => {
            proof {
                reveal_strlit("or");
                assert("or"@ =~= seq!['o', 'r']);
            }
            "or"
        },
        Keyword::Print => {
            proof {
                reveal_strlit("print");
                assert("print"@ =~= seq!['p', 'r', 'i', 'n', 't']);
            }
            "print"
        },
        Keyword::Return => {
            proof {
                reveal_strlit("return");
                assert("return"@ =~= seq!['r', 'e', 't', 'u', 'r', 'n']);
            }
            "return"
        },
        Keyword::Super => {
            proof {
                reveal_strlit("super");
                assert("super"@ =~= seq!['s', 'u', 'p', 'e', 'r']);
            }
            "super"
        },
        Keyword::This => {
            proof {
                reveal_strlit("this");
                assert("this"@ =~= seq!['t', 'h', 'i', 's']);
            }
            "this"
        },
    }
}

/// The spelling of a single character token.
pub fn single_text(t: SingleCharacterToken) -> (r: &'static str)
    ensures
        r@ == seq![single_char(t)],
{
    match t {
        SingleCharacterToken::LeftParenthesis => {
            proof {
                reveal_strlit("(");
                assert("("@ =~= seq!['(']);
            }
            "("
        },
        SingleCharacterToken::RightParenthesis => {
            proof {
                reveal_strlit(")");
                assert(")"@ =~= seq![')']);
            }
            ")"
        },
        SingleCharacterToken::LeftBrace => {
            proof {
                reveal_strlit("{");
                assert("{"@ =~= seq!['{']);
            }
            "{"
        },
        SingleCharacterToken::RightBrace => {
            proof {
                reveal_strlit("}");
                assert("}"@ =~= seq!['}']);
            }
            "}"
        },
        SingleCharacterToken::Comma => {
            proof {
                reveal_strlit(",");
                assert(","@ =~= seq![',']);
            }
            ","
        },
        SingleCharacterToken::Dot => {
            proof {
                reveal_strlit(".");
                assert("."@ =~= seq!['.']);
            }
            "."
        },
        SingleCharacterToken::Minus => {
            proof {
                reveal_strlit("-");
                assert("-"@ =~= seq!['-']);
            }
            "-"
        },
        SingleCharacterToken::Plus => {
            proof {
                reveal_strlit("+");
                assert("+"@ =~= seq!['+']);
            }
            "+"
        },
        SingleCharacterToken::SemiColon => {
            proof {
                reveal_strlit(";");
                assert(";"@ =~= seq![';']);
            }
            ";"
        },
        SingleCharacterToken::Slash => {
            proof {
                reveal_strlit("/");
                assert("/"@ =~= seq!['/']);
            }
            "/"
        },
        SingleCharacterToken::Star => {
            proof {
                reveal_strlit("*");
                assert("*"@ =~= seq!['*']);
            }
            "*"
        },
        SingleCharacterToken::Not => {
            proof {
                reveal_strlit("!");
                assert("!"@ =~= seq!['!']);
            }
            "!"
        },
        SingleCharacterToken::EqualSign => {
            proof {
                reveal_strlit("=");
                assert("="@ =~= seq!['=']);
            }
            "="
        },
        SingleCharacterToken::GreaterThan => {
            proof {
                reveal_strlit(">");
                assert(">"@ =~= seq!['>']);
            }
            ">"
        },
        SingleCharacterToken::LessThan => {
            proof {
                reveal_strlit("<");
                assert("<"@ =~= seq!['<']);
            }
            "<"
        },
    }
}

/// The spelling of a double character token.
pub fn double_text(t: DoubleCharacterToken) -> (r: &'static str)
    ensures
        r@ == double_lexeme(t),
{
    match t {
        DoubleCharacterToken::NotEqual => {
            proof {
                reveal_strlit("!=");
                assert("!="@ =~= seq!['!', '=']);
            }
            "!="
        },
        DoubleCharacterToken::EqualEqualSign => {
            proof {
                reveal_strlit("==");
                assert("=="@ =~= seq!['=', '=']);
            }
            "=="
        },
        DoubleCharacterToken::GreaterThanOrEqual => {
            proof {
                reveal_strlit(">=");
                assert(">="@ =~= seq!['>', '=']);
            }
            ">="
        },
        DoubleCharacterToken::LessThanOrEqual => {
            proof {
                reveal_strlit("<=");
                assert("<="@ =~= seq!['<', '=']);
            }
            "<="
        },
    }
}

/// The single character token that `c` stands for, if any.
pub fn single_lookup(c: char) -> (r: Option<SingleCharacterToken>)
    ensures
        r == single_of(c),
{
    match c {
        '(' => Some(SingleCharacterToken::LeftParenthesis),
        ')' => Some(SingleCharacterToken::RightParenthesis),
        '{' => Some(SingleCharacterToken::LeftBrace),
        '}' => Some(SingleCharacterToken::RightBrace),
        ',' => Some(SingleCharacterToken::Comma),
        '.' => Some(SingleCharacterToken::Dot),
        '-' => Some(SingleCharacterToken::Minus),
        '+' => Some(SingleCharacterToken::Plus),
        ';' => Some(SingleCharacterToken::SemiColon),
        '/' => Some(SingleCharacterToken::Slash),
        '*' => Some(SingleCharacterToken::Star),
        '!' => Some(SingleCharacterToken::Not),
        '=' => Some(SingleCharacterToken::EqualSign),
        '>' => Some(SingleCharacterToken::GreaterThan),
        '<' => Some(SingleCharacterToken::LessThan),
        _ => None,
    }
}

/// The double character token whose first character is `c`, if any.
pub fn double_lookup(c: char) -> (r: Option<DoubleCharacterToken>)
    ensures
        r == double_of(c),
{
    match c {
        '!' => Some(DoubleCharacterToken::NotEqual),
        '=' => Some(DoubleCharacterToken::EqualEqualSign),
        '>' => Some(DoubleCharacterToken::GreaterThanOrEqual),
        '<' => Some(DoubleCharacterToken::LessThanOrEqual),
        _ => None,
    }
}

/// Whether the characters of `chars` from `lo` up to `hi` spell `word`.
pub fn span_spells(chars: &Vec<char>, lo: usize, hi: usize, word: &str) -> (r: bool)
    requires
        lo <= hi <= chars.len(),
    ensures
        r == (chars@.subrange(lo as int, hi as int) == word@),
{
    let n = word.unicode_len();
    if hi - lo != n {
        return false;
    }
    let mut j: usize = 0;
    while j < n
        invariant
            j <= n,
            n == word@.len(),
            hi - lo == n,
            lo <= hi <= chars.len(),
            forall|m: int| 0 <= m < j ==> chars@[lo + m] == word@[m],
        decreases n - j,
    {
        if chars[lo + j] != word.get_char(j) {
            assert(chars@.subrange(lo as int, hi as int)[j as int] != word@[j as int]);
            return false;
        }
        j = j + 1;
    }
    assert(chars@.subrange(lo as int, hi as int) =~= word@);
    true
}

/// The keyword spelled by the characters of `chars` from `lo` up to `hi`, if any.
pub fn keyword_lookup(chars: &Vec<char>, lo: usize, hi: usize) -> (r: Option<Keyword>)
    requires
        lo <= hi <= chars.len(),
    ensures
        r == keyword_of(chars@.subrange(lo as int, hi as int)),
{
    if span_spells(chars, lo, hi, keyword_text(Keyword::And)) {
        Some(Keyword::And)
    } else if span_spells(chars, lo, hi, keyword_text(Keyword::Class)) {
        Some(Keyword::Class)
    } else if span_spells(chars, lo, hi, keyword_text(Keyword::If)) {
        Some(Keyword::If)
    } else if span_spells(chars, lo, hi, keyword_text(Keyword::Else)) {
        Some(Keyword::Else)
    } else if span_spells(chars, lo, hi, keyword_text(Keyword::True)) {
        Some(Keyword::True)
    } else if span_spells(chars, lo, hi, keyword_text(Keyword::False)) {
        Some(Keyword::False)
    } else if span_spells(chars, lo, hi, keyword_text(Keyword::Fun)) {
        Some(Keyword::Fun)
    } else if span_spells(chars, lo, hi, keyword_text(Keyword::For)) {
        Some(Keyword::For)
    } else if span_spells(chars, lo, hi, keyword_text(Keyword::While)) {
        Some(Keyword::While)
    } else if span_spells(chars, lo, hi, keyword_text(Keyword::Var)) {
        Some(Keyword::Var)
    } else if span_spells(chars, lo, hi, keyword_text(Keyword::Nil)) {
        Some(Keyword::Nil)
    } else if span_spells(chars, lo, hi, keyword_text(Keyword::Or)) {
        Some(Keyword::Or)
    } else if span_spells(chars, lo, hi, keyword_text(Keyword::Print)) {
        Some(Keyword::Print)
    } else if span_spells(chars, lo, hi, keyword_text(Keyword::Return)) {
        Some(Keyword::Return)
    } else if span_spells(chars, lo, hi, keyword_text(Keyword::Super)) {
        Some(Keyword::Super)
    } else if span_spells(chars, lo, hi, keyword_text(Keyword::This)) {
        Some(Keyword::This)
    } else {
        None
    }
}

/// Looks a lexeme up in the lexeme table.
pub fn lexeme_to_token(lexeme: &str) -> (r: Option<Token>)
    ensures
        match r {
            Some(t) => lexeme_token(lexeme@) == Some(t@),
            None => lexeme_token(lexeme@) is None,
        },
{
    let chars = chars_of(lexeme);
    let n = chars.len();
    if let Some(k) = keyword_lookup(&chars, 0, n) {
        proof {
            assert(chars@.subrange(0, n as int) =~= lexeme@);
        }
        return Some(Token::KeywordToken(k));
    }
    proof {
        assert(chars@.subrange(0, n as int) =~= lexeme@);
    }
    if n == 1 {
        if let Some(t) = single_lookup(chars[0]) {
            return Some(Token::Single(t));
        }
    } else if n == 2 && chars[1] == '=' {
        if let Some(t) = double_lookup(chars[0]) {
            return Some(Token::Double(t));
        }
    }
    None
}

/// Looks the lexeme of a token up in the lexeme table.
pub fn token_to_lexeme(token: &Token) -> (r: Option<&'static str>)
    ensures
        match r {
            Some(l) => token_lexeme(token@) == Some(l@),
            None => token_lexeme(token@) is None,
        },
{
    match token {
        Token::KeywordToken(k) => Some(keyword_text(*k)),
        Token::Single(t) => Some(single_text(*t)),
        Token::Double(t) => Some(double_text(*t)),
        _ => None,
    }
}

/// The text of a token: its lexeme, the characters of a literal, or
/// `END_OF_FILE` for the end-of-stream marker.
pub open spec fn token_text(t: TokenView) -> Seq<char> {
    match t {
        TokenView::Eof => seq!['E', 'N', 'D', '_', 'O', 'F', '_', 'F', 'I', 'L', 'E'],
        TokenView::Number(s) => s,
        TokenView::Identifier(s) => s,
        TokenView::Str(s) => s,
        _ => token_lexeme(t)->0,
    }
}

impl Token {
    /// The text that shows this token.
    pub fn to_text(&self) -> (r: String)
        ensures
            r@ == token_text(self@),
    {
        broadcast use vstd::string::to_string_from_display_ensures_for_str;

        match self {
            Token::Eof => {
                proof {
                    reveal_strlit("END_OF_FILE");
                    assert("END_OF_FILE"@ =~= token_text(TokenView::Eof));
                }
                "END_OF_FILE".to_string()
            },
            Token::LiteralToken(Literal::Number(value)) => value.clone(),
            Token::LiteralToken(Literal::Identifier(value)) => value.clone(),
            Token::LiteralToken(Literal::StringLiteral(value)) => value.clone(),
            Token::KeywordToken(k) => keyword_text(*k).to_string(),
            Token::Single(t) => single_text(*t).to_string(),
            Token::Double(t) => double_text(*t).to_string(),
        }
    }
}

} // verus!
