use vstd::prelude::*;

use crate::lexemes::{
    double_lexeme, double_of, keyword_lexeme, keyword_of, lexeme_token, single_char, single_of,
    token_lexeme, Keyword, SingleCharacterToken,
};
use crate::lexer::{
    in_span, is_digit, is_ident_char, is_ident_start, is_unexpected, lemma_span_end,
    lemma_step_advances, lex_errors, lex_tokens, scan_from, span_end, step, word_token, LexerError,
    Span, TokenView,
};

verus! {

proof fn lemma_scan_has_no_eof(s: Seq<char>, i: int)
    requires
        0 <= i,
    ensures
        forall|k: int| 0 <= k < scan_from(s, i).0.len() ==> scan_from(s, i).0[k] != TokenView::Eof,
    decreases s.len() - i,
{
    if i < s.len() {
        lemma_step_advances(s, i);
        lemma_scan_has_no_eof(s, step(s, i).0);
        let rest = scan_from(s, step(s, i).0).0;
        assert forall|k: int| 0 <= k < scan_from(s, i).0.len() implies scan_from(s, i).0[k]
            != TokenView::Eof by {
            if step(s, i).1 is Some && k > 0 {
                assert(scan_from(s, i).0[k] == rest[k - 1]);
            }
        }
    }
}

/// Every scan's tokens end with the end-of-stream marker, and no other token
/// is an end-of-stream marker.
pub proof fn lemma_one_end_marker(s: Seq<char>)
    ensures
        lex_tokens(s).len() >= 1,
        lex_tokens(s).last() == TokenView::Eof,
        forall|k: int| 0 <= k < lex_tokens(s).len() - 1 ==> lex_tokens(s)[k] != TokenView::Eof,
{
    lemma_scan_has_no_eof(s, 0);
    let ts = scan_from(s, 0).0;
    assert forall|k: int| 0 <= k < lex_tokens(s).len() - 1 implies lex_tokens(s)[k]
        != TokenView::Eof by {
        assert(lex_tokens(s)[k] == ts[k]);
    }
}

proof fn lemma_keyword_round_trip(k: Keyword)
    ensures
        keyword_of(keyword_lexeme(k)) == Some(k),
{
    let w = keyword_lexeme(k);
    assert(w.len() >= 2);
    assert(keyword_lexeme(Keyword::And)[0] == 'a');
    assert(keyword_lexeme(Keyword::Class)[0] == 'c');
    assert(keyword_lexeme(Keyword::If)[0] == 'i');
    assert(keyword_lexeme(Keyword::Else)[0] == 'e');
    assert(keyword_lexeme(Keyword::True)[1] == 'r');
    assert(keyword_lexeme(Keyword::False)[1] == 'a');
    assert(keyword_lexeme(Keyword::Fun)[1] == 'u');
    assert(keyword_lexeme(Keyword::For)[1] == 'o');
    assert(keyword_lexeme(Keyword::While)[0] == 'w');
    assert(keyword_lexeme(Keyword::Var)[0] == 'v');
    assert(keyword_lexeme(Keyword::Nil)[0] == 'n');
    assert(keyword_lexeme(Keyword::Or)[0] == 'o');
    assert(keyword_lexeme(Keyword::Print)[0] == 'p');
    assert(keyword_lexeme(Keyword::Return)[0] == 'r');
    assert(keyword_lexeme(Keyword::Super)[0] == 's');
    assert(keyword_lexeme(Keyword::This)[1] == 'h');
    assert(w[0] == keyword_lexeme(k)[0]);
    assert(w[1] == keyword_lexeme(k)[1]);
}

/// The two directions of the lexeme table are inverse to each other: every
/// token with a fixed lexeme is found again from that lexeme, and every
/// lexeme of the table is the lexeme of the token it is mapped to.
pub proof fn lemma_lexeme_table_inverse(t: TokenView, l: Seq<char>)
    ensures
        token_lexeme(t) is Some ==> lexeme_token(token_lexeme(t)->0) == Some(t),
        lexeme_token(l) is Some ==> token_lexeme(lexeme_token(l)->0) == Some(l),
{
    match t {
        TokenView::KeywordToken(k) => {
            lemma_keyword_round_trip(k);
        },
        TokenView::Single(c) => {
            let w = seq![single_char(c)];
            assert(keyword_of(w) is None);
        },
        TokenView::Double(d) => {
            let w = double_lexeme(d);
            assert(w[0] != 'a' && w[0] != 'c' && w[0] != 'i' && w[0] != 'e');
            assert(keyword_of(w) is None);
        },
        _ => {},
    }
    if lexeme_token(l) is Some {
        if keyword_of(l) is None {
            if l.len() == 1 {
                assert(l =~= seq![single_char(single_of(l[0])->0)]);
            } else {
                assert(l =~= double_lexeme(double_of(l[0])->0));
            }
        }
    }
}

/// A word that starts with a letter or `_` and goes on with letters, digits
/// or `_` scans to its word token alone.
proof fn lemma_word_scans(w: Seq<char>)
    requires
        w.len() >= 1,
        is_ident_start(w[0]),
        forall|m: int| 1 <= m < w.len() ==> is_ident_char(#[trigger] w[m]),
    ensures
        scan_from(w, 0).0 == seq![word_token(w)],
        scan_from(w, 0).1 == Seq::<LexerError>::empty(),
{
    lemma_span_end(w, 1, Span::IdentChar);
    let e = span_end(w, 1, Span::IdentChar);
    if e < w.len() {
        assert(in_span(Span::IdentChar, w[e]));
    }
    assert(e == w.len());
    assert(w.subrange(0, e) =~= w);
    let c = w[0];
    assert(!is_digit(c));
    assert(single_of(c) is None);
    assert(double_of(c) is None);
    assert(step(w, 0).0 == w.len());
    assert(step(w, 0).1 == Some(word_token(w)));
    assert(scan_from(w, w.len() as int).0 == Seq::<TokenView>::empty());
    assert(scan_from(w, w.len() as int).1 == Seq::<LexerError>::empty());
    assert(!is_unexpected(c));
    assert(scan_from(w, 0).0 =~= seq![word_token(w)]);
    assert(scan_from(w, 0).1 =~= Seq::<LexerError>::empty());
}

spec fn is_lower(c: char) -> bool {
    'a' <= c && c <= 'z'
}

/// Scanning a lexeme of the table on its own gives the token it is mapped
/// to, then the end-of-stream marker, and no error.
pub proof fn lemma_fixed_lexeme_scans(l: Seq<char>)
    requires
        lexeme_token(l) is Some,
    ensures
        lex_tokens(l) == seq![lexeme_token(l)->0, TokenView::Eof],
        lex_errors(l).len() == 0,
{
    if keyword_of(l) is Some {
        let k = keyword_of(l)->0;
        assert(l == keyword_lexeme(k));
        match k {
            Keyword::And => {
                assert(forall|m: int| 0 <= m < l.len() ==> is_lower(#[trigger] l[m]));
            },
            Keyword::Class => {
                assert(forall|m: int| 0 <= m < l.len() ==> is_lower(#[trigger] l[m]));
            },
            Keyword::If => {
                assert(forall|m: int| 0 <= m < l.len() ==> is_lower(#[trigger] l[m]));
            },
            Keyword::Else => {
                assert(forall|m: int| 0 <= m < l.len() ==> is_lower(#[trigger] l[m]));
            },
            Keyword::True => {
                assert(forall|m: int| 0 <= m < l.len() ==> is_lower(#[trigger] l[m]));
            },
            Keyword::False => {
                assert(forall|m: int| 0 <= m < l.len() ==> is_lower(#[trigger] l[m]));
            },
            Keyword::Fun => {
                assert(forall|m: int| 0 <= m < l.len() ==> is_lower(#[trigger] l[m]));
            },
            Keyword::For => {
                assert(forall|m: int| 0 <= m < l.len() ==> is_lower(#[trigger] l[m]));
            },
            Keyword::While => {
                assert(forall|m: int| 0 <= m < l.len() ==> is_lower(#[trigger] l[m]));
            },
            Keyword::Var => {
                assert(forall|m: int| 0 <= m < l.len() ==> is_lower(#[trigger] l[m]));
            },
            Keyword::Nil => {
                assert(forall|m: int| 0 <= m < l.len() ==> is_lower(#[trigger] l[m]));
            },
            Keyword::Or => {
                assert(forall|m: int| 0 <= m < l.len() ==> is_lower(#[trigger] l[m]));
            },
            Keyword::Print => {
                assert(forall|m: int| 0 <= m < l.len() ==> is_lower(#[trigger] l[m]));
            },
            Keyword::Return => {
                assert(forall|m: int| 0 <= m < l.len() ==> is_lower(#[trigger] l[m]));
            },
            Keyword::Super => {
                assert(forall|m: int| 0 <= m < l.len() ==> is_lower(#[trigger] l[m]));
            },
            Keyword::This => {
                assert(forall|m: int| 0 <= m < l.len() ==> is_lower(#[trigger] l[m]));
            },
        }
        lemma_word_scans(l);
        assert(word_token(l) == TokenView::KeywordToken(k));
    } else {
        lemma_step_advances(l, 0);
        assert(step(l, 0).0 == l.len());
        assert(step(l, 0).1 == lexeme_token(l));
        assert(!is_unexpected(l[0]));
        assert(scan_from(l, l.len() as int).0 == Seq::<TokenView>::empty());
        assert(scan_from(l, l.len() as int).1 == Seq::<LexerError>::empty());
        assert(scan_from(l, 0).0 =~= seq![lexeme_token(l)->0]);
    }
    assert(lex_tokens(l) =~= seq![lexeme_token(l)->0, TokenView::Eof]);
}


/// A `!` that is not followed by `=` scans to a `Not` token, followed by what
/// the next character scans to on its own.
pub proof fn lemma_not_then_other(c: char)
    requires
        c != '=',
    ensures
        lex_tokens(seq!['!', c]) == seq![TokenView::Single(SingleCharacterToken::Not)]
            + lex_tokens(seq![c]),
{
    let s = seq!['!', c];
    let t = seq![c];
    lemma_step_advances(s, 1);
    lemma_step_advances(t, 0);
    lemma_span_end(s, 2, Span::NotQuote);
    lemma_span_end(t, 1, Span::NotQuote);
    lemma_span_end(s, 2, Span::NumberChar);
    lemma_span_end(t, 1, Span::NumberChar);
    lemma_span_end(s, 2, Span::IdentChar);
    lemma_span_end(t, 1, Span::IdentChar);
    assert(s.subrange(1, 2) =~= t);
    assert(t.subrange(0, 1) =~= t);
    assert(s.subrange(2, 2) =~= t.subrange(1, 1));
    assert(step(s, 1).1 == step(t, 0).1);
    assert(scan_from(s, 2).0 == Seq::<TokenView>::empty());
    assert(scan_from(t, 1).0 == Seq::<TokenView>::empty());
    assert(scan_from(s, 1).0 =~= scan_from(t, 0).0);
    assert(lex_tokens(s) =~= seq![TokenView::Single(SingleCharacterToken::Not)]
        + lex_tokens(t));
}

} // verus!
