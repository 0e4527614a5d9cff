//! Tokenisation: the pattern of the language's tokens, the search for it in
//! the source text, and the making of tokens from what the search found.

use vstd::prelude::*;
use vstd::string::StrSliceExecFns;
use super::span::{PositionView, Span, SpanView};
use super::token::{Token, TokenKind, TokenValue, TokenView, Tokens};
use crate::text::text_is;

verus! {

/// The error of `regex::Regex::new`: why a pattern was refused. Nothing is
/// claimed of what it holds.
#[verifier::external_type_specification]
#[verifier::external_body]
pub struct ExRegexError(regex::Error);

/// The regular expression that captures all tokens. Each kind of token has
/// a capture group of its own, named like the kind; the last alternative
/// matches any other character.
pub const TOKEN_PATTERN: &'static str = "(?P<As>as)|(?P<Else>else)|(?P<Expose>expose)|(?P<Extern>extern)|(?P<For>for)|(?P<Func>fn)|(?P<If>if)|(?P<Import>import)|(?P<In>in)|(?P<Module>module)|(?P<Mut>mut)|(?P<Ref>ref)|(?P<Type>type)|(?P<BraceL>\\{)|(?P<BraceR>\\})|(?P<BracketL>\\[)|(?P<BracketR>\\])|(?P<Colon>:)|(?P<Comma>,)|(?P<DotDot>\\.\\.)|(?P<Dot>\\.)|(?P<LambdaR>->)|(?P<ParenL>\\()|(?P<ParenR>\\))|(?P<Pipe>\\|)|(?P<Question>\\?)|(?P<SemiColon>;)|(?P<Whitespace>( |\\t))|(?P<WhitespaceNewline>(\\n|\\r))|(?P<Add>\\+)|(?P<AddEq>\\+=)|(?P<And>&&)|(?P<Assign>:=)|(?P<Div>/)|(?P<DivEq>/=)|(?P<Equal>=)|(?P<NotEqual>!=)|(?P<LessThan><)|(?P<LessThanEq><=)|(?P<GreaterThan>>)|(?P<GreaterThanEq>>=)|(?P<Mul>\\*)|(?P<MulEq>\\*=)|(?P<Or>\\|\\|)|(?P<PushPop><-)|(?P<Sub>-)|(?P<SubEq>-=)|'(?P<Char>(\\\\'|[^']|\\\\u([0-9]|[ABCDEF]){4}))'|(?P<Bool>(true|false))|(?P<Float>[0-9]+\\.[0-9]+)|(?P<Int>[0-9]+)|\"(?P<Str>(\\\\\"|[^\"])*)\"|(?P<Ident>[_a-zA-Z]([_a-zA-Z]|[0-9])*)|(?P<Comment>//(.)*\\n)|(.)";

/// The capture groups of one match, in the order of the pattern: the name
/// of each group, where it has one, and the text it matched, where it took
/// part in the match.
pub type Captured = Vec<(Option<String>, Option<String>)>;

/// What a search found, as plain values.
pub type CapturedView = Seq<(Option<Seq<char>>, Option<Seq<char>>)>;

/// All successive matches of a pattern in a text, each with its capture
/// groups.
pub uninterp spec fn regex_captures(pattern: Seq<char>, input: Seq<char>) -> Seq<CapturedView>;

/// Whether the regular expression engine accepts a pattern: whether
/// `regex::Regex::new` compiles it.
pub uninterp spec fn regex_accepts(pattern: Seq<char>) -> bool;

/// Calls `regex::Regex::new` on the pattern and, where that compiles,
/// `Regex::captures_iter` on the input; each match is handed out as the
/// pairs of `Regex::capture_names` and `Captures::iter`. Whether a pattern
/// compiles depends on the pattern alone, and the outcome of a search on
/// the pattern and the input alone, which is all that the contract claims:
/// it gives both a name.
#[verifier::external_body]
fn captures(pattern: &str, input: &str) -> (found: Result<Vec<Captured>, regex::Error>)
    ensures
        found is Ok <==> regex_accepts(pattern@),
        found matches Ok(ms) ==> ms.deep_view() == regex_captures(pattern@, input@),
{
    let re = regex::Regex::new(pattern)?;
    Ok(
        re.captures_iter(input).map(
            |c|
                re.capture_names().zip(c.iter()).map(
                    |(n, m)| (n.map(|s| s.to_string()), m.map(|t| t.as_str().to_string())),
                ).collect(),
        ).collect(),
    )
}

/// Calls `char::from_u32`, which gives the character with the given code
/// unless the code is a surrogate or lies above the last code point.
#[verifier::external_body]
fn char_from_code(code: u32) -> (c: Option<char>)
    ensures
        c is None <==> (0xD800 <= code <= 0xDFFF || code > 0x10FFFF),
        c matches Some(ch) ==> ch as u32 == code,
{
    char::from_u32(code)
}

/// Why a text could not be turned into tokens.
#[derive(Debug, PartialEq)]
pub enum LexErr {
    /// The token pattern was not accepted by the regular expression engine.
    Pattern,
    /// A piece of text that is no token.
    Unexpected { text: String, span: Span },
    /// A literal whose text does not give a value.
    Malformed { text: String, span: Span },
}

/// What a `LexErr` stands for.
pub ghost enum LexErrView {
    Pattern,
    Unexpected { text: Seq<char>, span: SpanView },
    Malformed { text: Seq<char>, span: SpanView },
}

impl View for LexErr {
    type V = LexErrView;

    open spec fn view(&self) -> LexErrView {
        match self {
            LexErr::Pattern => LexErrView::Pattern,
            LexErr::Unexpected { text, span } => LexErrView::Unexpected { text: text@, span: span@ },
            LexErr::Malformed { text, span } => LexErrView::Malformed { text: text@, span: span@ },
        }
    }
}

/// The sum of two numbers, or the largest number where the sum is larger.
pub open spec fn saturating_sum(a: usize, b: nat) -> usize {
    if a + b <= usize::MAX {
        (a + b) as usize
    } else {
        usize::MAX
    }
}

fn saturating_add(a: usize, b: usize) -> (r: usize)
    ensures
        r == saturating_sum(a, b as nat),
{
    if a <= usize::MAX - b {
        a + b
    } else {
        usize::MAX
    }
}

/// The kind of token that the capture group of the given name stands for.
pub open spec fn spec_kind_of_name(name: Seq<char>) -> Option<TokenKind> {
    if name == "As"@ {
        Some(TokenKind::As)
    } else if name == "Else"@ {
        Some(TokenKind::Else)
    } else if name == "Expose"@ {
        Some(TokenKind::Expose)
    } else if name == "Extern"@ {
        Some(TokenKind::Extern)
    } else if name == "For"@ {
        Some(TokenKind::For)
    } else if name == "Func"@ {
        Some(TokenKind::Func)
    } else if name == "If"@ {
        Some(TokenKind::If)
    } else if name == "Import"@ {
        Some(TokenKind::Import)
    } else if name == "In"@ {
        Some(TokenKind::In)
    } else if name == "Module"@ {
        Some(TokenKind::Module)
    } else if name == "Mut"@ {
        Some(TokenKind::Mut)
    } else if name == "Ref"@ {
        Some(TokenKind::Ref)
    } else if name == "Type"@ {
        Some(TokenKind::Type)
    } else if name == "BraceL"@ {
        Some(TokenKind::BraceL)
    } else if name == "BraceR"@ {
        Some(TokenKind::BraceR)
    } else if name == "BracketL"@ {
        Some(TokenKind::BracketL)
    } else if name == "BracketR"@ {
        Some(TokenKind::BracketR)
    } else if name == "Colon"@ {
        Some(TokenKind::Colon)
    } else if name == "Comma"@ {
        Some(TokenKind::Comma)
    } else if name == "DotDot"@ {
        Some(TokenKind::DotDot)
    } else if name == "Dot"@ {
        Some(TokenKind::Dot)
    } else if name == "LambdaR"@ {
        Some(TokenKind::LambdaR)
    } else if name == "ParenL"@ {
        Some(TokenKind::ParenL)
    } else if name == "ParenR"@ {
        Some(TokenKind::ParenR)
    } else if name == "Pipe"@ {
        Some(TokenKind::Pipe)
    } else if name == "Question"@ {
        Some(TokenKind::Question)
    } else if name == "SemiColon"@ {
        Some(TokenKind::SemiColon)
    } else if name == "Whitespace"@ {
        Some(TokenKind::Whitespace)
    } else if name == "WhitespaceNewline"@ {
        Some(TokenKind::WhitespaceNewline)
    } else if name == "Add"@ {
        Some(TokenKind::Add)
    } else if name == "AddEq"@ {
        Some(TokenKind::AddEq)
    } else if name == "And"@ {
        Some(TokenKind::And)
    } else if name == "Assign"@ {
        Some(TokenKind::Assign)
    } else if name == "Div"@ {
        Some(TokenKind::Div)
    } else if name == "DivEq"@ {
        Some(TokenKind::DivEq)
    } else if name == "Equal"@ {
        Some(TokenKind::Equal)
    } else if name == "GreaterThan"@ {
        Some(TokenKind::GreaterThan)
    } else if name == "GreaterThanEq"@ {
        Some(TokenKind::GreaterThanEq)
    } else if name == "LessThan"@ {
        Some(TokenKind::LessThan)
    } else if name == "LessThanEq"@ {
        Some(TokenKind::LessThanEq)
    } else if name == "Mul"@ {
        Some(TokenKind::Mul)
    } else if name == "MulEq"@ {
        Some(TokenKind::MulEq)
    } else if name == "Or"@ {
        Some(TokenKind::Or)
    } else if name == "PushPop"@ {
        Some(TokenKind::PushPop)
    } else if name == "Sub"@ {
        Some(TokenKind::Sub)
    } else if name == "SubEq"@ {
        Some(TokenKind::SubEq)
    } else if name == "Bool"@ {
        Some(TokenKind::Bool)
    } else if name == "Char"@ {
        Some(TokenKind::Char)
    } else if name == "Float"@ {
        Some(TokenKind::Float)
    } else if name == "Int"@ {
        Some(TokenKind::Int)
    } else if name == "Str"@ {
        Some(TokenKind::Str)
    } else if name == "Ident"@ {
        Some(TokenKind::Ident)
    } else if name == "Comment"@ {
        Some(TokenKind::Comment)
    } else {
        None
    }
}

/// The kind of token that the capture group of the given name stands for.
pub fn kind_of_name(name: &String) -> (kind: Option<TokenKind>)
    ensures
        kind == spec_kind_of_name(name@),
{
    if text_is(name, "As") {
        Some(TokenKind::As)
    } else if text_is(name, "Else") {
        Some(TokenKind::Else)
    } else if text_is(name, "Expose") {
        Some(TokenKind::Expose)
    } else if text_is(name, "Extern") {
        Some(TokenKind::Extern)
    } else if text_is(name, "For") {
        Some(TokenKind::For)
    } else if text_is(name, "Func") {
        Some(TokenKind::Func)
    } else if text_is(name, "If") {
        Some(TokenKind::If)
    } else if text_is(name, "Import") {
        Some(TokenKind::Import)
    } else if text_is(name, "In") {
        Some(TokenKind::In)
    } else if text_is(name, "Module") {
        Some(TokenKind::Module)
    } else if text_is(name, "Mut") {
        Some(TokenKind::Mut)
    } else if text_is(name, "Ref") {
        Some(TokenKind::Ref)
    } else if text_is(name, "Type") {
        Some(TokenKind::Type)
    } else if text_is(name, "BraceL") {
        Some(TokenKind::BraceL)
    } else if text_is(name, "BraceR") {
        Some(TokenKind::BraceR)
    } else if text_is(name, "BracketL") {
        Some(TokenKind::BracketL)
    } else if text_is(name, "BracketR") {
        Some(TokenKind::BracketR)
    } else if text_is(name, "Colon") {
        Some(TokenKind::Colon)
    } else if text_is(name, "Comma") {
        Some(TokenKind::Comma)
    } else if text_is(name, "DotDot") {
        Some(TokenKind::DotDot)
    } else if text_is(name, "Dot") {
        Some(TokenKind::Dot)
    } else if text_is(name, "LambdaR") {
        Some(TokenKind::LambdaR)
    } else if text_is(name, "ParenL") {
        Some(TokenKind::ParenL)
    } else if text_is(name, "ParenR") {
        Some(TokenKind::ParenR)
    } else if text_is(name, "Pipe") {
        Some(TokenKind::Pipe)
    } else if text_is(name, "Question") {
        Some(TokenKind::Question)
    } else if text_is(name, "SemiColon") {
        Some(TokenKind::SemiColon)
    } else if text_is(name, "Whitespace") {
        Some(TokenKind::Whitespace)
    } else if text_is(name, "WhitespaceNewline") {
        Some(TokenKind::WhitespaceNewline)
    } else if text_is(name, "Add") {
        Some(TokenKind::Add)
    } else if text_is(name, "AddEq") {
        Some(TokenKind::AddEq)
    } else if text_is(name, "And") {
        Some(TokenKind::And)
    } else if text_is(name, "Assign") {
        Some(TokenKind::Assign)
    } else if text_is(name, "Div") {
        Some(TokenKind::Div)
    } else if text_is(name, "DivEq") {
        Some(TokenKind::DivEq)
    } else if text_is(name, "Equal") {
        Some(TokenKind::Equal)
    } else if text_is(name, "GreaterThan") {
        Some(TokenKind::GreaterThan)
    } else if text_is(name, "GreaterThanEq") {
        Some(TokenKind::GreaterThanEq)
    } else if text_is(name, "LessThan") {
        Some(TokenKind::LessThan)
    } else if text_is(name, "LessThanEq") {
        Some(TokenKind::LessThanEq)
    } else if text_is(name, "Mul") {
        Some(TokenKind::Mul)
    } else if text_is(name, "MulEq") {
        Some(TokenKind::MulEq)
    } else if text_is(name, "Or") {
        Some(TokenKind::Or)
    } else if text_is(name, "PushPop") {
        Some(TokenKind::PushPop)
    } else if text_is(name, "Sub") {
        Some(TokenKind::Sub)
    } else if text_is(name, "SubEq") {
        Some(TokenKind::SubEq)
    } else if text_is(name, "Bool") {
        Some(TokenKind::Bool)
    } else if text_is(name, "Char") {
        Some(TokenKind::Char)
    } else if text_is(name, "Float") {
        Some(TokenKind::Float)
    } else if text_is(name, "Int") {
        Some(TokenKind::Int)
    } else if text_is(name, "Str") {
        Some(TokenKind::Str)
    } else if text_is(name, "Ident") {
        Some(TokenKind::Ident)
    } else if text_is(name, "Comment") {
        Some(TokenKind::Comment)
    } else {
        None
    }
}

/// The text of the whole match: that of the first group; empty where the
/// match has no such group.
pub open spec fn whole_text(m: CapturedView) -> Seq<char> {
    if m.len() > 0 && m[0].1 is Some {
        m[0].1->0
    } else {
        Seq::empty()
    }
}

/// The first group at or after `from` that has a name and took part in the
/// match: its name and its text.
pub open spec fn first_named(m: CapturedView, from: int) -> Option<(Seq<char>, Seq<char>)>
    decreases m.len() - from,
{
    if from < 0 || from >= m.len() {
        None
    } else if m[from].0 is Some && m[from].1 is Some {
        Some((m[from].0->0, m[from].1->0))
    } else {
        first_named(m, from + 1)
    }
}

/// The value of a decimal digit, if the character is one.
pub open spec fn digit_value(c: char) -> Option<int> {
    if '0' <= c <= '9' {
        Some(c as int - '0' as int)
    } else {
        None
    }
}

/// The value of a hexadecimal digit in `0-9A-F`, if the character is one.
pub open spec fn hex_value(c: char) -> Option<int> {
    if '0' <= c <= '9' {
        Some(c as int - '0' as int)
    } else if 'A' <= c <= 'F' {
        Some(c as int - 'A' as int + 10)
    } else {
        None
    }
}

/// Whether every character of the text is a decimal digit.
pub open spec fn all_digits(s: Seq<char>) -> bool {
    forall|i: int| 0 <= i < s.len() ==> digit_value(#[trigger] s[i]) is Some
}

/// The number that a text of decimal digits denotes.
pub open spec fn decimal_value(s: Seq<char>) -> int
    decreases s.len(),
{
    if s.len() == 0 {
        0
    } else {
        decimal_value(s.drop_last()) * 10 + digit_value(s.last()).unwrap_or(0)
    }
}

/// The integer that a literal's text denotes: the text is a non-empty run
/// of decimal digits whose value fits.
pub open spec fn spec_parse_int(s: Seq<char>) -> Option<i64> {
    if s.len() > 0 && all_digits(s) && decimal_value(s) <= i64::MAX {
        Some(decimal_value(s) as i64)
    } else {
        None
    }
}

proof fn lemma_decimal_value_grows(s: Seq<char>, i: int, j: int)
    requires
        0 <= i <= j <= s.len(),
    ensures
        0 <= decimal_value(s.take(i)) <= decimal_value(s.take(j)),
    decreases j - i,
{
    if i == 0 {
        assert(s.take(0).len() == 0);
    }
    lemma_decimal_value_nonnegative(s.take(i));
    if i < j {
        lemma_decimal_value_grows(s, i, j - 1);
        assert(s.take(j).drop_last() =~= s.take(j - 1));
        lemma_decimal_value_nonnegative(s.take(j - 1));
    }
}

proof fn lemma_decimal_value_nonnegative(s: Seq<char>)
    ensures
        0 <= decimal_value(s),
    decreases s.len(),
{
    if s.len() > 0 {
        lemma_decimal_value_nonnegative(s.drop_last());
    }
}

/// The integer that a literal's text denotes.
pub fn parse_int(text: &str) -> (value: Option<i64>)
    ensures
        value == spec_parse_int(text@),
{
    let n: usize = text.unicode_len();
    if n == 0 {
        return None;
    }
    let mut acc: i64 = 0;
    let mut i: usize = 0;
    while i < n
        invariant
            n == text@.len(),
            i <= n,
            all_digits(text@.take(i as int)),
            acc == decimal_value(text@.take(i as int)),
            0 <= acc,
        decreases n - i,
    {
        let c: char = text.get_char(i);
        if !('0' <= c && c <= '9') {
            assert(digit_value(text@[i as int]) is None);
            return None;
        }
        let d: i64 = (c as u8 - '0' as u8) as i64;
        assert(d == digit_value(c)->0);
        proof {
            assert(text@.take(i + 1).drop_last() =~= text@.take(i as int));
            assert(text@.take(i + 1).last() == c);
        }
        if acc > (i64::MAX - d) / 10 {
            proof {
                assert(decimal_value(text@.take(i + 1)) > i64::MAX);
                lemma_decimal_value_grows(text@, i + 1, n as int);
                assert(text@.take(n as int) =~= text@);
            }
            return None;
        }
        acc = acc * 10 + d;
        proof {
            assert forall|k: int| 0 <= k < i + 1 implies digit_value(
                #[trigger] text@.take(i + 1)[k],
            ) is Some by {
                if k < i {
                    assert(text@.take(i as int)[k] == text@.take(i + 1)[k]);
                }
            }
        }
        i += 1;
    }
    assert(text@.take(n as int) =~= text@);
    Some(acc)
}

/// Whether the text holds, from position `at` on, a backslash, the letter
/// `u` and four hexadecimal digits.
pub open spec fn escape_at(s: Seq<char>, at: int) -> bool {
    &&& 0 <= at
    &&& at + 6 <= s.len()
    &&& s[at] == '\\'
    &&& s[at + 1] == 'u'
    &&& hex_value(s[at + 2]) is Some
    &&& hex_value(s[at + 3]) is Some
    &&& hex_value(s[at + 4]) is Some
    &&& hex_value(s[at + 5]) is Some
}

/// The code that the four hexadecimal digits of the escape at `at` denote.
pub open spec fn escape_code(s: Seq<char>, at: int) -> int {
    ((hex_value(s[at + 2])->0 * 16 + hex_value(s[at + 3])->0) * 16 + hex_value(s[at + 4])->0) * 16
        + hex_value(s[at + 5])->0
}

/// The first position at or after `from` at which the text holds an
/// escape.
pub open spec fn first_escape(s: Seq<char>, from: int) -> Option<int>
    decreases s.len() - from,
{
    if from < 0 || from + 6 > s.len() {
        None
    } else if escape_at(s, from) {
        Some(from)
    } else {
        first_escape(s, from + 1)
    }
}

/// The code of the character that a character literal's text denotes: the
/// one that its first escape gives, if the text holds an escape and the
/// code is that of a character; else the code of its first character.
pub open spec fn spec_parse_char(s: Seq<char>) -> Option<u32> {
    match first_escape(s, 0) {
        Some(at) => {
            let code = escape_code(s, at);
            if 0xD800 <= code <= 0xDFFF {
                None
            } else {
                Some(code as u32)
            }
        },
        None => if s.len() > 0 {
            Some(s[0] as u32)
        } else {
            None
        },
    }
}

fn hex_digit(c: char) -> (v: Option<u32>)
    ensures
        v is Some <==> hex_value(c) is Some,
        v matches Some(d) ==> d == hex_value(c)->0 && d < 16,
{
    if '0' <= c && c <= '9' {
        Some((c as u8 - '0' as u8) as u32)
    } else if 'A' <= c && c <= 'F' {
        Some((c as u8 - 'A' as u8 + 10) as u32)
    } else {
        None
    }
}

/// The code of the escape at `at`, if the text holds one there.
fn escape_code_at(text: &str, n: usize, at: usize) -> (code: Option<u32>)
    requires
        n == text@.len(),
    ensures
        code is Some <==> escape_at(text@, at as int),
        code matches Some(c) ==> c == escape_code(text@, at as int) && c <= 0xFFFF,
{
    if n < 6 || at > n - 6 {
        return None;
    }
    if text.get_char(at) != '\\' || text.get_char(at + 1) != 'u' {
        return None;
    }
    let a = hex_digit(text.get_char(at + 2));
    let b = hex_digit(text.get_char(at + 3));
    let c = hex_digit(text.get_char(at + 4));
    let d = hex_digit(text.get_char(at + 5));
    match (a, b, c, d) {
        (Some(a), Some(b), Some(c), Some(d)) => Some(((a * 16 + b) * 16 + c) * 16 + d),
        _ => None,
    }
}

/// The character that a character literal's text denotes.
pub fn parse_char(text: &str) -> (value: Option<char>)
    ensures
        value is Some <==> spec_parse_char(text@) is Some,
        value matches Some(c) ==> c as u32 == spec_parse_char(text@)->0,
{
    let n: usize = text.unicode_len();
    let mut at: usize = 0;
    while at < n
        invariant
            n == text@.len(),
            at <= n,
            first_escape(text@, 0) == first_escape(text@, at as int),
        decreases n - at,
    {
        match escape_code_at(text, n, at) {
            Some(code) => {
                let c = char_from_code(code);
                proof {
                    assert(first_escape(text@, at as int) == Some(at as int));
                    assert(c is None <==> 0xD800 <= code <= 0xDFFF);
                }
                return c;
            },
            None => {},
        }
        at += 1;
    }
    if n > 0 {
        Some(text.get_char(0))
    } else {
        None
    }
}

/// The span of a token of `len` characters that begins at the given line
/// and column.
pub open spec fn span_at(filename: Seq<char>, line: usize, column: usize, len: nat) -> SpanView {
    SpanView {
        begin: PositionView { filename, line, column },
        end: PositionView {
            filename,
            line,
            column: (saturating_sum(column, len) - 1) as usize,
        },
    }
}

/// The token of the given kind that the text denotes.
pub open spec fn spec_build(kind: TokenKind, text: Seq<char>, span: SpanView) -> Result<
    TokenView,
    LexErrView,
> {
    match kind {
        TokenKind::Bool => if text == "true"@ {
            Ok(TokenView { kind, value: TokenValue::Bool(true), span })
        } else if text == "false"@ {
            Ok(TokenView { kind, value: TokenValue::Bool(false), span })
        } else {
            Err(LexErrView::Malformed { text, span })
        },
        TokenKind::Char => match spec_parse_char(text) {
            Some(code) => Ok(TokenView { kind, value: TokenValue::Char(code), span }),
            None => Err(LexErrView::Malformed { text, span }),
        },
        TokenKind::Int => match spec_parse_int(text) {
            Some(i) => Ok(TokenView { kind, value: TokenValue::Int(i), span }),
            None => Err(LexErrView::Malformed { text, span }),
        },
        TokenKind::Float | TokenKind::Str | TokenKind::Ident | TokenKind::Comment => Ok(
            TokenView { kind, value: TokenValue::Text(text), span },
        ),
        _ => Ok(TokenView { kind, value: TokenValue::Nothing, span }),
    }
}

/// What a token or an error stands for.
pub open spec fn token_result_view(r: Result<Token, LexErr>) -> Result<TokenView, LexErrView> {
    match r {
        Ok(t) => Ok(t@),
        Err(e) => Err(e@),
    }
}

/// What a list of tokens stands for.
pub open spec fn tokens_view(tokens: Seq<Token>) -> Seq<TokenView> {
    tokens.map_values(|t: Token| t@)
}

/// What a list of tokens or an error stands for.
pub open spec fn tokens_result_view(r: Result<Tokens, LexErr>) -> Result<
    Seq<TokenView>,
    LexErrView,
> {
    match r {
        Ok(ts) => Ok(tokens_view(ts@)),
        Err(e) => Err(e@),
    }
}

/// The token that one match gives, where the match begins at the given
/// line and column: the first group that has a name and took part in the
/// match decides the kind, and its text the value.
pub open spec fn spec_token_of(
    filename: Seq<char>,
    m: CapturedView,
    line: usize,
    column: usize,
) -> Result<TokenView, LexErrView> {
    let text = whole_text(m);
    let span = span_at(filename, line, column, text.len());
    match first_named(m, 0) {
        None => Err(LexErrView::Unexpected { text, span }),
        Some((name, value)) => match spec_kind_of_name(name) {
            None => Err(LexErrView::Unexpected { text, span }),
            Some(kind) => spec_build(kind, value, span),
        },
    }
}

/// Where the tokenisation stands after some matches: the tokens so far, or
/// the first error, and the line and column at which the next match begins.
pub ghost struct LexState {
    pub tokens: Result<Seq<TokenView>, LexErrView>,
    pub line: usize,
    pub column: usize,
}

/// The state after the first `n` matches. Lines and columns count from one.
/// A match advances the column by the number of its characters; a match
/// that is a line feed begins a new line. Spaces and tabs give no token.
/// After an error nothing changes any more.
pub open spec fn lex(filename: Seq<char>, ms: Seq<CapturedView>, n: nat) -> LexState
    decreases n,
{
    if n == 0 || n > ms.len() {
        LexState { tokens: Ok(Seq::empty()), line: 1, column: 1 }
    } else {
        let before = lex(filename, ms, (n - 1) as nat);
        match before.tokens {
            Err(_) => before,
            Ok(tokens) => {
                let m = ms[n - 1];
                let text = whole_text(m);
                let (line, column) = if text == "\n"@ {
                    (saturating_sum(before.line, 1), 1usize)
                } else {
                    (before.line, saturating_sum(before.column, text.len()))
                };
                match spec_token_of(filename, m, before.line, before.column) {
                    Err(e) => LexState { tokens: Err(e), line, column },
                    Ok(t) => LexState {
                        tokens: Ok(
                            if t.kind == TokenKind::Whitespace {
                                tokens
                            } else {
                                tokens.push(t)
                            },
                        ),
                        line,
                        column,
                    },
                }
            },
        }
    }
}

/// An error, once met, is the outcome of the whole tokenisation.
pub proof fn lemma_lex_error_stays(filename: Seq<char>, ms: Seq<CapturedView>, i: nat, n: nat)
    requires
        i <= n <= ms.len(),
        lex(filename, ms, i).tokens is Err,
    ensures
        lex(filename, ms, n) == lex(filename, ms, i),
    decreases n - i,
{
    if i < n {
        lemma_lex_error_stays(filename, ms, i, (n - 1) as nat);
    }
}

/// An error of tokenisation is a piece of text that is no token, or a
/// literal without a value: it is never the refusal of the pattern.
pub proof fn lemma_lex_error_kinds(filename: Seq<char>, ms: Seq<CapturedView>, n: nat)
    requires
        n <= ms.len(),
    ensures
        lex(filename, ms, n).tokens matches Err(e) ==> !(e is Pattern),
    decreases n,
{
    if n > 0 {
        lemma_lex_error_kinds(filename, ms, (n - 1) as nat);
    }
}

/// No token stands for a space or a tab, and every token begins at a line
/// and a column that are at least one.
pub proof fn lemma_lex_tokens(filename: Seq<char>, ms: Seq<CapturedView>, n: nat)
    requires
        n <= ms.len(),
    ensures
        1 <= lex(filename, ms, n).line,
        1 <= lex(filename, ms, n).column,
        lex(filename, ms, n).tokens matches Ok(tokens) ==> {
            &&& tokens.len() <= n
            &&& forall|i: int|
                0 <= i < tokens.len() ==> {
                    &&& (#[trigger] tokens[i]).kind != TokenKind::Whitespace
                    &&& 1 <= tokens[i].span.begin.line
                    &&& 1 <= tokens[i].span.begin.column
                    &&& tokens[i].span.begin.filename == filename
                    &&& tokens[i].span.end.filename == filename
                }
        },
    decreases n,
{
    if n > 0 {
        lemma_lex_tokens(filename, ms, (n - 1) as nat);
        let before = lex(filename, ms, (n - 1) as nat);
        if before.tokens is Ok {
            let m = ms[n - 1];
            let text = whole_text(m);
            let span = span_at(filename, before.line, before.column, text.len());
            match spec_token_of(filename, m, before.line, before.column) {
                Ok(t) => {
                    assert(t.span == span) by {
                        match first_named(m, 0) {
                            Some((name, value)) => {
                                match spec_kind_of_name(name) {
                                    Some(kind) => {
                                        assert(spec_build(kind, value, span) == Ok::<
                                            TokenView,
                                            LexErrView,
                                        >(t));
                                    },
                                    None => {},
                                }
                            },
                            None => {},
                        }
                    }
                },
                Err(_) => {},
            }
        }
    }
}

proof fn lemma_captured_view(m: Captured, j: int)
    requires
        0 <= j < m.len(),
    ensures
        m.deep_view().len() == m.len(),
        m.deep_view()[j].0 == m[j].0.deep_view(),
        m.deep_view()[j].1 == m[j].1.deep_view(),
{
}

fn whole_of(m: &Captured) -> (text: String)
    ensures
        text@ == whole_text(m.deep_view()),
{
    if m.len() > 0 {
        proof {
            lemma_captured_view(*m, 0);
        }
        match &m[0].1 {
            Some(t) => t.clone(),
            None => String::new(),
        }
    } else {
        String::new()
    }
}

fn first_named_of(m: &Captured) -> (found: Option<(String, String)>)
    ensures
        found is Some <==> first_named(m.deep_view(), 0) is Some,
        found matches Some((name, text)) ==> first_named(m.deep_view(), 0) == Some(
            (name@, text@),
        ),
{
    let mut j: usize = 0;
    while j < m.len()
        invariant
            j <= m.len(),
            m.deep_view().len() == m.len(),
            first_named(m.deep_view(), 0) == first_named(m.deep_view(), j as int),
        decreases m.len() - j,
    {
        proof {
            lemma_captured_view(*m, j as int);
        }
        match (&m[j].0, &m[j].1) {
            (Some(name), Some(text)) => {
                return Some((name.clone(), text.clone()));
            },
            _ => {},
        }
        j += 1;
    }
    None
}

impl Token {
    /// The token of the given kind that the text denotes.
    pub fn build(kind: TokenKind, text: String, span: Span) -> (token: Result<Token, LexErr>)
        ensures
            token_result_view(token) == spec_build(kind, text@, span@),
    {
        match kind {
            TokenKind::Bool => {
                if text_is(&text, "true") {
                    Ok(Token::Bool(true, span))
                } else if text_is(&text, "false") {
                    Ok(Token::Bool(false, span))
                } else {
                    Err(LexErr::Malformed { text, span })
                }
            },
            TokenKind::Char => match parse_char(text.as_str()) {
                Some(c) => Ok(Token::Char(c, span)),
                None => Err(LexErr::Malformed { text, span }),
            },
            TokenKind::Int => match parse_int(text.as_str()) {
                Some(i) => Ok(Token::Int(i, span)),
                None => Err(LexErr::Malformed { text, span }),
            },
            TokenKind::Float => Ok(Token::Float(text, span)),
            TokenKind::Str => Ok(Token::Str(text, span)),
            TokenKind::Ident => Ok(Token::Ident(text, span)),
            TokenKind::Comment => Ok(Token::Comment(text, span)),
            _ => match Token::plain(kind, span) {
                Some(t) => Ok(t),
                None => vstd::pervasive::unreached(),
            },
        }
    }

    /// The tokens that the successive matches of the token pattern give, or
    /// the first error.
    pub fn from_captures(filename: &str, found: &Vec<Captured>) -> (tokens: Result<Tokens, LexErr>)
        ensures
            tokens_result_view(tokens) == lex(
                filename@,
                found.deep_view(),
                found.len() as nat,
            ).tokens,
    {
        let ghost ms = found.deep_view();
        let mut tokens: Vec<Token> = Vec::new();
        let mut line: usize = 1;
        let mut column: usize = 1;
        let mut i: usize = 0;
        assert(tokens_view(tokens@) =~= Seq::empty());
        while i < found.len()
            invariant
                i <= found.len(),
                ms == found.deep_view(),
                ms.len() == found.len(),
                1 <= line,
                1 <= column,
                lex(filename@, ms, i as nat) == (LexState {
                    tokens: Ok(tokens_view(tokens@)),
                    line,
                    column,
                }),
            decreases found.len() - i,
        {
            let m = &found[i];
            assert(ms[i as int] == m.deep_view());
            let text = whole_of(m);
            let count: usize = text.as_str().unicode_len();
            let end: usize = saturating_add(column, count) - 1;
            let span = Span::new(filename, line, column, line, end);
            let begin_line: usize = line;
            let begin_column: usize = column;
            if text_is(&text, "\n") {
                line = saturating_add(line, 1);
                column = 1;
            } else {
                column = saturating_add(column, count);
            }
            let token = match first_named_of(m) {
                None => Err(LexErr::Unexpected { text, span }),
                Some((name, value)) => match kind_of_name(&name) {
                    None => Err(LexErr::Unexpected { text, span }),
                    Some(kind) => Token::build(kind, value, span),
                },
            };
            assert(token_result_view(token) == spec_token_of(
                filename@,
                ms[i as int],
                begin_line,
                begin_column,
            ));
            match token {
                Err(e) => {
                    proof {
                        lemma_lex_error_stays(filename@, ms, (i + 1) as nat, found.len() as nat);
                    }
                    return Err(e);
                },
                Ok(t) => {
                    let ghost before = tokens@;
                    if t.kind() != TokenKind::Whitespace {
                        tokens.push(t);
                        assert(tokens_view(tokens@) =~= tokens_view(before).push(t@));
                    }
                },
            }
            i += 1;
        }
        Ok(tokens)
    }

    /// Turn a source text into tokens. The token pattern is searched for in
    /// the text, and the successive matches give the tokens. The result is
    /// `LexErr::Pattern` exactly where the regular expression engine does
    /// not accept the token pattern.
    pub fn tokenise(filename: &str, input: &str) -> (tokens: Result<Tokens, LexErr>)
        ensures
            (tokens matches Err(LexErr::Pattern)) <==> !regex_accepts(TOKEN_PATTERN@),
            regex_accepts(TOKEN_PATTERN@) ==> tokens_result_view(tokens) == lex(
                filename@,
                regex_captures(TOKEN_PATTERN@, input@),
                regex_captures(TOKEN_PATTERN@, input@).len(),
            ).tokens,
    {
        match captures(TOKEN_PATTERN, input) {
            Ok(found) => {
                proof {
                    lemma_lex_error_kinds(filename@, found.deep_view(), found.len() as nat);
                }
                Token::from_captures(filename, &found)
            },
            Err(_) => Err(LexErr::Pattern),
        }
    }
}

impl TokenKind {
    /// The regular expression that captures the tokens of this kind.
    pub open spec fn spec_pattern(self) -> Seq<char> {
        match self {
            TokenKind::As => "as"@,
            TokenKind::Else => "else"@,
            TokenKind::Extern => "extern"@,
            TokenKind::Expose => "expose"@,
            TokenKind::For => "for"@,
            TokenKind::Func => "fn"@,
            TokenKind::If => "if"@,
            TokenKind::Import => "import"@,
            TokenKind::In => "in"@,
            TokenKind::Module => "module"@,
            TokenKind::Mut => "mut"@,
            TokenKind::Ref => "ref"@,
            TokenKind::Type => "type"@,
            TokenKind::Add => "\\+"@,
            TokenKind::AddEq => "\\+="@,
            TokenKind::And => "&&"@,
            TokenKind::Assign => ":="@,
            TokenKind::Div => "/"@,
            TokenKind::DivEq => "/="@,
            TokenKind::Equal => "="@,
            TokenKind::NotEqual => "!="@,
            TokenKind::GreaterThan => ">"@,
            TokenKind::GreaterThanEq => ">="@,
            TokenKind::LessThan => "<"@,
            TokenKind::LessThanEq => "<="@,
            TokenKind::Mul => "\\*"@,
            TokenKind::MulEq => "\\*="@,
            TokenKind::Or => "\\|\\|"@,
            TokenKind::PushPop => "<-"@,
            TokenKind::Sub => "-"@,
            TokenKind::SubEq => "-="@,
            TokenKind::BraceL => "\\{"@,
            TokenKind::BraceR => "\\}"@,
            TokenKind::BracketL => "\\["@,
            TokenKind::BracketR => "\\]"@,
            TokenKind::Colon => ":"@,
            TokenKind::Comma => ","@,
            TokenKind::Dot => "\\."@,
            TokenKind::DotDot => "\\.\\."@,
            TokenKind::LambdaR => "->"@,
            TokenKind::ParenL => "\\("@,
            TokenKind::ParenR => "\\)"@,
            TokenKind::Pipe => "\\|"@,
            TokenKind::Question => "\\?"@,
            TokenKind::SemiColon => ";"@,
            TokenKind::Whitespace => "( |\\t)"@,
            TokenKind::WhitespaceNewline => "(\\n|\\r)"@,
            TokenKind::Char => "'(\\\\'|[^']|\\\\u([0-9]|[ABCDEF]){4})'"@,
            TokenKind::Bool => "(true|false)"@,
            TokenKind::Float => "[0-9]+\\.[0-9]+"@,
            TokenKind::Int => "[0-9]+"@,
            TokenKind::Str => "\"(\\\\\"|[^\"])*\""@,
            TokenKind::Ident => "[_a-zA-Z]([_a-zA-Z]|[0-9])*"@,
            TokenKind::Comment => "//(.)*\\n"@,
        }
    }

    /// The regular expression that captures the tokens of this kind.
    pub fn pattern(self) -> (pattern: &'static str)
        ensures
            pattern@ == self.spec_pattern(),
    {
        match self {
            TokenKind::As => "as",
            TokenKind::Else => "else",
            TokenKind::Extern => "extern",
            TokenKind::Expose => "expose",
            TokenKind::For => "for",
            TokenKind::Func => "fn",
            TokenKind::If => "if",
            TokenKind::Import => "import",
            TokenKind::In => "in",
            TokenKind::Module => "module",
            TokenKind::Mut => "mut",
            TokenKind::Ref => "ref",
            TokenKind::Type => "type",
            TokenKind::Add => "\\+",
            TokenKind::AddEq => "\\+=",
            TokenKind::And => "&&",
            TokenKind::Assign => ":=",
            TokenKind::Div => "/",
            TokenKind::DivEq => "/=",
            TokenKind::Equal => "=",
            TokenKind::NotEqual => "!=",
            TokenKind::GreaterThan => ">",
            TokenKind::GreaterThanEq => ">=",
            TokenKind::LessThan => "<",
            TokenKind::LessThanEq => "<=",
            TokenKind::Mul => "\\*",
            TokenKind::MulEq => "\\*=",
            TokenKind::Or => "\\|\\|",
            TokenKind::PushPop => "<-",
            TokenKind::Sub => "-",
            TokenKind::SubEq => "-=",
            TokenKind::BraceL => "\\{",
            TokenKind::BraceR => "\\}",
            TokenKind::BracketL => "\\[",
            TokenKind::BracketR => "\\]",
            TokenKind::Colon => ":",
            TokenKind::Comma => ",",
            TokenKind::Dot => "\\.",
            TokenKind::DotDot => "\\.\\.",
            TokenKind::LambdaR => "->",
            TokenKind::ParenL => "\\(",
            TokenKind::ParenR => "\\)",
            TokenKind::Pipe => "\\|",
            TokenKind::Question => "\\?",
            TokenKind::SemiColon => ";",
            TokenKind::Whitespace => "( |\\t)",
            TokenKind::WhitespaceNewline => "(\\n|\\r)",
            TokenKind::Char => "'(\\\\'|[^']|\\\\u([0-9]|[ABCDEF]){4})'",
            TokenKind::Bool => "(true|false)",
            TokenKind::Float => "[0-9]+\\.[0-9]+",
            TokenKind::Int => "[0-9]+",
            TokenKind::Str => "\"(\\\\\"|[^\"])*\"",
            TokenKind::Ident => "[_a-zA-Z]([_a-zA-Z]|[0-9])*",
            TokenKind::Comment => "//(.)*\\n",
        }
    }

    /// Whether the pattern of this kind matches anywhere in the text: that
    /// is, whether a search for it finds a match. The result is
    /// `LexErr::Pattern` exactly where the regular expression engine does
    /// not accept the pattern.
    pub fn is_match(self, text: &str) -> (found: Result<bool, LexErr>)
        ensures
            found == (if regex_accepts(self.spec_pattern()) {
                Ok::<bool, LexErr>(regex_captures(self.spec_pattern(), text@).len() > 0)
            } else {
                Err::<bool, LexErr>(LexErr::Pattern)
            }),
    {
        match captures(self.pattern(), text) {
            Ok(ms) => Ok(ms.len() > 0),
            Err(_) => Err(LexErr::Pattern),
        }
    }
}

} // verus!
