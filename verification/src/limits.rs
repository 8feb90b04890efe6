//! What a text must keep to before it is handed to the parser. The parser
//! fails on a few statements in place of reporting them, it follows nesting
//! further than a stack of ordinary size allows, and it reads a chain of
//! `INTERVAL` twice at each level, so such texts are turned away beforehand.
//!
//! Nesting is bounded by counting tokens. Only a keyword or a sign opens a
//! level of nesting, so names, numbers and commas are not counted, and a
//! list may be as long as it likes. Where the text leaves open whether a
//! word is a keyword, it is counted.

use vstd::prelude::*;
use crate::sql_ast::{is_keyword, keyword_word, uppercase, uppercased};

verus! {

/// The most nesting tokens that a text may hold.
pub const MAX_TOKENS: usize = 40;

/// The most opening brackets that a text may hold.
pub const MAX_BRACKETS: usize = 10;

/// The most words that take a statement after them that a text may hold.
pub const MAX_STATEMENT_WORDS: usize = 2;

/// The most times that a text may spell `INTERVAL`.
pub const MAX_INTERVALS: usize = 4;

/// A character that the tokenizer passes over between tokens.
pub open spec fn is_space(c: char) -> bool {
    c == ' ' || c == '\t' || c == '\n' || c == '\r'
}

/// A letter of the English alphabet, or an underscore.
pub open spec fn is_letter(c: char) -> bool {
    ('a' <= c && c <= 'z') || ('A' <= c && c <= 'Z') || c == '_'
}

/// A decimal digit.
pub open spec fn is_digit(c: char) -> bool {
    '0' <= c && c <= '9'
}

/// Where the run of letters and digits ends that holds position `from`: the
/// first position from there on that holds neither.
pub open spec fn word_end(text: Seq<char>, from: int) -> int
    decreases text.len() - from,
{
    if 0 <= from < text.len() && (is_letter(text[from]) || is_digit(text[from])) {
        word_end(text, from + 1)
    } else {
        from
    }
}

/// Whether a word starts at position `at`: a letter that follows no letter.
pub open spec fn starts_word(text: Seq<char>, at: int) -> bool {
    0 <= at < text.len() && is_letter(text[at]) && !(at > 0 && is_letter(text[at - 1]))
}

/// Whether the word that starts at `at` may be a keyword: the tokenizer
/// takes it for one, or it follows a digit, where the tokenizer may end a
/// number inside the run and start a word of which nothing is known here.
pub open spec fn may_be_keyword(text: Seq<char>, at: int) -> bool {
    starts_word(text, at) && ((at > 0 && is_digit(text[at - 1])) || keyword_word(
        text.subrange(at, word_end(text, at)),
    ))
}

/// Whether position `at` holds a nesting token: a word that may be a
/// keyword, or a character that is no letter, digit, comma or space. A
/// name, a number and a comma are none.
pub open spec fn nesting_token_at(text: Seq<char>, at: int) -> bool {
    &&& 0 <= at < text.len()
    &&& if is_letter(text[at]) {
        may_be_keyword(text, at)
    } else {
        !is_space(text[at]) && !is_digit(text[at]) && text[at] != ','
    }
}

/// How many of the first `upto` positions hold a nesting token.
pub open spec fn tokens_before(text: Seq<char>, upto: nat) -> nat
    decreases upto,
{
    if upto == 0 {
        0
    } else if nesting_token_at(text, upto - 1) {
        tokens_before(text, (upto - 1) as nat) + 1
    } else {
        tokens_before(text, (upto - 1) as nat)
    }
}

/// How many nesting tokens a text holds.
pub open spec fn tokens(text: Seq<char>) -> nat {
    tokens_before(text, text.len())
}

/// An opening bracket.
pub open spec fn opens_bracket(c: char) -> bool {
    c == '(' || c == '[' || c == '<' || c == '{'
}

/// How many of the first `upto` characters are opening brackets.
pub open spec fn brackets_before(text: Seq<char>, upto: nat) -> nat
    decreases upto,
{
    if upto == 0 {
        0
    } else if opens_bracket(text[upto - 1]) {
        brackets_before(text, (upto - 1) as nat) + 1
    } else {
        brackets_before(text, (upto - 1) as nat)
    }
}

/// How many characters of a text are opening brackets.
pub open spec fn brackets(text: Seq<char>) -> nat {
    brackets_before(text, text.len())
}

/// Whether `word` stands in `text` from position `at` on.
pub open spec fn stands_at(text: Seq<char>, word: Seq<char>, at: int) -> bool {
    0 <= at && at + word.len() <= text.len() && text.subrange(at, at + word.len()) == word
}

/// At how many of the first `upto` positions `word` stands in `text`.
pub open spec fn occurrences_before(text: Seq<char>, word: Seq<char>, upto: nat) -> nat
    decreases upto,
{
    if upto == 0 {
        0
    } else if stands_at(text, word, upto - 1) {
        occurrences_before(text, word, (upto - 1) as nat) + 1
    } else {
        occurrences_before(text, word, (upto - 1) as nat)
    }
}

/// At how many positions `word` stands in `text`, as a word of its own or
/// inside a longer one.
pub open spec fn occurrences(text: Seq<char>, word: Seq<char>) -> nat {
    occurrences_before(text, word, text.len())
}

/// `EXPLAIN`, which takes a statement after it.
pub open spec fn word_explain() -> Seq<char> {
    seq!['E', 'X', 'P', 'L', 'A', 'I', 'N']
}

/// `DESCRIBE`, which takes a statement after it.
pub open spec fn word_describe() -> Seq<char> {
    seq!['D', 'E', 'S', 'C', 'R', 'I', 'B', 'E']
}

/// `PREPARE`, which takes a statement after it.
pub open spec fn word_prepare() -> Seq<char> {
    seq!['P', 'R', 'E', 'P', 'A', 'R', 'E']
}

/// `PROCEDURE`, which takes statements after it.
pub open spec fn word_procedure() -> Seq<char> {
    seq!['P', 'R', 'O', 'C', 'E', 'D', 'U', 'R', 'E']
}

/// `INTERVAL`, behind which the parser reads its operand twice where the
/// first reading fails.
pub open spec fn word_interval() -> Seq<char> {
    seq!['I', 'N', 'T', 'E', 'R', 'V', 'A', 'L']
}

/// `GRANT`, which starts a statement that may hold `GRANTED BY`.
pub open spec fn word_grant() -> Seq<char> {
    seq!['G', 'R', 'A', 'N', 'T']
}

/// `REVOKE`, which starts a statement that may hold `GRANTED BY`.
pub open spec fn word_revoke() -> Seq<char> {
    seq!['R', 'E', 'V', 'O', 'K', 'E']
}

/// `CREATE`, which starts a statement that may hold `AUTO_INCREMENT`.
pub open spec fn word_create() -> Seq<char> {
    seq!['C', 'R', 'E', 'A', 'T', 'E']
}

/// `GRANTED`, after which the parser fails on what is no identifier.
pub open spec fn word_granted() -> Seq<char> {
    seq!['G', 'R', 'A', 'N', 'T', 'E', 'D']
}

/// `AUTO_INCREMENT`, after which the parser fails on a number out of range.
pub open spec fn word_auto_increment() -> Seq<char> {
    seq!['A', 'U', 'T', 'O', '_', 'I', 'N', 'C', 'R', 'E', 'M', 'E', 'N', 'T']
}

/// At how many places the upper-case form of a text spells a word that takes
/// a statement after it.
pub open spec fn statement_words(sql: Seq<char>) -> nat {
    occurrences(uppercased(sql), word_explain()) + occurrences(uppercased(sql), word_describe())
        + occurrences(uppercased(sql), word_prepare()) + occurrences(
        uppercased(sql),
        word_procedure(),
    )
}

/// At how many places the upper-case form of a text spells `INTERVAL`.
pub open spec fn intervals(sql: Seq<char>) -> nat {
    occurrences(uppercased(sql), word_interval())
}

/// Whether a text may hold a statement on which the parser fails: its
/// upper-case form spells `GRANTED`, and `REVOKE` or a `GRANT` that is not
/// the start of a `GRANTED`; or it spells `AUTO_INCREMENT` and `CREATE`.
pub open spec fn holds_unparsed_statement(sql: Seq<char>) -> bool {
    let upper = uppercased(sql);
    ||| occurrences(upper, word_granted()) > 0 && (occurrences(upper, word_grant())
        > occurrences(upper, word_granted()) || occurrences(upper, word_revoke()) > 0)
    ||| occurrences(upper, word_auto_increment()) > 0 && occurrences(upper, word_create()) > 0
}

/// Why a text is not handed to the parser.
#[derive(Debug, PartialEq, Eq, Clone, Copy)]
pub enum Refusal {
    /// It holds more than `MAX_TOKENS` nesting tokens.
    TooManyTokens,
    /// It holds more than `MAX_BRACKETS` opening brackets.
    TooManyBrackets,
    /// It spells more than `MAX_STATEMENT_WORDS` words that take a statement
    /// after them.
    TooManyStatements,
    /// It spells `INTERVAL` more than `MAX_INTERVALS` times.
    TooManyIntervals,
    /// It may hold a `GRANT` or `REVOKE` with `GRANTED BY`, or a `CREATE`
    /// with `AUTO_INCREMENT`.
    UnparsedStatement,
}

/// Why a text is not handed to the parser, if it is not: its nesting tokens
/// are counted first, then its brackets, then its words are looked at.
pub open spec fn refusal(sql: Seq<char>) -> Option<Refusal> {
    if tokens(sql) > MAX_TOKENS {
        Some(Refusal::TooManyTokens)
    } else if brackets(sql) > MAX_BRACKETS {
        Some(Refusal::TooManyBrackets)
    } else if statement_words(sql) > MAX_STATEMENT_WORDS {
        Some(Refusal::TooManyStatements)
    } else if intervals(sql) > MAX_INTERVALS {
        Some(Refusal::TooManyIntervals)
    } else if holds_unparsed_statement(sql) {
        Some(Refusal::UnparsedStatement)
    } else {
        None
    }
}

/// The words in which a refusal is reported.
pub open spec fn refusal_text(refusal: Refusal) -> Seq<char> {
    match refusal {
        Refusal::TooManyTokens => "text with more than 40 keywords and signs"@,
        Refusal::TooManyBrackets => "text with more than 10 opening brackets"@,
        Refusal::TooManyStatements => "text with more than 2 statements inside statements"@,
        Refusal::TooManyIntervals => "text with more than 4 intervals"@,
        Refusal::UnparsedStatement => "statement with GRANTED BY or AUTO_INCREMENT"@,
    }
}

impl Refusal {
    /// The words in which the refusal is reported.
    pub fn text(&self) -> (text: &'static str)
        ensures
            text@ == refusal_text(*self),
    {
        match self {
            Refusal::TooManyTokens => "text with more than 40 keywords and signs",
            Refusal::TooManyBrackets => "text with more than 10 opening brackets",
            Refusal::TooManyStatements => "text with more than 2 statements inside statements",
            Refusal::TooManyIntervals => "text with more than 4 intervals",
            Refusal::UnparsedStatement => "statement with GRANTED BY or AUTO_INCREMENT",
        }
    }
}

/// The characters of a text.
pub fn characters(text: &str) -> (chars: Vec<char>)
    ensures
        chars@ == text@,
{
    broadcast use vstd::string::axiom_spec_iter;

    let mut chars: Vec<char> = Vec::new();
    for c in iter: text.chars()
        invariant
            iter.seq() == text@,
            chars@ == text@.take(iter.index()),
    {
        chars.push(c);
        assert(chars@ =~= text@.take(iter.index() + 1));
    }
    assert(text@.take(text@.len() as int) =~= text@);
    chars
}

fn space(c: char) -> (yes: bool)
    ensures
        yes == is_space(c),
{
    c == ' ' || c == '\t' || c == '\n' || c == '\r'
}

fn letter(c: char) -> (yes: bool)
    ensures
        yes == is_letter(c),
{
    ('a' <= c && c <= 'z') || ('A' <= c && c <= 'Z') || c == '_'
}

fn digit(c: char) -> (yes: bool)
    ensures
        yes == is_digit(c),
{
    '0' <= c && c <= '9'
}

/// Where the run of letters and digits ends that starts at `from`.
fn find_word_end(text: &Vec<char>, from: usize) -> (end: usize)
    requires
        from < text@.len(),
    ensures
        end == word_end(text@, from as int),
        from <= end <= text@.len(),
{
    let mut end: usize = from;
    while end < text.len() && (letter(text[end]) || digit(text[end]))
        invariant
            from <= end <= text@.len(),
            word_end(text@, end as int) == word_end(text@, from as int),
        decreases text@.len() - end,
    {
        end += 1;
    }
    end
}

/// Whether position `at` holds a nesting token.
fn is_nesting_token(text: &Vec<char>, at: usize) -> (yes: bool)
    requires
        at < text@.len(),
    ensures
        yes == nesting_token_at(text@, at as int),
{
    let c = text[at];
    if letter(c) {
        if at > 0 && letter(text[at - 1]) {
            false
        } else if at > 0 && digit(text[at - 1]) {
            true
        } else {
            let end = find_word_end(text, at);
            is_keyword(text, at, end)
        }
    } else {
        !space(c) && !digit(c) && c != ','
    }
}

/// Counts the nesting tokens.
fn count_tokens(text: &Vec<char>) -> (count: usize)
    ensures
        count == tokens(text@),
{
    let mut count: usize = 0;
    let mut i: usize = 0;
    while i < text.len()
        invariant
            i <= text@.len(),
            count <= i,
            count == tokens_before(text@, i as nat),
        decreases text@.len() - i,
    {
        if is_nesting_token(text, i) {
            count += 1;
        }
        i += 1;
    }
    count
}

/// Counts the opening brackets.
fn count_brackets(text: &Vec<char>) -> (count: usize)
    ensures
        count == brackets(text@),
{
    let mut count: usize = 0;
    let mut i: usize = 0;
    while i < text.len()
        invariant
            i <= text@.len(),
            count <= i,
            count == brackets_before(text@, i as nat),
        decreases text@.len() - i,
    {
        let c = text[i];
        if c == '(' || c == '[' || c == '<' || c == '{' {
            count += 1;
        }
        i += 1;
    }
    count
}

/// Whether `word` stands in `text` from position `at` on.
fn word_stands_at(text: &Vec<char>, word: &Vec<char>, at: usize) -> (stands: bool)
    requires
        at < text@.len(),
    ensures
        stands == stands_at(text@, word@, at as int),
{
    if word.len() > text.len() - at {
        return false;
    }
    let mut k: usize = 0;
    while k < word.len()
        invariant
            k <= word.len(),
            at + word.len() <= text.len(),
            forall|j: int| 0 <= j < k ==> text@[at + j] == word@[j],
        decreases word@.len() - k,
    {
        if text[at + k] != word[k] {
            assert(text@.subrange(at as int, at + word@.len())[k as int] != word@[k as int]);
            return false;
        }
        k += 1;
    }
    assert(text@.subrange(at as int, at + word@.len()) =~= word@);
    true
}

/// Counts the positions at which `word` stands in `text`.
fn count_occurrences(text: &Vec<char>, word: &Vec<char>) -> (count: usize)
    ensures
        count == occurrences(text@, word@),
        count <= text@.len(),
{
    let mut count: usize = 0;
    let mut i: usize = 0;
    while i < text.len()
        invariant
            i <= text@.len(),
            count <= i,
            count == occurrences_before(text@, word@, i as nat),
        decreases text@.len() - i,
    {
        if word_stands_at(text, word, i) {
            count += 1;
        }
        i += 1;
    }
    count
}

fn explain_chars() -> (word: Vec<char>)
    ensures
        word@ == word_explain(),
{
    let word = vec!['E', 'X', 'P', 'L', 'A', 'I', 'N'];
    assert(word@ =~= word_explain());
    word
}

fn describe_chars() -> (word: Vec<char>)
    ensures
        word@ == word_describe(),
{
    let word = vec!['D', 'E', 'S', 'C', 'R', 'I', 'B', 'E'];
    assert(word@ =~= word_describe());
    word
}

fn prepare_chars() -> (word: Vec<char>)
    ensures
        word@ == word_prepare(),
{
    let word = vec!['P', 'R', 'E', 'P', 'A', 'R', 'E'];
    assert(word@ =~= word_prepare());
    word
}

fn procedure_chars() -> (word: Vec<char>)
    ensures
        word@ == word_procedure(),
{
    let word = vec!['P', 'R', 'O', 'C', 'E', 'D', 'U', 'R', 'E'];
    assert(word@ =~= word_procedure());
    word
}

fn interval_chars() -> (word: Vec<char>)
    ensures
        word@ == word_interval(),
{
    let word = vec!['I', 'N', 'T', 'E', 'R', 'V', 'A', 'L'];
    assert(word@ =~= word_interval());
    word
}

fn grant_chars() -> (word: Vec<char>)
    ensures
        word@ == word_grant(),
{
    let word = vec!['G', 'R', 'A', 'N', 'T'];
    assert(word@ =~= word_grant());
    word
}

fn revoke_chars() -> (word: Vec<char>)
    ensures
        word@ == word_revoke(),
{
    let word = vec!['R', 'E', 'V', 'O', 'K', 'E'];
    assert(word@ =~= word_revoke());
    word
}

fn create_chars() -> (word: Vec<char>)
    ensures
        word@ == word_create(),
{
    let word = vec!['C', 'R', 'E', 'A', 'T', 'E'];
    assert(word@ =~= word_create());
    word
}

fn granted_chars() -> (word: Vec<char>)
    ensures
        word@ == word_granted(),
{
    let word = vec!['G', 'R', 'A', 'N', 'T', 'E', 'D'];
    assert(word@ =~= word_granted());
    word
}

fn auto_increment_chars() -> (word: Vec<char>)
    ensures
        word@ == word_auto_increment(),
{
    let word = vec!['A', 'U', 'T', 'O', '_', 'I', 'N', 'C', 'R', 'E', 'M', 'E', 'N', 'T'];
    assert(word@ =~= word_auto_increment());
    word
}

/// Whether the words that take a statement after them are more than
/// `MAX_STATEMENT_WORDS`.
fn too_many_statement_words(upper: &Vec<char>, Ghost(sql): Ghost<Seq<char>>) -> (too_many: bool)
    requires
        upper@ == uppercased(sql),
    ensures
        too_many == (statement_words(sql) > MAX_STATEMENT_WORDS),
{
    let explains = count_occurrences(upper, &explain_chars());
    if explains > MAX_STATEMENT_WORDS {
        return true;
    }
    let describes = count_occurrences(upper, &describe_chars());
    if describes > MAX_STATEMENT_WORDS {
        return true;
    }
    let prepares = count_occurrences(upper, &prepare_chars());
    if prepares > MAX_STATEMENT_WORDS {
        return true;
    }
    let procedures = count_occurrences(upper, &procedure_chars());
    if procedures > MAX_STATEMENT_WORDS {
        return true;
    }
    explains + describes + prepares + procedures > MAX_STATEMENT_WORDS
}

/// Whether the text may hold a statement on which the parser fails.
fn may_hold_unparsed_statement(upper: &Vec<char>, Ghost(sql): Ghost<Seq<char>>) -> (may: bool)
    requires
        upper@ == uppercased(sql),
    ensures
        may == holds_unparsed_statement(sql),
{
    let granted = count_occurrences(upper, &granted_chars());
    if granted > 0 {
        if count_occurrences(upper, &grant_chars()) > granted {
            return true;
        }
        if count_occurrences(upper, &revoke_chars()) > 0 {
            return true;
        }
    }
    if count_occurrences(upper, &auto_increment_chars()) > 0 {
        if count_occurrences(upper, &create_chars()) > 0 {
            return true;
        }
    }
    false
}

/// Looks at a text before it is parsed: says why it is not handed to the
/// parser, or that it is.
pub fn examine(sql: &str) -> (found: Option<Refusal>)
    ensures
        found == refusal(sql@),
{
    let text = characters(sql);
    if count_tokens(&text) > MAX_TOKENS {
        return Some(Refusal::TooManyTokens);
    }
    if count_brackets(&text) > MAX_BRACKETS {
        return Some(Refusal::TooManyBrackets);
    }
    let upper_text = uppercase(sql);
    let upper = characters(upper_text.as_str());
    if too_many_statement_words(&upper, Ghost(sql@)) {
        return Some(Refusal::TooManyStatements);
    }
    if count_occurrences(&upper, &interval_chars()) > MAX_INTERVALS {
        return Some(Refusal::TooManyIntervals);
    }
    if may_hold_unparsed_statement(&upper, Ghost(sql@)) {
        return Some(Refusal::UnparsedStatement);
    }
    None
}

} // verus!
