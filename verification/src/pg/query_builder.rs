//! The query builder of the PostgreSQL dialect: identifiers in double
//! quotes, placeholders written `$1`, `$2`, and so on.

use vstd::prelude::*;
use vstd::string::StringExecFns;
use vstd::string::StrSliceExecFns;
use crate::query_builder::{BuilderState, QueryBuilder};
use crate::result::QueryResult;

verus! {

/// `name` with every double quote written twice.
pub open spec fn escape_quotes(name: Seq<char>) -> Seq<char>
    decreases name.len(),
{
    if name.len() == 0 {
        Seq::empty()
    } else if name.last() == '"' {
        escape_quotes(name.drop_last()).push('"').push('"')
    } else {
        escape_quotes(name.drop_last()).push(name.last())
    }
}

/// `name` as a PostgreSQL identifier: escaped, between double quotes.
pub open spec fn quote_identifier(name: Seq<char>) -> Seq<char> {
    seq!['"'] + escape_quotes(name) + seq!['"']
}

/// `text` with every pair of double quotes written once, or `None` where
/// a double quote in `text` has no partner.
pub open spec fn unescape_quotes(text: Seq<char>) -> Option<Seq<char>>
    decreases text.len(),
{
    if text.len() == 0 {
        Some(Seq::empty())
    } else if text.last() != '"' {
        match unescape_quotes(text.drop_last()) {
            Some(name) => Some(name.push(text.last())),
            None => None,
        }
    } else if text.len() >= 2 && text[text.len() - 2] == '"' {
        match unescape_quotes(text.take(text.len() - 2)) {
            Some(name) => Some(name.push('"')),
            None => None,
        }
    } else {
        None
    }
}

/// The name that the quoted identifier `token` stands for: `token` without
/// its outer double quotes and with its escapes undone, or `None` where
/// `token` is no quoted identifier.
pub open spec fn unquote_identifier(token: Seq<char>) -> Option<Seq<char>> {
    if token.len() >= 2 && token.first() == '"' && token.last() == '"' {
        unescape_quotes(token.subrange(1, token.len() - 1))
    } else {
        None
    }
}

/// The number of double quotes in `text`.
pub open spec fn count_quotes(text: Seq<char>) -> nat
    decreases text.len(),
{
    if text.len() == 0 {
        0
    } else if text.last() == '"' {
        count_quotes(text.drop_last()) + 1
    } else {
        count_quotes(text.drop_last())
    }
}

/// Escaping writes every double quote of a name twice and every other
/// character once.
pub proof fn lemma_escape_quotes_doubles(name: Seq<char>)
    ensures
        count_quotes(escape_quotes(name)) == 2 * count_quotes(name),
        escape_quotes(name).len() == name.len() + count_quotes(name),
    decreases name.len(),
{
    if name.len() > 0 {
        lemma_escape_quotes_doubles(name.drop_last());
        let before = escape_quotes(name.drop_last());
        if name.last() == '"' {
            let once = before.push('"');
            let twice = once.push('"');
            assert(once.drop_last() =~= before);
            assert(twice.drop_last() =~= once);
            assert(count_quotes(once) == count_quotes(before) + 1);
        } else {
            let once = before.push(name.last());
            assert(once.drop_last() =~= before);
        }
    }
}

/// Undoing the escapes of an escaped name gives the name back.
pub proof fn lemma_unescape_quotes_inverts(name: Seq<char>)
    ensures
        unescape_quotes(escape_quotes(name)) == Some(name),
    decreases name.len(),
{
    if name.len() > 0 {
        lemma_unescape_quotes_inverts(name.drop_last());
        let before = escape_quotes(name.drop_last());
        if name.last() == '"' {
            let text = before.push('"').push('"');
            assert(text.take(text.len() - 2) =~= before);
        } else {
            let text = before.push(name.last());
            assert(text.drop_last() =~= before);
        }
    }
}

/// A quoted identifier stands for the name it was made from, whatever
/// double quotes the name holds: stripping the outer quotes and undoing
/// the escapes gives the name back.
pub proof fn lemma_quote_identifier_round_trips(name: Seq<char>)
    ensures
        unquote_identifier(quote_identifier(name)) == Some(name),
{
    let token = quote_identifier(name);
    lemma_unescape_quotes_inverts(name);
    assert(token.subrange(1, token.len() - 1) =~= escape_quotes(name));
}

/// The character for one decimal digit.
pub open spec fn digit_char(digit: nat) -> char {
    if digit == 0 {
        '0'
    } else if digit == 1 {
        '1'
    } else if digit == 2 {
        '2'
    } else if digit == 3 {
        '3'
    } else if digit == 4 {
        '4'
    } else if digit == 5 {
        '5'
    } else if digit == 6 {
        '6'
    } else if digit == 7 {
        '7'
    } else if digit == 8 {
        '8'
    } else {
        '9'
    }
}

/// `n` in decimal, most significant digit first, without leading zeros.
pub open spec fn decimal(n: nat) -> Seq<char>
    decreases n,
{
    if n < 10 {
        seq![digit_char(n)]
    } else {
        decimal(n / 10).push(digit_char(n % 10))
    }
}

/// The PostgreSQL placeholder for the bound value number `index`.
pub open spec fn pg_placeholder(index: nat) -> Seq<char> {
    seq!['$'] + decimal(index)
}

/// The text of one decimal digit.
fn digit(d: u32) -> (text: &'static str)
    requires
        d < 10,
    ensures
        text@ == seq![digit_char(d as nat)],
{
    proof {
        reveal_strlit("0");
        reveal_strlit("1");
        reveal_strlit("2");
        reveal_strlit("3");
        reveal_strlit("4");
        reveal_strlit("5");
        reveal_strlit("6");
        reveal_strlit("7");
        reveal_strlit("8");
        reveal_strlit("9");
    }
    let text = if d == 0 {
        "0"
    } else if d == 1 {
        "1"
    } else if d == 2 {
        "2"
    } else if d == 3 {
        "3"
    } else if d == 4 {
        "4"
    } else if d == 5 {
        "5"
    } else if d == 6 {
        "6"
    } else if d == 7 {
        "7"
    } else if d == 8 {
        "8"
    } else {
        "9"
    };
    text
}

/// Appends `n` in decimal.
fn push_decimal(out: &mut String, n: u32)
    ensures
        final(out)@ == old(out)@ + decimal(n as nat),
    decreases n,
{
    if n >= 10 {
        push_decimal(out, n / 10);
    }
    out.append(digit(n % 10));
}

/// Escaping works piece by piece.
pub proof fn lemma_escape_quotes_concat(a: Seq<char>, b: Seq<char>)
    ensures
        escape_quotes(a + b) == escape_quotes(a) + escape_quotes(b),
    decreases b.len(),
{
    if b.len() > 0 {
        lemma_escape_quotes_concat(a, b.drop_last());
        assert((a + b).drop_last() =~= a + b.drop_last());
    }
}

/// A name without double quotes is its own escaped form.
pub proof fn lemma_escape_quotes_plain(name: Seq<char>)
    requires
        forall|i: int| 0 <= i < name.len() ==> name[i] != '"',
    ensures
        escape_quotes(name) == name,
    decreases name.len(),
{
    if name.len() > 0 {
        lemma_escape_quotes_plain(name.drop_last());
    }
}

/// Appends `name` with every double quote written twice.
fn push_escaped(out: &mut String, name: &str)
    ensures
        final(out)@ == old(out)@ + escape_quotes(name@),
{
    let len: usize = name.unicode_len();
    let mut start: usize = 0;
    let mut at: usize = 0;
    for c in it: name.chars()
        invariant
            it.seq() == name@,
            len == name@.len(),
            at == it.index(),
            start <= at <= len,
            out@ == old(out)@ + escape_quotes(name@.take(start as int)),
            forall|i: int| start <= i < at ==> name@[i] != '"',
    {
        if c == '"' {
            out.append(name.substring_char(start, at));
            proof {
                reveal_strlit("\"\"");
            }
            out.append("\"\"");
            proof {
                let run = name@.subrange(start as int, at as int);
                let upto = name@.take(at as int + 1);
                lemma_escape_quotes_plain(run);
                lemma_escape_quotes_concat(name@.take(start as int), run);
                assert(name@.take(start as int) + run =~= name@.take(at as int));
                assert(upto.drop_last() =~= name@.take(at as int));
            }
            start = at + 1;
        }
        at += 1;
    }
    out.append(name.substring_char(start, len));
    proof {
        let run = name@.subrange(start as int, len as int);
        lemma_escape_quotes_plain(run);
        lemma_escape_quotes_concat(name@.take(start as int), run);
        assert(name@.take(start as int) + run =~= name@);
    }
}

/// The query builder of the PostgreSQL dialect.
#[derive(Debug)]
pub struct PgQueryBuilder {
    sql: String,
    bind_idx: u32,
}

impl PgQueryBuilder {
    /// A builder with no text and no placeholders.
    pub fn new() -> (builder: Self)
        ensures
            builder.state() == BuilderState::fresh(),
    {
        PgQueryBuilder { sql: String::new(), bind_idx: 0 }
    }
}

impl Default for PgQueryBuilder {
    fn default() -> (builder: Self)
        ensures
            builder.state() == BuilderState::fresh(),
    {
        PgQueryBuilder::new()
    }
}

impl QueryBuilder for PgQueryBuilder {
    closed spec fn state(&self) -> BuilderState {
        BuilderState { sql: self.sql@, bind_index: self.bind_idx as nat }
    }

    open spec fn quoted_identifier(name: Seq<char>) -> Seq<char> {
        quote_identifier(name)
    }

    open spec fn accepts_identifier(name: Seq<char>) -> bool {
        true
    }

    open spec fn placeholder(index: nat) -> Seq<char> {
        pg_placeholder(index)
    }

    open spec fn bind_limit() -> nat {
        u32::MAX as nat
    }

    fn fresh() -> (builder: Self) {
        PgQueryBuilder::new()
    }

    fn push_sql(&mut self, sql: &str) {
        self.sql.append(sql);
    }

    fn push_identifier(&mut self, identifier: &str) -> (r: QueryResult<()>) {
        proof {
            reveal_strlit("\"");
        }
        self.sql.append("\"");
        push_escaped(&mut self.sql, identifier);
        self.sql.append("\"");
        assert(self.sql@ =~= old(self).sql@ + quote_identifier(identifier@));
        Ok(())
    }

    fn has_room(&self) -> (room: bool) {
        self.bind_idx < u32::MAX
    }

    fn push_bind_param(&mut self) {
        self.bind_idx += 1;
        proof {
            reveal_strlit("$");
        }
        self.sql.append("$");
        push_decimal(&mut self.sql, self.bind_idx);
        assert(self.sql@ =~= old(self).sql@ + pg_placeholder(self.bind_idx as nat));
    }

    fn finish(self) -> (sql: String) {
        self.sql
    }
}

} // verus!
