//! Parsing the editor's SQL, in the PostgreSQL dialect.

use vstd::prelude::*;
use sqlparser::ast::Statement;
use sqlparser::dialect::PostgreSqlDialect;
use sqlparser::parser::{Parser, ParserError};

verus! {

/// A parsed SQL statement (`sqlparser::ast::Statement`), carried through as it is.
#[verifier::external_type_specification]
#[verifier::external_body]
pub struct ExStatement(Statement);

/// Why SQL text did not parse (`sqlparser::parser::ParserError`).
#[verifier::external_type_specification]
#[verifier::external_body]
pub struct ExParserError(ParserError);

/// What `sqlparser` makes of a text under the PostgreSQL dialect: the
/// statements in source order, or the error it rejects the text with.
pub uninterp spec fn postgres_parse(sql: Seq<char>) -> Result<Seq<Statement>, ParserError>;

/// Parses with `sqlparser::parser::Parser::parse_sql` under
/// `PostgreSqlDialect`. Claimed: the outcome depends on the text alone, so the
/// statements returned, in order, or the error returned, is `postgres_parse`
/// of it.
#[verifier::external_body]
fn parse_postgres_sql(sql: &str) -> (res: Result<Vec<Statement>, ParserError>)
    ensures
        match res {
            Ok(statements) => postgres_parse(sql@) == Ok::<Seq<Statement>, ParserError>(statements@),
            Err(e) => postgres_parse(sql@) == Err::<Seq<Statement>, ParserError>(e),
        },
{
    Parser::parse_sql(&PostgreSqlDialect {}, sql)
}

/// Parses SQL text into statements, in source order, in the PostgreSQL
/// dialect, or the parser's error for the text; equal texts give equal
/// results.
pub fn format_sql(sql: &str) -> (res: Result<Vec<Statement>, ParserError>)
    ensures
        match res {
            Ok(statements) => postgres_parse(sql@) == Ok::<Seq<Statement>, ParserError>(statements@),
            Err(e) => postgres_parse(sql@) == Err::<Seq<Statement>, ParserError>(e),
        },
{
    let asts = parse_postgres_sql(sql);
    return asts;
}

} // verus!
