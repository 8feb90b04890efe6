use rsql::query::{Fields, SqlQuery};
use rsql::reader::read_sql;
use rsql::statement::{
    Filter, FromTarget, ParsedStatement, ProjectionItem, QueryClauses, SelectClauses,
    TableReference, WildcardOptions,
};
use rsql::translate::{parse_sql, translate, translate_all, UnsupportedConstruct};

fn names(values: &[&str]) -> Vec<String> {
    values.iter().map(|value| value.to_string()).collect()
}

fn plain_table(name: &str) -> FromTarget {
    FromTarget { table: Some(TableReference::plain(vec![name.to_string()])), joins: 0 }
}

fn wildcard() -> ProjectionItem {
    ProjectionItem::Wildcard(WildcardOptions::bare())
}

fn filtered(
    projection: Vec<ProjectionItem>,
    from: Vec<FromTarget>,
    filter: Filter,
) -> ParsedStatement {
    ParsedStatement::Select {
        query_clauses: QueryClauses::bare(),
        select_clauses: SelectClauses::bare(),
        projection,
        from,
        filter,
    }
}

fn select(projection: Vec<ProjectionItem>, from: Vec<FromTarget>) -> ParsedStatement {
    filtered(projection, from, Filter::Absent)
}

fn column(name: &str) -> ProjectionItem {
    ProjectionItem::Column(name.to_string())
}

fn concat_all(parts: &[&str]) -> String {
    parts.join(" ")
}

fn outcomes(sql: &str) -> Vec<Result<SqlQuery, UnsupportedConstruct>> {
    parse_sql(sql).expect("the text parses")
}

#[test]
fn reading_gives_the_shape_of_a_select() {
    let read =
        read_sql("SELECT id, *, t.*, 1 + 1, age AS years FROM db.users WHERE id < 3").unwrap();
    assert_eq!(
        read,
        vec![filtered(
            vec![
                column("id"),
                wildcard(),
                ProjectionItem::QualifiedWildcard,
                ProjectionItem::Expression,
                ProjectionItem::Aliased,
            ],
            vec![FromTarget {
                table: Some(TableReference::plain(names(&["db", "users"]))),
                joins: 0,
            }],
            Filter::Other,
        )]
    );
}

#[test]
fn reading_counts_joins_and_tells_derived_tables() {
    let read = read_sql(
        "SELECT a FROM t JOIN u ON t.x = u.x JOIN v ON v.x = u.x, (SELECT b FROM w) AS d",
    )
    .unwrap();
    assert_eq!(
        read,
        vec![select(
            vec![column("a")],
            vec![
                FromTarget { table: Some(TableReference::plain(names(&["t"]))), joins: 2 },
                FromTarget { table: None, joins: 0 },
            ],
        )]
    );
}

#[test]
fn reading_tells_statement_kinds_apart() {
    let read = read_sql(concat_all(&[
        "SELECT a FROM t WHERE a BETWEEN 1 AND 2;",
        "SELECT a FROM t UNION SELECT a FROM u;",
        "VALUES (1);",
        "DROP TABLE t",
    ]).as_str())
    .unwrap();
    assert_eq!(
        read,
        vec![
            filtered(vec![column("a")], vec![plain_table("t")], Filter::Between),
            ParsedStatement::CompoundQuery,
            ParsedStatement::CompoundQuery,
            ParsedStatement::Other,
        ]
    );
}

#[test]
fn reading_an_empty_text_gives_no_statement() {
    assert_eq!(read_sql("").unwrap(), Vec::<ParsedStatement>::new());
    assert_eq!(parse_sql("").unwrap(), Vec::new());
}

#[test]
fn malformed_text_is_a_parse_error() {
    let error = read_sql("SELECT FROM WHERE").unwrap_err();
    assert!(!error.message.is_empty());
    let error = parse_sql("SELEC * FROM users").unwrap_err();
    assert!(error.message.contains("SELEC"));
}

#[test]
fn parse_error_keeps_the_parsers_words() {
    let error = parse_sql("SELECT * FROM").unwrap_err();
    assert!(error.message.starts_with("sql parser error: "));
}

#[test]
fn a_parse_failure_stops_the_whole_batch() {
    assert!(parse_sql("SELECT * FROM users; SELEC 1").is_err());
    assert!(parse_sql("SELECT * FROM users; SELECT * FROM (").is_err());
}

#[test]
fn a_refused_statement_does_not_stop_the_batch() {
    assert_eq!(
        outcomes("SELECT * FROM users; INSERT INTO users VALUES (1); SELECT id FROM users"),
        vec![
            Ok(SqlQuery::Select(Fields::All, "users".to_string())),
            Err(UnsupportedConstruct::Statement),
            Ok(SqlQuery::Select(Fields::Columns(names(&["id"])), "users".to_string())),
        ]
    );
}

#[test]
fn explicit_columns_win_over_a_wildcard() {
    assert_eq!(
        outcomes("SELECT *, id FROM users"),
        vec![Ok(SqlQuery::Select(Fields::Columns(names(&["id"])), "users".to_string()))]
    );
    assert_eq!(
        outcomes("SELECT name, *, id FROM users"),
        vec![Ok(SqlQuery::Select(Fields::Columns(names(&["name", "id"])), "users".to_string()))]
    );
}

#[test]
fn repeated_columns_are_kept_as_written() {
    assert_eq!(
        outcomes("SELECT b, a, b FROM t"),
        vec![Ok(SqlQuery::Select(Fields::Columns(names(&["b", "a", "b"])), "t".to_string()))]
    );
}

#[test]
fn last_part_of_a_table_name_counts() {
    assert_eq!(
        outcomes("SELECT * FROM main.public.users"),
        vec![Ok(SqlQuery::Select(Fields::All, "users".to_string()))]
    );
}

#[test]
fn each_unsupported_construct_is_named() {
    let cases = [
        ("UPDATE t SET a = 1", UnsupportedConstruct::Statement),
        ("DELETE FROM t", UnsupportedConstruct::Statement),
        ("CREATE TABLE t (a INT)", UnsupportedConstruct::Statement),
        ("SELECT a FROM t UNION SELECT a FROM u", UnsupportedConstruct::CompoundQuery),
        ("VALUES (1, 2)", UnsupportedConstruct::CompoundQuery),
        ("SELECT a FROM t WHERE a > 5", UnsupportedConstruct::Predicate),
        ("SELECT a FROM t WHERE a IN (SELECT b FROM u)", UnsupportedConstruct::Predicate),
        ("SELECT 1", UnsupportedConstruct::MissingTable),
        ("SELECT a FROM t, u", UnsupportedConstruct::MultipleTables),
        ("SELECT a FROM t JOIN u ON t.x = u.x", UnsupportedConstruct::Join),
        ("SELECT a FROM (SELECT a FROM t) AS d", UnsupportedConstruct::TableExpression),
        ("SELECT t.* FROM t", UnsupportedConstruct::QualifiedWildcard),
        ("SELECT a + 1 FROM t", UnsupportedConstruct::Expression),
        ("SELECT t.a FROM t", UnsupportedConstruct::Expression),
        ("SELECT count(a) FROM t", UnsupportedConstruct::Expression),
        ("SELECT a AS b FROM t", UnsupportedConstruct::Alias),
        ("SELECT * FROM f(1)", UnsupportedConstruct::TableArguments),
        ("SELECT * FROM f()", UnsupportedConstruct::TableArguments),
        ("SELECT * FROM t WITH (NOLOCK)", UnsupportedConstruct::TableHints),
        ("SELECT * EXCLUDE (a) FROM t", UnsupportedConstruct::WildcardOption),
        ("SELECT * EXCEPT (a) FROM t", UnsupportedConstruct::WildcardOption),
        ("SELECT * RENAME (a AS b) FROM t", UnsupportedConstruct::WildcardOption),
        ("SELECT * REPLACE (a + 1 AS a) FROM t", UnsupportedConstruct::WildcardOption),
        ("WITH c AS (SELECT a FROM t) SELECT a FROM c", UnsupportedConstruct::With),
        ("SELECT a FROM t ORDER BY a", UnsupportedConstruct::OrderBy),
        ("SELECT a FROM t LIMIT 3", UnsupportedConstruct::Limit),
        ("SELECT a FROM t OFFSET 2", UnsupportedConstruct::Offset),
        ("SELECT a FROM t FETCH FIRST 2 ROWS ONLY", UnsupportedConstruct::Fetch),
        ("SELECT a FROM t WHERE a BETWEEN 1 AND 2 FOR UPDATE", UnsupportedConstruct::Lock),
        ("SELECT DISTINCT a FROM t", UnsupportedConstruct::Distinct),
        ("SELECT TOP 3 a FROM t", UnsupportedConstruct::Top),
        ("SELECT a INTO u FROM t", UnsupportedConstruct::Into),
        ("SELECT a FROM t GROUP BY a", UnsupportedConstruct::GroupBy),
        ("SELECT a FROM t CLUSTER BY a", UnsupportedConstruct::ClusterBy),
        ("SELECT a FROM t DISTRIBUTE BY a", UnsupportedConstruct::DistributeBy),
        ("SELECT a FROM t SORT BY a", UnsupportedConstruct::SortBy),
        ("SELECT a FROM t HAVING a > 1", UnsupportedConstruct::Having),
        ("SELECT a FROM t WINDOW w AS (PARTITION BY a)", UnsupportedConstruct::Window),
        ("SELECT a FROM t QUALIFY a > 1", UnsupportedConstruct::Qualify),
        ("SELECT a FROM t LATERAL VIEW explode(b) x AS c", UnsupportedConstruct::LateralView),
    ];
    for (sql, construct) in cases.iter() {
        assert_eq!(outcomes(sql), vec![Err(*construct)], "{}", sql);
    }
}

#[test]
fn first_offence_is_reported() {
    assert_eq!(
        outcomes("SELECT a AS b, 1 + 1 FROM t"),
        vec![Err(UnsupportedConstruct::Alias)]
    );
    assert_eq!(
        outcomes("SELECT a, 1 + 1, b AS c FROM t"),
        vec![Err(UnsupportedConstruct::Expression)]
    );
    assert_eq!(
        outcomes("SELECT 1 + 1 FROM t JOIN u ON t.x = u.x WHERE a > 1"),
        vec![Err(UnsupportedConstruct::Predicate)]
    );
    assert_eq!(
        outcomes("SELECT 1 + 1 FROM t JOIN u ON t.x = u.x"),
        vec![Err(UnsupportedConstruct::Join)]
    );
}

#[test]
fn translate_takes_a_hand_built_statement() {
    let statement = select(vec![column("name"), column("id")], vec![plain_table("users")]);
    assert_eq!(
        translate(&statement),
        Ok(SqlQuery::Select(Fields::Columns(names(&["name", "id"])), "users".to_string()))
    );
}

#[test]
fn translate_without_named_column_asks_for_every_column() {
    let every = select(vec![wildcard()], vec![plain_table("t")]);
    assert_eq!(translate(&every), Ok(SqlQuery::Select(Fields::All, "t".to_string())));
    let nothing = select(vec![], vec![plain_table("t")]);
    assert_eq!(translate(&nothing), Ok(SqlQuery::Select(Fields::All, "t".to_string())));
}

#[test]
fn translate_refuses_a_table_without_name_parts() {
    let statement = select(
        vec![wildcard()],
        vec![FromTarget { table: Some(TableReference::plain(vec![])), joins: 0 }],
    );
    assert_eq!(translate(&statement), Err(UnsupportedConstruct::TableExpression));
}

#[test]
fn translate_refuses_by_kind() {
    assert_eq!(translate(&ParsedStatement::Other), Err(UnsupportedConstruct::Statement));
    assert_eq!(
        translate(&ParsedStatement::CompoundQuery),
        Err(UnsupportedConstruct::CompoundQuery)
    );
    let other = filtered(vec![wildcard()], vec![plain_table("t")], Filter::Other);
    assert_eq!(translate(&other), Err(UnsupportedConstruct::Predicate));
    let ranged = filtered(vec![wildcard()], vec![plain_table("t")], Filter::Between);
    assert_eq!(translate(&ranged), Ok(SqlQuery::Select(Fields::All, "t".to_string())));
}

#[test]
fn translate_all_keeps_the_order() {
    let statements = vec![
        ParsedStatement::Other,
        select(vec![column("a")], vec![plain_table("t")]),
        select(vec![ProjectionItem::Aliased], vec![plain_table("t")]),
    ];
    assert_eq!(
        translate_all(&statements),
        vec![
            Err(UnsupportedConstruct::Statement),
            Ok(SqlQuery::Select(Fields::Columns(names(&["a"])), "t".to_string())),
            Err(UnsupportedConstruct::Alias),
        ]
    );
}

#[test]
fn reading_tells_which_clauses_are_there() {
    let read = read_sql(concat_all(&[
        "SELECT DISTINCT a FROM t GROUP BY a, b HAVING a > 1",
        "ORDER BY a, b, c LIMIT 5 OFFSET 2",
    ]).as_str())
    .unwrap();
    assert_eq!(
        read,
        vec![ParsedStatement::Select {
            query_clauses: QueryClauses {
                with: false,
                order_by: 3,
                limit: true,
                limit_by: 0,
                offset: true,
                fetch: false,
                locks: 0,
            },
            select_clauses: SelectClauses {
                distinct: true,
                top: false,
                into: false,
                lateral_views: 0,
                group_by: Some(2),
                cluster_by: 0,
                distribute_by: 0,
                sort_by: 0,
                having: true,
                named_window: 0,
                qualify: false,
            },
            projection: vec![column("a")],
            from: vec![plain_table("t")],
            filter: Filter::Absent,
        }]
    );
}

#[test]
fn bare_clauses_hold_nothing() {
    assert_eq!(
        QueryClauses::bare(),
        QueryClauses {
            with: false,
            order_by: 0,
            limit: false,
            limit_by: 0,
            offset: false,
            fetch: false,
            locks: 0,
        }
    );
    assert_eq!(SelectClauses::bare().group_by, Some(0));
    assert!(!SelectClauses::bare().distinct);
    let read = read_sql("SELECT a FROM t").unwrap();
    assert_eq!(read, vec![select(vec![column("a")], vec![plain_table("t")])]);
}

#[test]
fn clauses_are_refused_before_the_select_is_read() {
    assert_eq!(
        outcomes("SELECT 1 + 1 FROM t, u WHERE a > 1 GROUP BY a ORDER BY a"),
        vec![Err(UnsupportedConstruct::OrderBy)]
    );
    assert_eq!(
        outcomes("SELECT 1 + 1 FROM t, u WHERE a > 1 GROUP BY a"),
        vec![Err(UnsupportedConstruct::GroupBy)]
    );
    let mut clauses = SelectClauses::bare();
    clauses.group_by = None;
    let statement = ParsedStatement::Select {
        query_clauses: QueryClauses::bare(),
        select_clauses: clauses,
        projection: vec![column("a")],
        from: vec![plain_table("t")],
        filter: Filter::Absent,
    };
    assert_eq!(translate(&statement), Err(UnsupportedConstruct::GroupBy));
}

#[test]
fn every_construct_has_a_name() {
    assert_eq!(UnsupportedConstruct::Join.name(), "join");
    assert_eq!(UnsupportedConstruct::Statement.name(), "statement other than a query");
    assert_eq!(UnsupportedConstruct::OrderBy.name(), "ORDER BY");
    assert_eq!(UnsupportedConstruct::Expression.name(), "computed column");
    assert_eq!(UnsupportedConstruct::Alias.name(), "aliased column");
    assert_eq!(UnsupportedConstruct::Predicate.name(), "predicate other than a range");
}

#[test]
fn a_limit_by_list_is_refused() {
    let mut clauses = QueryClauses::bare();
    clauses.limit_by = 1;
    let statement = ParsedStatement::Select {
        query_clauses: clauses,
        select_clauses: SelectClauses::bare(),
        projection: vec![column("a")],
        from: vec![plain_table("t")],
        filter: Filter::Absent,
    };
    assert_eq!(translate(&statement), Err(UnsupportedConstruct::LimitBy));
    assert_eq!(UnsupportedConstruct::LimitBy.name(), "LIMIT BY");
}

#[test]
fn reading_tells_what_stands_behind_a_table() {
    let read = read_sql("SELECT * FROM db.f(1) AS x WITH (NOLOCK, a)").unwrap();
    assert_eq!(
        read,
        vec![select(
            vec![wildcard()],
            vec![FromTarget {
                table: Some(TableReference {
                    parts: names(&["db", "f"]),
                    alias: true,
                    arguments: true,
                    hints: 2,
                    version: false,
                    partitions: 0,
                }),
                joins: 0,
            }],
        )]
    );
}

#[test]
fn reading_tells_what_stands_behind_a_wildcard() {
    let read = read_sql("SELECT * EXCLUDE (a) RENAME (b AS c) FROM t").unwrap();
    assert_eq!(
        read,
        vec![select(
            vec![ProjectionItem::Wildcard(WildcardOptions {
                exclude: true,
                except: false,
                rename: true,
                replace: false,
            })],
            vec![plain_table("t")],
        )]
    );
    let read = read_sql("SELECT * EXCEPT (a) REPLACE (b + 1 AS b) FROM t").unwrap();
    assert_eq!(
        read,
        vec![select(
            vec![ProjectionItem::Wildcard(WildcardOptions {
                exclude: false,
                except: true,
                rename: false,
                replace: true,
            })],
            vec![plain_table("t")],
        )]
    );
}

#[test]
fn an_alias_of_the_table_changes_nothing() {
    assert_eq!(
        outcomes("SELECT id FROM users AS u"),
        vec![Ok(SqlQuery::Select(Fields::Columns(names(&["id"])), "users".to_string()))]
    );
    assert_eq!(
        outcomes("SELECT * FROM users u"),
        vec![Ok(SqlQuery::Select(Fields::All, "users".to_string()))]
    );
}

#[test]
fn translate_refuses_what_stands_behind_a_table() {
    let with = |change: fn(&mut TableReference)| {
        let mut table = TableReference::plain(names(&["t"]));
        change(&mut table);
        translate(&select(vec![column("a")], vec![FromTarget { table: Some(table), joins: 0 }]))
    };
    assert_eq!(with(|t| t.arguments = true), Err(UnsupportedConstruct::TableArguments));
    assert_eq!(with(|t| t.hints = 1), Err(UnsupportedConstruct::TableHints));
    assert_eq!(with(|t| t.version = true), Err(UnsupportedConstruct::TableVersion));
    assert_eq!(with(|t| t.partitions = 2), Err(UnsupportedConstruct::TablePartitions));
    assert_eq!(
        with(|t| {
            t.partitions = 2;
            t.arguments = true;
        }),
        Err(UnsupportedConstruct::TableArguments)
    );
    assert_eq!(
        with(|t| t.alias = true),
        Ok(SqlQuery::Select(Fields::Columns(names(&["a"])), "t".to_string()))
    );
}

#[test]
fn translate_refuses_a_wildcard_with_an_option() {
    let options = [
        WildcardOptions { exclude: true, except: false, rename: false, replace: false },
        WildcardOptions { exclude: false, except: true, rename: false, replace: false },
        WildcardOptions { exclude: false, except: false, rename: true, replace: false },
        WildcardOptions { exclude: false, except: false, rename: false, replace: true },
    ];
    for option in options {
        let statement =
            select(vec![column("a"), ProjectionItem::Wildcard(option)], vec![plain_table("t")]);
        assert_eq!(translate(&statement), Err(UnsupportedConstruct::WildcardOption));
    }
    assert_eq!(UnsupportedConstruct::WildcardOption.name(), "wildcard with options");
    assert_eq!(UnsupportedConstruct::TableArguments.name(), "table with arguments");
    assert_eq!(UnsupportedConstruct::TableHints.name(), "table with hints");
    assert_eq!(UnsupportedConstruct::TableVersion.name(), "table version");
    assert_eq!(UnsupportedConstruct::TablePartitions.name(), "table partitions");
}
