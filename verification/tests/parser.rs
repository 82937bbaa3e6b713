use usql::ast::expression::{BinaryOpExpr, Expr, IsNullExpr};
use usql::ast::operator::BinaryOperator;
use usql::ast::query::{
    Fetch, Limit, Offset, OffsetRows, OrderBy, Query, QueryBody, QueryBodyOperator, SetQuantifier,
    SortSpec,
};
use usql::ast::table::{
    From, GroupBy, GroupingElement, GroupingSet, Having, JoinOperator, JoinSpec, QuerySpec,
    SelectItem,
    TableFactor, TableReference, Where, Window, WindowDef, WindowFrame, WindowFrameBound,
    WindowFrameExclusion, WindowFrameUnits, WindowSpec,
};
use usql::ast::types::{Ident, Literal, ObjectName};
use usql::dialect::{AnsiDialect, MysqlDialect, PostgresDialect};
use usql::parser::{Parser, ParserError};
use usql::keyword_table::Keyword;
use usql::lexer::Lexer;
use usql::token::{Token, Whitespace};

#[test]
fn parse_query() -> Result<(), ParserError> {
    Ok(())
}

#[test]
fn parse_query_body() -> Result<(), ParserError> {
    Ok(())
}

#[test]
fn parse_with() -> Result<(), ParserError> {
    let dialect = AnsiDialect::default();
    let _query = Box::new(Query {
        with: None,
        body: QueryBody::QuerySpec(Box::new(QuerySpec {
            quantifier: None,
            projection: vec![
                SelectItem::DerivedColumn {
                    expr: Box::new(Expr::Identifier(Ident::new("id1"))),
                    alias: None,
                },
                SelectItem::DerivedColumn {
                    expr: Box::new(Expr::Identifier(Ident::new("id2"))),
                    alias: None,
                },
            ],
            from: From {
                list: vec![TableReference {
                    relation: TableFactor::Table {
                        name: ObjectName::new(vec!["table1"]),
                        alias: None,
                    },
                    joins: vec![],
                }],
            },
            where_clause: None,
            group_by: None,
            having: None,
            window: None,
        })),
        order_by: None,
        limit: None,
        offset: None,
        fetch: None,
    });
    let sql = "x AS (SELECT id1, id2 FROM table1)";
    let cte = Parser::new_with_sql(&dialect, sql)?.parse_cte()?;
    assert_eq!(cte.name, Ident::new("x"));
    assert_eq!(cte.columns, None);
    Ok(())
}

#[test]
fn parse_order_by() -> Result<(), ParserError> {
    let dialect = AnsiDialect::default();
    assert_eq!(
        Parser::new_with_sql(&dialect, "ORDER BY id1")?.parse_order_by_clause()?,
        Some(OrderBy {
            list: vec![SortSpec {
                expr: Box::new(Expr::Identifier(Ident::new("id1"))),
                asc: None,
                nulls_first: None,
            }]
        })
    );
    assert_eq!(
        Parser::new_with_sql(&dialect, "ORDER BY id1 DESC NULLS LAST")?.parse_order_by_clause()?,
        Some(OrderBy {
            list: vec![SortSpec {
                expr: Box::new(Expr::Identifier(Ident::new("id1"))),
                asc: Some(false),
                nulls_first: Some(false),
            }]
        })
    );
    assert_eq!(
        Parser::new_with_sql(&dialect, "ORDER BY id1 DESC NULLS LAST, id2 ASC")?
            .parse_order_by_clause()?,
        Some(OrderBy {
            list: vec![
                SortSpec {
                    expr: Box::new(Expr::Identifier(Ident::new("id1"))),
                    asc: Some(false),
                    nulls_first: Some(false),
                },
                SortSpec {
                    expr: Box::new(Expr::Identifier(Ident::new("id2"))),
                    asc: Some(true),
                    nulls_first: None,
                }
            ]
        })
    );
    Ok(())
}

#[test]
fn parse_limit() -> Result<(), ParserError> {
    let dialect = PostgresDialect::default();
    assert_eq!(Parser::new_with_sql(&dialect, "LIMIT ALL")?.parse_limit_clause()?, None);
    assert_eq!(
        Parser::new_with_sql(&dialect, "LIMIT 1")?.parse_limit_clause()?,
        Some(Limit { count: Literal::Number("1".into()) })
    );
    Ok(())
}

#[test]
fn parse_offset() -> Result<(), ParserError> {
    let dialect = AnsiDialect::default();
    assert_eq!(
        Parser::new_with_sql(&dialect, "OFFSET 1 ROW")?.parse_offset_clause()?,
        Some(Offset { count: Literal::Number("1".into()), rows: OffsetRows::Row })
    );
    assert_eq!(
        Parser::new_with_sql(&dialect, "OFFSET 2 ROWS")?.parse_offset_clause()?,
        Some(Offset { count: Literal::Number("2".into()), rows: OffsetRows::Rows })
    );
    let dialect = MysqlDialect::default();
    assert_eq!(
        Parser::new_with_sql(&dialect, "OFFSET 1")?.parse_offset_clause()?,
        Some(Offset { count: Literal::Number("1".into()), rows: OffsetRows::Omitted })
    );
    Ok(())
}

#[test]
fn parse_fetch() -> Result<(), ParserError> {
    let dialect = AnsiDialect::default();
    assert_eq!(
        Parser::new_with_sql(&dialect, "FETCH FIRST 1 ROW ONLY")?.parse_fetch_clause()?,
        Some(Fetch {
            quantity: Some(Literal::Number("1".into())),
            percent: false,
            with_ties: false,
        })
    );
    assert_eq!(
        Parser::new_with_sql(&dialect, "FETCH FIRST 2 PERCENT ROWS ONLY")?.parse_fetch_clause()?,
        Some(Fetch {
            quantity: Some(Literal::Number("2".into())),
            percent: true,
            with_ties: false,
        })
    );
    assert_eq!(
        Parser::new_with_sql(&dialect, "FETCH FIRST 2 ROWS WITH TIES")?.parse_fetch_clause()?,
        Some(Fetch {
            quantity: Some(Literal::Number("2".into())),
            percent: false,
            with_ties: true,
        })
    );
    Ok(())
}

#[test]
fn parse_from_clause() -> Result<(), ParserError> {
    Ok(())
}

#[test]
fn parse_joined_table() -> Result<(), ParserError> {
    Ok(())
}

#[test]
fn parse_join_specification() -> Result<(), ParserError> {
    let dialect = AnsiDialect::default();
    assert_eq!(
        Parser::new_with_sql(&dialect, "ON table1.id = table2.id")?.parse_join_spec()?,
        JoinSpec::On(Box::new(Expr::BinaryOp(BinaryOpExpr {
            left: Box::new(Expr::CompoundIdentifier(vec![Ident::new("table1"), Ident::new("id")])),
            op: BinaryOperator::Equal,
            right: Box::new(Expr::CompoundIdentifier(vec![Ident::new("table2"), Ident::new("id")])),
        })))
    );
    assert_eq!(
        Parser::new_with_sql(&dialect, "USING (id1)")?.parse_join_spec()?,
        JoinSpec::Using { columns: vec![Ident::new("id1")], alias: None }
    );
    assert_eq!(
        Parser::new_with_sql(&dialect, "USING (id1, id2) AS ids")?.parse_join_spec()?,
        JoinSpec::Using {
            columns: vec![Ident::new("id1"), Ident::new("id2")],
            alias: Some(Ident::new("ids"))
        }
    );
    Ok(())
}

#[test]
fn parse_where_clause() -> Result<(), ParserError> {
    let dialect = AnsiDialect::default();
    assert_eq!(
        Parser::new_with_sql(&dialect, "WHERE id = 1")?.parse_where_clause()?,
        Some(Where {
            expr: Box::new(Expr::BinaryOp(BinaryOpExpr {
                left: Box::new(Expr::Identifier(Ident::new("id"))),
                op: BinaryOperator::Equal,
                right: Box::new(Expr::Literal(Literal::Number("1".into()))),
            }))
        })
    );
    assert_eq!(
        Parser::new_with_sql(&dialect, "WHERE id IS NOT NULL")?.parse_where_clause()?,
        Some(Where {
            expr: Box::new(Expr::IsNull(IsNullExpr {
                negated: true,
                expr: Box::new(Expr::Identifier(Ident::new("id"))),
            }))
        })
    );
    Ok(())
}

#[test]
fn parse_group_by_clause() -> Result<(), ParserError> {
    let dialect = AnsiDialect::default();
    assert_eq!(
        Parser::new_with_sql(&dialect, "GROUP BY ()")?.parse_group_by_clause()?,
        Some(GroupBy { quantifier: None, list: vec![GroupingElement::Empty] })
    );
    assert_eq!(
        Parser::new_with_sql(&dialect, "GROUP BY DISTINCT id1")?.parse_group_by_clause()?,
        Some(GroupBy {
            quantifier: Some(SetQuantifier::Distinct),
            list: vec![GroupingElement::OrdinarySet(GroupingSet::Column(ObjectName::new(vec![
                "id1"
            ])))],
        })
    );
    assert_eq!(
        Parser::new_with_sql(&dialect, "GROUP BY (id1, id2)")?.parse_group_by_clause()?,
        Some(GroupBy {
            quantifier: None,
            list: vec![GroupingElement::OrdinarySet(GroupingSet::Columns(vec![
                ObjectName::new(vec!["id1"]),
                ObjectName::new(vec!["id2"]),
            ]))],
        })
    );
    assert_eq!(
        Parser::new_with_sql(&dialect, "GROUP BY ROLLUP (id1, id2)")?.parse_group_by_clause()?,
        Some(GroupBy {
            quantifier: None,
            list: vec![GroupingElement::Rollup(vec![GroupingSet::Columns(vec![
                ObjectName::new(vec!["id1"]),
                ObjectName::new(vec!["id2"]),
            ])])],
        })
    );
    assert_eq!(
        Parser::new_with_sql(&dialect, "GROUP BY CUBE (id1, id2)")?.parse_group_by_clause()?,
        Some(GroupBy {
            quantifier: None,
            list: vec![GroupingElement::Cube(vec![GroupingSet::Columns(vec![
                ObjectName::new(vec!["id1"]),
                ObjectName::new(vec!["id2"]),
            ])])],
        })
    );
    assert_eq!(
        Parser::new_with_sql(&dialect, "GROUP BY GROUPING SETS (id1, id2)")?
            .parse_group_by_clause()?,
        Some(GroupBy {
            quantifier: None,
            list: vec![GroupingElement::Sets(vec![
                GroupingElement::OrdinarySet(GroupingSet::Column(ObjectName::new(vec!["id1"]))),
                GroupingElement::OrdinarySet(GroupingSet::Column(ObjectName::new(vec!["id2"]))),
            ])],
        })
    );
    assert_eq!(
        Parser::new_with_sql(&dialect, "GROUP BY GROUPING SETS ( (id1, id2) )")?
            .parse_group_by_clause()?,
        Some(GroupBy {
            quantifier: None,
            list: vec![GroupingElement::Sets(vec![GroupingElement::OrdinarySet(
                GroupingSet::Columns(vec![ObjectName::new(vec!["id1"]), ObjectName::new(vec!["id2"]),])
            ),])],
        })
    );
    Ok(())
}

#[test]
fn parse_having_clause() -> Result<(), ParserError> {
    let dialect = AnsiDialect::default();
    assert_eq!(
        Parser::new_with_sql(&dialect, "HAVING id = 1")?.parse_having_clause()?,
        Some(Having {
            expr: Box::new(Expr::BinaryOp(BinaryOpExpr {
                left: Box::new(Expr::Identifier(Ident::new("id"))),
                op: BinaryOperator::Equal,
                right: Box::new(Expr::Literal(Literal::Number("1".into()))),
            }))
        })
    );
    assert_eq!(
        Parser::new_with_sql(&dialect, "HAVING id IS NOT NULL")?.parse_having_clause()?,
        Some(Having {
            expr: Box::new(Expr::IsNull(IsNullExpr {
                negated: true,
                expr: Box::new(Expr::Identifier(Ident::new("id"))),
            }))
        })
    );
    Ok(())
}

#[test]
fn parse_window_clause() -> Result<(), ParserError> {
    let dialect = AnsiDialect::default();
    let sql = "WINDOW w1 AS (PARTITION BY id1, id2 ORDER BY id1, id2), \
               w2 AS (PARTITION BY id2 ORDER BY id2 DESC NULLS LAST ROWS CURRENT ROW EXCLUDE NO OTHERS)";
    assert_eq!(
        Parser::new_with_sql(&dialect, sql)?.parse_window_clause()?,
        Some(Window {
            list: vec![
                WindowDef {
                    name: Ident::new("w1"),
                    spec: WindowSpec {
                        name: None,
                        partition_by: Some(vec![
                            ObjectName::new(vec!["id1"]),
                            ObjectName::new(vec!["id2"]),
                        ]),
                        order_by: Some(OrderBy {
                            list: vec![
                                SortSpec {
                                    expr: Box::new(Expr::Identifier(Ident::new("id1"))),
                                    asc: None,
                                    nulls_first: None,
                                },
                                SortSpec {
                                    expr: Box::new(Expr::Identifier(Ident::new("id2"))),
                                    asc: None,
                                    nulls_first: None,
                                }
                            ]
                        }),
                        window_frame: None,
                    }
                },
                WindowDef {
                    name: Ident::new("w2"),
                    spec: WindowSpec {
                        name: None,
                        partition_by: Some(vec![ObjectName::new(vec!["id2"])]),
                        order_by: Some(OrderBy {
                            list: vec![SortSpec {
                                expr: Box::new(Expr::Identifier(Ident::new("id2"))),
                                asc: Some(false),
                                nulls_first: Some(false),
                            }]
                        }),
                        window_frame: Some(WindowFrame {
                            units: WindowFrameUnits::Rows,
                            start_bound: WindowFrameBound::CurrentRow,
                            end_bound: None,
                            exclusion: Some(WindowFrameExclusion::NoOthers),
                        }),
                    }
                }
            ]
        })
    );
    Ok(())
}

#[test]
fn parse_window_frame() -> Result<(), ParserError> {
    let dialect = AnsiDialect::default();
    let sql = "ROWS CURRENT ROW";
    assert_eq!(
        Parser::new_with_sql(&dialect, sql)?.parse_window_frame_clause()?,
        Some(WindowFrame {
            units: WindowFrameUnits::Rows,
            start_bound: WindowFrameBound::CurrentRow,
            end_bound: None,
            exclusion: None,
        })
    );
    let sql = "RANGE BETWEEN 1 PRECEDING AND 1 FOLLOWING EXCLUDE CURRENT ROW";
    assert_eq!(
        Parser::new_with_sql(&dialect, sql)?.parse_window_frame_clause()?,
        Some(WindowFrame {
            units: WindowFrameUnits::Range,
            start_bound: WindowFrameBound::Preceding(Some(1)),
            end_bound: Some(WindowFrameBound::Following(Some(1))),
            exclusion: Some(WindowFrameExclusion::CurrentRow),
        })
    );
    Ok(())
}

#[test]
fn new_with_tokens_keeps_every_token() {
    let dialect = AnsiDialect::default();
    let tokens = Lexer::new(&dialect, "xx yy").tokenize().unwrap();
    assert_eq!(tokens.len(), 3);
    let mut parser = Parser::new_with_tokens(&dialect, tokens);
    assert_eq!(parser.next_token(), Some(Token::ident("xx", None)));
    assert_eq!(parser.next_token(), Some(Token::Whitespace(Whitespace::Space)));
    assert_eq!(parser.next_token(), Some(Token::ident("yy", None)));
    assert_eq!(parser.next_token(), None);
}

#[test]
fn window_definition_without_as() -> Result<(), ParserError> {
    let dialect = AnsiDialect::default();
    assert_eq!(
        Parser::new_with_sql(&dialect, "w1 ()")?.parse_window_def(),
        Ok(WindowDef {
            name: Ident::new("w1"),
            spec: WindowSpec { name: None, partition_by: None, order_by: None, window_frame: None },
        })
    );
    Ok(())
}

#[test]
fn query_spec_without_select_consumes_nothing() -> Result<(), ParserError> {
    let dialect = AnsiDialect::default();
    let mut parser = Parser::new_with_sql(&dialect, "FROM t")?;
    assert_eq!(
        parser.parse_query_spec(),
        Err(ParserError::ParseError("Expected: SELECT, found: FROM".into()))
    );
    assert!(parser.parse_from_clause().is_ok());
    Ok(())
}

#[test]
fn expect_keywords_keeps_the_matched_keywords_consumed() -> Result<(), ParserError> {
    let dialect = AnsiDialect::default();
    let mut parser = Parser::new_with_sql(&dialect, "CREATE TABLE t")?;
    assert!(parser.expect_keywords(&[Keyword::CREATE, Keyword::VIEW]).is_err());
    assert!(parser.parse_keyword(Keyword::TABLE));
    Ok(())
}

#[test]
fn select_items_with_wildcards() -> Result<(), ParserError> {
    let dialect = AnsiDialect::default();
    assert_eq!(
        Parser::new_with_sql(&dialect, "t1.*")?.parse_select_item(),
        Ok(SelectItem::QualifiedWildcard(ObjectName(vec![Ident::new("t1")])))
    );
    assert_eq!(Parser::new_with_sql(&dialect, "*")?.parse_select_item(), Ok(SelectItem::Wildcard));
    Ok(())
}

#[test]
fn second_offset_is_an_error() -> Result<(), ParserError> {
    let dialect = AnsiDialect::default();
    let sql = "SELECT id1 FROM table1 OFFSET 1 ROWS OFFSET 2 ROWS";
    let r = Parser::new_with_sql(&dialect, sql)?.parse_query_expr(false);
    assert!(matches!(r, Err(ParserError::ParseError(_))));
    Ok(())
}

#[test]
fn limit_with_fetch_is_an_error() -> Result<(), ParserError> {
    let dialect = MysqlDialect::default();
    let sql = "SELECT id1 FROM table1 LIMIT 1 FETCH FIRST 2 ROWS ONLY";
    let r = Parser::new_with_sql(&dialect, sql)?.parse_query_expr(false);
    assert!(matches!(r, Err(ParserError::ParseError(_))));
    let sql = "SELECT id1 FROM table1 FETCH FIRST 2 ROWS ONLY LIMIT 1";
    let r = Parser::new_with_sql(&dialect, sql)?.parse_query_expr(false);
    assert!(matches!(r, Err(ParserError::ParseError(_))));
    Ok(())
}

fn select_from(column: &str, table: &str) -> QueryBody {
    QueryBody::QuerySpec(Box::new(QuerySpec {
        quantifier: None,
        projection: vec![SelectItem::DerivedColumn {
            expr: Box::new(Expr::Identifier(Ident::new(column))),
            alias: None,
        }],
        from: From {
            list: vec![TableReference {
                relation: TableFactor::Table { name: ObjectName::new(vec![table]), alias: None },
                joins: vec![],
            }],
        },
        where_clause: None,
        group_by: None,
        having: None,
        window: None,
    }))
}

#[test]
fn intersect_binds_tighter_than_union() -> Result<(), ParserError> {
    let dialect = AnsiDialect::default();
    let sql = "SELECT id1 FROM table1 UNION SELECT id2 FROM table2 INTERSECT SELECT id3 FROM table3";
    let q = Parser::new_with_sql(&dialect, sql)?.parse_query_expr(false)?;
    assert_eq!(
        q.body,
        QueryBody::Operation {
            left: Box::new(select_from("id1", "table1")),
            op: QueryBodyOperator::Union,
            quantifier: None,
            right: Box::new(QueryBody::Operation {
                left: Box::new(select_from("id2", "table2")),
                op: QueryBodyOperator::Intersect,
                quantifier: None,
                right: Box::new(select_from("id3", "table3")),
            }),
        }
    );
    Ok(())
}

#[test]
fn union_associates_left() -> Result<(), ParserError> {
    let dialect = AnsiDialect::default();
    let sql = "SELECT id1 FROM table1 UNION ALL SELECT id2 FROM table2 EXCEPT SELECT id3 FROM table3";
    let q = Parser::new_with_sql(&dialect, sql)?.parse_query_expr(false)?;
    assert_eq!(
        q.body,
        QueryBody::Operation {
            left: Box::new(QueryBody::Operation {
                left: Box::new(select_from("id1", "table1")),
                op: QueryBodyOperator::Union,
                quantifier: Some(SetQuantifier::All),
                right: Box::new(select_from("id2", "table2")),
            }),
            op: QueryBodyOperator::Except,
            quantifier: None,
            right: Box::new(select_from("id3", "table3")),
        }
    );
    Ok(())
}

#[test]
fn with_recursive_and_cte_columns() -> Result<(), ParserError> {
    let dialect = AnsiDialect::default();
    let sql = "WITH RECURSIVE x (col1, col2) AS (SELECT id1 FROM table1) SELECT id2 FROM x";
    let q = Parser::new_with_sql(&dialect, sql)?.parse_query_expr(false)?;
    let with = q.with.unwrap();
    assert!(with.recursive);
    assert_eq!(with.ctes.len(), 1);
    assert_eq!(with.ctes[0].name, Ident::new("x"));
    assert_eq!(with.ctes[0].columns, Some(vec![Ident::new("col1"), Ident::new("col2")]));
    assert_eq!(with.ctes[0].query.body, select_from("id1", "table1"));
    assert_eq!(q.body, select_from("id2", "x"));
    Ok(())
}

#[test]
fn not_in_subquery_keeps_negation() -> Result<(), ParserError> {
    let dialect = AnsiDialect::default();
    let e = Parser::new_with_sql(&dialect, "x NOT IN (SELECT id1 FROM table1)")?.parse_expr()?;
    match e {
        Expr::InSubquery(x) => {
            assert!(x.negated);
            assert_eq!(*x.expr, Expr::Identifier(Ident::new("x")));
            assert_eq!(x.subquery.body, select_from("id1", "table1"));
        },
        _ => panic!("expected an IN subquery"),
    }
    Ok(())
}

#[test]
fn derived_table_with_alias() -> Result<(), ParserError> {
    let dialect = AnsiDialect::default();
    let f = Parser::new_with_sql(&dialect, "(SELECT id1 FROM table1) AS x")?.parse_table_factor()?;
    match f {
        TableFactor::Derived { lateral, subquery, alias } => {
            assert!(!lateral);
            assert_eq!(subquery.body, select_from("id1", "table1"));
            assert_eq!(alias.unwrap().name, Ident::new("x"));
        },
        _ => panic!("expected a derived table"),
    }
    Ok(())
}

#[test]
fn single_offset_and_limit_parse() -> Result<(), ParserError> {
    let dialect = MysqlDialect::default();
    let sql = "SELECT id1 FROM table1 OFFSET 1 ROWS LIMIT 2";
    let q = Parser::new_with_sql(&dialect, sql)?.parse_query_expr(false)?;
    assert_eq!(q.offset, Some(Offset { count: Literal::Number("1".into()), rows: OffsetRows::Rows }));
    assert_eq!(q.limit, Some(Limit { count: Literal::Number("2".into()) }));
    assert_eq!(q.fetch, None);
    Ok(())
}

#[test]
fn equal_precedence_associates_left() -> Result<(), ParserError> {
    let dialect = AnsiDialect::default();
    let e = Parser::new_with_sql(&dialect, "t1.c1 - t1.c2 - t1.c3")?.parse_expr()?;
    let col = |c: &str| Box::new(Expr::CompoundIdentifier(vec![Ident::new("t1"), Ident::new(c)]));
    assert_eq!(
        e,
        Expr::BinaryOp(BinaryOpExpr {
            op: BinaryOperator::Minus,
            left: Box::new(Expr::BinaryOp(BinaryOpExpr {
                op: BinaryOperator::Minus,
                left: col("c1"),
                right: col("c2"),
            })),
            right: col("c3"),
        })
    );
    Ok(())
}

#[test]
fn subexpr_stops_at_a_weaker_operator() -> Result<(), ParserError> {
    let dialect = AnsiDialect::default();
    let mut p = Parser::new_with_sql(&dialect, "id1 * id2 + id3")?;
    let e = p.parse_subexpr(30)?;
    assert!(matches!(e, Expr::BinaryOp(_)));
    assert_eq!(p.peek_token().cloned(), Some(Token::Plus));
    Ok(())
}

#[test]
fn subquery_operand_of_a_binary_operator() -> Result<(), ParserError> {
    let dialect = AnsiDialect::default();
    let e = Parser::new_with_sql(&dialect, "(SELECT id1 FROM table1) + 2")?.parse_expr()?;
    match e {
        Expr::BinaryOp(b) => {
            assert_eq!(b.op, BinaryOperator::Plus);
            match *b.left {
                Expr::Subquery(q) => assert_eq!(q.body, select_from("id1", "table1")),
                other => panic!("expected a subquery, got {:?}", other),
            }
            assert_eq!(*b.right, Expr::Literal(Literal::Number("2".into())));
        },
        other => panic!("expected a binary operation, got {:?}", other),
    }
    Ok(())
}

#[test]
fn subquery_right_operand_of_a_comparison() -> Result<(), ParserError> {
    let dialect = AnsiDialect::default();
    let e = Parser::new_with_sql(&dialect, "id2 = (SELECT id1 FROM table1)")?.parse_expr()?;
    match e {
        Expr::BinaryOp(b) => {
            assert_eq!(*b.left, Expr::Identifier(Ident::new("id2")));
            match *b.right {
                Expr::Subquery(q) => assert_eq!(q.body, select_from("id1", "table1")),
                other => panic!("expected a subquery, got {:?}", other),
            }
        },
        other => panic!("expected a binary operation, got {:?}", other),
    }
    Ok(())
}

#[test]
fn cross_join_with_derived_table_keeps_alias() -> Result<(), ParserError> {
    let dialect = AnsiDialect::default();
    let sql = "CROSS JOIN (SELECT id1 FROM table1) AS x";
    let j = Parser::new_with_sql(&dialect, sql)?.parse_joined_table()?.unwrap();
    assert_eq!(j.join, JoinOperator::CrossJoin);
    match j.relation {
        TableFactor::Derived { lateral, subquery, alias } => {
            assert!(!lateral);
            assert_eq!(subquery.body, select_from("id1", "table1"));
            assert_eq!(alias.unwrap().name, Ident::new("x"));
        },
        other => panic!("expected a derived table, got {:?}", other),
    }
    Ok(())
}

#[test]
fn lateral_derived_table() -> Result<(), ParserError> {
    let dialect = AnsiDialect::default();
    let sql = "LATERAL (SELECT id1 FROM table1) AS x";
    let f = Parser::new_with_sql(&dialect, sql)?.parse_table_factor()?;
    match f {
        TableFactor::Derived { lateral, subquery, alias } => {
            assert!(lateral);
            assert_eq!(subquery.body, select_from("id1", "table1"));
            assert_eq!(alias.unwrap().name, Ident::new("x"));
        },
        other => panic!("expected a derived table, got {:?}", other),
    }
    Ok(())
}

#[test]
fn nested_subquery_in_where_clause() -> Result<(), ParserError> {
    let dialect = AnsiDialect::default();
    let sql = "SELECT id1 FROM table1 WHERE id1 IN (SELECT id2 FROM table2)";
    let q = Parser::new_with_sql(&dialect, sql)?.parse_query_expr(false)?;
    match q.body {
        QueryBody::QuerySpec(spec) => match spec.where_clause {
            Some(w) => match *w.expr {
                Expr::InSubquery(x) => {
                    assert!(!x.negated);
                    assert_eq!(*x.expr, Expr::Identifier(Ident::new("id1")));
                    assert_eq!(x.subquery.body, select_from("id2", "table2"));
                },
                other => panic!("expected an IN subquery, got {:?}", other),
            },
            None => panic!("expected a WHERE clause"),
        },
        other => panic!("expected a query specification, got {:?}", other),
    }
    Ok(())
}

#[test]
fn window_frame_text_reads_back() -> Result<(), ParserError> {
    let dialect = AnsiDialect::default();
    let frames = vec![
        WindowFrame {
            units: WindowFrameUnits::Groups,
            start_bound: WindowFrameBound::Following(Some(3)),
            end_bound: None,
            exclusion: None,
        },
        WindowFrame {
            units: WindowFrameUnits::Rows,
            start_bound: WindowFrameBound::Preceding(None),
            end_bound: Some(WindowFrameBound::CurrentRow),
            exclusion: Some(WindowFrameExclusion::Ties),
        },
        WindowFrame {
            units: WindowFrameUnits::Range,
            start_bound: WindowFrameBound::Preceding(Some(7)),
            end_bound: Some(WindowFrameBound::Following(None)),
            exclusion: Some(WindowFrameExclusion::NoOthers),
        },
        WindowFrame {
            units: WindowFrameUnits::Rows,
            start_bound: WindowFrameBound::CurrentRow,
            end_bound: None,
            exclusion: Some(WindowFrameExclusion::Group),
        },
    ];
    for frame in frames {
        let sql = frame.to_string();
        assert_eq!(Parser::new_with_sql(&dialect, &sql)?.parse_window_frame_clause()?, Some(frame));
    }
    Ok(())
}
