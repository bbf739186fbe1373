use conntrack_sql::{DirFilter, Filter, Ipv4Addr, Literal, ParseSqlToFilterError, SqlBinaryOperator, SqlExpr};

fn dir_all_match() -> DirFilter {
    DirFilter { ipv4_src: None, ipv4_dst: None, l4_proto: None, l4_src_port: None, l4_dst_port: None }
}

#[test]
fn parse_filter() {
    assert_eq!(conntrack_sql::parse_filter(""), Ok(Filter::default()));
    assert_eq!(conntrack_sql::parse_filter("id = 5"), Ok(Filter::default()));
    assert_eq!(
        conntrack_sql::parse_filter("id = 5 OR orig_ipv4_src = '127.0.0.1'"),
        Ok(Filter::default())
    );
    assert_eq!(
        conntrack_sql::parse_filter(
            r#"
                id = 5
                    AND orig_ipv4_src = '127.0.0.1'
                    AND orig_ipv4_dst = '127.0.0.2'
                    AND orig_l4_proto = 6
                    AND orig_l4_src_port = 1
                    AND orig_l4_dst_port = 2"#
        ),
        Ok(Filter {
            orig: DirFilter {
                ipv4_src: Some(Ipv4Addr::new(127, 0, 0, 1)),
                ipv4_dst: Some(Ipv4Addr::new(127, 0, 0, 2)),
                l4_proto: Some(6),
                l4_src_port: Some(1),
                l4_dst_port: Some(2),
            },
            reply: dir_all_match(),
        })
    );
}

#[test]
fn whitespace_only_is_all_match() {
    assert_eq!(conntrack_sql::parse_filter("   \t\r\n  "), Ok(Filter::default()));
    assert_eq!(conntrack_sql::parse_filter("\u{a0}\u{2003}\u{3000}"), Ok(Filter::default()));
}

#[test]
fn top_level_or_drops_whole_predicate() {
    assert_eq!(
        conntrack_sql::parse_filter("id = 5 OR orig_ipv4_src = '127.0.0.1'"),
        Ok(Filter::default())
    );
}

#[test]
fn unrecognized_column_dropped() {
    assert_eq!(
        conntrack_sql::parse_filter("widget = 5 AND orig_l4_proto = 6"),
        Ok(Filter {
            orig: DirFilter { l4_proto: Some(6), ..dir_all_match() },
            reply: dir_all_match(),
        })
    );
}

#[test]
fn non_eq_operator_dropped() {
    assert_eq!(conntrack_sql::parse_filter("orig_l4_proto > 6"), Ok(Filter::default()));
}

#[test]
fn wrong_type_literal_dropped() {
    assert_eq!(conntrack_sql::parse_filter("orig_l4_proto = 'tcp'"), Ok(Filter::default()));
    assert_eq!(conntrack_sql::parse_filter("orig_ipv4_src = 6"), Ok(Filter::default()));
}

#[test]
fn out_of_range_literal_dropped() {
    assert_eq!(conntrack_sql::parse_filter("orig_l4_proto = 256"), Ok(Filter::default()));
    assert_eq!(conntrack_sql::parse_filter("orig_l4_src_port = 65536"), Ok(Filter::default()));
    assert_eq!(
        conntrack_sql::parse_filter("orig_l4_src_port = 65535"),
        Ok(Filter {
            orig: DirFilter { l4_src_port: Some(65535), ..dir_all_match() },
            reply: dir_all_match(),
        })
    );
}

#[test]
fn malformed_address_dropped() {
    assert_eq!(conntrack_sql::parse_filter("orig_ipv4_src = '300.0.0.1'"), Ok(Filter::default()));
    assert_eq!(conntrack_sql::parse_filter("orig_ipv4_src = '01.2.3.4'"), Ok(Filter::default()));
    assert_eq!(conntrack_sql::parse_filter("orig_ipv4_src = '1.2.3'"), Ok(Filter::default()));
    assert_eq!(conntrack_sql::parse_filter("orig_ipv4_src = '1.2.3.4.5'"), Ok(Filter::default()));
}

#[test]
fn reply_columns_constrain_reply_side() {
    assert_eq!(
        conntrack_sql::parse_filter("reply_ipv4_src = '10.0.0.1' AND reply_l4_dst_port = 443"),
        Ok(Filter {
            orig: dir_all_match(),
            reply: DirFilter {
                ipv4_src: Some(Ipv4Addr::new(10, 0, 0, 1)),
                l4_dst_port: Some(443),
                ..dir_all_match()
            },
        })
    );
}

#[test]
fn conjunction_order_does_not_matter() {
    let a = conntrack_sql::parse_filter("orig_l4_proto = 6 AND orig_l4_src_port = 80");
    let b = conntrack_sql::parse_filter("orig_l4_src_port = 80 AND orig_l4_proto = 6");
    assert_eq!(a, b);
    assert_eq!(
        a,
        Ok(Filter {
            orig: DirFilter { l4_proto: Some(6), l4_src_port: Some(80), ..dir_all_match() },
            reply: dir_all_match(),
        })
    );
}

#[test]
fn get_filter_on_explicit_tree() {
    let eq = |name: &str, lit: Literal| SqlExpr::BinaryOp {
        left: Box::new(SqlExpr::Identifier(name.to_owned())),
        op: SqlBinaryOperator::Eq,
        right: Box::new(SqlExpr::Value(lit)),
    };
    let tree = SqlExpr::BinaryOp {
        left: Box::new(eq(
            "orig_ipv4_src",
            Literal::SingleQuotedString("127.0.0.1".to_owned()),
        )),
        op: SqlBinaryOperator::And,
        right: Box::new(eq(
            "orig_l4_proto",
            Literal::Number { u8_value: Some(6), u16_value: Some(6) },
        )),
    };
    assert_eq!(
        conntrack_sql::get_filter(&tree),
        Ok(Filter {
            orig: DirFilter {
                ipv4_src: Some(Ipv4Addr::new(127, 0, 0, 1)),
                l4_proto: Some(6),
                ..dir_all_match()
            },
            reply: dir_all_match(),
        })
    );
    assert_eq!(conntrack_sql::get_filter(&SqlExpr::Unsupported), Ok(Filter::default()));
}

#[test]
fn dropped_conjuncts_are_reported() {
    let eq = |name: &str, lit: Literal| SqlExpr::BinaryOp {
        left: Box::new(SqlExpr::Identifier(name.to_owned())),
        op: SqlBinaryOperator::Eq,
        right: Box::new(SqlExpr::Value(lit)),
    };
    let tree = SqlExpr::BinaryOp {
        left: Box::new(eq(
            "widget",
            Literal::Number { u8_value: Some(5), u16_value: Some(5) },
        )),
        op: SqlBinaryOperator::And,
        right: Box::new(SqlExpr::BinaryOp {
            left: Box::new(eq(
                "orig_l4_proto",
                Literal::Number { u8_value: Some(6), u16_value: Some(6) },
            )),
            op: SqlBinaryOperator::And,
            right: Box::new(eq(
                "orig_ipv4_src",
                Literal::SingleQuotedString("999.0.0.1".to_owned()),
            )),
        }),
    };
    let (filter, dropped) = conntrack_sql::get_filter_with_dropped(&tree);
    assert_eq!(
        filter,
        Ok(Filter {
            orig: DirFilter { l4_proto: Some(6), ..dir_all_match() },
            reply: dir_all_match(),
        })
    );
    assert_eq!(dropped, vec!["widget".to_owned(), "orig_ipv4_src".to_owned()]);
}

#[test]
fn malformed_text_is_parser_error() {
    assert!(matches!(
        conntrack_sql::parse_filter("AND AND"),
        Err(ParseSqlToFilterError::Parser(_))
    ));
    assert!(matches!(
        conntrack_sql::parse_filter("orig_l4_proto ="),
        Err(ParseSqlToFilterError::Parser(_))
    ));
}
