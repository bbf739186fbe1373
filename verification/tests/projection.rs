use conntrack_sql::{
    project_flow, Column, DataType, FieldValue, Flow, IpAddress, IpTuple, Ipv4Addr, ProtoTuple,
};

fn full_tuple(a: u8, b: u8) -> IpTuple {
    IpTuple {
        src: Some(IpAddress::V4(Ipv4Addr::new(a, 0, 0, 1))),
        dst: Some(IpAddress::V4(Ipv4Addr::new(b, 0, 0, 2))),
        proto: Some(ProtoTuple { number: Some(6), src_port: Some(1000), dst_port: Some(2000) }),
    }
}

#[test]
fn empty_flow_projects_all_null() {
    let row = project_flow(&Flow { id: None, origin: None, reply: None });
    assert_eq!(row.len(), 11);
    for cell in &row {
        assert_eq!(*cell, FieldValue::Null);
    }
}

#[test]
fn full_flow_projects_every_column() {
    let flow = Flow { id: Some(7), origin: Some(full_tuple(10, 10)), reply: Some(full_tuple(20, 20)) };
    let row = project_flow(&flow);
    assert_eq!(row.len(), 11);
    assert_eq!(row[0], FieldValue::U32(7));
    assert_eq!(row[1], FieldValue::Inet(IpAddress::V4(Ipv4Addr::new(10, 0, 0, 1))));
    assert_eq!(row[2], FieldValue::Inet(IpAddress::V4(Ipv4Addr::new(10, 0, 0, 2))));
    assert_eq!(row[3], FieldValue::U8(6));
    assert_eq!(row[4], FieldValue::U16(1000));
    assert_eq!(row[5], FieldValue::U16(2000));
    assert_eq!(row[6], FieldValue::Inet(IpAddress::V4(Ipv4Addr::new(20, 0, 0, 1))));
    assert_eq!(row[7], FieldValue::Inet(IpAddress::V4(Ipv4Addr::new(20, 0, 0, 2))));
    assert_eq!(row[8], FieldValue::U8(6));
    assert_eq!(row[9], FieldValue::U16(1000));
    assert_eq!(row[10], FieldValue::U16(2000));
}

#[test]
fn protocol_number_round_trip_is_directional() {
    let flow = Flow {
        id: None,
        origin: Some(IpTuple {
            src: None,
            dst: None,
            proto: Some(ProtoTuple { number: Some(6), src_port: None, dst_port: None }),
        }),
        reply: None,
    };
    let row = project_flow(&flow);
    assert_eq!(row[3], FieldValue::U8(6));
    assert_eq!(row[8], FieldValue::Null);
}

#[test]
fn absent_intermediate_levels_project_null() {
    let flow = Flow {
        id: Some(1),
        origin: Some(IpTuple {
            src: Some(IpAddress::V4(Ipv4Addr::new(192, 168, 0, 1))),
            dst: None,
            proto: None,
        }),
        reply: None,
    };
    let row = project_flow(&flow);
    assert_eq!(row[0], FieldValue::U32(1));
    assert_eq!(row[1], FieldValue::Inet(IpAddress::V4(Ipv4Addr::new(192, 168, 0, 1))));
    assert_eq!(row[2], FieldValue::Null);
    assert_eq!(row[3], FieldValue::Null);
    assert_eq!(row[4], FieldValue::Null);
    assert_eq!(row[5], FieldValue::Null);
    assert_eq!(row[6], FieldValue::Null);
}

#[test]
fn catalog_names_and_types() {
    let columns = Column::all_variants();
    assert_eq!(columns.len(), 11);
    let names: Vec<&str> = columns.iter().map(|c| c.name()).collect();
    assert_eq!(
        names,
        vec![
            "id",
            "orig_ipv4_src",
            "orig_ipv4_dst",
            "orig_l4_proto",
            "orig_l4_src_port",
            "orig_l4_dst_port",
            "reply_ipv4_src",
            "reply_ipv4_dst",
            "reply_l4_proto",
            "reply_l4_src_port",
            "reply_l4_dst_port",
        ]
    );
    let expected_types = vec![
        DataType::Uint32,
        DataType::Inet,
        DataType::Inet,
        DataType::Uint8,
        DataType::Uint16,
        DataType::Uint16,
        DataType::Inet,
        DataType::Inet,
        DataType::Uint8,
        DataType::Uint16,
        DataType::Uint16,
    ];
    for (column, expected) in columns.iter().zip(expected_types) {
        let def = column.def();
        assert_eq!(def.name, column.name());
        assert_eq!(def.data_type, expected);
        assert!(def.nullable);
    }
}

#[test]
fn dotted_quad_parsing() {
    assert_eq!(conntrack_sql::parse_ipv4("127.0.0.1"), Some(Ipv4Addr::new(127, 0, 0, 1)));
    assert_eq!(
        conntrack_sql::parse_ipv4("255.255.255.255"),
        Some(Ipv4Addr::new(255, 255, 255, 255))
    );
    assert_eq!(conntrack_sql::parse_ipv4("0.0.0.0"), Some(Ipv4Addr::new(0, 0, 0, 0)));
    assert_eq!(conntrack_sql::parse_ipv4("256.0.0.1"), None);
    assert_eq!(conntrack_sql::parse_ipv4("01.2.3.4"), None);
    assert_eq!(conntrack_sql::parse_ipv4("1.2.3"), None);
    assert_eq!(conntrack_sql::parse_ipv4("1.2.3.4.5"), None);
    assert_eq!(conntrack_sql::parse_ipv4("1.2.3.4 "), None);
    assert_eq!(conntrack_sql::parse_ipv4(""), None);
    assert_eq!(conntrack_sql::parse_ipv4("a.b.c.d"), None);
}
