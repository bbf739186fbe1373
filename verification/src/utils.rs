//! The column catalog: the fixed schema of the virtual table.
//!
//! Exactly eleven columns — the record identifier plus a mirrored set of
//! five per direction. The catalog binds each column name to its SQL type
//! and to its extraction path into a flow record; the predicate compiler
//! and the row projector both route through it, so a name means the same
//! thing on both sides.

use vstd::prelude::*;

use crate::ipv4::Ipv4Addr;
use crate::model::{Flow, IpAddress, IpTuple, ProtoTuple};

verus! {

/// One column of the virtual table.
#[derive(Clone, Copy, Debug, PartialEq, Eq)]
pub enum Column {
    Id,
    OrigSrc,
    OrigDst,
    OrigProtoNum,
    OrigProtoSrcPort,
    OrigProtoDstPort,
    ReplySrc,
    ReplyDst,
    ReplyProtoNum,
    ReplyProtoSrcPort,
    ReplyProtoDstPort,
}

/// The SQL-facing type of a column.
#[derive(Clone, Copy, Debug, PartialEq, Eq)]
pub enum DataType {
    Uint32,
    Inet,
    Uint8,
    Uint16,
}

/// A column rendered as a schema entry. Every column is nullable: kernel
/// state may omit any field of a flow.
#[derive(Clone, Debug, PartialEq, Eq)]
pub struct ColumnDef {
    pub name: String,
    pub data_type: DataType,
    pub nullable: bool,
}

/// One cell of a projected row.
#[derive(Clone, Copy, Debug, PartialEq, Eq)]
pub enum FieldValue {
    Null,
    U8(u8),
    U16(u16),
    U32(u32),
    Inet(IpAddress),
}

/// The catalog's fixed column order.
pub open spec fn spec_all_columns() -> Seq<Column> {
    seq![
        Column::Id,
        Column::OrigSrc,
        Column::OrigDst,
        Column::OrigProtoNum,
        Column::OrigProtoSrcPort,
        Column::OrigProtoDstPort,
        Column::ReplySrc,
        Column::ReplyDst,
        Column::ReplyProtoNum,
        Column::ReplyProtoSrcPort,
        Column::ReplyProtoDstPort,
    ]
}

/// The SQL identifier of a column.
pub open spec fn spec_column_name(c: Column) -> Seq<char> {
    match c {
        Column::Id => "id"@,
        Column::OrigSrc => "orig_ipv4_src"@,
        Column::OrigDst => "orig_ipv4_dst"@,
        Column::OrigProtoNum => "orig_l4_proto"@,
        Column::OrigProtoSrcPort => "orig_l4_src_port"@,
        Column::OrigProtoDstPort => "orig_l4_dst_port"@,
        Column::ReplySrc => "reply_ipv4_src"@,
        Column::ReplyDst => "reply_ipv4_dst"@,
        Column::ReplyProtoNum => "reply_l4_proto"@,
        Column::ReplyProtoSrcPort => "reply_l4_src_port"@,
        Column::ReplyProtoDstPort => "reply_l4_dst_port"@,
    }
}

/// The column a SQL identifier names, or `None` for an unrecognized name.
pub open spec fn spec_lookup_column(name: Seq<char>) -> Option<Column> {
    if name == "id"@ {
        Some(Column::Id)
    } else if name == "orig_ipv4_src"@ {
        Some(Column::OrigSrc)
    } else if name == "orig_ipv4_dst"@ {
        Some(Column::OrigDst)
    } else if name == "orig_l4_proto"@ {
        Some(Column::OrigProtoNum)
    } else if name == "orig_l4_src_port"@ {
        Some(Column::OrigProtoSrcPort)
    } else if name == "orig_l4_dst_port"@ {
        Some(Column::OrigProtoDstPort)
    } else if name == "reply_ipv4_src"@ {
        Some(Column::ReplySrc)
    } else if name == "reply_ipv4_dst"@ {
        Some(Column::ReplyDst)
    } else if name == "reply_l4_proto"@ {
        Some(Column::ReplyProtoNum)
    } else if name == "reply_l4_src_port"@ {
        Some(Column::ReplyProtoSrcPort)
    } else if name == "reply_l4_dst_port"@ {
        Some(Column::ReplyProtoDstPort)
    } else {
        None
    }
}

/// The SQL-facing type of a column.
pub open spec fn spec_data_type(c: Column) -> DataType {
    match c {
        Column::Id => DataType::Uint32,
        Column::OrigSrc => DataType::Inet,
        Column::OrigDst => DataType::Inet,
        Column::ReplySrc => DataType::Inet,
        Column::ReplyDst => DataType::Inet,
        Column::OrigProtoNum => DataType::Uint8,
        Column::ReplyProtoNum => DataType::Uint8,
        Column::OrigProtoSrcPort => DataType::Uint16,
        Column::OrigProtoDstPort => DataType::Uint16,
        Column::ReplyProtoSrcPort => DataType::Uint16,
        Column::ReplyProtoDstPort => DataType::Uint16,
    }
}

/// The directional tuple a column reads, if it reads one.
pub open spec fn spec_column_tuple(c: Column, flow: Flow) -> Option<IpTuple> {
    match c {
        Column::Id => None,
        Column::OrigSrc => flow.origin,
        Column::OrigDst => flow.origin,
        Column::OrigProtoNum => flow.origin,
        Column::OrigProtoSrcPort => flow.origin,
        Column::OrigProtoDstPort => flow.origin,
        Column::ReplySrc => flow.reply,
        Column::ReplyDst => flow.reply,
        Column::ReplyProtoNum => flow.reply,
        Column::ReplyProtoSrcPort => flow.reply,
        Column::ReplyProtoDstPort => flow.reply,
    }
}

/// The cell a column yields for a flow record. Total: an absent field at any
/// level of the extraction path yields `FieldValue::Null`, never an error.
pub open spec fn spec_column_value(c: Column, flow: Flow) -> FieldValue {
    match c {
        Column::Id => match flow.id {
            Some(v) => FieldValue::U32(v),
            None => FieldValue::Null,
        },
        _ => match spec_column_tuple(c, flow) {
            Some(t) => spec_tuple_value(c, t),
            None => FieldValue::Null,
        },
    }
}

/// The cell a directional column reads off its tuple.
pub open spec fn spec_tuple_value(c: Column, t: IpTuple) -> FieldValue {
    match c {
        Column::OrigSrc | Column::ReplySrc => match t.src {
            Some(a) => FieldValue::Inet(a),
            None => FieldValue::Null,
        },
        Column::OrigDst | Column::ReplyDst => match t.dst {
            Some(a) => FieldValue::Inet(a),
            None => FieldValue::Null,
        },
        _ => match t.proto {
            Some(p) => spec_proto_value(c, p),
            None => FieldValue::Null,
        },
    }
}

/// The cell a protocol column reads off a protocol tuple.
pub open spec fn spec_proto_value(c: Column, p: ProtoTuple) -> FieldValue {
    match c {
        Column::OrigProtoNum | Column::ReplyProtoNum => match p.number {
            Some(v) => FieldValue::U8(v),
            None => FieldValue::Null,
        },
        Column::OrigProtoSrcPort | Column::ReplyProtoSrcPort => match p.src_port {
            Some(v) => FieldValue::U16(v),
            None => FieldValue::Null,
        },
        Column::OrigProtoDstPort | Column::ReplyProtoDstPort => match p.dst_port {
            Some(v) => FieldValue::U16(v),
            None => FieldValue::Null,
        },
        _ => FieldValue::Null,
    }
}

impl Column {
    /// The catalog's fixed, ordered column list.
    pub fn all_variants() -> (r: Vec<Column>)
        ensures
            r@ == spec_all_columns(),
    {
        let r: Vec<Column> = vec![
            Column::Id,
            Column::OrigSrc,
            Column::OrigDst,
            Column::OrigProtoNum,
            Column::OrigProtoSrcPort,
            Column::OrigProtoDstPort,
            Column::ReplySrc,
            Column::ReplyDst,
            Column::ReplyProtoNum,
            Column::ReplyProtoSrcPort,
            Column::ReplyProtoDstPort,
        ];
        assert(r@ =~= spec_all_columns());
        r
    }

    /// The SQL identifier of this column.
    pub fn name(&self) -> (r: &'static str)
        ensures
            r@ == spec_column_name(*self),
    {
        match self {
            Column::Id => "id",
            Column::OrigSrc => "orig_ipv4_src",
            Column::OrigDst => "orig_ipv4_dst",
            Column::OrigProtoNum => "orig_l4_proto",
            Column::OrigProtoSrcPort => "orig_l4_src_port",
            Column::OrigProtoDstPort => "orig_l4_dst_port",
            Column::ReplySrc => "reply_ipv4_src",
            Column::ReplyDst => "reply_ipv4_dst",
            Column::ReplyProtoNum => "reply_l4_proto",
            Column::ReplyProtoSrcPort => "reply_l4_src_port",
            Column::ReplyProtoDstPort => "reply_l4_dst_port",
        }
    }

    /// The column a SQL identifier names, or `None` for an unrecognized name.
    pub fn lookup(name: &String) -> (r: Option<Column>)
        ensures
            r == spec_lookup_column(name@),
    {
        if name.eq(&"id".to_owned()) {
            Some(Column::Id)
        } else if name.eq(&"orig_ipv4_src".to_owned()) {
            Some(Column::OrigSrc)
        } else if name.eq(&"orig_ipv4_dst".to_owned()) {
            Some(Column::OrigDst)
        } else if name.eq(&"orig_l4_proto".to_owned()) {
            Some(Column::OrigProtoNum)
        } else if name.eq(&"orig_l4_src_port".to_owned()) {
            Some(Column::OrigProtoSrcPort)
        } else if name.eq(&"orig_l4_dst_port".to_owned()) {
            Some(Column::OrigProtoDstPort)
        } else if name.eq(&"reply_ipv4_src".to_owned()) {
            Some(Column::ReplySrc)
        } else if name.eq(&"reply_ipv4_dst".to_owned()) {
            Some(Column::ReplyDst)
        } else if name.eq(&"reply_l4_proto".to_owned()) {
            Some(Column::ReplyProtoNum)
        } else if name.eq(&"reply_l4_src_port".to_owned()) {
            Some(Column::ReplyProtoSrcPort)
        } else if name.eq(&"reply_l4_dst_port".to_owned()) {
            Some(Column::ReplyProtoDstPort)
        } else {
            None
        }
    }

    /// This column rendered as a schema entry; every column is nullable.
    pub fn def(&self) -> (r: ColumnDef)
        ensures
            r.name@ == spec_column_name(*self),
            r.data_type == spec_data_type(*self),
            r.nullable == true,
    {
        let data_type = match self {
            Column::Id => DataType::Uint32,
            Column::OrigSrc | Column::OrigDst | Column::ReplySrc | Column::ReplyDst => {
                DataType::Inet
            },
            Column::OrigProtoNum | Column::ReplyProtoNum => DataType::Uint8,
            Column::OrigProtoSrcPort
            | Column::OrigProtoDstPort
            | Column::ReplyProtoSrcPort
            | Column::ReplyProtoDstPort => DataType::Uint16,
        };
        ColumnDef { name: self.name().to_owned(), data_type, nullable: true }
    }

    /// Appends this column's cell for `flow` to a row under construction.
    pub fn add_field(&self, flow: &Flow, fields: &mut Vec<FieldValue>)
        ensures
            final(fields)@ == old(fields)@.push(spec_column_value(*self, *flow)),
    {
        let tuple: &Option<IpTuple> = match self {
            Column::Id => {
                match flow.id {
                    Some(v) => fields.push(FieldValue::U32(v)),
                    None => fields.push(FieldValue::Null),
                };
                return;
            },
            Column::OrigSrc
            | Column::OrigDst
            | Column::OrigProtoNum
            | Column::OrigProtoSrcPort
            | Column::OrigProtoDstPort => &flow.origin,
            Column::ReplySrc
            | Column::ReplyDst
            | Column::ReplyProtoNum
            | Column::ReplyProtoSrcPort
            | Column::ReplyProtoDstPort => &flow.reply,
        };
        let value = match tuple {
            None => FieldValue::Null,
            Some(t) => match self {
                Column::OrigSrc | Column::ReplySrc => match t.src {
                    Some(a) => FieldValue::Inet(a),
                    None => FieldValue::Null,
                },
                Column::OrigDst | Column::ReplyDst => match t.dst {
                    Some(a) => FieldValue::Inet(a),
                    None => FieldValue::Null,
                },
                _ => match t.proto {
                    None => FieldValue::Null,
                    Some(p) => match self {
                        Column::OrigProtoNum | Column::ReplyProtoNum => match p.number {
                            Some(v) => FieldValue::U8(v),
                            None => FieldValue::Null,
                        },
                        Column::OrigProtoSrcPort | Column::ReplyProtoSrcPort => match p
                            .src_port {
                            Some(v) => FieldValue::U16(v),
                            None => FieldValue::Null,
                        },
                        _ => match p.dst_port {
                            Some(v) => FieldValue::U16(v),
                            None => FieldValue::Null,
                        },
                    },
                },
            },
        };
        fields.push(value);
    }
}

/// Projects one flow record into one relational row, one cell per catalog
/// column in catalog order.
pub fn project_flow(flow: &Flow) -> (row: Vec<FieldValue>)
    ensures
        row@.len() == spec_all_columns().len(),
        forall|i: int|
            0 <= i < spec_all_columns().len() ==> row@[i] == spec_column_value(
                spec_all_columns()[i],
                *flow,
            ),
{
    let columns = Column::all_variants();
    let mut row: Vec<FieldValue> = Vec::new();
    let mut i: usize = 0;
    while i < columns.len()
        invariant
            columns@ == spec_all_columns(),
            i <= columns.len(),
            row@.len() == i,
            forall|j: int|
                0 <= j < i ==> row@[j] == spec_column_value(spec_all_columns()[j], *flow),
        decreases columns.len() - i,
    {
        columns[i].add_field(flow, &mut row);
        i = i + 1;
    }
    row
}

/// Whether a cell is a well-typed occupant of a column of type `t`: null, or
/// the scalar shape that `t` calls for.
pub open spec fn spec_value_matches_type(v: FieldValue, t: DataType) -> bool {
    match v {
        FieldValue::Null => true,
        FieldValue::U8(_) => t == DataType::Uint8,
        FieldValue::U16(_) => t == DataType::Uint16,
        FieldValue::U32(_) => t == DataType::Uint32,
        FieldValue::Inet(_) => t == DataType::Inet,
    }
}

/// Projection is null-safe: a flow record with every field absent projects
/// to null in every column.
pub proof fn lemma_projection_null_safe(c: Column)
    ensures
        spec_column_value(c, Flow { id: None, origin: None, reply: None }) == FieldValue::Null,
{
}

/// Projection is type-correct: whatever the flow record holds, every column
/// yields either null or a scalar of its own SQL type.
pub proof fn lemma_projection_well_typed(c: Column, flow: Flow)
    ensures
        spec_value_matches_type(spec_column_value(c, flow), spec_data_type(c)),
{
}

proof fn lemma_names_distinct()
    ensures
        "id"@ != "orig_ipv4_src"@,
        "id"@ != "orig_ipv4_dst"@,
        "id"@ != "orig_l4_proto"@,
        "id"@ != "orig_l4_src_port"@,
        "id"@ != "orig_l4_dst_port"@,
        "id"@ != "reply_ipv4_src"@,
        "id"@ != "reply_ipv4_dst"@,
        "id"@ != "reply_l4_proto"@,
        "id"@ != "reply_l4_src_port"@,
        "id"@ != "reply_l4_dst_port"@,
        "orig_ipv4_src"@ != "orig_ipv4_dst"@,
        "orig_ipv4_src"@ != "orig_l4_proto"@,
        "orig_ipv4_src"@ != "orig_l4_src_port"@,
        "orig_ipv4_src"@ != "orig_l4_dst_port"@,
        "orig_ipv4_src"@ != "reply_ipv4_src"@,
        "orig_ipv4_src"@ != "reply_ipv4_dst"@,
        "orig_ipv4_src"@ != "reply_l4_proto"@,
        "orig_ipv4_src"@ != "reply_l4_src_port"@,
        "orig_ipv4_src"@ != "reply_l4_dst_port"@,
        "orig_ipv4_dst"@ != "orig_l4_proto"@,
        "orig_ipv4_dst"@ != "orig_l4_src_port"@,
        "orig_ipv4_dst"@ != "orig_l4_dst_port"@,
        "orig_ipv4_dst"@ != "reply_ipv4_src"@,
        "orig_ipv4_dst"@ != "reply_ipv4_dst"@,
        "orig_ipv4_dst"@ != "reply_l4_proto"@,
        "orig_ipv4_dst"@ != "reply_l4_src_port"@,
        "orig_ipv4_dst"@ != "reply_l4_dst_port"@,
        "orig_l4_proto"@ != "orig_l4_src_port"@,
        "orig_l4_proto"@ != "orig_l4_dst_port"@,
        "orig_l4_proto"@ != "reply_ipv4_src"@,
        "orig_l4_proto"@ != "reply_ipv4_dst"@,
        "orig_l4_proto"@ != "reply_l4_proto"@,
        "orig_l4_proto"@ != "reply_l4_src_port"@,
        "orig_l4_proto"@ != "reply_l4_dst_port"@,
        "orig_l4_src_port"@ != "orig_l4_dst_port"@,
        "orig_l4_src_port"@ != "reply_ipv4_src"@,
        "orig_l4_src_port"@ != "reply_ipv4_dst"@,
        "orig_l4_src_port"@ != "reply_l4_proto"@,
        "orig_l4_src_port"@ != "reply_l4_src_port"@,
        "orig_l4_src_port"@ != "reply_l4_dst_port"@,
        "orig_l4_dst_port"@ != "reply_ipv4_src"@,
        "orig_l4_dst_port"@ != "reply_ipv4_dst"@,
        "orig_l4_dst_port"@ != "reply_l4_proto"@,
        "orig_l4_dst_port"@ != "reply_l4_src_port"@,
        "orig_l4_dst_port"@ != "reply_l4_dst_port"@,
        "reply_ipv4_src"@ != "reply_ipv4_dst"@,
        "reply_ipv4_src"@ != "reply_l4_proto"@,
        "reply_ipv4_src"@ != "reply_l4_src_port"@,
        "reply_ipv4_src"@ != "reply_l4_dst_port"@,
        "reply_ipv4_dst"@ != "reply_l4_proto"@,
        "reply_ipv4_dst"@ != "reply_l4_src_port"@,
        "reply_ipv4_dst"@ != "reply_l4_dst_port"@,
        "reply_l4_proto"@ != "reply_l4_src_port"@,
        "reply_l4_proto"@ != "reply_l4_dst_port"@,
        "reply_l4_src_port"@ != "reply_l4_dst_port"@,
{
    reveal_strlit("id");
    reveal_strlit("orig_ipv4_src");
    reveal_strlit("orig_ipv4_dst");
    reveal_strlit("orig_l4_proto");
    reveal_strlit("orig_l4_src_port");
    reveal_strlit("orig_l4_dst_port");
    reveal_strlit("reply_ipv4_src");
    reveal_strlit("reply_ipv4_dst");
    reveal_strlit("reply_l4_proto");
    reveal_strlit("reply_l4_src_port");
    reveal_strlit("reply_l4_dst_port");
    assert("id"@.len() == 2);
    assert("orig_ipv4_src"@.len() == 13);
    assert("orig_ipv4_dst"@.len() == 13);
    assert("orig_l4_proto"@.len() == 13);
    assert("orig_l4_src_port"@.len() == 16);
    assert("orig_l4_dst_port"@.len() == 16);
    assert("reply_ipv4_src"@.len() == 14);
    assert("reply_ipv4_dst"@.len() == 14);
    assert("reply_l4_proto"@.len() == 14);
    assert("reply_l4_src_port"@.len() == 17);
    assert("reply_l4_dst_port"@.len() == 17);
    assert("orig_ipv4_src"@[10] != "orig_ipv4_dst"@[10]);
    assert("orig_ipv4_src"@[5] != "orig_l4_proto"@[5]);
    assert("orig_ipv4_dst"@[5] != "orig_l4_proto"@[5]);
    assert("orig_l4_src_port"@[8] != "orig_l4_dst_port"@[8]);
    assert("reply_ipv4_src"@[11] != "reply_ipv4_dst"@[11]);
    assert("reply_ipv4_src"@[6] != "reply_l4_proto"@[6]);
    assert("reply_ipv4_dst"@[6] != "reply_l4_proto"@[6]);
    assert("reply_l4_src_port"@[9] != "reply_l4_dst_port"@[9]);
}

/// The catalog invariant: no two columns share a SQL identifier, so a
/// recognized name routes to exactly one filter slot and one extraction path.
pub proof fn lemma_column_names_unique(c1: Column, c2: Column)
    requires
        spec_column_name(c1) == spec_column_name(c2),
    ensures
        c1 == c2,
{
    lemma_names_distinct();
}

/// Name and lookup agree: looking a column's own name up yields that column.
pub proof fn lemma_lookup_own_name(c: Column)
    ensures
        spec_lookup_column(spec_column_name(c)) == Some(c),
{
    lemma_names_distinct();
}

} // verus!
