//! The closed set of source value type tags and the projection of each tag
//! to a source-type label and a destination SQL column type.
use vstd::prelude::*;
use vstd::string::*;

verus! {

/// The closed set of type tags that the source document store assigns to a
/// stored value.
#[derive(Clone, Copy, PartialEq, Eq, Structural, Debug)]
pub enum ElementType {
    Double,
    String,
    EmbeddedDocument,
    Array,
    Binary,
    Undefined,
    ObjectId,
    Boolean,
    DateTime,
    Null,
    RegularExpression,
    DbPointer,
    JavaScriptCode,
    Symbol,
    JavaScriptCodeWithScope,
    Int32,
    Timestamp,
    Int64,
    Decimal128,
    MaxKey,
    MinKey,
}

/// One sampled leaf value, reduced to what the mapping logic reads from it:
/// its source type tag.
#[derive(Clone, Copy, PartialEq, Eq, Structural, Debug)]
pub struct DocumentValue {
    pub value_type: ElementType,
}

/// The destination SQL column type chosen for each source type tag: a fixed,
/// total lookup with "text" as the safe default.
pub open spec fn spec_sql_type(t: ElementType) -> Seq<char> {
    match t {
        ElementType::String | ElementType::ObjectId | ElementType::Null => "text"@,
        ElementType::Double | ElementType::Decimal128 => "numeric"@,
        ElementType::Int32 => "integer"@,
        ElementType::Int64 => "bigint"@,
        ElementType::Boolean => "boolean"@,
        ElementType::Timestamp | ElementType::DateTime => "timestamp with time zone"@,
        _ => "text"@,
    }
}

/// The source-type label for each tag, in 1:1 correspondence with the tag.
pub open spec fn spec_mongo_type(t: ElementType) -> Seq<char> {
    match t {
        ElementType::EmbeddedDocument => "embed"@,
        ElementType::Double => "double"@,
        ElementType::String => "string"@,
        ElementType::Array => "array"@,
        ElementType::Binary => "binary"@,
        ElementType::Undefined => "undefined"@,
        ElementType::ObjectId => "object_id"@,
        ElementType::Boolean => "boolean"@,
        ElementType::DateTime => "datetime"@,
        ElementType::Null => "null"@,
        ElementType::RegularExpression => "regular_expression"@,
        ElementType::DbPointer => "db_pointer"@,
        ElementType::JavaScriptCode => "javascript_code"@,
        ElementType::Symbol => "symbol"@,
        ElementType::JavaScriptCodeWithScope => "javascript_code_with_scope"@,
        ElementType::Int32 => "int32"@,
        ElementType::Timestamp => "timestamp"@,
        ElementType::Int64 => "int64"@,
        ElementType::Decimal128 => "decimal128"@,
        ElementType::MaxKey => "max_key"@,
        ElementType::MinKey => "min_key"@,
    }
}

impl DocumentValue {
    /// Destination SQL column type for this value's tag.
    pub fn sql_type(&self) -> (r: String)
        ensures
            r@ == spec_sql_type(self.value_type),
    {
        let s: &str = match self.value_type {
            ElementType::String | ElementType::ObjectId | ElementType::Null => "text",
            ElementType::Double | ElementType::Decimal128 => "numeric",
            ElementType::Int32 => "integer",
            ElementType::Int64 => "bigint",
            ElementType::Boolean => "boolean",
            ElementType::Timestamp | ElementType::DateTime => "timestamp with time zone",
            _ => "text",
        };
        String::from_str(s)
    }

    /// Source-type label for this value's tag.
    pub fn mongo_type(&self) -> (r: String)
        ensures
            r@ == spec_mongo_type(self.value_type),
    {
        let s: &str = match self.value_type {
            ElementType::EmbeddedDocument => "embed",
            ElementType::Double => "double",
            ElementType::String => "string",
            ElementType::Array => "array",
            ElementType::Binary => "binary",
            ElementType::Undefined => "undefined",
            ElementType::ObjectId => "object_id",
            ElementType::Boolean => "boolean",
            ElementType::DateTime => "datetime",
            ElementType::Null => "null",
            ElementType::RegularExpression => "regular_expression",
            ElementType::DbPointer => "db_pointer",
            ElementType::JavaScriptCode => "javascript_code",
            ElementType::Symbol => "symbol",
            ElementType::JavaScriptCodeWithScope => "javascript_code_with_scope",
            ElementType::Int32 => "int32",
            ElementType::Timestamp => "timestamp",
            ElementType::Int64 => "int64",
            ElementType::Decimal128 => "decimal128",
            ElementType::MaxKey => "max_key",
            ElementType::MinKey => "min_key",
        };
        String::from_str(s)
    }
}

/// The type projection is total: every tag in the closed set yields exactly
/// one of the six destination SQL type labels, and tags outside the
/// explicitly projected ones fall back to "text".
pub proof fn lemma_sql_type_total(t: ElementType)
    ensures
        spec_sql_type(t) == "text"@ || spec_sql_type(t) == "numeric"@ || spec_sql_type(t)
            == "integer"@ || spec_sql_type(t) == "bigint"@ || spec_sql_type(t) == "boolean"@
            || spec_sql_type(t) == "timestamp with time zone"@,
{
}

/// The source-type labelling is 1:1 with the tag: two distinct tags never
/// share a label.
pub proof fn lemma_mongo_type_injective(t1: ElementType, t2: ElementType)
    ensures
        spec_mongo_type(t1) == spec_mongo_type(t2) ==> t1 == t2,
{
    reveal_strlit("embed");
    reveal_strlit("double");
    reveal_strlit("string");
    reveal_strlit("array");
    reveal_strlit("binary");
    reveal_strlit("undefined");
    reveal_strlit("object_id");
    reveal_strlit("boolean");
    reveal_strlit("datetime");
    reveal_strlit("null");
    reveal_strlit("regular_expression");
    reveal_strlit("db_pointer");
    reveal_strlit("javascript_code");
    reveal_strlit("symbol");
    reveal_strlit("javascript_code_with_scope");
    reveal_strlit("int32");
    reveal_strlit("timestamp");
    reveal_strlit("int64");
    reveal_strlit("decimal128");
    reveal_strlit("max_key");
    reveal_strlit("min_key");
    if spec_mongo_type(t1) == spec_mongo_type(t2) && t1 != t2 {
        assert(spec_mongo_type(t1).len() == spec_mongo_type(t2).len());
        assert(spec_mongo_type(t1)[0] == spec_mongo_type(t2)[0]);
        assert(spec_mongo_type(t1)[1] == spec_mongo_type(t2)[1]);
        assert(spec_mongo_type(t1)[2] == spec_mongo_type(t2)[2]);
        assert(spec_mongo_type(t1)[3] == spec_mongo_type(t2)[3]);
        assert(false);
    }
}

} // verus!
