//! What a sink is declared with: its format, its encodings, its options and its columns.

use vstd::prelude::*;

use crate::options::Options;

verus! {

/// How changes of the upstream relation become messages.
#[derive(Debug, Clone, Copy, PartialEq, Eq, Structural)]
pub enum SinkFormat {
    AppendOnly,
    Upsert,
    Debezium,
}

/// How a key or a value becomes bytes.
#[derive(Debug, Clone, Copy, PartialEq, Eq, Structural)]
pub enum SinkEncode {
    Json,
    Protobuf,
    Avro,
    Template,
    Text,
}

/// The `FORMAT .. ENCODE .. (..) KEY ENCODE ..` clause of a sink.
#[derive(Debug)]
pub struct SinkFormatDesc {
    pub format: SinkFormat,
    pub encode: SinkEncode,
    pub options: Options,
    pub key_encode: Option<SinkEncode>,
}

/// The type of a column.
///
/// The types that a text key can have are told apart; every other type is known by the text that
/// it is displayed with.
#[derive(Debug)]
pub enum DataType {
    Varchar,
    Boolean,
    Int16,
    Int32,
    Int64,
    Int256,
    Serial,
    Other(String),
}

impl Clone for DataType {
    fn clone(&self) -> (copy: DataType)
        ensures
            copy == *self,
    {
        match self {
            DataType::Varchar => DataType::Varchar,
            DataType::Boolean => DataType::Boolean,
            DataType::Int16 => DataType::Int16,
            DataType::Int32 => DataType::Int32,
            DataType::Int64 => DataType::Int64,
            DataType::Int256 => DataType::Int256,
            DataType::Serial => DataType::Serial,
            DataType::Other(display) => DataType::Other(display.clone()),
        }
    }
}

/// A column.
#[derive(Debug)]
pub struct Field {
    pub name: String,
    pub data_type: DataType,
}

impl Clone for Field {
    fn clone(&self) -> (copy: Field)
        ensures
            copy == *self,
    {
        Field { name: self.name.clone(), data_type: self.data_type.clone() }
    }
}

/// The columns of a sink, in order, and the text that shows them in messages for developers.
#[derive(Debug)]
pub struct Schema {
    pub fields: Vec<Field>,
    pub debug: String,
}

/// A schema, as mathematical values.
pub struct SchemaModel {
    pub fields: Seq<Field>,
    pub debug: Seq<char>,
}

impl View for Schema {
    type V = SchemaModel;

    open spec fn view(&self) -> SchemaModel {
        SchemaModel { fields: self.fields@, debug: self.debug@ }
    }
}

impl Clone for Schema {
    fn clone(&self) -> (copy: Schema)
        ensures
            copy@ == self@,
    {
        let mut fields: Vec<Field> = Vec::new();
        let mut at: usize = 0;
        while at < self.fields.len()
            invariant
                at <= self.fields@.len(),
                fields@ == self.fields@.take(at as int),
            decreases self.fields@.len() - at,
        {
            fields.push(self.fields[at].clone());
            at = at + 1;
            assert(fields@ =~= self.fields@.take(at as int));
        }
        assert(fields@ =~= self.fields@);
        Schema { fields, debug: self.debug.clone() }
    }
}

impl Schema {
    /// The columns.
    pub fn fields(&self) -> (fields: &[Field])
        ensures
            fields@ == self@.fields,
    {
        self.fields.as_slice()
    }
}

} // verus!
