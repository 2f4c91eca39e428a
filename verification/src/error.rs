//! Why a formatter is not built.

use vstd::prelude::*;
use vstd::string::StringExecFns;

use crate::catalog::{Schema, SchemaModel, SinkEncode, SinkFormat};
use crate::host::Host;
use crate::text::{decimal, decimal_text};

verus! {

/// A declaration that no formatter can be built from.
#[derive(Debug)]
pub enum Rejection {
    /// Text is the encoding of the value.
    TextValueEncode,
    /// No formatter goes with this format, encoding and key encoding.
    Unsupported { format: SinkFormat, encode: SinkEncode, key_encode: Option<SinkEncode> },
    /// The option `schemas.enable` is neither `true` nor `false`.
    SchemasEnable { value: String },
    /// A text encoder without primary key columns.
    TextKeyMissing,
    /// A text key of a primary key that is not one column.
    TextKeyColumns { count: usize },
    /// A text key of a column that the schema does not have.
    TextKeyOutOfBounds { index: usize, schema: Schema },
    /// A text key of a column whose type is not written as text.
    TextKeyType { column: String, type_text: String },
    /// The option that holds the template is not set.
    TemplateMissing { option_name: String },
}

/// A rejection with its texts and schemas as sequences.
pub enum RejectionModel {
    TextValueEncode,
    Unsupported { format: SinkFormat, encode: SinkEncode, key_encode: Option<SinkEncode> },
    SchemasEnable { value: Seq<char> },
    TextKeyMissing,
    TextKeyColumns { count: nat },
    TextKeyOutOfBounds { index: nat, schema: SchemaModel },
    TextKeyType { column: Seq<char>, type_text: Seq<char> },
    TemplateMissing { option_name: Seq<char> },
}

impl View for Rejection {
    type V = RejectionModel;

    open spec fn view(&self) -> RejectionModel {
        match *self {
            Rejection::TextValueEncode => RejectionModel::TextValueEncode,
            Rejection::Unsupported { format, encode, key_encode } => RejectionModel::Unsupported {
                format,
                encode,
                key_encode,
            },
            Rejection::SchemasEnable { value } => RejectionModel::SchemasEnable { value: value@ },
            Rejection::TextKeyMissing => RejectionModel::TextKeyMissing,
            Rejection::TextKeyColumns { count } => RejectionModel::TextKeyColumns {
                count: count as nat,
            },
            Rejection::TextKeyOutOfBounds { index, schema } => RejectionModel::TextKeyOutOfBounds {
                index: index as nat,
                schema: schema@,
            },
            Rejection::TextKeyType { column, type_text } => RejectionModel::TextKeyType {
                column: column@,
                type_text: type_text@,
            },
            Rejection::TemplateMissing { option_name } => RejectionModel::TemplateMissing {
                option_name: option_name@,
            },
        }
    }
}

/// The name of a format.
pub open spec fn format_name(format: SinkFormat) -> Seq<char> {
    match format {
        SinkFormat::AppendOnly => "AppendOnly"@,
        SinkFormat::Upsert => "Upsert"@,
        SinkFormat::Debezium => "Debezium"@,
    }
}

/// The name of an encoding.
pub open spec fn encode_name(encode: SinkEncode) -> Seq<char> {
    match encode {
        SinkEncode::Json => "Json"@,
        SinkEncode::Protobuf => "Protobuf"@,
        SinkEncode::Avro => "Avro"@,
        SinkEncode::Template => "Template"@,
        SinkEncode::Text => "Text"@,
    }
}

/// The name of a key encoding that may be absent.
pub open spec fn key_encode_name(key_encode: Option<SinkEncode>) -> Seq<char> {
    match key_encode {
        None => "None"@,
        Some(encode) => "Some("@ + encode_name(encode) + ")"@,
    }
}

impl RejectionModel {
    /// The message of a rejection.
    pub open spec fn message(self) -> Seq<char> {
        match self {
            RejectionModel::TextValueEncode => "ENCODE TEXT is only valid as key encode."@,
            RejectionModel::Unsupported { format, encode, key_encode } =>
            "sink format/encode/key_encode unsupported: "@ + format_name(format) + " "@
                + encode_name(encode) + " "@ + key_encode_name(key_encode),
            RejectionModel::SchemasEnable { value } =>
            "schemas.enable is expected to be `true` or `false`, got "@ + value,
            RejectionModel::TextKeyMissing =>
            "TextEncoder requires primary key columns to be specified"@,
            RejectionModel::TextKeyColumns { count } =>
            "The key encode is TEXT, but the primary key has "@ + decimal(count)
                + " columns. The key encode TEXT requires the primary key to be a single column"@,
            RejectionModel::TextKeyOutOfBounds { index, schema } => "The primary key column index "@
                + decimal(index) + " is out of bounds in schema "@ + schema.debug,
            RejectionModel::TextKeyType { column, type_text } =>
            "The key encode is TEXT, but the primary key column "@ + column + " has type "@
                + type_text
                + ". The key encode TEXT requires the primary key column to be of type varchar, bool, small int, int, big int, serial or rw_int256."@,
            RejectionModel::TemplateMissing { option_name } => "Cannot find '"@ + option_name
                + "',please set it or use JSON"@,
        }
    }
}

/// The name of a format.
fn name_of_format(format: SinkFormat) -> (name: &'static str)
    ensures
        name@ == format_name(format),
{
    match format {
        SinkFormat::AppendOnly => "AppendOnly",
        SinkFormat::Upsert => "Upsert",
        SinkFormat::Debezium => "Debezium",
    }
}

/// The name of an encoding.
fn name_of_encode(encode: SinkEncode) -> (name: &'static str)
    ensures
        name@ == encode_name(encode),
{
    match encode {
        SinkEncode::Json => "Json",
        SinkEncode::Protobuf => "Protobuf",
        SinkEncode::Avro => "Avro",
        SinkEncode::Template => "Template",
        SinkEncode::Text => "Text",
    }
}

impl Rejection {
    /// The message that the rejection is reported with.
    pub fn message(&self) -> (message: String)
        ensures
            message@ == self@.message(),
    {
        match self {
            Rejection::TextValueEncode => "ENCODE TEXT is only valid as key encode.".to_owned(),
            Rejection::Unsupported { format, encode, key_encode } => {
                let mut text: String = "sink format/encode/key_encode unsupported: ".to_owned();
                text.append(name_of_format(*format));
                text.append(" ");
                text.append(name_of_encode(*encode));
                text.append(" ");
                match key_encode {
                    None => {
                        text.append("None");
                    },
                    Some(key_encode) => {
                        let mut name: String = "Some(".to_owned();
                        name.append(name_of_encode(*key_encode));
                        name.append(")");
                        text.append(name.as_str());
                    },
                }
                text
            },
            Rejection::SchemasEnable { value } => {
                let mut text: String =
                    "schemas.enable is expected to be `true` or `false`, got ".to_owned();
                text.append(value.as_str());
                text
            },
            Rejection::TextKeyMissing =>
            "TextEncoder requires primary key columns to be specified".to_owned(),
            Rejection::TextKeyColumns { count } => {
                let mut text: String =
                    "The key encode is TEXT, but the primary key has ".to_owned();
                text.append(decimal_text(*count).as_str());
                text.append(
                    " columns. The key encode TEXT requires the primary key to be a single column",
                );
                text
            },
            Rejection::TextKeyOutOfBounds { index, schema } => {
                let mut text: String = "The primary key column index ".to_owned();
                text.append(decimal_text(*index).as_str());
                text.append(" is out of bounds in schema ");
                text.append(schema.debug.as_str());
                text
            },
            Rejection::TextKeyType { column, type_text } => {
                let mut text: String =
                    "The key encode is TEXT, but the primary key column ".to_owned();
                text.append(column.as_str());
                text.append(" has type ");
                text.append(type_text.as_str());
                text.append(
                    ". The key encode TEXT requires the primary key column to be of type varchar, bool, small int, int, big int, serial or rw_int256.",
                );
                text
            },
            Rejection::TemplateMissing { option_name } => {
                let mut text: String = "Cannot find '".to_owned();
                text.append(option_name.as_str());
                text.append("',please set it or use JSON");
                text
            },
        }
    }
}

/// A configuration that cannot be used.
pub enum ConfigError<P: Host> {
    /// The declaration itself is at fault.
    Rejected(Rejection),
    /// A message schema could not be got.
    Fetch(P::FetchError),
}

/// Why a formatter is not built.
pub enum SinkError<P: Host> {
    Config(ConfigError<P>),
    /// What the host reported, as it reported it.
    Host(P::Error),
    /// The host answered another call than the one that was open.
    UnexpectedReply,
}

/// An error with its texts and schemas as sequences.
pub enum ErrorModel<P: Host> {
    Rejected(RejectionModel),
    Fetch(P::FetchError),
    Host(P::Error),
    UnexpectedReply,
}

impl<P: Host> View for SinkError<P> {
    type V = ErrorModel<P>;

    open spec fn view(&self) -> ErrorModel<P> {
        match *self {
            SinkError::Config(ConfigError::Rejected(rejection)) => ErrorModel::Rejected(rejection@),
            SinkError::Config(ConfigError::Fetch(error)) => ErrorModel::Fetch(error),
            SinkError::Host(error) => ErrorModel::Host(error),
            SinkError::UnexpectedReply => ErrorModel::UnexpectedReply,
        }
    }
}

/// The error of a rejected declaration.
pub(crate) fn rejected<P: Host>(rejection: Rejection) -> (error: SinkError<P>)
    ensures
        error@ == ErrorModel::<P>::Rejected(rejection@),
{
    SinkError::Config(ConfigError::Rejected(rejection))
}

/// The error of a message schema that could not be got.
pub(crate) fn not_fetched<P: Host>(error: P::FetchError) -> (wrapped: SinkError<P>)
    ensures
        wrapped@ == ErrorModel::<P>::Fetch(error),
{
    SinkError::Config(ConfigError::Fetch(error))
}

} // verus!
