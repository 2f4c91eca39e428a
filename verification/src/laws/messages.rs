//! What is said of a declaration that is rejected, and how its parts are written.

use vstd::prelude::*;

use crate::catalog::{SchemaModel, SinkEncode, SinkFormat};
use crate::encoder::kafka_schema_name_for;
use crate::error::{encode_name, format_name, key_encode_name, RejectionModel};
use crate::json_encoder::{schema_name_view, KafkaConnectParams};
use crate::text::{bool_spelled, decimal};

verus! {

/// The number that decimal digits stand for.
pub open spec fn numeral(digits: Seq<char>) -> int
    decreases digits.len(),
{
    if digits.len() == 0 {
        0
    } else {
        10 * numeral(digits.drop_last()) + (digits.last() as int - 48)
    }
}

/// A number in decimal reads back as that number. It is made of digits, and does not start with a
/// zero unless it is zero.
pub proof fn law_decimals(n: nat)
    ensures
        numeral(decimal(n)) == n,
        decimal(n).len() >= 1,
        forall|i: int| 0 <= i < decimal(n).len() ==> 48 <= #[trigger] decimal(n)[i] as int <= 57,
        decimal(n)[0] as int == 48 <==> n == 0,
    decreases n,
{
    reveal_with_fuel(numeral, 2);
    if n < 10 {
        assert(decimal(n).drop_last() =~= Seq::<char>::empty());
    } else {
        law_decimals(n / 10);
        assert(decimal(n).drop_last() =~= decimal(n / 10));
        assert(decimal(n)[0] == decimal(n / 10)[0]);
    }
}

/// Two different numbers are not written alike.
pub proof fn law_decimals_are_told_apart(m: nat, n: nat)
    requires
        decimal(m) == decimal(n),
    ensures
        m == n,
{
    law_decimals(m);
    law_decimals(n);
}

/// A truth value is spelled `true` or `false`, and nothing else spells one.
pub proof fn law_truth_values(s: Seq<char>)
    ensures
        bool_spelled(s) == Some(true) <==> s == "true"@,
        bool_spelled(s) == Some(false) <==> s == "false"@,
{
    reveal_strlit("true");
    reveal_strlit("false");
    assert("true"@.len() != "false"@.len());
}

/// The lower case of `schemas.enable` decides on the schema name; its value is only reported.
pub proof fn law_lower_case_decides(
    value: Seq<char>,
    lowered: Seq<char>,
    db_name: Seq<char>,
    sink_from_name: Seq<char>,
)
    ensures
        ({
            let name = kafka_schema_name_for(value, lowered, db_name, sink_from_name);
            &&& lowered == "true"@ ==> name == Ok::<Option<Seq<char>>, RejectionModel>(
                Some(db_name + "."@ + sink_from_name),
            )
            &&& lowered == "false"@ ==> name == Ok::<Option<Seq<char>>, RejectionModel>(None)
            &&& lowered != "true"@ && lowered != "false"@ ==> name == Err::<
                Option<Seq<char>>,
                RejectionModel,
            >(RejectionModel::SchemasEnable { value })
        }),
{
    law_truth_values(lowered);
}

/// The schema name in Kafka Connect parameters is the one that they hold.
pub proof fn law_schema_names(kafka_connect: Option<KafkaConnectParams>)
    ensures
        schema_name_view(kafka_connect) is Some <==> kafka_connect is Some,
        kafka_connect matches Some(params) ==> schema_name_view(kafka_connect) == Some(
            params.schema_name@,
        ),
{
}

/// The names of formats and encodings.
pub proof fn law_names()
    ensures
        format_name(SinkFormat::AppendOnly) == "AppendOnly"@,
        format_name(SinkFormat::Upsert) == "Upsert"@,
        format_name(SinkFormat::Debezium) == "Debezium"@,
        encode_name(SinkEncode::Json) == "Json"@,
        encode_name(SinkEncode::Protobuf) == "Protobuf"@,
        encode_name(SinkEncode::Avro) == "Avro"@,
        encode_name(SinkEncode::Template) == "Template"@,
        encode_name(SinkEncode::Text) == "Text"@,
        key_encode_name(None) == "None"@,
        forall|encode: SinkEncode| #[trigger]
            key_encode_name(Some(encode)) == "Some("@ + encode_name(encode) + ")"@,
{
}

/// The message of a declaration that is not supported names its format, its encoding and its key
/// encoding, in this order; text values are told what text is for.
pub proof fn law_messages_of_declarations(
    format: SinkFormat,
    encode: SinkEncode,
    key_encode: Option<SinkEncode>,
)
    ensures
        (RejectionModel::Unsupported { format, encode, key_encode }).message()
            == "sink format/encode/key_encode unsupported: "@ + format_name(format) + " "@
            + encode_name(encode) + " "@ + key_encode_name(key_encode),
        RejectionModel::TextValueEncode.message() == "ENCODE TEXT is only valid as key encode."@,
{
}

/// The message of an option names the value that cannot be read, or the option that is not set.
pub proof fn law_messages_of_options(value: Seq<char>, option_name: Seq<char>)
    ensures
        (RejectionModel::SchemasEnable { value }).message()
            == "schemas.enable is expected to be `true` or `false`, got "@ + value,
        (RejectionModel::TemplateMissing { option_name }).message() == "Cannot find '"@
            + option_name + "',please set it or use JSON"@,
{
}

/// The message of a text key says what is wrong with it: the number of its columns, the position
/// that the schema does not have, or the column with its type.
pub proof fn law_messages_of_text_keys(
    count: nat,
    index: nat,
    schema: SchemaModel,
    column: Seq<char>,
    type_text: Seq<char>,
)
    ensures
        RejectionModel::TextKeyMissing.message()
            == "TextEncoder requires primary key columns to be specified"@,
        (RejectionModel::TextKeyColumns { count }).message()
            == "The key encode is TEXT, but the primary key has "@ + decimal(count)
            + " columns. The key encode TEXT requires the primary key to be a single column"@,
        (RejectionModel::TextKeyOutOfBounds { index, schema }).message()
            == "The primary key column index "@ + decimal(index) + " is out of bounds in schema "@
            + schema.debug,
        (RejectionModel::TextKeyType { column, type_text }).message()
            == "The key encode is TEXT, but the primary key column "@ + column + " has type "@
            + type_text
            + ". The key encode TEXT requires the primary key column to be of type varchar, bool, small int, int, big int, serial or rw_int256."@,
{
}

} // verus!
