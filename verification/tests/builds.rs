//! Builds of sink formatters, from the declaration to the formatter.

use sink_formatter::avro_encoder::AvroEncoder;
use sink_formatter::catalog::{DataType, Field, Schema, SinkEncode, SinkFormat, SinkFormatDesc};
use sink_formatter::encoder::{DateHandlingMode, TimeHandlingMode, TimestampHandlingMode};
use sink_formatter::error::{ConfigError, Rejection, SinkError};
use sink_formatter::host::{AvroHeader, Call, Host, Progress, ProtoHeader, Reply};
use sink_formatter::options::Options;
use sink_formatter::proto_encoder::ProtoEncoder;
use sink_formatter::sink::{FormatterPending, SinkFormatterImpl};

struct Plain;

impl Host for Plain {
    type TimestamptzMode = &'static str;
    type JsonbMode = &'static str;
    type Descriptor = &'static str;
    type SchemaId = i32;
    type SchemaLoader = String;
    type AvroSchema = &'static str;
    type ProtoEncoder = String;
    type AvroEncoder = String;
    type FetchError = String;
    type Error = String;
}

type Step<'a> = Progress<'a, Plain, SinkFormatterImpl<Plain>, FormatterPending<'a, Plain>>;

/// Which calls fail, by the names that `name_of` gives them, and whether Protobuf descriptors come
/// with an identifier.
struct World {
    failing: Vec<&'static str>,
    proto_id: Option<i32>,
}

fn healthy() -> World {
    World { failing: Vec::new(), proto_id: Some(7) }
}

fn failing(name: &'static str) -> World {
    World { failing: vec![name], proto_id: Some(7) }
}

fn name_of(call: &Call<'_, Plain>) -> &'static str {
    match call {
        Call::TimestamptzMode { .. } => "timestamptz",
        Call::JsonbMode { .. } => "jsonb",
        Call::FetchDescriptor { .. } => "descriptor",
        Call::NewProtoEncoder { .. } => "proto",
        Call::OpenSchemaLoader { .. } => "open",
        Call::LoadKeySchema { .. } => "load key",
        Call::LoadValSchema { .. } => "load val",
        Call::NewAvroEncoder { pk_indices: Some(_), .. } => "avro key",
        Call::NewAvroEncoder { pk_indices: None, .. } => "avro val",
    }
}

fn columns(schema: &Schema) -> String {
    let names: Vec<&str> = schema.fields().iter().map(|f| f.name.as_str()).collect();
    names.join(",")
}

fn answer(world: &World, call: Call<'_, Plain>) -> Reply<Plain> {
    let name = name_of(&call);
    let fails = world.failing.contains(&name);
    let error = format!("{} failed", name);
    match call {
        Call::TimestamptzMode { .. } => {
            Reply::TimestamptzMode(if fails { Err(error) } else { Ok("utc") })
        }
        Call::JsonbMode { .. } => Reply::JsonbMode(if fails { Err(error) } else { Ok("string") }),
        Call::FetchDescriptor { topic, .. } => {
            assert_eq!(topic, "topic");
            Reply::Descriptor(if fails { Err(error) } else { Ok(("message", world.proto_id)) })
        }
        Call::NewProtoEncoder { schema, descriptor, header } => {
            let header = match header {
                ProtoHeader::Absent => "none".to_string(),
                ProtoHeader::ConfluentSchemaRegistry(id) => id.to_string(),
            };
            Reply::ProtoEncoder(if fails {
                Err(error)
            } else {
                Ok(format!("proto {} {} {}", columns(&schema), descriptor, header))
            })
        }
        Call::OpenSchemaLoader { topic, .. } => {
            Reply::SchemaLoader(if fails { Err(error) } else { Ok(format!("loader of {}", topic)) })
        }
        Call::LoadKeySchema { loader } => {
            assert_eq!(loader, "loader of topic");
            Reply::Schema(if fails { Err(error) } else { Ok((1, "key schema")) })
        }
        Call::LoadValSchema { loader } => {
            assert_eq!(loader, "loader of topic");
            Reply::Schema(if fails { Err(error) } else { Ok((2, "val schema")) })
        }
        Call::NewAvroEncoder { schema, pk_indices, avro, header } => {
            let AvroHeader::ConfluentSchemaRegistry(id) = header;
            Reply::AvroEncoder(if fails {
                Err(error)
            } else {
                Ok(format!("avro {} {:?} {} {}", columns(&schema), pk_indices, avro, id))
            })
        }
    }
}

fn run(
    world: &World,
    mut step: Step<'_>,
) -> (Vec<&'static str>, Result<SinkFormatterImpl<Plain>, SinkError<Plain>>) {
    let mut calls = Vec::new();
    loop {
        match step {
            Progress::Ready(result) => return (calls, result),
            Progress::Waiting(call, pending) => {
                calls.push(name_of(&call));
                step = SinkFormatterImpl::resume(pending, answer(world, call));
            }
        }
    }
}

fn schema() -> Schema {
    Schema {
        fields: vec![
            Field { name: "id".to_string(), data_type: DataType::Int64 },
            Field {
                name: "price".to_string(),
                data_type: DataType::Other("double precision".to_string()),
            },
            Field { name: "label".to_string(), data_type: DataType::Varchar },
        ],
        debug: "id:Int64, price:Float64, label:Varchar".to_string(),
    }
}

fn desc(
    format: SinkFormat,
    encode: SinkEncode,
    key_encode: Option<SinkEncode>,
    pairs: &[(&str, &str)],
) -> SinkFormatDesc {
    let mut options = Options::new();
    for (name, value) in pairs {
        options.insert(name.to_string(), value.to_string());
    }
    SinkFormatDesc { format, encode, options, key_encode }
}

fn start(desc: &SinkFormatDesc, pk_indices: Vec<usize>) -> Step<'_> {
    SinkFormatterImpl::new(
        desc,
        schema(),
        pk_indices,
        "dev".to_string(),
        "orders".to_string(),
        "topic",
    )
}

fn build(
    world: &World,
    desc: &SinkFormatDesc,
    pk_indices: Vec<usize>,
) -> (Vec<&'static str>, Result<SinkFormatterImpl<Plain>, SinkError<Plain>>) {
    run(world, start(desc, pk_indices))
}

fn rejection_of(result: Result<SinkFormatterImpl<Plain>, SinkError<Plain>>) -> Rejection {
    match result {
        Err(SinkError::Config(ConfigError::Rejected(rejection))) => rejection,
        _ => panic!("not rejected"),
    }
}

fn host_error_of(result: Result<SinkFormatterImpl<Plain>, SinkError<Plain>>) -> String {
    match result {
        Err(SinkError::Host(error)) => error,
        _ => panic!("not an error of the host"),
    }
}

fn fetch_error_of(result: Result<SinkFormatterImpl<Plain>, SinkError<Plain>>) -> String {
    match result {
        Err(SinkError::Config(ConfigError::Fetch(error))) => error,
        _ => panic!("not a fetch error"),
    }
}

const TEMPLATES: [(&str, &str); 2] = [("key_format", "k:{id}"), ("value_format", "v:{price}")];

const ENCODES: [SinkEncode; 5] = [
    SinkEncode::Json,
    SinkEncode::Protobuf,
    SinkEncode::Avro,
    SinkEncode::Template,
    SinkEncode::Text,
];

const FORMATS: [SinkFormat; 3] = [SinkFormat::AppendOnly, SinkFormat::Upsert, SinkFormat::Debezium];

fn all_key_encodes() -> Vec<Option<SinkEncode>> {
    let mut all = vec![None];
    for encode in ENCODES {
        all.push(Some(encode));
    }
    all
}

fn variant(formatter: &SinkFormatterImpl<Plain>) -> &'static str {
    match formatter {
        SinkFormatterImpl::AppendOnlyJson(_) => "AppendOnlyJson",
        SinkFormatterImpl::AppendOnlyTextJson(_) => "AppendOnlyTextJson",
        SinkFormatterImpl::AppendOnlyAvro(_) => "AppendOnlyAvro",
        SinkFormatterImpl::AppendOnlyTextAvro(_) => "AppendOnlyTextAvro",
        SinkFormatterImpl::AppendOnlyProto(_) => "AppendOnlyProto",
        SinkFormatterImpl::AppendOnlyTextProto(_) => "AppendOnlyTextProto",
        SinkFormatterImpl::AppendOnlyTemplate(_) => "AppendOnlyTemplate",
        SinkFormatterImpl::AppendOnlyTextTemplate(_) => "AppendOnlyTextTemplate",
        SinkFormatterImpl::UpsertJson(_) => "UpsertJson",
        SinkFormatterImpl::UpsertTextJson(_) => "UpsertTextJson",
        SinkFormatterImpl::UpsertAvro(_) => "UpsertAvro",
        SinkFormatterImpl::UpsertTextAvro(_) => "UpsertTextAvro",
        SinkFormatterImpl::UpsertProto(_) => "UpsertProto",
        SinkFormatterImpl::UpsertTextProto(_) => "UpsertTextProto",
        SinkFormatterImpl::UpsertTemplate(_) => "UpsertTemplate",
        SinkFormatterImpl::UpsertTextTemplate(_) => "UpsertTextTemplate",
        SinkFormatterImpl::DebeziumJson(_) => "DebeziumJson",
    }
}

#[test]
fn every_supported_declaration_has_its_variant() {
    let text = Some(SinkEncode::Text);
    let expected = [
        (SinkFormat::AppendOnly, SinkEncode::Json, None, "AppendOnlyJson"),
        (SinkFormat::AppendOnly, SinkEncode::Json, text, "AppendOnlyTextJson"),
        (SinkFormat::AppendOnly, SinkEncode::Avro, None, "AppendOnlyAvro"),
        (SinkFormat::AppendOnly, SinkEncode::Avro, text, "AppendOnlyTextAvro"),
        (SinkFormat::AppendOnly, SinkEncode::Protobuf, None, "AppendOnlyProto"),
        (SinkFormat::AppendOnly, SinkEncode::Protobuf, text, "AppendOnlyTextProto"),
        (SinkFormat::AppendOnly, SinkEncode::Template, None, "AppendOnlyTemplate"),
        (SinkFormat::AppendOnly, SinkEncode::Template, text, "AppendOnlyTextTemplate"),
        (SinkFormat::Upsert, SinkEncode::Json, None, "UpsertJson"),
        (SinkFormat::Upsert, SinkEncode::Json, text, "UpsertTextJson"),
        (SinkFormat::Upsert, SinkEncode::Avro, None, "UpsertAvro"),
        (SinkFormat::Upsert, SinkEncode::Avro, text, "UpsertTextAvro"),
        (SinkFormat::Upsert, SinkEncode::Protobuf, None, "UpsertProto"),
        (SinkFormat::Upsert, SinkEncode::Protobuf, text, "UpsertTextProto"),
        (SinkFormat::Upsert, SinkEncode::Template, None, "UpsertTemplate"),
        (SinkFormat::Upsert, SinkEncode::Template, text, "UpsertTextTemplate"),
        (SinkFormat::Debezium, SinkEncode::Json, None, "DebeziumJson"),
    ];
    for (format, encode, key_encode, name) in expected {
        let desc = desc(format, encode, key_encode, &TEMPLATES);
        let (_, result) = build(&healthy(), &desc, vec![0]);
        match result {
            Ok(formatter) => assert_eq!(variant(&formatter), name),
            Err(_) => panic!("{} was not built", name),
        }
    }
}

#[test]
fn seventeen_declarations_are_supported_and_all_others_rejected_without_calls() {
    let mut supported = 0;
    let mut variants: Vec<&'static str> = Vec::new();
    for format in FORMATS {
        for encode in ENCODES {
            for key_encode in all_key_encodes() {
                let desc = desc(format, encode, key_encode, &TEMPLATES);
                let (calls, result) = build(&healthy(), &desc, vec![0]);
                match result {
                    Ok(formatter) => {
                        supported += 1;
                        let name = variant(&formatter);
                        assert!(!variants.contains(&name));
                        variants.push(name);
                    }
                    Err(_) => {
                        assert!(calls.is_empty());
                        let rejection = rejection_of(result);
                        if encode == SinkEncode::Text && format != SinkFormat::Debezium {
                            assert!(matches!(rejection, Rejection::TextValueEncode));
                        } else {
                            assert!(matches!(
                                rejection,
                                Rejection::Unsupported { format: f, encode: e, key_encode: k }
                                    if f == format && e == encode && k == key_encode
                            ));
                        }
                    }
                }
            }
        }
    }
    assert_eq!(supported, 17);
}

#[test]
fn text_values_are_rejected_with_a_message() {
    let desc = desc(SinkFormat::Upsert, SinkEncode::Text, Some(SinkEncode::Json), &[]);
    let (_, result) = build(&healthy(), &desc, vec![0]);
    assert_eq!(rejection_of(result).message(), "ENCODE TEXT is only valid as key encode.");
}

#[test]
fn unsupported_combinations_are_named() {
    let debezium = desc(SinkFormat::Debezium, SinkEncode::Text, None, &[]);
    let (_, result) = build(&healthy(), &debezium, vec![0]);
    assert_eq!(
        rejection_of(result).message(),
        "sink format/encode/key_encode unsupported: Debezium Text None"
    );
    let avro_key =
        desc(SinkFormat::AppendOnly, SinkEncode::Protobuf, Some(SinkEncode::Avro), &[]);
    let (_, result) = build(&healthy(), &avro_key, vec![0]);
    assert_eq!(
        rejection_of(result).message(),
        "sink format/encode/key_encode unsupported: AppendOnly Protobuf Some(Avro)"
    );
}

#[test]
fn debezium_takes_everything_as_declared() {
    let desc = desc(SinkFormat::Debezium, SinkEncode::Json, None, &[]);
    let (calls, result) = build(&healthy(), &desc, vec![2, 0]);
    assert!(calls.is_empty());
    match result {
        Ok(SinkFormatterImpl::DebeziumJson(formatter)) => {
            assert_eq!(columns(&formatter.schema), "id,price,label");
            assert_eq!(formatter.pk_indices, vec![2, 0]);
            assert_eq!(formatter.db_name, "dev");
            assert_eq!(formatter.sink_from_name, "orders");
        }
        _ => panic!("not Debezium"),
    }
}

#[test]
fn json_encoders_of_key_and_value() {
    let desc = desc(SinkFormat::Upsert, SinkEncode::Json, None, &[]);
    let (calls, result) = build(&healthy(), &desc, vec![0, 2]);
    assert_eq!(calls, vec!["timestamptz", "jsonb", "timestamptz", "jsonb"]);
    match result {
        Ok(SinkFormatterImpl::UpsertJson(formatter)) => {
            let key = formatter.key_encoder;
            assert_eq!(columns(&key.schema), "id,price,label");
            assert_eq!(key.pk_indices, Some(vec![0, 2]));
            assert_eq!(key.date_handling_mode, DateHandlingMode::FromCe);
            assert_eq!(key.timestamp_handling_mode, TimestampHandlingMode::Milli);
            assert_eq!(key.timestamptz_handling_mode, "utc");
            assert_eq!(key.time_handling_mode, TimeHandlingMode::Milli);
            assert_eq!(key.jsonb_handling_mode, "string");
            assert!(key.kafka_connect.is_none());
            let val = formatter.val_encoder;
            assert_eq!(columns(&val.schema), "id,price,label");
            assert_eq!(val.pk_indices, None);
            assert!(val.kafka_connect.is_none());
        }
        _ => panic!("not upsert JSON"),
    }
}

fn kafka_schema_name(value: &str) -> Option<String> {
    let desc = desc(SinkFormat::AppendOnly, SinkEncode::Json, None, &[("schemas.enable", value)]);
    let (_, result) = build(&healthy(), &desc, vec![]);
    match result {
        Ok(SinkFormatterImpl::AppendOnlyJson(formatter)) => {
            formatter.val_encoder.kafka_connect.map(|params| params.schema_name)
        }
        _ => panic!("not append-only JSON"),
    }
}

#[test]
fn schemas_enable_in_any_case() {
    for value in ["true", "TRUE", "True", "tRuE"] {
        assert_eq!(kafka_schema_name(value), Some("dev.orders".to_string()));
    }
    for value in ["false", "FALSE", "False"] {
        assert_eq!(kafka_schema_name(value), None);
    }
}

#[test]
fn schemas_enable_must_be_a_truth_value() {
    for value in ["", "yes", "1", " true", "TRUE ", "\u{212a}true", "\u{c9}"] {
        let desc =
            desc(SinkFormat::AppendOnly, SinkEncode::Json, None, &[("schemas.enable", value)]);
        let (calls, result) = build(&healthy(), &desc, vec![]);
        assert_eq!(calls, vec!["timestamptz", "jsonb"]);
        assert_eq!(
            rejection_of(result).message(),
            format!("schemas.enable is expected to be `true` or `false`, got {}", value)
        );
    }
}

#[test]
fn schemas_enable_counts_for_the_key_too() {
    let desc = desc(SinkFormat::Upsert, SinkEncode::Json, None, &[("schemas.enable", "maybe")]);
    let (calls, result) = build(&healthy(), &desc, vec![0]);
    assert_eq!(calls, vec!["timestamptz", "jsonb"]);
    assert!(matches!(
        rejection_of(result),
        Rejection::SchemasEnable { value } if value == "maybe"
    ));
}

#[test]
fn modes_that_cannot_be_read() {
    let desc = desc(SinkFormat::AppendOnly, SinkEncode::Json, None, &[("schemas.enable", "?")]);
    let (calls, result) = build(&failing("timestamptz"), &desc, vec![]);
    assert_eq!(calls, vec!["timestamptz"]);
    assert_eq!(host_error_of(result), "timestamptz failed");
    let (calls, result) = build(&failing("jsonb"), &desc, vec![]);
    assert_eq!(calls, vec!["timestamptz", "jsonb"]);
    assert_eq!(host_error_of(result), "jsonb failed");
}

#[test]
fn append_only_has_a_key_where_there_is_a_primary_key() {
    let desc = desc(SinkFormat::AppendOnly, SinkEncode::Json, Some(SinkEncode::Text), &[]);
    let (calls, result) = build(&healthy(), &desc, vec![]);
    assert_eq!(calls, vec!["timestamptz", "jsonb"]);
    match result {
        Ok(SinkFormatterImpl::AppendOnlyTextJson(formatter)) => {
            assert!(formatter.key_encoder.is_none())
        }
        _ => panic!("not append-only"),
    }
    let (_, result) = build(&healthy(), &desc, vec![2]);
    match result {
        Ok(SinkFormatterImpl::AppendOnlyTextJson(formatter)) => {
            let key = formatter.key_encoder.unwrap();
            assert_eq!(key.pk_index, 2);
            assert_eq!(columns(&key.schema), "id,price,label");
        }
        _ => panic!("not append-only"),
    }
}

#[test]
fn text_keys_have_one_column() {
    let upsert = desc(SinkFormat::Upsert, SinkEncode::Avro, Some(SinkEncode::Text), &[]);
    let (calls, result) = build(&healthy(), &upsert, vec![]);
    assert!(calls.is_empty());
    assert_eq!(
        rejection_of(result).message(),
        "The key encode is TEXT, but the primary key has 0 columns. The key encode TEXT requires the primary key to be a single column"
    );
    let (calls, result) = build(&healthy(), &upsert, vec![0, 1, 2, 0, 1, 2, 0, 1, 2, 0, 1, 2]);
    assert!(calls.is_empty());
    assert_eq!(
        rejection_of(result).message(),
        "The key encode is TEXT, but the primary key has 12 columns. The key encode TEXT requires the primary key to be a single column"
    );
}

#[test]
fn text_keys_are_columns_of_the_schema() {
    let upsert = desc(SinkFormat::Upsert, SinkEncode::Json, Some(SinkEncode::Text), &[]);
    let (calls, result) = build(&healthy(), &upsert, vec![3]);
    assert!(calls.is_empty());
    assert_eq!(
        rejection_of(result).message(),
        "The primary key column index 3 is out of bounds in schema id:Int64, price:Float64, label:Varchar"
    );
}

#[test]
fn text_keys_are_of_types_written_as_text() {
    let upsert = desc(SinkFormat::Upsert, SinkEncode::Json, Some(SinkEncode::Text), &[]);
    let (calls, result) = build(&healthy(), &upsert, vec![1]);
    assert!(calls.is_empty());
    assert_eq!(
        rejection_of(result).message(),
        "The key encode is TEXT, but the primary key column price has type double precision. The key encode TEXT requires the primary key column to be of type varchar, bool, small int, int, big int, serial or rw_int256."
    );
    for data_type in [
        DataType::Varchar,
        DataType::Boolean,
        DataType::Int16,
        DataType::Int32,
        DataType::Int64,
        DataType::Int256,
        DataType::Serial,
    ] {
        let schema = Schema {
            fields: vec![Field { name: "k".to_string(), data_type }],
            debug: String::new(),
        };
        let step: Step<'_> = SinkFormatterImpl::new(
            &upsert,
            schema,
            vec![0],
            "dev".to_string(),
            "orders".to_string(),
            "topic",
        );
        assert!(run(&healthy(), step).1.is_ok());
    }
}

#[test]
fn templates_come_from_their_options() {
    let both = desc(SinkFormat::Upsert, SinkEncode::Template, None, &TEMPLATES);
    let (calls, result) = build(&healthy(), &both, vec![0]);
    assert!(calls.is_empty());
    match result {
        Ok(SinkFormatterImpl::UpsertTemplate(formatter)) => {
            assert_eq!(formatter.key_encoder.template, "k:{id}");
            assert_eq!(formatter.key_encoder.pk_indices, Some(vec![0]));
            assert_eq!(formatter.val_encoder.template, "v:{price}");
            assert_eq!(formatter.val_encoder.pk_indices, None);
        }
        _ => panic!("not upsert template"),
    }
    let no_key = desc(SinkFormat::Upsert, SinkEncode::Template, None, &[("value_format", "v")]);
    let (_, result) = build(&healthy(), &no_key, vec![0]);
    assert_eq!(
        rejection_of(result).message(),
        "Cannot find 'key_format',please set it or use JSON"
    );
    let no_val = desc(SinkFormat::Upsert, SinkEncode::Template, None, &[("key_format", "k")]);
    let (_, result) = build(&healthy(), &no_val, vec![0]);
    assert_eq!(
        rejection_of(result).message(),
        "Cannot find 'value_format',please set it or use JSON"
    );
}

#[test]
fn protobuf_values_with_json_keys() {
    let desc = desc(SinkFormat::AppendOnly, SinkEncode::Protobuf, None, &[]);
    let (calls, result) = build(&healthy(), &desc, vec![0]);
    assert_eq!(calls, vec!["timestamptz", "jsonb", "descriptor", "proto"]);
    match result {
        Ok(SinkFormatterImpl::AppendOnlyProto(formatter)) => {
            assert_eq!(formatter.key_encoder.unwrap().pk_indices, Some(vec![0]));
            let ProtoEncoder { inner } = formatter.val_encoder;
            assert_eq!(inner, "proto id,price,label message 7");
        }
        _ => panic!("not append-only Protobuf"),
    }
    let without_id = World { failing: Vec::new(), proto_id: None };
    let (_, result) = build(&without_id, &desc, vec![0]);
    match result {
        Ok(SinkFormatterImpl::AppendOnlyProto(formatter)) => {
            assert_eq!(formatter.val_encoder.inner, "proto id,price,label message none");
        }
        _ => panic!("not append-only Protobuf"),
    }
}

#[test]
fn protobuf_errors() {
    let desc = desc(SinkFormat::Upsert, SinkEncode::Protobuf, Some(SinkEncode::Text), &[]);
    let (calls, result) = build(&failing("descriptor"), &desc, vec![0]);
    assert_eq!(calls, vec!["descriptor"]);
    assert_eq!(fetch_error_of(result), "descriptor failed");
    let (calls, result) = build(&failing("proto"), &desc, vec![0]);
    assert_eq!(calls, vec!["descriptor", "proto"]);
    assert_eq!(host_error_of(result), "proto failed");
}

#[test]
fn avro_keys_and_values() {
    let desc = desc(SinkFormat::Upsert, SinkEncode::Avro, None, &[]);
    let (calls, result) = build(&healthy(), &desc, vec![2]);
    assert_eq!(calls, vec!["open", "load key", "avro key", "open", "load val", "avro val"]);
    match result {
        Ok(SinkFormatterImpl::UpsertAvro(formatter)) => {
            let AvroEncoder { inner } = formatter.key_encoder;
            assert_eq!(inner, "avro id,price,label Some([2]) key schema 1");
            assert_eq!(
                formatter.val_encoder.inner,
                "avro id,price,label None val schema 2"
            );
        }
        _ => panic!("not upsert Avro"),
    }
}

#[test]
fn nothing_is_asked_after_the_first_error() {
    let desc = desc(SinkFormat::Upsert, SinkEncode::Avro, None, &[]);
    let (calls, result) = build(&failing("open"), &desc, vec![0]);
    assert_eq!(calls, vec!["open"]);
    assert_eq!(fetch_error_of(result), "open failed");
    let (calls, result) = build(&failing("load key"), &desc, vec![0]);
    assert_eq!(calls, vec!["open", "load key"]);
    assert_eq!(fetch_error_of(result), "load key failed");
    let (calls, result) = build(&failing("avro key"), &desc, vec![0]);
    assert_eq!(calls, vec!["open", "load key", "avro key"]);
    assert_eq!(host_error_of(result), "avro key failed");
    let (calls, result) = build(&failing("load val"), &desc, vec![0]);
    assert_eq!(calls, vec!["open", "load key", "avro key", "open", "load val"]);
    assert_eq!(fetch_error_of(result), "load val failed");
    let (calls, result) = build(&failing("avro val"), &desc, vec![0]);
    assert_eq!(calls, vec!["open", "load key", "avro key", "open", "load val", "avro val"]);
    assert_eq!(host_error_of(result), "avro val failed");
}

#[test]
fn the_same_call_may_be_answered_differently_the_second_time() {
    let desc = desc(SinkFormat::Upsert, SinkEncode::Avro, None, &[]);
    let mut step = start(&desc, vec![0]);
    let mut calls = Vec::new();
    let result = loop {
        match step {
            Progress::Ready(result) => break result,
            Progress::Waiting(call, pending) => {
                let name = name_of(&call);
                let again = calls.contains(&name);
                calls.push(name);
                let world = if again { failing("open") } else { healthy() };
                step = SinkFormatterImpl::resume(pending, answer(&world, call));
            }
        }
    };
    assert_eq!(calls, vec!["open", "load key", "avro key", "open"]);
    assert_eq!(fetch_error_of(result), "open failed");
}

#[test]
fn replies_to_other_calls_end_the_build() {
    let desc = desc(SinkFormat::Upsert, SinkEncode::Avro, None, &[]);
    match start(&desc, vec![0]) {
        Progress::Waiting(Call::OpenSchemaLoader { topic, .. }, pending) => {
            assert_eq!(topic, "topic");
            let step = SinkFormatterImpl::resume(pending, Reply::JsonbMode(Ok("string")));
            assert!(matches!(step, Progress::Ready(Err(SinkError::UnexpectedReply))));
        }
        _ => panic!("no loader was asked for"),
    }
}

#[test]
fn keys_are_text_except_avro_keys() {
    for format in FORMATS {
        for encode in ENCODES {
            for key_encode in all_key_encodes() {
                let desc = desc(format, encode, key_encode, &TEMPLATES);
                if let (_, Ok(formatter)) = build(&healthy(), &desc, vec![0]) {
                    let avro_key = encode == SinkEncode::Avro && key_encode.is_none();
                    assert_eq!(formatter.has_str_key(), !avro_key);
                }
            }
        }
    }
}

#[test]
fn calls_carry_the_options_of_the_declaration() {
    let desc =
        desc(SinkFormat::AppendOnly, SinkEncode::Json, None, &[("timestamptz.handling", "x")]);
    match start(&desc, vec![]) {
        Progress::Waiting(Call::TimestamptzMode { options }, pending) => {
            assert_eq!(options.get("timestamptz.handling"), Some(&"x".to_string()));
            match SinkFormatterImpl::resume(pending, Reply::TimestamptzMode(Ok("utc"))) {
                Progress::Waiting(Call::JsonbMode { options }, _) => {
                    assert_eq!(options.get("timestamptz.handling"), Some(&"x".to_string()));
                }
                _ => panic!("no mode was asked for"),
            }
        }
        _ => panic!("no mode was asked for"),
    }
}
