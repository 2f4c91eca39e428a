//! The parts that builds are made of.

use sink_formatter::catalog::{DataType, Field, Schema, SinkEncode, SinkFormat, SinkFormatDesc};
use sink_formatter::encoder::{EncoderBuild, EncoderParams};
use sink_formatter::error::{ConfigError, Rejection, SinkError};
use sink_formatter::formatter::{
    AppendOnlyFormatter, FormatterBuild, FormatterParams, UpsertFormatter,
};
use sink_formatter::host::{Call, Host, Progress, Reply};
use sink_formatter::json_encoder::{kafka_connect_for, JsonEncoder};
use sink_formatter::options::Options;
use sink_formatter::proto_encoder::ProtoEncoder;
use sink_formatter::template_encoder::TemplateEncoder;
use sink_formatter::text::{decimal_text, parse_bool};
use sink_formatter::text_encoder::TextEncoder;

struct Plain;

impl Host for Plain {
    type TimestamptzMode = u8;
    type JsonbMode = u8;
    type Descriptor = u8;
    type SchemaId = i32;
    type SchemaLoader = u8;
    type AvroSchema = u8;
    type ProtoEncoder = u8;
    type AvroEncoder = u8;
    type FetchError = u8;
    type Error = u8;
}

fn template_desc() -> SinkFormatDesc {
    let mut options = Options::new();
    options.insert("key_format".to_string(), "k".to_string());
    options.insert("value_format".to_string(), "v".to_string());
    SinkFormatDesc {
        format: SinkFormat::AppendOnly,
        encode: SinkEncode::Template,
        options,
        key_encode: None,
    }
}

fn params(desc: &SinkFormatDesc) -> EncoderParams<'_> {
    EncoderParams {
        format_desc: desc,
        schema: Schema {
            fields: vec![Field { name: "id".to_string(), data_type: DataType::Serial }],
            debug: "id:Serial".to_string(),
        },
        db_name: "dev".to_string(),
        sink_from_name: "orders".to_string(),
        topic: "topic",
    }
}

#[test]
fn options_keep_the_last_value_of_a_name() {
    let mut options = Options::new();
    assert_eq!(options.get("a"), None);
    options.insert("a".to_string(), "1".to_string());
    options.insert("b".to_string(), "2".to_string());
    assert_eq!(options.get("a"), Some(&"1".to_string()));
    options.insert("a".to_string(), "3".to_string());
    assert_eq!(options.get("a"), Some(&"3".to_string()));
    assert_eq!(options.get("b"), Some(&"2".to_string()));
    assert_eq!(options.get("A"), None);
    assert_eq!(options.get(""), None);
    assert_eq!(
        options.entries().to_vec(),
        vec![("a".to_string(), "3".to_string()), ("b".to_string(), "2".to_string())]
    );
}

#[test]
fn decimals() {
    assert_eq!(decimal_text(0), "0");
    assert_eq!(decimal_text(9), "9");
    assert_eq!(decimal_text(10), "10");
    assert_eq!(decimal_text(1234567890), "1234567890");
    assert_eq!(decimal_text(usize::MAX), usize::MAX.to_string());
}

#[test]
fn truth_values() {
    assert_eq!(parse_bool(&"true".to_string()), Some(true));
    assert_eq!(parse_bool(&"false".to_string()), Some(false));
    assert_eq!(parse_bool(&"True".to_string()), None);
    assert_eq!(parse_bool(&"".to_string()), None);
}

#[test]
fn schemas_are_cloned_whole() {
    let schema = Schema {
        fields: vec![
            Field { name: "id".to_string(), data_type: DataType::Int16 },
            Field { name: "x".to_string(), data_type: DataType::Other("jsonb".to_string()) },
        ],
        debug: "id, x".to_string(),
    };
    let copy = schema.clone();
    assert_eq!(copy.fields().len(), 2);
    assert_eq!(copy.fields()[0].name, "id");
    assert!(matches!(copy.fields()[0].data_type, DataType::Int16));
    assert_eq!(copy.fields()[1].name, "x");
    assert!(matches!(&copy.fields()[1].data_type, DataType::Other(text) if text == "jsonb"));
    assert_eq!(copy.debug, "id, x");
}

#[test]
fn kafka_connect_goes_by_the_lower_case() {
    let value = "TRUE".to_string();
    let db_name = "dev".to_string();
    let sink_from_name = "orders".to_string();
    let enabled = kafka_connect_for(&value, &"true".to_string(), &db_name, &sink_from_name);
    match enabled {
        Ok(Some(params)) => assert_eq!(params.schema_name, "dev.orders"),
        _ => panic!("not enabled"),
    }
    let disabled = kafka_connect_for(&value, &"false".to_string(), &db_name, &sink_from_name);
    assert!(matches!(disabled, Ok(None)));
    let neither = kafka_connect_for(&value, &"TRUE".to_string(), &db_name, &sink_from_name);
    match neither {
        Err(Rejection::SchemasEnable { value }) => assert_eq!(value, "TRUE"),
        _ => panic!("not rejected"),
    }
}

#[test]
fn text_encoders_are_for_keys() {
    let desc = template_desc();
    let step: Progress<'_, Plain, TextEncoder, _> = TextEncoder::build(params(&desc), None);
    match step {
        Progress::Ready(Err(SinkError::Config(ConfigError::Rejected(rejection)))) => assert_eq!(
            rejection.message(),
            "TextEncoder requires primary key columns to be specified"
        ),
        _ => panic!("not rejected"),
    }
    let step: Progress<'_, Plain, TextEncoder, _> =
        TextEncoder::build(params(&desc), Some(vec![0]));
    match step {
        Progress::Ready(Ok(encoder)) => assert_eq!(encoder.pk_index, 0),
        _ => panic!("not built"),
    }
}

#[test]
fn formatters_are_built_by_themselves() {
    let desc = template_desc();
    let b = FormatterParams { builder: params(&desc), pk_indices: vec![0] };
    let step: Progress<'_, Plain, AppendOnlyFormatter<TextEncoder, TemplateEncoder>, _> =
        AppendOnlyFormatter::build(b);
    match step {
        Progress::Ready(Ok(formatter)) => {
            assert_eq!(formatter.key_encoder.unwrap().pk_index, 0);
            assert_eq!(formatter.val_encoder.template, "v");
        }
        _ => panic!("not built"),
    }
}

#[test]
fn the_kind_of_key_does_not_matter_without_a_primary_key() {
    let desc = template_desc();
    let b = FormatterParams { builder: params(&desc), pk_indices: vec![] };
    let step: Progress<'_, Plain, AppendOnlyFormatter<ProtoEncoder<Plain>, TemplateEncoder>, _> =
        AppendOnlyFormatter::build(b);
    match step {
        Progress::Ready(Ok(formatter)) => {
            assert!(formatter.key_encoder.is_none());
            assert_eq!(formatter.val_encoder.template, "v");
        }
        _ => panic!("not built"),
    }
}

#[test]
fn encoders_that_are_built_at_once_take_no_reply() {
    let step: Progress<'_, Plain, TextEncoder, _> = TextEncoder::resume(
        sink_formatter::encoder::Settled,
        Reply::JsonbMode(Ok(1)),
    );
    assert!(matches!(step, Progress::Ready(Err(SinkError::UnexpectedReply))));
}

#[test]
fn formatters_take_encoders_that_no_declaration_pairs() {
    let desc = template_desc();
    let b = FormatterParams { builder: params(&desc), pk_indices: vec![0] };
    let step: Progress<'_, Plain, UpsertFormatter<JsonEncoder<Plain>, TemplateEncoder>, _> =
        UpsertFormatter::build(b);
    let Progress::Waiting(Call::TimestamptzMode { .. }, pending) = step else {
        panic!("no first call for the key");
    };
    let step: Progress<'_, Plain, UpsertFormatter<JsonEncoder<Plain>, TemplateEncoder>, _> =
        UpsertFormatter::resume(pending, Reply::TimestamptzMode(Ok(7)));
    let Progress::Waiting(Call::JsonbMode { .. }, pending) = step else {
        panic!("no second call for the key");
    };
    let step: Progress<'_, Plain, UpsertFormatter<JsonEncoder<Plain>, TemplateEncoder>, _> =
        UpsertFormatter::resume(pending, Reply::JsonbMode(Ok(8)));
    let Progress::Ready(Ok(formatter)) = step else {
        panic!("not built");
    };
    assert_eq!(formatter.key_encoder.timestamptz_handling_mode, 7);
    assert_eq!(formatter.key_encoder.jsonb_handling_mode, 8);
    assert_eq!(formatter.key_encoder.pk_indices, Some(vec![0]));
    assert_eq!(formatter.val_encoder.template, "v");
}

#[test]
fn key_errors_end_the_build_of_any_pair() {
    let desc = template_desc();
    let b = FormatterParams { builder: params(&desc), pk_indices: vec![0] };
    let step: Progress<'_, Plain, AppendOnlyFormatter<JsonEncoder<Plain>, TemplateEncoder>, _> =
        AppendOnlyFormatter::build(b);
    let Progress::Waiting(Call::TimestamptzMode { .. }, pending) = step else {
        panic!("no call for the key");
    };
    let step: Progress<'_, Plain, AppendOnlyFormatter<JsonEncoder<Plain>, TemplateEncoder>, _> =
        AppendOnlyFormatter::resume(pending, Reply::TimestamptzMode(Err(3)));
    assert!(matches!(step, Progress::Ready(Err(SinkError::Host(3)))));
}

#[test]
fn json_encoders_alone_end_after_two_calls() {
    let desc = template_desc();
    let step: Progress<'_, Plain, JsonEncoder<Plain>, _> =
        JsonEncoder::build(params(&desc), Some(vec![0]));
    let Progress::Waiting(Call::TimestamptzMode { .. }, pending) = step else {
        panic!("no call for the first mode");
    };
    let step: Progress<'_, Plain, JsonEncoder<Plain>, _> =
        JsonEncoder::resume(pending, Reply::TimestamptzMode(Ok(5)));
    let Progress::Waiting(Call::JsonbMode { .. }, pending) = step else {
        panic!("no call for the second mode");
    };
    let step: Progress<'_, Plain, JsonEncoder<Plain>, _> =
        JsonEncoder::resume(pending, Reply::JsonbMode(Ok(6)));
    let Progress::Ready(Ok(encoder)) = step else {
        panic!("not built");
    };
    assert_eq!(encoder.timestamptz_handling_mode, 5);
    assert_eq!(encoder.jsonb_handling_mode, 6);
    assert_eq!(encoder.pk_indices, Some(vec![0]));
}
