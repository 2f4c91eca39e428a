//! What the build of a sink formatter asks for, and what it comes to.

use vstd::prelude::*;

use super::encoders::{
    fetch_error, host_error, law_encoder_calls, law_encoder_calls_end, law_json_encoders,
    law_kafka_schema_names, law_made_encoders, schemas_enable_unreadable, schemas_enabled,
};
use crate::catalog::{SinkEncode, SinkFormat};
use crate::encoder::{
    DateHandlingMode, EncoderKind, EncoderModel, ParamsModel, TimeHandlingMode,
    TimestampHandlingMode,
};
use crate::error::{ErrorModel, RejectionModel};
use crate::formatter::{DebeziumAdapterOpts, FormatterModel, Shape};
use crate::host::{AvroHeader, CallModel, Host, ProgressModel, ProtoHeader, Reply};
use crate::outcome::{
    answers, encoder_calls, encoder_outcome, formatter_calls, sink_calls, sink_outcome,
};
use crate::sink::{select, start_sink, SinkFormatterImpl, SinkModel};

verus! {

/// The reply to call `i` of `calls`, where `calls` are all calls so far.
pub open spec fn reply_to<P: Host>(
    host: spec_fn(Seq<CallModel<P>>, CallModel<P>) -> Reply<P>,
    calls: Seq<CallModel<P>>,
    i: int,
) -> Reply<P> {
    host(calls.take(i), calls[i])
}

/// The declaration is one that there is a formatter for.
pub open spec fn supported(params: ParamsModel) -> bool {
    match params.format {
        SinkFormat::AppendOnly | SinkFormat::Upsert => {
            &&& params.encode != SinkEncode::Text
            &&& params.key_encode is None || params.key_encode == Some(SinkEncode::Text)
        },
        SinkFormat::Debezium => params.encode == SinkEncode::Json && params.key_encode is None,
    }
}

/// The formatter has a key encoder: always in an upsert, where there is a primary key in an
/// append-only one. Debezium has none.
pub open spec fn keyed(params: ParamsModel, pk_indices: Seq<usize>) -> bool {
    match params.format {
        SinkFormat::AppendOnly => pk_indices.len() > 0,
        SinkFormat::Upsert => true,
        SinkFormat::Debezium => false,
    }
}

/// The primary key can be a text key: one column of the schema, of a type that is written as text.
pub open spec fn text_key(params: ParamsModel, pk_indices: Seq<usize>) -> bool {
    &&& pk_indices.len() == 1
    &&& pk_indices[0] < params.schema.fields.len()
    &&& !(params.schema.fields[pk_indices[0] as int].data_type is Other)
}

/// How many calls the key encoder takes.
pub open spec fn key_count(params: ParamsModel, pk_indices: Seq<usize>) -> nat {
    if !keyed(params, pk_indices) || params.key_encode is Some {
        0
    } else {
        match params.encode {
            SinkEncode::Json | SinkEncode::Protobuf => 2,
            SinkEncode::Avro => 3,
            SinkEncode::Template | SinkEncode::Text => 0,
        }
    }
}

/// How many calls the value encoder takes.
pub open spec fn val_count(params: ParamsModel) -> nat {
    if params.format == SinkFormat::Debezium {
        0
    } else {
        match params.encode {
            SinkEncode::Json | SinkEncode::Protobuf => 2,
            SinkEncode::Avro => 3,
            SinkEncode::Template | SinkEncode::Text => 0,
        }
    }
}

/// Which formatter a declaration gets: that of its format, with values in its encoding. Keys are
/// text where text is asked for; else they are as the values, with JSON in place of Protobuf.
pub proof fn law_selection(
    format: SinkFormat,
    encode: SinkEncode,
    key_encode: Option<SinkEncode>,
)
    requires
        select(format, encode, key_encode) is Ok,
    ensures
        ({
            let shape = select(format, encode, key_encode)->Ok_0;
            let (key, val) = match shape {
                Shape::AppendOnly { key, val } => (key, val),
                Shape::Upsert { key, val } => (key, val),
                Shape::DebeziumJson => (EncoderKind::Json, EncoderKind::Json),
            };
            &&& shape is AppendOnly <==> format == SinkFormat::AppendOnly
            &&& shape is Upsert <==> format == SinkFormat::Upsert
            &&& shape is DebeziumJson <==> format == SinkFormat::Debezium
            &&& val is Json <==> encode == SinkEncode::Json
            &&& val is Avro <==> encode == SinkEncode::Avro
            &&& val is Proto <==> encode == SinkEncode::Protobuf
            &&& val is Template <==> encode == SinkEncode::Template
            &&& val !is Text
            &&& key is Text <==> key_encode == Some(SinkEncode::Text)
            &&& key_encode is None ==> {
                &&& encode == SinkEncode::Protobuf ==> key is Json
                &&& encode != SinkEncode::Protobuf ==> key == val
            }
        }),
{
}

/// The calls of a sink formatter are those of its key encoder, and then those of its value encoder
/// where the key encoder was built.
proof fn lemma_sink_calls<P: Host>(
    params: ParamsModel,
    pk_indices: Seq<usize>,
    host: spec_fn(Seq<CallModel<P>>, CallModel<P>) -> Reply<P>,
) -> (parts: (EncoderKind, EncoderKind, Seq<CallModel<P>>, Seq<CallModel<P>>))
    requires
        supported(params),
        params.format != SinkFormat::Debezium,
    ensures
        ({
            let (key, val, key_calls, val_calls) = parts;
            let none = Seq::<CallModel<P>>::empty();
            let calls = sink_calls(params, pk_indices, host);
            &&& val == match params.encode {
                SinkEncode::Json => EncoderKind::Json,
                SinkEncode::Protobuf => EncoderKind::Proto,
                SinkEncode::Avro => EncoderKind::Avro,
                SinkEncode::Template => EncoderKind::Template,
                SinkEncode::Text => EncoderKind::Text,
            }
            &&& key == if params.key_encode is Some {
                EncoderKind::Text
            } else if params.encode == SinkEncode::Protobuf {
                EncoderKind::Json
            } else {
                val
            }
            &&& calls == key_calls + val_calls
            &&& key_calls == if keyed(params, pk_indices) {
                encoder_calls(key, params, Some(pk_indices), host, none)
            } else {
                none
            }
            &&& val_calls == if keyed(params, pk_indices) && encoder_outcome(
                key,
                params,
                Some(pk_indices),
                host,
                none,
            ) is Err {
                none
            } else {
                encoder_calls(val, params, None, host, key_calls)
            }
            &&& sink_outcome(params, pk_indices, host) is Ok <==> {
                &&& keyed(params, pk_indices) ==> encoder_outcome(
                    key,
                    params,
                    Some(pk_indices),
                    host,
                    none,
                ) is Ok
                &&& encoder_outcome(val, params, None, host, key_calls) is Ok
            }
            &&& sink_outcome(params, pk_indices, host) matches Err(error) ==> error == if keyed(
                params,
                pk_indices,
            ) && encoder_outcome(key, params, Some(pk_indices), host, none) is Err {
                encoder_outcome(key, params, Some(pk_indices), host, none)->Err_0
            } else {
                encoder_outcome(val, params, None, host, key_calls)->Err_0
            }
            &&& sink_outcome(params, pk_indices, host) matches Ok(sink) ==> match params.format {
                SinkFormat::AppendOnly => sink.formatter == FormatterModel::AppendOnly {
                    key: if keyed(params, pk_indices) {
                        Some(encoder_outcome(key, params, Some(pk_indices), host, none)->Ok_0)
                    } else {
                        None
                    },
                    val: encoder_outcome(val, params, None, host, key_calls)->Ok_0,
                },
                SinkFormat::Upsert => sink.formatter == FormatterModel::Upsert {
                    key: encoder_outcome(key, params, Some(pk_indices), host, none)->Ok_0,
                    val: encoder_outcome(val, params, None, host, key_calls)->Ok_0,
                },
                SinkFormat::Debezium => false,
            }
        }),
{
    let none = Seq::<CallModel<P>>::empty();
    let shape = select(params.format, params.encode, params.key_encode)->Ok_0;
    let (key, val) = match shape {
        Shape::AppendOnly { key, val } => (key, val),
        Shape::Upsert { key, val } => (key, val),
        Shape::DebeziumJson => (EncoderKind::Json, EncoderKind::Json),
    };
    let key_calls = if keyed(params, pk_indices) {
        encoder_calls(key, params, Some(pk_indices), host, none)
    } else {
        none
    };
    let val_calls = if keyed(params, pk_indices) && encoder_outcome(
        key,
        params,
        Some(pk_indices),
        host,
        none,
    ) is Err {
        none
    } else {
        encoder_calls(val, params, None, host, key_calls)
    };
    assert(formatter_calls(shape, params, pk_indices, host) =~= key_calls + val_calls);
    (key, val, key_calls, val_calls)
}

/// Every call of a build, and what it carries. The options, the topic and the columns are those of
/// the declaration. The loader of an Avro schema, the Avro schema with its identifier, and the
/// Protobuf descriptor with its identifier are those of the reply just before. An Avro encoder is
/// made of exactly the primary key columns, all of them in order, after the schema of the key was
/// loaded, and of no key columns after that of the value was.
pub proof fn law_calls_carry<P: Host>(
    params: ParamsModel,
    pk_indices: Seq<usize>,
    host: spec_fn(Seq<CallModel<P>>, CallModel<P>) -> Reply<P>,
    i: int,
)
    requires
        answers(host),
        0 <= i < sink_calls(params, pk_indices, host).len(),
    ensures
        ({
            let calls = sink_calls(params, pk_indices, host);
            match calls[i] {
                CallModel::TimestamptzMode { options } => options == params.options,
                CallModel::JsonbMode { options } => options == params.options,
                CallModel::FetchDescriptor { options, topic } => {
                    &&& options == params.options
                    &&& topic == params.topic
                },
                CallModel::NewProtoEncoder { schema, descriptor, header } => {
                    &&& i >= 1
                    &&& calls[i - 1] is FetchDescriptor
                    &&& schema == params.schema
                    &&& reply_to(host, calls, i - 1) == Reply::<P>::Descriptor(
                        Ok(
                            (
                                descriptor,
                                match header {
                                    ProtoHeader::Absent => None,
                                    ProtoHeader::ConfluentSchemaRegistry(id) => Some(id),
                                },
                            ),
                        ),
                    )
                },
                CallModel::OpenSchemaLoader { topic, options } => {
                    &&& topic == params.topic
                    &&& options == params.options
                },
                CallModel::LoadKeySchema { loader } => {
                    &&& i >= 1
                    &&& calls[i - 1] is OpenSchemaLoader
                    &&& reply_to(host, calls, i - 1) == Reply::<P>::SchemaLoader(Ok(loader))
                },
                CallModel::LoadValSchema { loader } => {
                    &&& i >= 1
                    &&& calls[i - 1] is OpenSchemaLoader
                    &&& reply_to(host, calls, i - 1) == Reply::<P>::SchemaLoader(Ok(loader))
                },
                CallModel::NewAvroEncoder { schema, pk_indices: columns, avro, header } => {
                    let AvroHeader::ConfluentSchemaRegistry(id) = header;
                    &&& i >= 1
                    &&& schema == params.schema
                    &&& {
                        ||| calls[i - 1] is LoadKeySchema && columns == Some(pk_indices)
                        ||| calls[i - 1] is LoadValSchema && columns == None::<Seq<usize>>
                    }
                    &&& reply_to(host, calls, i - 1) == Reply::<P>::Schema(Ok((id, avro)))
                },
            }
        }),
{
    let calls = sink_calls(params, pk_indices, host);
    let none = Seq::<CallModel<P>>::empty();
    let (key, val, key_calls, val_calls) = lemma_sink_calls(params, pk_indices, host);
    let count = key_calls.len() as int;
    if i < count {
        law_encoder_calls(key, params, Some(pk_indices), host, none, i);
        assert(calls[i] == key_calls[i]);
        if i >= 1 {
            assert(calls[i - 1] == key_calls[i - 1]);
            assert(calls.take(i - 1) =~= key_calls.take(i - 1));
            if i == 1 {
                assert(calls.take(0) =~= none);
            } else {
                assert(calls.take(1) =~= none.push(key_calls[0]));
            }
        }
    } else {
        law_encoder_calls(val, params, None, host, key_calls, i - count);
        assert(calls[i] == val_calls[i - count]);
        if i - count >= 1 {
            assert(calls[i - 1] == val_calls[i - count - 1]);
            if i - count == 1 {
                assert(calls.take(i - 1) =~= key_calls);
            } else {
                assert(calls.take(i - 1) =~= key_calls.push(val_calls[0]));
            }
        }
    }
}

/// Which calls a build makes, in which order: those of the key before those of the value. A build
/// that succeeds makes all of them.
pub proof fn law_calls_in_order<P: Host>(
    params: ParamsModel,
    pk_indices: Seq<usize>,
    host: spec_fn(Seq<CallModel<P>>, CallModel<P>) -> Reply<P>,
)
    requires
        answers(host),
    ensures
        ({
            let calls = sink_calls(params, pk_indices, host);
            let keys = key_count(params, pk_indices);
            &&& calls.len() > 0 ==> supported(params)
            &&& calls.len() <= keys + val_count(params)
            &&& sink_outcome(params, pk_indices, host) is Ok ==> calls.len() == keys + val_count(
                params,
            )
            &&& forall|i: int|
                #![trigger calls[i]]
                0 <= i < calls.len() && i < keys ==> match params.encode {
                    SinkEncode::Json | SinkEncode::Protobuf => {
                        &&& i == 0 ==> calls[i] is TimestamptzMode
                        &&& i == 1 ==> calls[i] is JsonbMode
                    },
                    _ => {
                        &&& i == 0 ==> calls[i] is OpenSchemaLoader
                        &&& i == 1 ==> calls[i] is LoadKeySchema
                        &&& i == 2 ==> calls[i] is NewAvroEncoder
                    },
                }
            &&& forall|i: int|
                #![trigger calls[i]]
                keys <= i < calls.len() ==> match params.encode {
                    SinkEncode::Json => {
                        &&& i == keys ==> calls[i] is TimestamptzMode
                        &&& i == keys + 1 ==> calls[i] is JsonbMode
                    },
                    SinkEncode::Protobuf => {
                        &&& i == keys ==> calls[i] is FetchDescriptor
                        &&& i == keys + 1 ==> calls[i] is NewProtoEncoder
                    },
                    _ => {
                        &&& i == keys ==> calls[i] is OpenSchemaLoader
                        &&& i == keys + 1 ==> calls[i] is LoadValSchema
                        &&& i == keys + 2 ==> calls[i] is NewAvroEncoder
                    },
                }
        }),
{
    if supported(params) && params.format != SinkFormat::Debezium {
        let none = Seq::<CallModel<P>>::empty();
        let (key, val, key_calls, val_calls) = lemma_sink_calls(params, pk_indices, host);
        law_encoder_calls_end(key, params, Some(pk_indices), host, none);
        law_encoder_calls_end(val, params, None, host, key_calls);
    }
}

/// Nothing is asked after the first error of the host, and that error is what the build comes to.
pub proof fn law_first_error_ends<P: Host>(
    params: ParamsModel,
    pk_indices: Seq<usize>,
    host: spec_fn(Seq<CallModel<P>>, CallModel<P>) -> Reply<P>,
)
    requires
        answers(host),
    ensures
        ({
            let calls = sink_calls(params, pk_indices, host);
            let outcome = sink_outcome(params, pk_indices, host);
            let last = reply_to(host, calls, calls.len() - 1);
            &&& forall|i: int|
                #![trigger calls[i]]
                0 <= i < calls.len() - 1 ==> {
                    &&& host_error(reply_to(host, calls, i)) is None
                    &&& fetch_error(reply_to(host, calls, i)) is None
                }
            &&& outcome matches Err(error) ==> match error {
                ErrorModel::Host(e) => calls.len() > 0 && host_error(last) == Some(e),
                ErrorModel::Fetch(e) => calls.len() > 0 && fetch_error(last) == Some(e),
                ErrorModel::Rejected(_) => calls.len() > 0 ==> host_error(last) is None
                    && fetch_error(last) is None,
                ErrorModel::UnexpectedReply => false,
            }
            &&& outcome is Ok && calls.len() > 0 ==> host_error(last) is None && fetch_error(
                last,
            ) is None
        }),
{
    if supported(params) && params.format != SinkFormat::Debezium {
        let calls = sink_calls(params, pk_indices, host);
        let none = Seq::<CallModel<P>>::empty();
        let (key, val, key_calls, val_calls) = lemma_sink_calls(params, pk_indices, host);
        let count = key_calls.len() as int;
        law_encoder_calls_end(key, params, Some(pk_indices), host, none);
        law_encoder_calls_end(val, params, None, host, key_calls);
        assert forall|i: int| #![trigger calls[i]] 0 <= i < calls.len() implies reply_to(
            host,
            calls,
            i,
        ) == if i < count {
            host(none + key_calls.take(i), key_calls[i])
        } else {
            host(key_calls + val_calls.take(i - count), val_calls[i - count])
        } by {
            if i < count {
                assert(calls.take(i) =~= none + key_calls.take(i));
            } else {
                assert(calls.take(i) =~= key_calls + val_calls.take(i - count));
            }
        }
        if count > 0 {
            assert(key_calls.drop_last() =~= key_calls.take(count - 1));
            assert(calls[count - 1] == key_calls[count - 1]);
        }
        if val_calls.len() > 0 {
            assert(val_calls.drop_last() =~= val_calls.take(val_calls.len() - 1));
        }
        assert forall|i: int| #![trigger calls[i]] 0 <= i < calls.len() - 1 implies host_error(
            reply_to(host, calls, i),
        ) is None && fetch_error(reply_to(host, calls, i)) is None by {
            if i < count {
                assert(key_calls[i] == calls[i]);
            } else {
                assert(val_calls[i - count] == calls[i]);
            }
        }
        if calls.len() > 0 {
            assert(calls[calls.len() - 1] == calls.last());
        }
    }
}

/// A JSON encoder from `params`, of a key over `pk_indices` or of a value, with the modes that came
/// in two replies.
pub open spec fn json_from<P: Host>(
    encoder: EncoderModel<P>,
    params: ParamsModel,
    pk_indices: Option<Seq<usize>>,
    timestamptz: Reply<P>,
    jsonb: Reply<P>,
) -> bool {
    &&& encoder matches EncoderModel::Json {
        schema,
        pk_indices: columns,
        date_handling_mode,
        timestamp_handling_mode,
        timestamptz_handling_mode,
        time_handling_mode,
        jsonb_handling_mode,
        kafka_schema_name,
    }
    &&& schema == params.schema
    &&& columns == pk_indices
    &&& date_handling_mode == DateHandlingMode::FromCe
    &&& timestamp_handling_mode == TimestampHandlingMode::Milli
    &&& time_handling_mode == TimeHandlingMode::Milli
    &&& timestamptz == Reply::<P>::TimestamptzMode(Ok(timestamptz_handling_mode))
    &&& jsonb == Reply::<P>::JsonbMode(Ok(jsonb_handling_mode))
    &&& kafka_schema_name == if schemas_enabled(params.options) {
        Some(params.db_name + "."@ + params.sink_from_name)
    } else {
        None
    }
}

/// A template encoder from `params`, with the template in the option `name`.
pub open spec fn template_from<P: Host>(
    encoder: EncoderModel<P>,
    params: ParamsModel,
    pk_indices: Option<Seq<usize>>,
    name: Seq<char>,
) -> bool {
    &&& encoder matches EncoderModel::Template { schema, pk_indices: columns, template }
    &&& schema == params.schema
    &&& columns == pk_indices
    &&& params.options.contains_key(name)
    &&& template == params.options[name]
}

/// The value encoder of a sink whose build made `calls`. Its calls are the last ones.
pub open spec fn val_from<P: Host>(
    encoder: EncoderModel<P>,
    params: ParamsModel,
    host: spec_fn(Seq<CallModel<P>>, CallModel<P>) -> Reply<P>,
    calls: Seq<CallModel<P>>,
) -> bool {
    let n = calls.len() as int;
    match params.encode {
        SinkEncode::Json => {
            &&& n >= 2
            &&& json_from(
                encoder,
                params,
                None,
                reply_to(host, calls, n - 2),
                reply_to(host, calls, n - 1),
            )
        },
        SinkEncode::Protobuf => {
            &&& n >= 2
            &&& encoder matches EncoderModel::Proto(inner)
            &&& reply_to(host, calls, n - 1) == Reply::<P>::ProtoEncoder(Ok(inner))
        },
        SinkEncode::Avro => {
            &&& n >= 3
            &&& encoder matches EncoderModel::Avro(inner)
            &&& reply_to(host, calls, n - 1) == Reply::<P>::AvroEncoder(Ok(inner))
        },
        SinkEncode::Template => template_from(encoder, params, None, "value_format"@),
        SinkEncode::Text => false,
    }
}

/// The key encoder of a sink whose build made `calls`. Its calls are the first ones.
pub open spec fn key_from<P: Host>(
    encoder: EncoderModel<P>,
    params: ParamsModel,
    pk_indices: Seq<usize>,
    host: spec_fn(Seq<CallModel<P>>, CallModel<P>) -> Reply<P>,
    calls: Seq<CallModel<P>>,
) -> bool {
    if params.key_encode is Some {
        &&& encoder matches EncoderModel::Text { schema, pk_index }
        &&& schema == params.schema
        &&& pk_indices == seq![pk_index]
        &&& pk_index < schema.fields.len()
        &&& !(schema.fields[pk_index as int].data_type is Other)
    } else {
        match params.encode {
            SinkEncode::Json | SinkEncode::Protobuf => {
                &&& calls.len() >= 2
                &&& json_from(
                    encoder,
                    params,
                    Some(pk_indices),
                    reply_to(host, calls, 0),
                    reply_to(host, calls, 1),
                )
            },
            SinkEncode::Avro => {
                &&& calls.len() >= 3
                &&& encoder matches EncoderModel::Avro(inner)
                &&& reply_to(host, calls, 2) == Reply::<P>::AvroEncoder(Ok(inner))
            },
            SinkEncode::Template => template_from(
                encoder,
                params,
                Some(pk_indices),
                "key_format"@,
            ),
            SinkEncode::Text => false,
        }
    }
}

/// What a built sink formatter is, in terms of its declaration and of the replies: the formatter of
/// its format, with values in its encoding, and keys over the primary key. Debezium has the columns,
/// the primary key and the names of the declaration.
pub proof fn law_built_sinks<P: Host>(
    params: ParamsModel,
    pk_indices: Seq<usize>,
    host: spec_fn(Seq<CallModel<P>>, CallModel<P>) -> Reply<P>,
)
    requires
        answers(host),
        sink_outcome(params, pk_indices, host) is Ok,
    ensures
        ({
            let sink = sink_outcome(params, pk_indices, host)->Ok_0;
            let calls = sink_calls(params, pk_indices, host);
            match params.format {
                SinkFormat::AppendOnly => {
                    &&& sink.formatter matches FormatterModel::AppendOnly { key, val }
                    &&& key is Some <==> pk_indices.len() > 0
                    &&& key matches Some(key) ==> key_from(key, params, pk_indices, host, calls)
                    &&& val_from(val, params, host, calls)
                },
                SinkFormat::Upsert => {
                    &&& sink.formatter matches FormatterModel::Upsert { key, val }
                    &&& key_from(key, params, pk_indices, host, calls)
                    &&& val_from(val, params, host, calls)
                },
                SinkFormat::Debezium => sink.formatter == FormatterModel::<
                    EncoderModel<P>,
                    EncoderModel<P>,
                >::DebeziumJson {
                    schema: params.schema,
                    pk_indices,
                    db_name: params.db_name,
                    sink_from_name: params.sink_from_name,
                    opts: DebeziumAdapterOpts,
                },
            }
        }),
{
    if params.format != SinkFormat::Debezium {
        let calls = sink_calls(params, pk_indices, host);
        let none = Seq::<CallModel<P>>::empty();
        let (key, val, key_calls, val_calls) = lemma_sink_calls(params, pk_indices, host);
        let count = key_calls.len() as int;
        let n = calls.len() as int;
        law_calls_in_order(params, pk_indices, host);
        law_encoder_calls_end(val, params, None, host, key_calls);
        if keyed(params, pk_indices) {
            law_encoder_calls_end(key, params, Some(pk_indices), host, none);
            if key is Json {
                law_json_encoders(params, Some(pk_indices), host, none);
                law_kafka_schema_names(params, Some(pk_indices), host, none);
                assert(calls.take(0) =~= none);
                assert(calls.take(1) =~= none.push(key_calls[0]));
                assert(calls[0] == key_calls[0] && calls[1] == key_calls[1]);
            } else if key is Avro {
                law_made_encoders(key, params, Some(pk_indices), host, none);
                assert(calls.take(2) =~= none + key_calls.drop_last());
                assert(calls[2] == key_calls.last());
            } else if key is Text {
                let encoder = encoder_outcome(key, params, Some(pk_indices), host, none)->Ok_0;
                assert(pk_indices =~= seq![encoder->pk_index]);
            }
        }
        if val is Json {
            law_json_encoders(params, None, host, key_calls);
            law_kafka_schema_names(params, None, host, key_calls);
            assert(calls.take(n - 2) =~= key_calls);
            assert(calls.take(n - 1) =~= key_calls.push(val_calls[0]));
            assert(calls[n - 2] == val_calls[0] && calls[n - 1] == val_calls[1]);
        } else if val is Avro || val is Proto {
            law_made_encoders(val, params, None, host, key_calls);
            assert(calls.take(n - 1) =~= key_calls + val_calls.drop_last());
            assert(calls[n - 1] == val_calls.last());
        }
    }
}

/// A sink formatter is built exactly where its declaration is supported, the host answers every
/// call without an error, `schemas.enable` can be read where there is a JSON encoder, a text key is
/// one column of a type that is written as text, and every template that is needed is there.
pub proof fn law_sinks_are_built<P: Host>(
    params: ParamsModel,
    pk_indices: Seq<usize>,
    host: spec_fn(Seq<CallModel<P>>, CallModel<P>) -> Reply<P>,
)
    requires
        answers(host),
    ensures
        ({
            let calls = sink_calls(params, pk_indices, host);
            let own_key = keyed(params, pk_indices) && params.key_encode is None;
            let debezium = params.format == SinkFormat::Debezium;
            sink_outcome(params, pk_indices, host) is Ok <==> {
                &&& supported(params)
                &&& forall|i: int|
                    #![trigger calls[i]]
                    0 <= i < calls.len() ==> {
                        &&& host_error(reply_to(host, calls, i)) is None
                        &&& fetch_error(reply_to(host, calls, i)) is None
                    }
                &&& params.encode == SinkEncode::Json && !debezium
                    ==> !schemas_enable_unreadable(params.options)
                &&& params.encode == SinkEncode::Protobuf && own_key
                    ==> !schemas_enable_unreadable(params.options)
                &&& keyed(params, pk_indices) && params.key_encode is Some ==> text_key(
                    params,
                    pk_indices,
                )
                &&& params.encode == SinkEncode::Template ==> params.options.contains_key(
                    "value_format"@,
                )
                &&& params.encode == SinkEncode::Template && own_key
                    ==> params.options.contains_key("key_format"@)
            }
        }),
{
    law_first_error_ends(params, pk_indices, host);
    let calls = sink_calls(params, pk_indices, host);
    if calls.len() > 0 {
        assert(calls[calls.len() - 1] == calls.last());
    }
    if supported(params) && params.format != SinkFormat::Debezium {
        let none = Seq::<CallModel<P>>::empty();
        let (key, val, key_calls, val_calls) = lemma_sink_calls(params, pk_indices, host);
        law_json_encoders(params, Some(pk_indices), host, none);
        law_json_encoders(params, None, host, key_calls);
        law_encoder_calls_end(key, params, Some(pk_indices), host, none);
        law_encoder_calls_end(val, params, None, host, key_calls);
    }
}

/// What a sink formatter is rejected for, in which order. A declaration that is not supported is
/// rejected before anything else, and a key before the value: a key that cannot be a text key, and
/// a template that is not set, without any call.
pub proof fn law_rejections_in_order<P: Host>(
    params: ParamsModel,
    pk_indices: Seq<usize>,
    host: spec_fn(Seq<CallModel<P>>, CallModel<P>) -> Reply<P>,
)
    requires
        answers(host),
    ensures
        ({
            let calls = sink_calls(params, pk_indices, host);
            let outcome = sink_outcome(params, pk_indices, host);
            let fields = params.schema.fields;
            let keyed = keyed(params, pk_indices);
            let text = keyed && params.key_encode is Some;
            let template = params.encode == SinkEncode::Template;
            let key_missing = keyed && params.key_encode is None && !params.options.contains_key(
                "key_format"@,
            );
            &&& !supported(params) ==> calls.len() == 0 && outcome == Err::<
                SinkModel<P>,
                ErrorModel<P>,
            >(
                ErrorModel::Rejected(
                    if params.encode == SinkEncode::Text && params.format != SinkFormat::Debezium {
                        RejectionModel::TextValueEncode
                    } else {
                        RejectionModel::Unsupported {
                            format: params.format,
                            encode: params.encode,
                            key_encode: params.key_encode,
                        }
                    },
                ),
            )
            &&& supported(params) && text && !text_key(params, pk_indices) ==> calls.len() == 0
                && outcome == Err::<SinkModel<P>, ErrorModel<P>>(
                ErrorModel::Rejected(
                    if pk_indices.len() != 1 {
                        RejectionModel::TextKeyColumns { count: pk_indices.len() }
                    } else if fields.len() <= pk_indices[0] {
                        RejectionModel::TextKeyOutOfBounds {
                            index: pk_indices[0] as nat,
                            schema: params.schema,
                        }
                    } else {
                        RejectionModel::TextKeyType {
                            column: fields[pk_indices[0] as int].name@,
                            type_text: fields[pk_indices[0] as int].data_type->Other_0@,
                        }
                    },
                ),
            )
            &&& supported(params) && template && key_missing ==> calls.len() == 0 && outcome
                == Err::<SinkModel<P>, ErrorModel<P>>(
                ErrorModel::Rejected(
                    RejectionModel::TemplateMissing { option_name: "key_format"@ },
                ),
            )
            &&& supported(params) && template && !key_missing && (text ==> text_key(
                params,
                pk_indices,
            )) && !params.options.contains_key("value_format"@) ==> calls.len() == 0 && outcome
                == Err::<SinkModel<P>, ErrorModel<P>>(
                ErrorModel::Rejected(
                    RejectionModel::TemplateMissing { option_name: "value_format"@ },
                ),
            )
            &&& outcome matches Err(ErrorModel::Rejected(RejectionModel::SchemasEnable { value }))
                ==> {
                &&& schemas_enable_unreadable(params.options)
                &&& value == params.options["schemas.enable"@]
                &&& calls.len() == if key_count(params, pk_indices) == 2 {
                    2
                } else {
                    key_count(params, pk_indices) + val_count(params)
                }
            }
        }),
{
    if supported(params) && params.format != SinkFormat::Debezium {
        let none = Seq::<CallModel<P>>::empty();
        let (key, val, key_calls, val_calls) = lemma_sink_calls(params, pk_indices, host);
        law_json_encoders(params, Some(pk_indices), host, none);
        law_json_encoders(params, None, host, key_calls);
        law_encoder_calls_end(key, params, Some(pk_indices), host, none);
        law_encoder_calls_end(val, params, None, host, key_calls);
    }
}

/// The first call of a build carries the options, and the topic where it has one, as they were
/// declared.
pub proof fn law_first_call<P: Host>(params: ParamsModel, pk_indices: Seq<usize>)
    ensures
        start_sink::<P>(params, pk_indices) matches ProgressModel::Waiting(call, _) ==> match call {
            CallModel::TimestamptzMode { options } => options == params.options,
            CallModel::FetchDescriptor { options, topic } => {
                &&& options == params.options
                &&& topic == params.topic
            },
            CallModel::OpenSchemaLoader { topic, options } => {
                &&& topic == params.topic
                &&& options == params.options
            },
            _ => false,
        },
{
}

/// Which variant of the sink formatter is built for which declaration.
pub proof fn law_variants<P: Host>(
    formatter: SinkFormatterImpl<P>,
    params: ParamsModel,
    pk_indices: Seq<usize>,
    host: spec_fn(Seq<CallModel<P>>, CallModel<P>) -> Reply<P>,
)
    requires
        sink_outcome(params, pk_indices, host) == Ok::<SinkModel<P>, ErrorModel<P>>(formatter@),
    ensures
        ({
            let text = Some(SinkEncode::Text);
            (params.format, params.encode, params.key_encode) == match formatter {
                SinkFormatterImpl::AppendOnlyJson(_) => (
                    SinkFormat::AppendOnly,
                    SinkEncode::Json,
                    None,
                ),
                SinkFormatterImpl::AppendOnlyTextJson(_) => (
                    SinkFormat::AppendOnly,
                    SinkEncode::Json,
                    text,
                ),
                SinkFormatterImpl::AppendOnlyAvro(_) => (
                    SinkFormat::AppendOnly,
                    SinkEncode::Avro,
                    None,
                ),
                SinkFormatterImpl::AppendOnlyTextAvro(_) => (
                    SinkFormat::AppendOnly,
                    SinkEncode::Avro,
                    text,
                ),
                SinkFormatterImpl::AppendOnlyProto(_) => (
                    SinkFormat::AppendOnly,
                    SinkEncode::Protobuf,
                    None,
                ),
                SinkFormatterImpl::AppendOnlyTextProto(_) => (
                    SinkFormat::AppendOnly,
                    SinkEncode::Protobuf,
                    text,
                ),
                SinkFormatterImpl::AppendOnlyTemplate(_) => (
                    SinkFormat::AppendOnly,
                    SinkEncode::Template,
                    None,
                ),
                SinkFormatterImpl::AppendOnlyTextTemplate(_) => (
                    SinkFormat::AppendOnly,
                    SinkEncode::Template,
                    text,
                ),
                SinkFormatterImpl::UpsertJson(_) => (SinkFormat::Upsert, SinkEncode::Json, None),
                SinkFormatterImpl::UpsertTextJson(_) => (
                    SinkFormat::Upsert,
                    SinkEncode::Json,
                    text,
                ),
                SinkFormatterImpl::UpsertAvro(_) => (SinkFormat::Upsert, SinkEncode::Avro, None),
                SinkFormatterImpl::UpsertTextAvro(_) => (
                    SinkFormat::Upsert,
                    SinkEncode::Avro,
                    text,
                ),
                SinkFormatterImpl::UpsertProto(_) => (
                    SinkFormat::Upsert,
                    SinkEncode::Protobuf,
                    None,
                ),
                SinkFormatterImpl::UpsertTextProto(_) => (
                    SinkFormat::Upsert,
                    SinkEncode::Protobuf,
                    text,
                ),
                SinkFormatterImpl::UpsertTemplate(_) => (
                    SinkFormat::Upsert,
                    SinkEncode::Template,
                    None,
                ),
                SinkFormatterImpl::UpsertTextTemplate(_) => (
                    SinkFormat::Upsert,
                    SinkEncode::Template,
                    text,
                ),
                SinkFormatterImpl::DebeziumJson(_) => (
                    SinkFormat::Debezium,
                    SinkEncode::Json,
                    None,
                ),
            }
        }),
{
}

/// The keys of a sink formatter are text, except in the two variants whose keys are Avro.
pub proof fn law_str_keys<P: Host>(formatter: SinkFormatterImpl<P>)
    ensures
        formatter.shape().has_str_key() <==> !(formatter is AppendOnlyAvro
            || formatter is UpsertAvro),
{
}

} // verus!
