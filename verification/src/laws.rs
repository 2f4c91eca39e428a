//! What holds of the library as a whole.

pub mod encoders;
pub mod messages;
pub mod models;
pub mod sinks;

use vstd::prelude::*;

use crate::catalog::{SchemaModel, SinkEncode, SinkFormat};
use crate::encoder::{
    kafka_schema_name, template_option, text_encoder, text_key_type, EncoderKind, EncoderModel,
    ParamsModel, KEY_FORMAT, SCHEMAS_ENABLE, VALUE_FORMAT,
};
use crate::error::{ErrorModel, RejectionModel};
use crate::formatter::{BuiltFormatter, FormatterModel, Shape};
use crate::host::{CallModel, Host, ProgressModel, Reply};
use crate::outcome::{
    encoder_calls, encoder_outcome, formatter_calls, formatter_outcome, sink_calls, sink_outcome,
};
use crate::sink::{
    resume_sink, select, start_sink, FormatterPending, SinkFormatterImpl, SinkModel, SinkState,
};
use crate::text::lowercase;

verus! {

/// A declaration is supported exactly where its values are not text, where it asks for no key
/// encoding but text, and where Debezium is asked for in JSON without a key encoding.
pub proof fn law_supported_declarations(
    format: SinkFormat,
    encode: SinkEncode,
    key_encode: Option<SinkEncode>,
)
    ensures
        select(format, encode, key_encode) is Ok <==> {
            &&& encode != SinkEncode::Text
            &&& key_encode is None || key_encode == Some(SinkEncode::Text)
            &&& format == SinkFormat::Debezium ==> encode == SinkEncode::Json && key_encode is None
        },
{
}

/// Of the declarations that are not supported, append-only and upsert with text values are told
/// that text is for keys; all others are told which three settings do not go together.
pub proof fn law_unsupported_declarations(
    format: SinkFormat,
    encode: SinkEncode,
    key_encode: Option<SinkEncode>,
)
    requires
        select(format, encode, key_encode) is Err,
    ensures
        select(format, encode, key_encode)->Err_0 == if encode == SinkEncode::Text && format
            != SinkFormat::Debezium {
            RejectionModel::TextValueEncode
        } else {
            RejectionModel::Unsupported { format, encode, key_encode }
        },
{
}

/// Two different declarations do not lead to the same formatter.
pub proof fn law_declarations_are_told_apart(
    format1: SinkFormat,
    encode1: SinkEncode,
    key_encode1: Option<SinkEncode>,
    format2: SinkFormat,
    encode2: SinkEncode,
    key_encode2: Option<SinkEncode>,
)
    requires
        select(format1, encode1, key_encode1) is Ok,
        select(format1, encode1, key_encode1) == select(format2, encode2, key_encode2),
    ensures
        format1 == format2,
        encode1 == encode2,
        key_encode1 == key_encode2,
{
}

/// The encoding whose values an encoder writes.
spec fn encode_of(val: EncoderKind) -> SinkEncode {
    match val {
        EncoderKind::Json => SinkEncode::Json,
        EncoderKind::Text => SinkEncode::Text,
        EncoderKind::Avro => SinkEncode::Avro,
        EncoderKind::Proto => SinkEncode::Protobuf,
        EncoderKind::Template => SinkEncode::Template,
    }
}

/// Every variant of the sink formatter is the formatter of some declaration.
pub proof fn law_every_variant_is_selected<P: Host>(formatter: SinkFormatterImpl<P>)
    ensures
        exists|format: SinkFormat, encode: SinkEncode, key_encode: Option<SinkEncode>|
            select(format, encode, key_encode) == Ok::<Shape, RejectionModel>(formatter.shape()),
{
    let (format, encode, key_encode) = match formatter.shape() {
        Shape::AppendOnly { key, val } => (
            SinkFormat::AppendOnly,
            encode_of(val),
            if key == EncoderKind::Text {
                Some(SinkEncode::Text)
            } else {
                None
            },
        ),
        Shape::Upsert { key, val } => (
            SinkFormat::Upsert,
            encode_of(val),
            if key == EncoderKind::Text {
                Some(SinkEncode::Text)
            } else {
                None
            },
        ),
        Shape::DebeziumJson => (SinkFormat::Debezium, SinkEncode::Json, None),
    };
    assert(select(format, encode, key_encode) == Ok::<Shape, RejectionModel>(formatter.shape()));
}

/// No declaration asks for keys in Protobuf, and none for Debezium in anything but JSON.
pub proof fn law_selected_formatters_are_buildable(
    params: ParamsModel,
    pk_indices: Seq<usize>,
)
    ensures
        select(params.format, params.encode, params.key_encode) matches Ok(shape)
            ==> shape.buildable(params, pk_indices),
{
}

/// The keys of a formatter are text, except where values are Avro and no key encoding is asked
/// for.
pub proof fn law_keys_are_text(
    format: SinkFormat,
    encode: SinkEncode,
    key_encode: Option<SinkEncode>,
)
    ensures
        select(format, encode, key_encode) matches Ok(shape) ==> (shape.has_str_key() <==> !(encode
            == SinkEncode::Avro && key_encode is None)),
{
}

/// A declaration that is not supported is rejected at once: nothing is asked of the host.
pub proof fn law_rejected_without_calls<P: Host>(params: ParamsModel, pk_indices: Seq<usize>)
    requires
        select(params.format, params.encode, params.key_encode) is Err,
    ensures
        start_sink::<P>(params, pk_indices) == ProgressModel::<P, SinkModel<P>, SinkState<P>>::Ready(
            Err(
                ErrorModel::Rejected(
                    select(params.format, params.encode, params.key_encode)->Err_0,
                ),
            ),
        ),
{
}

/// A build waits, in a well-formed state, for replies to the call that it makes.
pub open spec fn waits_for_its_call<P: Host>(
    progress: ProgressModel<P, SinkModel<P>, SinkState<P>>,
) -> bool {
    match progress {
        ProgressModel::Waiting(call, state) => {
            &&& state.well_formed()
            &&& forall|reply: Reply<P>|
                state.state.expects(reply) == #[trigger] call.answered_by(reply)
        },
        ProgressModel::Ready(_) => true,
    }
}

/// A build that has just started waits for replies to the call that it makes.
pub proof fn law_start_waits_for_its_call<P: Host>(params: ParamsModel, pk_indices: Seq<usize>)
    ensures
        waits_for_its_call(start_sink::<P>(params, pk_indices)),
{
}

/// A build that has gone on waits for replies to the call that it makes.
pub proof fn law_resume_waits_for_its_call<P: Host>(state: SinkState<P>, reply: Reply<P>)
    ensures
        waits_for_its_call(resume_sink(state, reply)),
{
}

/// Every build that waits is in a well-formed state.
pub proof fn law_pending_builds_are_well_formed<'a, P: Host>(pending: FormatterPending<'a, P>)
    ensures
        pending@.well_formed(),
{
}

/// A build ends for an unexpected reply exactly where the reply is not one to its open call.
pub proof fn law_unexpected_replies<P: Host>(state: SinkState<P>, reply: Reply<P>)
    requires
        state.well_formed(),
    ensures
        resume_sink(state, reply) == ProgressModel::<P, SinkModel<P>, SinkState<P>>::Ready(
            Err(ErrorModel::UnexpectedReply),
        ) <==> !state.state.expects(reply),
{
}

/// Where the key encoder of a formatter fails, its error is what the build comes to, and no call
/// is made for the value.
pub proof fn law_key_errors_come_first<P: Host>(
    key: EncoderKind,
    val: EncoderKind,
    params: ParamsModel,
    pk_indices: Seq<usize>,
    host: spec_fn(Seq<CallModel<P>>, CallModel<P>) -> Reply<P>,
)
    requires
        encoder_outcome(key, params, Some(pk_indices), host, Seq::empty()) is Err,
    ensures
        ({
            let error = encoder_outcome(key, params, Some(pk_indices), host, Seq::empty())->Err_0;
            let calls = encoder_calls(key, params, Some(pk_indices), host, Seq::empty());
            let upsert = Shape::Upsert { key, val };
            let append_only = Shape::AppendOnly { key, val };
            &&& formatter_outcome(upsert, params, pk_indices, host) == Err::<
                BuiltFormatter<P>,
                ErrorModel<P>,
            >(error)
            &&& formatter_calls(upsert, params, pk_indices, host) == calls
            &&& pk_indices.len() > 0 ==> formatter_outcome(append_only, params, pk_indices, host)
                == Err::<BuiltFormatter<P>, ErrorModel<P>>(error)
            &&& pk_indices.len() > 0 ==> formatter_calls(append_only, params, pk_indices, host)
                == calls
        }),
{
}

/// An append-only formatter has a key encoder exactly where there is a primary key.
pub proof fn law_append_only_keys<P: Host>(
    params: ParamsModel,
    pk_indices: Seq<usize>,
    host: spec_fn(Seq<CallModel<P>>, CallModel<P>) -> Reply<P>,
)
    ensures
        sink_outcome(params, pk_indices, host) matches Ok(sink) ==> (
        sink.formatter matches FormatterModel::AppendOnly { key, .. } ==> (key is Some
            <==> pk_indices.len() > 0)),
{
}

/// The columns that an encoder was given, where it shows them.
pub open spec fn columns_of<P: Host>(encoder: EncoderModel<P>) -> Option<SchemaModel> {
    match encoder {
        EncoderModel::Json { schema, .. } => Some(schema),
        EncoderModel::Text { schema, .. } => Some(schema),
        EncoderModel::Template { schema, .. } => Some(schema),
        EncoderModel::Avro(_) => None,
        EncoderModel::Proto(_) => None,
    }
}

/// An encoder of the given kind, over the given columns.
pub open spec fn is_encoder<P: Host>(
    encoder: EncoderModel<P>,
    kind: EncoderKind,
    schema: SchemaModel,
) -> bool {
    encoder.kind() == kind && (columns_of(encoder) matches Some(columns) ==> columns == schema)
}

/// What is built is what was selected: the formatter of its shape, with the encoders of its shape,
/// all over the columns of the declaration.
pub proof fn law_built_as_selected<P: Host>(
    params: ParamsModel,
    pk_indices: Seq<usize>,
    host: spec_fn(Seq<CallModel<P>>, CallModel<P>) -> Reply<P>,
)
    ensures
        sink_outcome(params, pk_indices, host) matches Ok(sink) ==> {
            &&& select(params.format, params.encode, params.key_encode) == Ok::<
                Shape,
                RejectionModel,
            >(sink.shape)
            &&& match sink.shape {
                Shape::AppendOnly { key, val } => {
                    &&& sink.formatter matches FormatterModel::AppendOnly { key: k, val: v }
                    &&& k matches Some(k) ==> is_encoder(k, key, params.schema)
                    &&& is_encoder(v, val, params.schema)
                },
                Shape::Upsert { key, val } => {
                    &&& sink.formatter matches FormatterModel::Upsert { key: k, val: v }
                    &&& is_encoder(k, key, params.schema)
                    &&& is_encoder(v, val, params.schema)
                },
                Shape::DebeziumJson => {
                    &&& sink.formatter matches FormatterModel::DebeziumJson { schema, .. }
                    &&& schema == params.schema
                },
            }
        },
{
}

/// Debezium asks nothing of the host and does not fail.
pub proof fn law_debezium_is_built_at_once<P: Host>(
    params: ParamsModel,
    pk_indices: Seq<usize>,
    host: spec_fn(Seq<CallModel<P>>, CallModel<P>) -> Reply<P>,
)
    requires
        params.format == SinkFormat::Debezium,
        params.encode == SinkEncode::Json,
        params.key_encode is None,
    ensures
        sink_calls(params, pk_indices, host).len() == 0,
        sink_outcome(params, pk_indices, host) is Ok,
{
}

/// A text key is one column of the schema, of a type that is written as text; nothing else is a
/// text key.
pub proof fn law_text_keys<P: Host>(schema: SchemaModel, pk_indices: Option<Seq<usize>>)
    ensures
        text_encoder::<P>(schema, pk_indices) is Ok <==> {
            &&& pk_indices matches Some(indices)
            &&& indices.len() == 1
            &&& indices[0] < schema.fields.len()
            &&& text_key_type(schema.fields[indices[0] as int].data_type)
        },
{
}

/// The Avro schema of a key is loaded for keys only, that of a value for values only.
pub proof fn law_avro_schemas_of_keys_and_values<P: Host>(
    kind: EncoderKind,
    params: ParamsModel,
    pk_indices: Option<Seq<usize>>,
    host: spec_fn(Seq<CallModel<P>>, CallModel<P>) -> Reply<P>,
    made: Seq<CallModel<P>>,
    call: CallModel<P>,
)
    requires
        encoder_calls(kind, params, pk_indices, host, made).contains(call),
    ensures
        call is LoadKeySchema ==> pk_indices is Some,
        call is LoadValSchema ==> pk_indices is None,
{
}

/// Keys and values have their templates in different options.
pub proof fn law_templates_of_keys_and_values(indices: Seq<usize>)
    ensures
        template_option(Some(indices)) == KEY_FORMAT@,
        template_option(None) == VALUE_FORMAT@,
        template_option(Some(indices)) != template_option(None),
{
    reveal_strlit("key_format");
    reveal_strlit("value_format");
    assert(KEY_FORMAT@.len() != VALUE_FORMAT@.len());
}

/// The case in which `schemas.enable` is written makes no difference to what it says.
pub proof fn law_schemas_enable_ignores_case(params: ParamsModel, value: Seq<char>)
    requires
        params.options.contains_key(SCHEMAS_ENABLE@),
        lowercase(value) == lowercase(params.options[SCHEMAS_ENABLE@]),
    ensures
        ({
            let other = ParamsModel {
                options: params.options.insert(SCHEMAS_ENABLE@, value),
                ..params
            };
            &&& kafka_schema_name(params) is Ok <==> kafka_schema_name(other) is Ok
            &&& kafka_schema_name(params) matches Ok(name) ==> kafka_schema_name(other) == Ok::<
                Option<Seq<char>>,
                RejectionModel,
            >(name)
        }),
{
}

} // verus!
