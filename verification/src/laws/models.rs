//! What the mathematical values stand for: every model shows its value in full.

use vstd::prelude::*;

use crate::avro_encoder::AvroEncoder;
use crate::catalog::Schema;
use crate::encoder::{
    resume_encoder, start_encoder, Encoder, EncoderKind, EncoderModel, EncoderParams, EncoderState,
    ParamsModel,
};
use crate::error::{ConfigError, ErrorModel, Rejection, RejectionModel, SinkError};
use crate::formatter::{
    AppendOnlyFormatter, DebeziumJsonFormatter, Formatter, FormatterModel, UpsertFormatter,
};
use crate::host::{Call, CallModel, Host, Progress, ProgressModel, Reply};
use crate::json_encoder::JsonEncoder;
use crate::proto_encoder::ProtoEncoder;
use crate::sink::{FormatterPending, SinkFormatterImpl};
use crate::template_encoder::TemplateEncoder;
use crate::text_encoder::TextEncoder;

verus! {

/// The model of a schema shows its columns and its text.
pub proof fn law_schema_models(schema: Schema)
    ensures
        schema@.fields == schema.fields@,
        schema@.debug == schema.debug@,
{
}

/// The model of parameters shows each of them.
pub proof fn law_params_models<'a>(params: EncoderParams<'a>)
    ensures
        params@.format == params.format_desc.format,
        params@.encode == params.format_desc.encode,
        params@.key_encode == params.format_desc.key_encode,
        params@.options == params.format_desc.options@,
        params@.schema == params.schema@,
        params@.db_name == params.db_name@,
        params@.sink_from_name == params.sink_from_name@,
        params@.topic == params.topic@,
{
}

/// The model of a call shows all that the call carries.
pub proof fn law_call_models<'a, P: Host>(call: Call<'a, P>)
    ensures
        match call {
            Call::TimestamptzMode { options } => call@ == CallModel::<P>::TimestamptzMode {
                options: options@,
            },
            Call::JsonbMode { options } => call@ == CallModel::<P>::JsonbMode { options: options@ },
            Call::FetchDescriptor { options, topic } => call@ == CallModel::<P>::FetchDescriptor {
                options: options@,
                topic: topic@,
            },
            Call::NewProtoEncoder { schema, descriptor, header } => call@ == CallModel::<
                P,
            >::NewProtoEncoder { schema: schema@, descriptor, header },
            Call::OpenSchemaLoader { topic, options } => call@ == CallModel::<
                P,
            >::OpenSchemaLoader { topic: topic@, options: options@ },
            Call::LoadKeySchema { loader } => call@ == CallModel::<P>::LoadKeySchema { loader },
            Call::LoadValSchema { loader } => call@ == CallModel::<P>::LoadValSchema { loader },
            Call::NewAvroEncoder { schema, pk_indices, avro, header } => call@ == CallModel::<
                P,
            >::NewAvroEncoder {
                schema: schema@,
                pk_indices: match pk_indices {
                    Some(indices) => Some(indices@),
                    None => None,
                },
                avro,
                header,
            },
        },
{
}

/// Which replies answer a call.
pub proof fn law_replies_to_calls<P: Host>(call: CallModel<P>, reply: Reply<P>)
    ensures
        call.answered_by(reply) <==> match reply {
            Reply::TimestamptzMode(_) => call is TimestamptzMode,
            Reply::JsonbMode(_) => call is JsonbMode,
            Reply::Descriptor(_) => call is FetchDescriptor,
            Reply::ProtoEncoder(_) => call is NewProtoEncoder,
            Reply::SchemaLoader(_) => call is OpenSchemaLoader,
            Reply::Schema(_) => call is LoadKeySchema || call is LoadValSchema,
            Reply::AvroEncoder(_) => call is NewAvroEncoder,
        },
{
}

/// The models of encoders show all that the encoders have.
pub proof fn law_encoder_models<'a, P: Host>(
    json: JsonEncoder<P>,
    text: TextEncoder,
    avro: AvroEncoder<P>,
    proto: ProtoEncoder<P>,
    template: TemplateEncoder,
)
    ensures
        Encoder::<'a, P>::model(json) == (EncoderModel::<P>::Json {
            schema: json.schema@,
            pk_indices: match json.pk_indices {
                Some(indices) => Some(indices@),
                None => None,
            },
            date_handling_mode: json.date_handling_mode,
            timestamp_handling_mode: json.timestamp_handling_mode,
            timestamptz_handling_mode: json.timestamptz_handling_mode,
            time_handling_mode: json.time_handling_mode,
            jsonb_handling_mode: json.jsonb_handling_mode,
            kafka_schema_name: match json.kafka_connect {
                Some(kafka_connect) => Some(kafka_connect.schema_name@),
                None => None,
            },
        }),
        Encoder::<'a, P>::model(text) == (EncoderModel::<P>::Text {
            schema: text.schema@,
            pk_index: text.pk_index,
        }),
        Encoder::<'a, P>::model(avro) == EncoderModel::<P>::Avro(avro.inner),
        Encoder::<'a, P>::model(proto) == EncoderModel::<P>::Proto(proto.inner),
        Encoder::<'a, P>::model(template) == (EncoderModel::<P>::Template {
            schema: template.schema@,
            pk_indices: match template.pk_indices {
                Some(indices) => Some(indices@),
                None => None,
            },
            template: template.template@,
        }),
{
}

/// The five encoders are built as those of their kinds; only Protobuf is not for keys.
pub proof fn law_encoders_by_kind<'a, P: Host>(
    params: ParamsModel,
    pk_indices: Option<Seq<usize>>,
    state: EncoderState<P>,
    reply: Reply<P>,
)
    ensures
        JsonEncoder::<P>::start(params, pk_indices) == start_encoder::<P>(
            EncoderKind::Json,
            params,
            pk_indices,
        ),
        <TextEncoder as Encoder<'a, P>>::start(params, pk_indices) == start_encoder::<P>(
            EncoderKind::Text,
            params,
            pk_indices,
        ),
        AvroEncoder::<P>::start(params, pk_indices) == start_encoder::<P>(
            EncoderKind::Avro,
            params,
            pk_indices,
        ),
        ProtoEncoder::<P>::start(params, pk_indices) == start_encoder::<P>(
            EncoderKind::Proto,
            params,
            pk_indices,
        ),
        <TemplateEncoder as Encoder<'a, P>>::start(params, pk_indices) == start_encoder::<P>(
            EncoderKind::Template,
            params,
            pk_indices,
        ),
        JsonEncoder::<P>::step(state, reply) == resume_encoder(state, reply),
        <TextEncoder as Encoder<'a, P>>::step(state, reply) == resume_encoder(state, reply),
        AvroEncoder::<P>::step(state, reply) == resume_encoder(state, reply),
        ProtoEncoder::<P>::step(state, reply) == resume_encoder(state, reply),
        <TemplateEncoder as Encoder<'a, P>>::step(state, reply) == resume_encoder(state, reply),
        JsonEncoder::<P>::encodes_keys(),
        <TextEncoder as Encoder<'a, P>>::encodes_keys(),
        AvroEncoder::<P>::encodes_keys(),
        !ProtoEncoder::<P>::encodes_keys(),
        <TemplateEncoder as Encoder<'a, P>>::encodes_keys(),
{
}

/// The models of append-only and upsert formatters show the models of their encoders.
pub proof fn law_pair_models<'a, P: Host, KE: Encoder<'a, P>, VE: Encoder<'a, P>>(
    append_only: AppendOnlyFormatter<KE, VE>,
    upsert: UpsertFormatter<KE, VE>,
)
    ensures
        Formatter::<'a, P>::model(append_only) == (FormatterModel::AppendOnly {
            key: match append_only.key_encoder {
                Some(key) => Some(key.model()),
                None => None,
            },
            val: append_only.val_encoder.model(),
        }),
        Formatter::<'a, P>::model(upsert) == (FormatterModel::Upsert {
            key: upsert.key_encoder.model(),
            val: upsert.val_encoder.model(),
        }),
{
}

/// The model of a Debezium formatter shows all that it has.
pub proof fn law_debezium_models<'a, P: Host>(debezium: DebeziumJsonFormatter)
    ensures
        Formatter::<'a, P>::model(debezium) == (FormatterModel::<
            EncoderModel<P>,
            EncoderModel<P>,
        >::DebeziumJson {
            schema: debezium.schema@,
            pk_indices: debezium.pk_indices@,
            db_name: debezium.db_name@,
            sink_from_name: debezium.sink_from_name@,
            opts: debezium.opts,
        }),
{
}

/// The model of a sink formatter shows the formatter that it is.
pub proof fn law_sink_models<P: Host>(sink: SinkFormatterImpl<P>)
    ensures
        sink@.shape == sink.shape(),
        sink@.formatter == match sink {
            SinkFormatterImpl::AppendOnlyJson(formatter) => Formatter::<P>::model(formatter),
            SinkFormatterImpl::AppendOnlyTextJson(formatter) => Formatter::<P>::model(formatter),
            SinkFormatterImpl::AppendOnlyAvro(formatter) => Formatter::<P>::model(formatter),
            SinkFormatterImpl::AppendOnlyTextAvro(formatter) => Formatter::<P>::model(formatter),
            SinkFormatterImpl::AppendOnlyProto(formatter) => Formatter::<P>::model(formatter),
            SinkFormatterImpl::AppendOnlyTextProto(formatter) => Formatter::<P>::model(formatter),
            SinkFormatterImpl::AppendOnlyTemplate(formatter) => Formatter::<P>::model(formatter),
            SinkFormatterImpl::AppendOnlyTextTemplate(formatter) => Formatter::<P>::model(formatter),
            SinkFormatterImpl::UpsertJson(formatter) => Formatter::<P>::model(formatter),
            SinkFormatterImpl::UpsertTextJson(formatter) => Formatter::<P>::model(formatter),
            SinkFormatterImpl::UpsertAvro(formatter) => Formatter::<P>::model(formatter),
            SinkFormatterImpl::UpsertTextAvro(formatter) => Formatter::<P>::model(formatter),
            SinkFormatterImpl::UpsertProto(formatter) => Formatter::<P>::model(formatter),
            SinkFormatterImpl::UpsertTextProto(formatter) => Formatter::<P>::model(formatter),
            SinkFormatterImpl::UpsertTemplate(formatter) => Formatter::<P>::model(formatter),
            SinkFormatterImpl::UpsertTextTemplate(formatter) => Formatter::<P>::model(formatter),
            SinkFormatterImpl::DebeziumJson(formatter) => Formatter::<P>::model(formatter),
        },
{
}

/// The model of a rejection shows all that the rejection says.
pub proof fn law_rejection_models(rejection: Rejection)
    ensures
        rejection@ == match rejection {
            Rejection::TextValueEncode => RejectionModel::TextValueEncode,
            Rejection::Unsupported { format, encode, key_encode } => RejectionModel::Unsupported {
                format,
                encode,
                key_encode,
            },
            Rejection::SchemasEnable { value } => RejectionModel::SchemasEnable { value: value@ },
            Rejection::TextKeyMissing => RejectionModel::TextKeyMissing,
            Rejection::TextKeyColumns { count } => RejectionModel::TextKeyColumns {
                count: count as nat,
            },
            Rejection::TextKeyOutOfBounds { index, schema } => RejectionModel::TextKeyOutOfBounds {
                index: index as nat,
                schema: schema@,
            },
            Rejection::TextKeyType { column, type_text } => RejectionModel::TextKeyType {
                column: column@,
                type_text: type_text@,
            },
            Rejection::TemplateMissing { option_name } => RejectionModel::TemplateMissing {
                option_name: option_name@,
            },
        },
{
}

/// The model of an error tells rejections, errors of fetching and other errors of the host apart,
/// and shows each.
pub proof fn law_error_models<P: Host>(error: SinkError<P>)
    ensures
        error@ == match error {
            SinkError::Config(ConfigError::Rejected(rejection)) => ErrorModel::<P>::Rejected(
                rejection@,
            ),
            SinkError::Config(ConfigError::Fetch(e)) => ErrorModel::Fetch(e),
            SinkError::Host(e) => ErrorModel::Host(e),
            SinkError::UnexpectedReply => ErrorModel::UnexpectedReply,
        },
{
}

/// The model of a step shows whether the build is over, and with what, or which call it waits for.
pub proof fn law_progress_models<'a, P: Host>(
    progress: Progress<'a, P, SinkFormatterImpl<P>, FormatterPending<'a, P>>,
)
    ensures
        match progress {
            Progress::Ready(Ok(formatter)) => progress@ matches ProgressModel::Ready(Ok(model))
                && model == formatter@,
            Progress::Ready(Err(error)) => progress@ matches ProgressModel::Ready(Err(model))
                && model == error@,
            Progress::Waiting(call, pending) => progress@ matches ProgressModel::Waiting(c, state)
                && c == call@ && state == pending@,
        },
{
}

} // verus!
