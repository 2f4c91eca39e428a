//! What all encoders have in common: what they are built from, and how their builds run.

use vstd::prelude::*;

use crate::catalog::{
    DataType, Schema, SchemaModel, SinkEncode, SinkFormat, SinkFormatDesc,
};
use crate::error::{ErrorModel, RejectionModel};
use crate::host::{
    indices_view, AvroHeader, CallModel, Host, Progress, ProgressModel, ProtoHeader, Reply,
};
use crate::text::{bool_spelled, lowercase};

verus! {

/// The option that holds the template of the key.
pub const KEY_FORMAT: &'static str = "key_format";

/// The option that holds the template of the value.
pub const VALUE_FORMAT: &'static str = "value_format";

/// The option that asks for a schema in every JSON message.
pub const SCHEMAS_ENABLE: &'static str = "schemas.enable";

/// What an encoder is built from.
#[derive(Debug)]
pub struct EncoderParams<'a> {
    pub format_desc: &'a SinkFormatDesc,
    pub schema: Schema,
    pub db_name: String,
    pub sink_from_name: String,
    pub topic: &'a str,
}

/// What an encoder is built from, as mathematical values.
pub struct ParamsModel {
    pub format: SinkFormat,
    pub encode: SinkEncode,
    pub key_encode: Option<SinkEncode>,
    pub options: Map<Seq<char>, Seq<char>>,
    pub schema: SchemaModel,
    pub db_name: Seq<char>,
    pub sink_from_name: Seq<char>,
    pub topic: Seq<char>,
}

impl<'a> View for EncoderParams<'a> {
    type V = ParamsModel;

    open spec fn view(&self) -> ParamsModel {
        ParamsModel {
            format: self.format_desc.format,
            encode: self.format_desc.encode,
            key_encode: self.format_desc.key_encode,
            options: self.format_desc.options@,
            schema: self.schema@,
            db_name: self.db_name@,
            sink_from_name: self.sink_from_name@,
            topic: self.topic@,
        }
    }
}

impl<'a> Clone for EncoderParams<'a> {
    fn clone(&self) -> (copy: EncoderParams<'a>)
        ensures
            copy@ == self@,
    {
        EncoderParams {
            format_desc: self.format_desc,
            schema: self.schema.clone(),
            db_name: self.db_name.clone(),
            sink_from_name: self.sink_from_name.clone(),
            topic: self.topic,
        }
    }
}

/// How dates are written.
#[derive(Debug, Clone, Copy, PartialEq, Eq, Structural)]
pub enum DateHandlingMode {
    FromCe,
    FromEpoch,
    String,
}

/// How timestamps without a time zone are written.
#[derive(Debug, Clone, Copy, PartialEq, Eq, Structural)]
pub enum TimestampHandlingMode {
    Milli,
    String,
}

/// How times of day are written.
#[derive(Debug, Clone, Copy, PartialEq, Eq, Structural)]
pub enum TimeHandlingMode {
    Milli,
    String,
}

/// The encoders that there are.
pub enum EncoderKind {
    Json,
    Text,
    Avro,
    Proto,
    Template,
}

/// An encoder, as mathematical values.
pub enum EncoderModel<P: Host> {
    Json {
        schema: SchemaModel,
        pk_indices: Option<Seq<usize>>,
        date_handling_mode: DateHandlingMode,
        timestamp_handling_mode: TimestampHandlingMode,
        timestamptz_handling_mode: P::TimestamptzMode,
        time_handling_mode: TimeHandlingMode,
        jsonb_handling_mode: P::JsonbMode,
        kafka_schema_name: Option<Seq<char>>,
    },
    Text { schema: SchemaModel, pk_index: usize },
    Avro(P::AvroEncoder),
    Proto(P::ProtoEncoder),
    Template { schema: SchemaModel, pk_indices: Option<Seq<usize>>, template: Seq<char> },
}

impl<P: Host> EncoderModel<P> {
    /// Which encoder this is.
    pub open spec fn kind(self) -> EncoderKind {
        match self {
            EncoderModel::Json { .. } => EncoderKind::Json,
            EncoderModel::Text { .. } => EncoderKind::Text,
            EncoderModel::Avro(_) => EncoderKind::Avro,
            EncoderModel::Proto(_) => EncoderKind::Proto,
            EncoderModel::Template { .. } => EncoderKind::Template,
        }
    }
}

/// What the build of an encoder that waits for a reply knows so far.
pub enum EncoderState<P: Host> {
    /// A JSON encoder, before it knows how timestamps with a time zone are written.
    JsonTimestamptz { params: ParamsModel, pk_indices: Option<Seq<usize>> },
    /// A JSON encoder, before it knows how JSON columns are written.
    JsonJsonb {
        params: ParamsModel,
        pk_indices: Option<Seq<usize>>,
        timestamptz_mode: P::TimestamptzMode,
    },
    /// A Protobuf encoder, before it has its descriptor.
    ProtoDescriptor { schema: SchemaModel },
    /// A Protobuf encoder that is being made.
    ProtoEncoder,
    /// An Avro encoder, before it has a loader of schemas.
    AvroLoader { schema: SchemaModel, pk_indices: Option<Seq<usize>> },
    /// An Avro encoder, before it has its Avro schema.
    AvroSchema { schema: SchemaModel, pk_indices: Option<Seq<usize>> },
    /// An Avro encoder that is being made.
    AvroEncoder,
    /// No call is open.
    Settled,
}

impl<P: Host> EncoderState<P> {
    /// `reply` is of the kind that this state waits for.
    pub open spec fn expects(self, reply: Reply<P>) -> bool {
        match self {
            EncoderState::JsonTimestamptz { .. } => reply is TimestamptzMode,
            EncoderState::JsonJsonb { .. } => reply is JsonbMode,
            EncoderState::ProtoDescriptor { .. } => reply is Descriptor,
            EncoderState::ProtoEncoder => reply is ProtoEncoder,
            EncoderState::AvroLoader { .. } => reply is SchemaLoader,
            EncoderState::AvroSchema { .. } => reply is Schema,
            EncoderState::AvroEncoder => reply is AvroEncoder,
            EncoderState::Settled => false,
        }
    }
}

/// The Kafka Connect schema name that the options ask for, if they ask for one.
pub open spec fn kafka_schema_name(params: ParamsModel) -> Result<
    Option<Seq<char>>,
    RejectionModel,
> {
    if !params.options.contains_key(SCHEMAS_ENABLE@) {
        Ok(None)
    } else {
        let value = params.options[SCHEMAS_ENABLE@];
        kafka_schema_name_for(value, lowercase(value), params.db_name, params.sink_from_name)
    }
}

/// The Kafka Connect schema name for a value of `schemas.enable` whose lower case is `lowered`.
pub open spec fn kafka_schema_name_for(
    value: Seq<char>,
    lowered: Seq<char>,
    db_name: Seq<char>,
    sink_from_name: Seq<char>,
) -> Result<Option<Seq<char>>, RejectionModel> {
    match bool_spelled(lowered) {
        Some(true) => Ok(Some(db_name + "."@ + sink_from_name)),
        Some(false) => Ok(None),
        None => Err(RejectionModel::SchemasEnable { value }),
    }
}

/// The JSON encoder for given modes of timestamps with a time zone and of JSON columns.
pub open spec fn json_encoder<P: Host>(
    params: ParamsModel,
    pk_indices: Option<Seq<usize>>,
    timestamptz_mode: P::TimestamptzMode,
    jsonb_mode: P::JsonbMode,
) -> Result<EncoderModel<P>, ErrorModel<P>> {
    match kafka_schema_name(params) {
        Ok(kafka_schema_name) => Ok(
            EncoderModel::Json {
                schema: params.schema,
                pk_indices,
                date_handling_mode: DateHandlingMode::FromCe,
                timestamp_handling_mode: TimestampHandlingMode::Milli,
                timestamptz_handling_mode: timestamptz_mode,
                time_handling_mode: TimeHandlingMode::Milli,
                jsonb_handling_mode: jsonb_mode,
                kafka_schema_name,
            },
        ),
        Err(rejection) => Err(ErrorModel::Rejected(rejection)),
    }
}

/// A column of this type can be a text key.
pub open spec fn text_key_type(data_type: DataType) -> bool {
    match data_type {
        DataType::Varchar
        | DataType::Boolean
        | DataType::Int16
        | DataType::Int32
        | DataType::Int64
        | DataType::Int256
        | DataType::Serial => true,
        DataType::Other(_) => false,
    }
}

/// The text encoder of a key.
pub open spec fn text_encoder<P: Host>(
    schema: SchemaModel,
    pk_indices: Option<Seq<usize>>,
) -> Result<EncoderModel<P>, RejectionModel> {
    match pk_indices {
        None => Err(RejectionModel::TextKeyMissing),
        Some(indices) => if indices.len() != 1 {
            Err(RejectionModel::TextKeyColumns { count: indices.len() })
        } else if indices[0] >= schema.fields.len() {
            Err(RejectionModel::TextKeyOutOfBounds { index: indices[0] as nat, schema })
        } else {
            let column = schema.fields[indices[0] as int];
            match column.data_type {
                DataType::Other(display) => Err(
                    RejectionModel::TextKeyType { column: column.name@, type_text: display@ },
                ),
                _ => Ok(EncoderModel::Text { schema, pk_index: indices[0] }),
            }
        },
    }
}

/// The option that holds the template: one for a key, one for a value.
pub open spec fn template_option(pk_indices: Option<Seq<usize>>) -> Seq<char> {
    if pk_indices is Some {
        KEY_FORMAT@
    } else {
        VALUE_FORMAT@
    }
}

/// The template encoder.
pub open spec fn template_encoder<P: Host>(
    params: ParamsModel,
    pk_indices: Option<Seq<usize>>,
) -> Result<EncoderModel<P>, RejectionModel> {
    let option_name = template_option(pk_indices);
    if params.options.contains_key(option_name) {
        Ok(
            EncoderModel::Template {
                schema: params.schema,
                pk_indices,
                template: params.options[option_name],
            },
        )
    } else {
        Err(RejectionModel::TemplateMissing { option_name })
    }
}

/// A build that ends at once.
pub open spec fn at_once<P: Host, S>(
    result: Result<EncoderModel<P>, RejectionModel>,
) -> ProgressModel<P, EncoderModel<P>, S> {
    match result {
        Ok(encoder) => ProgressModel::Ready(Ok(encoder)),
        Err(rejection) => ProgressModel::Ready(Err(ErrorModel::Rejected(rejection))),
    }
}

/// The first step of the build of an encoder, of a key over the columns `pk_indices` or of a value.
pub open spec fn start_encoder<P: Host>(
    kind: EncoderKind,
    params: ParamsModel,
    pk_indices: Option<Seq<usize>>,
) -> ProgressModel<P, EncoderModel<P>, EncoderState<P>> {
    match kind {
        EncoderKind::Json => ProgressModel::Waiting(
            CallModel::TimestamptzMode { options: params.options },
            EncoderState::JsonTimestamptz { params, pk_indices },
        ),
        EncoderKind::Text => at_once(text_encoder(params.schema, pk_indices)),
        EncoderKind::Avro => ProgressModel::Waiting(
            CallModel::OpenSchemaLoader { topic: params.topic, options: params.options },
            EncoderState::AvroLoader { schema: params.schema, pk_indices },
        ),
        EncoderKind::Proto => ProgressModel::Waiting(
            CallModel::FetchDescriptor { options: params.options, topic: params.topic },
            EncoderState::ProtoDescriptor { schema: params.schema },
        ),
        EncoderKind::Template => at_once(template_encoder(params, pk_indices)),
    }
}

/// The step of the build of an encoder on a reply. A reply to another call ends the build.
pub open spec fn resume_encoder<P: Host>(state: EncoderState<P>, reply: Reply<P>) -> ProgressModel<
    P,
    EncoderModel<P>,
    EncoderState<P>,
> {
    match (state, reply) {
        (
            EncoderState::JsonTimestamptz { params, pk_indices },
            Reply::TimestamptzMode(result),
        ) => match result {
            Ok(timestamptz_mode) => ProgressModel::Waiting(
                CallModel::JsonbMode { options: params.options },
                EncoderState::JsonJsonb { params, pk_indices, timestamptz_mode },
            ),
            Err(error) => ProgressModel::Ready(Err(ErrorModel::Host(error))),
        },
        (
            EncoderState::JsonJsonb { params, pk_indices, timestamptz_mode },
            Reply::JsonbMode(result),
        ) => match result {
            Ok(jsonb_mode) => ProgressModel::Ready(
                json_encoder(params, pk_indices, timestamptz_mode, jsonb_mode),
            ),
            Err(error) => ProgressModel::Ready(Err(ErrorModel::Host(error))),
        },
        (EncoderState::ProtoDescriptor { schema }, Reply::Descriptor(result)) => match result {
            Ok((descriptor, schema_id)) => ProgressModel::Waiting(
                CallModel::NewProtoEncoder { schema, descriptor, header: proto_header(schema_id) },
                EncoderState::ProtoEncoder,
            ),
            Err(error) => ProgressModel::Ready(Err(ErrorModel::Fetch(error))),
        },
        (EncoderState::ProtoEncoder, Reply::ProtoEncoder(result)) => match result {
            Ok(encoder) => ProgressModel::Ready(Ok(EncoderModel::Proto(encoder))),
            Err(error) => ProgressModel::Ready(Err(ErrorModel::Host(error))),
        },
        (EncoderState::AvroLoader { schema, pk_indices }, Reply::SchemaLoader(result)) => match result {
            Ok(loader) => ProgressModel::Waiting(
                load_schema(pk_indices, loader),
                EncoderState::AvroSchema { schema, pk_indices },
            ),
            Err(error) => ProgressModel::Ready(Err(ErrorModel::Fetch(error))),
        },
        (EncoderState::AvroSchema { schema, pk_indices }, Reply::Schema(result)) => match result {
            Ok((schema_id, avro)) => ProgressModel::Waiting(
                CallModel::NewAvroEncoder {
                    schema,
                    pk_indices,
                    avro,
                    header: AvroHeader::ConfluentSchemaRegistry(schema_id),
                },
                EncoderState::AvroEncoder,
            ),
            Err(error) => ProgressModel::Ready(Err(ErrorModel::Fetch(error))),
        },
        (EncoderState::AvroEncoder, Reply::AvroEncoder(result)) => match result {
            Ok(encoder) => ProgressModel::Ready(Ok(EncoderModel::Avro(encoder))),
            Err(error) => ProgressModel::Ready(Err(ErrorModel::Host(error))),
        },
        _ => ProgressModel::Ready(Err(ErrorModel::UnexpectedReply)),
    }
}

/// The header of Protobuf messages whose descriptor came with `schema_id`, if with any.
pub open spec fn proto_header<P: Host>(schema_id: Option<P::SchemaId>) -> ProtoHeader<P> {
    match schema_id {
        None => ProtoHeader::Absent,
        Some(schema_id) => ProtoHeader::ConfluentSchemaRegistry(schema_id),
    }
}

/// The call for the Avro schema of a key or of a value.
pub open spec fn load_schema<P: Host>(
    pk_indices: Option<Seq<usize>>,
    loader: P::SchemaLoader,
) -> CallModel<P> {
    if pk_indices is Some {
        CallModel::LoadKeySchema { loader }
    } else {
        CallModel::LoadValSchema { loader }
    }
}

/// How an encoder is built: the first step, and the step on a reply.
#[verifier::reject_recursive_types(P)]
#[verifier::reject_recursive_types(S)]
pub struct Builder<P: Host, M, S> {
    pub start: spec_fn(ParamsModel, Option<Seq<usize>>) -> ProgressModel<P, M, S>,
    pub step: spec_fn(S, Reply<P>) -> ProgressModel<P, M, S>,
}

/// How an encoder of the given kind is built.
pub open spec fn builder_of_kind<P: Host>(kind: EncoderKind) -> Builder<
    P,
    EncoderModel<P>,
    EncoderState<P>,
> {
    Builder {
        start: |params: ParamsModel, pk_indices: Option<Seq<usize>>|
            start_encoder(kind, params, pk_indices),
        step: |state: EncoderState<P>, reply: Reply<P>| resume_encoder(state, reply),
    }
}

/// An encoder and its builds, as mathematical values.
pub trait Encoder<'a, P: Host>: Sized {
    /// A build that waits for a reply.
    type Pending;

    /// What an encoder is modelled by.
    type Model;

    /// What a build that waits is modelled by.
    type State;

    /// The model of an encoder.
    spec fn model(self) -> Self::Model;

    /// The model of a build that waits.
    spec fn state(pending: Self::Pending) -> Self::State;

    /// There are encoders of this type for keys.
    spec fn encodes_keys() -> bool;

    /// The first step of a build, of a key over the columns `pk_indices` or of a value.
    spec fn start(params: ParamsModel, pk_indices: Option<Seq<usize>>) -> ProgressModel<
        P,
        Self::Model,
        Self::State,
    >;

    /// The step of a build on a reply.
    spec fn step(state: Self::State, reply: Reply<P>) -> ProgressModel<P, Self::Model, Self::State>;
}

/// How an encoder of the type `T` is built.
pub open spec fn builder_of<'a, P: Host, T: Encoder<'a, P>>() -> Builder<P, T::Model, T::State> {
    Builder {
        start: |params: ParamsModel, pk_indices: Option<Seq<usize>>| T::start(params, pk_indices),
        step: |state: T::State, reply: Reply<P>| T::step(state, reply),
    }
}

/// How far the build of an encoder has come, over models.
pub open spec fn encoder_progress<'a, P: Host, T: Encoder<'a, P>>(
    progress: Progress<'a, P, T, T::Pending>,
) -> ProgressModel<P, T::Model, T::State> {
    match progress {
        Progress::Ready(Ok(encoder)) => ProgressModel::Ready(Ok(encoder.model())),
        Progress::Ready(Err(error)) => ProgressModel::Ready(Err(error@)),
        Progress::Waiting(call, pending) => ProgressModel::Waiting(call@, T::state(pending)),
    }
}

/// An encoder that can be built from parameters.
///
/// How an encoder does its own work is no part of this: this is about how different encoders are
/// selected from one declaration.
pub trait EncoderBuild<'a, P: Host>: Encoder<'a, P> {
    /// Starts the build: with the columns of the key in `pk_indices` for a key, without for a
    /// value.
    fn build(params: EncoderParams<'a>, pk_indices: Option<Vec<usize>>) -> (progress: Progress<
        'a,
        P,
        Self,
        Self::Pending,
    >)
        requires
            pk_indices is Some ==> Self::encodes_keys(),
        ensures
            encoder_progress::<P, Self>(progress) == Self::start(params@, indices_view(pk_indices)),
    ;

    /// Goes on with a build, on the reply to the call that it waits for.
    fn resume(pending: Self::Pending, reply: Reply<P>) -> (progress: Progress<
        'a,
        P,
        Self,
        Self::Pending,
    >)
        ensures
            encoder_progress::<P, Self>(progress) == Self::step(Self::state(pending), reply),
    ;
}

/// The waiting build of an encoder that is built at once. No build hands one out.
pub struct Settled;

} // verus!
