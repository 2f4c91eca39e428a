//! The JSON encoder.

use vstd::prelude::*;
use vstd::string::StringExecFns;

use crate::catalog::Schema;
use crate::encoder::{
    json_encoder, kafka_schema_name_for, resume_encoder, start_encoder, DateHandlingMode, Encoder,
    EncoderBuild, EncoderKind, EncoderModel, EncoderParams, EncoderState, ParamsModel,
    TimeHandlingMode, TimestampHandlingMode, SCHEMAS_ENABLE,
};
use crate::error::{rejected, Rejection, SinkError};
use crate::host::{indices_view, Call, Host, Progress, ProgressModel, Reply};
use crate::text::parse_bool;

verus! {

/// What a message that carries its schema needs to know.
pub struct KafkaConnectParams {
    pub schema_name: String,
}

/// An encoder to JSON.
pub struct JsonEncoder<P: Host> {
    pub schema: Schema,
    pub pk_indices: Option<Vec<usize>>,
    pub date_handling_mode: DateHandlingMode,
    pub timestamp_handling_mode: TimestampHandlingMode,
    pub timestamptz_handling_mode: P::TimestamptzMode,
    pub time_handling_mode: TimeHandlingMode,
    pub jsonb_handling_mode: P::JsonbMode,
    pub kafka_connect: Option<KafkaConnectParams>,
}

/// The schema name in Kafka Connect parameters that may be absent.
pub open spec fn schema_name_view(kafka_connect: Option<KafkaConnectParams>) -> Option<Seq<char>> {
    match kafka_connect {
        Some(params) => Some(params.schema_name@),
        None => None,
    }
}

/// The build of a JSON encoder that waits for a reply.
pub enum JsonPending<'a, P: Host> {
    Timestamptz { params: EncoderParams<'a>, pk_indices: Option<Vec<usize>> },
    Jsonb {
        params: EncoderParams<'a>,
        pk_indices: Option<Vec<usize>>,
        timestamptz_mode: P::TimestamptzMode,
    },
}

/// Decides on Kafka Connect parameters by a value of `schemas.enable` and its lower case.
pub fn kafka_connect_for(
    value: &String,
    lowered: &String,
    db_name: &String,
    sink_from_name: &String,
) -> (result: Result<Option<KafkaConnectParams>, Rejection>)
    ensures
        match kafka_schema_name_for(value@, lowered@, db_name@, sink_from_name@) {
            Ok(name) => result matches Ok(params) && schema_name_view(params) == name,
            Err(rejection) => result matches Err(error) && error@ == rejection,
        },
{
    match parse_bool(lowered) {
        Some(true) => {
            let mut schema_name: String = db_name.clone();
            schema_name.append(".");
            schema_name.append(sink_from_name.as_str());
            Ok(Some(KafkaConnectParams { schema_name }))
        },
        Some(false) => Ok(None),
        None => Err(Rejection::SchemasEnable { value: value.clone() }),
    }
}

impl<P: Host> JsonEncoder<P> {
    /// The encoder, as mathematical values.
    pub open spec fn values(self) -> EncoderModel<P> {
        EncoderModel::Json {
            schema: self.schema@,
            pk_indices: indices_view(self.pk_indices),
            date_handling_mode: self.date_handling_mode,
            timestamp_handling_mode: self.timestamp_handling_mode,
            timestamptz_handling_mode: self.timestamptz_handling_mode,
            time_handling_mode: self.time_handling_mode,
            jsonb_handling_mode: self.jsonb_handling_mode,
            kafka_schema_name: schema_name_view(self.kafka_connect),
        }
    }

    /// An encoder without Kafka Connect parameters.
    pub fn new(
        schema: Schema,
        pk_indices: Option<Vec<usize>>,
        date_handling_mode: DateHandlingMode,
        timestamp_handling_mode: TimestampHandlingMode,
        timestamptz_handling_mode: P::TimestamptzMode,
        time_handling_mode: TimeHandlingMode,
        jsonb_handling_mode: P::JsonbMode,
    ) -> (encoder: JsonEncoder<P>)
        ensures
            encoder == (JsonEncoder::<P> {
                schema,
                pk_indices,
                date_handling_mode,
                timestamp_handling_mode,
                timestamptz_handling_mode,
                time_handling_mode,
                jsonb_handling_mode,
                kafka_connect: None,
            }),
    {
        JsonEncoder {
            schema,
            pk_indices,
            date_handling_mode,
            timestamp_handling_mode,
            timestamptz_handling_mode,
            time_handling_mode,
            jsonb_handling_mode,
            kafka_connect: None,
        }
    }

    /// The same encoder with Kafka Connect parameters.
    pub fn with_kafka_connect(self, kafka_connect: KafkaConnectParams) -> (encoder: JsonEncoder<P>)
        ensures
            encoder == (JsonEncoder::<P> { kafka_connect: Some(kafka_connect), ..self }),
    {
        JsonEncoder { kafka_connect: Some(kafka_connect), ..self }
    }

    /// The last step of the build, once both modes are known.
    fn finish(
        params: EncoderParams,
        pk_indices: Option<Vec<usize>>,
        timestamptz_mode: P::TimestamptzMode,
        jsonb_mode: P::JsonbMode,
    ) -> (result: Result<JsonEncoder<P>, SinkError<P>>)
        ensures
            match json_encoder::<P>(
                params@,
                indices_view(pk_indices),
                timestamptz_mode,
                jsonb_mode,
            ) {
                Ok(encoder) => result matches Ok(built) && built.values() == encoder,
                Err(error) => result matches Err(reported) && reported@ == error,
            },
    {
        let encoder: JsonEncoder<P> = JsonEncoder::new(
            params.schema,
            pk_indices,
            DateHandlingMode::FromCe,
            TimestampHandlingMode::Milli,
            timestamptz_mode,
            TimeHandlingMode::Milli,
            jsonb_mode,
        );
        match params.format_desc.options.get(SCHEMAS_ENABLE) {
            Some(value) => {
                let lowered: String = value.as_str().to_lowercase();
                match kafka_connect_for(value, &lowered, &params.db_name, &params.sink_from_name) {
                    Ok(Some(kafka_connect)) => Ok(encoder.with_kafka_connect(kafka_connect)),
                    Ok(None) => Ok(encoder),
                    Err(rejection) => Err(rejected(rejection)),
                }
            },
            None => Ok(encoder),
        }
    }
}

impl<'a, P: Host> Encoder<'a, P> for JsonEncoder<P> {
    type Pending = JsonPending<'a, P>;

    type Model = EncoderModel<P>;

    type State = EncoderState<P>;

    open spec fn model(self) -> EncoderModel<P> {
        self.values()
    }

    open spec fn state(pending: Self::Pending) -> EncoderState<P> {
        match pending {
            JsonPending::Timestamptz { params, pk_indices } => EncoderState::JsonTimestamptz {
                params: params@,
                pk_indices: indices_view(pk_indices),
            },
            JsonPending::Jsonb { params, pk_indices, timestamptz_mode } => EncoderState::JsonJsonb {
                params: params@,
                pk_indices: indices_view(pk_indices),
                timestamptz_mode,
            },
        }
    }

    open spec fn encodes_keys() -> bool {
        true
    }

    open spec fn start(params: ParamsModel, pk_indices: Option<Seq<usize>>) -> ProgressModel<
        P,
        EncoderModel<P>,
        EncoderState<P>,
    > {
        start_encoder(EncoderKind::Json, params, pk_indices)
    }

    open spec fn step(state: EncoderState<P>, reply: Reply<P>) -> ProgressModel<
        P,
        EncoderModel<P>,
        EncoderState<P>,
    > {
        resume_encoder(state, reply)
    }
}

impl<'a, P: Host> EncoderBuild<'a, P> for JsonEncoder<P> {
    fn build(params: EncoderParams<'a>, pk_indices: Option<Vec<usize>>) -> (progress: Progress<
        'a,
        P,
        Self,
        Self::Pending,
    >) {
        let call: Call<'a, P> = Call::TimestamptzMode { options: &params.format_desc.options };
        Progress::Waiting(call, JsonPending::Timestamptz { params, pk_indices })
    }

    fn resume(pending: Self::Pending, reply: Reply<P>) -> (progress: Progress<
        'a,
        P,
        Self,
        Self::Pending,
    >) {
        match (pending, reply) {
            (
                JsonPending::Timestamptz { params, pk_indices },
                Reply::TimestamptzMode(result),
            ) => match result {
                Ok(timestamptz_mode) => {
                    let call: Call<'a, P> = Call::JsonbMode {
                        options: &params.format_desc.options,
                    };
                    Progress::Waiting(
                        call,
                        JsonPending::Jsonb { params, pk_indices, timestamptz_mode },
                    )
                },
                Err(error) => Progress::Ready(Err(SinkError::Host(error))),
            },
            (
                JsonPending::Jsonb { params, pk_indices, timestamptz_mode },
                Reply::JsonbMode(result),
            ) => match result {
                Ok(jsonb_mode) => Progress::Ready(
                    JsonEncoder::finish(params, pk_indices, timestamptz_mode, jsonb_mode),
                ),
                Err(error) => Progress::Ready(Err(SinkError::Host(error))),
            },
            _ => Progress::Ready(Err(SinkError::UnexpectedReply)),
        }
    }
}

} // verus!
