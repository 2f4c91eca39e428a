//! The Avro encoder.

use vstd::prelude::*;

use crate::catalog::Schema;
use crate::encoder::{
    resume_encoder, start_encoder, Encoder, EncoderBuild, EncoderKind, EncoderModel, EncoderParams,
    EncoderState, ParamsModel,
};
use crate::error::{not_fetched, SinkError};
use crate::host::{indices_view, AvroHeader, Call, Host, Progress, ProgressModel, Reply};

verus! {

/// An encoder to Avro messages, as the host made it.
pub struct AvroEncoder<P: Host> {
    pub inner: P::AvroEncoder,
}

/// The build of an Avro encoder that waits for a reply.
pub enum AvroPending {
    Loader { schema: Schema, pk_indices: Option<Vec<usize>> },
    Schema { schema: Schema, pk_indices: Option<Vec<usize>> },
    Encoder,
}

impl<'a, P: Host> Encoder<'a, P> for AvroEncoder<P> {
    type Pending = AvroPending;

    type Model = EncoderModel<P>;

    type State = EncoderState<P>;

    open spec fn model(self) -> EncoderModel<P> {
        EncoderModel::Avro(self.inner)
    }

    open spec fn state(pending: Self::Pending) -> EncoderState<P> {
        match pending {
            AvroPending::Loader { schema, pk_indices } => EncoderState::AvroLoader {
                schema: schema@,
                pk_indices: indices_view(pk_indices),
            },
            AvroPending::Schema { schema, pk_indices } => EncoderState::AvroSchema {
                schema: schema@,
                pk_indices: indices_view(pk_indices),
            },
            AvroPending::Encoder => EncoderState::AvroEncoder,
        }
    }

    open spec fn encodes_keys() -> bool {
        true
    }

    open spec fn start(params: ParamsModel, pk_indices: Option<Seq<usize>>) -> ProgressModel<
        P,
        EncoderModel<P>,
        EncoderState<P>,
    > {
        start_encoder(EncoderKind::Avro, params, pk_indices)
    }

    open spec fn step(state: EncoderState<P>, reply: Reply<P>) -> ProgressModel<
        P,
        EncoderModel<P>,
        EncoderState<P>,
    > {
        resume_encoder(state, reply)
    }
}

impl<'a, P: Host> EncoderBuild<'a, P> for AvroEncoder<P> {
    fn build(params: EncoderParams<'a>, pk_indices: Option<Vec<usize>>) -> (progress: Progress<
        'a,
        P,
        Self,
        Self::Pending,
    >) {
        let call: Call<'a, P> = Call::OpenSchemaLoader {
            topic: params.topic,
            options: &params.format_desc.options,
        };
        Progress::Waiting(call, AvroPending::Loader { schema: params.schema, pk_indices })
    }

    fn resume(pending: Self::Pending, reply: Reply<P>) -> (progress: Progress<
        'a,
        P,
        Self,
        Self::Pending,
    >) {
        match (pending, reply) {
            (
                AvroPending::Loader { schema, pk_indices },
                Reply::SchemaLoader(result),
            ) => match result {
                Ok(loader) => {
                    let call: Call<'a, P> = match pk_indices {
                        Some(_) => Call::LoadKeySchema { loader },
                        None => Call::LoadValSchema { loader },
                    };
                    Progress::Waiting(call, AvroPending::Schema { schema, pk_indices })
                },
                Err(error) => Progress::Ready(Err(not_fetched(error))),
            },
            (AvroPending::Schema { schema, pk_indices }, Reply::Schema(result)) => match result {
                Ok((schema_id, avro)) => Progress::Waiting(
                    Call::NewAvroEncoder {
                        schema,
                        pk_indices,
                        avro,
                        header: AvroHeader::ConfluentSchemaRegistry(schema_id),
                    },
                    AvroPending::Encoder,
                ),
                Err(error) => Progress::Ready(Err(not_fetched(error))),
            },
            (AvroPending::Encoder, Reply::AvroEncoder(result)) => match result {
                Ok(inner) => Progress::Ready(Ok(AvroEncoder { inner })),
                Err(error) => Progress::Ready(Err(SinkError::Host(error))),
            },
            _ => Progress::Ready(Err(SinkError::UnexpectedReply)),
        }
    }
}

} // verus!
