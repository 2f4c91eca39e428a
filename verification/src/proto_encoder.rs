//! The Protobuf encoder.

use vstd::prelude::*;

use crate::catalog::Schema;
use crate::encoder::{
    resume_encoder, start_encoder, Encoder, EncoderBuild, EncoderKind, EncoderModel, EncoderParams,
    EncoderState, ParamsModel,
};
use crate::error::{not_fetched, SinkError};
use crate::host::{Call, Host, Progress, ProgressModel, ProtoHeader, Reply};

verus! {

/// An encoder to Protobuf messages, as the host made it.
pub struct ProtoEncoder<P: Host> {
    pub inner: P::ProtoEncoder,
}

/// The build of a Protobuf encoder that waits for a reply.
pub enum ProtoPending {
    Descriptor { schema: Schema },
    Encoder,
}

impl<'a, P: Host> Encoder<'a, P> for ProtoEncoder<P> {
    type Pending = ProtoPending;

    type Model = EncoderModel<P>;

    type State = EncoderState<P>;

    open spec fn model(self) -> EncoderModel<P> {
        EncoderModel::Proto(self.inner)
    }

    open spec fn state(pending: Self::Pending) -> EncoderState<P> {
        match pending {
            ProtoPending::Descriptor { schema } => EncoderState::ProtoDescriptor {
                schema: schema@,
            },
            ProtoPending::Encoder => EncoderState::ProtoEncoder,
        }
    }

    open spec fn encodes_keys() -> bool {
        false
    }

    open spec fn start(params: ParamsModel, pk_indices: Option<Seq<usize>>) -> ProgressModel<
        P,
        EncoderModel<P>,
        EncoderState<P>,
    > {
        start_encoder(EncoderKind::Proto, params, pk_indices)
    }

    open spec fn step(state: EncoderState<P>, reply: Reply<P>) -> ProgressModel<
        P,
        EncoderModel<P>,
        EncoderState<P>,
    > {
        resume_encoder(state, reply)
    }
}

impl<'a, P: Host> EncoderBuild<'a, P> for ProtoEncoder<P> {
    fn build(params: EncoderParams<'a>, pk_indices: Option<Vec<usize>>) -> (progress: Progress<
        'a,
        P,
        Self,
        Self::Pending,
    >) {
        let call: Call<'a, P> = Call::FetchDescriptor {
            options: &params.format_desc.options,
            topic: params.topic,
        };
        Progress::Waiting(call, ProtoPending::Descriptor { schema: params.schema })
    }

    fn resume(pending: Self::Pending, reply: Reply<P>) -> (progress: Progress<
        'a,
        P,
        Self,
        Self::Pending,
    >) {
        match (pending, reply) {
            (ProtoPending::Descriptor { schema }, Reply::Descriptor(result)) => match result {
                Ok((descriptor, schema_id)) => {
                    let header: ProtoHeader<P> = match schema_id {
                        None => ProtoHeader::Absent,
                        Some(schema_id) => ProtoHeader::ConfluentSchemaRegistry(schema_id),
                    };
                    Progress::Waiting(
                        Call::NewProtoEncoder { schema, descriptor, header },
                        ProtoPending::Encoder,
                    )
                },
                Err(error) => Progress::Ready(Err(not_fetched(error))),
            },
            (ProtoPending::Encoder, Reply::ProtoEncoder(result)) => match result {
                Ok(inner) => Progress::Ready(Ok(ProtoEncoder { inner })),
                Err(error) => Progress::Ready(Err(SinkError::Host(error))),
            },
            _ => Progress::Ready(Err(SinkError::UnexpectedReply)),
        }
    }
}

} // verus!
