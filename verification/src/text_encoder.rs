//! The text encoder, for keys of one column.

use vstd::prelude::*;

use crate::catalog::{DataType, Schema};
use crate::encoder::{
    resume_encoder, start_encoder, Encoder, EncoderBuild, EncoderKind, EncoderModel, EncoderParams,
    EncoderState, ParamsModel, Settled,
};
use crate::error::{rejected, Rejection, SinkError};
use crate::host::{Host, Progress, ProgressModel, Reply};

verus! {

/// An encoder of one column to text.
pub struct TextEncoder {
    pub schema: Schema,
    pub pk_index: usize,
}

impl TextEncoder {
    /// An encoder of the column at `pk_index`.
    pub fn new(schema: Schema, pk_index: usize) -> (encoder: TextEncoder)
        ensures
            encoder == (TextEncoder { schema, pk_index }),
    {
        TextEncoder { schema, pk_index }
    }
}

impl<'a, P: Host> Encoder<'a, P> for TextEncoder {
    type Pending = Settled;

    type Model = EncoderModel<P>;

    type State = EncoderState<P>;

    open spec fn model(self) -> EncoderModel<P> {
        EncoderModel::Text { schema: self.schema@, pk_index: self.pk_index }
    }

    open spec fn state(pending: Self::Pending) -> EncoderState<P> {
        EncoderState::Settled
    }

    open spec fn encodes_keys() -> bool {
        true
    }

    open spec fn start(params: ParamsModel, pk_indices: Option<Seq<usize>>) -> ProgressModel<
        P,
        EncoderModel<P>,
        EncoderState<P>,
    > {
        start_encoder(EncoderKind::Text, params, pk_indices)
    }

    open spec fn step(state: EncoderState<P>, reply: Reply<P>) -> ProgressModel<
        P,
        EncoderModel<P>,
        EncoderState<P>,
    > {
        resume_encoder(state, reply)
    }
}

impl<'a, P: Host> EncoderBuild<'a, P> for TextEncoder {
    fn build(params: EncoderParams<'a>, pk_indices: Option<Vec<usize>>) -> (progress: Progress<
        'a,
        P,
        Self,
        Self::Pending,
    >) {
        let Some(pk_indices) = pk_indices else {
            return Progress::Ready(Err(rejected(Rejection::TextKeyMissing)));
        };
        if pk_indices.len() != 1 {
            return Progress::Ready(
                Err(rejected(Rejection::TextKeyColumns { count: pk_indices.len() })),
            );
        }
        let index: usize = pk_indices[0];
        if index >= params.schema.fields().len() {
            return Progress::Ready(
                Err(rejected(Rejection::TextKeyOutOfBounds { index, schema: params.schema })),
            );
        }
        let column = &params.schema.fields()[index];
        match &column.data_type {
            DataType::Varchar
            | DataType::Boolean
            | DataType::Int16
            | DataType::Int32
            | DataType::Int64
            | DataType::Int256
            | DataType::Serial => {},
            DataType::Other(display) => {
                return Progress::Ready(
                    Err(
                        rejected(
                            Rejection::TextKeyType {
                                column: column.name.clone(),
                                type_text: display.clone(),
                            },
                        ),
                    ),
                );
            },
        }
        Progress::Ready(Ok(TextEncoder::new(params.schema, index)))
    }

    fn resume(pending: Self::Pending, reply: Reply<P>) -> (progress: Progress<
        'a,
        P,
        Self,
        Self::Pending,
    >) {
        Progress::Ready(Err(SinkError::UnexpectedReply))
    }
}

} // verus!
