//! The template encoder.

use vstd::prelude::*;

use crate::catalog::Schema;
use crate::encoder::{
    resume_encoder, start_encoder, Encoder, EncoderBuild, EncoderKind, EncoderModel, EncoderParams,
    EncoderState, ParamsModel, Settled, KEY_FORMAT, VALUE_FORMAT,
};
use crate::error::{rejected, Rejection, SinkError};
use crate::host::{indices_view, Host, Progress, ProgressModel, Reply};

verus! {

/// An encoder that fills a template.
pub struct TemplateEncoder {
    pub schema: Schema,
    pub pk_indices: Option<Vec<usize>>,
    pub template: String,
}

impl TemplateEncoder {
    /// An encoder that fills `template` from the columns at `pk_indices`, or from all columns.
    pub fn new(schema: Schema, pk_indices: Option<Vec<usize>>, template: String) -> (encoder:
        TemplateEncoder)
        ensures
            encoder == (TemplateEncoder { schema, pk_indices, template }),
    {
        TemplateEncoder { schema, pk_indices, template }
    }
}

impl<'a, P: Host> Encoder<'a, P> for TemplateEncoder {
    type Pending = Settled;

    type Model = EncoderModel<P>;

    type State = EncoderState<P>;

    open spec fn model(self) -> EncoderModel<P> {
        EncoderModel::Template {
            schema: self.schema@,
            pk_indices: indices_view(self.pk_indices),
            template: self.template@,
        }
    }

    open spec fn state(pending: Self::Pending) -> EncoderState<P> {
        EncoderState::Settled
    }

    open spec fn encodes_keys() -> bool {
        true
    }

    open spec fn start(params: ParamsModel, pk_indices: Option<Seq<usize>>) -> ProgressModel<
        P,
        EncoderModel<P>,
        EncoderState<P>,
    > {
        start_encoder(EncoderKind::Template, params, pk_indices)
    }

    open spec fn step(state: EncoderState<P>, reply: Reply<P>) -> ProgressModel<
        P,
        EncoderModel<P>,
        EncoderState<P>,
    > {
        resume_encoder(state, reply)
    }
}

impl<'a, P: Host> EncoderBuild<'a, P> for TemplateEncoder {
    fn build(params: EncoderParams<'a>, pk_indices: Option<Vec<usize>>) -> (progress: Progress<
        'a,
        P,
        Self,
        Self::Pending,
    >) {
        let option_name: &'static str = match pk_indices {
            Some(_) => KEY_FORMAT,
            None => VALUE_FORMAT,
        };
        match params.format_desc.options.get(option_name) {
            Some(template) => Progress::Ready(
                Ok(TemplateEncoder::new(params.schema, pk_indices, template.clone())),
            ),
            None => Progress::Ready(
                Err(rejected(Rejection::TemplateMissing { option_name: option_name.to_owned() })),
            ),
        }
    }

    fn resume(pending: Self::Pending, reply: Reply<P>) -> (progress: Progress<
        'a,
        P,
        Self,
        Self::Pending,
    >) {
        Progress::Ready(Err(SinkError::UnexpectedReply))
    }
}

} // verus!
