//! The formatter of a sink: which one it is, and its build from the declaration of the sink.

use vstd::prelude::*;

use crate::avro_encoder::AvroEncoder;
use crate::catalog::{Schema, SinkEncode, SinkFormat, SinkFormatDesc};
use crate::encoder::{EncoderKind, EncoderParams, ParamsModel, Settled};
use crate::error::{rejected, ErrorModel, Rejection, RejectionModel, SinkError};
use crate::formatter::{
    formatter_progress, resume_formatter, start_formatter, AppendOnlyFormatter, AppendOnlyPending,
    BuildingFormatter, BuiltFormatter, DebeziumJsonFormatter, Formatter, FormatterBuild,
    FormatterParams, Shape, UpsertFormatter, UpsertPending,
};
use crate::host::{Host, Progress, ProgressModel, Reply};
use crate::json_encoder::JsonEncoder;
use crate::proto_encoder::ProtoEncoder;
use crate::template_encoder::TemplateEncoder;
use crate::text_encoder::TextEncoder;

verus! {

/// Transforms a chunk of changes into a sequence of key-value pairs according to a specific
/// format, for example append-only, upsert or Debezium.
pub trait SinkFormatter<P: Host> {
    /// A chunk of changes.
    type Chunk;

    /// An encoded key.
    type K;

    /// An encoded value.
    type V;

    /// * A key may be absent, so that messages are spread over the partitions in turn. For example
    ///   append-only without a primary key.
    /// * A value may be absent, so that messages with the same key are removed during log
    ///   compaction. For example the Debezium tombstone event.
    fn format_chunk(&self, chunk: &Self::Chunk) -> Vec<
        Result<(Option<Self::K>, Option<Self::V>), SinkError<P>>,
    >;
}

/// The formatter of a sink.
pub enum SinkFormatterImpl<P: Host> {
    AppendOnlyJson(AppendOnlyFormatter<JsonEncoder<P>, JsonEncoder<P>>),
    AppendOnlyTextJson(AppendOnlyFormatter<TextEncoder, JsonEncoder<P>>),
    AppendOnlyAvro(AppendOnlyFormatter<AvroEncoder<P>, AvroEncoder<P>>),
    AppendOnlyTextAvro(AppendOnlyFormatter<TextEncoder, AvroEncoder<P>>),
    AppendOnlyProto(AppendOnlyFormatter<JsonEncoder<P>, ProtoEncoder<P>>),
    AppendOnlyTextProto(AppendOnlyFormatter<TextEncoder, ProtoEncoder<P>>),
    AppendOnlyTemplate(AppendOnlyFormatter<TemplateEncoder, TemplateEncoder>),
    AppendOnlyTextTemplate(AppendOnlyFormatter<TextEncoder, TemplateEncoder>),
    UpsertJson(UpsertFormatter<JsonEncoder<P>, JsonEncoder<P>>),
    UpsertTextJson(UpsertFormatter<TextEncoder, JsonEncoder<P>>),
    UpsertAvro(UpsertFormatter<AvroEncoder<P>, AvroEncoder<P>>),
    UpsertTextAvro(UpsertFormatter<TextEncoder, AvroEncoder<P>>),
    UpsertProto(UpsertFormatter<JsonEncoder<P>, ProtoEncoder<P>>),
    UpsertTextProto(UpsertFormatter<TextEncoder, ProtoEncoder<P>>),
    UpsertTemplate(UpsertFormatter<TemplateEncoder, TemplateEncoder>),
    UpsertTextTemplate(UpsertFormatter<TextEncoder, TemplateEncoder>),
    DebeziumJson(DebeziumJsonFormatter),
}

/// The build of a sink formatter that waits for a reply.
pub enum FormatterPending<'a, P: Host> {
    AppendOnlyJson(AppendOnlyPending<'a, P, JsonEncoder<P>, JsonEncoder<P>>),
    AppendOnlyTextJson(AppendOnlyPending<'a, P, TextEncoder, JsonEncoder<P>>),
    AppendOnlyAvro(AppendOnlyPending<'a, P, AvroEncoder<P>, AvroEncoder<P>>),
    AppendOnlyTextAvro(AppendOnlyPending<'a, P, TextEncoder, AvroEncoder<P>>),
    AppendOnlyProto(AppendOnlyPending<'a, P, JsonEncoder<P>, ProtoEncoder<P>>),
    AppendOnlyTextProto(AppendOnlyPending<'a, P, TextEncoder, ProtoEncoder<P>>),
    AppendOnlyTemplate(AppendOnlyPending<'a, P, TemplateEncoder, TemplateEncoder>),
    AppendOnlyTextTemplate(AppendOnlyPending<'a, P, TextEncoder, TemplateEncoder>),
    UpsertJson(UpsertPending<'a, P, JsonEncoder<P>, JsonEncoder<P>>),
    UpsertTextJson(UpsertPending<'a, P, TextEncoder, JsonEncoder<P>>),
    UpsertAvro(UpsertPending<'a, P, AvroEncoder<P>, AvroEncoder<P>>),
    UpsertTextAvro(UpsertPending<'a, P, TextEncoder, AvroEncoder<P>>),
    UpsertProto(UpsertPending<'a, P, JsonEncoder<P>, ProtoEncoder<P>>),
    UpsertTextProto(UpsertPending<'a, P, TextEncoder, ProtoEncoder<P>>),
    UpsertTemplate(UpsertPending<'a, P, TemplateEncoder, TemplateEncoder>),
    UpsertTextTemplate(UpsertPending<'a, P, TextEncoder, TemplateEncoder>),
    DebeziumJson(Settled),
}

/// The formatter of a sink, as mathematical values.
pub struct SinkModel<P: Host> {
    pub shape: Shape,
    pub formatter: BuiltFormatter<P>,
}

/// The build of a sink formatter that waits for a reply, as mathematical values.
pub struct SinkState<P: Host> {
    pub shape: Shape,
    pub state: BuildingFormatter<P>,
}

impl<P: Host> SinkState<P> {
    /// A Debezium formatter waits for nothing.
    pub open spec fn well_formed(self) -> bool {
        self.shape is DebeziumJson ==> self.state is Settled
    }
}

impl<P: Host> SinkFormatterImpl<P> {
    /// Which formatter this is.
    pub open spec fn shape(self) -> Shape {
        match self {
            SinkFormatterImpl::AppendOnlyJson(_) => Shape::AppendOnly {
                key: EncoderKind::Json,
                val: EncoderKind::Json,
            },
            SinkFormatterImpl::AppendOnlyTextJson(_) => Shape::AppendOnly {
                key: EncoderKind::Text,
                val: EncoderKind::Json,
            },
            SinkFormatterImpl::AppendOnlyAvro(_) => Shape::AppendOnly {
                key: EncoderKind::Avro,
                val: EncoderKind::Avro,
            },
            SinkFormatterImpl::AppendOnlyTextAvro(_) => Shape::AppendOnly {
                key: EncoderKind::Text,
                val: EncoderKind::Avro,
            },
            SinkFormatterImpl::AppendOnlyProto(_) => Shape::AppendOnly {
                key: EncoderKind::Json,
                val: EncoderKind::Proto,
            },
            SinkFormatterImpl::AppendOnlyTextProto(_) => Shape::AppendOnly {
                key: EncoderKind::Text,
                val: EncoderKind::Proto,
            },
            SinkFormatterImpl::AppendOnlyTemplate(_) => Shape::AppendOnly {
                key: EncoderKind::Template,
                val: EncoderKind::Template,
            },
            SinkFormatterImpl::AppendOnlyTextTemplate(_) => Shape::AppendOnly {
                key: EncoderKind::Text,
                val: EncoderKind::Template,
            },
            SinkFormatterImpl::UpsertJson(_) => Shape::Upsert {
                key: EncoderKind::Json,
                val: EncoderKind::Json,
            },
            SinkFormatterImpl::UpsertTextJson(_) => Shape::Upsert {
                key: EncoderKind::Text,
                val: EncoderKind::Json,
            },
            SinkFormatterImpl::UpsertAvro(_) => Shape::Upsert {
                key: EncoderKind::Avro,
                val: EncoderKind::Avro,
            },
            SinkFormatterImpl::UpsertTextAvro(_) => Shape::Upsert {
                key: EncoderKind::Text,
                val: EncoderKind::Avro,
            },
            SinkFormatterImpl::UpsertProto(_) => Shape::Upsert {
                key: EncoderKind::Json,
                val: EncoderKind::Proto,
            },
            SinkFormatterImpl::UpsertTextProto(_) => Shape::Upsert {
                key: EncoderKind::Text,
                val: EncoderKind::Proto,
            },
            SinkFormatterImpl::UpsertTemplate(_) => Shape::Upsert {
                key: EncoderKind::Template,
                val: EncoderKind::Template,
            },
            SinkFormatterImpl::UpsertTextTemplate(_) => Shape::Upsert {
                key: EncoderKind::Text,
                val: EncoderKind::Template,
            },
            SinkFormatterImpl::DebeziumJson(_) => Shape::DebeziumJson,
        }
    }
}

impl<P: Host> View for SinkFormatterImpl<P> {
    type V = SinkModel<P>;

    open spec fn view(&self) -> SinkModel<P> {
        SinkModel {
            shape: self.shape(),
            formatter: match *self {
                SinkFormatterImpl::AppendOnlyJson(formatter) => formatter.model(),
                SinkFormatterImpl::AppendOnlyTextJson(formatter) => formatter.model(),
                SinkFormatterImpl::AppendOnlyAvro(formatter) => formatter.model(),
                SinkFormatterImpl::AppendOnlyTextAvro(formatter) => formatter.model(),
                SinkFormatterImpl::AppendOnlyProto(formatter) => formatter.model(),
                SinkFormatterImpl::AppendOnlyTextProto(formatter) => formatter.model(),
                SinkFormatterImpl::AppendOnlyTemplate(formatter) => formatter.model(),
                SinkFormatterImpl::AppendOnlyTextTemplate(formatter) => formatter.model(),
                SinkFormatterImpl::UpsertJson(formatter) => formatter.model(),
                SinkFormatterImpl::UpsertTextJson(formatter) => formatter.model(),
                SinkFormatterImpl::UpsertAvro(formatter) => formatter.model(),
                SinkFormatterImpl::UpsertTextAvro(formatter) => formatter.model(),
                SinkFormatterImpl::UpsertProto(formatter) => formatter.model(),
                SinkFormatterImpl::UpsertTextProto(formatter) => formatter.model(),
                SinkFormatterImpl::UpsertTemplate(formatter) => formatter.model(),
                SinkFormatterImpl::UpsertTextTemplate(formatter) => formatter.model(),
                SinkFormatterImpl::DebeziumJson(formatter) => formatter.model(),
            },
        }
    }
}

impl<'a, P: Host> View for FormatterPending<'a, P> {
    type V = SinkState<P>;

    open spec fn view(&self) -> SinkState<P> {
        match *self {
            FormatterPending::AppendOnlyJson(pending) => SinkState {
                shape: Shape::AppendOnly { key: EncoderKind::Json, val: EncoderKind::Json },
                state: AppendOnlyFormatter::<JsonEncoder<P>, JsonEncoder<P>>::state(pending),
            },
            FormatterPending::AppendOnlyTextJson(pending) => SinkState {
                shape: Shape::AppendOnly { key: EncoderKind::Text, val: EncoderKind::Json },
                state: AppendOnlyFormatter::<TextEncoder, JsonEncoder<P>>::state(pending),
            },
            FormatterPending::AppendOnlyAvro(pending) => SinkState {
                shape: Shape::AppendOnly { key: EncoderKind::Avro, val: EncoderKind::Avro },
                state: AppendOnlyFormatter::<AvroEncoder<P>, AvroEncoder<P>>::state(pending),
            },
            FormatterPending::AppendOnlyTextAvro(pending) => SinkState {
                shape: Shape::AppendOnly { key: EncoderKind::Text, val: EncoderKind::Avro },
                state: AppendOnlyFormatter::<TextEncoder, AvroEncoder<P>>::state(pending),
            },
            FormatterPending::AppendOnlyProto(pending) => SinkState {
                shape: Shape::AppendOnly { key: EncoderKind::Json, val: EncoderKind::Proto },
                state: AppendOnlyFormatter::<JsonEncoder<P>, ProtoEncoder<P>>::state(pending),
            },
            FormatterPending::AppendOnlyTextProto(pending) => SinkState {
                shape: Shape::AppendOnly { key: EncoderKind::Text, val: EncoderKind::Proto },
                state: AppendOnlyFormatter::<TextEncoder, ProtoEncoder<P>>::state(pending),
            },
            FormatterPending::AppendOnlyTemplate(pending) => SinkState {
                shape: Shape::AppendOnly { key: EncoderKind::Template, val: EncoderKind::Template },
                state: AppendOnlyFormatter::<TemplateEncoder, TemplateEncoder>::state(pending),
            },
            FormatterPending::AppendOnlyTextTemplate(pending) => SinkState {
                shape: Shape::AppendOnly { key: EncoderKind::Text, val: EncoderKind::Template },
                state: AppendOnlyFormatter::<TextEncoder, TemplateEncoder>::state(pending),
            },
            FormatterPending::UpsertJson(pending) => SinkState {
                shape: Shape::Upsert { key: EncoderKind::Json, val: EncoderKind::Json },
                state: UpsertFormatter::<JsonEncoder<P>, JsonEncoder<P>>::state(pending),
            },
            FormatterPending::UpsertTextJson(pending) => SinkState {
                shape: Shape::Upsert { key: EncoderKind::Text, val: EncoderKind::Json },
                state: UpsertFormatter::<TextEncoder, JsonEncoder<P>>::state(pending),
            },
            FormatterPending::UpsertAvro(pending) => SinkState {
                shape: Shape::Upsert { key: EncoderKind::Avro, val: EncoderKind::Avro },
                state: UpsertFormatter::<AvroEncoder<P>, AvroEncoder<P>>::state(pending),
            },
            FormatterPending::UpsertTextAvro(pending) => SinkState {
                shape: Shape::Upsert { key: EncoderKind::Text, val: EncoderKind::Avro },
                state: UpsertFormatter::<TextEncoder, AvroEncoder<P>>::state(pending),
            },
            FormatterPending::UpsertProto(pending) => SinkState {
                shape: Shape::Upsert { key: EncoderKind::Json, val: EncoderKind::Proto },
                state: UpsertFormatter::<JsonEncoder<P>, ProtoEncoder<P>>::state(pending),
            },
            FormatterPending::UpsertTextProto(pending) => SinkState {
                shape: Shape::Upsert { key: EncoderKind::Text, val: EncoderKind::Proto },
                state: UpsertFormatter::<TextEncoder, ProtoEncoder<P>>::state(pending),
            },
            FormatterPending::UpsertTemplate(pending) => SinkState {
                shape: Shape::Upsert { key: EncoderKind::Template, val: EncoderKind::Template },
                state: UpsertFormatter::<TemplateEncoder, TemplateEncoder>::state(pending),
            },
            FormatterPending::UpsertTextTemplate(pending) => SinkState {
                shape: Shape::Upsert { key: EncoderKind::Text, val: EncoderKind::Template },
                state: UpsertFormatter::<TextEncoder, TemplateEncoder>::state(pending),
            },
            FormatterPending::DebeziumJson(pending) => SinkState {
                shape: Shape::DebeziumJson,
                state: DebeziumJsonFormatter::state(pending),
            },
        }
    }
}

/// The encoder of values in an encoding.
pub open spec fn val_kind(encode: SinkEncode) -> EncoderKind {
    match encode {
        SinkEncode::Json => EncoderKind::Json,
        SinkEncode::Protobuf => EncoderKind::Proto,
        SinkEncode::Avro => EncoderKind::Avro,
        SinkEncode::Template => EncoderKind::Template,
        SinkEncode::Text => EncoderKind::Text,
    }
}

/// The encoder of keys: text where the key encoding says so, else that of the values, with JSON
/// in place of Protobuf.
pub open spec fn key_kind(encode: SinkEncode, key_encode: Option<SinkEncode>) -> EncoderKind {
    if key_encode is Some {
        EncoderKind::Text
    } else if encode == SinkEncode::Protobuf {
        EncoderKind::Json
    } else {
        val_kind(encode)
    }
}

/// The formatter that goes with a format, an encoding and a key encoding, or why there is none.
///
/// Text encodes keys only, and it is the only key encoding that can be asked for. Debezium takes
/// JSON without a key encoding.
pub open spec fn select(
    format: SinkFormat,
    encode: SinkEncode,
    key_encode: Option<SinkEncode>,
) -> Result<Shape, RejectionModel> {
    let key = key_kind(encode, key_encode);
    let val = val_kind(encode);
    let key_encode_supported = key_encode is None || key_encode == Some(SinkEncode::Text);
    match format {
        SinkFormat::Debezium => if encode == SinkEncode::Json && key_encode is None {
            Ok(Shape::DebeziumJson)
        } else {
            Err(RejectionModel::Unsupported { format, encode, key_encode })
        },
        SinkFormat::AppendOnly | SinkFormat::Upsert => if encode == SinkEncode::Text {
            Err(RejectionModel::TextValueEncode)
        } else if !key_encode_supported {
            Err(RejectionModel::Unsupported { format, encode, key_encode })
        } else if format == SinkFormat::AppendOnly {
            Ok(Shape::AppendOnly { key, val })
        } else {
            Ok(Shape::Upsert { key, val })
        },
    }
}

/// How far the build of a sink formatter of the given shape has come.
pub open spec fn sink_progress<P: Host>(
    shape: Shape,
    progress: ProgressModel<P, BuiltFormatter<P>, BuildingFormatter<P>>,
) -> ProgressModel<P, SinkModel<P>, SinkState<P>> {
    match progress {
        ProgressModel::Ready(Ok(formatter)) => ProgressModel::Ready(
            Ok(SinkModel { shape, formatter }),
        ),
        ProgressModel::Ready(Err(error)) => ProgressModel::Ready(Err(error)),
        ProgressModel::Waiting(call, state) => ProgressModel::Waiting(
            call,
            SinkState { shape, state },
        ),
    }
}

/// The first step of the build of a sink formatter. A declaration that no formatter goes with is
/// rejected before anything is asked of the host.
pub open spec fn start_sink<P: Host>(params: ParamsModel, pk_indices: Seq<usize>) -> ProgressModel<
    P,
    SinkModel<P>,
    SinkState<P>,
> {
    match select(params.format, params.encode, params.key_encode) {
        Ok(shape) => sink_progress(shape, start_formatter(shape, params, pk_indices)),
        Err(rejection) => ProgressModel::Ready(Err(ErrorModel::Rejected(rejection))),
    }
}

/// The step of the build of a sink formatter on a reply. A reply to another call ends the build.
pub open spec fn resume_sink<P: Host>(state: SinkState<P>, reply: Reply<P>) -> ProgressModel<
    P,
    SinkModel<P>,
    SinkState<P>,
> {
    sink_progress(state.shape, resume_formatter(state.shape, state.state, reply))
}

/// A formatter that is a variant of `SinkFormatterImpl`.
trait Variant<'a, P: Host>: FormatterBuild<
    'a,
    P,
    Model = BuiltFormatter<P>,
    State = BuildingFormatter<P>,
> {
    /// Which formatter this is.
    spec fn shape() -> Shape;

    /// The formatter is built as its shape says.
    proof fn built_by_shape()
        ensures
            forall|params: ParamsModel, pk_indices: Seq<usize>| #[trigger]
                Self::buildable(params, pk_indices) == Self::shape().buildable(params, pk_indices),
            forall|params: ParamsModel, pk_indices: Seq<usize>| #[trigger]
                Self::start(params, pk_indices) == start_formatter::<P>(
                    Self::shape(),
                    params,
                    pk_indices,
                ),
            forall|state: BuildingFormatter<P>, reply: Reply<P>| #[trigger]
                Self::step(state, reply) == resume_formatter(Self::shape(), state, reply),
    ;

    /// The formatter as this variant.
    fn into_impl(self) -> (formatter: SinkFormatterImpl<P>)
        ensures
            formatter@ == (SinkModel { shape: Self::shape(), formatter: self.model() }),
    ;

    /// The build that waits as this variant.
    fn into_pending(pending: Self::Pending) -> (variant: FormatterPending<'a, P>)
        ensures
            variant@ == (SinkState { shape: Self::shape(), state: Self::state(pending) }),
    ;
}

impl<'a, P: Host> Variant<'a, P> for AppendOnlyFormatter<JsonEncoder<P>, JsonEncoder<P>> {
    closed spec fn shape() -> Shape {
        Shape::AppendOnly { key: EncoderKind::Json, val: EncoderKind::Json }
    }

    proof fn built_by_shape() {
    }

    fn into_impl(self) -> (formatter: SinkFormatterImpl<P>) {
        SinkFormatterImpl::AppendOnlyJson(self)
    }

    fn into_pending(pending: Self::Pending) -> (variant: FormatterPending<'a, P>) {
        FormatterPending::AppendOnlyJson(pending)
    }
}

impl<'a, P: Host> Variant<'a, P> for AppendOnlyFormatter<TextEncoder, JsonEncoder<P>> {
    closed spec fn shape() -> Shape {
        Shape::AppendOnly { key: EncoderKind::Text, val: EncoderKind::Json }
    }

    proof fn built_by_shape() {
    }

    fn into_impl(self) -> (formatter: SinkFormatterImpl<P>) {
        SinkFormatterImpl::AppendOnlyTextJson(self)
    }

    fn into_pending(pending: Self::Pending) -> (variant: FormatterPending<'a, P>) {
        FormatterPending::AppendOnlyTextJson(pending)
    }
}

impl<'a, P: Host> Variant<'a, P> for AppendOnlyFormatter<AvroEncoder<P>, AvroEncoder<P>> {
    closed spec fn shape() -> Shape {
        Shape::AppendOnly { key: EncoderKind::Avro, val: EncoderKind::Avro }
    }

    proof fn built_by_shape() {
    }

    fn into_impl(self) -> (formatter: SinkFormatterImpl<P>) {
        SinkFormatterImpl::AppendOnlyAvro(self)
    }

    fn into_pending(pending: Self::Pending) -> (variant: FormatterPending<'a, P>) {
        FormatterPending::AppendOnlyAvro(pending)
    }
}

impl<'a, P: Host> Variant<'a, P> for AppendOnlyFormatter<TextEncoder, AvroEncoder<P>> {
    closed spec fn shape() -> Shape {
        Shape::AppendOnly { key: EncoderKind::Text, val: EncoderKind::Avro }
    }

    proof fn built_by_shape() {
    }

    fn into_impl(self) -> (formatter: SinkFormatterImpl<P>) {
        SinkFormatterImpl::AppendOnlyTextAvro(self)
    }

    fn into_pending(pending: Self::Pending) -> (variant: FormatterPending<'a, P>) {
        FormatterPending::AppendOnlyTextAvro(pending)
    }
}

impl<'a, P: Host> Variant<'a, P> for AppendOnlyFormatter<JsonEncoder<P>, ProtoEncoder<P>> {
    closed spec fn shape() -> Shape {
        Shape::AppendOnly { key: EncoderKind::Json, val: EncoderKind::Proto }
    }

    proof fn built_by_shape() {
    }

    fn into_impl(self) -> (formatter: SinkFormatterImpl<P>) {
        SinkFormatterImpl::AppendOnlyProto(self)
    }

    fn into_pending(pending: Self::Pending) -> (variant: FormatterPending<'a, P>) {
        FormatterPending::AppendOnlyProto(pending)
    }
}

impl<'a, P: Host> Variant<'a, P> for AppendOnlyFormatter<TextEncoder, ProtoEncoder<P>> {
    closed spec fn shape() -> Shape {
        Shape::AppendOnly { key: EncoderKind::Text, val: EncoderKind::Proto }
    }

    proof fn built_by_shape() {
    }

    fn into_impl(self) -> (formatter: SinkFormatterImpl<P>) {
        SinkFormatterImpl::AppendOnlyTextProto(self)
    }

    fn into_pending(pending: Self::Pending) -> (variant: FormatterPending<'a, P>) {
        FormatterPending::AppendOnlyTextProto(pending)
    }
}

impl<'a, P: Host> Variant<'a, P> for AppendOnlyFormatter<TemplateEncoder, TemplateEncoder> {
    closed spec fn shape() -> Shape {
        Shape::AppendOnly { key: EncoderKind::Template, val: EncoderKind::Template }
    }

    proof fn built_by_shape() {
    }

    fn into_impl(self) -> (formatter: SinkFormatterImpl<P>) {
        SinkFormatterImpl::AppendOnlyTemplate(self)
    }

    fn into_pending(pending: Self::Pending) -> (variant: FormatterPending<'a, P>) {
        FormatterPending::AppendOnlyTemplate(pending)
    }
}

impl<'a, P: Host> Variant<'a, P> for AppendOnlyFormatter<TextEncoder, TemplateEncoder> {
    closed spec fn shape() -> Shape {
        Shape::AppendOnly { key: EncoderKind::Text, val: EncoderKind::Template }
    }

    proof fn built_by_shape() {
    }

    fn into_impl(self) -> (formatter: SinkFormatterImpl<P>) {
        SinkFormatterImpl::AppendOnlyTextTemplate(self)
    }

    fn into_pending(pending: Self::Pending) -> (variant: FormatterPending<'a, P>) {
        FormatterPending::AppendOnlyTextTemplate(pending)
    }
}

impl<'a, P: Host> Variant<'a, P> for UpsertFormatter<JsonEncoder<P>, JsonEncoder<P>> {
    closed spec fn shape() -> Shape {
        Shape::Upsert { key: EncoderKind::Json, val: EncoderKind::Json }
    }

    proof fn built_by_shape() {
    }

    fn into_impl(self) -> (formatter: SinkFormatterImpl<P>) {
        SinkFormatterImpl::UpsertJson(self)
    }

    fn into_pending(pending: Self::Pending) -> (variant: FormatterPending<'a, P>) {
        FormatterPending::UpsertJson(pending)
    }
}

impl<'a, P: Host> Variant<'a, P> for UpsertFormatter<TextEncoder, JsonEncoder<P>> {
    closed spec fn shape() -> Shape {
        Shape::Upsert { key: EncoderKind::Text, val: EncoderKind::Json }
    }

    proof fn built_by_shape() {
    }

    fn into_impl(self) -> (formatter: SinkFormatterImpl<P>) {
        SinkFormatterImpl::UpsertTextJson(self)
    }

    fn into_pending(pending: Self::Pending) -> (variant: FormatterPending<'a, P>) {
        FormatterPending::UpsertTextJson(pending)
    }
}

impl<'a, P: Host> Variant<'a, P> for UpsertFormatter<AvroEncoder<P>, AvroEncoder<P>> {
    closed spec fn shape() -> Shape {
        Shape::Upsert { key: EncoderKind::Avro, val: EncoderKind::Avro }
    }

    proof fn built_by_shape() {
    }

    fn into_impl(self) -> (formatter: SinkFormatterImpl<P>) {
        SinkFormatterImpl::UpsertAvro(self)
    }

    fn into_pending(pending: Self::Pending) -> (variant: FormatterPending<'a, P>) {
        FormatterPending::UpsertAvro(pending)
    }
}

impl<'a, P: Host> Variant<'a, P> for UpsertFormatter<TextEncoder, AvroEncoder<P>> {
    closed spec fn shape() -> Shape {
        Shape::Upsert { key: EncoderKind::Text, val: EncoderKind::Avro }
    }

    proof fn built_by_shape() {
    }

    fn into_impl(self) -> (formatter: SinkFormatterImpl<P>) {
        SinkFormatterImpl::UpsertTextAvro(self)
    }

    fn into_pending(pending: Self::Pending) -> (variant: FormatterPending<'a, P>) {
        FormatterPending::UpsertTextAvro(pending)
    }
}

impl<'a, P: Host> Variant<'a, P> for UpsertFormatter<JsonEncoder<P>, ProtoEncoder<P>> {
    closed spec fn shape() -> Shape {
        Shape::Upsert { key: EncoderKind::Json, val: EncoderKind::Proto }
    }

    proof fn built_by_shape() {
    }

    fn into_impl(self) -> (formatter: SinkFormatterImpl<P>) {
        SinkFormatterImpl::UpsertProto(self)
    }

    fn into_pending(pending: Self::Pending) -> (variant: FormatterPending<'a, P>) {
        FormatterPending::UpsertProto(pending)
    }
}

impl<'a, P: Host> Variant<'a, P> for UpsertFormatter<TextEncoder, ProtoEncoder<P>> {
    closed spec fn shape() -> Shape {
        Shape::Upsert { key: EncoderKind::Text, val: EncoderKind::Proto }
    }

    proof fn built_by_shape() {
    }

    fn into_impl(self) -> (formatter: SinkFormatterImpl<P>) {
        SinkFormatterImpl::UpsertTextProto(self)
    }

    fn into_pending(pending: Self::Pending) -> (variant: FormatterPending<'a, P>) {
        FormatterPending::UpsertTextProto(pending)
    }
}

impl<'a, P: Host> Variant<'a, P> for UpsertFormatter<TemplateEncoder, TemplateEncoder> {
    closed spec fn shape() -> Shape {
        Shape::Upsert { key: EncoderKind::Template, val: EncoderKind::Template }
    }

    proof fn built_by_shape() {
    }

    fn into_impl(self) -> (formatter: SinkFormatterImpl<P>) {
        SinkFormatterImpl::UpsertTemplate(self)
    }

    fn into_pending(pending: Self::Pending) -> (variant: FormatterPending<'a, P>) {
        FormatterPending::UpsertTemplate(pending)
    }
}

impl<'a, P: Host> Variant<'a, P> for UpsertFormatter<TextEncoder, TemplateEncoder> {
    closed spec fn shape() -> Shape {
        Shape::Upsert { key: EncoderKind::Text, val: EncoderKind::Template }
    }

    proof fn built_by_shape() {
    }

    fn into_impl(self) -> (formatter: SinkFormatterImpl<P>) {
        SinkFormatterImpl::UpsertTextTemplate(self)
    }

    fn into_pending(pending: Self::Pending) -> (variant: FormatterPending<'a, P>) {
        FormatterPending::UpsertTextTemplate(pending)
    }
}

impl<'a, P: Host> Variant<'a, P> for DebeziumJsonFormatter {
    closed spec fn shape() -> Shape {
        Shape::DebeziumJson
    }

    proof fn built_by_shape() {
    }

    fn into_impl(self) -> (formatter: SinkFormatterImpl<P>) {
        SinkFormatterImpl::DebeziumJson(self)
    }

    fn into_pending(pending: Self::Pending) -> (variant: FormatterPending<'a, P>) {
        FormatterPending::DebeziumJson(pending)
    }
}

/// How far the build of a variant has come, as the build of a sink formatter.
fn lift<'a, P: Host, T: Variant<'a, P>>(progress: Progress<'a, P, T, T::Pending>) -> (lifted:
    Progress<'a, P, SinkFormatterImpl<P>, FormatterPending<'a, P>>)
    ensures
        lifted@ == sink_progress(T::shape(), formatter_progress::<P, T>(progress)),
{
    match progress {
        Progress::Ready(Ok(formatter)) => Progress::Ready(Ok(formatter.into_impl())),
        Progress::Ready(Err(error)) => Progress::Ready(Err(error)),
        Progress::Waiting(call, pending) => Progress::Waiting(call, T::into_pending(pending)),
    }
}

/// Starts the build of a variant.
fn build<'a, P: Host, T: Variant<'a, P>>(p: FormatterParams<'a>) -> (progress: Progress<
    'a,
    P,
    SinkFormatterImpl<P>,
    FormatterPending<'a, P>,
>)
    requires
        T::shape().buildable(p.builder@, p.pk_indices@),
    ensures
        progress@ == sink_progress(
            T::shape(),
            start_formatter::<P>(T::shape(), p.builder@, p.pk_indices@),
        ),
{
    proof {
        T::built_by_shape();
    }
    lift::<P, T>(T::build(p))
}

/// Goes on with the build of a variant.
fn resume<'a, P: Host, T: Variant<'a, P>>(pending: T::Pending, reply: Reply<P>) -> (progress:
    Progress<'a, P, SinkFormatterImpl<P>, FormatterPending<'a, P>>)
    ensures
        progress@ == sink_progress(T::shape(), resume_formatter(T::shape(), T::state(pending), reply)),
{
    proof {
        T::built_by_shape();
    }
    lift::<P, T>(T::resume(pending, reply))
}

impl<P: Host> SinkFormatterImpl<P> {
    /// Starts the build of the formatter that the declaration of a sink asks for.
    pub fn new<'a>(
        format_desc: &'a SinkFormatDesc,
        schema: Schema,
        pk_indices: Vec<usize>,
        db_name: String,
        sink_from_name: String,
        topic: &'a str,
    ) -> (progress: Progress<'a, P, SinkFormatterImpl<P>, FormatterPending<'a, P>>)
        ensures
            progress@ == start_sink::<P>(
                (EncoderParams { format_desc, schema, db_name, sink_from_name, topic })@,
                pk_indices@,
            ),
    {
        let p: FormatterParams<'a> = FormatterParams {
            builder: EncoderParams { format_desc, schema, db_name, sink_from_name, topic },
            pk_indices,
        };
        match (format_desc.format, format_desc.encode, format_desc.key_encode) {
            (SinkFormat::AppendOnly, SinkEncode::Json, None) => build::<
                P,
                AppendOnlyFormatter<JsonEncoder<P>, JsonEncoder<P>>,
            >(p),
            (SinkFormat::AppendOnly, SinkEncode::Json, Some(SinkEncode::Text)) => build::<
                P,
                AppendOnlyFormatter<TextEncoder, JsonEncoder<P>>,
            >(p),
            (SinkFormat::AppendOnly, SinkEncode::Avro, None) => build::<
                P,
                AppendOnlyFormatter<AvroEncoder<P>, AvroEncoder<P>>,
            >(p),
            (SinkFormat::AppendOnly, SinkEncode::Avro, Some(SinkEncode::Text)) => build::<
                P,
                AppendOnlyFormatter<TextEncoder, AvroEncoder<P>>,
            >(p),
            (SinkFormat::AppendOnly, SinkEncode::Protobuf, None) => build::<
                P,
                AppendOnlyFormatter<JsonEncoder<P>, ProtoEncoder<P>>,
            >(p),
            (SinkFormat::AppendOnly, SinkEncode::Protobuf, Some(SinkEncode::Text)) => build::<
                P,
                AppendOnlyFormatter<TextEncoder, ProtoEncoder<P>>,
            >(p),
            (SinkFormat::AppendOnly, SinkEncode::Template, None) => build::<
                P,
                AppendOnlyFormatter<TemplateEncoder, TemplateEncoder>,
            >(p),
            (SinkFormat::AppendOnly, SinkEncode::Template, Some(SinkEncode::Text)) => build::<
                P,
                AppendOnlyFormatter<TextEncoder, TemplateEncoder>,
            >(p),
            (SinkFormat::Upsert, SinkEncode::Json, None) => build::<
                P,
                UpsertFormatter<JsonEncoder<P>, JsonEncoder<P>>,
            >(p),
            (SinkFormat::Upsert, SinkEncode::Json, Some(SinkEncode::Text)) => build::<
                P,
                UpsertFormatter<TextEncoder, JsonEncoder<P>>,
            >(p),
            (SinkFormat::Upsert, SinkEncode::Avro, None) => build::<
                P,
                UpsertFormatter<AvroEncoder<P>, AvroEncoder<P>>,
            >(p),
            (SinkFormat::Upsert, SinkEncode::Avro, Some(SinkEncode::Text)) => build::<
                P,
                UpsertFormatter<TextEncoder, AvroEncoder<P>>,
            >(p),
            (SinkFormat::Upsert, SinkEncode::Protobuf, None) => build::<
                P,
                UpsertFormatter<JsonEncoder<P>, ProtoEncoder<P>>,
            >(p),
            (SinkFormat::Upsert, SinkEncode::Protobuf, Some(SinkEncode::Text)) => build::<
                P,
                UpsertFormatter<TextEncoder, ProtoEncoder<P>>,
            >(p),
            (SinkFormat::Upsert, SinkEncode::Template, None) => build::<
                P,
                UpsertFormatter<TemplateEncoder, TemplateEncoder>,
            >(p),
            (SinkFormat::Upsert, SinkEncode::Template, Some(SinkEncode::Text)) => build::<
                P,
                UpsertFormatter<TextEncoder, TemplateEncoder>,
            >(p),
            (SinkFormat::Debezium, SinkEncode::Json, None) => build::<
                P,
                DebeziumJsonFormatter,
            >(p),
            (SinkFormat::AppendOnly | SinkFormat::Upsert, SinkEncode::Text, _) => Progress::Ready(
                Err(rejected(Rejection::TextValueEncode)),
            ),
            (format, encode, key_encode) => Progress::Ready(
                Err(rejected(Rejection::Unsupported { format, encode, key_encode })),
            ),
        }
    }

    /// Goes on with a build, on the reply to the call that it waits for. A reply to another call
    /// ends it.
    pub fn resume<'a>(pending: FormatterPending<'a, P>, reply: Reply<P>) -> (progress: Progress<
        'a,
        P,
        SinkFormatterImpl<P>,
        FormatterPending<'a, P>,
    >)
        ensures
            progress@ == resume_sink(pending@, reply),
    {
        match pending {
            FormatterPending::AppendOnlyJson(pending) => resume::<
                P,
                AppendOnlyFormatter<JsonEncoder<P>, JsonEncoder<P>>,
            >(pending, reply),
            FormatterPending::AppendOnlyTextJson(pending) => resume::<
                P,
                AppendOnlyFormatter<TextEncoder, JsonEncoder<P>>,
            >(pending, reply),
            FormatterPending::AppendOnlyAvro(pending) => resume::<
                P,
                AppendOnlyFormatter<AvroEncoder<P>, AvroEncoder<P>>,
            >(pending, reply),
            FormatterPending::AppendOnlyTextAvro(pending) => resume::<
                P,
                AppendOnlyFormatter<TextEncoder, AvroEncoder<P>>,
            >(pending, reply),
            FormatterPending::AppendOnlyProto(pending) => resume::<
                P,
                AppendOnlyFormatter<JsonEncoder<P>, ProtoEncoder<P>>,
            >(pending, reply),
            FormatterPending::AppendOnlyTextProto(pending) => resume::<
                P,
                AppendOnlyFormatter<TextEncoder, ProtoEncoder<P>>,
            >(pending, reply),
            FormatterPending::AppendOnlyTemplate(pending) => resume::<
                P,
                AppendOnlyFormatter<TemplateEncoder, TemplateEncoder>,
            >(pending, reply),
            FormatterPending::AppendOnlyTextTemplate(pending) => resume::<
                P,
                AppendOnlyFormatter<TextEncoder, TemplateEncoder>,
            >(pending, reply),
            FormatterPending::UpsertJson(pending) => resume::<
                P,
                UpsertFormatter<JsonEncoder<P>, JsonEncoder<P>>,
            >(pending, reply),
            FormatterPending::UpsertTextJson(pending) => resume::<
                P,
                UpsertFormatter<TextEncoder, JsonEncoder<P>>,
            >(pending, reply),
            FormatterPending::UpsertAvro(pending) => resume::<
                P,
                UpsertFormatter<AvroEncoder<P>, AvroEncoder<P>>,
            >(pending, reply),
            FormatterPending::UpsertTextAvro(pending) => resume::<
                P,
                UpsertFormatter<TextEncoder, AvroEncoder<P>>,
            >(pending, reply),
            FormatterPending::UpsertProto(pending) => resume::<
                P,
                UpsertFormatter<JsonEncoder<P>, ProtoEncoder<P>>,
            >(pending, reply),
            FormatterPending::UpsertTextProto(pending) => resume::<
                P,
                UpsertFormatter<TextEncoder, ProtoEncoder<P>>,
            >(pending, reply),
            FormatterPending::UpsertTemplate(pending) => resume::<
                P,
                UpsertFormatter<TemplateEncoder, TemplateEncoder>,
            >(pending, reply),
            FormatterPending::UpsertTextTemplate(pending) => resume::<
                P,
                UpsertFormatter<TextEncoder, TemplateEncoder>,
            >(pending, reply),
            FormatterPending::DebeziumJson(pending) => resume::<P, DebeziumJsonFormatter>(
                pending,
                reply,
            ),
        }
    }

    /// The keys of the formatter are text, whatever they hold; Avro keys are not.
    pub fn has_str_key(&self) -> (str_key: bool)
        ensures
            str_key == self.shape().has_str_key(),
    {
        match self {
            SinkFormatterImpl::AppendOnlyAvro(_) | SinkFormatterImpl::UpsertAvro(_) => false,
            _ => true,
        }
    }
}

impl Shape {
    /// The keys of the formatter are text: all but Avro keys.
    pub open spec fn has_str_key(self) -> bool {
        match self {
            Shape::AppendOnly { key, .. } => key != EncoderKind::Avro,
            Shape::Upsert { key, .. } => key != EncoderKind::Avro,
            Shape::DebeziumJson => true,
        }
    }
}

} // verus!
