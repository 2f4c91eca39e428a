//! The three formatters, and how each is built from its encoders.

use vstd::prelude::*;

use crate::catalog::{Schema, SchemaModel, SinkEncode};
use crate::encoder::{
    builder_of, builder_of_kind, encoder_progress, Builder, Encoder, EncoderBuild, EncoderKind,
    EncoderModel, EncoderParams, EncoderState, ParamsModel, Settled,
};
use crate::error::{ErrorModel, SinkError};
use crate::host::{Host, Progress, ProgressModel, Reply};

verus! {

/// Formats insertions only.
pub struct AppendOnlyFormatter<KE, VE> {
    pub key_encoder: Option<KE>,
    pub val_encoder: VE,
}

impl<KE, VE> AppendOnlyFormatter<KE, VE> {
    /// A formatter whose messages have keys where there is a key encoder.
    pub fn new(key_encoder: Option<KE>, val_encoder: VE) -> (formatter: AppendOnlyFormatter<KE, VE>)
        ensures
            formatter == (AppendOnlyFormatter { key_encoder, val_encoder }),
    {
        AppendOnlyFormatter { key_encoder, val_encoder }
    }
}

/// Formats insertions and deletions by key.
pub struct UpsertFormatter<KE, VE> {
    pub key_encoder: KE,
    pub val_encoder: VE,
}

impl<KE, VE> UpsertFormatter<KE, VE> {
    /// A formatter with keys.
    pub fn new(key_encoder: KE, val_encoder: VE) -> (formatter: UpsertFormatter<KE, VE>)
        ensures
            formatter == (UpsertFormatter { key_encoder, val_encoder }),
    {
        UpsertFormatter { key_encoder, val_encoder }
    }
}

/// How a Debezium formatter deviates from the defaults: not at all.
pub struct DebeziumAdapterOpts;

impl Default for DebeziumAdapterOpts {
    fn default() -> (opts: DebeziumAdapterOpts)
        ensures
            opts == DebeziumAdapterOpts,
    {
        DebeziumAdapterOpts
    }
}

/// Formats changes as Debezium does, in JSON.
pub struct DebeziumJsonFormatter {
    pub schema: Schema,
    pub pk_indices: Vec<usize>,
    pub db_name: String,
    pub sink_from_name: String,
    pub opts: DebeziumAdapterOpts,
}

impl DebeziumJsonFormatter {
    /// A formatter of the columns in `schema`.
    pub fn new(
        schema: Schema,
        pk_indices: Vec<usize>,
        db_name: String,
        sink_from_name: String,
        opts: DebeziumAdapterOpts,
    ) -> (formatter: DebeziumJsonFormatter)
        ensures
            formatter == (DebeziumJsonFormatter { schema, pk_indices, db_name, sink_from_name, opts }),
    {
        DebeziumJsonFormatter { schema, pk_indices, db_name, sink_from_name, opts }
    }
}

/// Whether a formatter can do without keys.
pub enum Keying {
    /// It has keys where there is a primary key.
    Optional,
    /// It has keys.
    Required,
}

/// The key encoder of a formatter.
pub enum Keyed<K> {
    Optional(Option<K>),
    Required(K),
}

impl Keying {
    /// The key encoder `key` of such a formatter.
    pub open spec fn keyed<K>(self, key: K) -> Keyed<K> {
        match self {
            Keying::Optional => Keyed::Optional(Some(key)),
            Keying::Required => Keyed::Required(key),
        }
    }
}

/// A formatter, as mathematical values, over models of its encoders.
#[allow(inconsistent_fields)]
pub enum FormatterModel<K, V> {
    AppendOnly { key: Option<K>, val: V },
    Upsert { key: K, val: V },
    DebeziumJson {
        schema: SchemaModel,
        pk_indices: Seq<usize>,
        db_name: Seq<char>,
        sink_from_name: Seq<char>,
        opts: DebeziumAdapterOpts,
    },
}

/// What the build of a formatter that waits for a reply knows so far.
#[allow(inconsistent_fields)]
pub enum FormatterState<K, SK, SV> {
    /// The key encoder is being built.
    Key { key: SK, params: ParamsModel },
    /// The value encoder is being built.
    Val { keyed: Keyed<K>, val: SV },
    /// No call is open.
    Settled,
}

/// The build of a formatter with the key encoder `keyed`, where the build of its value encoder has
/// come to `val`.
pub open spec fn with_val<P: Host, K, V, SK, SV>(
    keyed: Keyed<K>,
    val: ProgressModel<P, V, SV>,
) -> ProgressModel<P, FormatterModel<K, V>, FormatterState<K, SK, SV>> {
    match val {
        ProgressModel::Ready(Ok(val)) => ProgressModel::Ready(
            Ok(
                match keyed {
                    Keyed::Optional(key) => FormatterModel::AppendOnly { key, val },
                    Keyed::Required(key) => FormatterModel::Upsert { key, val },
                },
            ),
        ),
        ProgressModel::Ready(Err(error)) => ProgressModel::Ready(Err(error)),
        ProgressModel::Waiting(call, val) => ProgressModel::Waiting(
            call,
            FormatterState::Val { keyed, val },
        ),
    }
}

/// The build of a formatter, where the build of its key encoder has come to `key`. The value
/// encoder comes next.
pub open spec fn with_key<P: Host, K, V, SK, SV>(
    keying: Keying,
    key: ProgressModel<P, K, SK>,
    params: ParamsModel,
    val: Builder<P, V, SV>,
) -> ProgressModel<P, FormatterModel<K, V>, FormatterState<K, SK, SV>> {
    match key {
        ProgressModel::Ready(Ok(key)) => with_val(keying.keyed(key), (val.start)(params, None)),
        ProgressModel::Ready(Err(error)) => ProgressModel::Ready(Err(error)),
        ProgressModel::Waiting(call, key) => ProgressModel::Waiting(
            call,
            FormatterState::Key { key, params },
        ),
    }
}

/// The first step of the build of a formatter from a key encoder and a value encoder.
///
/// Keys come before values. A formatter that can do without keys has none where there is no
/// primary key.
pub open spec fn start_pair<P: Host, K, V, SK, SV>(
    keying: Keying,
    key: Builder<P, K, SK>,
    val: Builder<P, V, SV>,
    params: ParamsModel,
    pk_indices: Seq<usize>,
) -> ProgressModel<P, FormatterModel<K, V>, FormatterState<K, SK, SV>> {
    if keying is Optional && pk_indices.len() == 0 {
        with_val(Keyed::Optional(None), (val.start)(params, None))
    } else {
        with_key(keying, (key.start)(params, Some(pk_indices)), params, val)
    }
}

/// The step of the build of a formatter from a key encoder and a value encoder on a reply.
pub open spec fn step_pair<P: Host, K, V, SK, SV>(
    keying: Keying,
    key: Builder<P, K, SK>,
    val: Builder<P, V, SV>,
    state: FormatterState<K, SK, SV>,
    reply: Reply<P>,
) -> ProgressModel<P, FormatterModel<K, V>, FormatterState<K, SK, SV>> {
    match state {
        FormatterState::Key { key: state, params } => with_key(
            keying,
            (key.step)(state, reply),
            params,
            val,
        ),
        FormatterState::Val { keyed, val: state } => with_val(keyed, (val.step)(state, reply)),
        FormatterState::Settled => ProgressModel::Ready(Err(ErrorModel::UnexpectedReply)),
    }
}

/// The Debezium formatter.
pub open spec fn debezium<K, V>(params: ParamsModel, pk_indices: Seq<usize>) -> FormatterModel<
    K,
    V,
> {
    FormatterModel::DebeziumJson {
        schema: params.schema,
        pk_indices,
        db_name: params.db_name,
        sink_from_name: params.sink_from_name,
        opts: DebeziumAdapterOpts,
    }
}

/// A formatter with encoders of known kinds.
pub type BuiltFormatter<P> = FormatterModel<EncoderModel<P>, EncoderModel<P>>;

/// The build of a formatter with encoders of known kinds, while it waits.
pub type BuildingFormatter<P> = FormatterState<EncoderModel<P>, EncoderState<P>, EncoderState<P>>;

impl<P: Host> FormatterState<EncoderModel<P>, EncoderState<P>, EncoderState<P>> {
    /// `reply` is of the kind that this state waits for.
    pub open spec fn expects(self, reply: Reply<P>) -> bool {
        match self {
            FormatterState::Key { key, .. } => key.expects(reply),
            FormatterState::Val { val, .. } => val.expects(reply),
            FormatterState::Settled => false,
        }
    }
}

/// A formatter together with the kinds of its key and value encoders.
pub enum Shape {
    AppendOnly { key: EncoderKind, val: EncoderKind },
    Upsert { key: EncoderKind, val: EncoderKind },
    DebeziumJson,
}

impl Shape {
    /// A formatter of this shape can be built from `params` and `pk_indices`: its keys, where it
    /// has any, are not in Protobuf, and Debezium goes with JSON.
    pub open spec fn buildable(self, params: ParamsModel, pk_indices: Seq<usize>) -> bool {
        match self {
            Shape::AppendOnly { key, .. } => key != EncoderKind::Proto || pk_indices.len() == 0,
            Shape::Upsert { key, .. } => key != EncoderKind::Proto,
            Shape::DebeziumJson => params.encode == SinkEncode::Json,
        }
    }
}

/// The first step of the build of a formatter of the given shape.
pub open spec fn start_formatter<P: Host>(
    shape: Shape,
    params: ParamsModel,
    pk_indices: Seq<usize>,
) -> ProgressModel<P, BuiltFormatter<P>, BuildingFormatter<P>> {
    match shape {
        Shape::AppendOnly { key, val } => start_pair(
            Keying::Optional,
            builder_of_kind(key),
            builder_of_kind(val),
            params,
            pk_indices,
        ),
        Shape::Upsert { key, val } => start_pair(
            Keying::Required,
            builder_of_kind(key),
            builder_of_kind(val),
            params,
            pk_indices,
        ),
        Shape::DebeziumJson => ProgressModel::Ready(Ok(debezium(params, pk_indices))),
    }
}

/// The step of the build of a formatter of the given shape on a reply. A reply to another call
/// ends the build.
pub open spec fn resume_formatter<P: Host>(
    shape: Shape,
    state: BuildingFormatter<P>,
    reply: Reply<P>,
) -> ProgressModel<P, BuiltFormatter<P>, BuildingFormatter<P>> {
    match shape {
        Shape::AppendOnly { key, val } => step_pair(
            Keying::Optional,
            builder_of_kind(key),
            builder_of_kind(val),
            state,
            reply,
        ),
        Shape::Upsert { key, val } => step_pair(
            Keying::Required,
            builder_of_kind(key),
            builder_of_kind(val),
            state,
            reply,
        ),
        Shape::DebeziumJson => ProgressModel::Ready(Err(ErrorModel::UnexpectedReply)),
    }
}

/// What a formatter is built from.
pub struct FormatterParams<'a> {
    pub builder: EncoderParams<'a>,
    pub pk_indices: Vec<usize>,
}

/// A formatter and its builds, as mathematical values.
pub trait Formatter<'a, P: Host>: Sized {
    /// A build that waits for a reply.
    type Pending;

    /// What a formatter is modelled by.
    type Model;

    /// What a build that waits is modelled by.
    type State;

    /// The model of a formatter.
    spec fn model(self) -> Self::Model;

    /// The model of a build that waits.
    spec fn state(pending: Self::Pending) -> Self::State;

    /// The formatter can be built from `params` and `pk_indices`.
    spec fn buildable(params: ParamsModel, pk_indices: Seq<usize>) -> bool;

    /// The first step of a build.
    spec fn start(params: ParamsModel, pk_indices: Seq<usize>) -> ProgressModel<
        P,
        Self::Model,
        Self::State,
    >;

    /// The step of a build on a reply.
    spec fn step(state: Self::State, reply: Reply<P>) -> ProgressModel<P, Self::Model, Self::State>;
}

/// How far the build of a formatter has come, over models.
pub open spec fn formatter_progress<'a, P: Host, T: Formatter<'a, P>>(
    progress: Progress<'a, P, T, T::Pending>,
) -> ProgressModel<P, T::Model, T::State> {
    match progress {
        Progress::Ready(Ok(formatter)) => ProgressModel::Ready(Ok(formatter.model())),
        Progress::Ready(Err(error)) => ProgressModel::Ready(Err(error@)),
        Progress::Waiting(call, pending) => ProgressModel::Waiting(call@, T::state(pending)),
    }
}

/// A formatter that can be built from parameters.
///
/// How a formatter does its own work is no part of this: this is about how different formatters
/// are selected from one declaration.
pub trait FormatterBuild<'a, P: Host>: Formatter<'a, P> {
    /// Starts the build.
    fn build(b: FormatterParams<'a>) -> (progress: Progress<'a, P, Self, Self::Pending>)
        requires
            Self::buildable(b.builder@, b.pk_indices@),
        ensures
            formatter_progress::<P, Self>(progress) == Self::start(b.builder@, b.pk_indices@),
    ;

    /// Goes on with a build, on the reply to the call that it waits for.
    fn resume(pending: Self::Pending, reply: Reply<P>) -> (progress: Progress<
        'a,
        P,
        Self,
        Self::Pending,
    >)
        ensures
            formatter_progress::<P, Self>(progress) == Self::step(Self::state(pending), reply),
    ;
}

/// The build of an append-only formatter that waits for a reply.
#[allow(inconsistent_fields)]
pub enum AppendOnlyPending<'a, P: Host, KE: Encoder<'a, P>, VE: Encoder<'a, P>> {
    Key { key: KE::Pending, params: EncoderParams<'a> },
    Val { key: Option<KE>, val: VE::Pending },
}

/// The model of a key encoder that may be absent.
pub open spec fn key_model<'a, P: Host, KE: Encoder<'a, P>>(key: Option<KE>) -> Option<KE::Model> {
    match key {
        Some(key) => Some(key.model()),
        None => None,
    }
}

impl<'a, P: Host, KE: Encoder<'a, P>, VE: Encoder<'a, P>> Formatter<'a, P> for AppendOnlyFormatter<
    KE,
    VE,
> {
    type Pending = AppendOnlyPending<'a, P, KE, VE>;

    type Model = FormatterModel<KE::Model, VE::Model>;

    type State = FormatterState<KE::Model, KE::State, VE::State>;

    open spec fn model(self) -> Self::Model {
        FormatterModel::AppendOnly {
            key: key_model(self.key_encoder),
            val: self.val_encoder.model(),
        }
    }

    open spec fn state(pending: Self::Pending) -> Self::State {
        match pending {
            AppendOnlyPending::Key { key, params } => FormatterState::Key {
                key: KE::state(key),
                params: params@,
            },
            AppendOnlyPending::Val { key, val } => FormatterState::Val {
                keyed: Keyed::Optional(key_model(key)),
                val: VE::state(val),
            },
        }
    }

    open spec fn buildable(params: ParamsModel, pk_indices: Seq<usize>) -> bool {
        pk_indices.len() == 0 || KE::encodes_keys()
    }

    open spec fn start(params: ParamsModel, pk_indices: Seq<usize>) -> ProgressModel<
        P,
        Self::Model,
        Self::State,
    > {
        start_pair(
            Keying::Optional,
            builder_of::<P, KE>(),
            builder_of::<P, VE>(),
            params,
            pk_indices,
        )
    }

    open spec fn step(state: Self::State, reply: Reply<P>) -> ProgressModel<
        P,
        Self::Model,
        Self::State,
    > {
        step_pair(
            Keying::Optional,
            builder_of::<P, KE>(),
            builder_of::<P, VE>(),
            state,
            reply,
        )
    }
}

/// Goes on with an append-only formatter, where the build of its value encoder has come to `val`.
fn append_only_val<'a, P: Host, KE: Encoder<'a, P>, VE: Encoder<'a, P>>(
    key: Option<KE>,
    val: Progress<'a, P, VE, VE::Pending>,
) -> (progress: Progress<
    'a,
    P,
    AppendOnlyFormatter<KE, VE>,
    AppendOnlyPending<'a, P, KE, VE>,
>)
    ensures
        formatter_progress::<P, AppendOnlyFormatter<KE, VE>>(progress) == with_val::<
            P,
            KE::Model,
            VE::Model,
            KE::State,
            VE::State,
        >(
            Keyed::Optional(key_model(key)),
            encoder_progress::<P, VE>(val),
        ),
{
    match val {
        Progress::Ready(Ok(val)) => Progress::Ready(Ok(AppendOnlyFormatter::new(key, val))),
        Progress::Ready(Err(error)) => Progress::Ready(Err(error)),
        Progress::Waiting(call, val) => Progress::Waiting(call, AppendOnlyPending::Val { key, val }),
    }
}

/// Goes on with an append-only formatter, where the build of its key encoder has come to `key`.
fn append_only_key<'a, P: Host, KE: EncoderBuild<'a, P>, VE: EncoderBuild<'a, P>>(
    key: Progress<'a, P, KE, KE::Pending>,
    params: EncoderParams<'a>,
) -> (progress: Progress<
    'a,
    P,
    AppendOnlyFormatter<KE, VE>,
    AppendOnlyPending<'a, P, KE, VE>,
>)
    ensures
        formatter_progress::<P, AppendOnlyFormatter<KE, VE>>(progress) == with_key(
            Keying::Optional,
            encoder_progress::<P, KE>(key),
            params@,
            builder_of::<P, VE>(),
        ),
{
    match key {
        Progress::Ready(Ok(key)) => append_only_val(Some(key), VE::build(params, None)),
        Progress::Ready(Err(error)) => Progress::Ready(Err(error)),
        Progress::Waiting(call, key) => Progress::Waiting(
            call,
            AppendOnlyPending::Key { key, params },
        ),
    }
}

impl<'a, P: Host, KE: EncoderBuild<'a, P>, VE: EncoderBuild<'a, P>> FormatterBuild<
    'a,
    P,
> for AppendOnlyFormatter<KE, VE> {
    fn build(b: FormatterParams<'a>) -> (progress: Progress<'a, P, Self, Self::Pending>) {
        if b.pk_indices.len() == 0 {
            append_only_val(None, VE::build(b.builder, None))
        } else {
            let key = KE::build(b.builder.clone(), Some(b.pk_indices));
            append_only_key(key, b.builder)
        }
    }

    fn resume(pending: Self::Pending, reply: Reply<P>) -> (progress: Progress<
        'a,
        P,
        Self,
        Self::Pending,
    >) {
        match pending {
            AppendOnlyPending::Key { key, params } => append_only_key(
                KE::resume(key, reply),
                params,
            ),
            AppendOnlyPending::Val { key, val } => append_only_val(key, VE::resume(val, reply)),
        }
    }
}

/// The build of an upsert formatter that waits for a reply.
#[allow(inconsistent_fields)]
pub enum UpsertPending<'a, P: Host, KE: Encoder<'a, P>, VE: Encoder<'a, P>> {
    Key { key: KE::Pending, params: EncoderParams<'a> },
    Val { key: KE, val: VE::Pending },
}

impl<'a, P: Host, KE: Encoder<'a, P>, VE: Encoder<'a, P>> Formatter<'a, P> for UpsertFormatter<
    KE,
    VE,
> {
    type Pending = UpsertPending<'a, P, KE, VE>;

    type Model = FormatterModel<KE::Model, VE::Model>;

    type State = FormatterState<KE::Model, KE::State, VE::State>;

    open spec fn model(self) -> Self::Model {
        FormatterModel::Upsert { key: self.key_encoder.model(), val: self.val_encoder.model() }
    }

    open spec fn state(pending: Self::Pending) -> Self::State {
        match pending {
            UpsertPending::Key { key, params } => FormatterState::Key {
                key: KE::state(key),
                params: params@,
            },
            UpsertPending::Val { key, val } => FormatterState::Val {
                keyed: Keyed::Required(key.model()),
                val: VE::state(val),
            },
        }
    }

    open spec fn buildable(params: ParamsModel, pk_indices: Seq<usize>) -> bool {
        KE::encodes_keys()
    }

    open spec fn start(params: ParamsModel, pk_indices: Seq<usize>) -> ProgressModel<
        P,
        Self::Model,
        Self::State,
    > {
        start_pair(
            Keying::Required,
            builder_of::<P, KE>(),
            builder_of::<P, VE>(),
            params,
            pk_indices,
        )
    }

    open spec fn step(state: Self::State, reply: Reply<P>) -> ProgressModel<
        P,
        Self::Model,
        Self::State,
    > {
        step_pair(
            Keying::Required,
            builder_of::<P, KE>(),
            builder_of::<P, VE>(),
            state,
            reply,
        )
    }
}

/// Goes on with an upsert formatter, where the build of its value encoder has come to `val`.
fn upsert_val<'a, P: Host, KE: Encoder<'a, P>, VE: Encoder<'a, P>>(
    key: KE,
    val: Progress<'a, P, VE, VE::Pending>,
) -> (progress: Progress<'a, P, UpsertFormatter<KE, VE>, UpsertPending<'a, P, KE, VE>>)
    ensures
        formatter_progress::<P, UpsertFormatter<KE, VE>>(progress) == with_val::<
            P,
            KE::Model,
            VE::Model,
            KE::State,
            VE::State,
        >(
            Keyed::Required(key.model()),
            encoder_progress::<P, VE>(val),
        ),
{
    match val {
        Progress::Ready(Ok(val)) => Progress::Ready(Ok(UpsertFormatter::new(key, val))),
        Progress::Ready(Err(error)) => Progress::Ready(Err(error)),
        Progress::Waiting(call, val) => Progress::Waiting(call, UpsertPending::Val { key, val }),
    }
}

/// Goes on with an upsert formatter, where the build of its key encoder has come to `key`.
fn upsert_key<'a, P: Host, KE: EncoderBuild<'a, P>, VE: EncoderBuild<'a, P>>(
    key: Progress<'a, P, KE, KE::Pending>,
    params: EncoderParams<'a>,
) -> (progress: Progress<'a, P, UpsertFormatter<KE, VE>, UpsertPending<'a, P, KE, VE>>)
    ensures
        formatter_progress::<P, UpsertFormatter<KE, VE>>(progress) == with_key(
            Keying::Required,
            encoder_progress::<P, KE>(key),
            params@,
            builder_of::<P, VE>(),
        ),
{
    match key {
        Progress::Ready(Ok(key)) => upsert_val(key, VE::build(params, None)),
        Progress::Ready(Err(error)) => Progress::Ready(Err(error)),
        Progress::Waiting(call, key) => Progress::Waiting(call, UpsertPending::Key { key, params }),
    }
}

impl<'a, P: Host, KE: EncoderBuild<'a, P>, VE: EncoderBuild<'a, P>> FormatterBuild<
    'a,
    P,
> for UpsertFormatter<KE, VE> {
    fn build(b: FormatterParams<'a>) -> (progress: Progress<'a, P, Self, Self::Pending>) {
        let key = KE::build(b.builder.clone(), Some(b.pk_indices));
        upsert_key(key, b.builder)
    }

    fn resume(pending: Self::Pending, reply: Reply<P>) -> (progress: Progress<
        'a,
        P,
        Self,
        Self::Pending,
    >) {
        match pending {
            UpsertPending::Key { key, params } => upsert_key(KE::resume(key, reply), params),
            UpsertPending::Val { key, val } => upsert_val(key, VE::resume(val, reply)),
        }
    }
}

impl<'a, P: Host> Formatter<'a, P> for DebeziumJsonFormatter {
    type Pending = Settled;

    type Model = BuiltFormatter<P>;

    type State = BuildingFormatter<P>;

    open spec fn model(self) -> Self::Model {
        FormatterModel::DebeziumJson {
            schema: self.schema@,
            pk_indices: self.pk_indices@,
            db_name: self.db_name@,
            sink_from_name: self.sink_from_name@,
            opts: self.opts,
        }
    }

    open spec fn state(pending: Self::Pending) -> Self::State {
        FormatterState::Settled
    }

    open spec fn buildable(params: ParamsModel, pk_indices: Seq<usize>) -> bool {
        params.encode == SinkEncode::Json
    }

    open spec fn start(params: ParamsModel, pk_indices: Seq<usize>) -> ProgressModel<
        P,
        Self::Model,
        Self::State,
    > {
        ProgressModel::Ready(Ok(debezium(params, pk_indices)))
    }

    open spec fn step(state: Self::State, reply: Reply<P>) -> ProgressModel<
        P,
        Self::Model,
        Self::State,
    > {
        ProgressModel::Ready(Err(ErrorModel::UnexpectedReply))
    }
}

impl<'a, P: Host> FormatterBuild<'a, P> for DebeziumJsonFormatter {
    fn build(b: FormatterParams<'a>) -> (progress: Progress<'a, P, Self, Self::Pending>) {
        Progress::Ready(
            Ok(
                DebeziumJsonFormatter::new(
                    b.builder.schema,
                    b.pk_indices,
                    b.builder.db_name,
                    b.builder.sink_from_name,
                    DebeziumAdapterOpts::default(),
                ),
            ),
        )
    }

    fn resume(pending: Self::Pending, reply: Reply<P>) -> (progress: Progress<
        'a,
        P,
        Self,
        Self::Pending,
    >) {
        Progress::Ready(Err(SinkError::UnexpectedReply))
    }
}

} // verus!
