//! What a build comes to, when every call is answered.
//!
//! The steps of a build are described one by one elsewhere. Here the whole build is described at
//! once: which calls are made, in which order, and what is built from the replies. A host is a
//! function to replies, from the calls that were made before and the call that is open: it may
//! answer the same call differently the second time.

use vstd::prelude::*;

use crate::encoder::{
    builder_of_kind, json_encoder, load_schema, proto_header, start_encoder, template_encoder,
    text_encoder, Builder, EncoderKind, EncoderModel, EncoderState, ParamsModel,
};
use crate::error::{ErrorModel, RejectionModel};
use crate::formatter::{
    debezium, resume_formatter, start_formatter, start_pair, step_pair, with_key, with_val,
    BuildingFormatter, BuiltFormatter, FormatterModel, FormatterState, Keyed, Keying, Shape,
};
use crate::host::{AvroHeader, CallModel, Host, ProgressModel, Reply};
use crate::sink::{resume_sink, select, sink_progress, start_sink, SinkModel, SinkState};

verus! {

/// The host answers every call with a reply of its kind.
pub open spec fn answers<P: Host>(
    host: spec_fn(Seq<CallModel<P>>, CallModel<P>) -> Reply<P>,
) -> bool {
    forall|made: Seq<CallModel<P>>, call: CallModel<P>|
        call.answered_by(#[trigger] host(made, call))
}

/// The calls that a build makes after those in `made`, at most `limit` of them, and where it then
/// is. The build goes on by `step`.
pub open spec fn run<P: Host, T, S>(
    step: spec_fn(S, Reply<P>) -> ProgressModel<P, T, S>,
    progress: ProgressModel<P, T, S>,
    host: spec_fn(Seq<CallModel<P>>, CallModel<P>) -> Reply<P>,
    made: Seq<CallModel<P>>,
    limit: nat,
) -> (Seq<CallModel<P>>, ProgressModel<P, T, S>)
    decreases limit,
{
    match progress {
        ProgressModel::Waiting(call, state) => if limit == 0 {
            (Seq::empty(), progress)
        } else {
            let rest = run(
                step,
                step(state, host(made, call)),
                host,
                made.push(call),
                (limit - 1) as nat,
            );
            (seq![call] + rest.0, rest.1)
        },
        ProgressModel::Ready(_) => (Seq::empty(), progress),
    }
}

/// The step of the build of a formatter from a key encoder and a value encoder.
pub open spec fn pair_step<P: Host, K, V, SK, SV>(
    keying: Keying,
    key: Builder<P, K, SK>,
    val: Builder<P, V, SV>,
) -> spec_fn(FormatterState<K, SK, SV>, Reply<P>) -> ProgressModel<
    P,
    FormatterModel<K, V>,
    FormatterState<K, SK, SV>,
> {
    |state: FormatterState<K, SK, SV>, reply: Reply<P>| step_pair(keying, key, val, state, reply)
}

/// The step of the build of a formatter of the given shape.
pub open spec fn formatter_step<P: Host>(shape: Shape) -> spec_fn(
    BuildingFormatter<P>,
    Reply<P>,
) -> ProgressModel<P, BuiltFormatter<P>, BuildingFormatter<P>> {
    |state: BuildingFormatter<P>, reply: Reply<P>| resume_formatter(shape, state, reply)
}

/// The step of the build of a sink formatter.
pub open spec fn sink_step<P: Host>() -> spec_fn(SinkState<P>, Reply<P>) -> ProgressModel<
    P,
    SinkModel<P>,
    SinkState<P>,
> {
    |state: SinkState<P>, reply: Reply<P>| resume_sink(state, reply)
}

/// The calls that the build of an encoder makes after those in `made`, in order.
pub open spec fn encoder_calls<P: Host>(
    kind: EncoderKind,
    params: ParamsModel,
    pk_indices: Option<Seq<usize>>,
    host: spec_fn(Seq<CallModel<P>>, CallModel<P>) -> Reply<P>,
    made: Seq<CallModel<P>>,
) -> Seq<CallModel<P>> {
    let options = params.options;
    let topic = params.topic;
    let schema = params.schema;
    match kind {
        EncoderKind::Json => {
            let timestamptz = CallModel::TimestamptzMode { options };
            match host(made, timestamptz)->TimestamptzMode_0 {
                Ok(_) => seq![timestamptz, CallModel::JsonbMode { options }],
                Err(_) => seq![timestamptz],
            }
        },
        EncoderKind::Text => Seq::empty(),
        EncoderKind::Avro => {
            let open = CallModel::OpenSchemaLoader { topic, options };
            match host(made, open)->SchemaLoader_0 {
                Ok(loader) => {
                    let load = load_schema(pk_indices, loader);
                    match host(made.push(open), load)->Schema_0 {
                        Ok((schema_id, avro)) => {
                            let header = AvroHeader::ConfluentSchemaRegistry(schema_id);
                            seq![
                                open,
                                load,
                                CallModel::NewAvroEncoder { schema, pk_indices, avro, header },
                            ]
                        },
                        Err(_) => seq![open, load],
                    }
                },
                Err(_) => seq![open],
            }
        },
        EncoderKind::Proto => {
            let fetch = CallModel::FetchDescriptor { options, topic };
            match host(made, fetch)->Descriptor_0 {
                Ok((descriptor, schema_id)) => {
                    let header = proto_header(schema_id);
                    seq![fetch, CallModel::NewProtoEncoder { schema, descriptor, header }]
                },
                Err(_) => seq![fetch],
            }
        },
        EncoderKind::Template => Seq::empty(),
    }
}

/// What the build of an encoder comes to, where the calls in `made` came before it.
pub open spec fn encoder_outcome<P: Host>(
    kind: EncoderKind,
    params: ParamsModel,
    pk_indices: Option<Seq<usize>>,
    host: spec_fn(Seq<CallModel<P>>, CallModel<P>) -> Reply<P>,
    made: Seq<CallModel<P>>,
) -> Result<EncoderModel<P>, ErrorModel<P>> {
    let options = params.options;
    let topic = params.topic;
    let schema = params.schema;
    match kind {
        EncoderKind::Json => {
            let timestamptz = CallModel::TimestamptzMode { options };
            let jsonb = CallModel::JsonbMode { options };
            match host(made, timestamptz)->TimestamptzMode_0 {
                Ok(timestamptz_mode) => match host(made.push(timestamptz), jsonb)->JsonbMode_0 {
                    Ok(jsonb_mode) => json_encoder(
                        params,
                        pk_indices,
                        timestamptz_mode,
                        jsonb_mode,
                    ),
                    Err(error) => Err(ErrorModel::Host(error)),
                },
                Err(error) => Err(ErrorModel::Host(error)),
            }
        },
        EncoderKind::Text => or_rejected(text_encoder(schema, pk_indices)),
        EncoderKind::Avro => {
            let open = CallModel::OpenSchemaLoader { topic, options };
            match host(made, open)->SchemaLoader_0 {
                Ok(loader) => {
                    let load = load_schema(pk_indices, loader);
                    match host(made.push(open), load)->Schema_0 {
                        Ok((schema_id, avro)) => {
                            let header = AvroHeader::ConfluentSchemaRegistry(schema_id);
                            let make = CallModel::NewAvroEncoder { schema, pk_indices, avro, header };
                            match host(made.push(open).push(load), make)->AvroEncoder_0 {
                                Ok(encoder) => Ok(EncoderModel::Avro(encoder)),
                                Err(error) => Err(ErrorModel::Host(error)),
                            }
                        },
                        Err(error) => Err(ErrorModel::Fetch(error)),
                    }
                },
                Err(error) => Err(ErrorModel::Fetch(error)),
            }
        },
        EncoderKind::Proto => {
            let fetch = CallModel::FetchDescriptor { options, topic };
            match host(made, fetch)->Descriptor_0 {
                Ok((descriptor, schema_id)) => {
                    let header = proto_header(schema_id);
                    let make = CallModel::NewProtoEncoder { schema, descriptor, header };
                    match host(made.push(fetch), make)->ProtoEncoder_0 {
                        Ok(encoder) => Ok(EncoderModel::Proto(encoder)),
                        Err(error) => Err(ErrorModel::Host(error)),
                    }
                },
                Err(error) => Err(ErrorModel::Fetch(error)),
            }
        },
        EncoderKind::Template => or_rejected(template_encoder(params, pk_indices)),
    }
}

/// A rejection as an error.
pub open spec fn or_rejected<P: Host, T>(result: Result<T, RejectionModel>) -> Result<
    T,
    ErrorModel<P>,
> {
    match result {
        Ok(built) => Ok(built),
        Err(rejection) => Err(ErrorModel::Rejected(rejection)),
    }
}

/// The calls that the builds of a key encoder and then of a value encoder make: those for the
/// value only where the key was built.
pub open spec fn pair_calls<P: Host>(
    key: EncoderKind,
    val: EncoderKind,
    params: ParamsModel,
    pk_indices: Seq<usize>,
    host: spec_fn(Seq<CallModel<P>>, CallModel<P>) -> Reply<P>,
) -> Seq<CallModel<P>> {
    let key_calls = encoder_calls(key, params, Some(pk_indices), host, Seq::empty());
    match encoder_outcome(key, params, Some(pk_indices), host, Seq::empty()) {
        Ok(_) => key_calls + encoder_calls(val, params, None, host, key_calls),
        Err(_) => key_calls,
    }
}

/// What the builds of a key encoder and then of a value encoder come to: the first error, or both.
pub open spec fn pair_outcome<P: Host>(
    key: EncoderKind,
    val: EncoderKind,
    params: ParamsModel,
    pk_indices: Seq<usize>,
    host: spec_fn(Seq<CallModel<P>>, CallModel<P>) -> Reply<P>,
) -> Result<(EncoderModel<P>, EncoderModel<P>), ErrorModel<P>> {
    let key_calls = encoder_calls(key, params, Some(pk_indices), host, Seq::empty());
    match encoder_outcome(key, params, Some(pk_indices), host, Seq::empty()) {
        Ok(key) => match encoder_outcome(val, params, None, host, key_calls) {
            Ok(val) => Ok((key, val)),
            Err(error) => Err(error),
        },
        Err(error) => Err(error),
    }
}

/// The calls that the build of a formatter makes, in order.
pub open spec fn formatter_calls<P: Host>(
    shape: Shape,
    params: ParamsModel,
    pk_indices: Seq<usize>,
    host: spec_fn(Seq<CallModel<P>>, CallModel<P>) -> Reply<P>,
) -> Seq<CallModel<P>> {
    match shape {
        Shape::AppendOnly { key, val } => if pk_indices.len() == 0 {
            encoder_calls(val, params, None, host, Seq::empty())
        } else {
            pair_calls(key, val, params, pk_indices, host)
        },
        Shape::Upsert { key, val } => pair_calls(key, val, params, pk_indices, host),
        Shape::DebeziumJson => Seq::empty(),
    }
}

/// What the build of a formatter comes to.
pub open spec fn formatter_outcome<P: Host>(
    shape: Shape,
    params: ParamsModel,
    pk_indices: Seq<usize>,
    host: spec_fn(Seq<CallModel<P>>, CallModel<P>) -> Reply<P>,
) -> Result<BuiltFormatter<P>, ErrorModel<P>> {
    match shape {
        Shape::AppendOnly { key, val } => if pk_indices.len() == 0 {
            match encoder_outcome(val, params, None, host, Seq::empty()) {
                Ok(val) => Ok(FormatterModel::AppendOnly { key: None, val }),
                Err(error) => Err(error),
            }
        } else {
            match pair_outcome(key, val, params, pk_indices, host) {
                Ok((key, val)) => Ok(FormatterModel::AppendOnly { key: Some(key), val }),
                Err(error) => Err(error),
            }
        },
        Shape::Upsert { key, val } => match pair_outcome(key, val, params, pk_indices, host) {
            Ok((key, val)) => Ok(FormatterModel::Upsert { key, val }),
            Err(error) => Err(error),
        },
        Shape::DebeziumJson => Ok(debezium(params, pk_indices)),
    }
}

/// The calls that the build of a sink formatter makes, in order.
pub open spec fn sink_calls<P: Host>(
    params: ParamsModel,
    pk_indices: Seq<usize>,
    host: spec_fn(Seq<CallModel<P>>, CallModel<P>) -> Reply<P>,
) -> Seq<CallModel<P>> {
    match select(params.format, params.encode, params.key_encode) {
        Ok(shape) => formatter_calls(shape, params, pk_indices, host),
        Err(_) => Seq::empty(),
    }
}

/// What the build of a sink formatter comes to.
pub open spec fn sink_outcome<P: Host>(
    params: ParamsModel,
    pk_indices: Seq<usize>,
    host: spec_fn(Seq<CallModel<P>>, CallModel<P>) -> Reply<P>,
) -> Result<SinkModel<P>, ErrorModel<P>> {
    match select(params.format, params.encode, params.key_encode) {
        Ok(shape) => match formatter_outcome(shape, params, pk_indices, host) {
            Ok(formatter) => Ok(SinkModel { shape, formatter }),
            Err(error) => Err(error),
        },
        Err(rejection) => Err(ErrorModel::Rejected(rejection)),
    }
}

/// The calls of a formatter, and where its build then is, where `ran` are the calls of its key
/// encoder and where the build of that one then is.
pub open spec fn then_val<P: Host, K, V, SK, SV>(
    keying: Keying,
    ran: (Seq<CallModel<P>>, ProgressModel<P, K, SK>),
    params: ParamsModel,
    val: Builder<P, V, SV>,
    host: spec_fn(Seq<CallModel<P>>, CallModel<P>) -> Reply<P>,
    made: Seq<CallModel<P>>,
    limit: nat,
) -> (Seq<CallModel<P>>, ProgressModel<P, FormatterModel<K, V>, FormatterState<K, SK, SV>>) {
    match ran.1 {
        ProgressModel::Ready(Ok(key)) => {
            let rest = run(
                val.step,
                (val.start)(params, None),
                host,
                made + ran.0,
                (limit - ran.0.len()) as nat,
            );
            (ran.0 + rest.0, with_val(keying.keyed(key), rest.1))
        },
        ProgressModel::Ready(Err(error)) => (ran.0, ProgressModel::Ready(Err(error))),
        ProgressModel::Waiting(call, key) => (
            ran.0,
            ProgressModel::Waiting(call, FormatterState::Key { key, params }),
        ),
    }
}

/// The build of an encoder ends within three calls, whatever calls came before it. The calls that
/// it makes, and what it comes to, are those of `encoder_calls` and `encoder_outcome`.
pub proof fn law_encoder_build_runs_to_its_outcome<P: Host>(
    kind: EncoderKind,
    params: ParamsModel,
    pk_indices: Option<Seq<usize>>,
    host: spec_fn(Seq<CallModel<P>>, CallModel<P>) -> Reply<P>,
    made: Seq<CallModel<P>>,
    limit: nat,
)
    requires
        answers(host),
        limit >= 3,
    ensures
        run(
            builder_of_kind::<P>(kind).step,
            start_encoder(kind, params, pk_indices),
            host,
            made,
            limit,
        ) == (
            encoder_calls(kind, params, pk_indices, host, made),
            ProgressModel::<P, EncoderModel<P>, EncoderState<P>>::Ready(
                encoder_outcome(kind, params, pk_indices, host, made),
            ),
        ),
        encoder_calls(kind, params, pk_indices, host, made).len() <= 3,
{
    reveal_with_fuel(run, 4);
    let ran = run(
        builder_of_kind::<P>(kind).step,
        start_encoder(kind, params, pk_indices),
        host,
        made,
        limit,
    );
    assert(ran.0 =~= encoder_calls(kind, params, pk_indices, host, made));
}

/// While the value encoder of a formatter is built, the formatter follows it.
proof fn lemma_run_val<P: Host, K, V, SK, SV>(
    keying: Keying,
    key: Builder<P, K, SK>,
    val: Builder<P, V, SV>,
    keyed: Keyed<K>,
    progress: ProgressModel<P, V, SV>,
    host: spec_fn(Seq<CallModel<P>>, CallModel<P>) -> Reply<P>,
    made: Seq<CallModel<P>>,
    limit: nat,
)
    ensures
        ({
            let ran = run(val.step, progress, host, made, limit);
            run(pair_step(keying, key, val), with_val(keyed, progress), host, made, limit) == (
                ran.0,
                with_val::<P, K, V, SK, SV>(keyed, ran.1),
            )
        }),
    decreases limit,
{
    if let ProgressModel::Waiting(call, state) = progress {
        if limit > 0 {
            lemma_run_val(
                keying,
                key,
                val,
                keyed,
                (val.step)(state, host(made, call)),
                host,
                made.push(call),
                (limit - 1) as nat,
            );
        }
    }
}

/// While the key encoder of a formatter is built, the formatter follows it; the value encoder
/// comes next.
proof fn lemma_run_key<P: Host, K, V, SK, SV>(
    keying: Keying,
    key: Builder<P, K, SK>,
    val: Builder<P, V, SV>,
    progress: ProgressModel<P, K, SK>,
    params: ParamsModel,
    host: spec_fn(Seq<CallModel<P>>, CallModel<P>) -> Reply<P>,
    made: Seq<CallModel<P>>,
    limit: nat,
)
    ensures
        run(key.step, progress, host, made, limit).0.len() <= limit,
        run(
            pair_step(keying, key, val),
            with_key(keying, progress, params, val),
            host,
            made,
            limit,
        ) == then_val(
            keying,
            run(key.step, progress, host, made, limit),
            params,
            val,
            host,
            made,
            limit,
        ),
    decreases limit,
{
    let ran = run(key.step, progress, host, made, limit);
    match progress {
        ProgressModel::Waiting(call, state) => {
            if limit > 0 {
                let left = (limit - 1) as nat;
                let next = (key.step)(state, host(made, call));
                lemma_run_key(keying, key, val, next, params, host, made.push(call), left);
                let ran_next = run(key.step, next, host, made.push(call), left);
                assert(made.push(call) + ran_next.0 =~= made + ran.0);
                if let ProgressModel::Ready(Ok(_)) = ran.1 {
                    let rest = run(
                        val.step,
                        (val.start)(params, None),
                        host,
                        made + ran.0,
                        (limit - ran.0.len()) as nat,
                    );
                    assert(seq![call] + (ran_next.0 + rest.0) =~= ran.0 + rest.0);
                }
            }
        },
        ProgressModel::Ready(result) => {
            if let Ok(built) = result {
                let start = (val.start)(params, None);
                lemma_run_val(keying, key, val, keying.keyed(built), start, host, made, limit);
                assert(made + ran.0 =~= made);
                assert(ran.0 + run(val.step, start, host, made, limit).0 =~= run(
                    val.step,
                    start,
                    host,
                    made,
                    limit,
                ).0);
            }
        },
    }
}

/// However its encoders are built, a formatter makes the calls of its key encoder, and then, once
/// the key encoder is there, those of its value encoder. An error of either is its own error. A
/// formatter that can do without keys makes only the calls of its value encoder where there is no
/// primary key.
///
/// With `builder_of` two types of encoders, these are the builds of `AppendOnlyFormatter` and
/// `UpsertFormatter` over those types.
pub proof fn law_keys_then_values<P: Host, K, V, SK, SV>(
    keying: Keying,
    key: Builder<P, K, SK>,
    val: Builder<P, V, SV>,
    params: ParamsModel,
    pk_indices: Seq<usize>,
    host: spec_fn(Seq<CallModel<P>>, CallModel<P>) -> Reply<P>,
    made: Seq<CallModel<P>>,
    limit: nat,
)
    ensures
        ({
            let all = run(
                pair_step(keying, key, val),
                start_pair(keying, key, val, params, pk_indices),
                host,
                made,
                limit,
            );
            if keying is Optional && pk_indices.len() == 0 {
                let ran = run(val.step, (val.start)(params, None), host, made, limit);
                all == (ran.0, with_val::<P, K, V, SK, SV>(Keyed::Optional(None), ran.1))
            } else {
                let ran = run(key.step, (key.start)(params, Some(pk_indices)), host, made, limit);
                &&& ran.0.len() <= limit
                &&& all == then_val(keying, ran, params, val, host, made, limit)
            }
        }),
{
    if keying is Optional && pk_indices.len() == 0 {
        let start = (val.start)(params, None);
        lemma_run_val(keying, key, val, Keyed::Optional(None), start, host, made, limit);
    } else {
        let start = (key.start)(params, Some(pk_indices));
        lemma_run_key(keying, key, val, start, params, host, made, limit);
    }
}

/// However the host answers, the build of a formatter of any shape ends within six calls. The
/// calls that it makes, and what it comes to, are those of `formatter_calls` and
/// `formatter_outcome`.
#[verifier::rlimit(60)]
#[verifier::spinoff_prover]
pub proof fn law_formatter_build_runs_to_its_outcome<P: Host>(
    shape: Shape,
    params: ParamsModel,
    pk_indices: Seq<usize>,
    host: spec_fn(Seq<CallModel<P>>, CallModel<P>) -> Reply<P>,
    limit: nat,
)
    requires
        answers(host),
        limit >= 6,
    ensures
        run(
            formatter_step(shape),
            start_formatter(shape, params, pk_indices),
            host,
            Seq::empty(),
            limit,
        ) == (
            formatter_calls(shape, params, pk_indices, host),
            ProgressModel::<P, BuiltFormatter<P>, BuildingFormatter<P>>::Ready(
                formatter_outcome(shape, params, pk_indices, host),
            ),
        ),
        formatter_calls(shape, params, pk_indices, host).len() <= 6,
{
    let none = Seq::<CallModel<P>>::empty();
    let (keying, key, val) = match shape {
        Shape::AppendOnly { key, val } => (Keying::Optional, key, val),
        Shape::Upsert { key, val } => (Keying::Required, key, val),
        Shape::DebeziumJson => (Keying::Optional, EncoderKind::Json, EncoderKind::Json),
    };
    if shape !is DebeziumJson {
        let key_builder = builder_of_kind::<P>(key);
        let val_builder = builder_of_kind::<P>(val);
        assert(formatter_step(shape) =~= pair_step(keying, key_builder, val_builder));
        law_keys_then_values(
            keying,
            key_builder,
            val_builder,
            params,
            pk_indices,
            host,
            none,
            limit,
        );
        law_encoder_build_runs_to_its_outcome(val, params, None, host, none, limit);
        law_encoder_build_runs_to_its_outcome(key, params, Some(pk_indices), host, none, limit);
        let made = encoder_calls(key, params, Some(pk_indices), host, none);
        let left = (limit - made.len()) as nat;
        assert(none + made =~= made);
        law_encoder_build_runs_to_its_outcome(val, params, None, host, made, left);
    }
}

/// The build of a sink formatter follows that of its formatter.
proof fn lemma_run_sink<P: Host>(
    shape: Shape,
    progress: ProgressModel<P, BuiltFormatter<P>, BuildingFormatter<P>>,
    host: spec_fn(Seq<CallModel<P>>, CallModel<P>) -> Reply<P>,
    made: Seq<CallModel<P>>,
    limit: nat,
)
    ensures
        ({
            let ran = run(formatter_step(shape), progress, host, made, limit);
            run(sink_step(), sink_progress(shape, progress), host, made, limit) == (
                ran.0,
                sink_progress(shape, ran.1),
            )
        }),
    decreases limit,
{
    if let ProgressModel::Waiting(call, state) = progress {
        if limit > 0 {
            lemma_run_sink(
                shape,
                resume_formatter(shape, state, host(made, call)),
                host,
                made.push(call),
                (limit - 1) as nat,
            );
        }
    }
}

/// However the host answers, also where it answers the same call differently the second time, the
/// build of a sink formatter ends within six calls. The calls that it makes, and what it comes to,
/// are those of `sink_calls` and `sink_outcome`: the key before the value, and nothing after the
/// first error.
pub proof fn law_build_runs_to_its_outcome<P: Host>(
    params: ParamsModel,
    pk_indices: Seq<usize>,
    host: spec_fn(Seq<CallModel<P>>, CallModel<P>) -> Reply<P>,
    limit: nat,
)
    requires
        answers(host),
        limit >= 6,
    ensures
        run(sink_step(), start_sink(params, pk_indices), host, Seq::empty(), limit) == (
            sink_calls(params, pk_indices, host),
            ProgressModel::<P, SinkModel<P>, SinkState<P>>::Ready(
                sink_outcome(params, pk_indices, host),
            ),
        ),
        sink_calls(params, pk_indices, host).len() <= 6,
{
    if let Ok(shape) = select(params.format, params.encode, params.key_encode) {
        let start = start_formatter(shape, params, pk_indices);
        law_formatter_build_runs_to_its_outcome(shape, params, pk_indices, host, limit);
        lemma_run_sink(shape, start, host, Seq::empty(), limit);
    }
}

} // verus!
