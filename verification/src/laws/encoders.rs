//! What a built encoder is, and when it is built.

use vstd::prelude::*;
use vstd::utf8::is_ascii_chars;

use crate::catalog::DataType;
use crate::encoder::{
    DateHandlingMode, EncoderKind, EncoderModel, ParamsModel, TimeHandlingMode,
    TimestampHandlingMode,
};
use crate::error::{ErrorModel, RejectionModel};
use crate::host::{AvroHeader, CallModel, Host, ProtoHeader, Reply};
use crate::outcome::{answers, encoder_calls, encoder_outcome};
use crate::text::{lowercase, unicode_lowercase};

verus! {

/// `text` is `word`, a word of small ASCII letters, but for the case of its letters.
pub open spec fn same_but_for_case(text: Seq<char>, word: Seq<char>) -> bool {
    &&& text.len() == word.len()
    &&& forall|i: int|
        #![trigger text[i]]
        0 <= i < text.len() ==> text[i] == word[i] || text[i] as int + 32 == word[i] as int
}

/// `value` is `word` once it is in lower case.
pub open spec fn reads(value: Seq<char>, word: Seq<char>) -> bool {
    if is_ascii_chars(value) {
        same_but_for_case(value, word)
    } else {
        unicode_lowercase(value) == word
    }
}

/// The option `schemas.enable` is set, and says `true`.
pub open spec fn schemas_enabled(options: Map<Seq<char>, Seq<char>>) -> bool {
    &&& options.contains_key("schemas.enable"@)
    &&& reads(options["schemas.enable"@], "true"@)
}

/// The option `schemas.enable` is set, and says neither `true` nor `false`.
pub open spec fn schemas_enable_unreadable(options: Map<Seq<char>, Seq<char>>) -> bool {
    &&& options.contains_key("schemas.enable"@)
    &&& !reads(options["schemas.enable"@], "true"@)
    &&& !reads(options["schemas.enable"@], "false"@)
}

/// The lower case of a text is a word of small letters exactly where the text reads as that word.
proof fn lemma_reads(value: Seq<char>, word: Seq<char>)
    requires
        forall|i: int| 0 <= i < word.len() ==> 'a' <= #[trigger] word[i] <= 'z',
    ensures
        reads(value, word) <==> lowercase(value) == word,
{
    if is_ascii_chars(value) {
        let lowered = lowercase(value);
        if same_but_for_case(value, word) {
            assert forall|i: int| 0 <= i < value.len() implies lowered[i] == word[i] by {
                assert('a' <= word[i] <= 'z');
                assert(value[i] == word[i] || value[i] as int + 32 == word[i] as int);
            }
            assert(lowered =~= word);
        }
        if lowered == word {
            assert forall|i: int| #![trigger value[i]] 0 <= i < value.len() implies value[i]
                == word[i] || value[i] as int + 32 == word[i] as int by {
                assert(lowered[i] == word[i]);
            }
        }
    }
}

/// The lower case of a text is `true` or `false` exactly where it reads so, and it reads as at most
/// one of them.
proof fn lemma_reads_truth(value: Seq<char>)
    ensures
        reads(value, "true"@) <==> lowercase(value) == "true"@,
        reads(value, "false"@) <==> lowercase(value) == "false"@,
        "true"@ != "false"@,
{
    reveal_strlit("true");
    reveal_strlit("false");
    lemma_reads(value, "true"@);
    lemma_reads(value, "false"@);
    assert("true"@.len() != "false"@.len());
}

/// ASCII text is in lower case once each capital letter is its small letter and all else is kept.
pub proof fn law_lower_case_of_ascii(s: Seq<char>)
    requires
        is_ascii_chars(s),
    ensures
        lowercase(s).len() == s.len(),
        forall|i: int|
            #![trigger lowercase(s)[i]]
            0 <= i < s.len() ==> if 65 <= s[i] as int <= 90 {
                lowercase(s)[i] as int == s[i] as int + 32
            } else {
                lowercase(s)[i] == s[i]
            },
{
}

/// Where `schemas.enable` says `true`, in any case, a JSON encoder has the Kafka Connect schema
/// name made of the names of the database and of the relation, with a dot between; where it says
/// `false` or is not set, it has none. What it is built for, a key or a value, makes no difference,
/// nor does the host. Anything else that `schemas.enable` says is rejected.
pub proof fn law_kafka_schema_names<P: Host>(
    params: ParamsModel,
    pk_indices: Option<Seq<usize>>,
    host: spec_fn(Seq<CallModel<P>>, CallModel<P>) -> Reply<P>,
    made: Seq<CallModel<P>>,
)
    requires
        encoder_outcome(EncoderKind::Json, params, pk_indices, host, made) is Ok,
    ensures
        ({
            let encoder = encoder_outcome(EncoderKind::Json, params, pk_indices, host, made)->Ok_0;
            &&& !schemas_enable_unreadable(params.options)
            &&& encoder matches EncoderModel::Json { kafka_schema_name, .. }
            &&& kafka_schema_name == if schemas_enabled(params.options) {
                Some(params.db_name + "."@ + params.sink_from_name)
            } else {
                None
            }
        }),
{
    lemma_reads_truth(params.options["schemas.enable"@]);
}

/// A JSON encoder has the columns and the key that it was built for. It counts days from year one
/// and writes times in milliseconds. How it writes timestamps with a time zone, and JSON columns,
/// is what the host read from the options, asked in this order.
pub proof fn law_json_encoders<P: Host>(
    params: ParamsModel,
    pk_indices: Option<Seq<usize>>,
    host: spec_fn(Seq<CallModel<P>>, CallModel<P>) -> Reply<P>,
    made: Seq<CallModel<P>>,
)
    requires
        answers(host),
    ensures
        ({
            let options = params.options;
            let timestamptz = CallModel::TimestamptzMode { options };
            let first = host(made, timestamptz);
            let second = host(made.push(timestamptz), CallModel::JsonbMode { options });
            let outcome = encoder_outcome(EncoderKind::Json, params, pk_indices, host, made);
            &&& outcome is Ok <==> {
                &&& first->TimestamptzMode_0 is Ok
                &&& second->JsonbMode_0 is Ok
                &&& !schemas_enable_unreadable(options)
            }
            &&& outcome matches Ok(encoder) ==> {
                &&& encoder matches EncoderModel::Json {
                    schema,
                    pk_indices: columns,
                    date_handling_mode,
                    timestamp_handling_mode,
                    timestamptz_handling_mode,
                    time_handling_mode,
                    jsonb_handling_mode,
                    ..
                }
                &&& schema == params.schema
                &&& columns == pk_indices
                &&& date_handling_mode == DateHandlingMode::FromCe
                &&& timestamp_handling_mode == TimestampHandlingMode::Milli
                &&& time_handling_mode == TimeHandlingMode::Milli
                &&& first == Reply::<P>::TimestamptzMode(Ok(timestamptz_handling_mode))
                &&& second == Reply::<P>::JsonbMode(Ok(jsonb_handling_mode))
            }
            &&& first matches Reply::TimestamptzMode(Err(error)) ==> outcome == Err::<
                EncoderModel<P>,
                ErrorModel<P>,
            >(ErrorModel::Host(error))
            &&& first->TimestamptzMode_0 is Ok ==> (second matches Reply::JsonbMode(Err(error))
                ==> outcome == Err::<EncoderModel<P>, ErrorModel<P>>(ErrorModel::Host(error)))
            &&& first->TimestamptzMode_0 is Ok && second->JsonbMode_0 is Ok
                && schemas_enable_unreadable(options) ==> outcome == Err::<
                EncoderModel<P>,
                ErrorModel<P>,
            >(
                ErrorModel::Rejected(
                    RejectionModel::SchemasEnable { value: options["schemas.enable"@] },
                ),
            )
        }),
{
    lemma_reads_truth(params.options["schemas.enable"@]);
}

/// A JSON encoder of a key and one of a value, built from the same parameters, differ in their key
/// columns and in what the host answered, and in nothing else.
pub proof fn law_json_keys_are_as_values<P: Host>(
    params: ParamsModel,
    indices: Seq<usize>,
    host: spec_fn(Seq<CallModel<P>>, CallModel<P>) -> Reply<P>,
    made_key: Seq<CallModel<P>>,
    made_val: Seq<CallModel<P>>,
)
    requires
        encoder_outcome(EncoderKind::Json, params, Some(indices), host, made_key) is Ok,
        encoder_outcome(EncoderKind::Json, params, None, host, made_val) is Ok,
    ensures
        ({
            let key = encoder_outcome(EncoderKind::Json, params, Some(indices), host, made_key)->Ok_0;
            let val = encoder_outcome(EncoderKind::Json, params, None, host, made_val)->Ok_0;
            &&& key is Json
            &&& val is Json
            &&& key->Json_schema == val->Json_schema
            &&& key->Json_pk_indices == Some(indices)
            &&& val->Json_pk_indices == None::<Seq<usize>>
            &&& key->date_handling_mode == val->date_handling_mode
            &&& key->timestamp_handling_mode == val->timestamp_handling_mode
            &&& key->time_handling_mode == val->time_handling_mode
            &&& key->kafka_schema_name == val->kafka_schema_name
        }),
{
}

/// A text encoder is built exactly for a key of one column, which the schema has, and whose type is
/// written as text. It encodes that column, of the schema that it was given, and it asks nothing of
/// the host. What is wrong with any other key is said of that key.
pub proof fn law_text_encoders<P: Host>(
    params: ParamsModel,
    pk_indices: Option<Seq<usize>>,
    host: spec_fn(Seq<CallModel<P>>, CallModel<P>) -> Reply<P>,
    made: Seq<CallModel<P>>,
)
    ensures
        encoder_outcome(EncoderKind::Text, params, pk_indices, host, made) == match pk_indices {
            None => Err::<EncoderModel<P>, ErrorModel<P>>(
                ErrorModel::Rejected(RejectionModel::TextKeyMissing),
            ),
            Some(indices) => {
                let fields = params.schema.fields;
                if indices.len() != 1 {
                    Err(ErrorModel::Rejected(RejectionModel::TextKeyColumns { count: indices.len() }))
                } else if fields.len() <= indices[0] {
                    Err(
                        ErrorModel::Rejected(
                            RejectionModel::TextKeyOutOfBounds {
                                index: indices[0] as nat,
                                schema: params.schema,
                            },
                        ),
                    )
                } else if let DataType::Other(display) = fields[indices[0] as int].data_type {
                    Err(
                        ErrorModel::Rejected(
                            RejectionModel::TextKeyType {
                                column: fields[indices[0] as int].name@,
                                type_text: display@,
                            },
                        ),
                    )
                } else {
                    Ok(EncoderModel::Text { schema: params.schema, pk_index: indices[0] })
                }
            },
        },
        encoder_calls(EncoderKind::Text, params, pk_indices, host, made).len() == 0,
{
}

/// The column that a text encoder encodes is the one column of the primary key, and its type is one
/// of the seven that are written as text.
pub proof fn law_text_encoders_encode_the_key<P: Host>(
    params: ParamsModel,
    pk_indices: Option<Seq<usize>>,
    host: spec_fn(Seq<CallModel<P>>, CallModel<P>) -> Reply<P>,
    made: Seq<CallModel<P>>,
)
    requires
        encoder_outcome(EncoderKind::Text, params, pk_indices, host, made) is Ok,
    ensures
        ({
            let encoder = encoder_outcome(EncoderKind::Text, params, pk_indices, host, made)->Ok_0;
            &&& encoder matches EncoderModel::Text { schema, pk_index }
            &&& schema == params.schema
            &&& pk_indices == Some(seq![pk_index])
            &&& pk_index < schema.fields.len()
            &&& match schema.fields[pk_index as int].data_type {
                DataType::Varchar
                | DataType::Boolean
                | DataType::Int16
                | DataType::Int32
                | DataType::Int64
                | DataType::Int256
                | DataType::Serial => true,
                DataType::Other(_) => false,
            }
        }),
{
    let encoder = encoder_outcome(EncoderKind::Text, params, pk_indices, host, made)->Ok_0;
    assert(pk_indices->Some_0 =~= seq![encoder->pk_index]);
}

/// A template encoder of a key fills the template in the option `key_format`, one of a value that
/// in `value_format`, whatever else was declared. It is built exactly where that option is set, and
/// has the columns and the key that it was built for.
pub proof fn law_template_encoders<P: Host>(
    params: ParamsModel,
    pk_indices: Option<Seq<usize>>,
    host: spec_fn(Seq<CallModel<P>>, CallModel<P>) -> Reply<P>,
    made: Seq<CallModel<P>>,
)
    ensures
        ({
            let name = if pk_indices is Some {
                "key_format"@
            } else {
                "value_format"@
            };
            let outcome = encoder_outcome(EncoderKind::Template, params, pk_indices, host, made);
            &&& outcome is Ok <==> params.options.contains_key(name)
            &&& outcome matches Ok(encoder) ==> {
                &&& encoder matches EncoderModel::Template { schema, pk_indices: columns, template }
                &&& schema == params.schema
                &&& columns == pk_indices
                &&& template == params.options[name]
            }
            &&& outcome matches Err(error) ==> error == ErrorModel::<P>::Rejected(
                RejectionModel::TemplateMissing { option_name: name },
            )
        }),
        encoder_calls(EncoderKind::Template, params, pk_indices, host, made).len() == 0,
{
}

/// What the option of the value holds makes no difference to the template of a key, nor the other
/// way round.
pub proof fn law_templates_are_independent<P: Host>(
    params: ParamsModel,
    indices: Seq<usize>,
    text: Seq<char>,
    host: spec_fn(Seq<CallModel<P>>, CallModel<P>) -> Reply<P>,
    made: Seq<CallModel<P>>,
)
    ensures
        ({
            let kind = EncoderKind::Template;
            let other_val = ParamsModel {
                options: params.options.insert("value_format"@, text),
                ..params
            };
            let other_key = ParamsModel {
                options: params.options.insert("key_format"@, text),
                ..params
            };
            &&& encoder_outcome(kind, other_val, Some(indices), host, made) == encoder_outcome(
                kind,
                params,
                Some(indices),
                host,
                made,
            )
            &&& encoder_outcome(kind, other_key, None, host, made) == encoder_outcome(
                kind,
                params,
                None,
                host,
                made,
            )
        }),
{
    reveal_strlit("key_format");
    reveal_strlit("value_format");
    assert("key_format"@.len() != "value_format"@.len());
}

/// The error in a reply about handling modes or from the making of an encoder.
pub open spec fn host_error<P: Host>(reply: Reply<P>) -> Option<P::Error> {
    match reply {
        Reply::TimestamptzMode(Err(error)) => Some(error),
        Reply::JsonbMode(Err(error)) => Some(error),
        Reply::ProtoEncoder(Err(error)) => Some(error),
        Reply::AvroEncoder(Err(error)) => Some(error),
        _ => None,
    }
}

/// The error in a reply about message schemas.
pub open spec fn fetch_error<P: Host>(reply: Reply<P>) -> Option<P::FetchError> {
    match reply {
        Reply::Descriptor(Err(error)) => Some(error),
        Reply::SchemaLoader(Err(error)) => Some(error),
        Reply::Schema(Err(error)) => Some(error),
        _ => None,
    }
}

/// The calls of an encoder, and what each carries. The options, the topic and the columns are those
/// of the declaration; the columns of a key are all that the build was given, in order. What came
/// in one reply goes out in the next call: the loader into the load, the Avro schema with its
/// identifier into the encoder, the descriptor with its identifier, if it has one, into the
/// encoder.
pub proof fn law_encoder_calls<P: Host>(
    kind: EncoderKind,
    params: ParamsModel,
    pk_indices: Option<Seq<usize>>,
    host: spec_fn(Seq<CallModel<P>>, CallModel<P>) -> Reply<P>,
    made: Seq<CallModel<P>>,
    i: int,
)
    requires
        answers(host),
        0 <= i < encoder_calls(kind, params, pk_indices, host, made).len(),
    ensures
        ({
            let calls = encoder_calls(kind, params, pk_indices, host, made);
            match calls[i] {
                CallModel::TimestamptzMode { options } => {
                    &&& kind is Json
                    &&& i == 0
                    &&& options == params.options
                },
                CallModel::JsonbMode { options } => {
                    &&& kind is Json
                    &&& i == 1
                    &&& options == params.options
                },
                CallModel::FetchDescriptor { options, topic } => {
                    &&& kind is Proto
                    &&& i == 0
                    &&& options == params.options
                    &&& topic == params.topic
                },
                CallModel::NewProtoEncoder { schema, descriptor, header } => {
                    &&& kind is Proto
                    &&& i == 1
                    &&& schema == params.schema
                    &&& host(made, calls[0]) == Reply::<P>::Descriptor(
                        Ok(
                            (
                                descriptor,
                                match header {
                                    ProtoHeader::Absent => None,
                                    ProtoHeader::ConfluentSchemaRegistry(id) => Some(id),
                                },
                            ),
                        ),
                    )
                },
                CallModel::OpenSchemaLoader { topic, options } => {
                    &&& kind is Avro
                    &&& i == 0
                    &&& topic == params.topic
                    &&& options == params.options
                },
                CallModel::LoadKeySchema { loader } => {
                    &&& kind is Avro
                    &&& i == 1
                    &&& pk_indices is Some
                    &&& host(made, calls[0]) == Reply::<P>::SchemaLoader(Ok(loader))
                },
                CallModel::LoadValSchema { loader } => {
                    &&& kind is Avro
                    &&& i == 1
                    &&& pk_indices is None
                    &&& host(made, calls[0]) == Reply::<P>::SchemaLoader(Ok(loader))
                },
                CallModel::NewAvroEncoder { schema, pk_indices: columns, avro, header } => {
                    let AvroHeader::ConfluentSchemaRegistry(id) = header;
                    &&& kind is Avro
                    &&& i == 2
                    &&& schema == params.schema
                    &&& columns == pk_indices
                    &&& host(made.push(calls[0]), calls[1]) == Reply::<P>::Schema(Ok((id, avro)))
                },
            }
        }),
{
}

/// How many calls an encoder makes: as many as its kind takes, or as many as it took to get an
/// error.
pub proof fn law_encoder_calls_end<P: Host>(
    kind: EncoderKind,
    params: ParamsModel,
    pk_indices: Option<Seq<usize>>,
    host: spec_fn(Seq<CallModel<P>>, CallModel<P>) -> Reply<P>,
    made: Seq<CallModel<P>>,
)
    requires
        answers(host),
    ensures
        ({
            let calls = encoder_calls(kind, params, pk_indices, host, made);
            let outcome = encoder_outcome(kind, params, pk_indices, host, made);
            let last = host(made + calls.drop_last(), calls.last());
            let all = match kind {
                EncoderKind::Json => 2nat,
                EncoderKind::Text => 0,
                EncoderKind::Avro => 3,
                EncoderKind::Proto => 2,
                EncoderKind::Template => 0,
            };
            &&& calls.len() <= all
            &&& all > 0 ==> calls.len() > 0
            &&& forall|i: int|
                #![trigger calls[i]]
                0 <= i < calls.len() - 1 ==> {
                    &&& host_error(host(made + calls.take(i), calls[i])) is None
                    &&& fetch_error(host(made + calls.take(i), calls[i])) is None
                }
            &&& calls.len() > 0 ==> {
                &&& host_error(last) matches Some(error) ==> outcome == Err::<
                    EncoderModel<P>,
                    ErrorModel<P>,
                >(ErrorModel::Host(error))
                &&& fetch_error(last) matches Some(error) ==> outcome == Err::<
                    EncoderModel<P>,
                    ErrorModel<P>,
                >(ErrorModel::Fetch(error))
                &&& host_error(last) is None && fetch_error(last) is None ==> calls.len() == all
                &&& outcome matches Ok(_) ==> host_error(last) is None && fetch_error(last) is None
                &&& outcome matches Err(ErrorModel::Host(error)) ==> host_error(last) == Some(error)
                &&& outcome matches Err(ErrorModel::Fetch(error)) ==> fetch_error(last) == Some(
                    error,
                )
            }
            &&& calls.len() == 0 ==> {
                &&& outcome matches Err(error) ==> error is Rejected
            }
        }),
{
    let calls = encoder_calls(kind, params, pk_indices, host, made);
    assert(made + calls.take(0) =~= made);
    if calls.len() >= 2 {
        assert(made + calls.take(1) =~= made.push(calls[0]));
    }
    if calls.len() >= 3 {
        assert(made + calls.take(2) =~= made.push(calls[0]).push(calls[1]));
    }
    if calls.len() > 0 {
        assert(calls.drop_last() =~= calls.take(calls.len() - 1));
    }
}

/// An Avro encoder and a Protobuf encoder are those that the host made, in reply to the last call.
/// Where the host made one, the build has it.
pub proof fn law_made_encoders<P: Host>(
    kind: EncoderKind,
    params: ParamsModel,
    pk_indices: Option<Seq<usize>>,
    host: spec_fn(Seq<CallModel<P>>, CallModel<P>) -> Reply<P>,
    made: Seq<CallModel<P>>,
)
    requires
        answers(host),
        kind is Avro || kind is Proto,
    ensures
        ({
            let calls = encoder_calls(kind, params, pk_indices, host, made);
            let outcome = encoder_outcome(kind, params, pk_indices, host, made);
            let last = host(made + calls.drop_last(), calls.last());
            &&& outcome is Ok <==> {
                ||| last matches Reply::AvroEncoder(Ok(_))
                ||| last matches Reply::ProtoEncoder(Ok(_))
            }
            &&& outcome matches Ok(encoder) ==> {
                &&& kind is Avro ==> (encoder matches EncoderModel::Avro(inner) && last == Reply::<
                    P,
                >::AvroEncoder(Ok(inner)) && calls.last() is NewAvroEncoder)
                &&& kind is Proto ==> (encoder matches EncoderModel::Proto(inner) && last
                    == Reply::<P>::ProtoEncoder(Ok(inner)) && calls.last() is NewProtoEncoder)
            }
        }),
{
    let calls = encoder_calls(kind, params, pk_indices, host, made);
    if calls.len() == 1 {
        assert(made + calls.drop_last() =~= made);
    } else if calls.len() == 2 {
        assert(made + calls.drop_last() =~= made.push(calls[0]));
    } else {
        assert(made + calls.drop_last() =~= made.push(calls[0]).push(calls[1]));
    }
}

} // verus!
