//! The border between this library and the program around it.
//!
//! Building a formatter takes work that is done elsewhere: message schemas are fetched over the
//! network, and two of the encoders check their schema themselves. A build therefore runs in
//! steps. Where it needs such work it stops and says what it asks for, a [`Call`]; the host does
//! the work and resumes the build with the [`Reply`].

use vstd::prelude::*;

use crate::catalog::{Schema, SchemaModel};
use crate::error::{ErrorModel, SinkError};
use crate::options::Options;

verus! {

/// The types of the values that a build gets from the host and carries on unopened.
pub trait Host: Sized {
    /// How timestamps with a time zone are written.
    type TimestamptzMode;

    /// How JSON columns are written.
    type JsonbMode;

    /// A Protobuf message descriptor.
    type Descriptor;

    /// The identifier of a message schema in a schema registry.
    type SchemaId;

    /// A loader of Avro schemas.
    type SchemaLoader;

    /// An Avro schema.
    type AvroSchema;

    /// A Protobuf encoder.
    type ProtoEncoder;

    /// An Avro encoder.
    type AvroEncoder;

    /// Why a message schema could not be got.
    type FetchError;

    /// Any other error of the host.
    type Error;
}

/// What stands before each Protobuf message.
pub enum ProtoHeader<P: Host> {
    Absent,
    ConfluentSchemaRegistry(P::SchemaId),
}

/// What stands before each Avro message.
pub enum AvroHeader<P: Host> {
    ConfluentSchemaRegistry(P::SchemaId),
}

/// Work that a build asks of the host.
#[allow(inconsistent_fields)]
pub enum Call<'a, P: Host> {
    /// Read from the options how timestamps with a time zone are written.
    TimestamptzMode { options: &'a Options },
    /// Read from the options how JSON columns are written.
    JsonbMode { options: &'a Options },
    /// Fetch the descriptor of the Protobuf message, without credentials for object stores.
    FetchDescriptor { options: &'a Options, topic: &'a str },
    /// Make a Protobuf encoder of all columns.
    NewProtoEncoder { schema: Schema, descriptor: P::Descriptor, header: ProtoHeader<P> },
    /// Make a loader of Avro schemas.
    OpenSchemaLoader { topic: &'a str, options: &'a Options },
    /// Load the Avro schema of the key.
    LoadKeySchema { loader: P::SchemaLoader },
    /// Load the Avro schema of the value.
    LoadValSchema { loader: P::SchemaLoader },
    /// Make an Avro encoder of the columns at `pk_indices`, or of all columns.
    NewAvroEncoder {
        schema: Schema,
        pk_indices: Option<Vec<usize>>,
        avro: P::AvroSchema,
        header: AvroHeader<P>,
    },
}

/// A call with its options, texts and schemas as mathematical values.
#[allow(inconsistent_fields)]
pub enum CallModel<P: Host> {
    TimestamptzMode { options: Map<Seq<char>, Seq<char>> },
    JsonbMode { options: Map<Seq<char>, Seq<char>> },
    FetchDescriptor { options: Map<Seq<char>, Seq<char>>, topic: Seq<char> },
    NewProtoEncoder { schema: SchemaModel, descriptor: P::Descriptor, header: ProtoHeader<P> },
    OpenSchemaLoader { topic: Seq<char>, options: Map<Seq<char>, Seq<char>> },
    LoadKeySchema { loader: P::SchemaLoader },
    LoadValSchema { loader: P::SchemaLoader },
    NewAvroEncoder {
        schema: SchemaModel,
        pk_indices: Option<Seq<usize>>,
        avro: P::AvroSchema,
        header: AvroHeader<P>,
    },
}

/// The columns of a key, as a sequence; none for a value.
pub open spec fn indices_view(pk_indices: Option<Vec<usize>>) -> Option<Seq<usize>> {
    match pk_indices {
        Some(indices) => Some(indices@),
        None => None,
    }
}

impl<'a, P: Host> View for Call<'a, P> {
    type V = CallModel<P>;

    open spec fn view(&self) -> CallModel<P> {
        match *self {
            Call::TimestamptzMode { options } => CallModel::TimestamptzMode { options: options@ },
            Call::JsonbMode { options } => CallModel::JsonbMode { options: options@ },
            Call::FetchDescriptor { options, topic } => CallModel::FetchDescriptor {
                options: options@,
                topic: topic@,
            },
            Call::NewProtoEncoder { schema, descriptor, header } => CallModel::NewProtoEncoder {
                schema: schema@,
                descriptor,
                header,
            },
            Call::OpenSchemaLoader { topic, options } => CallModel::OpenSchemaLoader {
                topic: topic@,
                options: options@,
            },
            Call::LoadKeySchema { loader } => CallModel::LoadKeySchema { loader },
            Call::LoadValSchema { loader } => CallModel::LoadValSchema { loader },
            Call::NewAvroEncoder { schema, pk_indices, avro, header } =>
            CallModel::NewAvroEncoder {
                schema: schema@,
                pk_indices: indices_view(pk_indices),
                avro,
                header,
            },
        }
    }
}

/// What the host answers.
pub enum Reply<P: Host> {
    TimestamptzMode(Result<P::TimestamptzMode, P::Error>),
    JsonbMode(Result<P::JsonbMode, P::Error>),
    Descriptor(Result<(P::Descriptor, Option<P::SchemaId>), P::FetchError>),
    ProtoEncoder(Result<P::ProtoEncoder, P::Error>),
    SchemaLoader(Result<P::SchemaLoader, P::FetchError>),
    Schema(Result<(P::SchemaId, P::AvroSchema), P::FetchError>),
    AvroEncoder(Result<P::AvroEncoder, P::Error>),
}

impl<P: Host> CallModel<P> {
    /// `reply` is of the kind that this call asks for.
    pub open spec fn answered_by(self, reply: Reply<P>) -> bool {
        match self {
            CallModel::TimestamptzMode { .. } => reply is TimestamptzMode,
            CallModel::JsonbMode { .. } => reply is JsonbMode,
            CallModel::FetchDescriptor { .. } => reply is Descriptor,
            CallModel::NewProtoEncoder { .. } => reply is ProtoEncoder,
            CallModel::OpenSchemaLoader { .. } => reply is SchemaLoader,
            CallModel::LoadKeySchema { .. } => reply is Schema,
            CallModel::LoadValSchema { .. } => reply is Schema,
            CallModel::NewAvroEncoder { .. } => reply is AvroEncoder,
        }
    }
}

/// How far a build of a `T` has come.
pub enum Progress<'a, P: Host, T, S> {
    /// It is over.
    Ready(Result<T, SinkError<P>>),
    /// It waits for the reply to a call, with what it knows so far.
    Waiting(Call<'a, P>, S),
}

/// How far a build has come, over models.
pub enum ProgressModel<P: Host, T, S> {
    Ready(Result<T, ErrorModel<P>>),
    Waiting(CallModel<P>, S),
}

impl<'a, P: Host, T: View, S: View> View for Progress<'a, P, T, S> {
    type V = ProgressModel<P, T::V, S::V>;

    open spec fn view(&self) -> ProgressModel<P, T::V, S::V> {
        match *self {
            Progress::Ready(Ok(built)) => ProgressModel::Ready(Ok(built@)),
            Progress::Ready(Err(error)) => ProgressModel::Ready(Err(error@)),
            Progress::Waiting(call, state) => ProgressModel::Waiting(call@, state@),
        }
    }
}

} // verus!
