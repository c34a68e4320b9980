//! What every module of the mint shares: errors, versions, decoders and the handle that
//! key generation gets.

use vstd::prelude::*;

verus! {

/// Identifies a guardian of the federation.
pub type PeerId = u16;

/// Identifies one instance of a module within the federation.
pub type ModuleInstanceId = u16;

/// The error a module gives for an input or an output that it refuses.
#[derive(Debug, PartialEq, Eq, Hash)]
pub enum ModuleError<E> {
    Other(E),
}

/// Extension trait with a function to map `Result`s used by modules to
/// `ModuleError`
pub trait IntoModuleError {
    type Target;

    fn into_module_error_other(self) -> Self::Target;
}

impl<O, E> IntoModuleError for Result<O, E> {
    type Target = Result<O, ModuleError<E>>;

    fn into_module_error_other(self) -> (target: Result<O, ModuleError<E>>)
        ensures
            match self {
                Ok(output) => target == Ok::<O, ModuleError<E>>(output),
                Err(error) => target == Err::<O, ModuleError<E>>(ModuleError::Other(error)),
            },
    {
        match self {
            Ok(output) => Ok(output),
            Err(error) => Err(ModuleError::Other(error)),
        }
    }
}

/// Consensus version of a core server
///
/// Breaking changes in the core consensus require incrementing it.
#[derive(Debug, Copy, Clone, PartialEq, Eq, Structural, Hash)]
pub struct CoreConsensusVersion(pub u32);

/// Consensus version of a specific module instance
///
/// Any breaking change to the module's consensus rules require incrementing it.
///
/// A module instance can run only in one consensus version, which must be the
/// same across all corresponding instances on other nodes of the federation.
#[derive(Debug, Copy, Clone, PartialEq, Eq, Structural, Hash)]
pub struct ModuleConsensusVersion(pub u32);

/// Api version supported by a core server or a client/server module at a given
/// [`ModuleConsensusVersion`]
#[derive(Debug, Copy, Clone, PartialEq, Eq, Structural, Hash)]
pub struct ApiVersion {
    /// Incremented each time the API was changed in a backward-incompatible way, while
    /// resetting `minor` to `0`.
    pub major: u32,
    /// * For clients this means *minimum* supported minor version of the
    ///   `major` version required by client implementation
    /// * For servers this means *maximum* supported minor version of the
    ///   `major` version implemented by the server implementation
    pub minor: u32,
}

impl ApiVersion {
    /// A client that asks for `self` can talk to a server that offers `server`.
    pub open spec fn served_by(self, server: ApiVersion) -> bool {
        self.major == server.major && self.minor <= server.minor
    }
}

/// The consensus versions that a server module runs with, and the API versions that it
/// serves.
#[derive(Debug, PartialEq, Eq)]
pub struct SupportedModuleApiVersions {
    pub core_consensus: CoreConsensusVersion,
    pub module_consensus: ModuleConsensusVersion,
    pub api: Vec<ApiVersion>,
}

/// The types of a module that travel in encoded form.
#[derive(Debug, Copy, Clone, PartialEq, Eq, Structural, Hash)]
pub enum DecodableType {
    Input,
    Output,
    OutputOutcome,
    ConsensusItem,
}

/// Collects the types that a decoder is for.
#[derive(Debug, PartialEq, Eq)]
pub struct DecoderBuilder {
    pub types: Vec<DecodableType>,
}

impl DecoderBuilder {
    pub fn with_decodable_type(&mut self, decodable: DecodableType)
        ensures
            final(self).types@ == old(self).types@.push(decodable),
    {
        self.types.push(decodable);
    }

    pub fn build(self) -> (decoder: Decoder)
        ensures
            decoder.types@ == self.types@,
    {
        Decoder { types: self.types }
    }
}

/// Which types a decoder is for. It lists them by name, in the order in which they were
/// registered, and does no decoding itself.
#[derive(Debug, PartialEq, Eq)]
pub struct Decoder {
    pub types: Vec<DecodableType>,
}

impl Decoder {
    pub fn builder() -> (builder: DecoderBuilder)
        ensures
            builder.types@ == Seq::<DecodableType>::empty(),
    {
        DecoderBuilder { types: Vec::new() }
    }
}

/// The types that a module's decoder lists, in the order in which they are registered.
pub open spec fn module_decodable_types() -> Seq<DecodableType> {
    seq![
        DecodableType::Input,
        DecodableType::Output,
        DecodableType::OutputOutcome,
        DecodableType::ConsensusItem,
    ]
}

/// Module associated types required by both client and server
pub trait ModuleCommon {
    type Input;

    type Output;

    type OutputOutcome;

    type ConsensusItem;

    fn decoder_builder() -> (builder: DecoderBuilder)
        ensures
            builder.types@ == module_decodable_types(),
    {
        let mut decoder_builder = Decoder::builder();
        decoder_builder.with_decodable_type(DecodableType::Input);
        decoder_builder.with_decodable_type(DecodableType::Output);
        decoder_builder.with_decodable_type(DecodableType::OutputOutcome);
        decoder_builder.with_decodable_type(DecodableType::ConsensusItem);
        decoder_builder
    }

    fn decoder() -> (decoder: Decoder)
        ensures
            decoder.types@ == module_decodable_types(),
    {
        Self::decoder_builder().build()
    }
}

/// A module's decoder lists each of the four types that travel in encoded form, and
/// none of them twice.
pub proof fn law_decoder_lists_each_type_once(decodable: DecodableType)
    ensures
        module_decodable_types().contains(decodable),
        module_decodable_types().no_duplicates(),
{
    let types = module_decodable_types();
    assert(types[0] is Input && types[1] is Output && types[2] is OutputOutcome
        && types[3] is ConsensusItem);
}

/// A handle passed to a module's distributed key generation
///
/// It holds the connections to the other guardians, and who takes part.
#[non_exhaustive]
pub struct PeerHandle<'a, C> {
    pub connections: &'a C,
    pub module_instance_id: ModuleInstanceId,
    pub our_id: PeerId,
    pub peers: Vec<PeerId>,
}

impl<'a, C> PeerHandle<'a, C> {
    pub fn new(
        connections: &'a C,
        module_instance_id: ModuleInstanceId,
        our_id: PeerId,
        peers: Vec<PeerId>,
    ) -> (handle: Self)
        ensures
            handle.connections == connections,
            handle.module_instance_id == module_instance_id,
            handle.our_id == our_id,
            handle.peers == peers,
    {
        Self { connections, module_instance_id, our_id, peers }
    }

    pub fn peer_ids(&self) -> (peers: &[PeerId])
        ensures
            peers@ == self.peers@,
    {
        self.peers.as_slice()
    }
}

/// A client can talk to a server exactly if both have the same major version and the server's
/// minor version is not below the client's.
pub proof fn law_versions_that_fit(client: ApiVersion, server: ApiVersion)
    ensures
        client.served_by(server) <==> client.major == server.major && server.minor >= client.minor,
{
}

/// A module's decoder lists inputs, outputs, the outcomes of outputs and consensus items, in
/// this order.
pub proof fn law_decoder_lists_types_in_order()
    ensures
        module_decodable_types().len() == 4,
        module_decodable_types()[0] is Input,
        module_decodable_types()[1] is Output,
        module_decodable_types()[2] is OutputOutcome,
        module_decodable_types()[3] is ConsensusItem,
{
}

} // verus!
