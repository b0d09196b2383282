//! The registry of message types that a node can decode.

use vstd::prelude::*;
use crate::remote::handler::RemoteMessage;
use crate::remote::table::Table;

verus! {

/// Maps type tags to decoders. Until the first registration it holds no
/// table at all.
pub struct TypeRegistry<D> {
    decoders: Option<Table<D>>,
}

/// Why no decoder was found. Both are recoverable.
#[derive(Clone, Copy, Debug, PartialEq, Eq, Structural)]
pub enum RegistryError {
    /// Nothing was ever registered.
    NoMessagesRegistered,
    /// The type tag is not registered.
    UnknownMessageType,
}

/// The entries of a registry after `decoder` was registered under `type_id`.
pub open spec fn registered<D>(
    before: Option<Map<Seq<char>, D>>,
    type_id: Seq<char>,
    decoder: D,
) -> Option<Map<Seq<char>, D>> {
    Some(
        (match before {
            Some(m) => m,
            None => Map::<Seq<char>, D>::empty(),
        }).insert(type_id, decoder),
    )
}

impl<D> TypeRegistry<D> {
    /// The decoders by type tag, once anything was registered.
    pub closed spec fn entries(self) -> Option<Map<Seq<char>, D>> {
        match self.decoders {
            Some(table) => Some(table@),
            None => None,
        }
    }

    /// A registry in which nothing is registered.
    pub fn new() -> (registry: Self)
        ensures
            registry.entries() is None,
    {
        TypeRegistry { decoders: None }
    }

    /// Registers `decoder` under `type_id`, in place of any decoder that the
    /// tag had.
    pub fn register(&mut self, type_id: &str, decoder: D)
        ensures
            final(self).entries() == registered(old(self).entries(), type_id@, decoder),
    {
        let table = match self.decoders.take() {
            Some(table) => table,
            None => Table::new(),
        };
        self.decoders = Some(table.with(type_id.to_owned(), decoder));
    }

    /// The decoder registered under `type_id`.
    pub fn decoder_for(&self, type_id: &str) -> (found: Result<&D, RegistryError>)
        ensures
            self.entries() is None ==> found == Err::<&D, RegistryError>(
                RegistryError::NoMessagesRegistered,
            ),
            self.entries() is Some && !self.entries().unwrap().contains_key(type_id@) ==> found
                == Err::<&D, RegistryError>(RegistryError::UnknownMessageType),
            self.entries() is Some && self.entries().unwrap().contains_key(type_id@) ==> found
                == Ok::<&D, RegistryError>(&self.entries().unwrap()[type_id@]),
    {
        match &self.decoders {
            None => Err(RegistryError::NoMessagesRegistered),
            Some(table) => match table.get(type_id) {
                Some(decoder) => Ok(decoder),
                None => Err(RegistryError::UnknownMessageType),
            },
        }
    }
}

/// Registers `decoder` for messages of type `M`: `register` under the tag
/// that `M` declares.
pub fn register_message<M: RemoteMessage, D>(registry: &mut TypeRegistry<D>, decoder: D)
    ensures
        exists|tag: Seq<char>|
            final(registry).entries() == #[trigger] registered(
                old(registry).entries(),
                tag,
                decoder,
            ),
{
    let tag = M::type_id();
    registry.register(tag, decoder);
    assert(registry.entries() == registered(old(registry).entries(), tag@, decoder));
}

/// Decodes `payload` with the decoder registered under `type_id`. Where the
/// tag has a decoder, the result is what that decoder makes of the payload.
pub fn deserialize_payload<T, D: Fn(&[u8]) -> T>(
    registry: &TypeRegistry<D>,
    type_id: &str,
    payload: &[u8],
) -> (decoded: Result<T, RegistryError>)
    requires
        registry.entries() is Some && registry.entries().unwrap().contains_key(type_id@)
            ==> call_requires(registry.entries().unwrap()[type_id@], (payload,)),
    ensures
        registry.entries() is None ==> decoded == Err::<T, RegistryError>(
            RegistryError::NoMessagesRegistered,
        ),
        registry.entries() is Some && !registry.entries().unwrap().contains_key(type_id@)
            ==> decoded == Err::<T, RegistryError>(RegistryError::UnknownMessageType),
        registry.entries() is Some && registry.entries().unwrap().contains_key(type_id@)
            ==> decoded is Ok && call_ensures(
            registry.entries().unwrap()[type_id@],
            (payload,),
            decoded.unwrap(),
        ),
{
    match registry.decoder_for(type_id) {
        Ok(decoder) => Ok(decoder(payload)),
        Err(e) => Err(e),
    }
}

/// Lookup after registration: the tag just registered finds its decoder,
/// every other tag finds what it found before.
pub proof fn lemma_register_then_find<D>(
    before: Map<Seq<char>, D>,
    type_id: Seq<char>,
    decoder: D,
    other: Seq<char>,
)
    ensures
        before.insert(type_id, decoder).contains_key(type_id),
        before.insert(type_id, decoder)[type_id] == decoder,
        other != type_id ==> before.insert(type_id, decoder).contains_key(other)
            == before.contains_key(other),
        other != type_id && before.contains_key(other) ==> before.insert(type_id, decoder)[other]
            == before[other],
{
}

} // verus!
