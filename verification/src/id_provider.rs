//! Sources of short identifiers.

use vstd::prelude::*;

verus! {

/// How many symbols a generated identifier has.
pub const NANO_ID_LENGTH: usize = 12;

/// Hands out identifiers for new short links.
pub trait IDProvider {
    fn provide(&self) -> String;
}

/// Whether `c` belongs to the URL-safe alphabet: ASCII letters, digits, `_` and `-`.
pub open spec fn is_url_safe(c: char) -> bool {
    ||| 'a' <= c <= 'z'
    ||| 'A' <= c <= 'Z'
    ||| '0' <= c <= '9'
    ||| c == '_'
    ||| c == '-'
}

/// Whether `id` has the shape of a generated identifier: `NANO_ID_LENGTH` URL-safe symbols.
pub open spec fn is_nano_id(id: Seq<char>) -> bool {
    &&& id.len() == NANO_ID_LENGTH
    &&& forall|i: int| 0 <= i < id.len() ==> is_url_safe(#[trigger] id[i])
}

/// Calls `nanoid::format` with the crate's default generator and its `SAFE`
/// alphabet. The call keeps drawing random bytes until it has collected `size`
/// symbols of that alphabet, so the result has exactly `size` characters, each
/// one a letter, a digit, `_` or `-`. Which ones is left to chance. A `size` of
/// zero would never return and a huge one overflows the byte count per draw;
/// both are excluded. The call panics only if the operating system cannot
/// seed the generator.
#[verifier::external_body]
fn nanoid_format(size: usize) -> (id: String)
    requires
        0 < size <= 0x0fff_ffff,
    ensures
        id@.len() == size,
        forall|i: int| 0 <= i < id@.len() ==> is_url_safe(#[trigger] id@[i]),
{
    nanoid::format(nanoid::rngs::default, &nanoid::alphabet::SAFE, size)
}

/// The provider for production: random identifiers.
pub struct NanoIdProvider;

impl IDProvider for NanoIdProvider {
    fn provide(&self) -> (id: String)
        ensures
            is_nano_id(id@),
    {
        nanoid_format(NANO_ID_LENGTH)
    }
}

/// A provider that repeats one fixed identifier until told another.
pub struct FakeIDProvider {
    id: String,
}

impl FakeIDProvider {
    /// The identifier this provider currently hands out.
    pub closed spec fn id(&self) -> Seq<char> {
        self.id@
    }

    pub fn new(id: String) -> (provider: Self)
        ensures
            provider.id() == id@,
    {
        Self { id }
    }

    pub fn set_id(&mut self, id: String)
        ensures
            final(self).id() == id@,
    {
        self.id = id
    }
}

impl IDProvider for FakeIDProvider {
    fn provide(&self) -> (id: String)
        ensures
            id@ == self.id(),
    {
        self.id.clone()
    }
}

} // verus!
