//! The tag entity.

use vstd::prelude::*;
use std::borrow::Cow;

verus! {

/// One physical credential, as it is provisioned.  Identification reads tags
/// from the store and never builds this value.
pub struct Tag<'id, 'adata> {
    /// Identifier of the tag, unique across all tags.
    pub id: Cow<'id, [u8]>,
    /// The member who owns the tag.
    pub uid: u32,
    /// Code of the secondary authentication scheme; its meaning belongs to
    /// the authenticator.
    pub auth_method: u32,
    /// Data for the secondary authentication; `None` where possession of the
    /// tag is enough.
    pub auth_data: Option<Cow<'adata, [u8]>>,
}

} // verus!
