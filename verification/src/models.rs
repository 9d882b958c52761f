use vstd::prelude::*;

verus! {

/// A binary asset: a payload of bytes together with its MIME type.
#[derive(Debug, Clone, PartialEq, Eq)]
pub struct Asset {
    pub mime_type: String,
    pub data: Vec<u8>,
}

} // verus!
