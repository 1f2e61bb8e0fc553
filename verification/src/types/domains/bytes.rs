use vstd::prelude::*;

verus! {

/// Raw bytes, as a `BYTEA` column holds them.
#[derive(Debug, PartialEq, Eq)]
pub struct DomainBytes(pub Vec<u8>);

impl DomainBytes {
    /// The bytes of a `BYTEA` value, copied.
    pub fn from_sql_bytes(raw: &[u8]) -> (r: DomainBytes)
        ensures
            r.0@ == raw@,
    {
        DomainBytes(vstd::slice::slice_to_vec(raw))
    }

    /// The bytes to write for a `BYTEA` value.
    pub fn as_sql_bytes(&self) -> (r: &[u8])
        ensures
            r@ == self.0@,
    {
        self.0.as_slice()
    }
}

} // verus!
