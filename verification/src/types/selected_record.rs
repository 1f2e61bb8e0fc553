use vstd::prelude::*;

verus! {

/// A row as the relay's API returns it: its id and its fields.
#[derive(Debug)]
pub struct SelectedRecord<T> {
    pub id: i64,
    pub entry: T,
}

} // verus!
