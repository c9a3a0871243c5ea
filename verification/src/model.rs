//! What the visitor counter shows.

use crate::chunk::chunk_bytes;
use bytes::Bytes;
use vstd::prelude::*;

verus! {

/// What one update of the visitor counter is made from.
#[derive(Debug)]
pub struct Context {
    /// The number of the update that this one replaces, or zero.
    pub previous_id: usize,
    /// The number of this update.
    pub current_id: usize,
    /// How many visitors are connected.
    pub connection_count: usize,
}

impl Clone for Context {
    fn clone(&self) -> (r: Self)
        ensures
            r == *self,
    {
        Context {
            previous_id: self.previous_id,
            current_id: self.current_id,
            connection_count: self.connection_count,
        }
    }
}

/// One update of the visitor counter, ready to be sent.
#[derive(Debug)]
pub struct MisskeyData {
    pub html: Bytes,
}

impl Clone for MisskeyData {
    fn clone(&self) -> (r: Self)
        ensures
            chunk_bytes(r.html) == chunk_bytes(self.html),
    {
        MisskeyData { html: self.html.clone() }
    }
}

/// Copies hold the same numbers and the same bytes.
pub proof fn law_copies(ctx: Context, a: Context, data: MisskeyData, b: MisskeyData)
    requires
        call_ensures(<Context as Clone>::clone, (&ctx,), a),
        call_ensures(<MisskeyData as Clone>::clone, (&data,), b),
    ensures
        a.previous_id == ctx.previous_id,
        a.current_id == ctx.current_id,
        a.connection_count == ctx.connection_count,
        chunk_bytes(b.html) == chunk_bytes(data.html),
{
}

} // verus!
