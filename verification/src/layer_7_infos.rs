//! Application-layer stub: no application protocol is identified yet, so
//! the finding is always absent. The stage exists so the decoder's cascade
//! has its place to grow.

use crate::text::view_opt;
use vstd::prelude::*;

verus! {

/// Application-layer description of one frame; nothing is identified yet.
#[derive(Debug, Clone)]
pub struct Layer7Infos {
    proto: Option<String>,
}

impl View for Layer7Infos {
    type V = Option<Seq<char>>;

    closed spec fn view(&self) -> Option<Seq<char>> {
        view_opt(self.proto)
    }
}

/// Inspects the payload above the transport layer; no application protocol
/// is recognized yet, so the result is always absent.
pub fn get_layer_7_infos(data: &[u8]) -> (r: Layer7Infos)
    ensures
        r@ == Option::None::<Seq<char>>,
{
    let _ = data;
    Layer7Infos { proto: Option::None }
}

} // verus!
