//! The query shape of an address-translation request and the body of its
//! response.

use vstd::prelude::*;

use crate::base58::base58_of;
use crate::codec::{convert, spec_convert, Encoding};

verus! {

/// Parameters of an address-translation query: the address to translate and
/// the encoding it should be translated to.
pub struct AddressParams {
    pub address: String,
    pub network: Encoding,
}

/// How a response body relates to the conversion of the decoded bytes: the
/// converted address, or the empty string.
pub open spec fn response_matches(r: String, m: Option<Seq<u8>>) -> bool {
    match m {
        Some(p) => r@ == base58_of(p),
        None => r@ == Seq::<char>::empty(),
    }
}

/// The response body for an address-translation query: the converted address,
/// or the empty string when no conversion exists. A failed decode and a
/// missing result collapse to the same empty body on purpose.
pub fn address_response(params: AddressParams) -> (r: String)
    ensures
        forall|d: Seq<u8>| params.address@ == #[trigger] base58_of(d) ==> response_matches(
            r,
            spec_convert(d, params.network),
        ),
        (forall|d: Seq<u8>| params.address@ != base58_of(d)) ==> r@ == Seq::<char>::empty(),
{
    match convert(params.address.as_str(), params.network) {
        Some(s) => s,
        None => String::new(),
    }
}

} // verus!
