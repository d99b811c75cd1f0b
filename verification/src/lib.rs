//! A fixed-size hardware address value type in EUI-48 form: six octets in
//! transmission order, with bit-level classification predicates and a
//! canonical textual rendering.

pub mod addr6;
pub mod text;

pub use addr6::MacAddr6;
