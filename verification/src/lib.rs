//! A wraparound counter: a fixed-width integer paired with a signed count of
//! how many times it has wrapped its representable range, giving an order and
//! an equality that survive overflow.

mod counter;
mod laws;
mod wrap_int;

pub use counter::lemma_value_in_range;
pub use counter::WrappedNum;
pub use laws::lemma_add_sub_symmetry;
pub use laws::lemma_equality_needs_matching_offset;
pub use laws::lemma_order_is_strict_total;
pub use laws::lemma_order_reflects_magnitude;
pub use laws::lemma_same_offset_orders_by_value;
pub use laws::lemma_wrap_outranks_value;
pub use wrap_int::range_size;
pub use wrap_int::wrap_step;
pub use wrap_int::wrap_to;
pub use wrap_int::WrapInt;
