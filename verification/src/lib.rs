//! A minimal bounded-counter library: a single-value wrapper over a generic
//! unsigned integer type whose increment and decrement wrap around at the
//! type's bounds instead of overflowing.

mod bounds;
mod counter;

pub use bounds::IntView;
pub use bounds::Max;
pub use bounds::Min;
pub use bounds::WrappingOps;
pub use bounds::span;
pub use counter::SubComponent;
pub use counter::lemma_value_determines_state;
