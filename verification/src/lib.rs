//! A constraint-based box-layout engine: a tree of nodes carrying sizing
//! policies, padding, spacing and alignment is resolved, against an outer
//! rectangle, into the final rectangle of every node. All geometry is in
//! whole integer units, with arithmetic that saturates instead of
//! overflowing, and the layout of a tree is proved equal to a single
//! mathematical function of the tree and its bounds.

pub mod layout;
pub mod mock;
pub mod parsing;
pub mod units;

pub use layout::alignment::{AlignUnit, Alignment};
pub use layout::calculated::{CalcModel, CalculatedElement};
pub use layout::common::{Direction, Sizing, SizingUnit};
pub use layout::constraints::ConstraintUnit;
pub use layout::dimension::Dimensions;
pub use layout::directional::Directional;
pub use layout::element::{Element, ElementBuilder, ElementKind, ElementLayout};
pub use layout::padding::{PaddedDimensions, Padding};
pub use layout::position::Position;
pub use layout::rect::{Rect, RectModel, Side};
pub use layout::text::TextLayoutElement;
pub use parsing::{parse_constraint_unit, parse_sizing_unit, ParsingError};
