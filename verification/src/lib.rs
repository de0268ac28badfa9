//! Compiles a declarative description of a plot (data series, axis state and
//! styling options) into the script and inline binary data that a plotting
//! engine reads.
//!
//! Numbers are held as the bit patterns of doubles ([`Scalar`]). A binary
//! payload is their little-endian bytes; a directive that mentions a number
//! keeps the number itself in its place in the [`Script`], and whoever sends
//! the script writes it out in decimal.

pub mod axes;
pub mod axis;
pub mod element;
pub mod error;
pub mod interface;
pub mod label;
pub mod options;
pub mod palette;
pub mod payload;
pub mod scalar;
pub mod script;
pub mod symbol;

pub use axes::AxesCommonData;
pub use axis::{AxisData, TickAxis};
pub use element::{DataSourceType, PlotElement, PlotType};
pub use error::InvalidArgument;
pub use interface::{AxesCommon, AxesCommonPrivate};
pub use label::{write_out_label_options, LabelType};
pub use options::{
    resolve, AlignType, AutoOption, Coordinate, DashType, FillRegionType, LabelOption,
    LabelOptionKind, PaletteType, PlotOption, PlotOptionKind, Tick, TickOption, TickOptionKind,
};
pub use palette::ControlPoint;
pub use scalar::{write_data, Scalar};
pub use script::{Atom, Piece, Quantity, Script, FRACTION_DIGITS};
pub use symbol::char_to_symbol;
