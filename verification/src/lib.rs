//! Packed flag sets ("Bairiak") and the generator that turns a declarative
//! list of flag enums into the source text of their definitions.

pub mod codegen;
pub mod container;
pub mod decimal;
pub mod defect;
pub mod diagnose;
pub mod error;
pub mod name;
pub mod pipeline;
pub mod text;
pub mod width;

pub use codegen::{
    find_validation_defect, generate_enum, generate_enums, validate_enum, Enum, EnumSpec,
};
pub use container::{generate_bairiak, Bairiak, BairiakEnum};
pub use decimal::to_decimal;
pub use defect::Defect;
pub use diagnose::{find_defect, find_first_defect};
pub use error::BairiakError;
pub use name::is_camel_case;
pub use pipeline::{generate_output, next_action, Action, Event};
pub use width::{count_defect, generete_zero_bairiak};
